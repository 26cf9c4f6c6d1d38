use onnx_ml_nodes::codegen::imputer::{f32_bits_as_i64, ImputerConfig, ImputerNode};
use onnx_ml_nodes::codegen::scaler::{ScalerConfig, ScalerNode};
use onnx_ml_nodes::ir::{ArgType, Argument, DType, F32Value, TensorType};
use onnx_ml_nodes::node::svmregressor::{SVMRegressorConfig, SVMRegressorNode, SVMRegressorNodeBuilder};
use onnx_ml_nodes::node::tree_ensemble_classifier::{
    TreeEnsembleClassifierConfig, TreeEnsembleClassifierNode, TreeEnsembleClassifierNodeBuilder,
};

fn fv(x: f32) -> F32Value {
    F32Value::new(x.to_bits(), format!("{}", x))
}

fn fvs(v: Vec<f32>) -> Vec<F32Value> {
    v.into_iter().map(fv).collect()
}

/// The token text of Rust code: layout and trailing commas before a closing
/// bracket do not count.
fn norm(code: &str) -> String {
    let compact: String = code.chars().filter(|c| !c.is_whitespace()).collect();
    let chars: Vec<char> = compact.chars().collect();
    let mut out = String::new();
    for (i, c) in chars.iter().enumerate() {
        if *c == ',' && i + 1 < chars.len() && matches!(chars[i + 1], ')' | ']' | '>' | '}') {
            continue;
        }
        out.push(*c);
    }
    out
}

fn assert_code(code: &str, expected: &str) {
    assert_eq!(norm(code), norm(expected), "generated:\n{code}");
}

fn assert_contains(code: &str, part: &str) {
    assert!(norm(code).contains(&norm(part)), "missing {part:?} in:\n{code}");
}

#[test]
fn float_to_integer_conversion_matches_rust_cast() {
    let samples: Vec<f32> = vec![
        0.0, -0.0, 0.4, -0.4, 0.999, 1.0, -1.0, 1.5, -1.5, 3.7, -3.7, 255.9, 1e7, 16777215.0, 16777216.0,
        123456789.0, -987654321.0, 1e18, -1e18, 9.2233715e18, -9.2233715e18, 9.223372e18, -9.223372e18, 1e19,
        -1e19, 1e30, -1e30, f32::MAX, f32::MIN, f32::MIN_POSITIVE, 1e-40, -1e-40, f32::INFINITY,
        f32::NEG_INFINITY, f32::NAN, -f32::NAN,
    ];
    for x in samples {
        assert_eq!(f32_bits_as_i64(x.to_bits()), x as i64, "converting {x}");
    }
    for bits in (0u32..=u32::MAX).step_by(65_537) {
        let x = f32::from_bits(bits);
        assert_eq!(f32_bits_as_i64(bits), x as i64, "converting bits {bits:#x}");
    }
}

fn int_imputer(replaced: f32, imputed: Vec<i64>) -> ImputerNode {
    let config = ImputerConfig::new(None, Some(imputed), Some(fv(replaced)));
    let input = Argument::new("x", ArgType::Tensor(TensorType::new(DType::I32, 3, None)));
    let output = Argument::new("y", ArgType::Tensor(TensorType::new(DType::I32, 3, None)));
    ImputerNode::new("imp".to_string(), vec![input], vec![output], config)
}

#[test]
fn integer_imputer_mask_truncates_the_replaced_value() {
    let code = int_imputer(-3.9, vec![5]).forward();
    assert_code(&code, "let y = { let mask = x.clone().equal_elem(-3i64); x.mask_fill(mask, 5i64) };");
    let code = int_imputer(1e30, vec![5]).forward();
    assert_contains(&code, "equal_elem(9223372036854775807i64)");
    let code = int_imputer(f32::NAN, vec![5]).forward();
    assert_contains(&code, "equal_elem(0i64)");
}

#[test]
fn integer_imputer_fills_feature_by_feature() {
    let code = int_imputer(2.0, vec![7, -8, i64::MIN]).forward();
    assert_code(&code, r###"
        let y = {
            let imputed_values = vec![7i64, -8i64, -9223372036854775808i64];
            let mask = x.clone().equal_elem(2i64);
            let mut result = x.clone();
            let shape = result.shape();
            let num_features = shape.dims[shape.dims.len() - 1];
            for feature_idx in 0..num_features.min(imputed_values.len()) {
                let feature_mask = mask.clone().narrow(shape.dims.len() - 1, feature_idx, 1);
                let imputed_val = imputed_values[feature_idx];
                result = result.mask_fill(feature_mask, imputed_val);
            }
            result
        };
        "###);
}

#[test]
fn integer_imputer_without_replaced_value_copies_input() {
    let config = ImputerConfig::new(None, Some(vec![1]), None);
    let input = Argument::new("x", ArgType::Tensor(TensorType::new(DType::I64, 2, None)));
    let output = Argument::new("y", ArgType::Tensor(TensorType::new(DType::I64, 2, None)));
    let node = ImputerNode::new("imp".to_string(), vec![input], vec![output], config);
    assert_eq!(node.forward(), "let y = x.clone();");
}

#[test]
fn float_scalar_imputer_tests_nan_and_replaced_value() {
    let config = ImputerConfig::new(Some(fvs(vec![0.25])), None, Some(fv(-1.0)));
    let input = Argument::new("s", ArgType::Scalar(DType::F32));
    let output = Argument::new("t", ArgType::Scalar(DType::F32));
    let node = ImputerNode::new("imp".to_string(), vec![input], vec![output], config);
    assert_code(&node.forward(), "let t = if s.clone().is_nan() || s == -1f32 { 0.25f32 } else { s };");
}

#[test]
fn float_imputer_with_replaced_value_compares_elements() {
    let config = ImputerConfig::new(Some(fvs(vec![9.5])), None, Some(fv(999.0)));
    let input = Argument::new("x", ArgType::Tensor(TensorType::new(DType::F64, 2, None)));
    let output = Argument::new("y", ArgType::Tensor(TensorType::new(DType::F64, 2, None)));
    let node = ImputerNode::new("imp".to_string(), vec![input], vec![output], config);
    assert_code(&node.forward(), "let y = { let mask = x.clone().equal_elem(999f32); x.mask_fill(mask, 9.5f32) };");
}

#[test]
fn imputer_leaves_other_inputs_unchanged() {
    let config = ImputerConfig::new(Some(fvs(vec![1.0])), None, None);
    let input = Argument::new("b", ArgType::Tensor(TensorType::new(DType::U8, 1, None)));
    let output = Argument::new("c", ArgType::Tensor(TensorType::new(DType::U8, 1, None)));
    let node = ImputerNode::new("imp".to_string(), vec![input], vec![output], config);
    assert_eq!(node.forward(), "let c = b.clone();");
    assert_eq!(node.inputs()[0].name, "b");
    assert_eq!(node.outputs()[0].name, "c");
}

#[test]
fn scaler_on_a_native_scalar_uses_the_first_values() {
    let input = Argument::new("s", ArgType::ScalarNative(DType::F32));
    let output = Argument::new("t", ArgType::ScalarNative(DType::F32));
    let config = ScalerConfig::new(Some(fvs(vec![2.0, 3.0])), Some(fvs(vec![0.5])));
    let node = ScalerNode::new("sc".to_string(), vec![input], vec![output], config);
    assert_eq!(node.forward(), "let t = (s - 0.5f32) * 2f32;");
    let input = Argument::new("s", ArgType::ScalarNative(DType::F32));
    let output = Argument::new("t", ArgType::ScalarNative(DType::F32));
    let node = ScalerNode::new("sc".to_string(), vec![input], vec![output], ScalerConfig::new(None, None));
    assert_eq!(node.forward(), "let t = s;");
}

#[test]
fn scaler_on_a_backend_scalar_copies_input() {
    let input = Argument::new("s", ArgType::Scalar(DType::F32));
    let output = Argument::new("t", ArgType::Scalar(DType::F32));
    let config = ScalerConfig::new(Some(fvs(vec![2.0])), None);
    let node = ScalerNode::new("sc".to_string(), vec![input], vec![output], config);
    assert_eq!(node.forward(), "let t = s.clone();");
}

#[test]
fn scaler_reshapes_along_the_last_dimension_of_the_rank() {
    let input = Argument::new("x", ArgType::Tensor(TensorType::new(DType::F32, 3, None)));
    let output = Argument::new("y", ArgType::Tensor(TensorType::new(DType::F32, 3, None)));
    let config = ScalerConfig::new(Some(fvs(vec![2.0, 4.0])), None);
    let node = ScalerNode::new("sc".to_string(), vec![input], vec![output], config);
    assert_code(&node.forward(), r###"
        let y = {
            let scale_tensor = Tensor::<B, 1>::from_floats([2f32, 4f32], &*self.device)
                .reshape([1usize, 1usize, 2usize]);
            x.clone() * scale_tensor
        };
        "###);
}

fn svm_node(config: SVMRegressorConfig) -> SVMRegressorNode {
    SVMRegressorNodeBuilder::new("svm1")
        .input_tensor("input", 2, DType::F32)
        .output_tensor("output", 2, DType::F32)
        .config(config)
        .build()
}

fn linear_config(post_transform: Option<&str>) -> SVMRegressorConfig {
    SVMRegressorConfig::new(
        Some(fvs(vec![1.0, -0.5])),
        None,
        Some("LINEAR".to_string()),
        Some(2),
        None,
        post_transform.map(|p| p.to_string()),
        Some(fvs(vec![0.5])),
        Some(fvs(vec![1.0, 2.0, 3.0, 4.0])),
    )
}

const LINEAR_KERNEL: &str = r###"{
    let rho = 0.5f32;
    let (coef, sv) = &self.svm1;
    let kernel_values = input.matmul(sv.clone().transpose());
    let result = kernel_values.matmul(coef.clone()) + rho;
    result
}"###;

#[test]
fn svm_linear_forward_adds_the_bias() {
    let code = svm_node(linear_config(None)).forward();
    assert_code(&code, &format!("let output = {LINEAR_KERNEL};"));
}

#[test]
fn svm_post_transforms_wrap_the_kernel() {
    let code = svm_node(linear_config(Some("LOGISTIC"))).forward();
    assert_code(&code, &format!("let output = {{ let y = {LINEAR_KERNEL}; (y.neg().exp() + 1.0).recip() }};"));
    let code = svm_node(linear_config(Some("SOFTMAX"))).forward();
    assert_code(&code, &format!("let output = {{ let y = {LINEAR_KERNEL}; y.exp() / y.exp().sum_dim(0) }};"));
    let code = svm_node(linear_config(Some("PROBIT"))).forward();
    assert_code(&code, &format!("let output = {{ let y = {LINEAR_KERNEL}; y }};"));
    let code = svm_node(linear_config(Some("SOFTMAX_ZERO"))).forward();
    assert_code(
        &code,
        &format!(
            "let output = {{ let y = {LINEAR_KERNEL}; let zeros = y.zeros_like(); \
             let combined = Tensor::cat(vec![y, zeros], 0); combined.exp() / combined.exp().sum_dim(0) }};"
        ),
    );
    let code = svm_node(linear_config(Some("OTHER"))).forward();
    assert_code(&code, &format!("let output = {LINEAR_KERNEL};"));
}

#[test]
fn svm_kernel_parameters_default_when_absent() {
    let mut config = linear_config(None);
    config.kernel_type = Some("POLY".to_string());
    config.kernel_params = Some(fvs(vec![2.0]));
    let code = svm_node(config).forward();
    assert_contains(&code, "let gamma = 2f32; let coef0 = 0f32; let degree = 3f32;");
    assert_contains(&code, "(dot_products * gamma + coef0).powf_scalar(degree)");

    let mut config = linear_config(None);
    config.kernel_type = Some("RBF".to_string());
    let code = svm_node(config).forward();
    assert_contains(&code, "let gamma = 0.1f32; let n_supports = 2usize;");

    let mut config = linear_config(None);
    config.kernel_type = Some("SIGMOID".to_string());
    config.kernel_params = Some(fvs(vec![0.5, 1.5]));
    let code = svm_node(config).forward();
    assert_contains(&code, "let gamma = 0.5f32; let coef0 = 1.5f32;");
    assert_contains(&code, "(dot_products * gamma + coef0).tanh()");
}

#[test]
fn svm_without_data_or_with_unknown_kernel_passes_input_through() {
    let mut config = linear_config(None);
    config.kernel_type = Some("CUSTOM".to_string());
    assert_eq!(svm_node(config).forward(), "let output = input.clone();");
    let mut config = linear_config(None);
    config.coefficients = None;
    assert_eq!(svm_node(config).forward(), "let output = input.clone();");
}

#[test]
fn svm_field_holds_coefficients_and_support_vectors() {
    let node = svm_node(linear_config(None));
    assert_eq!(node.supports(), 2);
    let field = node.field().expect("field");
    assert_eq!(field.name, "svm1");
    assert_eq!(field.ty, "(Tensor<B, 2>, Tensor<B, 2>)");
    assert_code(&field.init, r###"
        let svm1 = (
            Tensor::<B, 2>::from_data(
                burn::tensor::TensorData::new(vec![1f32, -0.5f32], [2usize, 1]),
                device
            ),
            Tensor::<B, 2>::from_data(
                burn::tensor::TensorData::new(vec![1f32, 2f32, 3f32, 4f32], [2usize, 2usize]),
                device
            )
        );
        "###);
}

#[test]
fn svm_field_absent_without_support_count_or_data() {
    let mut config = linear_config(None);
    config.n_supports = None;
    assert!(svm_node(config).field().is_none());
    let mut config = linear_config(None);
    config.support_vectors = Some(vec![]);
    assert!(svm_node(config).field().is_none());
    let mut config = linear_config(None);
    config.coefficients = None;
    assert!(svm_node(config).field().is_none());
}

fn tree_node(config: TreeEnsembleClassifierConfig) -> TreeEnsembleClassifierNode {
    TreeEnsembleClassifierNodeBuilder::new("tree1")
        .input_tensor("x", 2, DType::F32)
        .output_tensor("labels", 1, DType::I64)
        .output_tensor("probs", 2, DType::F32)
        .config(config)
        .build()
}

fn stump(modes: Vec<&str>, post_transform: Option<&str>) -> TreeEnsembleClassifierConfig {
    TreeEnsembleClassifierConfig::new(
        None,
        Some(vec![0, 1]),
        Some(vec![1, 2]),
        Some(vec![0, 0]),
        Some(fvs(vec![0.25, 0.75])),
        Some(vec![10, 20]),
        None,
        Some(vec![3, 0, 0]),
        None,
        None,
        Some(modes.into_iter().map(|m| m.to_string()).collect()),
        Some(vec![0, 1, 2]),
        Some(vec![0, 0, 0]),
        Some(vec![1, 0, 0]),
        Some(vec![2, 0, 0]),
        Some(fvs(vec![1.5, 0.0, 0.0])),
        post_transform.map(|p| p.to_string()),
    )
}

#[test]
fn tree_forward_writes_the_arrays_and_quotes_the_modes() {
    let code = tree_node(stump(vec!["BRANCH_LT", "LEAF", "LEAF"], Some("SOFTMAX"))).forward();
    assert!(code.starts_with("let (labels, probs) = {"));
    assert!(code.ends_with("(labels, probs)\n};"));
    assert_contains(&code, "let tree_ids: Vec<i64> = vec![0i64, 0i64, 0i64];");
    assert_contains(&code, "let node_ids: Vec<i64> = vec![0i64, 1i64, 2i64];");
    assert_contains(&code, "let feature_ids: Vec<i64> = vec![3i64, 0i64, 0i64];");
    assert_contains(&code, r#"let modes: Vec<&str> = vec!["BRANCH_LT", "LEAF", "LEAF"];"#);
    assert_contains(&code, "let split_values: Vec<f32> = vec![1.5f32, 0f32, 0f32];");
    assert_contains(&code, "let true_node_ids: Vec<i64> = vec![1i64, 0i64, 0i64];");
    assert_contains(&code, "let false_node_ids: Vec<i64> = vec![2i64, 0i64, 0i64];");
    assert_contains(&code, "let missing_tracks_true: Vec<i64> = vec![];");
    assert_contains(&code, "let class_weights: Vec<f32> = vec![0.25f32, 0.75f32];");
    assert_contains(&code, "let base_values: Vec<f32> = vec![];");
    assert_contains(&code, "let class_labels: Vec<i64> = vec![10i64, 20i64]; let num_classes = 2usize;");
    assert_contains(&code, r#"let post_transform = "SOFTMAX";"#);
    assert_contains(&code, "let input_vals = x.to_data().to_vec::<f32>().unwrap();");
}

#[test]
fn tree_forward_starts_each_tree_at_the_node_no_branch_points_to() {
    let code = tree_node(stump(vec!["BRANCH_LEQ", "LEAF", "LEAF"], None)).forward();
    assert_contains(&code, r#"
        let root = tree_ids.iter()
            .zip(node_ids.iter())
            .filter(|(&t, _)| t == tree_id)
            .map(|(_, &n)| n)
            .find(|&n| !(0..tree_ids.len()).any(|j| {
                tree_ids[j] == tree_id
                    && modes.get(j).copied() != Some("LEAF")
                    && (true_node_ids.get(j) == Some(&n) || false_node_ids.get(j) == Some(&n))
            }))
            .unwrap_or(0);"#);
    assert_contains(&code, "let mut current_node_id = root;");
}

#[test]
fn tree_forward_starts_scores_at_the_base_values() {
    let mut config = stump(vec!["BRANCH_LEQ", "LEAF", "LEAF"], None);
    config.base_values = Some(fvs(vec![0.5, -1.0]));
    let code = tree_node(config).forward();
    assert_contains(&code, "let base_values: Vec<f32> = vec![0.5f32, -1f32];");
    assert_contains(&code, "*score = base_values.get(class_idx).copied().unwrap_or(0.0);");
}

#[test]
fn tree_forward_sends_missing_values_where_the_node_tracks_them() {
    let mut config = stump(vec!["BRANCH_LEQ", "LEAF", "LEAF"], None);
    config.nodes_missing_value_tracks_true = Some(vec![1, 0, 0]);
    let code = tree_node(config).forward();
    assert_contains(&code, "let missing_tracks_true: Vec<i64> = vec![1i64, 0i64, 0i64];");
    assert_contains(&code, r#"
        let go_true = if feature_val.is_nan() {
            missing_tracks_true.get(idx).copied().unwrap_or(0) != 0
        } else {"#);
    assert_contains(&code, "current_node_id = if go_true { true_id } else { false_id };");
}

#[test]
fn tree_forward_picks_the_first_best_class() {
    let code = tree_node(stump(vec!["BRANCH_LEQ", "LEAF", "LEAF"], None)).forward();
    assert_contains(&code, r#"
        let mut max_idx = 0usize;
        for (i, &score) in scores.iter().enumerate() {
            if score > scores[max_idx] {
                max_idx = i;
            }
        }
        labels.push(class_labels[max_idx]);"#);
    assert!(!code.contains("max_by"));
}

#[test]
fn tree_forward_of_a_single_leaf_needs_no_branch_attributes() {
    let config = TreeEnsembleClassifierConfig::new(
        None,
        Some(vec![0, 1]),
        Some(vec![1, 1]),
        Some(vec![0, 0]),
        Some(fvs(vec![1.0, 1.0])),
        Some(vec![0, 1]),
        None,
        Some(vec![0]),
        None,
        None,
        Some(vec!["LEAF".to_string()]),
        Some(vec![1]),
        Some(vec![0]),
        None,
        None,
        None,
        Some("SOFTMAX".to_string()),
    );
    let code = tree_node(config).forward();
    assert!(!code.contains("zeros([1, 2]"));
    assert_contains(&code, "let node_ids: Vec<i64> = vec![1i64];");
    assert_contains(&code, "let split_values: Vec<f32> = vec![];");
    assert_contains(&code, "let true_node_ids: Vec<i64> = vec![];");
    assert_contains(&code, "let false_node_ids: Vec<i64> = vec![];");
    assert_contains(&code, "let class_weights: Vec<f32> = vec![1f32, 1f32];");
}

#[test]
fn tree_forward_escapes_mode_text_and_defaults_the_transform() {
    let code = tree_node(stump(vec!["A\"B", "LEAF", "LEAF"], None)).forward();
    assert_contains(&code, r#"let modes: Vec<&str> = vec!["A\"B", "LEAF", "LEAF"];"#);
    assert_contains(&code, r#"let post_transform = "NONE";"#);
}

#[test]
fn tree_forward_uses_the_given_literals() {
    let node = tree_node(stump(vec!["BRANCH_LEQ", "LEAF", "LEAF"], None));
    let code = node.forward_with_literals(&vec!["m0".to_string(), "m1".to_string()], "chosen");
    assert_contains(&code, "let modes: Vec<&str> = vec![m0, m1];");
    assert_contains(&code, "let post_transform = chosen;");
}

#[test]
fn tree_forward_without_leaf_weights_returns_zeros() {
    let mut config = stump(vec!["LEAF"], None);
    config.class_weights = None;
    let code = tree_node(config).forward();
    assert_code(&code, r###"
        let (labels, probs) = {
            let labels = Tensor::<B, 1, burn::tensor::Int>::zeros([1], &*self.device);
            let probs = Tensor::<B, 2>::zeros([1, 2], &*self.device);
            (labels, probs)
        };
        "###);
}

#[test]
fn tree_forward_without_labels_uses_two_classes() {
    let mut config = stump(vec!["BRANCH_LEQ", "LEAF", "LEAF"], None);
    config.classlabels_int64s = None;
    let code = tree_node(config).forward();
    assert_contains(&code, "let class_labels: Vec<i64> = vec![0i64, 1i64]; let num_classes = 2usize;");
}

#[test]
fn scaler_applies_a_single_offset_to_every_feature() {
    let input = Argument::new("x", ArgType::Tensor(TensorType::new(DType::F32, 2, None)));
    let output = Argument::new("y", ArgType::Tensor(TensorType::new(DType::F32, 2, None)));
    let config = ScalerConfig::new(Some(fvs(vec![1.0, 2.0, 3.0])), Some(fvs(vec![0.5])));
    let node = ScalerNode::new("sc".to_string(), vec![input], vec![output], config);
    assert_code(&node.forward(), r###"
        let y = {
            let offset_tensor = Tensor::<B, 1>::from_floats([0.5f32], &*self.device)
                .reshape([1usize, 1usize]);
            let scale_tensor = Tensor::<B, 1>::from_floats([1f32, 2f32, 3f32], &*self.device)
                .reshape([1usize, 3usize]);
            (x.clone() - offset_tensor) * scale_tensor
        };
        "###);
}

#[test]
fn svm_every_kernel_adds_the_bias() {
    for kernel in ["LINEAR", "RBF", "POLY", "SIGMOID"] {
        let mut config = linear_config(None);
        config.kernel_type = Some(kernel.to_string());
        let code = svm_node(config).forward();
        assert!(
            norm(&code).ends_with(&norm("let result = kernel_values.matmul(coef.clone()) + rho; result };")),
            "kernel {kernel}:\n{code}"
        );
        assert_contains(&code, "let rho = 0.5f32;");
    }
}
