use onnx_ml_nodes::codegen::imputer::{ImputerConfig, ImputerNode};
use onnx_ml_nodes::codegen::scaler::{ScalerConfig, ScalerNode};
use onnx_ml_nodes::ir::{ArgType, Argument, DType, F32Value, TensorType};
use onnx_ml_nodes::node::one_hot_encoder::{OneHotEncoderConfig, OneHotEncoderNode, OneHotEncoderNodeBuilder};
use onnx_ml_nodes::node::svmregressor::{SVMRegressorConfig, SVMRegressorNodeBuilder};
use onnx_ml_nodes::node::tree_ensemble_classifier::{TreeEnsembleClassifierConfig, TreeEnsembleClassifierNodeBuilder};

fn fv(x: f32) -> F32Value {
    F32Value::new(x.to_bits(), format!("{}", x))
}

fn fvs(v: Vec<f32>) -> Vec<F32Value> {
    v.into_iter().map(fv).collect()
}

/// The generated statement inside the `forward` function that the model
/// generator wraps around it: the given signature, the statement, then the
/// output.
fn forward_fn(signature: &str, statement: &str, output: &str) -> String {
    format!("{signature}\n{statement}\n{output}\n}}")
}

/// The token text of Rust code: layout and trailing commas before a closing
/// bracket do not count.
fn norm(code: &str) -> String {
    let compact: String = code.chars().filter(|c| !c.is_whitespace()).collect();
    let chars: Vec<char> = compact.chars().collect();
    let mut out = String::new();
    for (i, c) in chars.iter().enumerate() {
        if *c == ',' && i + 1 < chars.len() && matches!(chars[i + 1], ')' | ']' | '>' | '}') {
            continue;
        }
        out.push(*c);
    }
    out
}

fn assert_code(code: &str, expected: &str) {
    assert_eq!(norm(code), norm(expected), "generated:\n{code}");
}

#[test]
fn test_imputer_single_float() {
    let config = ImputerConfig::new(Some(fvs(vec![0.0])), None, None);
    let input = Argument::new("input", ArgType::Tensor(TensorType::new(DType::F32, 2, None)));
    let output = Argument::new("output", ArgType::Tensor(TensorType::new(DType::F32, 2, None)));
    let node = ImputerNode::new("imputer1".to_string(), vec![input], vec![output], config);
    let code = forward_fn("pub fn forward(&self, input: Tensor<B, 2>) -> Tensor<B, 2> {", &node.forward(), "output");
    assert_code(&code, r###"
        pub fn forward(&self, input: Tensor<B, 2>) -> Tensor<B, 2> {
            let output = {
                let mask = input.is_nan();
                input.mask_fill(mask, 0f32)
            };
            output
        }
        "###);
}

#[test]
fn test_imputer_single_float_with_replaced_value() {
    let config = ImputerConfig::new(Some(fvs(vec![1.0])), None, Some(fv(-999.0)));
    let input = Argument::new("input", ArgType::Tensor(TensorType::new(DType::F32, 2, None)));
    let output = Argument::new("output", ArgType::Tensor(TensorType::new(DType::F32, 2, None)));
    let node = ImputerNode::new("imputer2".to_string(), vec![input], vec![output], config);
    let code = forward_fn("pub fn forward(&self, input: Tensor<B, 2>) -> Tensor<B, 2> {", &node.forward(), "output");
    assert_code(&code, r###"
        pub fn forward(&self, input: Tensor<B, 2>) -> Tensor<B, 2> {
            let output = {
                let mask = input.clone().equal_elem(-999f32);
                input.mask_fill(mask, 1f32)
            };
            output
        }
        "###);
}

#[test]
fn test_imputer_multiple_floats() {
    let config = ImputerConfig::new(Some(fvs(vec![0.0, 1.0, 2.0])), None, None);
    let input = Argument::new("input", ArgType::Tensor(TensorType::new(DType::F32, 2, None)));
    let output = Argument::new("output", ArgType::Tensor(TensorType::new(DType::F32, 2, None)));
    let node = ImputerNode::new("imputer3".to_string(), vec![input], vec![output], config);
    let code = forward_fn("pub fn forward(&self, input: Tensor<B, 2>) -> Tensor<B, 2> {", &node.forward(), "output");
    assert_code(&code, r###"
        pub fn forward(&self, input: Tensor<B, 2>) -> Tensor<B, 2> {
            let output = {
                let imputed_values = vec![0f32, 1f32, 2f32];
                let mask = input.is_nan();
                let mut result = input.clone();
                let shape = result.shape();
                let num_features = shape.dims[shape.dims.len() - 1];
                for feature_idx in 0..num_features.min(imputed_values.len()) {
                    let feature_mask = mask.clone().narrow(shape.dims.len() - 1, feature_idx, 1);
                    let imputed_val = imputed_values[feature_idx];
                    result = result.mask_fill(feature_mask, imputed_val);
                }
                result
            };
            output
        }
        "###);
}

#[test]
fn test_imputer_single_int() {
    let config = ImputerConfig::new(None, Some(vec![0]), Some(fv(-1.0)));
    let input = Argument::new("input", ArgType::Tensor(TensorType::new(DType::I64, 2, None)));
    let output = Argument::new("output", ArgType::Tensor(TensorType::new(DType::I64, 2, None)));
    let node = ImputerNode::new("imputer4".to_string(), vec![input], vec![output], config);
    let code = forward_fn(
        "pub fn forward(&self, input: Tensor<B, 2, Int>) -> Tensor<B, 2, Int> {",
        &node.forward(),
        "output",
    );
    assert_code(&code, r###"
        pub fn forward(&self, input: Tensor<B, 2, Int>) -> Tensor<B, 2, Int> {
            let output = {
                let mask = input.clone().equal_elem(-1i64);
                input.mask_fill(mask, 0i64)
            };
            output
        }
        "###);
}

fn scaler_node(name: &str, config: ScalerConfig) -> ScalerNode {
    let input = Argument::new("input", ArgType::Tensor(TensorType::new(DType::F32, 2, None)));
    let output = Argument::new("output", ArgType::Tensor(TensorType::new(DType::F32, 2, None)));
    ScalerNode::new(name.to_string(), vec![input], vec![output], config)
}

const SCALER_SIGNATURE: &str = "pub fn forward(&self, input: Tensor<B, 2>) -> Tensor<B, 2> {";

#[test]
fn test_scaler_scale_only() {
    let node = scaler_node("scaler1", ScalerConfig::new(Some(fvs(vec![2.0])), None));
    let code = forward_fn(SCALER_SIGNATURE, &node.forward(), "output");
    assert_code(&code, r###"
        pub fn forward(&self, input: Tensor<B, 2>) -> Tensor<B, 2> {
            let output = {
                let scale_tensor = Tensor::<B, 1>::from_floats([2f32], &*self.device)
                    .reshape([1usize, 1usize]);
                input.clone() * scale_tensor
            };
            output
        }
        "###);
}

#[test]
fn test_scaler_offset_only() {
    let node = scaler_node("scaler2", ScalerConfig::new(None, Some(fvs(vec![1.0]))));
    let code = forward_fn(SCALER_SIGNATURE, &node.forward(), "output");
    assert_code(&code, r###"
        pub fn forward(&self, input: Tensor<B, 2>) -> Tensor<B, 2> {
            let output = {
                let offset_tensor = Tensor::<B, 1>::from_floats([1f32], &*self.device)
                    .reshape([1usize, 1usize]);
                input.clone() - offset_tensor
            };
            output
        }
        "###);
}

#[test]
fn test_scaler_both_scale_and_offset() {
    let node = scaler_node("scaler3", ScalerConfig::new(Some(fvs(vec![2.0])), Some(fvs(vec![1.0]))));
    let code = forward_fn(SCALER_SIGNATURE, &node.forward(), "output");
    assert_code(&code, r###"
        pub fn forward(&self, input: Tensor<B, 2>) -> Tensor<B, 2> {
            let output = {
                let offset_tensor = Tensor::<B, 1>::from_floats([1f32], &*self.device)
                    .reshape([1usize, 1usize]);
                let scale_tensor = Tensor::<B, 1>::from_floats([2f32], &*self.device)
                    .reshape([1usize, 1usize]);
                (input.clone() - offset_tensor) * scale_tensor
            };
            output
        }
        "###);
}

#[test]
fn test_scaler_no_transform() {
    let node = scaler_node("scaler4", ScalerConfig::new(None, None));
    let code = forward_fn(SCALER_SIGNATURE, &node.forward(), "output");
    assert_code(&code, r###"
        pub fn forward(&self, input: Tensor<B, 2>) -> Tensor<B, 2> {
            let output = input.clone();
            output
        }
        "###);
}

#[test]
fn test_scaler_per_feature_scaling() {
    let node = scaler_node(
        "scaler5",
        ScalerConfig::new(Some(fvs(vec![1.0, 2.0, 3.0])), Some(fvs(vec![0.5, 1.0, 1.5]))),
    );
    let code = forward_fn(SCALER_SIGNATURE, &node.forward(), "output");
    assert_code(&code, r###"
        pub fn forward(&self, input: Tensor<B, 2>) -> Tensor<B, 2> {
            let output = {
                let offset_tensor = Tensor::<
                    B,
                    1,
                >::from_floats([0.5f32, 1f32, 1.5f32], &*self.device)
                    .reshape([1usize, 3usize]);
                let scale_tensor = Tensor::<B, 1>::from_floats([1f32, 2f32, 3f32], &*self.device)
                    .reshape([1usize, 3usize]);
                (input.clone() - offset_tensor) * scale_tensor
            };
            output
        }
        "###);
}

#[test]
fn test_one_hot_encoder_basic() {
    let config = OneHotEncoderConfig::new(Some(vec![1, 2, 3, 4, 5, 6, 7]), None, None);

    let node = OneHotEncoderNodeBuilder::new("encoder1")
        .input_tensor("input", 2, DType::F32)
        .output_tensor("output", 2, DType::F32)
        .config(config)
        .build();

    let code = forward_fn("pub fn forward(&self, input: Tensor<B, 2>) -> Tensor<B, 2> {", &node.lookup_forward(), "output");
    assert_code(&code, r###"
        pub fn forward(&self, input: Tensor<B, 2>) -> Tensor<B, 2> {
            let output = {
                let categories = [1i64, 2i64, 3i64, 4i64, 5i64, 6i64, 7i64];
                let num_categories = 7usize;
                let input_shape = input.shape();
                let batch_size = input_shape.dims[0];
                let input_flat = input.clone().reshape([batch_size]).into_data();
                let input_vec: Vec<i64> = input_flat.iter::<i64>().map(|x| x).collect();
                let mut output_data = Vec::with_capacity(batch_size * num_categories);
                for &val in input_vec.iter() {
                    let mut row = vec![0.0f32; num_categories];
                    if let Some(idx) = categories.iter().position(|&c| c == val) {
                        row[idx] = 1.0;
                    }
                    output_data.extend_from_slice(&row);
                }
                Tensor::<
                    B,
                    2,
                >::from_data(
                    burn::tensor::TensorData::new(
                            output_data,
                            [batch_size, num_categories].into(),
                        )
                        .convert(),
                    &*self.device,
                )
            };
            output
        }
        "###);
}

#[test]
fn test_one_hot_encoder_fewer_categories() {
    let config = OneHotEncoderConfig::new(Some(vec![0, 1, 2]), None, None);

    let node = OneHotEncoderNodeBuilder::new("encoder2")
        .input_tensor("input", 2, DType::F32)
        .output_tensor("output", 2, DType::F32)
        .config(config)
        .build();

    let code = forward_fn("pub fn forward(&self, input: Tensor<B, 2>) -> Tensor<B, 2> {", &node.lookup_forward(), "output");
    assert_code(&code, r###"
        pub fn forward(&self, input: Tensor<B, 2>) -> Tensor<B, 2> {
            let output = {
                let categories = [0i64, 1i64, 2i64];
                let num_categories = 3usize;
                let input_shape = input.shape();
                let batch_size = input_shape.dims[0];
                let input_flat = input.clone().reshape([batch_size]).into_data();
                let input_vec: Vec<i64> = input_flat.iter::<i64>().map(|x| x).collect();
                let mut output_data = Vec::with_capacity(batch_size * num_categories);
                for &val in input_vec.iter() {
                    let mut row = vec![0.0f32; num_categories];
                    if let Some(idx) = categories.iter().position(|&c| c == val) {
                        row[idx] = 1.0;
                    }
                    output_data.extend_from_slice(&row);
                }
                Tensor::<
                    B,
                    2,
                >::from_data(
                    burn::tensor::TensorData::new(
                            output_data,
                            [batch_size, num_categories].into(),
                        )
                        .convert(),
                    &*self.device,
                )
            };
            output
        }
        "###);
}

#[test]
fn test_one_hot_encoder_with_gaps() {
    let config = OneHotEncoderConfig::new(Some(vec![6, 17, 1]), None, None);

    let node = OneHotEncoderNodeBuilder::new("protocol_encoder")
        .input_tensor("data", 2, DType::F32)
        .output_tensor("encoded", 2, DType::F32)
        .config(config)
        .build();

    let code = forward_fn("pub fn forward(&self, data: Tensor<B, 2>) -> Tensor<B, 2> {", &node.lookup_forward(), "encoded");
    assert_code(&code, r###"
        pub fn forward(&self, data: Tensor<B, 2>) -> Tensor<B, 2> {
            let encoded = {
                let categories = [6i64, 17i64, 1i64];
                let num_categories = 3usize;
                let input_shape = data.shape();
                let batch_size = input_shape.dims[0];
                let input_flat = data.clone().reshape([batch_size]).into_data();
                let input_vec: Vec<i64> = input_flat.iter::<i64>().map(|x| x).collect();
                let mut output_data = Vec::with_capacity(batch_size * num_categories);
                for &val in input_vec.iter() {
                    let mut row = vec![0.0f32; num_categories];
                    if let Some(idx) = categories.iter().position(|&c| c == val) {
                        row[idx] = 1.0;
                    }
                    output_data.extend_from_slice(&row);
                }
                Tensor::<
                    B,
                    2,
                >::from_data(
                    burn::tensor::TensorData::new(
                            output_data,
                            [batch_size, num_categories].into(),
                        )
                        .convert(),
                    &*self.device,
                )
            };
            encoded
        }
        "###);
}

fn ohe_node(name: &str, dtype: DType, rank: usize, out_rank: usize, config: OneHotEncoderConfig) -> OneHotEncoderNode {
    let input = Argument::new("input", ArgType::Tensor(TensorType::new(dtype, rank, None)));
    let output = Argument::new("output", ArgType::Tensor(TensorType::new(DType::F32, out_rank, None)));
    OneHotEncoderNode::new(name.to_string(), vec![input], vec![output], config)
}

#[test]
fn test_onehotencoder_1d_input() {
    let node = ohe_node("ohe1", DType::F32, 1, 2, OneHotEncoderConfig::new(Some(vec![0, 1, 2, 3]), None, Some(1)));
    let code = forward_fn("pub fn forward(&self, input: Tensor<1>) -> Tensor<2> {", &node.forward(), "output");
    assert_code(&code, "
        pub fn forward(&self, input: Tensor<1>) -> Tensor<2> {
            let output = {
                let x = input.clone();
                let x_unsqueezed = x.unsqueeze_dim(1usize);
                let cats = self.ohe1.clone().reshape([1usize, 4usize]);
                x_unsqueezed.equal(cats).float().cast(burn::tensor::DType::F32)
            };
            output
        }
        ");
}

#[test]
fn test_onehotencoder_2d_input() {
    let node = ohe_node("ohe2", DType::F32, 2, 3, OneHotEncoderConfig::new(Some(vec![0, 1, 2]), None, Some(1)));
    let code = forward_fn("pub fn forward(&self, input: Tensor<2>) -> Tensor<3> {", &node.forward(), "output");
    assert_code(&code, "
        pub fn forward(&self, input: Tensor<2>) -> Tensor<3> {
            let output = {
                let x = input.clone();
                let x_unsqueezed = x.unsqueeze_dim(2usize);
                let cats = self.ohe2.clone().reshape([1usize, 1usize, 3usize]);
                x_unsqueezed.equal(cats).float().cast(burn::tensor::DType::F32)
            };
            output
        }
        ");
}

#[test]
fn test_onehotencoder_int_input() {
    let node = ohe_node("ohe3", DType::I64, 1, 2, OneHotEncoderConfig::new(Some(vec![0, 1, 2, 3, 4]), None, Some(1)));
    let code = forward_fn("pub fn forward(&self, input: Tensor<1, Int>) -> Tensor<2> {", &node.forward(), "output");
    assert_code(&code, "
        pub fn forward(&self, input: Tensor<1, Int>) -> Tensor<2> {
            let output = {
                let x = input.float().cast(burn::tensor::DType::F32);
                let x_unsqueezed = x.unsqueeze_dim(1usize);
                let cats = self.ohe3.clone().reshape([1usize, 5usize]);
                x_unsqueezed.equal(cats).float().cast(burn::tensor::DType::F32)
            };
            output
        }
        ");
}

#[test]
fn test_onehotencoder_cats_strings() {
    let config = OneHotEncoderConfig::new(
        None,
        Some(vec!["0".to_string(), "1".to_string(), "2".to_string()]),
        Some(1),
    );
    let node = ohe_node("ohe4", DType::F32, 1, 2, config);
    let code = forward_fn("pub fn forward(&self, input: Tensor<1>) -> Tensor<2> {", &node.forward(), "output");
    assert_code(&code, "
        pub fn forward(&self, input: Tensor<1>) -> Tensor<2> {
            let output = {
                let x = input.clone();
                let x_unsqueezed = x.unsqueeze_dim(1usize);
                let cats = self.ohe4.clone().reshape([1usize, 3usize]);
                x_unsqueezed.equal(cats).float().cast(burn::tensor::DType::F32)
            };
            output
        }
        ");
}

#[test]
fn test_onehotencoder_field_init() {
    let node = ohe_node("ohe1", DType::F32, 1, 2, OneHotEncoderConfig::new(Some(vec![0, 1, 2, 3]), None, Some(1)));
    let cats: Vec<F32Value> = node.config.cats_int64s.as_ref().unwrap().iter().map(|&c| fv(c as f32)).collect();
    let field = node.field_with_categories(&cats);
    assert_eq!(field.name, "ohe1");
    assert_eq!(field.ty, "Tensor<1>");
    assert_code(&field.init, "
        let ohe1: Tensor<1> = Tensor::<
            1,
        >::from_data([0f32, 1f32, 2f32, 3f32], (device, burn::tensor::DType::F32));
        ");
}

fn svm_code(config: SVMRegressorConfig) -> String {
    let node = SVMRegressorNodeBuilder::new("svm1")
        .input_tensor("input", 2, DType::F32)
        .output_tensor("output", 2, DType::F32)
        .config(config)
        .build();
    node.forward()
}

#[test]
fn test_svm_regressor_linear() {
    let config = SVMRegressorConfig::new(
        Some(fvs(vec![1.0, -0.5])),
        None,
        Some("LINEAR".to_string()),
        Some(2),
        None,
        None,
        Some(fvs(vec![0.5])),
        Some(fvs(vec![1.0, 2.0, 3.0, 4.0])),
    );
    let code = svm_code(config);
    assert!(code.contains("svm1"));
}

#[test]
fn test_svm_regressor_rbf() {
    let config = SVMRegressorConfig::new(
        Some(fvs(vec![1.0, -0.5])),
        Some(fvs(vec![0.1])),
        Some("RBF".to_string()),
        Some(2),
        None,
        None,
        Some(fvs(vec![0.0])),
        Some(fvs(vec![1.0, 2.0, 3.0, 4.0])),
    );
    let code = svm_code(config);
    assert!(code.contains("gamma"));
    assert!(code.contains("exp()"));
}

#[test]
fn test_svm_regressor_poly() {
    let config = SVMRegressorConfig::new(
        Some(fvs(vec![1.0, -0.5])),
        Some(fvs(vec![1.0, 0.0, 3.0])),
        Some("POLY".to_string()),
        Some(2),
        None,
        None,
        Some(fvs(vec![0.0])),
        Some(fvs(vec![1.0, 2.0, 3.0, 4.0])),
    );
    let code = svm_code(config);
    assert!(code.contains("degree"));
    assert!(code.contains("powf_scalar"));
}

#[test]
fn test_svm_regressor_with_logistic() {
    let config = SVMRegressorConfig::new(
        Some(fvs(vec![1.0])),
        None,
        Some("LINEAR".to_string()),
        Some(1),
        None,
        Some("LOGISTIC".to_string()),
        Some(fvs(vec![0.0])),
        Some(fvs(vec![1.0, 2.0])),
    );
    let code = svm_code(config);
    assert!(code.contains("neg"));
    assert!(code.contains("recip"));
}

fn tree_code(config: TreeEnsembleClassifierConfig) -> String {
    let node = TreeEnsembleClassifierNodeBuilder::new("tree1")
        .input_tensor("input", 2, DType::F32)
        .output_tensor("labels", 1, DType::I64)
        .output_tensor("probabilities", 2, DType::F32)
        .config(config)
        .build();
    node.forward()
}

#[test]
fn test_tree_ensemble_classifier_basic() {
    let config = TreeEnsembleClassifierConfig::new(
        None,
        Some(vec![0, 1]),
        Some(vec![1, 1]),
        Some(vec![0, 0]),
        Some(fvs(vec![1.0, 1.0])),
        Some(vec![0, 1]),
        None,
        Some(vec![0]),
        None,
        None,
        Some(vec!["BRANCH_LEQ".to_string()]),
        Some(vec![0]),
        Some(vec![0]),
        Some(vec![1]),
        Some(vec![1]),
        Some(fvs(vec![0.5])),
        Some("NONE".to_string()),
    );
    let code = tree_code(config);
    assert!(code.contains("tree_ids"));
    assert!(code.contains("class_weights"));
}

#[test]
fn test_tree_ensemble_classifier_softmax() {
    let config = TreeEnsembleClassifierConfig::new(
        None,
        Some(vec![0, 1]),
        Some(vec![1, 1]),
        Some(vec![0, 0]),
        Some(fvs(vec![1.0, 1.0])),
        Some(vec![0, 1]),
        None,
        Some(vec![0]),
        None,
        None,
        Some(vec!["LEAF".to_string()]),
        Some(vec![1]),
        Some(vec![0]),
        None,
        None,
        None,
        Some("SOFTMAX".to_string()),
    );
    let code = tree_code(config);
    assert!(!code.is_empty());
}

#[test]
fn test_tree_ensemble_classifier_logistic() {
    let config = TreeEnsembleClassifierConfig::new(
        None,
        Some(vec![0, 1]),
        Some(vec![1, 1]),
        Some(vec![0, 0]),
        Some(fvs(vec![1.0, 1.0])),
        Some(vec![0, 1]),
        None,
        Some(vec![0]),
        None,
        None,
        Some(vec!["LEAF".to_string()]),
        Some(vec![1]),
        Some(vec![0]),
        None,
        None,
        None,
        Some("LOGISTIC".to_string()),
    );
    let code = tree_code(config);
    assert!(!code.is_empty());
}
