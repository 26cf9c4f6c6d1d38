use onnx_ml_nodes::ir::{ArgType, Argument, AttributeValue, DType, F32Value, NodeType, RawNode, TensorType};
use onnx_ml_nodes::node::svmregressor::{SVMRegressorConfig, SVMRegressorNode, SVMRegressorProcessor};
use onnx_ml_nodes::node::tree_ensemble_classifier::{
    TreeEnsembleClassifierConfig, TreeEnsembleClassifierNode, TreeEnsembleClassifierProcessor,
};
use onnx_ml_nodes::node::zipmap::{ZipMapNodeBuilder, ZipMapProcessor};
use onnx_ml_nodes::node::Node;
use onnx_ml_nodes::processor::{OutputPreferences, OutputSpec};

fn fv(x: f32) -> F32Value {
    F32Value::new(x.to_bits(), format!("{}", x))
}

fn fvs(v: Vec<f32>) -> Vec<F32Value> {
    v.into_iter().map(fv).collect()
}

#[test]
fn test_zipmap_inference() {
    let input_ty = ArgType::Tensor(TensorType::new(DType::F32, 2, None));

    let mut node = RawNode {
        node_type: NodeType::ZipMap,
        name: "zipmap_test".to_string(),
        inputs: vec![Argument { name: "input".to_string(), ty: input_ty.clone() }],
        outputs: vec![Argument { name: "output".to_string(), ty: ArgType::Unknown }],
        attrs: Default::default(),
    };

    let processor = ZipMapProcessor;
    processor.infer_types(&mut node, 1, &OutputPreferences::new()).unwrap();

    assert_eq!(node.outputs[0].ty, input_ty);
}

#[test]
fn zipmap_is_a_noop_and_keeps_its_arguments() {
    let node = RawNode {
        node_type: NodeType::ZipMap,
        name: "z".to_string(),
        inputs: vec![Argument::new("a", ArgType::Shape(3))],
        outputs: vec![Argument::new("b", ArgType::Unknown)],
        attrs: vec![],
    };
    assert!(ZipMapProcessor.is_noop(&node));
    assert_eq!(ZipMapProcessor.extract_config(&node, 1), Ok(()));
    match ZipMapProcessor.build_node(node.clone(), 1) {
        Node::ZipMap(z) => {
            assert_eq!(z.name, "z");
            assert_eq!(z.inputs, node.inputs);
            assert_eq!(z.outputs, node.outputs);
        }
        other => panic!("expected a ZipMap node, got {other:?}"),
    }
}

#[test]
fn test_svmregressor_config() {
    let config = SVMRegressorConfig::new(
        Some(fvs(vec![1.0, -0.5])),
        None,
        Some("LINEAR".to_string()),
        Some(2),
        None,
        None,
        Some(fvs(vec![0.5])),
        Some(fvs(vec![1.0, 2.0, 3.0, 4.0])),
    );
    assert_eq!(config.coefficients, Some(fvs(vec![1.0, -0.5])));
    assert_eq!(config.kernel_type, Some("LINEAR".to_string()));
    assert_eq!(config.n_supports, Some(2));
    assert_eq!(config.rho, Some(fvs(vec![0.5])));
}

#[test]
fn test_svmregressor_node_builder() {
    let config = SVMRegressorConfig::new(
        Some(fvs(vec![1.0])),
        None,
        Some("LINEAR".to_string()),
        Some(1),
        None,
        None,
        Some(fvs(vec![0.0])),
        Some(fvs(vec![1.0, 2.0])),
    );
    let node = SVMRegressorNode::new("test_svm".to_string(), vec![], vec![], config);

    assert_eq!(node.name, "test_svm");
    assert_eq!(node.inputs.len(), 0);
    assert_eq!(node.outputs.len(), 0);
    assert!(node.config.coefficients.is_some());
    assert!(node.config.kernel_type.is_some());
}

#[test]
fn svm_extract_config_reads_known_attributes_and_skips_others() {
    let node = RawNode {
        node_type: NodeType::SVMRegressor,
        name: "svm".to_string(),
        inputs: vec![Argument::new("x", ArgType::Tensor(TensorType::new(DType::F32, 2, None)))],
        outputs: vec![Argument::new("y", ArgType::Unknown)],
        attrs: vec![
            ("kernel_type".to_string(), AttributeValue::String("RBF".to_string())),
            ("n_supports".to_string(), AttributeValue::Int64(3)),
            ("rho".to_string(), AttributeValue::Float32s(fvs(vec![0.25]))),
            ("one_class".to_string(), AttributeValue::String("wrong kind".to_string())),
            ("something_else".to_string(), AttributeValue::Int64(1)),
        ],
    };
    let config = SVMRegressorProcessor.extract_config(&node, 1).unwrap();
    assert_eq!(config.kernel_type, Some("RBF".to_string()));
    assert_eq!(config.n_supports, Some(3));
    assert_eq!(config.rho, Some(fvs(vec![0.25])));
    assert_eq!(config.one_class, None);
    assert_eq!(config.coefficients, None);
}

#[test]
fn svm_infer_types_copies_input_type() {
    let ty = ArgType::Tensor(TensorType::new(DType::F64, 2, Some(vec![Some(3), None])));
    let mut node = RawNode {
        node_type: NodeType::SVMRegressor,
        name: "svm".to_string(),
        inputs: vec![Argument::new("x", ty.clone())],
        outputs: vec![Argument::new("y", ArgType::Unknown)],
        attrs: vec![],
    };
    SVMRegressorProcessor.infer_types(&mut node, 1, &OutputPreferences::new()).unwrap();
    assert_eq!(node.outputs[0].ty, ty);
    assert_eq!(node.outputs[0].name, "y");
}

#[test]
fn test_tree_ensemble_classifier_config() {
    let config = TreeEnsembleClassifierConfig::new(
        None,
        Some(vec![0, 1]),
        Some(vec![1, 1]),
        Some(vec![0, 0]),
        Some(fvs(vec![1.0, 1.0])),
        Some(vec![0, 1]),
        None,
        Some(vec![0]),
        None,
        None,
        Some(vec!["BRANCH_LEQ".to_string()]),
        Some(vec![0]),
        Some(vec![0]),
        Some(vec![1]),
        Some(vec![1]),
        Some(fvs(vec![0.5])),
        Some("NONE".to_string()),
    );
    assert_eq!(config.class_ids, Some(vec![0, 1]));
    assert_eq!(config.classlabels_int64s, Some(vec![0, 1]));
    assert_eq!(config.post_transform, Some("NONE".to_string()));
}

#[test]
fn test_tree_ensemble_classifier_node_builder() {
    let config = TreeEnsembleClassifierConfig::new(
        None,
        Some(vec![0, 1]),
        Some(vec![1, 1]),
        Some(vec![0, 0]),
        Some(fvs(vec![1.0, 1.0])),
        Some(vec![0, 1]),
        None,
        Some(vec![0]),
        None,
        None,
        Some(vec!["LEAF".to_string()]),
        Some(vec![1]),
        Some(vec![0]),
        None,
        None,
        None,
        None,
    );
    let node = TreeEnsembleClassifierNode::new("test_tree".to_string(), vec![], vec![], config);

    assert_eq!(node.name, "test_tree");
    assert!(node.config.class_ids.is_some());
    assert!(node.config.nodes_modes.is_some());
}

#[test]
fn tree_processor_types_and_config() {
    let mut node = RawNode {
        node_type: NodeType::TreeEnsembleClassifier,
        name: "t".to_string(),
        inputs: vec![Argument::new("x", ArgType::Tensor(TensorType::new(DType::F32, 2, None)))],
        outputs: vec![Argument::new("labels", ArgType::Unknown), Argument::new("probs", ArgType::Unknown)],
        attrs: vec![
            ("nodes_modes".to_string(), AttributeValue::Strings(vec!["LEAF".to_string()])),
            ("class_weights".to_string(), AttributeValue::Float32s(fvs(vec![0.5, 1.5]))),
            ("post_transform".to_string(), AttributeValue::String("SOFTMAX".to_string())),
            ("classlabels_int64s".to_string(), AttributeValue::Strings(vec!["a".to_string()])),
        ],
    };
    assert_eq!(TreeEnsembleClassifierProcessor.spec().outputs, OutputSpec::Exact(2));
    TreeEnsembleClassifierProcessor.infer_types(&mut node, 1, &OutputPreferences::new()).unwrap();
    assert_eq!(node.outputs[0].ty, ArgType::Tensor(TensorType::new(DType::I64, 1, None)));
    assert_eq!(node.outputs[1].ty, ArgType::Tensor(TensorType::new(DType::F32, 2, None)));
    let config = TreeEnsembleClassifierProcessor.extract_config(&node, 1).unwrap();
    assert_eq!(config.nodes_modes, Some(vec!["LEAF".to_string()]));
    assert_eq!(config.class_weights, Some(fvs(vec![0.5, 1.5])));
    assert_eq!(config.post_transform, Some("SOFTMAX".to_string()));
    assert_eq!(config.classlabels_int64s, None);
    match TreeEnsembleClassifierProcessor.build_node(node.clone(), 1) {
        Node::TreeEnsembleClassifier(n) => assert_eq!(n.config, config),
        other => panic!("expected a TreeEnsembleClassifier node, got {other:?}"),
    }
}

#[test]
fn tree_extract_config_reads_each_attribute_of_its_kind() {
    let node = RawNode {
        node_type: NodeType::TreeEnsembleClassifier,
        name: "t".to_string(),
        inputs: vec![],
        outputs: vec![],
        attrs: vec![
            ("nodes_treeids".to_string(), AttributeValue::Int64s(vec![1])),
            ("post_transform".to_string(), AttributeValue::Int64(3)),
            ("unrelated".to_string(), AttributeValue::Int64s(vec![9])),
            ("nodes_values".to_string(), AttributeValue::Float32s(fvs(vec![2.5]))),
            ("base_values".to_string(), AttributeValue::Float32s(fvs(vec![0.5, 0.25]))),
            ("nodes_missing_value_tracks_true".to_string(), AttributeValue::Int64s(vec![1])),
        ],
    };
    let config = TreeEnsembleClassifierProcessor.extract_config(&node, 1).unwrap();
    assert_eq!(config.nodes_treeids, Some(vec![1]));
    assert_eq!(config.post_transform, None);
    assert_eq!(config.nodes_values, Some(fvs(vec![2.5])));
    assert_eq!(config.base_values, Some(fvs(vec![0.5, 0.25])));
    assert_eq!(config.nodes_missing_value_tracks_true, Some(vec![1]));
    assert_eq!(config.nodes_nodeids, None);
    assert_eq!(config.class_ids, None);
}

#[test]
fn zipmap_builder_collects_arguments() {
    let node = ZipMapNodeBuilder::new("zm")
        .input_tensor("probs", 2, DType::F32)
        .output_tensor("out", 2, DType::F32)
        .build();
    assert_eq!(node.name, "zm");
    assert_eq!(node.inputs, vec![Argument::new("probs", ArgType::Tensor(TensorType::new(DType::F32, 2, None)))]);
    assert_eq!(node.outputs, vec![Argument::new("out", ArgType::Tensor(TensorType::new(DType::F32, 2, None)))]);
}
