use onnx_ml_nodes::ir::{ArgType, Argument, AttributeValue, BoolStore, DType, NodeType, RawNode, TensorType};
use onnx_ml_nodes::node::one_hot_encoder::{
    OneHotEncoderConfig, OneHotEncoderNode, OneHotEncoderProcessor,
};
use onnx_ml_nodes::node::Node;
use onnx_ml_nodes::processor::{InputSpec, OutputPreferences, OutputSpec, ProcessError};

fn make_node_builder(input_dtype: DType, input_rank: usize, input_static_shape: Option<Vec<usize>>) -> RawNode {
    let shape = input_static_shape.map(|s| s.into_iter().map(Some).collect());
    RawNode {
        node_type: NodeType::OneHotEncoder,
        name: "test_ohe".to_string(),
        inputs: vec![Argument::new("input", ArgType::Tensor(TensorType::new(input_dtype, input_rank, shape)))],
        outputs: vec![Argument::new("output", ArgType::Unknown)],
        attrs: vec![],
    }
}

fn attr_ints(mut node: RawNode, key: &str, v: Vec<i64>) -> RawNode {
    node.attrs.push((key.to_string(), AttributeValue::Int64s(v)));
    node
}

fn attr_strings(mut node: RawNode, key: &str, v: Vec<String>) -> RawNode {
    node.attrs.push((key.to_string(), AttributeValue::Strings(v)));
    node
}

fn attr_int(mut node: RawNode, key: &str, v: i64) -> RawNode {
    node.attrs.push((key.to_string(), AttributeValue::Int64(v)));
    node
}

#[test]
fn test_onehotencoder_config_int_categories() {
    let config = OneHotEncoderConfig::new(Some(vec![0, 1, 2, 3]), None, Some(1));
    assert_eq!(config.cats_int64s.as_ref().unwrap().len(), 4);
    assert!(config.cats_strings.is_none());
    assert_eq!(config.zeros, Some(1));
}

#[test]
fn test_onehotencoder_config_default() {
    let config = OneHotEncoderConfig::default();
    assert!(config.cats_int64s.is_none());
    assert!(config.cats_strings.is_none());
    assert!(config.zeros.is_none());
}

#[test]
fn test_onehotencoder_node_builder() {
    let config = OneHotEncoderConfig::new(Some(vec![0, 1, 2]), None, None);
    let node = OneHotEncoderNode::new("test_ohe".to_string(), vec![], vec![], config);
    assert_eq!(node.name, "test_ohe");
    assert_eq!(node.config.cats_int64s.as_ref().unwrap().len(), 3);
}

#[test]
fn test_spec_is_opset1_single_input_single_output() {
    let processor = OneHotEncoderProcessor;
    let spec = processor.spec();

    assert_eq!(spec.min_opset, 1);
    assert_eq!(spec.max_opset, None);
    assert!(matches!(spec.inputs, InputSpec::Exact(1)));
    assert!(matches!(spec.outputs, OutputSpec::Exact(1)));
}

#[test]
fn test_extract_config_rejects_both_category_attributes() {
    let node = make_node_builder(DType::I64, 1, Some(vec![4]));
    let node = attr_ints(node, "cats_int64s", vec![0, 1, 2]);
    let node = attr_strings(node, "cats_strings", vec!["a".to_string(), "b".to_string()]);
    let node = attr_int(node, "zeros", 1);

    let processor = OneHotEncoderProcessor;
    let err = processor.extract_config(&node, 1).unwrap_err();

    assert!(matches!(err, ProcessError::InvalidAttribute { .. }));
    assert!(err.message().contains("exactly one of cats_int64s or cats_strings"));
}

#[test]
fn test_extract_config_reads_single_category_attribute() {
    let node = make_node_builder(DType::I64, 1, Some(vec![4]));
    let node = attr_ints(node, "cats_int64s", vec![0, 1, 2]);
    let node = attr_int(node, "zeros", 1);

    let processor = OneHotEncoderProcessor;
    let config = processor.extract_config(&node, 1).unwrap();

    assert_eq!(config.cats_int64s, Some(vec![0, 1, 2]));
    assert!(config.cats_strings.is_none());
    assert_eq!(config.zeros, Some(1));
}

#[test]
fn test_extract_config_rejects_zeros_zero() {
    let node = make_node_builder(DType::I64, 1, Some(vec![4]));
    let node = attr_ints(node, "cats_int64s", vec![0, 1, 2]);
    let node = attr_int(node, "zeros", 0);

    let processor = OneHotEncoderProcessor;
    let err = processor.extract_config(&node, 1).unwrap_err();

    assert!(matches!(err, ProcessError::Custom(_)));
    assert!(err.message().contains("zeros=0 is not supported"));
}

#[test]
fn test_extract_config_rejects_empty_cats_int64s() {
    let node = make_node_builder(DType::I64, 1, Some(vec![4]));
    let node = attr_ints(node, "cats_int64s", vec![]);

    let processor = OneHotEncoderProcessor;
    let err = processor.extract_config(&node, 1).unwrap_err();

    assert!(matches!(err, ProcessError::InvalidAttribute { .. }));
    assert!(err.message().contains("cats_int64s"));
    assert!(err.message().contains("must not be empty"));
}

#[test]
fn test_extract_config_rejects_cats_strings() {
    let node = make_node_builder(DType::F32, 1, Some(vec![2]));
    let node = attr_strings(node, "cats_strings", vec!["a".to_string(), "b".to_string()]);

    let processor = OneHotEncoderProcessor;
    let err = processor.extract_config(&node, 1).unwrap_err();

    assert!(matches!(err, ProcessError::Custom(_)));
    assert!(err.message().contains("cats_strings is not supported"));
}

#[test]
fn test_infer_types_sets_rank_and_static_shape_from_int_categories() {
    let node = make_node_builder(DType::F32, 2, Some(vec![2, 3]));
    let mut node = attr_ints(node, "cats_int64s", vec![10, 20, 30, 40]);

    let processor = OneHotEncoderProcessor;
    let prefs = OutputPreferences::new();
    processor.infer_types(&mut node, 1, &prefs).unwrap();

    match &node.outputs[0].ty {
        ArgType::Tensor(t) => {
            assert_eq!(t.dtype, DType::F32);
            assert_eq!(t.rank, 3);
            assert_eq!(t.static_shape, Some(vec![Some(2), Some(3), Some(4)]));
        }
        other => panic!("expected tensor output, got {other:?}"),
    }
}

#[test]
fn test_infer_types_sets_partial_static_shape_when_input_shape_unknown() {
    let node = make_node_builder(DType::I64, 1, None);
    let mut node = attr_ints(node, "cats_int64s", vec![0, 1, 2]);

    let processor = OneHotEncoderProcessor;
    let prefs = OutputPreferences::new();
    processor.infer_types(&mut node, 1, &prefs).unwrap();

    match &node.outputs[0].ty {
        ArgType::Tensor(t) => {
            assert_eq!(t.rank, 2);
            assert_eq!(t.static_shape, Some(vec![None, Some(3)]));
        }
        other => panic!("expected tensor output, got {other:?}"),
    }
}

#[test]
fn test_infer_types_rejects_unsupported_input_dtype() {
    let node = make_node_builder(DType::Bool(BoolStore::Native), 1, Some(vec![3]));
    let mut node = attr_ints(node, "cats_int64s", vec![0, 1]);

    let processor = OneHotEncoderProcessor;
    let prefs = OutputPreferences::new();
    let err = processor.infer_types(&mut node, 1, &prefs).unwrap_err();

    assert!(matches!(err, ProcessError::TypeMismatch { .. }));
}

#[test]
fn test_infer_types_requires_categories_attribute() {
    let mut node = make_node_builder(DType::F32, 1, Some(vec![3]));

    let processor = OneHotEncoderProcessor;
    let prefs = OutputPreferences::new();
    let err = processor.infer_types(&mut node, 1, &prefs).unwrap_err();

    assert!(matches!(err, ProcessError::InvalidAttribute { .. }));
    assert!(err.message().contains("exactly one of cats_int64s or cats_strings"));
}

// Further cases of the processor.

#[test]
fn validate_config_reports_each_refusal() {
    let processor = OneHotEncoderProcessor;
    let neither = OneHotEncoderConfig::new(None, None, None);
    assert_eq!(
        processor.validate_config(&neither),
        Err(ProcessError::InvalidAttribute {
            name: "cats_int64s/cats_strings".to_string(),
            reason: "exactly one of cats_int64s or cats_strings must be provided".to_string(),
        })
    );
    let zeros_false = OneHotEncoderConfig::new(Some(vec![1]), None, Some(0));
    assert_eq!(
        processor.validate_config(&zeros_false),
        Err(ProcessError::Custom(
            "OneHotEncoder zeros=0 is not supported in burn-onnx because unknown categories must raise at runtime"
                .to_string()
        ))
    );
    let zeros_two = OneHotEncoderConfig::new(Some(vec![0, 1]), None, Some(2));
    assert_eq!(processor.validate_config(&zeros_two), Ok(()));
    let strings_and_ints = OneHotEncoderConfig::new(Some(vec![1]), Some(vec!["a".to_string()]), None);
    assert!(processor.validate_config(&strings_and_ints).is_err());
    let fine = OneHotEncoderConfig::new(Some(vec![5, 7]), None, None);
    assert_eq!(processor.validate_config(&fine), Ok(()));
    assert_eq!(processor.get_num_categories(&fine), 2);
}

#[test]
fn extract_config_reports_attribute_of_wrong_kind() {
    let node = make_node_builder(DType::I64, 1, None);
    let node = attr_int(node, "cats_int64s", 3);
    let processor = OneHotEncoderProcessor;
    let err = processor.extract_config(&node, 1).unwrap_err();
    assert_eq!(
        err,
        ProcessError::InvalidAttribute {
            name: "cats_int64s".to_string(),
            reason: "expected Int64s, got Int64(3)".to_string(),
        }
    );
    assert_eq!(err.message(), "Invalid attribute 'cats_int64s': expected Int64s, got Int64(3)");
}

#[test]
fn extract_config_ignores_unknown_keys() {
    let node = make_node_builder(DType::I64, 1, None);
    let node = attr_int(node, "unrelated", 9);
    let node = attr_ints(node, "cats_int64s", vec![4, 5, 6]);
    let node = attr_int(node, "zeros", 3);
    let processor = OneHotEncoderProcessor;
    let config = processor.extract_config(&node, 1).unwrap();
    assert_eq!(config.cats_int64s, Some(vec![4, 5, 6]));
    assert_eq!(config.zeros, Some(3));
    assert_eq!(config.cats_strings, None);
}

#[test]
fn infer_types_rejects_non_tensor_input_and_leaves_node_unchanged() {
    let node = make_node_builder(DType::F32, 1, None);
    let mut node = attr_ints(node, "cats_int64s", vec![0, 1]);
    node.inputs[0].ty = ArgType::Scalar(DType::F32);
    let before = node.clone();
    let err = OneHotEncoderProcessor.infer_types(&mut node, 1, &OutputPreferences::new()).unwrap_err();
    assert_eq!(
        err,
        ProcessError::TypeMismatch {
            expected: "tensor(float | double | int32 | int64)".to_string(),
            actual: "Scalar(F32)".to_string(),
        }
    );
    assert_eq!(node, before);
}

#[test]
fn infer_types_names_the_refused_element_type() {
    let node = make_node_builder(DType::U8, 2, None);
    let mut node = attr_ints(node, "cats_int64s", vec![0, 1]);
    let err = OneHotEncoderProcessor.infer_types(&mut node, 1, &OutputPreferences::new()).unwrap_err();
    assert_eq!(
        err,
        ProcessError::TypeMismatch {
            expected: "tensor(float | double | int32 | int64)".to_string(),
            actual: "tensor(U8)".to_string(),
        }
    );
}

#[test]
fn build_node_carries_name_arguments_and_config() {
    let node = make_node_builder(DType::F64, 1, None);
    let node = attr_ints(node, "cats_int64s", vec![3, 1]);
    let built = OneHotEncoderProcessor.build_node(node.clone(), 1);
    match built {
        Node::OneHotEncoder(n) => {
            assert_eq!(n.name, "test_ohe");
            assert_eq!(n.inputs, node.inputs);
            assert_eq!(n.outputs, node.outputs);
            assert_eq!(n.config, OneHotEncoderConfig::new(Some(vec![3, 1]), None, None));
        }
        other => panic!("expected a OneHotEncoder node, got {other:?}"),
    }
}

#[test]
fn inferred_last_dimension_is_number_of_categories() {
    let node = make_node_builder(DType::I32, 3, Some(vec![1, 2, 3]));
    let mut node = attr_ints(node, "cats_int64s", vec![9, 8, 7, 6, 5]);
    OneHotEncoderProcessor.infer_types(&mut node, 1, &OutputPreferences::new()).unwrap();
    let config = OneHotEncoderProcessor.extract_config(&node, 1).unwrap();
    let n = OneHotEncoderProcessor.get_num_categories(&config);
    match &node.outputs[0].ty {
        ArgType::Tensor(t) => {
            assert_eq!(t.rank, 4);
            assert_eq!(t.static_shape.as_ref().unwrap().last(), Some(&Some(n)));
        }
        other => panic!("expected tensor output, got {other:?}"),
    }
}
