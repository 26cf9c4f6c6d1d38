//! # TreeEnsembleClassifier
//!
//! Classification with an ensemble of decision trees (random forests, gradient
//! boosted trees). The node has two outputs: the class labels and the class
//! probabilities.
use vstd::prelude::*;
use crate::ir::{
    ArgType, Argument, ArgumentView, AttributeValue, AttributeValueView, DType, F32Value,
    F32ValueView, RawNode, TensorType, args_view, attrs_view, copy_floats, copy_ints, copy_strings,
    floats_view, ints_view, strings_view, tensor_argument, text_view, ArgTypeView, TensorTypeView,
    last_floats, last_ints, last_string, last_strings, attr_keys_unique,
};
use vstd::string::StringExecFns;
use crate::node::Node;
use crate::processor::{InputSpec, NodeSpec, OutputPreferences, OutputSpec, ProcessError, set_output_type};
use crate::text::same_text;

verus! {

/// Configuration of a TreeEnsembleClassifier node.
#[derive(Debug, Clone, PartialEq)]
pub struct TreeEnsembleClassifierConfig {
    /// Base values for each class.
    pub base_values: Option<Vec<F32Value>>,
    /// Class of each leaf weight.
    pub class_ids: Option<Vec<i64>>,
    /// Node of each leaf weight.
    pub class_nodeids: Option<Vec<i64>>,
    /// Tree of each leaf weight.
    pub class_treeids: Option<Vec<i64>>,
    /// Weight of each leaf entry.
    pub class_weights: Option<Vec<F32Value>>,
    /// Integer class labels.
    pub classlabels_int64s: Option<Vec<i64>>,
    /// String class labels.
    pub classlabels_strings: Option<Vec<String>>,
    /// Feature read by each node.
    pub nodes_featureids: Option<Vec<i64>>,
    /// Hit rate of each node.
    pub nodes_hitrates: Option<Vec<F32Value>>,
    /// Whether a missing value follows the true branch, per node.
    pub nodes_missing_value_tracks_true: Option<Vec<i64>>,
    /// Mode of each node: BRANCH_LEQ, BRANCH_LT, BRANCH_GTE, BRANCH_GT, BRANCH_EQ, BRANCH_NEQ or LEAF.
    pub nodes_modes: Option<Vec<String>>,
    /// Id of each node.
    pub nodes_nodeids: Option<Vec<i64>>,
    /// Tree of each node.
    pub nodes_treeids: Option<Vec<i64>>,
    /// Child taken when the condition holds, per node.
    pub nodes_truenodeids: Option<Vec<i64>>,
    /// Child taken when the condition fails, per node.
    pub nodes_falsenodeids: Option<Vec<i64>>,
    /// Threshold of each node.
    pub nodes_values: Option<Vec<F32Value>>,
    /// NONE, SOFTMAX, LOGISTIC, SOFTMAX_ZERO or PROBIT.
    pub post_transform: Option<String>,
}

/// Spec-level value of a [`TreeEnsembleClassifierConfig`].
pub struct TreeEnsembleClassifierConfigView {
    pub base_values: Option<Seq<F32ValueView>>,
    pub class_ids: Option<Seq<i64>>,
    pub class_nodeids: Option<Seq<i64>>,
    pub class_treeids: Option<Seq<i64>>,
    pub class_weights: Option<Seq<F32ValueView>>,
    pub classlabels_int64s: Option<Seq<i64>>,
    pub classlabels_strings: Option<Seq<Seq<char>>>,
    pub nodes_featureids: Option<Seq<i64>>,
    pub nodes_hitrates: Option<Seq<F32ValueView>>,
    pub nodes_missing_value_tracks_true: Option<Seq<i64>>,
    pub nodes_modes: Option<Seq<Seq<char>>>,
    pub nodes_nodeids: Option<Seq<i64>>,
    pub nodes_treeids: Option<Seq<i64>>,
    pub nodes_truenodeids: Option<Seq<i64>>,
    pub nodes_falsenodeids: Option<Seq<i64>>,
    pub nodes_values: Option<Seq<F32ValueView>>,
    pub post_transform: Option<Seq<char>>,
}

impl View for TreeEnsembleClassifierConfig {
    type V = TreeEnsembleClassifierConfigView;

    open spec fn view(&self) -> TreeEnsembleClassifierConfigView {
        TreeEnsembleClassifierConfigView {
            base_values: floats_view(self.base_values),
            class_ids: ints_view(self.class_ids),
            class_nodeids: ints_view(self.class_nodeids),
            class_treeids: ints_view(self.class_treeids),
            class_weights: floats_view(self.class_weights),
            classlabels_int64s: ints_view(self.classlabels_int64s),
            classlabels_strings: strings_view(self.classlabels_strings),
            nodes_featureids: ints_view(self.nodes_featureids),
            nodes_hitrates: floats_view(self.nodes_hitrates),
            nodes_missing_value_tracks_true: ints_view(self.nodes_missing_value_tracks_true),
            nodes_modes: strings_view(self.nodes_modes),
            nodes_nodeids: ints_view(self.nodes_nodeids),
            nodes_treeids: ints_view(self.nodes_treeids),
            nodes_truenodeids: ints_view(self.nodes_truenodeids),
            nodes_falsenodeids: ints_view(self.nodes_falsenodeids),
            nodes_values: floats_view(self.nodes_values),
            post_transform: text_view(self.post_transform),
        }
    }
}

/// A configuration with no attribute set.
pub open spec fn empty_tree_config() -> TreeEnsembleClassifierConfigView {
    TreeEnsembleClassifierConfigView {
        base_values: None,
        class_ids: None,
        class_nodeids: None,
        class_treeids: None,
        class_weights: None,
        classlabels_int64s: None,
        classlabels_strings: None,
        nodes_featureids: None,
        nodes_hitrates: None,
        nodes_missing_value_tracks_true: None,
        nodes_modes: None,
        nodes_nodeids: None,
        nodes_treeids: None,
        nodes_truenodeids: None,
        nodes_falsenodeids: None,
        nodes_values: None,
        post_transform: None,
    }
}

impl TreeEnsembleClassifierConfig {
    /// A configuration with the given attributes.
    pub fn new(
        base_values: Option<Vec<F32Value>>,
        class_ids: Option<Vec<i64>>,
        class_nodeids: Option<Vec<i64>>,
        class_treeids: Option<Vec<i64>>,
        class_weights: Option<Vec<F32Value>>,
        classlabels_int64s: Option<Vec<i64>>,
        classlabels_strings: Option<Vec<String>>,
        nodes_featureids: Option<Vec<i64>>,
        nodes_hitrates: Option<Vec<F32Value>>,
        nodes_missing_value_tracks_true: Option<Vec<i64>>,
        nodes_modes: Option<Vec<String>>,
        nodes_nodeids: Option<Vec<i64>>,
        nodes_treeids: Option<Vec<i64>>,
        nodes_truenodeids: Option<Vec<i64>>,
        nodes_falsenodeids: Option<Vec<i64>>,
        nodes_values: Option<Vec<F32Value>>,
        post_transform: Option<String>,
    ) -> (r: TreeEnsembleClassifierConfig)
        ensures
            r.base_values == base_values,
            r.class_ids == class_ids,
            r.class_nodeids == class_nodeids,
            r.class_treeids == class_treeids,
            r.class_weights == class_weights,
            r.classlabels_int64s == classlabels_int64s,
            r.classlabels_strings == classlabels_strings,
            r.nodes_featureids == nodes_featureids,
            r.nodes_hitrates == nodes_hitrates,
            r.nodes_missing_value_tracks_true == nodes_missing_value_tracks_true,
            r.nodes_modes == nodes_modes,
            r.nodes_nodeids == nodes_nodeids,
            r.nodes_treeids == nodes_treeids,
            r.nodes_truenodeids == nodes_truenodeids,
            r.nodes_falsenodeids == nodes_falsenodeids,
            r.nodes_values == nodes_values,
            r.post_transform == post_transform,
    {
        TreeEnsembleClassifierConfig {
            base_values,
            class_ids,
            class_nodeids,
            class_treeids,
            class_weights,
            classlabels_int64s,
            classlabels_strings,
            nodes_featureids,
            nodes_hitrates,
            nodes_missing_value_tracks_true,
            nodes_modes,
            nodes_nodeids,
            nodes_treeids,
            nodes_truenodeids,
            nodes_falsenodeids,
            nodes_values,
            post_transform,
        }
    }
}

impl Default for TreeEnsembleClassifierConfig {
    fn default() -> (r: TreeEnsembleClassifierConfig)
        ensures
            r@ == empty_tree_config(),
    {
        TreeEnsembleClassifierConfig {
            base_values: None,
            class_ids: None,
            class_nodeids: None,
            class_treeids: None,
            class_weights: None,
            classlabels_int64s: None,
            classlabels_strings: None,
            nodes_featureids: None,
            nodes_hitrates: None,
            nodes_missing_value_tracks_true: None,
            nodes_modes: None,
            nodes_nodeids: None,
            nodes_treeids: None,
            nodes_truenodeids: None,
            nodes_falsenodeids: None,
            nodes_values: None,
            post_transform: None,
        }
    }
}

/// A TreeEnsembleClassifier node with its configuration.
#[derive(Debug, Clone, PartialEq)]
pub struct TreeEnsembleClassifierNode {
    pub name: String,
    pub inputs: Vec<Argument>,
    pub outputs: Vec<Argument>,
    pub config: TreeEnsembleClassifierConfig,
}

impl TreeEnsembleClassifierNode {
    /// A node with the given name, arguments and configuration.
    pub fn new(
        name: String,
        inputs: Vec<Argument>,
        outputs: Vec<Argument>,
        config: TreeEnsembleClassifierConfig,
    ) -> (r: TreeEnsembleClassifierNode)
        ensures
            r.name == name,
            r.inputs == inputs,
            r.outputs == outputs,
            r.config == config,
    {
        TreeEnsembleClassifierNode { name, inputs, outputs, config }
    }
}

/// Reading one attribute: a known key with a value of the right kind sets its
/// field; anything else leaves the configuration as it is.
pub open spec fn read_tree_attr(
    acc: TreeEnsembleClassifierConfigView,
    key: Seq<char>,
    value: AttributeValueView,
) -> TreeEnsembleClassifierConfigView {
    if key == "base_values"@ {
        match value {
            AttributeValueView::Float32s(v) => TreeEnsembleClassifierConfigView { base_values: Some(v), ..acc },
            _ => acc,
        }
    } else if key == "class_ids"@ {
        match value {
            AttributeValueView::Int64s(v) => TreeEnsembleClassifierConfigView { class_ids: Some(v), ..acc },
            _ => acc,
        }
    } else if key == "class_nodeids"@ {
        match value {
            AttributeValueView::Int64s(v) => TreeEnsembleClassifierConfigView { class_nodeids: Some(v), ..acc },
            _ => acc,
        }
    } else if key == "class_treeids"@ {
        match value {
            AttributeValueView::Int64s(v) => TreeEnsembleClassifierConfigView { class_treeids: Some(v), ..acc },
            _ => acc,
        }
    } else if key == "class_weights"@ {
        match value {
            AttributeValueView::Float32s(v) => TreeEnsembleClassifierConfigView { class_weights: Some(v), ..acc },
            _ => acc,
        }
    } else if key == "classlabels_int64s"@ {
        match value {
            AttributeValueView::Int64s(v) => TreeEnsembleClassifierConfigView { classlabels_int64s: Some(v), ..acc },
            _ => acc,
        }
    } else if key == "classlabels_strings"@ {
        match value {
            AttributeValueView::Strings(v) => TreeEnsembleClassifierConfigView { classlabels_strings: Some(v), ..acc },
            _ => acc,
        }
    } else if key == "nodes_featureids"@ {
        match value {
            AttributeValueView::Int64s(v) => TreeEnsembleClassifierConfigView { nodes_featureids: Some(v), ..acc },
            _ => acc,
        }
    } else if key == "nodes_hitrates"@ {
        match value {
            AttributeValueView::Float32s(v) => TreeEnsembleClassifierConfigView { nodes_hitrates: Some(v), ..acc },
            _ => acc,
        }
    } else if key == "nodes_missing_value_tracks_true"@ {
        match value {
            AttributeValueView::Int64s(v) => TreeEnsembleClassifierConfigView { nodes_missing_value_tracks_true: Some(v), ..acc },
            _ => acc,
        }
    } else if key == "nodes_modes"@ {
        match value {
            AttributeValueView::Strings(v) => TreeEnsembleClassifierConfigView { nodes_modes: Some(v), ..acc },
            _ => acc,
        }
    } else if key == "nodes_nodeids"@ {
        match value {
            AttributeValueView::Int64s(v) => TreeEnsembleClassifierConfigView { nodes_nodeids: Some(v), ..acc },
            _ => acc,
        }
    } else if key == "nodes_treeids"@ {
        match value {
            AttributeValueView::Int64s(v) => TreeEnsembleClassifierConfigView { nodes_treeids: Some(v), ..acc },
            _ => acc,
        }
    } else if key == "nodes_truenodeids"@ {
        match value {
            AttributeValueView::Int64s(v) => TreeEnsembleClassifierConfigView { nodes_truenodeids: Some(v), ..acc },
            _ => acc,
        }
    } else if key == "nodes_falsenodeids"@ {
        match value {
            AttributeValueView::Int64s(v) => TreeEnsembleClassifierConfigView { nodes_falsenodeids: Some(v), ..acc },
            _ => acc,
        }
    } else if key == "nodes_values"@ {
        match value {
            AttributeValueView::Float32s(v) => TreeEnsembleClassifierConfigView { nodes_values: Some(v), ..acc },
            _ => acc,
        }
    } else if key == "post_transform"@ {
        match value {
            AttributeValueView::String(v) => TreeEnsembleClassifierConfigView { post_transform: Some(v), ..acc },
            _ => acc,
        }
    } else {
        acc
    }
}

/// Reading the attributes in order; for each field the last attribute of its
/// key and kind wins.
pub open spec fn read_tree_attrs(attrs: Seq<(Seq<char>, AttributeValueView)>) -> TreeEnsembleClassifierConfigView
    decreases attrs.len(),
{
    if attrs.len() == 0 {
        empty_tree_config()
    } else {
        read_tree_attr(read_tree_attrs(attrs.drop_last()), attrs.last().0, attrs.last().1)
    }
}

/// Each field of the configuration read from `attrs` holds the value of the
/// last attribute of its name and kind, and is absent when there is none:
/// attributes of other names or kinds change nothing, and a later attribute
/// overrides an earlier one of the same name.
pub proof fn lemma_tree_fields_are_last_attributes(attrs: Seq<(Seq<char>, AttributeValueView)>)
    ensures
        read_tree_attrs(attrs) == (TreeEnsembleClassifierConfigView {
            base_values: last_floats(attrs, "base_values"@),
            class_ids: last_ints(attrs, "class_ids"@),
            class_nodeids: last_ints(attrs, "class_nodeids"@),
            class_treeids: last_ints(attrs, "class_treeids"@),
            class_weights: last_floats(attrs, "class_weights"@),
            classlabels_int64s: last_ints(attrs, "classlabels_int64s"@),
            classlabels_strings: last_strings(attrs, "classlabels_strings"@),
            nodes_featureids: last_ints(attrs, "nodes_featureids"@),
            nodes_hitrates: last_floats(attrs, "nodes_hitrates"@),
            nodes_missing_value_tracks_true: last_ints(attrs, "nodes_missing_value_tracks_true"@),
            nodes_modes: last_strings(attrs, "nodes_modes"@),
            nodes_nodeids: last_ints(attrs, "nodes_nodeids"@),
            nodes_treeids: last_ints(attrs, "nodes_treeids"@),
            nodes_truenodeids: last_ints(attrs, "nodes_truenodeids"@),
            nodes_falsenodeids: last_ints(attrs, "nodes_falsenodeids"@),
            nodes_values: last_floats(attrs, "nodes_values"@),
            post_transform: last_string(attrs, "post_transform"@),
        }),
    decreases attrs.len(),
{
    if attrs.len() > 0 {
        lemma_tree_fields_are_last_attributes(attrs.drop_last());
        reveal_strlit("base_values");
        reveal_strlit("class_ids");
        reveal_strlit("class_nodeids");
        reveal_strlit("class_treeids");
        reveal_strlit("class_weights");
        reveal_strlit("classlabels_int64s");
        reveal_strlit("classlabels_strings");
        reveal_strlit("nodes_featureids");
        reveal_strlit("nodes_hitrates");
        reveal_strlit("nodes_missing_value_tracks_true");
        reveal_strlit("nodes_modes");
        reveal_strlit("nodes_nodeids");
        reveal_strlit("nodes_treeids");
        reveal_strlit("nodes_truenodeids");
        reveal_strlit("nodes_falsenodeids");
        reveal_strlit("nodes_values");
        reveal_strlit("post_transform");
        assert("base_values"@.len() == 11);
        assert("class_ids"@.len() == 9);
        assert("class_nodeids"@.len() == 13);
        assert("class_treeids"@.len() == 13);
        assert("class_weights"@.len() == 13);
        assert("classlabels_int64s"@.len() == 18);
        assert("classlabels_strings"@.len() == 19);
        assert("nodes_featureids"@.len() == 16);
        assert("nodes_hitrates"@.len() == 14);
        assert("nodes_missing_value_tracks_true"@.len() == 31);
        assert("nodes_modes"@.len() == 11);
        assert("nodes_nodeids"@.len() == 13);
        assert("nodes_treeids"@.len() == 13);
        assert("nodes_truenodeids"@.len() == 17);
        assert("nodes_falsenodeids"@.len() == 18);
        assert("nodes_values"@.len() == 12);
        assert("post_transform"@.len() == 14);
        assert("base_values"@[0] == 'b');
        assert("class_nodeids"@[0] == 'c');
        assert("class_nodeids"@[6] == 'n');
        assert("class_treeids"@[0] == 'c');
        assert("class_treeids"@[6] == 't');
        assert("class_weights"@[0] == 'c');
        assert("class_weights"@[6] == 'w');
        assert("classlabels_int64s"@[0] == 'c');
        assert("nodes_hitrates"@[0] == 'n');
        assert("nodes_modes"@[0] == 'n');
        assert("nodes_nodeids"@[0] == 'n');
        assert("nodes_nodeids"@[6] == 'n');
        assert("nodes_treeids"@[0] == 'n');
        assert("nodes_treeids"@[6] == 't');
        assert("nodes_falsenodeids"@[0] == 'n');
        assert("post_transform"@[0] == 'p');
    }
}

/// The type of the labels output: a rank-1 int64 tensor of unknown shape.
pub open spec fn labels_type() -> ArgTypeView {
    ArgTypeView::Tensor(TensorTypeView { dtype: DType::I64, rank: 1, static_shape: None })
}

/// The type of the probabilities output: a rank-2 float tensor of unknown shape.
pub open spec fn probabilities_type() -> ArgTypeView {
    ArgTypeView::Tensor(TensorTypeView { dtype: DType::F32, rank: 2, static_shape: None })
}

/// Type inference gives the first output (the labels) the type of a rank-1
/// int64 tensor and the second (the probabilities) that of a rank-2 float
/// tensor, whatever the input; the shapes are left unknown.
pub proof fn lemma_tree_outputs_are_labels_and_probabilities()
    ensures
        labels_type() matches ArgTypeView::Tensor(t) && t.dtype == DType::I64 && t.rank == 1 && t.static_shape is None,
        probabilities_type() matches ArgTypeView::Tensor(t) && t.dtype == DType::F32 && t.rank == 2
            && t.static_shape is None,
{
}

/// Processes TreeEnsembleClassifier nodes.
pub struct TreeEnsembleClassifierProcessor;

impl TreeEnsembleClassifierProcessor {
    /// Opset 1 and later, one input, two outputs (labels and probabilities).
    pub fn spec(&self) -> (r: NodeSpec)
        ensures
            r == (NodeSpec {
                min_opset: 1,
                max_opset: None,
                inputs: InputSpec::Exact(1),
                outputs: OutputSpec::Exact(2),
            }),
    {
        NodeSpec { min_opset: 1, max_opset: None, inputs: InputSpec::Exact(1), outputs: OutputSpec::Exact(2) }
    }

    /// Gives the first output the labels type and the second the probabilities type.
    pub fn infer_types(&self, node: &mut RawNode, opset: usize, output_preferences: &OutputPreferences) -> (r:
        Result<(), ProcessError>)
        requires
            old(node).outputs.len() >= 2,
        ensures
            r is Ok,
            final(node).node_type == old(node).node_type,
            final(node).name == old(node).name,
            final(node).attrs == old(node).attrs,
            final(node).inputs == old(node).inputs,
            args_view(final(node).outputs@) == args_view(old(node).outputs@).update(
                0,
                ArgumentView { name: old(node).outputs@[0].name@, ty: labels_type() },
            ).update(1, ArgumentView { name: old(node).outputs@[1].name@, ty: probabilities_type() }),
    {
        let labels = ArgType::Tensor(TensorType { dtype: DType::I64, rank: 1, static_shape: None });
        set_output_type(node, 0, labels);
        let probabilities = ArgType::Tensor(TensorType { dtype: DType::F32, rank: 2, static_shape: None });
        set_output_type(node, 1, probabilities);
        Ok(())
    }

    /// Reads the attributes of the node; it never fails.
    pub fn extract_config(&self, node: &RawNode, opset: usize) -> (r: Result<
        TreeEnsembleClassifierConfig,
        ProcessError,
    >)
        requires
            attr_keys_unique(attrs_view(node.attrs@)),
        ensures
            r matches Ok(c) && c@ == read_tree_attrs(attrs_view(node.attrs@)),
    {
        let ghost attrs = attrs_view(node.attrs@);
        let mut config = TreeEnsembleClassifierConfig::default();
        let mut i: usize = 0;
        while i < node.attrs.len()
            invariant
                i <= node.attrs.len(),
                attrs == attrs_view(node.attrs@),
                read_tree_attrs(attrs.take(i as int)) == config@,
            decreases node.attrs.len() - i,
        {
            let key = node.attrs[i].0.as_str();
            let value = &node.attrs[i].1;
            assert(attrs.take(i + 1).drop_last() =~= attrs.take(i as int));
            if same_text(key, "base_values") {
                if let AttributeValue::Float32s(v) = value {
                    config.base_values = Some(copy_floats(v));
                }
            } else if same_text(key, "class_ids") {
                if let AttributeValue::Int64s(v) = value {
                    config.class_ids = Some(copy_ints(v));
                }
            } else if same_text(key, "class_nodeids") {
                if let AttributeValue::Int64s(v) = value {
                    config.class_nodeids = Some(copy_ints(v));
                }
            } else if same_text(key, "class_treeids") {
                if let AttributeValue::Int64s(v) = value {
                    config.class_treeids = Some(copy_ints(v));
                }
            } else if same_text(key, "class_weights") {
                if let AttributeValue::Float32s(v) = value {
                    config.class_weights = Some(copy_floats(v));
                }
            } else if same_text(key, "classlabels_int64s") {
                if let AttributeValue::Int64s(v) = value {
                    config.classlabels_int64s = Some(copy_ints(v));
                }
            } else if same_text(key, "classlabels_strings") {
                if let AttributeValue::Strings(v) = value {
                    config.classlabels_strings = Some(copy_strings(v));
                }
            } else if same_text(key, "nodes_featureids") {
                if let AttributeValue::Int64s(v) = value {
                    config.nodes_featureids = Some(copy_ints(v));
                }
            } else if same_text(key, "nodes_hitrates") {
                if let AttributeValue::Float32s(v) = value {
                    config.nodes_hitrates = Some(copy_floats(v));
                }
            } else if same_text(key, "nodes_missing_value_tracks_true") {
                if let AttributeValue::Int64s(v) = value {
                    config.nodes_missing_value_tracks_true = Some(copy_ints(v));
                }
            } else if same_text(key, "nodes_modes") {
                if let AttributeValue::Strings(v) = value {
                    config.nodes_modes = Some(copy_strings(v));
                }
            } else if same_text(key, "nodes_nodeids") {
                if let AttributeValue::Int64s(v) = value {
                    config.nodes_nodeids = Some(copy_ints(v));
                }
            } else if same_text(key, "nodes_treeids") {
                if let AttributeValue::Int64s(v) = value {
                    config.nodes_treeids = Some(copy_ints(v));
                }
            } else if same_text(key, "nodes_truenodeids") {
                if let AttributeValue::Int64s(v) = value {
                    config.nodes_truenodeids = Some(copy_ints(v));
                }
            } else if same_text(key, "nodes_falsenodeids") {
                if let AttributeValue::Int64s(v) = value {
                    config.nodes_falsenodeids = Some(copy_ints(v));
                }
            } else if same_text(key, "nodes_values") {
                if let AttributeValue::Float32s(v) = value {
                    config.nodes_values = Some(copy_floats(v));
                }
            } else if same_text(key, "post_transform") {
                if let AttributeValue::String(v) = value {
                    config.post_transform = Some(v.clone());
                }
            }
            i = i + 1;
        }
        assert(attrs.take(node.attrs.len() as int) =~= attrs);
        Ok(config)
    }

    /// The TreeEnsembleClassifier node of a raw node, with its extracted configuration.
    pub fn build_node(&self, builder: RawNode, opset: usize) -> (r: Node)
        requires
            attr_keys_unique(attrs_view(builder.attrs@)),
        ensures
            r matches Node::TreeEnsembleClassifier(n) && {
                &&& n.name == builder.name
                &&& n.inputs == builder.inputs
                &&& n.outputs == builder.outputs
                &&& n.config@ == read_tree_attrs(attrs_view(builder.attrs@))
            },
    {
        let config = match self.extract_config(&builder, opset) {
            Ok(c) => c,
            Err(_) => TreeEnsembleClassifierConfig::default(),
        };
        Node::TreeEnsembleClassifier(
            TreeEnsembleClassifierNode::new(builder.name, builder.inputs, builder.outputs, config),
        )
    }
}

/// Builds a [`TreeEnsembleClassifierNode`] argument by argument.
pub struct TreeEnsembleClassifierNodeBuilder {
    pub name: String,
    pub inputs: Vec<Argument>,
    pub outputs: Vec<Argument>,
    pub config: TreeEnsembleClassifierConfig,
}

impl TreeEnsembleClassifierNodeBuilder {
    /// A builder for a node named `name`, with no arguments and the default configuration.
    pub fn new(name: &str) -> (r: TreeEnsembleClassifierNodeBuilder)
        ensures
            r.name@ == name@,
            r.inputs@.len() == 0,
            r.outputs@.len() == 0,
    {
        TreeEnsembleClassifierNodeBuilder {
            name: String::from_str(name),
            inputs: Vec::new(),
            outputs: Vec::new(),
            config: TreeEnsembleClassifierConfig::default(),
        }
    }

    /// Adds a tensor input of unknown shape.
    pub fn input_tensor(self, name: &str, rank: usize, dtype: DType) -> (r: TreeEnsembleClassifierNodeBuilder)
        ensures
            r.name == self.name,
            r.outputs == self.outputs,
            r.config == self.config,
            args_view(r.inputs@) == args_view(self.inputs@).push(tensor_argument(name@, rank, dtype)),
    {
        let mut b = self;
        b.inputs.push(Argument::new(name, ArgType::Tensor(TensorType::new(dtype, rank, None))));
        assert(args_view(b.inputs@) =~= args_view(self.inputs@).push(tensor_argument(name@, rank, dtype)));
        b
    }

    /// Adds a tensor output of unknown shape.
    pub fn output_tensor(self, name: &str, rank: usize, dtype: DType) -> (r: TreeEnsembleClassifierNodeBuilder)
        ensures
            r.name == self.name,
            r.inputs == self.inputs,
            r.config == self.config,
            args_view(r.outputs@) == args_view(self.outputs@).push(tensor_argument(name@, rank, dtype)),
    {
        let mut b = self;
        b.outputs.push(Argument::new(name, ArgType::Tensor(TensorType::new(dtype, rank, None))));
        assert(args_view(b.outputs@) =~= args_view(self.outputs@).push(tensor_argument(name@, rank, dtype)));
        b
    }

    /// Sets the configuration.
    pub fn config(self, config: TreeEnsembleClassifierConfig) -> (r: TreeEnsembleClassifierNodeBuilder)
        ensures
            r.name == self.name,
            r.inputs == self.inputs,
            r.outputs == self.outputs,
            r.config == config,
    {
        let mut b = self;
        b.config = config;
        b
    }

    /// The node.
    pub fn build(self) -> (r: TreeEnsembleClassifierNode)
        ensures
            r.name == self.name,
            r.inputs == self.inputs,
            r.outputs == self.outputs,
            r.config == self.config,
    {
        TreeEnsembleClassifierNode { name: self.name, inputs: self.inputs, outputs: self.outputs, config: self.config }
    }
}

} // verus!
