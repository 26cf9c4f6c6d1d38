//! # SVMRegressor
//!
//! Regression with a support vector machine. Kernels: LINEAR `K(x, sv) = x · sv`,
//! RBF `exp(-gamma * ||x - sv||^2)`, POLY `(gamma * x · sv + coef0)^degree`,
//! SIGMOID `tanh(gamma * x · sv + coef0)`.
use vstd::prelude::*;
use vstd::string::StringExecFns;
use crate::ir::{
    ArgType, Argument, AttributeValue, AttributeValueView, DType, F32Value, F32ValueView, RawNode,
    TensorType, args_view, attrs_view, copy_floats, floats_view, tensor_argument, text_view,
};
use crate::node::Node;
use crate::processor::{InputSpec, NodeSpec, OutputPreferences, OutputSpec, ProcessError, same_as_input};
use crate::ir::{ArgumentView, attr_keys_unique, last_floats, last_int, last_string};
use crate::text::same_text;

verus! {

/// Configuration of an SVMRegressor node.
#[derive(Debug, Clone, PartialEq)]
pub struct SVMRegressorConfig {
    /// Coefficients of the support vectors in the decision function.
    pub coefficients: Option<Vec<F32Value>>,
    /// Kernel parameters: gamma, coef0, degree.
    pub kernel_params: Option<Vec<F32Value>>,
    /// LINEAR, POLY, RBF or SIGMOID.
    pub kernel_type: Option<String>,
    /// Number of support vectors.
    pub n_supports: Option<i64>,
    /// Whether one class is predicted per target or one for all targets.
    pub one_class: Option<i64>,
    /// NONE, SOFTMAX, LOGISTIC, SOFTMAX_ZERO or PROBIT.
    pub post_transform: Option<String>,
    /// Bias terms of the decision function.
    pub rho: Option<Vec<F32Value>>,
    /// The support vectors, one after the other.
    pub support_vectors: Option<Vec<F32Value>>,
}

/// Spec-level value of an [`SVMRegressorConfig`].
pub struct SVMRegressorConfigView {
    pub coefficients: Option<Seq<F32ValueView>>,
    pub kernel_params: Option<Seq<F32ValueView>>,
    pub kernel_type: Option<Seq<char>>,
    pub n_supports: Option<i64>,
    pub one_class: Option<i64>,
    pub post_transform: Option<Seq<char>>,
    pub rho: Option<Seq<F32ValueView>>,
    pub support_vectors: Option<Seq<F32ValueView>>,
}

impl View for SVMRegressorConfig {
    type V = SVMRegressorConfigView;

    open spec fn view(&self) -> SVMRegressorConfigView {
        SVMRegressorConfigView {
            coefficients: floats_view(self.coefficients),
            kernel_params: floats_view(self.kernel_params),
            kernel_type: text_view(self.kernel_type),
            n_supports: self.n_supports,
            one_class: self.one_class,
            post_transform: text_view(self.post_transform),
            rho: floats_view(self.rho),
            support_vectors: floats_view(self.support_vectors),
        }
    }
}

impl SVMRegressorConfig {
    /// A configuration with the given attributes.
    pub fn new(
        coefficients: Option<Vec<F32Value>>,
        kernel_params: Option<Vec<F32Value>>,
        kernel_type: Option<String>,
        n_supports: Option<i64>,
        one_class: Option<i64>,
        post_transform: Option<String>,
        rho: Option<Vec<F32Value>>,
        support_vectors: Option<Vec<F32Value>>,
    ) -> (r: SVMRegressorConfig)
        ensures
            r.coefficients == coefficients,
            r.kernel_params == kernel_params,
            r.kernel_type == kernel_type,
            r.n_supports == n_supports,
            r.one_class == one_class,
            r.post_transform == post_transform,
            r.rho == rho,
            r.support_vectors == support_vectors,
    {
        SVMRegressorConfig {
            coefficients,
            kernel_params,
            kernel_type,
            n_supports,
            one_class,
            post_transform,
            rho,
            support_vectors,
        }
    }
}

impl Default for SVMRegressorConfig {
    fn default() -> (r: SVMRegressorConfig)
        ensures
            r@ == empty_svm_config(),
    {
        SVMRegressorConfig {
            coefficients: None,
            kernel_params: None,
            kernel_type: None,
            n_supports: None,
            one_class: None,
            post_transform: None,
            rho: None,
            support_vectors: None,
        }
    }
}

/// A configuration with no attribute set.
pub open spec fn empty_svm_config() -> SVMRegressorConfigView {
    SVMRegressorConfigView {
        coefficients: None,
        kernel_params: None,
        kernel_type: None,
        n_supports: None,
        one_class: None,
        post_transform: None,
        rho: None,
        support_vectors: None,
    }
}

/// An SVMRegressor node with its configuration.
#[derive(Debug, Clone, PartialEq)]
pub struct SVMRegressorNode {
    pub name: String,
    pub inputs: Vec<Argument>,
    pub outputs: Vec<Argument>,
    pub config: SVMRegressorConfig,
}

impl SVMRegressorNode {
    /// A node with the given name, arguments and configuration.
    pub fn new(name: String, inputs: Vec<Argument>, outputs: Vec<Argument>, config: SVMRegressorConfig) -> (r:
        SVMRegressorNode)
        ensures
            r.name == name,
            r.inputs == inputs,
            r.outputs == outputs,
            r.config == config,
    {
        SVMRegressorNode { name, inputs, outputs, config }
    }
}

/// Reading one attribute: a known key with a value of the right kind sets its
/// field; anything else leaves the configuration as it is.
pub open spec fn read_svm_attr(acc: SVMRegressorConfigView, key: Seq<char>, value: AttributeValueView) -> SVMRegressorConfigView {
    if key == "coefficients"@ {
        match value {
            AttributeValueView::Float32s(v) => SVMRegressorConfigView { coefficients: Some(v), ..acc },
            _ => acc,
        }
    } else if key == "kernel_params"@ {
        match value {
            AttributeValueView::Float32s(v) => SVMRegressorConfigView { kernel_params: Some(v), ..acc },
            _ => acc,
        }
    } else if key == "kernel_type"@ {
        match value {
            AttributeValueView::String(s) => SVMRegressorConfigView { kernel_type: Some(s), ..acc },
            _ => acc,
        }
    } else if key == "n_supports"@ {
        match value {
            AttributeValueView::Int64(n) => SVMRegressorConfigView { n_supports: Some(n), ..acc },
            _ => acc,
        }
    } else if key == "one_class"@ {
        match value {
            AttributeValueView::Int64(n) => SVMRegressorConfigView { one_class: Some(n), ..acc },
            _ => acc,
        }
    } else if key == "post_transform"@ {
        match value {
            AttributeValueView::String(s) => SVMRegressorConfigView { post_transform: Some(s), ..acc },
            _ => acc,
        }
    } else if key == "rho"@ {
        match value {
            AttributeValueView::Float32s(v) => SVMRegressorConfigView { rho: Some(v), ..acc },
            _ => acc,
        }
    } else if key == "support_vectors"@ {
        match value {
            AttributeValueView::Float32s(v) => SVMRegressorConfigView { support_vectors: Some(v), ..acc },
            _ => acc,
        }
    } else {
        acc
    }
}

/// Reading the attributes in order; for each field the last attribute of its
/// key and kind wins.
pub open spec fn read_svm_attrs(attrs: Seq<(Seq<char>, AttributeValueView)>) -> SVMRegressorConfigView
    decreases attrs.len(),
{
    if attrs.len() == 0 {
        empty_svm_config()
    } else {
        read_svm_attr(read_svm_attrs(attrs.drop_last()), attrs.last().0, attrs.last().1)
    }
}

/// Each field of the configuration read from `attrs` holds the value of the
/// last attribute of its name and kind, and is absent when there is none:
/// attributes of other names or kinds change nothing, and a later attribute
/// overrides an earlier one of the same name.
pub proof fn lemma_svm_fields_are_last_attributes(attrs: Seq<(Seq<char>, AttributeValueView)>)
    ensures
        read_svm_attrs(attrs) == (SVMRegressorConfigView {
            coefficients: last_floats(attrs, "coefficients"@),
            kernel_params: last_floats(attrs, "kernel_params"@),
            kernel_type: last_string(attrs, "kernel_type"@),
            n_supports: last_int(attrs, "n_supports"@),
            one_class: last_int(attrs, "one_class"@),
            post_transform: last_string(attrs, "post_transform"@),
            rho: last_floats(attrs, "rho"@),
            support_vectors: last_floats(attrs, "support_vectors"@),
        }),
    decreases attrs.len(),
{
    if attrs.len() > 0 {
        lemma_svm_fields_are_last_attributes(attrs.drop_last());
        reveal_strlit("coefficients");
        reveal_strlit("kernel_params");
        reveal_strlit("kernel_type");
        reveal_strlit("n_supports");
        reveal_strlit("one_class");
        reveal_strlit("post_transform");
        reveal_strlit("rho");
        reveal_strlit("support_vectors");
        assert("coefficients"@.len() == 12);
        assert("kernel_params"@.len() == 13);
        assert("kernel_type"@.len() == 11);
        assert("n_supports"@.len() == 10);
        assert("one_class"@.len() == 9);
        assert("post_transform"@.len() == 14);
        assert("rho"@.len() == 3);
        assert("support_vectors"@.len() == 15);
    }
}

/// Processes SVMRegressor nodes.
pub struct SVMRegressorProcessor;

impl SVMRegressorProcessor {
    /// Opset 1 and later, one input, one output.
    pub fn spec(&self) -> (r: NodeSpec)
        ensures
            r == (NodeSpec {
                min_opset: 1,
                max_opset: None,
                inputs: InputSpec::Exact(1),
                outputs: OutputSpec::Exact(1),
            }),
    {
        NodeSpec { min_opset: 1, max_opset: None, inputs: InputSpec::Exact(1), outputs: OutputSpec::Exact(1) }
    }

    /// Gives the output the type of the input.
    pub fn infer_types(&self, node: &mut RawNode, opset: usize, output_preferences: &OutputPreferences) -> (r:
        Result<(), ProcessError>)
        requires
            old(node).inputs.len() >= 1,
            old(node).outputs.len() >= 1,
        ensures
            r is Ok,
            final(node).node_type == old(node).node_type,
            final(node).name@ == old(node).name@,
            final(node).attrs@ == old(node).attrs@,
            final(node).inputs@ == old(node).inputs@,
            args_view(final(node).outputs@) == args_view(old(node).outputs@).update(
                0,
                ArgumentView { name: old(node).outputs@[0].name@, ty: old(node).inputs@[0].ty@ },
            ),
    {
        same_as_input(node);
        Ok(())
    }

    /// Reads the attributes of the node; it never fails.
    pub fn extract_config(&self, node: &RawNode, opset: usize) -> (r: Result<SVMRegressorConfig, ProcessError>)
        requires
            attr_keys_unique(attrs_view(node.attrs@)),
        ensures
            r matches Ok(c) && c@ == read_svm_attrs(attrs_view(node.attrs@)),
    {
        let ghost attrs = attrs_view(node.attrs@);
        let mut config = SVMRegressorConfig::default();
        let mut i: usize = 0;
        while i < node.attrs.len()
            invariant
                i <= node.attrs.len(),
                attrs == attrs_view(node.attrs@),
                read_svm_attrs(attrs.take(i as int)) == config@,
            decreases node.attrs.len() - i,
        {
            let key = node.attrs[i].0.as_str();
            let value = &node.attrs[i].1;
            assert(attrs.take(i + 1).drop_last() =~= attrs.take(i as int));
            if same_text(key, "coefficients") {
                if let AttributeValue::Float32s(v) = value {
                    config.coefficients = Some(copy_floats(v));
                }
            } else if same_text(key, "kernel_params") {
                if let AttributeValue::Float32s(v) = value {
                    config.kernel_params = Some(copy_floats(v));
                }
            } else if same_text(key, "kernel_type") {
                if let AttributeValue::String(s) = value {
                    config.kernel_type = Some(s.clone());
                }
            } else if same_text(key, "n_supports") {
                if let AttributeValue::Int64(n) = value {
                    config.n_supports = Some(*n);
                }
            } else if same_text(key, "one_class") {
                if let AttributeValue::Int64(n) = value {
                    config.one_class = Some(*n);
                }
            } else if same_text(key, "post_transform") {
                if let AttributeValue::String(s) = value {
                    config.post_transform = Some(s.clone());
                }
            } else if same_text(key, "rho") {
                if let AttributeValue::Float32s(v) = value {
                    config.rho = Some(copy_floats(v));
                }
            } else if same_text(key, "support_vectors") {
                if let AttributeValue::Float32s(v) = value {
                    config.support_vectors = Some(copy_floats(v));
                }
            }
            i = i + 1;
        }
        assert(attrs.take(node.attrs.len() as int) =~= attrs);
        Ok(config)
    }

    /// The SVMRegressor node of a raw node, with its extracted configuration.
    pub fn build_node(&self, builder: RawNode, opset: usize) -> (r: Node)
        requires
            attr_keys_unique(attrs_view(builder.attrs@)),
        ensures
            r matches Node::SVMRegressor(n) && {
                &&& n.name == builder.name
                &&& n.inputs == builder.inputs
                &&& n.outputs == builder.outputs
                &&& n.config@ == read_svm_attrs(attrs_view(builder.attrs@))
            },
    {
        let config = match self.extract_config(&builder, opset) {
            Ok(c) => c,
            Err(_) => SVMRegressorConfig::default(),
        };
        Node::SVMRegressor(SVMRegressorNode::new(builder.name, builder.inputs, builder.outputs, config))
    }
}

/// Builds a [`SVMRegressorNode`] argument by argument.
pub struct SVMRegressorNodeBuilder {
    pub name: String,
    pub inputs: Vec<Argument>,
    pub outputs: Vec<Argument>,
    pub config: SVMRegressorConfig,
}

impl SVMRegressorNodeBuilder {
    /// A builder for a node named `name`, with no arguments and the default configuration.
    pub fn new(name: &str) -> (r: SVMRegressorNodeBuilder)
        ensures
            r.name@ == name@,
            r.inputs@.len() == 0,
            r.outputs@.len() == 0,
    {
        SVMRegressorNodeBuilder {
            name: String::from_str(name),
            inputs: Vec::new(),
            outputs: Vec::new(),
            config: SVMRegressorConfig::default(),
        }
    }

    /// Adds a tensor input of unknown shape.
    pub fn input_tensor(self, name: &str, rank: usize, dtype: DType) -> (r: SVMRegressorNodeBuilder)
        ensures
            r.name == self.name,
            r.outputs == self.outputs,
            r.config == self.config,
            args_view(r.inputs@) == args_view(self.inputs@).push(tensor_argument(name@, rank, dtype)),
    {
        let mut b = self;
        b.inputs.push(Argument::new(name, ArgType::Tensor(TensorType::new(dtype, rank, None))));
        assert(args_view(b.inputs@) =~= args_view(self.inputs@).push(tensor_argument(name@, rank, dtype)));
        b
    }

    /// Adds a tensor output of unknown shape.
    pub fn output_tensor(self, name: &str, rank: usize, dtype: DType) -> (r: SVMRegressorNodeBuilder)
        ensures
            r.name == self.name,
            r.inputs == self.inputs,
            r.config == self.config,
            args_view(r.outputs@) == args_view(self.outputs@).push(tensor_argument(name@, rank, dtype)),
    {
        let mut b = self;
        b.outputs.push(Argument::new(name, ArgType::Tensor(TensorType::new(dtype, rank, None))));
        assert(args_view(b.outputs@) =~= args_view(self.outputs@).push(tensor_argument(name@, rank, dtype)));
        b
    }

    /// Sets the configuration.
    pub fn config(self, config: SVMRegressorConfig) -> (r: SVMRegressorNodeBuilder)
        ensures
            r.name == self.name,
            r.inputs == self.inputs,
            r.outputs == self.outputs,
            r.config == config,
    {
        let mut b = self;
        b.config = config;
        b
    }

    /// The node.
    pub fn build(self) -> (r: SVMRegressorNode)
        ensures
            r.name == self.name,
            r.inputs == self.inputs,
            r.outputs == self.outputs,
            r.config == self.config,
    {
        SVMRegressorNode { name: self.name, inputs: self.inputs, outputs: self.outputs, config: self.config }
    }
}

} // verus!
