//! # ZipMap
//!
//! A deprecated ONNX-ML operator that makes a map from a tensor and a list of
//! class labels; it is common in scikit-learn and ML.NET models. Here it is a
//! pass-through: its output has the type of its input and no code is generated.
use vstd::prelude::*;
use vstd::string::StringExecFns;
use crate::ir::{ArgType, Argument, ArgumentView, DType, RawNode, TensorType, args_view, tensor_argument};
use crate::node::Node;
use crate::processor::{InputSpec, NodeSpec, OutputPreferences, OutputSpec, ProcessError, same_as_input};

verus! {

/// A ZipMap node.
#[derive(Debug, Clone, PartialEq)]
pub struct ZipMapNode {
    pub name: String,
    pub inputs: Vec<Argument>,
    pub outputs: Vec<Argument>,
}

/// Processes ZipMap nodes.
pub struct ZipMapProcessor;

impl ZipMapProcessor {
    /// Opset 1 and later, one input, one output.
    pub fn spec(&self) -> (r: NodeSpec)
        ensures
            r == (NodeSpec {
                min_opset: 1,
                max_opset: None,
                inputs: InputSpec::Exact(1),
                outputs: OutputSpec::Exact(1),
            }),
    {
        NodeSpec { min_opset: 1, max_opset: None, inputs: InputSpec::Exact(1), outputs: OutputSpec::Exact(1) }
    }

    /// Gives the output the type of the input.
    pub fn infer_types(&self, node: &mut RawNode, opset: usize, output_preferences: &OutputPreferences) -> (r:
        Result<(), ProcessError>)
        requires
            old(node).inputs.len() >= 1,
            old(node).outputs.len() >= 1,
        ensures
            r is Ok,
            final(node).node_type == old(node).node_type,
            final(node).name@ == old(node).name@,
            final(node).attrs@ == old(node).attrs@,
            final(node).inputs@ == old(node).inputs@,
            args_view(final(node).outputs@) == args_view(old(node).outputs@).update(
                0,
                ArgumentView { name: old(node).outputs@[0].name@, ty: old(node).inputs@[0].ty@ },
            ),
    {
        same_as_input(node);
        Ok(())
    }

    /// ZipMap generates no code.
    pub fn is_noop(&self, node: &RawNode) -> (r: bool)
        ensures
            r,
    {
        true
    }

    /// ZipMap has no configuration.
    pub fn extract_config(&self, node: &RawNode, opset: usize) -> (r: Result<(), ProcessError>)
        ensures
            r is Ok,
    {
        Ok(())
    }

    /// The ZipMap node of a raw node.
    pub fn build_node(&self, builder: RawNode, opset: usize) -> (r: Node)
        ensures
            r matches Node::ZipMap(n) && n.name == builder.name && n.inputs == builder.inputs && n.outputs
                == builder.outputs,
    {
        Node::ZipMap(ZipMapNode { name: builder.name, inputs: builder.inputs, outputs: builder.outputs })
    }
}

/// Builds a [`ZipMapNode`] argument by argument.
pub struct ZipMapNodeBuilder {
    pub name: String,
    pub inputs: Vec<Argument>,
    pub outputs: Vec<Argument>,
}

impl ZipMapNodeBuilder {
    /// A builder for a node named `name`, with no arguments.
    pub fn new(name: &str) -> (r: ZipMapNodeBuilder)
        ensures
            r.name@ == name@,
            r.inputs@.len() == 0,
            r.outputs@.len() == 0,
    {
        ZipMapNodeBuilder { name: String::from_str(name), inputs: Vec::new(), outputs: Vec::new() }
    }

    /// Adds a tensor input of unknown shape.
    pub fn input_tensor(self, name: &str, rank: usize, dtype: DType) -> (r: ZipMapNodeBuilder)
        ensures
            r.name == self.name,
            r.outputs == self.outputs,
            args_view(r.inputs@) == args_view(self.inputs@).push(tensor_argument(name@, rank, dtype)),
    {
        let mut b = self;
        b.inputs.push(Argument::new(name, ArgType::Tensor(TensorType::new(dtype, rank, None))));
        assert(args_view(b.inputs@) =~= args_view(self.inputs@).push(tensor_argument(name@, rank, dtype)));
        b
    }

    /// Adds a tensor output of unknown shape.
    pub fn output_tensor(self, name: &str, rank: usize, dtype: DType) -> (r: ZipMapNodeBuilder)
        ensures
            r.name == self.name,
            r.inputs == self.inputs,
            args_view(r.outputs@) == args_view(self.outputs@).push(tensor_argument(name@, rank, dtype)),
    {
        let mut b = self;
        b.outputs.push(Argument::new(name, ArgType::Tensor(TensorType::new(dtype, rank, None))));
        assert(args_view(b.outputs@) =~= args_view(self.outputs@).push(tensor_argument(name@, rank, dtype)));
        b
    }

    /// The node.
    pub fn build(self) -> (r: ZipMapNode)
        ensures
            r.name == self.name,
            r.inputs == self.inputs,
            r.outputs == self.outputs,
    {
        ZipMapNode { name: self.name, inputs: self.inputs, outputs: self.outputs }
    }
}

} // verus!
