//! # OneHotEncoder
//!
//! Replaces each input element with an array of ones and zeros, where a single
//! one is placed at the index of the category that was passed in. The output
//! has one more dimension than the input: the categories are the last one.
//!
//! Input element types: float, double, int32, int64 (string inputs are not supported).
//! Opset 1 introduced the operator with the `cats_int64s`, `cats_strings` and `zeros` attributes.
use vstd::prelude::*;
use vstd::string::StringExecFns;
use crate::ir::{
    ArgType, ArgTypeView, Argument, ArgumentView, AttributeValue, AttributeValueView, DType,
    RawNode, TensorType, TensorTypeView, args_view, attrs_view, copy_ints, copy_strings, ints_view, strings_view, tensor_argument,
    last_int, last_ints, last_strings, attr_keys_unique,
};
use crate::node::Node;
use crate::processor::{
    InputSpec, NodeSpec, OutputPreferences, OutputSpec, ProcessError, ProcessErrorView,
    arg_type_name, arg_type_text, attribute_name, attribute_text, dtype_name, dtype_text,
    set_output_type,
};
use crate::text::same_text;

verus! {

/// Configuration of a OneHotEncoder node.
#[derive(Debug, Clone, PartialEq)]
pub struct OneHotEncoderConfig {
    /// Integer categories, in lookup order.
    pub cats_int64s: Option<Vec<i64>>,
    /// String categories (not supported by the code generator).
    pub cats_strings: Option<Vec<String>>,
    /// A boolean: when true (non-zero, the default) an unknown category gives
    /// all zeros; when 0 it is an error.
    pub zeros: Option<i64>,
}

/// Spec-level value of a [`OneHotEncoderConfig`].
pub struct OneHotEncoderConfigView {
    pub cats_int64s: Option<Seq<i64>>,
    pub cats_strings: Option<Seq<Seq<char>>>,
    pub zeros: Option<i64>,
}

impl View for OneHotEncoderConfig {
    type V = OneHotEncoderConfigView;

    open spec fn view(&self) -> OneHotEncoderConfigView {
        OneHotEncoderConfigView {
            cats_int64s: ints_view(self.cats_int64s),
            cats_strings: strings_view(self.cats_strings),
            zeros: self.zeros,
        }
    }
}

/// A configuration with no attribute set.
pub open spec fn empty_config() -> OneHotEncoderConfigView {
    OneHotEncoderConfigView { cats_int64s: None, cats_strings: None, zeros: None }
}

impl OneHotEncoderConfig {
    /// A configuration with the given attributes.
    pub fn new(cats_int64s: Option<Vec<i64>>, cats_strings: Option<Vec<String>>, zeros: Option<i64>) -> (r:
        OneHotEncoderConfig)
        ensures
            r.cats_int64s == cats_int64s,
            r.cats_strings == cats_strings,
            r.zeros == zeros,
    {
        OneHotEncoderConfig { cats_int64s, cats_strings, zeros }
    }
}

impl Default for OneHotEncoderConfig {
    fn default() -> (r: OneHotEncoderConfig)
        ensures
            r.cats_int64s.is_none(),
            r.cats_strings.is_none(),
            r.zeros.is_none(),
    {
        OneHotEncoderConfig { cats_int64s: None, cats_strings: None, zeros: None }
    }
}

/// A OneHotEncoder node with its configuration.
#[derive(Debug, Clone, PartialEq)]
pub struct OneHotEncoderNode {
    pub name: String,
    pub inputs: Vec<Argument>,
    pub outputs: Vec<Argument>,
    pub config: OneHotEncoderConfig,
}

impl OneHotEncoderNode {
    /// A node with the given name, arguments and configuration.
    pub fn new(name: String, inputs: Vec<Argument>, outputs: Vec<Argument>, config: OneHotEncoderConfig) -> (r:
        OneHotEncoderNode)
        ensures
            r.name == name,
            r.inputs == inputs,
            r.outputs == outputs,
            r.config == config,
    {
        OneHotEncoderNode { name, inputs, outputs, config }
    }
}

/// Reads and checks the configuration of OneHotEncoder nodes and infers their output type.
pub struct OneHotEncoderProcessor;

/// The error for an attribute whose value has another kind than expected.
pub open spec fn wrong_kind(name: Seq<char>, expected: Seq<char>, value: AttributeValueView) -> ProcessErrorView {
    ProcessErrorView::InvalidAttribute {
        name,
        reason: "expected "@ + expected + ", got "@ + attribute_text(value),
    }
}

/// Reading one attribute into the configuration read so far.
pub open spec fn read_attr(acc: OneHotEncoderConfigView, key: Seq<char>, value: AttributeValueView) -> Result<
    OneHotEncoderConfigView,
    ProcessErrorView,
> {
    if key == "cats_int64s"@ {
        match value {
            AttributeValueView::Int64s(ints) => Ok(
                OneHotEncoderConfigView { cats_int64s: Some(ints), ..acc },
            ),
            _ => Err(wrong_kind("cats_int64s"@, "Int64s"@, value)),
        }
    } else if key == "cats_strings"@ {
        match value {
            AttributeValueView::Strings(strings) => Ok(
                OneHotEncoderConfigView { cats_strings: Some(strings), ..acc },
            ),
            _ => Err(wrong_kind("cats_strings"@, "Strings"@, value)),
        }
    } else if key == "zeros"@ {
        match value {
            AttributeValueView::Int64(i) => Ok(OneHotEncoderConfigView { zeros: Some(i), ..acc }),
            _ => Err(wrong_kind("zeros"@, "Int64"@, value)),
        }
    } else {
        Ok(acc)
    }
}

/// Reading the attributes in order: the last value of each known attribute is
/// kept, other keys are ignored, and the first value of a wrong kind is an error.
pub open spec fn read_attrs(attrs: Seq<(Seq<char>, AttributeValueView)>) -> Result<
    OneHotEncoderConfigView,
    ProcessErrorView,
>
    decreases attrs.len(),
{
    if attrs.len() == 0 {
        Ok(empty_config())
    } else {
        match read_attrs(attrs.drop_last()) {
            Err(e) => Err(e),
            Ok(acc) => read_attr(acc, attrs.last().0, attrs.last().1),
        }
    }
}

/// Which configurations the processor accepts, and the error for each one it refuses.
pub open spec fn validation(c: OneHotEncoderConfigView) -> Result<(), ProcessErrorView> {
    let has_ints = c.cats_int64s is Some;
    let has_strings = c.cats_strings is Some;
    if has_ints == has_strings {
        Err(
            ProcessErrorView::InvalidAttribute {
                name: "cats_int64s/cats_strings"@,
                reason: "exactly one of cats_int64s or cats_strings must be provided"@,
            },
        )
    } else if has_strings {
        Err(
            ProcessErrorView::Custom(
                "OneHotEncoder with cats_strings is not supported in burn-onnx; only numeric categories (cats_int64s) are supported"@,
            ),
        )
    } else if c.cats_int64s.unwrap().len() == 0 {
        Err(
            ProcessErrorView::InvalidAttribute {
                name: "cats_int64s"@,
                reason: "must not be empty"@,
            },
        )
    } else if c.zeros == Some(0i64) {
        Err(
            ProcessErrorView::Custom(
                "OneHotEncoder zeros=0 is not supported in burn-onnx because unknown categories must raise at runtime"@,
            ),
        )
    } else {
        Ok(())
    }
}

/// A configuration that the processor accepts: integer categories, at least
/// one of them, no string categories, and `zeros` absent or true (non-zero).
pub open spec fn accepted(c: OneHotEncoderConfigView) -> bool {
    &&& c.cats_int64s matches Some(ints) && ints.len() > 0
    &&& c.cats_strings is None
    &&& c.zeros != Some(0i64)
}

/// The configuration extracted from the attributes of a node, or the error.
pub open spec fn extraction(attrs: Seq<(Seq<char>, AttributeValueView)>) -> Result<
    OneHotEncoderConfigView,
    ProcessErrorView,
> {
    match read_attrs(attrs) {
        Err(e) => Err(e),
        Ok(c) => match validation(c) {
            Err(e) => Err(e),
            Ok(_) => Ok(c),
        },
    }
}

/// The number of categories of an accepted configuration.
pub open spec fn num_categories(c: OneHotEncoderConfigView) -> nat {
    c.cats_int64s.unwrap().len()
}

/// Whether an input element type can be encoded.
pub open spec fn supported_dtype(d: DType) -> bool {
    d == DType::F32 || d == DType::F64 || d == DType::I32 || d == DType::I64
}

/// The static shape of the output: the input's known dimensions (all unknown
/// when the input shape is unknown), then the number of categories.
pub open spec fn output_shape(t: TensorTypeView, n: nat) -> Seq<Option<usize>> {
    match t.static_shape {
        Some(s) => s.push(Some(n as usize)),
        None => Seq::new(t.rank as nat, |i: int| None::<usize>).push(Some(n as usize)),
    }
}

pub open spec fn expected_input_text() -> Seq<char> {
    "tensor(float | double | int32 | int64)"@
}

/// The output type inferred for a node whose first input has type `input`, or the error.
pub open spec fn inference(input: ArgTypeView, attrs: Seq<(Seq<char>, AttributeValueView)>) -> Result<
    ArgTypeView,
    ProcessErrorView,
> {
    match extraction(attrs) {
        Err(e) => Err(e),
        Ok(c) => match input {
            ArgTypeView::Tensor(t) => if supported_dtype(t.dtype) {
                Ok(
                    ArgTypeView::Tensor(
                        TensorTypeView {
                            dtype: DType::F32,
                            rank: (t.rank + 1) as usize,
                            static_shape: Some(output_shape(t, num_categories(c))),
                        },
                    ),
                )
            } else {
                Err(
                    ProcessErrorView::TypeMismatch {
                        expected: expected_input_text(),
                        actual: "tensor("@ + dtype_text(t.dtype) + ")"@,
                    },
                )
            },
            other => Err(
                ProcessErrorView::TypeMismatch {
                    expected: expected_input_text(),
                    actual: arg_type_text(other),
                },
            ),
        },
    }
}

pub open spec fn config_result(r: Result<OneHotEncoderConfig, ProcessError>) -> Result<
    OneHotEncoderConfigView,
    ProcessErrorView,
> {
    match r {
        Ok(c) => Ok(c@),
        Err(e) => Err(e@),
    }
}

pub open spec fn unit_result(r: Result<(), ProcessError>) -> Result<(), ProcessErrorView> {
    match r {
        Ok(_) => Ok(()),
        Err(e) => Err(e@),
    }
}

proof fn lemma_error_persists(attrs: Seq<(Seq<char>, AttributeValueView)>, k: int)
    requires
        0 <= k <= attrs.len(),
        read_attrs(attrs.take(k)) is Err,
    ensures
        read_attrs(attrs) == read_attrs(attrs.take(k)),
    decreases attrs.len() - k,
{
    if k < attrs.len() {
        assert(attrs.take(k + 1).drop_last() =~= attrs.take(k));
        lemma_error_persists(attrs, k + 1);
    } else {
        assert(attrs.take(k) =~= attrs);
    }
}

fn invalid_kind(name: &str, expected: &str, value: &AttributeValue) -> (r: ProcessError)
    ensures
        r@ == wrong_kind(name@, expected@, value@),
{
    let mut reason = String::from_str("expected ");
    reason.append(expected);
    reason.append(", got ");
    let shown = attribute_name(value);
    reason.append(shown.as_str());
    ProcessError::InvalidAttribute { name: String::from_str(name), reason }
}

/// Every configuration that extraction returns is accepted, and so holds at
/// least one integer category.
pub proof fn lemma_extracted_config_is_accepted(attrs: Seq<(Seq<char>, AttributeValueView)>)
    ensures
        extraction(attrs) matches Ok(c) ==> accepted(c) && num_categories(c) > 0,
        extraction(attrs) matches Ok(c) ==> c.cats_int64s is Some && c.cats_int64s.unwrap().len() > 0
            && c.cats_strings is None && c.zeros != Some(0i64),
{
}

/// Validation accepts exactly the configurations with a non-empty list of
/// integer categories, no string categories, and `zeros` absent or true (non-zero).
pub proof fn lemma_validation_accepts_exactly(c: OneHotEncoderConfigView)
    ensures
        validation(c) is Ok <==> accepted(c),
        validation(c) is Ok <==> (c.cats_int64s is Some && c.cats_int64s.unwrap().len() > 0 && c.cats_strings is None
            && c.zeros != Some(0i64)),
        (c.cats_int64s is Some) == (c.cats_strings is Some) ==> validation(c) == Err::<(), ProcessErrorView>(
            ProcessErrorView::InvalidAttribute {
                name: "cats_int64s/cats_strings"@,
                reason: "exactly one of cats_int64s or cats_strings must be provided"@,
            },
        ),
        c.cats_int64s is None && c.cats_strings is Some ==> validation(c) matches Err(ProcessErrorView::Custom(_)),
        c.cats_int64s is Some && c.cats_strings is None && c.cats_int64s.unwrap().len() == 0 ==> validation(c) == Err::<
            (),
            ProcessErrorView,
        >(ProcessErrorView::InvalidAttribute { name: "cats_int64s"@, reason: "must not be empty"@ }),
{
}

/// The inferred output is a float tensor of one more rank than the input,
/// whose known shape ends with the number of categories; when the input's
/// known shape has one size per dimension, so does the output's.
pub proof fn lemma_inferred_output_shape(input: ArgTypeView, attrs: Seq<(Seq<char>, AttributeValueView)>)
    requires
        input matches ArgTypeView::Tensor(t) ==> t.rank < usize::MAX,
    ensures
        inference(input, attrs) matches Ok(ty) ==> {
            &&& input matches ArgTypeView::Tensor(t)
            &&& extraction(attrs) matches Ok(c)
            &&& ty matches ArgTypeView::Tensor(out)
            &&& out.dtype == DType::F32
            &&& out.rank == t.rank + 1
            &&& out.static_shape matches Some(shape)
            &&& shape.last() == Some(num_categories(c) as usize)
            &&& (t.static_shape matches Some(s) && s.len() == t.rank) ==> shape.len() == out.rank
            &&& t.static_shape is None ==> shape.len() == out.rank
        },
{
}

/// Type inference and configuration extraction agree: inference succeeds only
/// when extraction does, and the last dimension of the output is the number of
/// categories of the extracted configuration, which `get_num_categories`
/// returns for the configuration of the built node.
pub proof fn lemma_inference_matches_extraction(input: ArgTypeView, attrs: Seq<(Seq<char>, AttributeValueView)>)
    ensures
        inference(input, attrs) is Ok ==> extraction(attrs) is Ok,
        extraction(attrs) is Err ==> inference(input, attrs) == Err::<ArgTypeView, ProcessErrorView>(
            extraction(attrs)->Err_0,
        ),
        inference(input, attrs) matches Ok(ArgTypeView::Tensor(out)) ==> out.static_shape.unwrap().last()
            == Some(num_categories(extraction(attrs)->Ok_0) as usize),
{
}

/// When the attributes read without error, each field of the configuration
/// holds the value of the last attribute of its name, and is absent when there
/// is none: attributes of other names change nothing, and a later attribute
/// overrides an earlier one of the same name.
pub proof fn lemma_fields_are_last_attributes(attrs: Seq<(Seq<char>, AttributeValueView)>)
    ensures
        read_attrs(attrs) is Ok ==> read_attrs(attrs) == Ok::<OneHotEncoderConfigView, ProcessErrorView>(
            OneHotEncoderConfigView {
                cats_int64s: last_ints(attrs, "cats_int64s"@),
                cats_strings: last_strings(attrs, "cats_strings"@),
                zeros: last_int(attrs, "zeros"@),
            },
        ),
    decreases attrs.len(),
{
    if attrs.len() > 0 {
        lemma_fields_are_last_attributes(attrs.drop_last());
        reveal_strlit("cats_int64s");
        reveal_strlit("cats_strings");
        reveal_strlit("zeros");
        assert("cats_int64s"@.len() == 11);
        assert("cats_strings"@.len() == 12);
        assert("zeros"@.len() == 5);
    }
}

/// Once the attributes are accepted, type inference succeeds exactly for the
/// tensor inputs whose element type is float, double, int32 or int64; every
/// other input (another element type, or not a tensor) is refused with a type
/// mismatch. A successful inference types the output as a float tensor of one
/// more rank than the input.
pub proof fn lemma_inference_accepts_exactly_numeric_tensors(
    input: ArgTypeView,
    attrs: Seq<(Seq<char>, AttributeValueView)>,
)
    requires
        extraction(attrs) is Ok,
    ensures
        inference(input, attrs) is Ok <==> (input matches ArgTypeView::Tensor(t) && (t.dtype == DType::F32
            || t.dtype == DType::F64 || t.dtype == DType::I32 || t.dtype == DType::I64)),
        inference(input, attrs) matches Err(e) ==> e is TypeMismatch,
        inference(input, attrs) matches Ok(ty) ==> (ty matches ArgTypeView::Tensor(out) && input matches ArgTypeView::Tensor(t)
            && out.dtype == DType::F32 && out.rank == (t.rank + 1) as usize),
{
}

impl OneHotEncoderProcessor {
    /// Opset 1 and later, one input, one output.
    pub fn spec(&self) -> (r: NodeSpec)
        ensures
            r == (NodeSpec {
                min_opset: 1,
                max_opset: None,
                inputs: InputSpec::Exact(1),
                outputs: OutputSpec::Exact(1),
            }),
    {
        NodeSpec { min_opset: 1, max_opset: None, inputs: InputSpec::Exact(1), outputs: OutputSpec::Exact(1) }
    }

    /// Reads the attributes of the node and checks them.
    pub fn extract_config(&self, node: &RawNode, opset: usize) -> (r: Result<OneHotEncoderConfig, ProcessError>)
        requires
            attr_keys_unique(attrs_view(node.attrs@)),
        ensures
            config_result(r) == extraction(attrs_view(node.attrs@)),
    {
        let ghost attrs = attrs_view(node.attrs@);
        let mut cats_int64s: Option<Vec<i64>> = None;
        let mut cats_strings: Option<Vec<String>> = None;
        let mut zeros: Option<i64> = None;
        let mut i: usize = 0;
        while i < node.attrs.len()
            invariant
                i <= node.attrs.len(),
                attrs == attrs_view(node.attrs@),
                read_attrs(attrs.take(i as int)) == Ok::<OneHotEncoderConfigView, ProcessErrorView>(
                    OneHotEncoderConfigView {
                        cats_int64s: ints_view(cats_int64s),
                        cats_strings: strings_view(cats_strings),
                        zeros,
                    },
                ),
            decreases node.attrs.len() - i,
        {
            let key = &node.attrs[i].0;
            let value = &node.attrs[i].1;
            assert(attrs.take(i + 1).drop_last() =~= attrs.take(i as int));
            assert(attrs.take(i + 1).last() == attrs[i as int]);
            if same_text(key.as_str(), "cats_int64s") {
                match value {
                    AttributeValue::Int64s(ints) => {
                        cats_int64s = Some(copy_ints(ints));
                    },
                    _ => {
                        let err = invalid_kind("cats_int64s", "Int64s", value);
                        proof {
                            lemma_error_persists(attrs, i + 1);
                        }
                        return Err(err);
                    },
                }
            } else if same_text(key.as_str(), "cats_strings") {
                match value {
                    AttributeValue::Strings(strings) => {
                        cats_strings = Some(copy_strings(strings));
                    },
                    _ => {
                        let err = invalid_kind("cats_strings", "Strings", value);
                        proof {
                            lemma_error_persists(attrs, i + 1);
                        }
                        return Err(err);
                    },
                }
            } else if same_text(key.as_str(), "zeros") {
                match value {
                    AttributeValue::Int64(z) => {
                        zeros = Some(*z);
                    },
                    _ => {
                        let err = invalid_kind("zeros", "Int64", value);
                        proof {
                            lemma_error_persists(attrs, i + 1);
                        }
                        return Err(err);
                    },
                }
            }
            i = i + 1;
        }
        assert(attrs.take(node.attrs.len() as int) =~= attrs);
        let config = OneHotEncoderConfig::new(cats_int64s, cats_strings, zeros);
        match self.validate_config(&config) {
            Err(e) => Err(e),
            Ok(_) => Ok(config),
        }
    }

    /// Checks that exactly one category list is given, that it holds integers,
    /// that it is not empty, and that `zeros` is absent or true (non-zero).
    pub fn validate_config(&self, config: &OneHotEncoderConfig) -> (r: Result<(), ProcessError>)
        ensures
            unit_result(r) == validation(config@),
            r is Ok <==> accepted(config@),
    {
        let has_ints = config.cats_int64s.is_some();
        let has_strings = config.cats_strings.is_some();
        if has_ints == has_strings {
            return Err(
                ProcessError::InvalidAttribute {
                    name: String::from_str("cats_int64s/cats_strings"),
                    reason: String::from_str("exactly one of cats_int64s or cats_strings must be provided"),
                },
            );
        }
        if has_strings {
            return Err(
                ProcessError::Custom(
                    String::from_str(
                        "OneHotEncoder with cats_strings is not supported in burn-onnx; only numeric categories (cats_int64s) are supported",
                    ),
                ),
            );
        }
        match &config.cats_int64s {
            Some(ints) => {
                if ints.len() == 0 {
                    return Err(
                        ProcessError::InvalidAttribute {
                            name: String::from_str("cats_int64s"),
                            reason: String::from_str("must not be empty"),
                        },
                    );
                }
            },
            None => {},
        }
        let zeros = match config.zeros {
            Some(z) => z,
            None => 1,
        };
        if zeros == 0 {
            return Err(
                ProcessError::Custom(
                    String::from_str(
                        "OneHotEncoder zeros=0 is not supported in burn-onnx because unknown categories must raise at runtime",
                    ),
                ),
            );
        }
        Ok(())
    }

    /// The number of integer categories.
    pub fn get_num_categories(&self, config: &OneHotEncoderConfig) -> (r: usize)
        requires
            config.cats_int64s is Some,
        ensures
            r == config.cats_int64s.unwrap().len(),
    {
        match &config.cats_int64s {
            Some(ints) => ints.len(),
            None => 0,
        }
    }

    /// Gives the output the type float tensor of one more rank than the input,
    /// whose last dimension is the number of categories.
    pub fn infer_types(&self, node: &mut RawNode, opset: usize, output_preferences: &OutputPreferences) -> (r:
        Result<(), ProcessError>)
        requires
            old(node).inputs.len() >= 1,
            old(node).outputs.len() >= 1,
            attr_keys_unique(attrs_view(old(node).attrs@)),
            old(node).inputs@[0].ty@ matches ArgTypeView::Tensor(t) ==> t.rank < usize::MAX,
        ensures
            match inference(old(node).inputs@[0].ty@, attrs_view(old(node).attrs@)) {
                Ok(ty) => {
                    &&& r is Ok
                    &&& final(node).node_type == old(node).node_type
                    &&& final(node).name == old(node).name
                    &&& final(node).inputs == old(node).inputs
                    &&& final(node).attrs == old(node).attrs
                    &&& args_view(final(node).outputs@) == args_view(old(node).outputs@).update(
                        0,
                        ArgumentView { name: old(node).outputs@[0].name@, ty },
                    )
                },
                Err(e) => {
                    &&& r matches Err(err) && err@ == e
                    &&& *final(node) == *old(node)
                },
            },
    {
        let config = match self.extract_config(node, opset) {
            Ok(c) => c,
            Err(e) => {
                return Err(e);
            },
        };
        let t = match &node.inputs[0].ty {
            ArgType::Tensor(t) => t,
            other => {
                return Err(
                    ProcessError::TypeMismatch {
                        expected: String::from_str("tensor(float | double | int32 | int64)"),
                        actual: arg_type_name(other),
                    },
                );
            },
        };
        match t.dtype {
            DType::F32 | DType::F64 | DType::I32 | DType::I64 => {},
            other => {
                let mut actual = String::from_str("tensor(");
                actual.append(dtype_name(other));
                actual.append(")");
                return Err(
                    ProcessError::TypeMismatch {
                        expected: String::from_str("tensor(float | double | int32 | int64)"),
                        actual,
                    },
                );
            },
        }
        let num_categories = self.get_num_categories(&config);
        let input_rank = t.rank;
        let mut shape: Vec<Option<usize>> = Vec::new();
        match &t.static_shape {
            Some(input_shape) => {
                let mut i: usize = 0;
                while i < input_shape.len()
                    invariant
                        i <= input_shape.len(),
                        shape@ == input_shape@.subrange(0, i as int),
                    decreases input_shape.len() - i,
                {
                    shape.push(input_shape[i]);
                    i = i + 1;
                    assert(shape@ =~= input_shape@.subrange(0, i as int));
                }
                assert(shape@ =~= input_shape@);
            },
            None => {
                let mut i: usize = 0;
                while i < input_rank
                    invariant
                        i <= input_rank,
                        shape@ == Seq::new(i as nat, |j: int| None::<usize>),
                    decreases input_rank - i,
                {
                    shape.push(None);
                    i = i + 1;
                    assert(shape@ =~= Seq::new(i as nat, |j: int| None::<usize>));
                }
            },
        }
        shape.push(Some(num_categories));
        let ghost expected_shape = output_shape(t@, num_categories as nat);
        assert(shape@ =~= expected_shape);
        let ty = ArgType::Tensor(TensorType { dtype: DType::F32, rank: input_rank + 1, static_shape: Some(shape) });
        set_output_type(node, 0, ty);
        Ok(())
    }

    /// The OneHotEncoder node of a raw node, with its extracted configuration.
    pub fn build_node(&self, builder: RawNode, opset: usize) -> (r: Node)
        requires
            attr_keys_unique(attrs_view(builder.attrs@)),
            extraction(attrs_view(builder.attrs@)) is Ok,
        ensures
            r matches Node::OneHotEncoder(n) && {
                &&& n.name == builder.name
                &&& n.inputs == builder.inputs
                &&& n.outputs == builder.outputs
                &&& Ok::<OneHotEncoderConfigView, ProcessErrorView>(n.config@) == extraction(
                    attrs_view(builder.attrs@),
                )
            },
    {
        let config = match self.extract_config(&builder, opset) {
            Ok(c) => c,
            Err(_) => OneHotEncoderConfig::new(None, None, None),
        };
        Node::OneHotEncoder(OneHotEncoderNode::new(builder.name, builder.inputs, builder.outputs, config))
    }
}

/// Builds a [`OneHotEncoderNode`] argument by argument.
pub struct OneHotEncoderNodeBuilder {
    pub name: String,
    pub inputs: Vec<Argument>,
    pub outputs: Vec<Argument>,
    pub config: OneHotEncoderConfig,
}

impl OneHotEncoderNodeBuilder {
    /// A builder for a node named `name`, with no arguments and the default configuration.
    pub fn new(name: &str) -> (r: OneHotEncoderNodeBuilder)
        ensures
            r.name@ == name@,
            r.inputs@.len() == 0,
            r.outputs@.len() == 0,
    {
        OneHotEncoderNodeBuilder {
            name: String::from_str(name),
            inputs: Vec::new(),
            outputs: Vec::new(),
            config: OneHotEncoderConfig::new(None, None, None),
        }
    }

    /// Adds a tensor input of unknown shape.
    pub fn input_tensor(self, name: &str, rank: usize, dtype: DType) -> (r: OneHotEncoderNodeBuilder)
        ensures
            r.name == self.name,
            r.outputs == self.outputs,
            r.config == self.config,
            args_view(r.inputs@) == args_view(self.inputs@).push(tensor_argument(name@, rank, dtype)),
    {
        let mut b = self;
        b.inputs.push(Argument::new(name, ArgType::Tensor(TensorType::new(dtype, rank, None))));
        assert(args_view(b.inputs@) =~= args_view(self.inputs@).push(tensor_argument(name@, rank, dtype)));
        b
    }

    /// Adds a tensor output of unknown shape.
    pub fn output_tensor(self, name: &str, rank: usize, dtype: DType) -> (r: OneHotEncoderNodeBuilder)
        ensures
            r.name == self.name,
            r.inputs == self.inputs,
            r.config == self.config,
            args_view(r.outputs@) == args_view(self.outputs@).push(tensor_argument(name@, rank, dtype)),
    {
        let mut b = self;
        b.outputs.push(Argument::new(name, ArgType::Tensor(TensorType::new(dtype, rank, None))));
        assert(args_view(b.outputs@) =~= args_view(self.outputs@).push(tensor_argument(name@, rank, dtype)));
        b
    }

    /// Sets the configuration.
    pub fn config(self, config: OneHotEncoderConfig) -> (r: OneHotEncoderNodeBuilder)
        ensures
            r.name == self.name,
            r.inputs == self.inputs,
            r.outputs == self.outputs,
            r.config == config,
    {
        let mut b = self;
        b.config = config;
        b
    }

    /// The node.
    pub fn build(self) -> (r: OneHotEncoderNode)
        ensures
            r.name == self.name,
            r.inputs == self.inputs,
            r.outputs == self.outputs,
            r.config == self.config,
    {
        OneHotEncoderNode { name: self.name, inputs: self.inputs, outputs: self.outputs, config: self.config }
    }
}

} // verus!
