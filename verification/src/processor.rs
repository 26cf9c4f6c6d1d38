//! What every node processor shares: the arity and opset specification of a
//! node kind, the errors of processing, and the rendering of types in messages.
use vstd::prelude::*;
use vstd::string::StringExecFns;
use crate::ir::{
    ArgType, ArgTypeView, Argument, ArgumentView, AttributeValue, AttributeValueView, BoolStore,
    DType, F32Value, F32ValueView, RawNode, args_view,
};
use crate::text::{comma_list, int_text, int_texts, nat_text, push_i64, push_int_list, push_quoted_list, push_usize, quoted, quoted_all};

verus! {

/// How many inputs a node kind takes.
#[derive(Debug, Clone, Copy, PartialEq, Eq, Structural)]
pub enum InputSpec {
    Exact(usize),
    AtLeast(usize),
    Range(usize, usize),
}

/// How many outputs a node kind produces.
#[derive(Debug, Clone, Copy, PartialEq, Eq, Structural)]
pub enum OutputSpec {
    Exact(usize),
    AtLeast(usize),
    Range(usize, usize),
}

/// Opset range and arity of a node kind.
#[derive(Debug, Clone, Copy, PartialEq, Eq, Structural)]
pub struct NodeSpec {
    pub min_opset: usize,
    pub max_opset: Option<usize>,
    pub inputs: InputSpec,
    pub outputs: OutputSpec,
}

/// Preferences on the types of outputs; none of the processors here reads them.
#[derive(Debug, Clone, Copy, PartialEq, Eq, Structural)]
pub struct OutputPreferences {}

impl OutputPreferences {
    /// No preference.
    pub fn new() -> (r: OutputPreferences) {
        OutputPreferences {  }
    }
}

/// Why processing a node failed.
#[derive(Debug, Clone, PartialEq)]
pub enum ProcessError {
    TypeMismatch { expected: String, actual: String },
    InvalidAttribute { name: String, reason: String },
    Custom(String),
}

/// Spec-level value of a [`ProcessError`].
pub enum ProcessErrorView {
    TypeMismatch { expected: Seq<char>, actual: Seq<char> },
    InvalidAttribute { name: Seq<char>, reason: Seq<char> },
    Custom(Seq<char>),
}

impl View for ProcessError {
    type V = ProcessErrorView;

    open spec fn view(&self) -> ProcessErrorView {
        match self {
            ProcessError::TypeMismatch { expected, actual } => ProcessErrorView::TypeMismatch {
                expected: expected@,
                actual: actual@,
            },
            ProcessError::InvalidAttribute { name, reason } => ProcessErrorView::InvalidAttribute {
                name: name@,
                reason: reason@,
            },
            ProcessError::Custom(m) => ProcessErrorView::Custom(m@),
        }
    }
}

/// The message of an error, as it is shown to a user.
pub open spec fn message_text(e: ProcessErrorView) -> Seq<char> {
    match e {
        ProcessErrorView::TypeMismatch { expected, actual } => "Type mismatch: expected "@ + expected
            + ", got "@ + actual,
        ProcessErrorView::InvalidAttribute { name, reason } => "Invalid attribute '"@ + name + "': "@
            + reason,
        ProcessErrorView::Custom(m) => m,
    }
}

/// The message of an invalid-attribute error names the attribute and ends with
/// the reason; the message of a custom error is its text.
pub proof fn lemma_message_mentions(e: ProcessErrorView)
    ensures
        e matches ProcessErrorView::InvalidAttribute { name, reason } ==> {
            let m = message_text(e);
            &&& m.subrange(m.len() - reason.len(), m.len() as int) == reason
            &&& m.subrange(19, 19 + name.len() as int) == name
        },
        e matches ProcessErrorView::Custom(text) ==> message_text(e) == text,
{
    if let ProcessErrorView::InvalidAttribute { name, reason } = e {
        let m = message_text(e);
        reveal_strlit("Invalid attribute '");
        assert(m.subrange(m.len() - reason.len(), m.len() as int) =~= reason);
        assert(m.subrange(19, 19 + name.len() as int) =~= name);
    }
}

impl ProcessError {
    /// The message of the error, as it is shown to a user.
    pub fn message(&self) -> (r: String)
        ensures
            r@ == message_text(self@),
    {
        match self {
            ProcessError::TypeMismatch { expected, actual } => {
                let mut s = String::from_str("Type mismatch: expected ");
                s.append(expected.as_str());
                s.append(", got ");
                s.append(actual.as_str());
                s
            },
            ProcessError::InvalidAttribute { name, reason } => {
                let mut s = String::from_str("Invalid attribute '");
                s.append(name.as_str());
                s.append("': ");
                s.append(reason.as_str());
                s
            },
            ProcessError::Custom(m) => m.clone(),
        }
    }
}

/// The name under which an element type is shown.
pub open spec fn dtype_text(d: DType) -> Seq<char> {
    match d {
        DType::F64 => "F64"@,
        DType::F32 => "F32"@,
        DType::Flex32 => "Flex32"@,
        DType::F16 => "F16"@,
        DType::BF16 => "BF16"@,
        DType::I64 => "I64"@,
        DType::I32 => "I32"@,
        DType::I16 => "I16"@,
        DType::I8 => "I8"@,
        DType::U64 => "U64"@,
        DType::U32 => "U32"@,
        DType::U16 => "U16"@,
        DType::U8 => "U8"@,
        DType::Bool(BoolStore::Native) => "Bool(Native)"@,
        DType::Bool(BoolStore::U8) => "Bool(U8)"@,
        DType::Bool(BoolStore::U32) => "Bool(U32)"@,
        DType::QFloat => "QFloat"@,
    }
}

/// Distinct element types are shown under distinct names, so a message names
/// the element type it is about.
pub proof fn lemma_dtype_names_are_distinct(a: DType, b: DType)
    ensures
        a != b ==> dtype_text(a) != dtype_text(b),
{
    reveal_strlit("F64");
    reveal_strlit("F32");
    reveal_strlit("Flex32");
    reveal_strlit("F16");
    reveal_strlit("BF16");
    reveal_strlit("I64");
    reveal_strlit("I32");
    reveal_strlit("I16");
    reveal_strlit("I8");
    reveal_strlit("U64");
    reveal_strlit("U32");
    reveal_strlit("U16");
    reveal_strlit("U8");
    reveal_strlit("Bool(Native)");
    reveal_strlit("Bool(U8)");
    reveal_strlit("Bool(U32)");
    reveal_strlit("QFloat");
    assert("F64"@.len() == 3 && "F64"@[0] == 'F' && "F64"@[1] == '6' && "F64"@[2] == '4');
    assert("F32"@.len() == 3 && "F32"@[0] == 'F' && "F32"@[1] == '3' && "F32"@[2] == '2');
    assert("Flex32"@.len() == 6 && "Flex32"@[0] == 'F' && "Flex32"@[1] == 'l' && "Flex32"@[2] == 'e');
    assert("F16"@.len() == 3 && "F16"@[0] == 'F' && "F16"@[1] == '1' && "F16"@[2] == '6');
    assert("BF16"@.len() == 4 && "BF16"@[0] == 'B' && "BF16"@[1] == 'F' && "BF16"@[2] == '1');
    assert("I64"@.len() == 3 && "I64"@[0] == 'I' && "I64"@[1] == '6' && "I64"@[2] == '4');
    assert("I32"@.len() == 3 && "I32"@[0] == 'I' && "I32"@[1] == '3' && "I32"@[2] == '2');
    assert("I16"@.len() == 3 && "I16"@[0] == 'I' && "I16"@[1] == '1' && "I16"@[2] == '6');
    assert("I8"@.len() == 2 && "I8"@[0] == 'I' && "I8"@[1] == '8');
    assert("U64"@.len() == 3 && "U64"@[0] == 'U' && "U64"@[1] == '6' && "U64"@[2] == '4');
    assert("U32"@.len() == 3 && "U32"@[0] == 'U' && "U32"@[1] == '3' && "U32"@[2] == '2');
    assert("U16"@.len() == 3 && "U16"@[0] == 'U' && "U16"@[1] == '1' && "U16"@[2] == '6');
    assert("U8"@.len() == 2 && "U8"@[0] == 'U' && "U8"@[1] == '8');
    assert("Bool(Native)"@.len() == 12 && "Bool(Native)"@[0] == 'B' && "Bool(Native)"@[1] == 'o' && "Bool(Native)"@[2] == 'o');
    assert("Bool(U8)"@.len() == 8 && "Bool(U8)"@[0] == 'B' && "Bool(U8)"@[1] == 'o' && "Bool(U8)"@[2] == 'o');
    assert("Bool(U32)"@.len() == 9 && "Bool(U32)"@[0] == 'B' && "Bool(U32)"@[1] == 'o' && "Bool(U32)"@[2] == 'o');
    assert("QFloat"@.len() == 6 && "QFloat"@[0] == 'Q' && "QFloat"@[1] == 'F' && "QFloat"@[2] == 'l');
    if a != b && dtype_text(a) == dtype_text(b) {
        assert(dtype_text(a).len() == dtype_text(b).len());
        assert(dtype_text(a)[0] == dtype_text(b)[0]);
        assert(dtype_text(a)[1] == dtype_text(b)[1]);
        assert(dtype_text(a).len() >= 3 ==> dtype_text(a)[2] == dtype_text(b)[2]);
    }
}

/// The name under which an element type is shown.
pub fn dtype_name(d: DType) -> (r: &'static str)
    ensures
        r@ == dtype_text(d),
{
    match d {
        DType::F64 => "F64",
        DType::F32 => "F32",
        DType::Flex32 => "Flex32",
        DType::F16 => "F16",
        DType::BF16 => "BF16",
        DType::I64 => "I64",
        DType::I32 => "I32",
        DType::I16 => "I16",
        DType::I8 => "I8",
        DType::U64 => "U64",
        DType::U32 => "U32",
        DType::U16 => "U16",
        DType::U8 => "U8",
        DType::Bool(BoolStore::Native) => "Bool(Native)",
        DType::Bool(BoolStore::U8) => "Bool(U8)",
        DType::Bool(BoolStore::U32) => "Bool(U32)",
        DType::QFloat => "QFloat",
    }
}

/// How an argument type is shown in a message; a tensor type shows its
/// element type and rank.
pub open spec fn arg_type_text(t: ArgTypeView) -> Seq<char> {
    match t {
        ArgTypeView::Scalar(d) => "Scalar("@ + dtype_text(d) + ")"@,
        ArgTypeView::ScalarNative(d) => "ScalarNative("@ + dtype_text(d) + ")"@,
        ArgTypeView::Shape(r) => "Shape("@ + nat_text(r as nat) + ")"@,
        ArgTypeView::Tensor(t) => "Tensor("@ + dtype_text(t.dtype) + ", "@ + nat_text(t.rank as nat)
            + ")"@,
        ArgTypeView::Unknown => "Unknown"@,
    }
}

/// How an argument type is shown in a message.
pub fn arg_type_name(t: &ArgType) -> (r: String)
    ensures
        r@ == arg_type_text(t@),
{
    match t {
        ArgType::Scalar(d) => {
            let mut s = String::from_str("Scalar(");
            s.append(dtype_name(*d));
            s.append(")");
            s
        },
        ArgType::ScalarNative(d) => {
            let mut s = String::from_str("ScalarNative(");
            s.append(dtype_name(*d));
            s.append(")");
            s
        },
        ArgType::Shape(r) => {
            let mut s = String::from_str("Shape(");
            push_usize(&mut s, *r);
            s.append(")");
            s
        },
        ArgType::Tensor(t) => {
            let mut s = String::from_str("Tensor(");
            s.append(dtype_name(t.dtype));
            s.append(", ");
            push_usize(&mut s, t.rank);
            s.append(")");
            s
        },
        ArgType::Unknown => String::from_str("Unknown"),
    }
}

/// The text under which an attribute value is shown in a message: its kind,
/// then its contents in brackets.
pub open spec fn attribute_text(v: AttributeValueView) -> Seq<char> {
    match v {
        AttributeValueView::Float32(f) => "Float32("@ + f.text + ")"@,
        AttributeValueView::Float32s(fs) => "Float32s(["@ + comma_list(
            fs.map_values(|f: F32ValueView| f.text),
        ) + "])"@,
        AttributeValueView::Int64(i) => "Int64("@ + int_text(i as int) + ")"@,
        AttributeValueView::Int64s(is) => "Int64s(["@ + comma_list(int_texts(is)) + "])"@,
        AttributeValueView::String(s) => "String("@ + quoted(s) + ")"@,
        AttributeValueView::Strings(ss) => "Strings(["@ + comma_list(quoted_all(ss)) + "])"@,
    }
}

fn push_float_text_list(out: &mut String, v: &Vec<F32Value>)
    ensures
        final(out)@ == old(out)@ + comma_list(v.deep_view().map_values(|f: F32ValueView| f.text)),
{
    let ghost start = out@;
    let ghost items = v.deep_view().map_values(|f: F32ValueView| f.text);
    let mut i: usize = 0;
    while i < v.len()
        invariant
            i <= v.len(),
            items == v.deep_view().map_values(|f: F32ValueView| f.text),
            out@ == start + comma_list(items.take(i as int)),
        decreases v.len() - i,
    {
        if i > 0 {
            out.append(", ");
            assert(items.take(i + 1).drop_last() =~= items.take(i as int));
        }
        out.append(v[i].text.as_str());
        i = i + 1;
        assert(out@ =~= start + comma_list(items.take(i as int)));
    }
    assert(items.take(v.len() as int) =~= items);
}

/// The text under which an attribute value is shown in a message.
pub fn attribute_name(v: &AttributeValue) -> (r: String)
    ensures
        r@ == attribute_text(v@),
{
    match v {
        AttributeValue::Float32(f) => {
            let mut s = String::from_str("Float32(");
            s.append(f.text.as_str());
            s.append(")");
            s
        },
        AttributeValue::Float32s(fs) => {
            let mut s = String::from_str("Float32s([");
            push_float_text_list(&mut s, fs);
            s.append("])");
            s
        },
        AttributeValue::Int64(i) => {
            let mut s = String::from_str("Int64(");
            push_i64(&mut s, *i);
            s.append(")");
            s
        },
        AttributeValue::Int64s(is) => {
            let mut s = String::from_str("Int64s([");
            push_int_list(&mut s, is);
            s.append("])");
            s
        },
        AttributeValue::String(t) => {
            let mut s = String::from_str("String(\"");
            s.append(t.as_str());
            s.append("\")");
            proof {
                reveal_strlit("String(\"");
                reveal_strlit("String(");
                reveal_strlit("\")");
                reveal_strlit(")");
            }
            assert(s@ =~= attribute_text(v@));
            s
        },
        AttributeValue::Strings(ts) => {
            let mut s = String::from_str("Strings([");
            push_quoted_list(&mut s, ts);
            s.append("])");
            s
        },
    }
}

/// Gives the first output the type of the first input.
pub fn same_as_input(node: &mut RawNode)
    requires
        old(node).inputs.len() >= 1,
        old(node).outputs.len() >= 1,
    ensures
        final(node).node_type == old(node).node_type,
        final(node).name@ == old(node).name@,
        final(node).attrs@ == old(node).attrs@,
        final(node).inputs@ == old(node).inputs@,
        args_view(final(node).outputs@) == args_view(old(node).outputs@).update(
            0,
            ArgumentView { name: old(node).outputs@[0].name@, ty: old(node).inputs@[0].ty@ },
        ),
{
    let ty = node.inputs[0].ty.duplicate();
    set_output_type(node, 0, ty);
}

/// Sets the type of output `i`, keeping its name.
pub fn set_output_type(node: &mut RawNode, i: usize, ty: ArgType)
    requires
        i < old(node).outputs.len(),
    ensures
        final(node).node_type == old(node).node_type,
        final(node).name == old(node).name,
        final(node).attrs == old(node).attrs,
        final(node).inputs == old(node).inputs,
        final(node).outputs.len() == old(node).outputs.len(),
        forall|j: int| 0 <= j < old(node).outputs.len() && j != i ==> final(node).outputs@[j] == old(node).outputs@[j],
        final(node).outputs@[i as int].name@ == old(node).outputs@[i as int].name@,
        final(node).outputs@[i as int].ty@ == ty@,
        args_view(final(node).outputs@) == args_view(old(node).outputs@).update(
            i as int,
            ArgumentView { name: old(node).outputs@[i as int].name@, ty: ty@ },
        ),
{
    let name = node.outputs[i].name.clone();
    node.outputs.set(i, Argument { name, ty });
    assert(args_view(node.outputs@) =~= args_view(old(node).outputs@).update(
        i as int,
        ArgumentView { name: old(node).outputs@[i as int].name@, ty: ty@ },
    ));
}

} // verus!
