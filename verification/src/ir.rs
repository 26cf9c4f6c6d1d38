//! The intermediate representation that node processors read and write:
//! element types, argument types, arguments, attribute values and raw nodes.
use vstd::prelude::*;
use vstd::string::StringExecFns;

verus! {

/// How a boolean tensor is stored.
#[derive(Debug, Clone, Copy, PartialEq, Eq, Structural)]
pub enum BoolStore {
    Native,
    U8,
    U32,
}

/// Element type of a tensor or a scalar.
///
/// `QFloat` stands for a quantized float; its quantization scheme is not read
/// by any processor or generator here, so it is not carried.
#[derive(Debug, Clone, Copy, PartialEq, Eq, Structural)]
pub enum DType {
    F64,
    F32,
    Flex32,
    F16,
    BF16,
    I64,
    I32,
    I16,
    I8,
    U64,
    U32,
    U16,
    U8,
    Bool(BoolStore),
    QFloat,
}

/// A 32-bit float attribute as the processors and generators see it: its
/// IEEE-754 bit pattern, and `text`, the shortest decimal text that reads back
/// as the same float (as `{}` prints it, for instance `0.5`, `2` or `-999`).
#[derive(Debug, Clone, PartialEq)]
pub struct F32Value {
    pub bits: u32,
    pub text: String,
}

/// Spec-level value of an [`F32Value`].
pub struct F32ValueView {
    pub bits: u32,
    pub text: Seq<char>,
}

impl View for F32Value {
    type V = F32ValueView;

    open spec fn view(&self) -> F32ValueView {
        F32ValueView { bits: self.bits, text: self.text@ }
    }
}

impl DeepView for F32Value {
    type V = F32ValueView;

    open spec fn deep_view(&self) -> F32ValueView {
        self@
    }
}

/// Whether a bit pattern is a finite float (neither infinite nor NaN).
pub open spec fn f32_bits_finite(bits: u32) -> bool {
    (bits / 0x80_0000) % 0x100 != 0xff
}

/// Whether a bit pattern is a NaN.
pub open spec fn f32_bits_nan(bits: u32) -> bool {
    (bits / 0x80_0000) % 0x100 == 0xff && bits % 0x80_0000 != 0
}

impl F32Value {
    /// Builds a value from its bit pattern and its decimal text.
    pub fn new(bits: u32, text: String) -> (r: F32Value)
        ensures
            r.bits == bits,
            r.text@ == text@,
    {
        F32Value { bits, text }
    }

    /// A copy with the same bits and text.
    pub fn duplicate(&self) -> (r: F32Value)
        ensures
            r@ == self@,
    {
        F32Value { bits: self.bits, text: self.text.clone() }
    }

    /// Whether the value is a NaN.
    pub fn is_nan(&self) -> (r: bool)
        ensures
            r == f32_bits_nan(self.bits),
    {
        let exponent = (self.bits / 0x80_0000) % 0x100;
        exponent == 0xff && self.bits % 0x80_0000 != 0
    }

    /// Whether the value is finite.
    pub fn is_finite(&self) -> (r: bool)
        ensures
            r == f32_bits_finite(self.bits),
    {
        (self.bits / 0x80_0000) % 0x100 != 0xff
    }
}

/// Type of a tensor: element type, rank, and the size of each dimension where it is known.
#[derive(Debug, Clone, PartialEq)]
pub struct TensorType {
    pub dtype: DType,
    pub rank: usize,
    pub static_shape: Option<Vec<Option<usize>>>,
}

/// Spec-level value of a [`TensorType`].
pub struct TensorTypeView {
    pub dtype: DType,
    pub rank: usize,
    pub static_shape: Option<Seq<Option<usize>>>,
}

pub open spec fn shape_view(s: Option<Vec<Option<usize>>>) -> Option<Seq<Option<usize>>> {
    match s {
        Some(v) => Some(v@),
        None => None,
    }
}

impl View for TensorType {
    type V = TensorTypeView;

    open spec fn view(&self) -> TensorTypeView {
        TensorTypeView { dtype: self.dtype, rank: self.rank, static_shape: shape_view(self.static_shape) }
    }
}

fn copy_shape(s: &Option<Vec<Option<usize>>>) -> (r: Option<Vec<Option<usize>>>)
    ensures
        shape_view(r) == shape_view(*s),
{
    match s {
        Some(v) => {
            let mut out: Vec<Option<usize>> = Vec::new();
            let mut i: usize = 0;
            while i < v.len()
                invariant
                    i <= v.len(),
                    out@ == v@.subrange(0, i as int),
                decreases v.len() - i,
            {
                out.push(v[i]);
                i = i + 1;
                assert(out@ =~= v@.subrange(0, i as int));
            }
            assert(out@ =~= v@);
            Some(out)
        },
        None => None,
    }
}

impl TensorType {
    /// A tensor type with the given element type, rank and known shape.
    pub fn new(dtype: DType, rank: usize, static_shape: Option<Vec<Option<usize>>>) -> (r: TensorType)
        ensures
            r.dtype == dtype,
            r.rank == rank,
            shape_view(r.static_shape) == shape_view(static_shape),
    {
        TensorType { dtype, rank, static_shape }
    }

    /// A copy with the same view.
    pub fn duplicate(&self) -> (r: TensorType)
        ensures
            r@ == self@,
    {
        TensorType { dtype: self.dtype, rank: self.rank, static_shape: copy_shape(&self.static_shape) }
    }
}

/// Type of an argument of a node.
#[derive(Debug, Clone, PartialEq)]
pub enum ArgType {
    /// A scalar held in a tensor of the backend.
    Scalar(DType),
    /// A scalar held as a native Rust value.
    ScalarNative(DType),
    /// A shape of the given rank.
    Shape(usize),
    Tensor(TensorType),
    /// Not inferred yet.
    Unknown,
}

/// Spec-level value of an [`ArgType`].
pub enum ArgTypeView {
    Scalar(DType),
    ScalarNative(DType),
    Shape(usize),
    Tensor(TensorTypeView),
    Unknown,
}

impl View for ArgType {
    type V = ArgTypeView;

    open spec fn view(&self) -> ArgTypeView {
        match self {
            ArgType::Scalar(d) => ArgTypeView::Scalar(*d),
            ArgType::ScalarNative(d) => ArgTypeView::ScalarNative(*d),
            ArgType::Shape(r) => ArgTypeView::Shape(*r),
            ArgType::Tensor(t) => ArgTypeView::Tensor(t@),
            ArgType::Unknown => ArgTypeView::Unknown,
        }
    }
}

impl ArgType {
    /// A copy with the same view.
    pub fn duplicate(&self) -> (r: ArgType)
        ensures
            r@ == self@,
    {
        match self {
            ArgType::Scalar(d) => ArgType::Scalar(*d),
            ArgType::ScalarNative(d) => ArgType::ScalarNative(*d),
            ArgType::Shape(r) => ArgType::Shape(*r),
            ArgType::Tensor(t) => ArgType::Tensor(t.duplicate()),
            ArgType::Unknown => ArgType::Unknown,
        }
    }
}

/// A named input or output of a node.
#[derive(Debug, Clone, PartialEq)]
pub struct Argument {
    pub name: String,
    pub ty: ArgType,
}

/// Spec-level value of an [`Argument`].
pub struct ArgumentView {
    pub name: Seq<char>,
    pub ty: ArgTypeView,
}

impl View for Argument {
    type V = ArgumentView;

    open spec fn view(&self) -> ArgumentView {
        ArgumentView { name: self.name@, ty: self.ty@ }
    }
}

impl DeepView for Argument {
    type V = ArgumentView;

    open spec fn deep_view(&self) -> ArgumentView {
        self@
    }
}

impl Argument {
    /// An argument with the given name and type.
    pub fn new(name: &str, ty: ArgType) -> (r: Argument)
        ensures
            r.name@ == name@,
            r.ty@ == ty@,
    {
        Argument { name: String::from_str(name), ty }
    }

    /// A copy with the same view.
    pub fn duplicate(&self) -> (r: Argument)
        ensures
            r@ == self@,
    {
        Argument { name: self.name.clone(), ty: self.ty.duplicate() }
    }
}

/// The view of a tensor argument of unknown shape.
pub open spec fn tensor_argument(name: Seq<char>, rank: usize, dtype: DType) -> ArgumentView {
    ArgumentView {
        name,
        ty: ArgTypeView::Tensor(TensorTypeView { dtype, rank, static_shape: None }),
    }
}

/// Value of a node attribute.
#[derive(Debug, Clone, PartialEq)]
pub enum AttributeValue {
    Float32(F32Value),
    Float32s(Vec<F32Value>),
    Int64(i64),
    Int64s(Vec<i64>),
    String(String),
    Strings(Vec<String>),
}

/// Spec-level value of an [`AttributeValue`].
pub enum AttributeValueView {
    Float32(F32ValueView),
    Float32s(Seq<F32ValueView>),
    Int64(i64),
    Int64s(Seq<i64>),
    String(Seq<char>),
    Strings(Seq<Seq<char>>),
}

impl View for AttributeValue {
    type V = AttributeValueView;

    open spec fn view(&self) -> AttributeValueView {
        match self {
            AttributeValue::Float32(f) => AttributeValueView::Float32(f@),
            AttributeValue::Float32s(v) => AttributeValueView::Float32s(v.deep_view()),
            AttributeValue::Int64(i) => AttributeValueView::Int64(*i),
            AttributeValue::Int64s(v) => AttributeValueView::Int64s(v@),
            AttributeValue::String(s) => AttributeValueView::String(s@),
            AttributeValue::Strings(v) => AttributeValueView::Strings(v.deep_view()),
        }
    }
}

/// Whether no two attributes of a node share a name, as in the map of
/// attributes that a node is read from.
pub open spec fn attr_keys_unique(attrs: Seq<(Seq<char>, AttributeValueView)>) -> bool {
    forall|i: int, j: int| 0 <= i < j < attrs.len() ==> #[trigger] attrs[i].0 != #[trigger] attrs[j].0
}

/// The list of floats held by the last attribute named `key` whose value is
/// a list of floats, if there is one.
pub open spec fn last_floats(attrs: Seq<(Seq<char>, AttributeValueView)>, key: Seq<char>) -> Option<Seq<F32ValueView>>
    decreases attrs.len(),
{
    if attrs.len() == 0 {
        None
    } else {
        match attrs.last().1 {
            AttributeValueView::Float32s(v) if attrs.last().0 == key => Some(v),
            _ => last_floats(attrs.drop_last(), key),
        }
    }
}

/// The integers held by the last attribute named `key` whose value is a list
/// of integers, if there is one.
pub open spec fn last_ints(attrs: Seq<(Seq<char>, AttributeValueView)>, key: Seq<char>) -> Option<Seq<i64>>
    decreases attrs.len(),
{
    if attrs.len() == 0 {
        None
    } else {
        match attrs.last().1 {
            AttributeValueView::Int64s(v) if attrs.last().0 == key => Some(v),
            _ => last_ints(attrs.drop_last(), key),
        }
    }
}

/// The integer held by the last attribute named `key` whose value is one
/// integer, if there is one.
pub open spec fn last_int(attrs: Seq<(Seq<char>, AttributeValueView)>, key: Seq<char>) -> Option<i64>
    decreases attrs.len(),
{
    if attrs.len() == 0 {
        None
    } else {
        match attrs.last().1 {
            AttributeValueView::Int64(n) if attrs.last().0 == key => Some(n),
            _ => last_int(attrs.drop_last(), key),
        }
    }
}

/// The text held by the last attribute named `key` whose value is one string,
/// if there is one.
pub open spec fn last_string(attrs: Seq<(Seq<char>, AttributeValueView)>, key: Seq<char>) -> Option<Seq<char>>
    decreases attrs.len(),
{
    if attrs.len() == 0 {
        None
    } else {
        match attrs.last().1 {
            AttributeValueView::String(v) if attrs.last().0 == key => Some(v),
            _ => last_string(attrs.drop_last(), key),
        }
    }
}

/// The texts held by the last attribute named `key` whose value is a list of
/// strings, if there is one.
pub open spec fn last_strings(attrs: Seq<(Seq<char>, AttributeValueView)>, key: Seq<char>) -> Option<Seq<Seq<char>>>
    decreases attrs.len(),
{
    if attrs.len() == 0 {
        None
    } else {
        match attrs.last().1 {
            AttributeValueView::Strings(v) if attrs.last().0 == key => Some(v),
            _ => last_strings(attrs.drop_last(), key),
        }
    }
}

/// Spec-level value of an optional list of integers.
pub open spec fn ints_view(v: Option<Vec<i64>>) -> Option<Seq<i64>> {
    match v {
        Some(v) => Some(v@),
        None => None,
    }
}

/// Spec-level value of an optional list of strings.
pub open spec fn strings_view(v: Option<Vec<String>>) -> Option<Seq<Seq<char>>> {
    match v {
        Some(v) => Some(v.deep_view()),
        None => None,
    }
}

/// Spec-level value of an optional list of floats.
pub open spec fn floats_view(v: Option<Vec<F32Value>>) -> Option<Seq<F32ValueView>> {
    match v {
        Some(v) => Some(v.deep_view()),
        None => None,
    }
}

/// Spec-level value of an optional string.
pub open spec fn text_view(v: Option<String>) -> Option<Seq<char>> {
    match v {
        Some(v) => Some(v@),
        None => None,
    }
}

/// A copy of a list of integers.
pub fn copy_ints(v: &Vec<i64>) -> (r: Vec<i64>)
    ensures
        r@ == v@,
{
    let r = v.clone();
    assert(r@ =~= v@);
    r
}

/// A copy of a list of strings.
pub fn copy_strings(v: &Vec<String>) -> (r: Vec<String>)
    ensures
        r.deep_view() == v.deep_view(),
{
    let r = v.clone();
    assert(r.deep_view() =~= v.deep_view());
    r
}

/// A copy of a list of floats.
pub fn copy_floats(v: &Vec<F32Value>) -> (r: Vec<F32Value>)
    ensures
        r.deep_view() == v.deep_view(),
{
    let mut out: Vec<F32Value> = Vec::new();
    let mut i: usize = 0;
    while i < v.len()
        invariant
            i <= v.len(),
            out@.len() == i,
            forall|j: int| 0 <= j < i ==> (#[trigger] out@[j])@ == v@[j]@,
        decreases v.len() - i,
    {
        out.push(v[i].duplicate());
        i = i + 1;
    }
    assert(out.deep_view() =~= v.deep_view());
    out
}

/// Kind of operator a raw node stands for.
#[derive(Debug, Clone, Copy, PartialEq, Eq, Structural)]
pub enum NodeType {
    OneHotEncoder,
    ZipMap,
    SVMRegressor,
    TreeEnsembleClassifier,
    Scaler,
    Imputer,
}

/// A node as read from the model, before its configuration is extracted.
///
/// The attributes are kept in the order in which they were read; each
/// processor walks them in that order.
#[derive(Debug, Clone, PartialEq)]
pub struct RawNode {
    pub node_type: NodeType,
    pub name: String,
    pub inputs: Vec<Argument>,
    pub outputs: Vec<Argument>,
    pub attrs: Vec<(String, AttributeValue)>,
}

/// Spec-level value of the arguments of a node.
pub open spec fn args_view(v: Seq<Argument>) -> Seq<ArgumentView> {
    v.map_values(|a: Argument| a@)
}

/// Spec-level value of the attributes of a node.
pub open spec fn attrs_view(v: Seq<(String, AttributeValue)>) -> Seq<(Seq<char>, AttributeValueView)> {
    v.map_values(|p: (String, AttributeValue)| (p.0@, p.1@))
}

} // verus!
