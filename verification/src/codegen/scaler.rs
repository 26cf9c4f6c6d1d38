//! Code generation for Scaler: `Y = (X - offset) * scale`, applied per feature
//! along the last dimension of a tensor input, and with the first value of each
//! list for a scalar input.
use vstd::prelude::*;
use vstd::string::StringExecFns;
use crate::codegen::{all_finite, f32_literal, f32_literals, ones_prefix, push_f32_literal, push_f32_literal_list, push_ones_prefix};
use crate::ir::{ArgType, ArgTypeView, Argument, DType, F32Value, F32ValueView, TensorTypeView, floats_view};
use crate::text::{comma_list, contains, join, lemma_contains_within, push_usize_literal, usize_literal};

verus! {

/// Configuration of a Scaler node.
#[derive(Debug, Clone, PartialEq)]
pub struct ScalerConfig {
    /// Factor of each feature.
    pub scale: Option<Vec<F32Value>>,
    /// Value subtracted from each feature before scaling.
    pub offset: Option<Vec<F32Value>>,
}

/// Spec-level value of a [`ScalerConfig`].
pub struct ScalerConfigView {
    pub scale: Option<Seq<F32ValueView>>,
    pub offset: Option<Seq<F32ValueView>>,
}

impl View for ScalerConfig {
    type V = ScalerConfigView;

    open spec fn view(&self) -> ScalerConfigView {
        ScalerConfigView { scale: floats_view(self.scale), offset: floats_view(self.offset) }
    }
}

impl ScalerConfig {
    /// A configuration with the given scale and offset.
    pub fn new(scale: Option<Vec<F32Value>>, offset: Option<Vec<F32Value>>) -> (r: ScalerConfig)
        ensures
            r.scale == scale,
            r.offset == offset,
    {
        ScalerConfig { scale, offset }
    }
}

/// A Scaler node with its configuration.
#[derive(Debug, Clone, PartialEq)]
pub struct ScalerNode {
    pub name: String,
    pub inputs: Vec<Argument>,
    pub outputs: Vec<Argument>,
    pub config: ScalerConfig,
}

impl ScalerNode {
    /// A node with the given name, arguments and configuration.
    pub fn new(name: String, inputs: Vec<Argument>, outputs: Vec<Argument>, config: ScalerConfig) -> (r: ScalerNode)
        ensures
            r.name == name,
            r.inputs == inputs,
            r.outputs == outputs,
            r.config == config,
    {
        ScalerNode { name, inputs, outputs, config }
    }
}

/// The first value of an optional list, if there is one.
pub open spec fn first_of(v: Option<Seq<F32ValueView>>) -> Option<F32ValueView> {
    match v {
        Some(s) => if s.len() > 0 {
            Some(s[0])
        } else {
            None
        },
        None => None,
    }
}

/// The expression for a scalar input.
pub open spec fn scalar_text(input: Seq<char>, c: ScalerConfigView) -> Seq<char> {
    match (first_of(c.offset), first_of(c.scale)) {
        (Some(o), Some(s)) => "("@ + input + " - "@ + f32_literal(o) + ") * "@ + f32_literal(s),
        (Some(o), None) => input + " - "@ + f32_literal(o),
        (None, Some(s)) => input + " * "@ + f32_literal(s),
        (None, None) => input,
    }
}

/// The dimensions a list of `n` per-feature values is reshaped to so that it
/// broadcasts along the last dimension of a tensor of rank `rank`:
/// `rank - 1` ones (none for rank 0), then `n`.
pub open spec fn reshape_dims_text(rank: nat, n: nat) -> Seq<char> {
    ones_prefix(if rank > 0 { (rank - 1) as nat } else { 0 }) + usize_literal(n)
}

/// `k` copies of `1usize`.
pub open spec fn unit_dims(k: nat) -> Seq<Seq<char>> {
    Seq::new(k, |i: int| "1usize"@)
}

proof fn lemma_ones_prefix_joins(k: nat)
    requires
        k >= 1,
    ensures
        ones_prefix(k) == join(unit_dims(k), ", "@) + ", "@,
    decreases k,
{
    reveal_strlit("1usize, ");
    reveal_strlit("1usize");
    reveal_strlit(", ");
    assert("1usize, "@ =~= "1usize"@ + ", "@);
    if k == 1 {
        assert(ones_prefix(0) =~= Seq::<char>::empty());
        assert(ones_prefix(1) =~= "1usize"@ + ", "@);
    } else {
        lemma_ones_prefix_joins((k - 1) as nat);
        assert(unit_dims(k).drop_last() =~= unit_dims((k - 1) as nat));
        assert(ones_prefix(k) =~= join(unit_dims(k), ", "@) + ", "@);
    }
}

/// The per-feature values are reshaped to the rank of the input, so that they
/// broadcast along its last dimension: the dimension list has one entry per
/// dimension of the input (one for a rank-0 input), each `1usize` but the
/// last, which is the number of values.
pub proof fn lemma_reshape_matches_rank(rank: nat, n: nat)
    ensures
        reshape_dims_text(rank, n) == comma_list(
            unit_dims(if rank > 0 { (rank - 1) as nat } else { 0 }).push(usize_literal(n)),
        ),
{
    let k: nat = if rank > 0 { (rank - 1) as nat } else { 0 };
    let dims = unit_dims(k).push(usize_literal(n));
    assert(dims.drop_last() =~= unit_dims(k));
    if k == 0 {
        assert(ones_prefix(0) =~= Seq::<char>::empty());
        assert(reshape_dims_text(rank, n) =~= usize_literal(n));
    } else {
        lemma_ones_prefix_joins(k);
        assert(reshape_dims_text(rank, n) =~= join(unit_dims(k), ", "@) + ", "@ + usize_literal(n));
    }
}

/// The statement that builds the tensor `name` from `values`, reshaped to `dims`.
pub open spec fn feature_tensor_text(name: Seq<char>, values: Seq<F32ValueView>, dims: Seq<char>) -> Seq<char> {
    "\n    let "@ + name + " = Tensor::<B, 1>::from_floats(["@ + comma_list(f32_literals(values))
        + "], &*self.device)\n        .reshape(["@ + dims + "]);"@
}

/// The expression for a tensor input of rank `rank`.
pub open spec fn tensor_text(input: Seq<char>, rank: nat, c: ScalerConfigView) -> Seq<char> {
    match (c.offset, c.scale) {
        (Some(o), Some(s)) => "{"@ + feature_tensor_text("offset_tensor"@, o, reshape_dims_text(rank, o.len()))
            + feature_tensor_text("scale_tensor"@, s, reshape_dims_text(rank, s.len())) + "\n    ("@ + input
            + ".clone() - offset_tensor) * scale_tensor\n}"@,
        (Some(o), None) => "{"@ + feature_tensor_text("offset_tensor"@, o, reshape_dims_text(rank, o.len()))
            + "\n    "@ + input + ".clone() - offset_tensor\n}"@,
        (None, Some(s)) => "{"@ + feature_tensor_text("scale_tensor"@, s, reshape_dims_text(rank, s.len()))
            + "\n    "@ + input + ".clone() * scale_tensor\n}"@,
        (None, None) => input + ".clone()"@,
    }
}

/// The code of the forward step for an input of type `ty`.
pub open spec fn scaler_forward_text(input: Seq<char>, output: Seq<char>, ty: ArgTypeView, c: ScalerConfigView) -> Seq<
    char,
> {
    "let "@ + output + " = "@ + match ty {
        ArgTypeView::ScalarNative(_) => scalar_text(input, c),
        ArgTypeView::Tensor(t) => tensor_text(input, t.rank as nat, c),
        _ => input + ".clone()"@,
    } + ";"@
}

/// For a native scalar input the output is `(X - offset) * scale` with the
/// first offset and the first scale: `X - offset` without a scale, `X * scale`
/// without an offset, and `X` itself without either; the offset is subtracted
/// and the scale multiplies, as for a tensor input.
pub proof fn lemma_scaler_scalar_is_shift_then_scale(input: Seq<char>, output: Seq<char>, d: DType, c: ScalerConfigView)
    ensures
        ({
            let f = scaler_forward_text(input, output, ArgTypeView::ScalarNative(d), c);
            let o = c.offset.unwrap()[0];
            let s = c.scale.unwrap()[0];
            let has_o = c.offset is Some && c.offset.unwrap().len() > 0;
            let has_s = c.scale is Some && c.scale.unwrap().len() > 0;
            &&& has_o && has_s ==> f == "let "@ + output + " = ("@ + input + " - "@ + o.text + "f32) * "@ + s.text + "f32;"@
            &&& has_o && !has_s ==> f == "let "@ + output + " = "@ + input + " - "@ + o.text + "f32;"@
            &&& !has_o && has_s ==> f == "let "@ + output + " = "@ + input + " * "@ + s.text + "f32;"@
            &&& !has_o && !has_s ==> f == "let "@ + output + " = "@ + input + ";"@
        }),
{
    reveal_strlit(" = ");
    reveal_strlit("(");
    reveal_strlit(" = (");
    reveal_strlit("f32");
    reveal_strlit(") * ");
    reveal_strlit("f32) * ");
    reveal_strlit(";");
    reveal_strlit("f32;");
    assert(" = "@ + "("@ =~= " = ("@);
    assert("f32"@ + ") * "@ =~= "f32) * "@);
    assert("f32"@ + ";"@ =~= "f32;"@);
    let f = scaler_forward_text(input, output, ArgTypeView::ScalarNative(d), c);
    let has_o = c.offset is Some && c.offset.unwrap().len() > 0;
    let has_s = c.scale is Some && c.scale.unwrap().len() > 0;
    if has_o && has_s {
        let o = c.offset.unwrap()[0];
        let s = c.scale.unwrap()[0];
        assert(f =~= "let "@ + output + " = ("@ + input + " - "@ + o.text + "f32) * "@ + s.text + "f32;"@);
    } else if has_o {
        let o = c.offset.unwrap()[0];
        assert(f =~= "let "@ + output + " = "@ + input + " - "@ + o.text + "f32;"@);
    } else if has_s {
        let s = c.scale.unwrap()[0];
        assert(f =~= "let "@ + output + " = "@ + input + " * "@ + s.text + "f32;"@);
    } else {
        assert(f =~= "let "@ + output + " = "@ + input + ";"@);
    }
}

/// For a tensor input the output is `(X - offset) * scale` feature by feature:
/// the offset tensor is subtracted from the input and the difference is
/// multiplied by the scale tensor; without a scale the offset tensor is only
/// subtracted, and without an offset the input is only multiplied.
pub proof fn lemma_scaler_tensor_is_shift_then_scale(input: Seq<char>, output: Seq<char>, t: TensorTypeView, c: ScalerConfigView)
    ensures
        c.offset is Some && c.scale is Some ==> contains(
            scaler_forward_text(input, output, ArgTypeView::Tensor(t), c),
            "\n    ("@ + input + ".clone() - offset_tensor) * scale_tensor\n}"@,
        ),
        c.offset is Some && c.scale is None ==> contains(
            scaler_forward_text(input, output, ArgTypeView::Tensor(t), c),
            "\n    "@ + input + ".clone() - offset_tensor\n}"@,
        ),
        c.offset is None && c.scale is Some ==> contains(
            scaler_forward_text(input, output, ArgTypeView::Tensor(t), c),
            "\n    "@ + input + ".clone() * scale_tensor\n}"@,
        ),
{
    let f = scaler_forward_text(input, output, ArgTypeView::Tensor(t), c);
    let rank = t.rank as nat;
    let e = Seq::<char>::empty();
    match (c.offset, c.scale) {
        (Some(o), Some(s)) => {
            let head = "let "@ + output + " = "@ + "{"@ + feature_tensor_text("offset_tensor"@, o, reshape_dims_text(rank, o.len()))
                + feature_tensor_text("scale_tensor"@, s, reshape_dims_text(rank, s.len()));
            let part = "\n    ("@ + input + ".clone() - offset_tensor) * scale_tensor\n}"@;
            assert(f =~= head + part + ";"@);
            lemma_contains_within(head, part, ";"@);
        },
        (Some(o), None) => {
            let head = "let "@ + output + " = "@ + "{"@ + feature_tensor_text("offset_tensor"@, o, reshape_dims_text(rank, o.len()));
            let part = "\n    "@ + input + ".clone() - offset_tensor\n}"@;
            assert(f =~= head + part + ";"@);
            lemma_contains_within(head, part, ";"@);
        },
        (None, Some(s)) => {
            let head = "let "@ + output + " = "@ + "{"@ + feature_tensor_text("scale_tensor"@, s, reshape_dims_text(rank, s.len()));
            let part = "\n    "@ + input + ".clone() * scale_tensor\n}"@;
            assert(f =~= head + part + ";"@);
            lemma_contains_within(head, part, ";"@);
        },
        _ => {},
    }
}

/// Whether every value the generated code writes out is finite (a literal
/// cannot hold an infinity or a NaN).
pub open spec fn scaler_literals_finite(ty: ArgTypeView, c: ScalerConfigView) -> bool {
    match ty {
        ArgTypeView::ScalarNative(_) => {
            &&& (first_of(c.offset) matches Some(o) ==> f32_bits_finite_view(o))
            &&& (first_of(c.scale) matches Some(s) ==> f32_bits_finite_view(s))
        },
        ArgTypeView::Tensor(_) => {
            &&& (c.offset matches Some(o) ==> all_finite(o))
            &&& (c.scale matches Some(s) ==> all_finite(s))
        },
        _ => true,
    }
}

pub open spec fn f32_bits_finite_view(v: F32ValueView) -> bool {
    crate::ir::f32_bits_finite(v.bits)
}

fn push_feature_tensor(out: &mut String, name: &str, values: &Vec<F32Value>, rank: usize, n: usize)
    ensures
        final(out)@ == old(out)@ + feature_tensor_text(
            name@,
            values.deep_view(),
            reshape_dims_text(rank as nat, n as nat),
        ),
{
    out.append("\n    let ");
    out.append(name);
    out.append(" = Tensor::<B, 1>::from_floats([");
    push_f32_literal_list(out, values);
    out.append("], &*self.device)\n        .reshape([");
    let leading = if rank > 0 {
        rank - 1
    } else {
        0
    };
    push_ones_prefix(out, leading);
    push_usize_literal(out, n);
    out.append("]);");
    assert(final(out)@ =~= old(out)@ + feature_tensor_text(
        name@,
        values.deep_view(),
        reshape_dims_text(rank as nat, n as nat),
    ));
}

fn first_value(v: &Option<Vec<F32Value>>) -> (r: Option<&F32Value>)
    ensures
        match first_of(floats_view(*v)) {
            Some(f) => r matches Some(x) && x@ == f,
            None => r is None,
        },
{
    match v {
        Some(v) => if v.len() > 0 {
            Some(&v[0])
        } else {
            None
        },
        None => None,
    }
}

fn push_scalar_expr(out: &mut String, input: &str, config: &ScalerConfig)
    requires
        first_of(config@.offset) matches Some(o) ==> f32_bits_finite_view(o),
        first_of(config@.scale) matches Some(f) ==> f32_bits_finite_view(f),
    ensures
        final(out)@ == old(out)@ + scalar_text(input@, config@),
{
    let offset = first_value(&config.offset);
    let scale = first_value(&config.scale);
    match (offset, scale) {
        (Some(o), Some(f)) => {
            out.append("(");
            out.append(input);
            out.append(" - ");
            push_f32_literal(out, o);
            out.append(") * ");
            push_f32_literal(out, f);
        },
        (Some(o), None) => {
            out.append(input);
            out.append(" - ");
            push_f32_literal(out, o);
        },
        (None, Some(f)) => {
            out.append(input);
            out.append(" * ");
            push_f32_literal(out, f);
        },
        (None, None) => {
            out.append(input);
        },
    }
    assert(final(out)@ =~= old(out)@ + scalar_text(input@, config@));
}

fn push_tensor_expr(out: &mut String, input: &str, rank: usize, config: &ScalerConfig)
    ensures
        final(out)@ == old(out)@ + tensor_text(input@, rank as nat, config@),
{
    match (&config.offset, &config.scale) {
        (Some(o), Some(f)) => {
            out.append("{");
            push_feature_tensor(out, "offset_tensor", o, rank, o.len());
            push_feature_tensor(out, "scale_tensor", f, rank, f.len());
            out.append("\n    (");
            out.append(input);
            out.append(".clone() - offset_tensor) * scale_tensor\n}");
        },
        (Some(o), None) => {
            out.append("{");
            push_feature_tensor(out, "offset_tensor", o, rank, o.len());
            out.append("\n    ");
            out.append(input);
            out.append(".clone() - offset_tensor\n}");
        },
        (None, Some(f)) => {
            out.append("{");
            push_feature_tensor(out, "scale_tensor", f, rank, f.len());
            out.append("\n    ");
            out.append(input);
            out.append(".clone() * scale_tensor\n}");
        },
        (None, None) => {
            out.append(input);
            out.append(".clone()");
        },
    }
    assert(final(out)@ =~= old(out)@ + tensor_text(input@, rank as nat, config@));
}

impl ScalerNode {
    /// The inputs of the node.
    pub fn inputs(&self) -> (r: &[Argument])
        ensures
            r@ == self.inputs@,
    {
        self.inputs.as_slice()
    }

    /// The outputs of the node.
    pub fn outputs(&self) -> (r: &[Argument])
        ensures
            r@ == self.outputs@,
    {
        self.outputs.as_slice()
    }

    /// The code of the forward step.
    pub fn forward(&self) -> (r: String)
        requires
            self.inputs.len() >= 1,
            self.outputs.len() >= 1,
            scaler_literals_finite(self.inputs@[0].ty@, self.config@),
        ensures
            r@ == scaler_forward_text(
                self.inputs@[0].name@,
                self.outputs@[0].name@,
                self.inputs@[0].ty@,
                self.config@,
            ),
    {
        let input = self.inputs[0].name.as_str();
        let output = self.outputs[0].name.as_str();
        let mut s = String::from_str("let ");
        s.append(output);
        s.append(" = ");
        match &self.inputs[0].ty {
            ArgType::ScalarNative(_) => push_scalar_expr(&mut s, input, &self.config),
            ArgType::Tensor(t) => push_tensor_expr(&mut s, input, t.rank, &self.config),
            _ => {
                s.append(input);
                s.append(".clone()");
            },
        }
        s.append(";");
        assert(s@ =~= scaler_forward_text(input@, output@, self.inputs@[0].ty@, self.config@));
        s
    }
}

} // verus!
