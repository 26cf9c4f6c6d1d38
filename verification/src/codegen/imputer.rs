//! Code generation for Imputer: replaces the elements of the input that equal
//! the replaced value (NaN when none is given) by the imputed values; one
//! imputed value serves every element, several serve one feature each, along
//! the last dimension.
use vstd::prelude::*;
use vstd::string::StringExecFns;
use crate::codegen::{all_finite, f32_literal, f32_literals, push_f32_literal, push_f32_literal_list};
use crate::ir::{ArgType, ArgTypeView, Argument, DType, F32Value, F32ValueView, f32_bits_finite, f32_bits_nan, floats_view, ints_view};
use crate::text::{comma_list, contains, i64_literal, i64_literals, int_text, lemma_contains_around, lemma_contains_within, push_i64_literal, push_i64_literal_list};

verus! {

/// Configuration of an Imputer node.
#[derive(Debug, Clone, PartialEq)]
pub struct ImputerConfig {
    /// Values imputed into float inputs.
    pub imputed_value_floats: Option<Vec<F32Value>>,
    /// Values imputed into integer inputs.
    pub imputed_value_ints: Option<Vec<i64>>,
    /// The value to replace; NaN when absent.
    pub replaced_value_float: Option<F32Value>,
}

/// Spec-level value of an [`ImputerConfig`].
pub struct ImputerConfigView {
    pub imputed_value_floats: Option<Seq<F32ValueView>>,
    pub imputed_value_ints: Option<Seq<i64>>,
    pub replaced_value_float: Option<F32ValueView>,
}

impl View for ImputerConfig {
    type V = ImputerConfigView;

    open spec fn view(&self) -> ImputerConfigView {
        ImputerConfigView {
            imputed_value_floats: floats_view(self.imputed_value_floats),
            imputed_value_ints: ints_view(self.imputed_value_ints),
            replaced_value_float: match self.replaced_value_float {
                Some(f) => Some(f@),
                None => None,
            },
        }
    }
}

impl ImputerConfig {
    /// A configuration with the given values.
    pub fn new(
        imputed_value_floats: Option<Vec<F32Value>>,
        imputed_value_ints: Option<Vec<i64>>,
        replaced_value_float: Option<F32Value>,
    ) -> (r: ImputerConfig)
        ensures
            r.imputed_value_floats == imputed_value_floats,
            r.imputed_value_ints == imputed_value_ints,
            r.replaced_value_float == replaced_value_float,
    {
        ImputerConfig { imputed_value_floats, imputed_value_ints, replaced_value_float }
    }
}

/// An Imputer node with its configuration.
#[derive(Debug, Clone, PartialEq)]
pub struct ImputerNode {
    pub name: String,
    pub inputs: Vec<Argument>,
    pub outputs: Vec<Argument>,
    pub config: ImputerConfig,
}

impl ImputerNode {
    /// A node with the given name, arguments and configuration.
    pub fn new(name: String, inputs: Vec<Argument>, outputs: Vec<Argument>, config: ImputerConfig) -> (r: ImputerNode)
        ensures
            r.name == name,
            r.inputs == inputs,
            r.outputs == outputs,
            r.config == config,
    {
        ImputerNode { name, inputs, outputs, config }
    }
}

/// `2^n`.
pub open spec fn two_to(n: nat) -> nat
    decreases n,
{
    if n == 0 {
        1
    } else {
        2 * two_to((n - 1) as nat)
    }
}

/// `m` doubled `k` times.
pub open spec fn doubled(m: nat, k: nat) -> nat
    decreases k,
{
    if k == 0 {
        m
    } else {
        2 * doubled(m, (k - 1) as nat)
    }
}

/// `m` halved `k` times, rounding down each time.
pub open spec fn halved(m: nat, k: nat) -> nat
    decreases k,
{
    if k == 0 {
        m
    } else {
        halved(m, (k - 1) as nat) / 2
    }
}

/// The result of converting the float with bit pattern `bits` to `i64` with
/// `as`: rounded toward zero, saturated at the bounds of `i64`, and 0 for NaN.
/// A finite float is `(-1)^sign * (2^23 + mantissa) * 2^(exponent - 150)`
/// when its exponent field is at least 1; with a smaller exponent field than
/// 127 its magnitude is below 1.
pub open spec fn f32_bits_to_i64(bits: u32) -> i64 {
    let exponent = (bits / 0x80_0000) % 0x100;
    let mantissa = bits % 0x80_0000;
    let negative = bits >= 0x8000_0000;
    if exponent == 0xff && mantissa != 0 {
        0
    } else if exponent < 127 {
        0
    } else if exponent >= 190 {
        if negative {
            i64::MIN
        } else {
            i64::MAX
        }
    } else {
        let significand = (mantissa + 0x80_0000) as nat;
        let magnitude = if exponent >= 150 {
            doubled(significand, (exponent - 150) as nat)
        } else {
            halved(significand, (150 - exponent) as nat)
        };
        if negative {
            (-magnitude) as i64
        } else {
            magnitude as i64
        }
    }
}

proof fn lemma_two_to_monotonic(a: nat, b: nat)
    requires
        a <= b,
    ensures
        two_to(a) <= two_to(b),
    decreases b,
{
    if a < b {
        lemma_two_to_monotonic(a, (b - 1) as nat);
    }
}

proof fn lemma_two_to_values()
    ensures
        two_to(24) == 0x100_0000,
        two_to(63) == 0x8000_0000_0000_0000,
{
    reveal_with_fuel(two_to, 64);
}

proof fn lemma_halved_bound(m: nat, k: nat)
    ensures
        halved(m, k) <= m,
    decreases k,
{
    if k > 0 {
        lemma_halved_bound(m, (k - 1) as nat);
    }
}

proof fn lemma_two_to_step(k: nat)
    requires
        k >= 1,
    ensures
        two_to(k) == 2 * two_to((k - 1) as nat),
{
}

proof fn lemma_two_to_positive(k: nat)
    ensures
        two_to(k) >= 1,
    decreases k,
{
    if k > 0 {
        lemma_two_to_positive((k - 1) as nat);
    }
}

proof fn lemma_two_to_sum(a: nat, b: nat)
    ensures
        two_to(a + b) == two_to(a) * two_to(b),
    decreases b,
{
    if b == 0 {
        assert(two_to(0) == 1);
        assert(a + b == a);
        assert(two_to(a) * 1 == two_to(a));
    } else {
        let b1 = (b - 1) as nat;
        lemma_two_to_sum(a, b1);
        assert(a + b == (a + b1) + 1);
        assert(two_to(a + b) == 2 * two_to(a + b1));
        assert(two_to(b) == 2 * two_to(b1));
        let x = two_to(a);
        let y = two_to(b1);
        assert(x * (2 * y) == 2 * (x * y)) by (nonlinear_arith);
    }
}

proof fn lemma_doubled_is_product(m: nat, k: nat)
    ensures
        doubled(m, k) == m * two_to(k),
    decreases k,
{
    if k == 0 {
        assert(two_to(0) == 1);
        assert(m * 1 == m);
    } else {
        let k1 = (k - 1) as nat;
        lemma_doubled_is_product(m, k1);
        assert(doubled(m, k) == 2 * doubled(m, k1));
        assert(two_to(k) == 2 * two_to(k1));
        let y = two_to(k1);
        assert(m * (2 * y) == 2 * (m * y)) by (nonlinear_arith);
    }
}

proof fn lemma_halved_is_floor(m: nat, k: nat)
    ensures
        halved(m, k) * two_to(k) <= m,
        m < (halved(m, k) + 1) * two_to(k),
    decreases k,
{
    if k == 0 {
        assert(two_to(0) == 1);
        assert(halved(m, 0) == m);
        assert(m * 1 == m && (m + 1) * 1 == m + 1);
    } else {
        let k1 = (k - 1) as nat;
        lemma_halved_is_floor(m, k1);
        let h0 = halved(m, k1);
        let h = halved(m, k);
        let p = two_to(k1);
        assert(h == h0 / 2);
        assert(two_to(k) == 2 * p);
        assert(h * (2 * p) <= m && m < (h + 1) * (2 * p)) by (nonlinear_arith)
            requires
                h == h0 / 2,
                h0 * p <= m,
                m < (h0 + 1) * p,
        ;
    }
}

/// Converting a float to an integer as the integer imputer does rounds toward
/// zero and saturates: NaN gives 0; a magnitude below 1 (an exponent field
/// below 127, subnormals included) gives 0; a magnitude of 2^63 or more, and
/// an infinity, gives the bound of its sign; and otherwise the result has the
/// float's sign and the largest magnitude that is not above the float's, the
/// float being (2^23 + mantissa) * 2^(exponent - 150).
pub proof fn lemma_float_to_int_truncates(bits: u32)
    ensures
        ({
            let e = (bits / 0x80_0000) % 0x100;
            let m = bits % 0x80_0000;
            let s = (m + 0x80_0000) as nat;
            let negative = bits >= 0x8000_0000;
            let r = f32_bits_to_i64(bits);
            let size: int = if r < 0 { -r } else { r as int };
            &&& (e == 0xff && m != 0) ==> r == 0
            &&& e < 127 ==> r == 0
            &&& (e >= 190 && !(e == 0xff && m != 0)) ==> r == (if negative { i64::MIN } else { i64::MAX })
            &&& (127 <= e < 190) ==> {
                &&& negative ==> r < 0 || r == 0
                &&& !negative ==> r >= 0
                &&& e < 150 ==> size * two_to((150 - e) as nat) <= s && s < (size + 1) * two_to((150 - e) as nat)
                &&& e >= 150 ==> size == s * two_to((e - 150) as nat)
            }
        }),
{
    let e = (bits / 0x80_0000) % 0x100;
    let m = bits % 0x80_0000;
    let s = (m + 0x80_0000) as nat;
    if 127 <= e < 190 {
        lemma_two_to_values();
        if e >= 150 {
            let k = (e - 150) as nat;
            lemma_doubled_is_product(s, k);
            lemma_two_to_sum(24, k);
            lemma_two_to_monotonic(24 + k, 63);
            lemma_two_to_positive(k);
            assert(s < two_to(24));
            assert(s * two_to(k) < two_to(24) * two_to(k)) by (nonlinear_arith)
                requires
                    s < two_to(24),
                    two_to(k) >= 1,
            ;
        } else {
            let k = (150 - e) as nat;
            lemma_halved_is_floor(s, k);
            lemma_halved_bound(s, k);
        }
    }
}

/// Converts the float with bit pattern `bits` to `i64` as `as` does.
pub fn f32_bits_as_i64(bits: u32) -> (r: i64)
    ensures
        r == f32_bits_to_i64(bits),
{
    let exponent: u32 = (bits / 0x80_0000) % 0x100;
    let mantissa: u32 = bits % 0x80_0000;
    let negative = bits >= 0x8000_0000;
    if exponent == 0xff && mantissa != 0 {
        return 0;
    }
    if exponent < 127 {
        return 0;
    }
    if exponent >= 190 {
        return if negative {
            i64::MIN
        } else {
            i64::MAX
        };
    }
    let significand: u64 = mantissa as u64 + 0x80_0000;
    let ghost sig = significand as nat;
    let mut m: u64 = significand;
    if exponent >= 150 {
        let shift: u32 = exponent - 150;
        let mut k: u32 = 0;
        proof {
            lemma_two_to_values();
        }
        while k < shift
            invariant
                k <= shift,
                shift <= 39,
                m as nat == doubled(sig, k as nat),
                m < two_to((24 + k) as nat),
            decreases shift - k,
        {
            proof {
                lemma_two_to_monotonic((25 + k) as nat, 63);
                lemma_two_to_values();
                assert(two_to((25 + k) as nat) == 2 * two_to((24 + k) as nat));
            }
            m = m * 2;
            k = k + 1;
        }
        proof {
            lemma_two_to_monotonic((24 + shift) as nat, 63);
            lemma_two_to_values();
        }
    } else {
        let shift: u32 = 150 - exponent;
        let mut k: u32 = 0;
        while k < shift
            invariant
                k <= shift,
                m as nat == halved(sig, k as nat),
            decreases shift - k,
        {
            m = m / 2;
            k = k + 1;
        }
        proof {
            lemma_halved_bound(sig, shift as nat);
        }
    }
    let magnitude: i64 = m as i64;
    if negative {
        -magnitude
    } else {
        magnitude
    }
}

/// Replacing, in one go, every element selected by `mask` with `value`; the
/// input is consumed by the fill.
pub open spec fn single_text(input: Seq<char>, mask: Seq<char>, value: Seq<char>) -> Seq<char> {
    "{\n    "@ + "let mask = "@ + mask + ";"@ + "\n    "@ + input + ".mask_fill(mask, "@ + value + ")\n}"@
}

/// Replacing the elements selected by `mask` feature by feature with the
/// values `values`.
pub open spec fn per_feature_text(input: Seq<char>, mask: Seq<char>, values: Seq<char>) -> Seq<char> {
    "{\n    let imputed_values = vec!["@ + values + "];\n    "@ + "let mask = "@ + mask + ";"@ + "\n    let mut result = "@
        + input
        + ".clone();\n    let shape = result.shape();\n    let num_features = shape.dims[shape.dims.len() - 1];\n    for feature_idx in 0..num_features.min(imputed_values.len()) {\n        let feature_mask = mask.clone().narrow(shape.dims.len() - 1, feature_idx, 1);\n        let imputed_val = imputed_values[feature_idx];\n        result = result.mask_fill(feature_mask, imputed_val);\n    }\n    result\n}"@
}

proof fn lemma_fills_bind_the_mask(input: Seq<char>, mask: Seq<char>, v: Seq<char>)
    ensures
        contains(single_text(input, mask, v), "let mask = "@ + mask + ";"@),
        contains(per_feature_text(input, mask, v), "let mask = "@ + mask + ";"@),
{
    let part = "let mask = "@ + mask + ";"@;
    let tail = "\n    "@ + input + ".mask_fill(mask, "@ + v + ")\n}"@;
    assert(single_text(input, mask, v) =~= "{\n    "@ + part + tail);
    lemma_contains_within("{\n    "@, part, tail);
    let head = "{\n    let imputed_values = vec!["@ + v + "];\n    "@;
    let tail2 = "\n    let mut result = "@ + input
        + ".clone();\n    let shape = result.shape();\n    let num_features = shape.dims[shape.dims.len() - 1];\n    for feature_idx in 0..num_features.min(imputed_values.len()) {\n        let feature_mask = mask.clone().narrow(shape.dims.len() - 1, feature_idx, 1);\n        let imputed_val = imputed_values[feature_idx];\n        result = result.mask_fill(feature_mask, imputed_val);\n    }\n    result\n}"@;
    assert(per_feature_text(input, mask, v) =~= head + part + tail2);
    lemma_contains_within(head, part, tail2);
}

/// Whether the replaced value is NaN, as it is when none is given.
pub open spec fn replaces_nan(c: ImputerConfigView) -> bool {
    match c.replaced_value_float {
        Some(v) => f32_bits_nan(v.bits),
        None => true,
    }
}

/// The mask of the elements to replace in a float tensor: the NaN elements,
/// read from the input itself, or the elements equal to the replaced value,
/// compared on a copy.
pub open spec fn float_mask_text(input: Seq<char>, c: ImputerConfigView) -> Seq<char> {
    if replaces_nan(c) {
        input + ".is_nan()"@
    } else {
        input + ".clone().equal_elem("@ + f32_literal(c.replaced_value_float.unwrap()) + ")"@
    }
}

/// The expression for a float tensor input.
pub open spec fn float_tensor_text(input: Seq<char>, c: ImputerConfigView) -> Seq<char> {
    match c.imputed_value_floats {
        Some(v) => if v.len() == 1 {
            single_text(input, float_mask_text(input, c), f32_literal(v[0]))
        } else {
            per_feature_text(input, float_mask_text(input, c), comma_list(f32_literals(v)))
        },
        None => input + ".clone()"@,
    }
}

/// The expression for an integer tensor input: the replaced value converted
/// to an integer selects the elements to replace.
pub open spec fn int_tensor_text(input: Seq<char>, c: ImputerConfigView) -> Seq<char> {
    match (c.imputed_value_ints, c.replaced_value_float) {
        (Some(v), Some(r)) => {
            let mask = input + ".clone().equal_elem("@ + i64_literal(f32_bits_to_i64(r.bits) as int) + ")"@;
            if v.len() == 1 {
                single_text(input, mask, i64_literal(v[0] as int))
            } else {
                per_feature_text(input, mask, comma_list(i64_literals(v)))
            }
        },
        _ => input + ".clone()"@,
    }
}

/// The expression for a float scalar input.
pub open spec fn float_scalar_text(input: Seq<char>, c: ImputerConfigView) -> Seq<char> {
    match c.imputed_value_floats {
        Some(v) => if v.len() > 0 {
            "if "@ + input + ".clone().is_nan() || "@ + input + " == "@ + f32_literal(c.replaced_value_float.unwrap())
                + " { "@ + f32_literal(v[0]) + " } else { "@ + input + " }"@
        } else {
            input
        },
        None => input,
    }
}

pub open spec fn is_float(d: DType) -> bool {
    d == DType::F32 || d == DType::F64
}

pub open spec fn is_int(d: DType) -> bool {
    d == DType::I32 || d == DType::I64 || d == DType::I8 || d == DType::I16
}

/// The code of the forward step for an input of type `ty`.
pub open spec fn imputer_forward_text(input: Seq<char>, output: Seq<char>, ty: ArgTypeView, c: ImputerConfigView) -> Seq<
    char,
> {
    "let "@ + output + " = "@ + match ty {
        ArgTypeView::Scalar(d) => if is_float(d) {
            float_scalar_text(input, c)
        } else {
            input
        },
        ArgTypeView::Tensor(t) => if is_float(t.dtype) {
            float_tensor_text(input, c)
        } else if is_int(t.dtype) {
            int_tensor_text(input, c)
        } else {
            input + ".clone()"@
        },
        _ => input + ".clone()"@,
    } + ";"@
}

proof fn lemma_expression_in_forward(input: Seq<char>, output: Seq<char>, ty: ArgTypeView, c: ImputerConfigView, e: Seq<char>, part: Seq<char>)
    requires
        contains(e, part),
        imputer_forward_text(input, output, ty, c) == "let "@ + output + " = "@ + e + ";"@,
    ensures
        contains(imputer_forward_text(input, output, ty, c), part),
{
    lemma_contains_around("let "@ + output + " = "@, e, ";"@, part);
}

/// For a float tensor input with imputed values, the elements to replace are
/// those equal to the replaced value when one is given that is not NaN, and
/// the NaN elements otherwise, whether one imputed value serves every element
/// or one is given per feature.
pub proof fn lemma_imputer_float_mask_selects_replaced_value(
    input: Seq<char>,
    output: Seq<char>,
    ty: ArgTypeView,
    c: ImputerConfigView,
)
    requires
        ty matches ArgTypeView::Tensor(t) && (t.dtype == DType::F32 || t.dtype == DType::F64),
        c.imputed_value_floats is Some,
    ensures
        ({
            let r = c.replaced_value_float.unwrap();
            c.replaced_value_float is Some && !((r.bits / 0x80_0000) % 0x100 == 0xff && r.bits % 0x80_0000 != 0)
                ==> contains(
                imputer_forward_text(input, output, ty, c),
                "let mask = "@ + input + ".clone().equal_elem("@ + r.text + "f32"@ + ")"@ + ";"@,
            )
        }),
        (c.replaced_value_float matches Some(r) ==> ((r.bits / 0x80_0000) % 0x100 == 0xff && r.bits % 0x80_0000 != 0))
            ==> contains(imputer_forward_text(input, output, ty, c), "let mask = "@ + input + ".is_nan()"@ + ";"@),
{
    let mask = float_mask_text(input, c);
    let v = c.imputed_value_floats.unwrap();
    lemma_fills_bind_the_mask(input, mask, f32_literal(v[0]));
    lemma_fills_bind_the_mask(input, mask, comma_list(f32_literals(v)));
    let e = float_tensor_text(input, c);
    assert(contains(e, "let mask = "@ + mask + ";"@));
    lemma_expression_in_forward(input, output, ty, c, e, "let mask = "@ + mask + ";"@);
    let r = c.replaced_value_float.unwrap();
    if c.replaced_value_float is Some && !f32_bits_nan(r.bits) {
        assert(mask == input + ".clone().equal_elem("@ + r.text + "f32"@ + ")"@);
        assert("let mask = "@ + mask + ";"@ =~= "let mask = "@ + input + ".clone().equal_elem("@ + r.text + "f32"@ + ")"@ + ";"@);
    } else {
        assert(mask == input + ".is_nan()"@);
        assert("let mask = "@ + mask + ";"@ =~= "let mask = "@ + input + ".is_nan()"@ + ";"@);
    }
}

proof fn lemma_fills_use_the_values(input: Seq<char>, mask: Seq<char>, v: Seq<char>)
    ensures
        contains(single_text(input, mask, v), input + ".mask_fill(mask, "@ + v + ")\n}"@),
        contains(per_feature_text(input, mask, v), "{\n    let imputed_values = vec!["@ + v + "];\n    "@),
        contains(per_feature_text(input, mask, v), "\n    let mut result = "@ + input + ".clone();\n    let shape = result.shape();\n    let num_features = shape.dims[shape.dims.len() - 1];\n    for feature_idx in 0..num_features.min(imputed_values.len()) {\n        let feature_mask = mask.clone().narrow(shape.dims.len() - 1, feature_idx, 1);\n        let imputed_val = imputed_values[feature_idx];\n        result = result.mask_fill(feature_mask, imputed_val);\n    }\n    result\n}"@),
{
    let head = "{\n    "@ + "let mask = "@ + mask + ";"@ + "\n    "@;
    let part = input + ".mask_fill(mask, "@ + v + ")\n}"@;
    assert(single_text(input, mask, v) =~= head + part + Seq::<char>::empty());
    lemma_contains_within(head, part, Seq::<char>::empty());
    let part2 = "{\n    let imputed_values = vec!["@ + v + "];\n    "@;
    let tail2 = "let mask = "@ + mask + ";"@ + "\n    let mut result = "@ + input + ".clone();\n    let shape = result.shape();\n    let num_features = shape.dims[shape.dims.len() - 1];\n    for feature_idx in 0..num_features.min(imputed_values.len()) {\n        let feature_mask = mask.clone().narrow(shape.dims.len() - 1, feature_idx, 1);\n        let imputed_val = imputed_values[feature_idx];\n        result = result.mask_fill(feature_mask, imputed_val);\n    }\n    result\n}"@;
    assert(per_feature_text(input, mask, v) =~= Seq::<char>::empty() + part2 + tail2);
    lemma_contains_within(Seq::<char>::empty(), part2, tail2);
    let head3 = "{\n    let imputed_values = vec!["@ + v + "];\n    "@ + "let mask = "@ + mask + ";"@;
    let part3 = "\n    let mut result = "@ + input + ".clone();\n    let shape = result.shape();\n    let num_features = shape.dims[shape.dims.len() - 1];\n    for feature_idx in 0..num_features.min(imputed_values.len()) {\n        let feature_mask = mask.clone().narrow(shape.dims.len() - 1, feature_idx, 1);\n        let imputed_val = imputed_values[feature_idx];\n        result = result.mask_fill(feature_mask, imputed_val);\n    }\n    result\n}"@;
    assert(per_feature_text(input, mask, v) =~= head3 + part3 + Seq::<char>::empty());
    lemma_contains_within(head3, part3, Seq::<char>::empty());
}

/// For a float tensor input with imputed values, one value fills every selected
/// element in one go; several values fill the selected elements feature by
/// feature along the last dimension, value i for feature i, up to the smaller
/// of the number of features and of values, starting from a copy of the input.
pub proof fn lemma_imputer_float_fill_uses_the_imputed_values(
    input: Seq<char>,
    output: Seq<char>,
    ty: ArgTypeView,
    c: ImputerConfigView,
)
    requires
        ty matches ArgTypeView::Tensor(t) && (t.dtype == DType::F32 || t.dtype == DType::F64),
        c.imputed_value_floats is Some,
    ensures
        c.imputed_value_floats.unwrap().len() == 1 ==> contains(
            imputer_forward_text(input, output, ty, c),
            input + ".mask_fill(mask, "@ + c.imputed_value_floats.unwrap()[0].text + "f32"@ + ")\n}"@,
        ),
        c.imputed_value_floats.unwrap().len() != 1 ==> contains(
            imputer_forward_text(input, output, ty, c),
            "{\n    let imputed_values = vec!["@ + comma_list(f32_literals(c.imputed_value_floats.unwrap())) + "];\n    "@,
        ),
        c.imputed_value_floats.unwrap().len() != 1 ==> contains(
            imputer_forward_text(input, output, ty, c),
            "\n    let mut result = "@ + input + ".clone();\n    let shape = result.shape();\n    let num_features = shape.dims[shape.dims.len() - 1];\n    for feature_idx in 0..num_features.min(imputed_values.len()) {\n        let feature_mask = mask.clone().narrow(shape.dims.len() - 1, feature_idx, 1);\n        let imputed_val = imputed_values[feature_idx];\n        result = result.mask_fill(feature_mask, imputed_val);\n    }\n    result\n}"@,
        ),
{
    let mask = float_mask_text(input, c);
    let v = c.imputed_value_floats.unwrap();
    let e = float_tensor_text(input, c);
    if v.len() == 1 {
        lemma_fills_use_the_values(input, mask, f32_literal(v[0]));
        lemma_expression_in_forward(input, output, ty, c, e, input + ".mask_fill(mask, "@ + f32_literal(v[0]) + ")\n}"@);
        assert(input + ".mask_fill(mask, "@ + f32_literal(v[0]) + ")\n}"@ =~= input + ".mask_fill(mask, "@ + v[0].text + "f32"@ + ")\n}"@);
    } else {
        let vs = comma_list(f32_literals(v));
        lemma_fills_use_the_values(input, mask, vs);
        lemma_expression_in_forward(input, output, ty, c, e, "{\n    let imputed_values = vec!["@ + vs + "];\n    "@);
        lemma_expression_in_forward(input, output, ty, c, e, "\n    let mut result = "@ + input + ".clone();\n    let shape = result.shape();\n    let num_features = shape.dims[shape.dims.len() - 1];\n    for feature_idx in 0..num_features.min(imputed_values.len()) {\n        let feature_mask = mask.clone().narrow(shape.dims.len() - 1, feature_idx, 1);\n        let imputed_val = imputed_values[feature_idx];\n        result = result.mask_fill(feature_mask, imputed_val);\n    }\n    result\n}"@);
    }
}

/// For a float scalar input with an imputed value, the output is the first
/// imputed value when the input is NaN or equals the replaced value, and the
/// input otherwise.
pub proof fn lemma_imputer_scalar_replaces_nan_or_replaced_value(
    input: Seq<char>,
    output: Seq<char>,
    d: DType,
    c: ImputerConfigView,
)
    requires
        d == DType::F32 || d == DType::F64,
        c.imputed_value_floats is Some,
        c.imputed_value_floats.unwrap().len() > 0,
    ensures
        imputer_forward_text(input, output, ArgTypeView::Scalar(d), c) == "let "@ + output + " = "@ + ("if "@ + input
            + ".clone().is_nan() || "@ + input + " == "@ + c.replaced_value_float.unwrap().text + "f32"@ + " { "@
            + c.imputed_value_floats.unwrap()[0].text + "f32"@ + " } else { "@ + input + " }"@) + ";"@,
{
}

/// For an integer tensor input with imputed integers and a replaced value, the
/// elements to replace are those equal to the replaced value converted to an
/// integer (rounded toward zero, saturated, NaN giving 0), whether one imputed
/// value serves every element or one is given per feature.
pub proof fn lemma_imputer_int_mask_selects_converted_value(
    input: Seq<char>,
    output: Seq<char>,
    ty: ArgTypeView,
    c: ImputerConfigView,
)
    requires
        ty matches ArgTypeView::Tensor(t) && (t.dtype == DType::I32 || t.dtype == DType::I64 || t.dtype == DType::I8
            || t.dtype == DType::I16),
        c.imputed_value_ints is Some,
        c.replaced_value_float is Some,
    ensures
        contains(
            imputer_forward_text(input, output, ty, c),
            "let mask = "@ + input + ".clone().equal_elem("@ + int_text(f32_bits_to_i64(c.replaced_value_float.unwrap().bits) as int) + "i64"@ + ")"@ + ";"@,
        ),
{
    let r = c.replaced_value_float.unwrap();
    let mask = input + ".clone().equal_elem("@ + i64_literal(f32_bits_to_i64(r.bits) as int) + ")"@;
    let v = c.imputed_value_ints.unwrap();
    lemma_fills_bind_the_mask(input, mask, i64_literal(v[0] as int));
    lemma_fills_bind_the_mask(input, mask, comma_list(i64_literals(v)));
    let e = int_tensor_text(input, c);
    assert(contains(e, "let mask = "@ + mask + ";"@));
    lemma_expression_in_forward(input, output, ty, c, e, "let mask = "@ + mask + ";"@);
    assert("let mask = "@ + mask + ";"@ =~= "let mask = "@ + input + ".clone().equal_elem("@ + int_text(f32_bits_to_i64(r.bits) as int) + "i64"@ + ")"@ + ";"@);
}

/// Whether every float the forward step writes out as a literal is finite.
pub open spec fn imputer_literals_finite(ty: ArgTypeView, c: ImputerConfigView) -> bool {
    match ty {
        ArgTypeView::Scalar(d) => (is_float(d) && (c.imputed_value_floats matches Some(v) && v.len() > 0)) ==> {
            &&& f32_bits_finite(c.imputed_value_floats.unwrap()[0].bits)
            &&& c.replaced_value_float matches Some(r) && f32_bits_finite(r.bits)
        },
        ArgTypeView::Tensor(t) => (is_float(t.dtype) && c.imputed_value_floats is Some) ==> {
            &&& all_finite(c.imputed_value_floats.unwrap())
            &&& (c.replaced_value_float matches Some(r) ==> (f32_bits_nan(r.bits) || f32_bits_finite(r.bits)))
        },
        _ => true,
    }
}

fn push_single(out: &mut String, input: &str, mask: &str, value: &str)
    ensures
        final(out)@ == old(out)@ + single_text(input@, mask@, value@),
{
    out.append("{\n    ");
    out.append("let mask = ");
    out.append(mask);
    out.append(";");
    out.append("\n    ");
    out.append(input);
    out.append(".mask_fill(mask, ");
    out.append(value);
    out.append(")\n}");
    assert(final(out)@ =~= old(out)@ + single_text(input@, mask@, value@));
}

fn push_per_feature(out: &mut String, input: &str, mask: &str, values: &str)
    ensures
        final(out)@ == old(out)@ + per_feature_text(input@, mask@, values@),
{
    out.append("{\n    let imputed_values = vec![");
    out.append(values);
    out.append("];\n    ");
    out.append("let mask = ");
    out.append(mask);
    out.append(";");
    out.append("\n    let mut result = ");
    out.append(input);
    out.append(
        ".clone();\n    let shape = result.shape();\n    let num_features = shape.dims[shape.dims.len() - 1];\n    for feature_idx in 0..num_features.min(imputed_values.len()) {\n        let feature_mask = mask.clone().narrow(shape.dims.len() - 1, feature_idx, 1);\n        let imputed_val = imputed_values[feature_idx];\n        result = result.mask_fill(feature_mask, imputed_val);\n    }\n    result\n}",
    );
    assert(final(out)@ =~= old(out)@ + per_feature_text(input@, mask@, values@));
}

fn replaces_nan_exec(c: &ImputerConfig) -> (r: bool)
    ensures
        r == replaces_nan(c@),
{
    match &c.replaced_value_float {
        Some(v) => v.is_nan(),
        None => true,
    }
}

fn push_float_tensor(out: &mut String, input: &str, c: &ImputerConfig)
    ensures
        final(out)@ == old(out)@ + float_tensor_text(input@, c@),
{
    match &c.imputed_value_floats {
        Some(v) => {
            let mut mask = String::from_str(input);
            if replaces_nan_exec(c) {
                mask.append(".is_nan()");
            } else {
                mask.append(".clone().equal_elem(");
                match &c.replaced_value_float {
                    Some(r) => push_f32_literal(&mut mask, r),
                    None => {},
                }
                mask.append(")");
            }
            assert(mask@ =~= float_mask_text(input@, c@));
            let mut values = String::new();
            if v.len() == 1 {
                push_f32_literal(&mut values, &v[0]);
                assert(values@ =~= f32_literal(v@[0]@));
                push_single(out, input, mask.as_str(), values.as_str());
            } else {
                push_f32_literal_list(&mut values, v);
                assert(values@ =~= comma_list(f32_literals(v.deep_view())));
                push_per_feature(out, input, mask.as_str(), values.as_str());
            }
        },
        None => {
            out.append(input);
            out.append(".clone()");
        },
    }
    assert(final(out)@ =~= old(out)@ + float_tensor_text(input@, c@));
}

fn push_int_tensor(out: &mut String, input: &str, c: &ImputerConfig)
    ensures
        final(out)@ == old(out)@ + int_tensor_text(input@, c@),
{
    match (&c.imputed_value_ints, &c.replaced_value_float) {
        (Some(v), Some(r)) => {
            let replaced = f32_bits_as_i64(r.bits);
            let mut mask = String::from_str(input);
            mask.append(".clone().equal_elem(");
            push_i64_literal(&mut mask, replaced);
            mask.append(")");
            let mut values = String::new();
            if v.len() == 1 {
                push_i64_literal(&mut values, v[0]);
                assert(values@ =~= i64_literal(v@[0] as int));
                push_single(out, input, mask.as_str(), values.as_str());
            } else {
                push_i64_literal_list(&mut values, v);
                assert(values@ =~= comma_list(i64_literals(v@)));
                push_per_feature(out, input, mask.as_str(), values.as_str());
            }
        },
        _ => {
            out.append(input);
            out.append(".clone()");
        },
    }
    assert(final(out)@ =~= old(out)@ + int_tensor_text(input@, c@));
}

fn push_float_scalar(out: &mut String, input: &str, c: &ImputerConfig)
    requires
        (c@.imputed_value_floats matches Some(v) && v.len() > 0) ==> c@.replaced_value_float is Some,
    ensures
        final(out)@ == old(out)@ + float_scalar_text(input@, c@),
{
    match &c.imputed_value_floats {
        Some(v) => {
            if v.len() > 0 {
                out.append("if ");
                out.append(input);
                out.append(".clone().is_nan() || ");
                out.append(input);
                out.append(" == ");
                match &c.replaced_value_float {
                    Some(r) => push_f32_literal(out, r),
                    None => {},
                }
                out.append(" { ");
                push_f32_literal(out, &v[0]);
                out.append(" } else { ");
                out.append(input);
                out.append(" }");
            } else {
                out.append(input);
            }
        },
        None => {
            out.append(input);
        },
    }
    assert(final(out)@ =~= old(out)@ + float_scalar_text(input@, c@));
}

impl ImputerNode {
    /// The inputs of the node.
    pub fn inputs(&self) -> (r: &[Argument])
        ensures
            r@ == self.inputs@,
    {
        self.inputs.as_slice()
    }

    /// The outputs of the node.
    pub fn outputs(&self) -> (r: &[Argument])
        ensures
            r@ == self.outputs@,
    {
        self.outputs.as_slice()
    }

    /// The code of the forward step.
    pub fn forward(&self) -> (r: String)
        requires
            self.inputs.len() >= 1,
            self.outputs.len() >= 1,
            imputer_literals_finite(self.inputs@[0].ty@, self.config@),
        ensures
            r@ == imputer_forward_text(
                self.inputs@[0].name@,
                self.outputs@[0].name@,
                self.inputs@[0].ty@,
                self.config@,
            ),
    {
        let input = self.inputs[0].name.as_str();
        let output = self.outputs[0].name.as_str();
        let mut s = String::from_str("let ");
        s.append(output);
        s.append(" = ");
        match &self.inputs[0].ty {
            ArgType::Scalar(d) => {
                if *d == DType::F32 || *d == DType::F64 {
                    push_float_scalar(&mut s, input, &self.config);
                } else {
                    s.append(input);
                }
            },
            ArgType::Tensor(t) => {
                let d = t.dtype;
                if d == DType::F32 || d == DType::F64 {
                    push_float_tensor(&mut s, input, &self.config);
                } else if d == DType::I32 || d == DType::I64 || d == DType::I8 || d == DType::I16 {
                    push_int_tensor(&mut s, input, &self.config);
                } else {
                    s.append(input);
                    s.append(".clone()");
                }
            },
            _ => {
                s.append(input);
                s.append(".clone()");
            },
        }
        s.append(";");
        assert(s@ =~= imputer_forward_text(input@, output@, self.inputs@[0].ty@, self.config@));
        s
    }
}

} // verus!
