//! Code generation for SVMRegressor.
//!
//! The model keeps the coefficients (as an `[n_supports, 1]` tensor) and the
//! support vectors (as an `[n_supports, n_features]` tensor) in a field named
//! after the node. The forward step computes the kernel values of the input
//! against the support vectors, multiplies them by the coefficients and adds
//! the bias `rho`, then applies the post transform.
use vstd::prelude::*;
use vstd::string::StringExecFns;
use crate::codegen::{Field, f32_literal, f32_literals, push_f32_literal, push_f32_literal_list};
use crate::ir::{Argument, F32Value, F32ValueView, f32_bits_finite};
use crate::node::svmregressor::{SVMRegressorConfigView, SVMRegressorNode};
use crate::text::{comma_list, contains, lemma_contains_around, lemma_contains_left, lemma_contains_within, push_usize_literal, same_text, usize_literal};

verus! {

/// The float 0, written `0`.
pub open spec fn zero_value() -> F32ValueView {
    F32ValueView { bits: 0, text: "0"@ }
}

/// The float nearest to 0.1, written `0.1`.
pub open spec fn tenth_value() -> F32ValueView {
    F32ValueView { bits: 0x3dcc_cccd, text: "0.1"@ }
}

/// The float 1, written `1`.
pub open spec fn one_value() -> F32ValueView {
    F32ValueView { bits: 0x3f80_0000, text: "1"@ }
}

/// The float 3, written `3`.
pub open spec fn three_value() -> F32ValueView {
    F32ValueView { bits: 0x4040_0000, text: "3"@ }
}

fn make_value(bits: u32, text: &str) -> (r: F32Value)
    ensures
        r@ == (F32ValueView { bits, text: text@ }),
{
    F32Value { bits, text: String::from_str(text) }
}

/// Value `i` of an optional list, or `default` when there is none.
pub open spec fn value_or(v: Option<Seq<F32ValueView>>, i: int, default: F32ValueView) -> F32ValueView {
    match v {
        Some(s) => if 0 <= i < s.len() {
            s[i]
        } else {
            default
        },
        None => default,
    }
}

fn value_or_exec(v: &Option<Vec<F32Value>>, i: usize, default: F32Value) -> (r: F32Value)
    ensures
        r@ == value_or(crate::ir::floats_view(*v), i as int, default@),
{
    match v {
        Some(s) => if i < s.len() {
            s[i].duplicate()
        } else {
            default
        },
        None => default,
    }
}

/// The number of support vectors as the generator reads it: the attribute
/// converted to `usize` (wrapping), or 0 when it is absent.
pub open spec fn supports_count(c: SVMRegressorConfigView) -> usize {
    match c.n_supports {
        Some(n) => n as usize,
        None => 0,
    }
}

/// The kernel type, LINEAR when absent.
pub open spec fn kernel_of(c: SVMRegressorConfigView) -> Seq<char> {
    match c.kernel_type {
        Some(k) => k,
        None => "LINEAR"@,
    }
}

/// The post transform, NONE when absent.
pub open spec fn transform_of(c: SVMRegressorConfigView) -> Seq<char> {
    match c.post_transform {
        Some(p) => p,
        None => "NONE"@,
    }
}

/// The bias: the first value of `rho`, or 0.
pub open spec fn rho_of(c: SVMRegressorConfigView) -> F32ValueView {
    value_or(c.rho, 0, zero_value())
}

/// The last lines shared by every kernel: the weighted sum plus the bias.
pub open spec fn kernel_tail_text() -> Seq<char> {
    "\n    let result = kernel_values.matmul(coef.clone()) + rho;\n    result\n}"@
}

/// The linear kernel `x · sv`.
pub open spec fn linear_text(input: Seq<char>, field: Seq<char>, rho: F32ValueView) -> Seq<char> {
    "{\n    "@ + "let rho = "@ + f32_literal(rho) + ";"@ + "\n    let (coef, sv) = &self."@ + field
        + ";\n    "@ + "let kernel_values = "@ + input + ".matmul(sv.clone().transpose());"@ + kernel_tail_text()
}

/// The RBF kernel `exp(-gamma * ||x - sv||^2)`, one support vector at a time.
pub open spec fn rbf_text(input: Seq<char>, field: Seq<char>, rho: F32ValueView, gamma: F32ValueView, n: nat) -> Seq<
    char,
> {
    "{\n    "@ + "let rho = "@ + f32_literal(rho) + ";"@ + "\n    let gamma = "@ + f32_literal(gamma) + ";\n    let n_supports = "@
        + usize_literal(n) + ";\n    let (coef, sv) = &self."@ + field + ";\n    let input_shape = "@ + input
        + ".shape();\n    let batch_size = input_shape.dims[0];\n    let mut kernel_values = Tensor::<B, 2>::zeros([batch_size, n_supports], &*self.device);\n    for i in 0..n_supports {\n        let sv_i = sv.clone().narrow(0, i, 1);\n        "@ + "let diff = "@
        + input
        + ".clone() - sv_i;"@ + "\n        "@ + "let sq_dist = diff.clone().powf_scalar(2.0).sum_dim(1);"@ + "\n        "@ + "let kernel_val = (-gamma * sq_dist).exp().reshape([batch_size, 1]);"@ + "\n        kernel_values = kernel_values.slice_assign([0..batch_size as i64, i as i64..(i + 1) as i64], kernel_val);\n    }"@
        + kernel_tail_text()
}

/// The polynomial kernel `(gamma * x · sv + coef0)^degree`.
pub open spec fn poly_text(
    input: Seq<char>,
    field: Seq<char>,
    rho: F32ValueView,
    gamma: F32ValueView,
    coef0: F32ValueView,
    degree: F32ValueView,
) -> Seq<char> {
    "{\n    "@ + "let rho = "@ + f32_literal(rho) + ";"@ + "\n    let gamma = "@ + f32_literal(gamma) + ";\n    let coef0 = "@
        + f32_literal(coef0) + ";\n    let degree = "@ + f32_literal(degree) + ";\n    let (coef, sv) = &self."@
        + field + ";\n    let dot_products = "@ + input
        + ".matmul(sv.clone().transpose());\n    "@ + "let kernel_values = (dot_products * gamma + coef0).powf_scalar(degree);"@
        + kernel_tail_text()
}

/// The sigmoid kernel `tanh(gamma * x · sv + coef0)`.
pub open spec fn sigmoid_text(
    input: Seq<char>,
    field: Seq<char>,
    rho: F32ValueView,
    gamma: F32ValueView,
    coef0: F32ValueView,
) -> Seq<char> {
    "{\n    "@ + "let rho = "@ + f32_literal(rho) + ";"@ + "\n    let gamma = "@ + f32_literal(gamma) + ";\n    let coef0 = "@
        + f32_literal(coef0) + ";\n    let (coef, sv) = &self."@ + field + ";\n    let dot_products = "@ + input
        + ".matmul(sv.clone().transpose());\n    "@ + "let kernel_values = (dot_products * gamma + coef0).tanh();"@
        + kernel_tail_text()
}

/// Whether the configuration holds both coefficients and support vectors.
pub open spec fn has_data(c: SVMRegressorConfigView) -> bool {
    c.coefficients is Some && c.support_vectors is Some
}

/// The kernel computation: the input as it is when there is no data or the
/// kernel type is unknown.
pub open spec fn kernel_text(input: Seq<char>, field: Seq<char>, c: SVMRegressorConfigView) -> Seq<char> {
    let k = kernel_of(c);
    if !has_data(c) {
        input + ".clone()"@
    } else if k == "LINEAR"@ {
        linear_text(input, field, rho_of(c))
    } else if k == "RBF"@ {
        rbf_text(input, field, rho_of(c), value_or(c.kernel_params, 0, tenth_value()), supports_count(c) as nat)
    } else if k == "POLY"@ {
        poly_text(
            input,
            field,
            rho_of(c),
            value_or(c.kernel_params, 0, one_value()),
            value_or(c.kernel_params, 1, zero_value()),
            value_or(c.kernel_params, 2, three_value()),
        )
    } else if k == "SIGMOID"@ {
        sigmoid_text(
            input,
            field,
            rho_of(c),
            value_or(c.kernel_params, 0, one_value()),
            value_or(c.kernel_params, 1, zero_value()),
        )
    } else {
        input + ".clone()"@
    }
}

proof fn lemma_linear_holds(input: Seq<char>, field: Seq<char>, rho: F32ValueView)
    ensures
        contains(linear_text(input, field, rho), "let kernel_values = "@ + input + ".matmul(sv.clone().transpose());"@),
{
    assert(linear_text(input, field, rho) =~= ("{\n    "@ + "let rho = "@ + f32_literal(rho) + ";"@ + "\n    let (coef, sv) = &self."@ + field + ";\n    "@) + ("let kernel_values = "@ + input + ".matmul(sv.clone().transpose());"@) + (kernel_tail_text()));
    lemma_contains_within("{\n    "@ + "let rho = "@ + f32_literal(rho) + ";"@ + "\n    let (coef, sv) = &self."@ + field + ";\n    "@, "let kernel_values = "@ + input + ".matmul(sv.clone().transpose());"@, kernel_tail_text());
}

proof fn lemma_rbf_holds(input: Seq<char>, field: Seq<char>, rho: F32ValueView, gamma: F32ValueView, n: nat)
    ensures
        contains(rbf_text(input, field, rho, gamma, n), "let diff = "@ + input + ".clone() - sv_i;"@),
        contains(rbf_text(input, field, rho, gamma, n), "let sq_dist = diff.clone().powf_scalar(2.0).sum_dim(1);"@),
        contains(rbf_text(input, field, rho, gamma, n), "let kernel_val = (-gamma * sq_dist).exp().reshape([batch_size, 1]);"@),
{
    assert(rbf_text(input, field, rho, gamma, n) =~= ("{\n    "@ + "let rho = "@ + f32_literal(rho) + ";"@ + "\n    let gamma = "@ + f32_literal(gamma) + ";\n    let n_supports = "@ + usize_literal(n) + ";\n    let (coef, sv) = &self."@ + field + ";\n    let input_shape = "@ + input + ".shape();\n    let batch_size = input_shape.dims[0];\n    let mut kernel_values = Tensor::<B, 2>::zeros([batch_size, n_supports], &*self.device);\n    for i in 0..n_supports {\n        let sv_i = sv.clone().narrow(0, i, 1);\n        "@) + ("let diff = "@ + input + ".clone() - sv_i;"@) + ("\n        "@ + "let sq_dist = diff.clone().powf_scalar(2.0).sum_dim(1);"@ + "\n        "@ + "let kernel_val = (-gamma * sq_dist).exp().reshape([batch_size, 1]);"@ + "\n        kernel_values = kernel_values.slice_assign([0..batch_size as i64, i as i64..(i + 1) as i64], kernel_val);\n    }"@ + kernel_tail_text()));
    lemma_contains_within("{\n    "@ + "let rho = "@ + f32_literal(rho) + ";"@ + "\n    let gamma = "@ + f32_literal(gamma) + ";\n    let n_supports = "@ + usize_literal(n) + ";\n    let (coef, sv) = &self."@ + field + ";\n    let input_shape = "@ + input + ".shape();\n    let batch_size = input_shape.dims[0];\n    let mut kernel_values = Tensor::<B, 2>::zeros([batch_size, n_supports], &*self.device);\n    for i in 0..n_supports {\n        let sv_i = sv.clone().narrow(0, i, 1);\n        "@, "let diff = "@ + input + ".clone() - sv_i;"@, "\n        "@ + "let sq_dist = diff.clone().powf_scalar(2.0).sum_dim(1);"@ + "\n        "@ + "let kernel_val = (-gamma * sq_dist).exp().reshape([batch_size, 1]);"@ + "\n        kernel_values = kernel_values.slice_assign([0..batch_size as i64, i as i64..(i + 1) as i64], kernel_val);\n    }"@ + kernel_tail_text());
    assert(rbf_text(input, field, rho, gamma, n) =~= ("{\n    "@ + "let rho = "@ + f32_literal(rho) + ";"@ + "\n    let gamma = "@ + f32_literal(gamma) + ";\n    let n_supports = "@ + usize_literal(n) + ";\n    let (coef, sv) = &self."@ + field + ";\n    let input_shape = "@ + input + ".shape();\n    let batch_size = input_shape.dims[0];\n    let mut kernel_values = Tensor::<B, 2>::zeros([batch_size, n_supports], &*self.device);\n    for i in 0..n_supports {\n        let sv_i = sv.clone().narrow(0, i, 1);\n        "@ + "let diff = "@ + input + ".clone() - sv_i;"@ + "\n        "@) + ("let sq_dist = diff.clone().powf_scalar(2.0).sum_dim(1);"@) + ("\n        "@ + "let kernel_val = (-gamma * sq_dist).exp().reshape([batch_size, 1]);"@ + "\n        kernel_values = kernel_values.slice_assign([0..batch_size as i64, i as i64..(i + 1) as i64], kernel_val);\n    }"@ + kernel_tail_text()));
    lemma_contains_within("{\n    "@ + "let rho = "@ + f32_literal(rho) + ";"@ + "\n    let gamma = "@ + f32_literal(gamma) + ";\n    let n_supports = "@ + usize_literal(n) + ";\n    let (coef, sv) = &self."@ + field + ";\n    let input_shape = "@ + input + ".shape();\n    let batch_size = input_shape.dims[0];\n    let mut kernel_values = Tensor::<B, 2>::zeros([batch_size, n_supports], &*self.device);\n    for i in 0..n_supports {\n        let sv_i = sv.clone().narrow(0, i, 1);\n        "@ + "let diff = "@ + input + ".clone() - sv_i;"@ + "\n        "@, "let sq_dist = diff.clone().powf_scalar(2.0).sum_dim(1);"@, "\n        "@ + "let kernel_val = (-gamma * sq_dist).exp().reshape([batch_size, 1]);"@ + "\n        kernel_values = kernel_values.slice_assign([0..batch_size as i64, i as i64..(i + 1) as i64], kernel_val);\n    }"@ + kernel_tail_text());
    assert(rbf_text(input, field, rho, gamma, n) =~= ("{\n    "@ + "let rho = "@ + f32_literal(rho) + ";"@ + "\n    let gamma = "@ + f32_literal(gamma) + ";\n    let n_supports = "@ + usize_literal(n) + ";\n    let (coef, sv) = &self."@ + field + ";\n    let input_shape = "@ + input + ".shape();\n    let batch_size = input_shape.dims[0];\n    let mut kernel_values = Tensor::<B, 2>::zeros([batch_size, n_supports], &*self.device);\n    for i in 0..n_supports {\n        let sv_i = sv.clone().narrow(0, i, 1);\n        "@ + "let diff = "@ + input + ".clone() - sv_i;"@ + "\n        "@ + "let sq_dist = diff.clone().powf_scalar(2.0).sum_dim(1);"@ + "\n        "@) + ("let kernel_val = (-gamma * sq_dist).exp().reshape([batch_size, 1]);"@) + ("\n        kernel_values = kernel_values.slice_assign([0..batch_size as i64, i as i64..(i + 1) as i64], kernel_val);\n    }"@ + kernel_tail_text()));
    lemma_contains_within("{\n    "@ + "let rho = "@ + f32_literal(rho) + ";"@ + "\n    let gamma = "@ + f32_literal(gamma) + ";\n    let n_supports = "@ + usize_literal(n) + ";\n    let (coef, sv) = &self."@ + field + ";\n    let input_shape = "@ + input + ".shape();\n    let batch_size = input_shape.dims[0];\n    let mut kernel_values = Tensor::<B, 2>::zeros([batch_size, n_supports], &*self.device);\n    for i in 0..n_supports {\n        let sv_i = sv.clone().narrow(0, i, 1);\n        "@ + "let diff = "@ + input + ".clone() - sv_i;"@ + "\n        "@ + "let sq_dist = diff.clone().powf_scalar(2.0).sum_dim(1);"@ + "\n        "@, "let kernel_val = (-gamma * sq_dist).exp().reshape([batch_size, 1]);"@, "\n        kernel_values = kernel_values.slice_assign([0..batch_size as i64, i as i64..(i + 1) as i64], kernel_val);\n    }"@ + kernel_tail_text());
}

proof fn lemma_poly_holds(input: Seq<char>, field: Seq<char>, rho: F32ValueView, gamma: F32ValueView, coef0: F32ValueView, degree: F32ValueView)
    ensures
        contains(poly_text(input, field, rho, gamma, coef0, degree), "let kernel_values = (dot_products * gamma + coef0).powf_scalar(degree);"@),
{
    assert(poly_text(input, field, rho, gamma, coef0, degree) =~= ("{\n    "@ + "let rho = "@ + f32_literal(rho) + ";"@ + "\n    let gamma = "@ + f32_literal(gamma) + ";\n    let coef0 = "@ + f32_literal(coef0) + ";\n    let degree = "@ + f32_literal(degree) + ";\n    let (coef, sv) = &self."@ + field + ";\n    let dot_products = "@ + input + ".matmul(sv.clone().transpose());\n    "@) + ("let kernel_values = (dot_products * gamma + coef0).powf_scalar(degree);"@) + (kernel_tail_text()));
    lemma_contains_within("{\n    "@ + "let rho = "@ + f32_literal(rho) + ";"@ + "\n    let gamma = "@ + f32_literal(gamma) + ";\n    let coef0 = "@ + f32_literal(coef0) + ";\n    let degree = "@ + f32_literal(degree) + ";\n    let (coef, sv) = &self."@ + field + ";\n    let dot_products = "@ + input + ".matmul(sv.clone().transpose());\n    "@, "let kernel_values = (dot_products * gamma + coef0).powf_scalar(degree);"@, kernel_tail_text());
}

proof fn lemma_sigmoid_holds(input: Seq<char>, field: Seq<char>, rho: F32ValueView, gamma: F32ValueView, coef0: F32ValueView)
    ensures
        contains(sigmoid_text(input, field, rho, gamma, coef0), "let kernel_values = (dot_products * gamma + coef0).tanh();"@),
{
    assert(sigmoid_text(input, field, rho, gamma, coef0) =~= ("{\n    "@ + "let rho = "@ + f32_literal(rho) + ";"@ + "\n    let gamma = "@ + f32_literal(gamma) + ";\n    let coef0 = "@ + f32_literal(coef0) + ";\n    let (coef, sv) = &self."@ + field + ";\n    let dot_products = "@ + input + ".matmul(sv.clone().transpose());\n    "@) + ("let kernel_values = (dot_products * gamma + coef0).tanh();"@) + (kernel_tail_text()));
    lemma_contains_within("{\n    "@ + "let rho = "@ + f32_literal(rho) + ";"@ + "\n    let gamma = "@ + f32_literal(gamma) + ";\n    let coef0 = "@ + f32_literal(coef0) + ";\n    let (coef, sv) = &self."@ + field + ";\n    let dot_products = "@ + input + ".matmul(sv.clone().transpose());\n    "@, "let kernel_values = (dot_products * gamma + coef0).tanh();"@, kernel_tail_text());
}

proof fn lemma_kernel_part_in_forward(
    input: Seq<char>,
    output: Seq<char>,
    field: Seq<char>,
    c: SVMRegressorConfigView,
    part: Seq<char>,
)
    requires
        contains(kernel_text(input, field, c), part),
    ensures
        contains(svm_forward_text(input, output, field, c), part),
{
    let kc = kernel_text(input, field, c);
    let p = transform_of(c);
    let e = Seq::<char>::empty();
    if p == "LOGISTIC"@ {
        lemma_contains_around("{ let y = "@, kc, "; "@ + "(y.neg().exp() + 1.0).recip()"@ + " }"@, part);
        assert(transformed_text(kc, p) =~= "{ let y = "@ + kc + ("; "@ + "(y.neg().exp() + 1.0).recip()"@ + " }"@));
    } else if p == "SOFTMAX"@ {
        lemma_contains_around("{ let y = "@, kc, "; "@ + "y.exp() / y.exp().sum_dim(0)"@ + " }"@, part);
        assert(transformed_text(kc, p) =~= "{ let y = "@ + kc + ("; "@ + "y.exp() / y.exp().sum_dim(0)"@ + " }"@));
    } else if p == "SOFTMAX_ZERO"@ {
        let tail = ";\n    let zeros = y.zeros_like();\n    let combined = Tensor::cat(vec![y, zeros], 0);\n    combined.exp() / combined.exp().sum_dim(0)\n}"@;
        lemma_contains_around("{\n    let y = "@, kc, tail, part);
    } else if p == "PROBIT"@ {
        lemma_contains_around("{ let y = "@, kc, "; y }"@, part);
    } else {
        lemma_contains_around(e, kc, e, part);
        assert(e + kc + e =~= kc);
    }
    let t = transformed_text(kc, p);
    lemma_contains_around("let "@ + output + " = "@, t, ";"@, part);
}

/// The linear kernel of the input with each support vector is their dot
/// product: the input times the transposed support vectors.
pub proof fn lemma_svm_linear_kernel_is_dot_product(input: Seq<char>, output: Seq<char>, field: Seq<char>, c: SVMRegressorConfigView)
    requires
        has_data(c),
        kernel_of(c) == "LINEAR"@,
    ensures
        contains(svm_forward_text(input, output, field, c), "let kernel_values = "@ + input + ".matmul(sv.clone().transpose());"@),
{
    lemma_linear_holds(input, field, rho_of(c));
    lemma_kernel_part_in_forward(input, output, field, c, "let kernel_values = "@ + input + ".matmul(sv.clone().transpose());"@);
}

/// The RBF kernel is exp(-gamma * ||x - sv||^2) for each support vector sv:
/// the difference of the input and the support vector, the sum of its squares
/// along the features, and e to the power of minus gamma times that sum, which
/// is 1 at distance 0 and decreases as the distance grows.
pub proof fn lemma_svm_rbf_kernel_decreases_with_distance(input: Seq<char>, output: Seq<char>, field: Seq<char>, c: SVMRegressorConfigView)
    requires
        has_data(c),
        kernel_of(c) == "RBF"@,
    ensures
        contains(svm_forward_text(input, output, field, c), "let diff = "@ + input + ".clone() - sv_i;"@),
        contains(svm_forward_text(input, output, field, c), "let sq_dist = diff.clone().powf_scalar(2.0).sum_dim(1);"@),
        contains(svm_forward_text(input, output, field, c), "let kernel_val = (-gamma * sq_dist).exp().reshape([batch_size, 1]);"@),
{
    reveal_strlit("LINEAR");
    reveal_strlit("RBF");
    reveal_strlit("POLY");
    reveal_strlit("SIGMOID");
    assert("LINEAR"@.len() == 6 && "RBF"@.len() == 3 && "POLY"@.len() == 4 && "SIGMOID"@.len() == 7);
    lemma_rbf_holds(input, field, rho_of(c), value_or(c.kernel_params, 0, tenth_value()), supports_count(c) as nat);
    lemma_kernel_part_in_forward(input, output, field, c, "let diff = "@ + input + ".clone() - sv_i;"@);
    lemma_kernel_part_in_forward(input, output, field, c, "let sq_dist = diff.clone().powf_scalar(2.0).sum_dim(1);"@);
    lemma_kernel_part_in_forward(input, output, field, c, "let kernel_val = (-gamma * sq_dist).exp().reshape([batch_size, 1]);"@);
}

/// The polynomial kernel is (gamma * x · sv + coef0) raised to the degree.
pub proof fn lemma_svm_poly_kernel_is_power(input: Seq<char>, output: Seq<char>, field: Seq<char>, c: SVMRegressorConfigView)
    requires
        has_data(c),
        kernel_of(c) == "POLY"@,
    ensures
        contains(svm_forward_text(input, output, field, c), "let kernel_values = (dot_products * gamma + coef0).powf_scalar(degree);"@),
{
    reveal_strlit("LINEAR");
    reveal_strlit("RBF");
    reveal_strlit("POLY");
    reveal_strlit("SIGMOID");
    assert("LINEAR"@.len() == 6 && "RBF"@.len() == 3 && "POLY"@.len() == 4 && "SIGMOID"@.len() == 7);
    lemma_poly_holds(
        input,
        field,
        rho_of(c),
        value_or(c.kernel_params, 0, one_value()),
        value_or(c.kernel_params, 1, zero_value()),
        value_or(c.kernel_params, 2, three_value()),
    );
    lemma_kernel_part_in_forward(input, output, field, c, "let kernel_values = (dot_products * gamma + coef0).powf_scalar(degree);"@);
}

/// The sigmoid kernel is tanh(gamma * x · sv + coef0).
pub proof fn lemma_svm_sigmoid_kernel_is_tanh(input: Seq<char>, output: Seq<char>, field: Seq<char>, c: SVMRegressorConfigView)
    requires
        has_data(c),
        kernel_of(c) == "SIGMOID"@,
    ensures
        contains(svm_forward_text(input, output, field, c), "let kernel_values = (dot_products * gamma + coef0).tanh();"@),
{
    reveal_strlit("LINEAR");
    reveal_strlit("RBF");
    reveal_strlit("POLY");
    reveal_strlit("SIGMOID");
    assert("LINEAR"@.len() == 6 && "RBF"@.len() == 3 && "POLY"@.len() == 4 && "SIGMOID"@.len() == 7);
    lemma_sigmoid_holds(
        input,
        field,
        rho_of(c),
        value_or(c.kernel_params, 0, one_value()),
        value_or(c.kernel_params, 1, zero_value()),
    );
    lemma_kernel_part_in_forward(input, output, field, c, "let kernel_values = (dot_products * gamma + coef0).tanh();"@);
}

/// With post transform LOGISTIC the output is the logistic sigmoid
/// 1 / (1 + e^(-y)) of the kernel computation y, and with SOFTMAX it is
/// e^y divided by the sum of e^y along the first dimension.
pub proof fn lemma_svm_transforms_wrap_the_kernel(input: Seq<char>, output: Seq<char>, field: Seq<char>, c: SVMRegressorConfigView)
    ensures
        transform_of(c) == "LOGISTIC"@ ==> svm_forward_text(input, output, field, c) == "let "@ + output
            + " = { let y = "@ + kernel_text(input, field, c) + "; (y.neg().exp() + 1.0).recip() };"@,
        transform_of(c) == "SOFTMAX"@ ==> svm_forward_text(input, output, field, c) == "let "@ + output
            + " = { let y = "@ + kernel_text(input, field, c) + "; y.exp() / y.exp().sum_dim(0) };"@,
{
    reveal_strlit("LOGISTIC");
    reveal_strlit("SOFTMAX");
    assert("LOGISTIC"@.len() == 8 && "SOFTMAX"@.len() == 7);
    reveal_strlit("; ");
    reveal_strlit(" }");
    reveal_strlit(";");
    reveal_strlit("(y.neg().exp() + 1.0).recip()");
    reveal_strlit("; (y.neg().exp() + 1.0).recip() };");
    reveal_strlit("y.exp() / y.exp().sum_dim(0)");
    reveal_strlit("; y.exp() / y.exp().sum_dim(0) };");
    reveal_strlit("let ");
    reveal_strlit(" = ");
    reveal_strlit("{ let y = ");
    reveal_strlit(" = { let y = ");
    let kc = kernel_text(input, field, c);
    assert("; "@ + "(y.neg().exp() + 1.0).recip()"@ + " }"@ + ";"@ =~= "; (y.neg().exp() + 1.0).recip() };"@);
    assert("; "@ + "y.exp() / y.exp().sum_dim(0)"@ + " }"@ + ";"@ =~= "; y.exp() / y.exp().sum_dim(0) };"@);
    assert(" = "@ + "{ let y = "@ =~= " = { let y = "@);
    if transform_of(c) == "LOGISTIC"@ {
        assert(svm_forward_text(input, output, field, c) =~= "let "@ + output + " = { let y = "@ + kc
            + "; (y.neg().exp() + 1.0).recip() };"@);
    }
    if transform_of(c) == "SOFTMAX"@ {
        assert(svm_forward_text(input, output, field, c) =~= "let "@ + output + " = { let y = "@ + kc
            + "; y.exp() / y.exp().sum_dim(0) };"@);
    }
}

proof fn lemma_linear_binds_rho(input: Seq<char>, field: Seq<char>, rho: F32ValueView)
    ensures
        contains(linear_text(input, field, rho), "let rho = "@ + f32_literal(rho) + ";"@),
{
    assert("{\n    "@ + "let rho = "@ + f32_literal(rho) + ";"@ =~= "{\n    "@ + ("let rho = "@ + f32_literal(rho) + ";"@) + Seq::<char>::empty());
    lemma_contains_within("{\n    "@, "let rho = "@ + f32_literal(rho) + ";"@, Seq::<char>::empty());
    lemma_contains_left("{\n    "@ + "let rho = "@ + f32_literal(rho) + ";"@, "\n    let (coef, sv) = &self."@, "let rho = "@ + f32_literal(rho) + ";"@);
    lemma_contains_left("{\n    "@ + "let rho = "@ + f32_literal(rho) + ";"@ + "\n    let (coef, sv) = &self."@, field, "let rho = "@ + f32_literal(rho) + ";"@);
    lemma_contains_left("{\n    "@ + "let rho = "@ + f32_literal(rho) + ";"@ + "\n    let (coef, sv) = &self."@ + field, ";\n    "@, "let rho = "@ + f32_literal(rho) + ";"@);
    lemma_contains_left("{\n    "@ + "let rho = "@ + f32_literal(rho) + ";"@ + "\n    let (coef, sv) = &self."@ + field + ";\n    "@, "let kernel_values = "@, "let rho = "@ + f32_literal(rho) + ";"@);
    lemma_contains_left("{\n    "@ + "let rho = "@ + f32_literal(rho) + ";"@ + "\n    let (coef, sv) = &self."@ + field + ";\n    "@ + "let kernel_values = "@, input, "let rho = "@ + f32_literal(rho) + ";"@);
    lemma_contains_left("{\n    "@ + "let rho = "@ + f32_literal(rho) + ";"@ + "\n    let (coef, sv) = &self."@ + field + ";\n    "@ + "let kernel_values = "@ + input, ".matmul(sv.clone().transpose());"@, "let rho = "@ + f32_literal(rho) + ";"@);
    lemma_contains_left("{\n    "@ + "let rho = "@ + f32_literal(rho) + ";"@ + "\n    let (coef, sv) = &self."@ + field + ";\n    "@ + "let kernel_values = "@ + input + ".matmul(sv.clone().transpose());"@, kernel_tail_text(), "let rho = "@ + f32_literal(rho) + ";"@);
}

proof fn lemma_rbf_binds_rho(input: Seq<char>, field: Seq<char>, rho: F32ValueView, gamma: F32ValueView, n: nat)
    ensures
        contains(rbf_text(input, field, rho, gamma, n), "let rho = "@ + f32_literal(rho) + ";"@),
{
    assert("{\n    "@ + "let rho = "@ + f32_literal(rho) + ";"@ =~= "{\n    "@ + ("let rho = "@ + f32_literal(rho) + ";"@) + Seq::<char>::empty());
    lemma_contains_within("{\n    "@, "let rho = "@ + f32_literal(rho) + ";"@, Seq::<char>::empty());
    lemma_contains_left("{\n    "@ + "let rho = "@ + f32_literal(rho) + ";"@, "\n    let gamma = "@, "let rho = "@ + f32_literal(rho) + ";"@);
    lemma_contains_left("{\n    "@ + "let rho = "@ + f32_literal(rho) + ";"@ + "\n    let gamma = "@, f32_literal(gamma), "let rho = "@ + f32_literal(rho) + ";"@);
    lemma_contains_left("{\n    "@ + "let rho = "@ + f32_literal(rho) + ";"@ + "\n    let gamma = "@ + f32_literal(gamma), ";\n    let n_supports = "@, "let rho = "@ + f32_literal(rho) + ";"@);
    lemma_contains_left("{\n    "@ + "let rho = "@ + f32_literal(rho) + ";"@ + "\n    let gamma = "@ + f32_literal(gamma) + ";\n    let n_supports = "@, usize_literal(n), "let rho = "@ + f32_literal(rho) + ";"@);
    lemma_contains_left("{\n    "@ + "let rho = "@ + f32_literal(rho) + ";"@ + "\n    let gamma = "@ + f32_literal(gamma) + ";\n    let n_supports = "@ + usize_literal(n), ";\n    let (coef, sv) = &self."@, "let rho = "@ + f32_literal(rho) + ";"@);
    lemma_contains_left("{\n    "@ + "let rho = "@ + f32_literal(rho) + ";"@ + "\n    let gamma = "@ + f32_literal(gamma) + ";\n    let n_supports = "@ + usize_literal(n) + ";\n    let (coef, sv) = &self."@, field, "let rho = "@ + f32_literal(rho) + ";"@);
    lemma_contains_left("{\n    "@ + "let rho = "@ + f32_literal(rho) + ";"@ + "\n    let gamma = "@ + f32_literal(gamma) + ";\n    let n_supports = "@ + usize_literal(n) + ";\n    let (coef, sv) = &self."@ + field, ";\n    let input_shape = "@, "let rho = "@ + f32_literal(rho) + ";"@);
    lemma_contains_left("{\n    "@ + "let rho = "@ + f32_literal(rho) + ";"@ + "\n    let gamma = "@ + f32_literal(gamma) + ";\n    let n_supports = "@ + usize_literal(n) + ";\n    let (coef, sv) = &self."@ + field + ";\n    let input_shape = "@, input, "let rho = "@ + f32_literal(rho) + ";"@);
    lemma_contains_left("{\n    "@ + "let rho = "@ + f32_literal(rho) + ";"@ + "\n    let gamma = "@ + f32_literal(gamma) + ";\n    let n_supports = "@ + usize_literal(n) + ";\n    let (coef, sv) = &self."@ + field + ";\n    let input_shape = "@ + input, ".shape();\n    let batch_size = input_shape.dims[0];\n    let mut kernel_values = Tensor::<B, 2>::zeros([batch_size, n_supports], &*self.device);\n    for i in 0..n_supports {\n        let sv_i = sv.clone().narrow(0, i, 1);\n        "@, "let rho = "@ + f32_literal(rho) + ";"@);
    lemma_contains_left("{\n    "@ + "let rho = "@ + f32_literal(rho) + ";"@ + "\n    let gamma = "@ + f32_literal(gamma) + ";\n    let n_supports = "@ + usize_literal(n) + ";\n    let (coef, sv) = &self."@ + field + ";\n    let input_shape = "@ + input + ".shape();\n    let batch_size = input_shape.dims[0];\n    let mut kernel_values = Tensor::<B, 2>::zeros([batch_size, n_supports], &*self.device);\n    for i in 0..n_supports {\n        let sv_i = sv.clone().narrow(0, i, 1);\n        "@, "let diff = "@, "let rho = "@ + f32_literal(rho) + ";"@);
    lemma_contains_left("{\n    "@ + "let rho = "@ + f32_literal(rho) + ";"@ + "\n    let gamma = "@ + f32_literal(gamma) + ";\n    let n_supports = "@ + usize_literal(n) + ";\n    let (coef, sv) = &self."@ + field + ";\n    let input_shape = "@ + input + ".shape();\n    let batch_size = input_shape.dims[0];\n    let mut kernel_values = Tensor::<B, 2>::zeros([batch_size, n_supports], &*self.device);\n    for i in 0..n_supports {\n        let sv_i = sv.clone().narrow(0, i, 1);\n        "@ + "let diff = "@, input, "let rho = "@ + f32_literal(rho) + ";"@);
    lemma_contains_left("{\n    "@ + "let rho = "@ + f32_literal(rho) + ";"@ + "\n    let gamma = "@ + f32_literal(gamma) + ";\n    let n_supports = "@ + usize_literal(n) + ";\n    let (coef, sv) = &self."@ + field + ";\n    let input_shape = "@ + input + ".shape();\n    let batch_size = input_shape.dims[0];\n    let mut kernel_values = Tensor::<B, 2>::zeros([batch_size, n_supports], &*self.device);\n    for i in 0..n_supports {\n        let sv_i = sv.clone().narrow(0, i, 1);\n        "@ + "let diff = "@ + input, ".clone() - sv_i;"@, "let rho = "@ + f32_literal(rho) + ";"@);
    lemma_contains_left("{\n    "@ + "let rho = "@ + f32_literal(rho) + ";"@ + "\n    let gamma = "@ + f32_literal(gamma) + ";\n    let n_supports = "@ + usize_literal(n) + ";\n    let (coef, sv) = &self."@ + field + ";\n    let input_shape = "@ + input + ".shape();\n    let batch_size = input_shape.dims[0];\n    let mut kernel_values = Tensor::<B, 2>::zeros([batch_size, n_supports], &*self.device);\n    for i in 0..n_supports {\n        let sv_i = sv.clone().narrow(0, i, 1);\n        "@ + "let diff = "@ + input + ".clone() - sv_i;"@, "\n        "@, "let rho = "@ + f32_literal(rho) + ";"@);
    lemma_contains_left("{\n    "@ + "let rho = "@ + f32_literal(rho) + ";"@ + "\n    let gamma = "@ + f32_literal(gamma) + ";\n    let n_supports = "@ + usize_literal(n) + ";\n    let (coef, sv) = &self."@ + field + ";\n    let input_shape = "@ + input + ".shape();\n    let batch_size = input_shape.dims[0];\n    let mut kernel_values = Tensor::<B, 2>::zeros([batch_size, n_supports], &*self.device);\n    for i in 0..n_supports {\n        let sv_i = sv.clone().narrow(0, i, 1);\n        "@ + "let diff = "@ + input + ".clone() - sv_i;"@ + "\n        "@, "let sq_dist = diff.clone().powf_scalar(2.0).sum_dim(1);"@, "let rho = "@ + f32_literal(rho) + ";"@);
    lemma_contains_left("{\n    "@ + "let rho = "@ + f32_literal(rho) + ";"@ + "\n    let gamma = "@ + f32_literal(gamma) + ";\n    let n_supports = "@ + usize_literal(n) + ";\n    let (coef, sv) = &self."@ + field + ";\n    let input_shape = "@ + input + ".shape();\n    let batch_size = input_shape.dims[0];\n    let mut kernel_values = Tensor::<B, 2>::zeros([batch_size, n_supports], &*self.device);\n    for i in 0..n_supports {\n        let sv_i = sv.clone().narrow(0, i, 1);\n        "@ + "let diff = "@ + input + ".clone() - sv_i;"@ + "\n        "@ + "let sq_dist = diff.clone().powf_scalar(2.0).sum_dim(1);"@, "\n        "@, "let rho = "@ + f32_literal(rho) + ";"@);
    lemma_contains_left("{\n    "@ + "let rho = "@ + f32_literal(rho) + ";"@ + "\n    let gamma = "@ + f32_literal(gamma) + ";\n    let n_supports = "@ + usize_literal(n) + ";\n    let (coef, sv) = &self."@ + field + ";\n    let input_shape = "@ + input + ".shape();\n    let batch_size = input_shape.dims[0];\n    let mut kernel_values = Tensor::<B, 2>::zeros([batch_size, n_supports], &*self.device);\n    for i in 0..n_supports {\n        let sv_i = sv.clone().narrow(0, i, 1);\n        "@ + "let diff = "@ + input + ".clone() - sv_i;"@ + "\n        "@ + "let sq_dist = diff.clone().powf_scalar(2.0).sum_dim(1);"@ + "\n        "@, "let kernel_val = (-gamma * sq_dist).exp().reshape([batch_size, 1]);"@, "let rho = "@ + f32_literal(rho) + ";"@);
    lemma_contains_left("{\n    "@ + "let rho = "@ + f32_literal(rho) + ";"@ + "\n    let gamma = "@ + f32_literal(gamma) + ";\n    let n_supports = "@ + usize_literal(n) + ";\n    let (coef, sv) = &self."@ + field + ";\n    let input_shape = "@ + input + ".shape();\n    let batch_size = input_shape.dims[0];\n    let mut kernel_values = Tensor::<B, 2>::zeros([batch_size, n_supports], &*self.device);\n    for i in 0..n_supports {\n        let sv_i = sv.clone().narrow(0, i, 1);\n        "@ + "let diff = "@ + input + ".clone() - sv_i;"@ + "\n        "@ + "let sq_dist = diff.clone().powf_scalar(2.0).sum_dim(1);"@ + "\n        "@ + "let kernel_val = (-gamma * sq_dist).exp().reshape([batch_size, 1]);"@, "\n        kernel_values = kernel_values.slice_assign([0..batch_size as i64, i as i64..(i + 1) as i64], kernel_val);\n    }"@, "let rho = "@ + f32_literal(rho) + ";"@);
    lemma_contains_left("{\n    "@ + "let rho = "@ + f32_literal(rho) + ";"@ + "\n    let gamma = "@ + f32_literal(gamma) + ";\n    let n_supports = "@ + usize_literal(n) + ";\n    let (coef, sv) = &self."@ + field + ";\n    let input_shape = "@ + input + ".shape();\n    let batch_size = input_shape.dims[0];\n    let mut kernel_values = Tensor::<B, 2>::zeros([batch_size, n_supports], &*self.device);\n    for i in 0..n_supports {\n        let sv_i = sv.clone().narrow(0, i, 1);\n        "@ + "let diff = "@ + input + ".clone() - sv_i;"@ + "\n        "@ + "let sq_dist = diff.clone().powf_scalar(2.0).sum_dim(1);"@ + "\n        "@ + "let kernel_val = (-gamma * sq_dist).exp().reshape([batch_size, 1]);"@ + "\n        kernel_values = kernel_values.slice_assign([0..batch_size as i64, i as i64..(i + 1) as i64], kernel_val);\n    }"@, kernel_tail_text(), "let rho = "@ + f32_literal(rho) + ";"@);
}

proof fn lemma_poly_binds_rho(input: Seq<char>, field: Seq<char>, rho: F32ValueView, gamma: F32ValueView, coef0: F32ValueView, degree: F32ValueView)
    ensures
        contains(poly_text(input, field, rho, gamma, coef0, degree), "let rho = "@ + f32_literal(rho) + ";"@),
{
    assert("{\n    "@ + "let rho = "@ + f32_literal(rho) + ";"@ =~= "{\n    "@ + ("let rho = "@ + f32_literal(rho) + ";"@) + Seq::<char>::empty());
    lemma_contains_within("{\n    "@, "let rho = "@ + f32_literal(rho) + ";"@, Seq::<char>::empty());
    lemma_contains_left("{\n    "@ + "let rho = "@ + f32_literal(rho) + ";"@, "\n    let gamma = "@, "let rho = "@ + f32_literal(rho) + ";"@);
    lemma_contains_left("{\n    "@ + "let rho = "@ + f32_literal(rho) + ";"@ + "\n    let gamma = "@, f32_literal(gamma), "let rho = "@ + f32_literal(rho) + ";"@);
    lemma_contains_left("{\n    "@ + "let rho = "@ + f32_literal(rho) + ";"@ + "\n    let gamma = "@ + f32_literal(gamma), ";\n    let coef0 = "@, "let rho = "@ + f32_literal(rho) + ";"@);
    lemma_contains_left("{\n    "@ + "let rho = "@ + f32_literal(rho) + ";"@ + "\n    let gamma = "@ + f32_literal(gamma) + ";\n    let coef0 = "@, f32_literal(coef0), "let rho = "@ + f32_literal(rho) + ";"@);
    lemma_contains_left("{\n    "@ + "let rho = "@ + f32_literal(rho) + ";"@ + "\n    let gamma = "@ + f32_literal(gamma) + ";\n    let coef0 = "@ + f32_literal(coef0), ";\n    let degree = "@, "let rho = "@ + f32_literal(rho) + ";"@);
    lemma_contains_left("{\n    "@ + "let rho = "@ + f32_literal(rho) + ";"@ + "\n    let gamma = "@ + f32_literal(gamma) + ";\n    let coef0 = "@ + f32_literal(coef0) + ";\n    let degree = "@, f32_literal(degree), "let rho = "@ + f32_literal(rho) + ";"@);
    lemma_contains_left("{\n    "@ + "let rho = "@ + f32_literal(rho) + ";"@ + "\n    let gamma = "@ + f32_literal(gamma) + ";\n    let coef0 = "@ + f32_literal(coef0) + ";\n    let degree = "@ + f32_literal(degree), ";\n    let (coef, sv) = &self."@, "let rho = "@ + f32_literal(rho) + ";"@);
    lemma_contains_left("{\n    "@ + "let rho = "@ + f32_literal(rho) + ";"@ + "\n    let gamma = "@ + f32_literal(gamma) + ";\n    let coef0 = "@ + f32_literal(coef0) + ";\n    let degree = "@ + f32_literal(degree) + ";\n    let (coef, sv) = &self."@, field, "let rho = "@ + f32_literal(rho) + ";"@);
    lemma_contains_left("{\n    "@ + "let rho = "@ + f32_literal(rho) + ";"@ + "\n    let gamma = "@ + f32_literal(gamma) + ";\n    let coef0 = "@ + f32_literal(coef0) + ";\n    let degree = "@ + f32_literal(degree) + ";\n    let (coef, sv) = &self."@ + field, ";\n    let dot_products = "@, "let rho = "@ + f32_literal(rho) + ";"@);
    lemma_contains_left("{\n    "@ + "let rho = "@ + f32_literal(rho) + ";"@ + "\n    let gamma = "@ + f32_literal(gamma) + ";\n    let coef0 = "@ + f32_literal(coef0) + ";\n    let degree = "@ + f32_literal(degree) + ";\n    let (coef, sv) = &self."@ + field + ";\n    let dot_products = "@, input, "let rho = "@ + f32_literal(rho) + ";"@);
    lemma_contains_left("{\n    "@ + "let rho = "@ + f32_literal(rho) + ";"@ + "\n    let gamma = "@ + f32_literal(gamma) + ";\n    let coef0 = "@ + f32_literal(coef0) + ";\n    let degree = "@ + f32_literal(degree) + ";\n    let (coef, sv) = &self."@ + field + ";\n    let dot_products = "@ + input, ".matmul(sv.clone().transpose());\n    "@, "let rho = "@ + f32_literal(rho) + ";"@);
    lemma_contains_left("{\n    "@ + "let rho = "@ + f32_literal(rho) + ";"@ + "\n    let gamma = "@ + f32_literal(gamma) + ";\n    let coef0 = "@ + f32_literal(coef0) + ";\n    let degree = "@ + f32_literal(degree) + ";\n    let (coef, sv) = &self."@ + field + ";\n    let dot_products = "@ + input + ".matmul(sv.clone().transpose());\n    "@, "let kernel_values = (dot_products * gamma + coef0).powf_scalar(degree);"@, "let rho = "@ + f32_literal(rho) + ";"@);
    lemma_contains_left("{\n    "@ + "let rho = "@ + f32_literal(rho) + ";"@ + "\n    let gamma = "@ + f32_literal(gamma) + ";\n    let coef0 = "@ + f32_literal(coef0) + ";\n    let degree = "@ + f32_literal(degree) + ";\n    let (coef, sv) = &self."@ + field + ";\n    let dot_products = "@ + input + ".matmul(sv.clone().transpose());\n    "@ + "let kernel_values = (dot_products * gamma + coef0).powf_scalar(degree);"@, kernel_tail_text(), "let rho = "@ + f32_literal(rho) + ";"@);
}

proof fn lemma_sigmoid_binds_rho(input: Seq<char>, field: Seq<char>, rho: F32ValueView, gamma: F32ValueView, coef0: F32ValueView)
    ensures
        contains(sigmoid_text(input, field, rho, gamma, coef0), "let rho = "@ + f32_literal(rho) + ";"@),
{
    assert("{\n    "@ + "let rho = "@ + f32_literal(rho) + ";"@ =~= "{\n    "@ + ("let rho = "@ + f32_literal(rho) + ";"@) + Seq::<char>::empty());
    lemma_contains_within("{\n    "@, "let rho = "@ + f32_literal(rho) + ";"@, Seq::<char>::empty());
    lemma_contains_left("{\n    "@ + "let rho = "@ + f32_literal(rho) + ";"@, "\n    let gamma = "@, "let rho = "@ + f32_literal(rho) + ";"@);
    lemma_contains_left("{\n    "@ + "let rho = "@ + f32_literal(rho) + ";"@ + "\n    let gamma = "@, f32_literal(gamma), "let rho = "@ + f32_literal(rho) + ";"@);
    lemma_contains_left("{\n    "@ + "let rho = "@ + f32_literal(rho) + ";"@ + "\n    let gamma = "@ + f32_literal(gamma), ";\n    let coef0 = "@, "let rho = "@ + f32_literal(rho) + ";"@);
    lemma_contains_left("{\n    "@ + "let rho = "@ + f32_literal(rho) + ";"@ + "\n    let gamma = "@ + f32_literal(gamma) + ";\n    let coef0 = "@, f32_literal(coef0), "let rho = "@ + f32_literal(rho) + ";"@);
    lemma_contains_left("{\n    "@ + "let rho = "@ + f32_literal(rho) + ";"@ + "\n    let gamma = "@ + f32_literal(gamma) + ";\n    let coef0 = "@ + f32_literal(coef0), ";\n    let (coef, sv) = &self."@, "let rho = "@ + f32_literal(rho) + ";"@);
    lemma_contains_left("{\n    "@ + "let rho = "@ + f32_literal(rho) + ";"@ + "\n    let gamma = "@ + f32_literal(gamma) + ";\n    let coef0 = "@ + f32_literal(coef0) + ";\n    let (coef, sv) = &self."@, field, "let rho = "@ + f32_literal(rho) + ";"@);
    lemma_contains_left("{\n    "@ + "let rho = "@ + f32_literal(rho) + ";"@ + "\n    let gamma = "@ + f32_literal(gamma) + ";\n    let coef0 = "@ + f32_literal(coef0) + ";\n    let (coef, sv) = &self."@ + field, ";\n    let dot_products = "@, "let rho = "@ + f32_literal(rho) + ";"@);
    lemma_contains_left("{\n    "@ + "let rho = "@ + f32_literal(rho) + ";"@ + "\n    let gamma = "@ + f32_literal(gamma) + ";\n    let coef0 = "@ + f32_literal(coef0) + ";\n    let (coef, sv) = &self."@ + field + ";\n    let dot_products = "@, input, "let rho = "@ + f32_literal(rho) + ";"@);
    lemma_contains_left("{\n    "@ + "let rho = "@ + f32_literal(rho) + ";"@ + "\n    let gamma = "@ + f32_literal(gamma) + ";\n    let coef0 = "@ + f32_literal(coef0) + ";\n    let (coef, sv) = &self."@ + field + ";\n    let dot_products = "@ + input, ".matmul(sv.clone().transpose());\n    "@, "let rho = "@ + f32_literal(rho) + ";"@);
    lemma_contains_left("{\n    "@ + "let rho = "@ + f32_literal(rho) + ";"@ + "\n    let gamma = "@ + f32_literal(gamma) + ";\n    let coef0 = "@ + f32_literal(coef0) + ";\n    let (coef, sv) = &self."@ + field + ";\n    let dot_products = "@ + input + ".matmul(sv.clone().transpose());\n    "@, "let kernel_values = (dot_products * gamma + coef0).tanh();"@, "let rho = "@ + f32_literal(rho) + ";"@);
    lemma_contains_left("{\n    "@ + "let rho = "@ + f32_literal(rho) + ";"@ + "\n    let gamma = "@ + f32_literal(gamma) + ";\n    let coef0 = "@ + f32_literal(coef0) + ";\n    let (coef, sv) = &self."@ + field + ";\n    let dot_products = "@ + input + ".matmul(sv.clone().transpose());\n    "@ + "let kernel_values = (dot_products * gamma + coef0).tanh();"@, kernel_tail_text(), "let rho = "@ + f32_literal(rho) + ";"@);
}

/// Every kernel binds `rho` to the first value of the `rho` attribute, or to 0
/// when there is none, and adds it to the weighted sum of the kernel values.
pub proof fn lemma_svm_bias_is_first_rho(input: Seq<char>, output: Seq<char>, field: Seq<char>, c: SVMRegressorConfigView)
    requires
        has_data(c),
        kernel_of(c) == "LINEAR"@ || kernel_of(c) == "RBF"@ || kernel_of(c) == "POLY"@ || kernel_of(c) == "SIGMOID"@,
    ensures
        contains(
            svm_forward_text(input, output, field, c),
            "let rho = "@ + (if c.rho is Some && c.rho.unwrap().len() > 0 { c.rho.unwrap()[0].text } else { "0"@ })
                + "f32"@ + ";"@,
        ),
        contains(svm_forward_text(input, output, field, c), "\n    let result = kernel_values.matmul(coef.clone()) + rho;\n    result\n}"@),
{
    reveal_strlit("LINEAR");
    reveal_strlit("RBF");
    reveal_strlit("POLY");
    reveal_strlit("SIGMOID");
    assert("LINEAR"@.len() == 6 && "RBF"@.len() == 3 && "POLY"@.len() == 4 && "SIGMOID"@.len() == 7);
    let rho = rho_of(c);
    let k = kernel_of(c);
    if k == "LINEAR"@ {
        lemma_linear_binds_rho(input, field, rho);
    } else if k == "RBF"@ {
        lemma_rbf_binds_rho(input, field, rho, value_or(c.kernel_params, 0, tenth_value()), supports_count(c) as nat);
    } else if k == "POLY"@ {
        lemma_poly_binds_rho(
            input,
            field,
            rho,
            value_or(c.kernel_params, 0, one_value()),
            value_or(c.kernel_params, 1, zero_value()),
            value_or(c.kernel_params, 2, three_value()),
        );
    } else {
        lemma_sigmoid_binds_rho(input, field, rho, value_or(c.kernel_params, 0, one_value()), value_or(c.kernel_params, 1, zero_value()));
    }
    assert("let rho = "@ + f32_literal(rho) + ";"@ == "let rho = "@ + (if c.rho is Some && c.rho.unwrap().len() > 0 { c.rho.unwrap()[0].text } else { "0"@ }) + "f32"@ + ";"@);
    lemma_kernel_part_in_forward(input, output, field, c, "let rho = "@ + f32_literal(rho) + ";"@);
    let kt = kernel_text(input, field, c);
    let tail = "\n    let result = kernel_values.matmul(coef.clone()) + rho;\n    result\n}"@;
    lemma_svm_kernels_add_bias(input, field, c);
    let head = kt.subrange(0, kt.len() - tail.len());
    assert(kt =~= head + tail + Seq::<char>::empty());
    lemma_contains_within(head, tail, Seq::<char>::empty());
    lemma_kernel_part_in_forward(input, output, field, c, tail);
}

proof fn lemma_ends_with_tail(prefix: Seq<char>)
    ensures
        kernel_tail_text().is_suffix_of(prefix + kernel_tail_text()),
{
    let whole = prefix + kernel_tail_text();
    assert(kernel_tail_text() =~= whole.subrange(prefix.len() as int, whole.len() as int));
}

/// Every kernel adds the bias: with coefficients and support vectors and one of
/// the four kernel types, the kernel computation ends with
/// `kernel_values.matmul(coef.clone()) + rho`, the weighted sum plus `rho`.
pub proof fn lemma_svm_kernels_add_bias(input: Seq<char>, field: Seq<char>, c: SVMRegressorConfigView)
    requires
        has_data(c),
        kernel_of(c) == "LINEAR"@ || kernel_of(c) == "RBF"@ || kernel_of(c) == "POLY"@ || kernel_of(c)
            == "SIGMOID"@,
    ensures
        kernel_tail_text().is_suffix_of(kernel_text(input, field, c)),
        "\n    let result = kernel_values.matmul(coef.clone()) + rho;\n    result\n}"@.is_suffix_of(kernel_text(input, field, c)),
{
    let t = kernel_text(input, field, c);
    let head = t.subrange(0, t.len() - kernel_tail_text().len());
    assert(t =~= head + kernel_tail_text());
    lemma_ends_with_tail(head);
}

/// The kernel computation `kc` with the post transform applied.
pub open spec fn transformed_text(kc: Seq<char>, p: Seq<char>) -> Seq<char> {
    if p == "LOGISTIC"@ {
        "{ let y = "@ + kc + "; "@ + "(y.neg().exp() + 1.0).recip()"@ + " }"@
    } else if p == "SOFTMAX"@ {
        "{ let y = "@ + kc + "; "@ + "y.exp() / y.exp().sum_dim(0)"@ + " }"@
    } else if p == "SOFTMAX_ZERO"@ {
        "{\n    let y = "@ + kc
            + ";\n    let zeros = y.zeros_like();\n    let combined = Tensor::cat(vec![y, zeros], 0);\n    combined.exp() / combined.exp().sum_dim(0)\n}"@
    } else if p == "PROBIT"@ {
        "{ let y = "@ + kc + "; y }"@
    } else {
        kc
    }
}

/// The code of the forward step.
pub open spec fn svm_forward_text(input: Seq<char>, output: Seq<char>, field: Seq<char>, c: SVMRegressorConfigView) -> Seq<
    char,
> {
    "let "@ + output + " = "@ + transformed_text(kernel_text(input, field, c), transform_of(c)) + ";"@
}

/// Whether every float that the forward step writes out is finite.
pub open spec fn svm_literals_finite(c: SVMRegressorConfigView) -> bool {
    let k = kernel_of(c);
    has_data(c) ==> {
        &&& (k == "LINEAR"@ || k == "RBF"@ || k == "POLY"@ || k == "SIGMOID"@) ==> f32_bits_finite(
            rho_of(c).bits,
        )
        &&& (k == "RBF"@) ==> f32_bits_finite(value_or(c.kernel_params, 0, tenth_value()).bits)
        &&& (k == "POLY"@ || k == "SIGMOID"@) ==> {
            &&& f32_bits_finite(value_or(c.kernel_params, 0, one_value()).bits)
            &&& f32_bits_finite(value_or(c.kernel_params, 1, zero_value()).bits)
        }
        &&& (k == "POLY"@) ==> f32_bits_finite(value_or(c.kernel_params, 2, three_value()).bits)
    }
}

/// The field of the model, when there are coefficients and support vectors and
/// the number of support vectors is not 0: the two tensors, the support
/// vectors as `n_supports` rows of `len / n_supports` features.
pub open spec fn svm_field(name: Seq<char>, c: SVMRegressorConfigView) -> Option<(Seq<char>, Seq<char>, Seq<char>)> {
    match (c.coefficients, c.support_vectors) {
        (Some(coef), Some(sv)) => {
            let n = supports_count(c) as nat;
            if coef.len() == 0 || sv.len() == 0 || n == 0 {
                None
            } else {
                Some(
                    (
                        name,
                        "(Tensor<B, 2>, Tensor<B, 2>)"@,
                        "let "@ + name
                            + " = (\n    Tensor::<B, 2>::from_data(\n        burn::tensor::TensorData::new(vec!["@
                            + comma_list(f32_literals(coef)) + "], ["@ + usize_literal(n)
                            + ", 1]),\n        device\n    ),\n    Tensor::<B, 2>::from_data(\n        burn::tensor::TensorData::new(vec!["@
                            + comma_list(f32_literals(sv)) + "], ["@ + usize_literal(n) + ", "@ + usize_literal(
                            sv.len() / n,
                        ) + "]),\n        device\n    )\n);"@,
                    ),
                )
            }
        },
        _ => None,
    }
}

/// Whether the floats that the field writes out, when there is one, are finite.
pub open spec fn svm_field_literals_finite(c: SVMRegressorConfigView) -> bool {
    match (c.coefficients, c.support_vectors) {
        (Some(coef), Some(sv)) => (coef.len() > 0 && sv.len() > 0 && supports_count(c) != 0) ==> {
            &&& crate::codegen::all_finite(coef)
            &&& crate::codegen::all_finite(sv)
        },
        _ => true,
    }
}

/// The field exists exactly when there are coefficients and support vectors,
/// neither empty, and a non-zero number of support vectors `n`; it is named
/// after the node and holds the coefficients as an `[n, 1]` tensor and the
/// support vectors as an `[n, len / n]` tensor, each in the attribute's order.
pub proof fn lemma_svm_field_holds_the_support_vectors(name: Seq<char>, c: SVMRegressorConfigView)
    ensures
        svm_field(name, c) is None <==> (c.coefficients is None || c.support_vectors is None
            || c.coefficients.unwrap().len() == 0 || c.support_vectors.unwrap().len() == 0 || (match c.n_supports {
            Some(k) => k as usize,
            None => 0usize,
        }) == 0),
        ({
            let coef = c.coefficients.unwrap();
            let sv = c.support_vectors.unwrap();
            let n = (match c.n_supports {
                Some(k) => k as usize,
                None => 0usize,
            }) as nat;
            svm_field(name, c) matches Some(f) ==> {
                &&& f.0 == name
                &&& f.1 == "(Tensor<B, 2>, Tensor<B, 2>)"@
                &&& contains(f.2, comma_list(f32_literals(coef)) + "], ["@ + usize_literal(n) + ", 1]"@)
                &&& contains(f.2, comma_list(f32_literals(sv)) + "], ["@ + usize_literal(n) + ", "@ + usize_literal(sv.len() / n) + "]"@)
            }
        }),
{
    if let Some(f) = svm_field(name, c) {
        let coef = c.coefficients.unwrap();
        let sv = c.support_vectors.unwrap();
        let n = supports_count(c) as nat;
        let h1 = "let "@ + name + " = (\n    Tensor::<B, 2>::from_data(\n        burn::tensor::TensorData::new(vec!["@;
        let t1 = ", 1]),\n        device\n    ),\n    Tensor::<B, 2>::from_data(\n        burn::tensor::TensorData::new(vec!["@ + comma_list(f32_literals(sv)) + "], ["@ + usize_literal(n) + ", "@ + usize_literal(sv.len() / n) + "]),\n        device\n    )\n);"@;
        assert(f.2 =~= h1 + (comma_list(f32_literals(coef)) + "], ["@ + usize_literal(n)) + t1);
        lemma_contains_within(h1, comma_list(f32_literals(coef)) + "], ["@ + usize_literal(n), t1);
        let h2 = "let "@ + name + " = (\n    Tensor::<B, 2>::from_data(\n        burn::tensor::TensorData::new(vec!["@ + comma_list(f32_literals(coef)) + "], ["@ + usize_literal(n) + ", 1]),\n        device\n    ),\n    Tensor::<B, 2>::from_data(\n        burn::tensor::TensorData::new(vec!["@;
        let t2 = "]),\n        device\n    )\n);"@;
        assert(f.2 =~= h2 + (comma_list(f32_literals(sv)) + "], ["@ + usize_literal(n) + ", "@ + usize_literal(sv.len() / n)) + t2);
        lemma_contains_within(h2, comma_list(f32_literals(sv)) + "], ["@ + usize_literal(n) + ", "@ + usize_literal(sv.len() / n), t2);
        reveal_strlit(", 1]),\n        device\n    ),\n    Tensor::<B, 2>::from_data(\n        burn::tensor::TensorData::new(vec![");
        reveal_strlit(", 1]");
        reveal_strlit("]),\n        device\n    )\n);");
        reveal_strlit("]");
        let a = ", 1]),\n        device\n    ),\n    Tensor::<B, 2>::from_data(\n        burn::tensor::TensorData::new(vec!["@;
        let b = "]),\n        device\n    )\n);"@;
        let x1 = comma_list(f32_literals(coef)) + "], ["@ + usize_literal(n) + ", 1]"@;
        assert(h1 + (comma_list(f32_literals(coef)) + "], ["@ + usize_literal(n)) + t1 =~= h1 + x1 + (a.subrange(4, a.len() as int) + comma_list(f32_literals(sv)) + "], ["@ + usize_literal(n) + ", "@ + usize_literal(sv.len() / n) + "]),\n        device\n    )\n);"@));
        lemma_contains_within(h1, x1, a.subrange(4, a.len() as int) + comma_list(f32_literals(sv)) + "], ["@ + usize_literal(n) + ", "@ + usize_literal(sv.len() / n) + "]),\n        device\n    )\n);"@);
        let x2 = comma_list(f32_literals(sv)) + "], ["@ + usize_literal(n) + ", "@ + usize_literal(sv.len() / n) + "]"@;
        assert(h2 + (comma_list(f32_literals(sv)) + "], ["@ + usize_literal(n) + ", "@ + usize_literal(sv.len() / n)) + t2 =~= h2 + x2 + b.subrange(1, b.len() as int));
        lemma_contains_within(h2, x2, b.subrange(1, b.len() as int));
    }
}

pub open spec fn field_view(f: Option<Field>) -> Option<(Seq<char>, Seq<char>, Seq<char>)> {
    match f {
        Some(f) => Some((f.name@, f.ty@, f.init@)),
        None => None,
    }
}

fn push_linear(out: &mut String, input: &str, field: &str, rho: &F32Value)
    ensures
        final(out)@ == old(out)@ + linear_text(input@, field@, rho@),
{
    out.append("{\n    ");
    out.append("let rho = ");
    push_f32_literal(out, rho);
    out.append(";");
    out.append("\n    let (coef, sv) = &self.");
    out.append(field);
    out.append(";\n    ");
    out.append("let kernel_values = ");
    out.append(input);
    out.append(".matmul(sv.clone().transpose());");
    out.append("\n    let result = kernel_values.matmul(coef.clone()) + rho;\n    result\n}");
    assert(final(out)@ =~= old(out)@ + linear_text(input@, field@, rho@));
}

fn push_rbf(out: &mut String, input: &str, field: &str, rho: &F32Value, gamma: &F32Value, n: usize)
    ensures
        final(out)@ == old(out)@ + rbf_text(input@, field@, rho@, gamma@, n as nat),
{
    out.append("{\n    ");
    out.append("let rho = ");
    push_f32_literal(out, rho);
    out.append(";");
    out.append("\n    let gamma = ");
    push_f32_literal(out, gamma);
    out.append(";\n    let n_supports = ");
    push_usize_literal(out, n);
    out.append(";\n    let (coef, sv) = &self.");
    out.append(field);
    out.append(";\n    let input_shape = ");
    out.append(input);
    out.append(
        ".shape();\n    let batch_size = input_shape.dims[0];\n    let mut kernel_values = Tensor::<B, 2>::zeros([batch_size, n_supports], &*self.device);\n    for i in 0..n_supports {\n        let sv_i = sv.clone().narrow(0, i, 1);\n        ");
    out.append("let diff = ");
    out.append(input);
    out.append(".clone() - sv_i;");
    out.append("\n        ");
    out.append("let sq_dist = diff.clone().powf_scalar(2.0).sum_dim(1);");
    out.append("\n        ");
    out.append("let kernel_val = (-gamma * sq_dist).exp().reshape([batch_size, 1]);");
    out.append(
        "\n        kernel_values = kernel_values.slice_assign([0..batch_size as i64, i as i64..(i + 1) as i64], kernel_val);\n    }",
    );
    out.append("\n    let result = kernel_values.matmul(coef.clone()) + rho;\n    result\n}");
    assert(final(out)@ =~= old(out)@ + rbf_text(input@, field@, rho@, gamma@, n as nat));
}

fn push_poly(
    out: &mut String,
    input: &str,
    field: &str,
    rho: &F32Value,
    gamma: &F32Value,
    coef0: &F32Value,
    degree: &F32Value,
)
    ensures
        final(out)@ == old(out)@ + poly_text(input@, field@, rho@, gamma@, coef0@, degree@),
{
    out.append("{\n    ");
    out.append("let rho = ");
    push_f32_literal(out, rho);
    out.append(";");
    out.append("\n    let gamma = ");
    push_f32_literal(out, gamma);
    out.append(";\n    let coef0 = ");
    push_f32_literal(out, coef0);
    out.append(";\n    let degree = ");
    push_f32_literal(out, degree);
    out.append(";\n    let (coef, sv) = &self.");
    out.append(field);
    out.append(";\n    let dot_products = ");
    out.append(input);
    out.append(".matmul(sv.clone().transpose());\n    ");
    out.append("let kernel_values = (dot_products * gamma + coef0).powf_scalar(degree);");
    out.append("\n    let result = kernel_values.matmul(coef.clone()) + rho;\n    result\n}");
    assert(final(out)@ =~= old(out)@ + poly_text(input@, field@, rho@, gamma@, coef0@, degree@));
}

fn push_sigmoid(out: &mut String, input: &str, field: &str, rho: &F32Value, gamma: &F32Value, coef0: &F32Value)
    ensures
        final(out)@ == old(out)@ + sigmoid_text(input@, field@, rho@, gamma@, coef0@),
{
    out.append("{\n    ");
    out.append("let rho = ");
    push_f32_literal(out, rho);
    out.append(";");
    out.append("\n    let gamma = ");
    push_f32_literal(out, gamma);
    out.append(";\n    let coef0 = ");
    push_f32_literal(out, coef0);
    out.append(";\n    let (coef, sv) = &self.");
    out.append(field);
    out.append(";\n    let dot_products = ");
    out.append(input);
    out.append(".matmul(sv.clone().transpose());\n    ");
    out.append("let kernel_values = (dot_products * gamma + coef0).tanh();");
    out.append("\n    let result = kernel_values.matmul(coef.clone()) + rho;\n    result\n}");
    assert(final(out)@ =~= old(out)@ + sigmoid_text(input@, field@, rho@, gamma@, coef0@));
}

impl SVMRegressorNode {
    /// The inputs of the node.
    pub fn inputs(&self) -> (r: &[Argument])
        ensures
            r@ == self.inputs@,
    {
        self.inputs.as_slice()
    }

    /// The outputs of the node.
    pub fn outputs(&self) -> (r: &[Argument])
        ensures
            r@ == self.outputs@,
    {
        self.outputs.as_slice()
    }

    /// The number of support vectors, as the generator reads it.
    pub fn supports(&self) -> (r: usize)
        ensures
            r == supports_count(self.config@),
    {
        match self.config.n_supports {
            Some(n) => n as usize,
            None => 0,
        }
    }

    /// The field holding the coefficients and the support vectors, when there is one.
    pub fn field(&self) -> (r: Option<Field>)
        requires
            svm_field_literals_finite(self.config@),
        ensures
            field_view(r) == svm_field(self.name@, self.config@),
    {
        let coefficients = match &self.config.coefficients {
            Some(c) => c,
            None => {
                return None;
            },
        };
        let support_vectors = match &self.config.support_vectors {
            Some(s) => s,
            None => {
                return None;
            },
        };
        let n = self.supports();
        if coefficients.len() == 0 || support_vectors.len() == 0 || n == 0 {
            return None;
        }
        let n_features = support_vectors.len() / n;
        let mut init = String::from_str("let ");
        init.append(self.name.as_str());
        init.append(" = (\n    Tensor::<B, 2>::from_data(\n        burn::tensor::TensorData::new(vec![");
        push_f32_literal_list(&mut init, coefficients);
        init.append("], [");
        push_usize_literal(&mut init, n);
        init.append(", 1]),\n        device\n    ),\n    Tensor::<B, 2>::from_data(\n        burn::tensor::TensorData::new(vec![");
        push_f32_literal_list(&mut init, support_vectors);
        init.append("], [");
        push_usize_literal(&mut init, n);
        init.append(", ");
        push_usize_literal(&mut init, n_features);
        init.append("]),\n        device\n    )\n);");
        let ghost expected = svm_field(self.name@, self.config@);
        assert(init@ =~= expected.unwrap().2);
        Some(Field { name: self.name.clone(), ty: String::from_str("(Tensor<B, 2>, Tensor<B, 2>)"), init })
    }

    /// The kernel computation, before the post transform.
    fn kernel_code(&self, input: &str) -> (r: String)
        ensures
            r@ == kernel_text(input@, self.name@, self.config@),
    {
        let mut s = String::new();
        let with_data = self.config.coefficients.is_some() && self.config.support_vectors.is_some();
        if !with_data {
            s.append(input);
            s.append(".clone()");
            assert(s@ =~= kernel_text(input@, self.name@, self.config@));
            return s;
        }
        let kernel = match &self.config.kernel_type {
            Some(k) => k.as_str(),
            None => "LINEAR",
        };
        let field = self.name.as_str();
        let rho = value_or_exec(&self.config.rho, 0, make_value(0, "0"));
        let params = &self.config.kernel_params;
        if same_text(kernel, "LINEAR") {
            push_linear(&mut s, input, field, &rho);
        } else if same_text(kernel, "RBF") {
            let gamma = value_or_exec(params, 0, make_value(0x3dcc_cccd, "0.1"));
            push_rbf(&mut s, input, field, &rho, &gamma, self.supports());
        } else if same_text(kernel, "POLY") {
            let gamma = value_or_exec(params, 0, make_value(0x3f80_0000, "1"));
            let coef0 = value_or_exec(params, 1, make_value(0, "0"));
            let degree = value_or_exec(params, 2, make_value(0x4040_0000, "3"));
            push_poly(&mut s, input, field, &rho, &gamma, &coef0, &degree);
        } else if same_text(kernel, "SIGMOID") {
            let gamma = value_or_exec(params, 0, make_value(0x3f80_0000, "1"));
            let coef0 = value_or_exec(params, 1, make_value(0, "0"));
            push_sigmoid(&mut s, input, field, &rho, &gamma, &coef0);
        } else {
            s.append(input);
            s.append(".clone()");
        }
        assert(s@ =~= kernel_text(input@, self.name@, self.config@));
        s
    }

    /// The code of the forward step.
    pub fn forward(&self) -> (r: String)
        requires
            self.inputs.len() >= 1,
            self.outputs.len() >= 1,
            svm_literals_finite(self.config@),
        ensures
            r@ == svm_forward_text(self.inputs@[0].name@, self.outputs@[0].name@, self.name@, self.config@),
    {
        let input = self.inputs[0].name.as_str();
        let output = self.outputs[0].name.as_str();
        let kc = self.kernel_code(input);
        let transform = match &self.config.post_transform {
            Some(p) => p.as_str(),
            None => "NONE",
        };
        let mut s = String::from_str("let ");
        s.append(output);
        s.append(" = ");
        if same_text(transform, "LOGISTIC") {
            s.append("{ let y = ");
            s.append(kc.as_str());
            s.append("; ");
            s.append("(y.neg().exp() + 1.0).recip()");
            s.append(" }");
        } else if same_text(transform, "SOFTMAX") {
            s.append("{ let y = ");
            s.append(kc.as_str());
            s.append("; ");
            s.append("y.exp() / y.exp().sum_dim(0)");
            s.append(" }");
        } else if same_text(transform, "SOFTMAX_ZERO") {
            s.append("{\n    let y = ");
            s.append(kc.as_str());
            s.append(
                ";\n    let zeros = y.zeros_like();\n    let combined = Tensor::cat(vec![y, zeros], 0);\n    combined.exp() / combined.exp().sum_dim(0)\n}",
            );
        } else if same_text(transform, "PROBIT") {
            s.append("{ let y = ");
            s.append(kc.as_str());
            s.append("; y }");
        } else {
            s.append(kc.as_str());
        }
        s.append(";");
        assert(s@ =~= svm_forward_text(input@, output@, self.name@, self.config@));
        s
    }
}

} // verus!
