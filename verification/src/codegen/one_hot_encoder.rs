//! Code generation for OneHotEncoder.
//!
//! The model keeps the categories as a rank-1 float tensor in a field named
//! after the node; `forward` compares the input, with a trailing dimension
//! added, against that tensor reshaped to broadcast, and turns the boolean
//! result into floats. An earlier generator, kept as `lookup_forward`, looks
//! each input value up in an inline array of the integer categories instead.
use vstd::prelude::*;
use vstd::string::StringExecFns;
use crate::codegen::{Field, all_finite, f32_literals, ones_prefix, push_f32_literal_list, push_ones_prefix};
use crate::ir::{ArgType, ArgTypeView, Argument, DType, F32Value};
use crate::node::one_hot_encoder::{OneHotEncoderConfigView, OneHotEncoderNode, accepted, num_categories};
use crate::text::{comma_list, contains, i64_literals, lemma_contains_last_five, lemma_contains_left, lemma_contains_right, lemma_contains_within, push_i64_literal_list, push_usize_literal, usize_literal};

verus! {

/// The number of categories of a configuration, as the generated model holds
/// them: the integer categories if there are any, else the string categories,
/// else none.
pub open spec fn category_count(c: OneHotEncoderConfigView) -> nat {
    match c.cats_int64s {
        Some(v) => v.len(),
        None => match c.cats_strings {
            Some(s) => s.len(),
            None => 0,
        },
    }
}

/// For every configuration the node processor accepts, the generated model
/// holds as many categories as the processor counts.
pub proof fn lemma_generated_categories_match(c: OneHotEncoderConfigView)
    requires
        accepted(c),
    ensures
        category_count(c) == num_categories(c),
{
}

/// The input converted to a float tensor: as it is for float input, cast for
/// double input, converted then cast for integer input.
pub open spec fn as_float_text(input: Seq<char>, d: DType) -> Seq<char> {
    if d == DType::F32 {
        input + ".clone()"@
    } else if d == DType::F64 {
        input + ".cast(burn::tensor::DType::F32)"@
    } else {
        input + ".float().cast(burn::tensor::DType::F32)"@
    }
}

/// The code of the forward step: the input of rank `rank` gets a trailing
/// dimension, is compared with the category tensor of the field `field`
/// reshaped to `[1, .., 1, n]`, and the result is converted to floats.
pub open spec fn encoder_forward_text(
    input: Seq<char>,
    output: Seq<char>,
    field: Seq<char>,
    d: DType,
    rank: nat,
    n: nat,
) -> Seq<char> {
    "let "@ + output + " = {\n    "@ + "let x = "@ + as_float_text(input, d) + ";\n    "@ + "let x_unsqueezed = x.unsqueeze_dim("@
        + usize_literal(rank) + ");\n    "@ + "let cats = self."@ + field + ".clone().reshape(["@ + ones_prefix(rank)
        + usize_literal(n) + "]);\n    "@ + "x_unsqueezed.equal(cats).float().cast(burn::tensor::DType::F32)"@ + "\n};"@
}

proof fn lemma_encoder_converts_input(input: Seq<char>, output: Seq<char>, field: Seq<char>, d: DType, rank: nat, n: nat)
    ensures
        contains(encoder_forward_text(input, output, field, d, rank, n), "let x = "@ + as_float_text(input, d)),
{
    lemma_contains_within("let "@ + output + " = {\n    "@, "let x = "@ + as_float_text(input, d), Seq::<char>::empty());
    assert("let "@ + output + " = {\n    "@ + ("let x = "@ + as_float_text(input, d)) + Seq::<char>::empty() =~= "let "@ + output + " = {\n    "@ + "let x = "@ + as_float_text(input, d));
    lemma_contains_left("let "@ + output + " = {\n    "@ + "let x = "@ + as_float_text(input, d), ";\n    "@, "let x = "@ + as_float_text(input, d));
    lemma_contains_left("let "@ + output + " = {\n    "@ + "let x = "@ + as_float_text(input, d) + ";\n    "@, "let x_unsqueezed = x.unsqueeze_dim("@, "let x = "@ + as_float_text(input, d));
    lemma_contains_left("let "@ + output + " = {\n    "@ + "let x = "@ + as_float_text(input, d) + ";\n    "@ + "let x_unsqueezed = x.unsqueeze_dim("@, usize_literal(rank), "let x = "@ + as_float_text(input, d));
    lemma_contains_left("let "@ + output + " = {\n    "@ + "let x = "@ + as_float_text(input, d) + ";\n    "@ + "let x_unsqueezed = x.unsqueeze_dim("@ + usize_literal(rank), ");\n    "@, "let x = "@ + as_float_text(input, d));
    lemma_contains_left("let "@ + output + " = {\n    "@ + "let x = "@ + as_float_text(input, d) + ";\n    "@ + "let x_unsqueezed = x.unsqueeze_dim("@ + usize_literal(rank) + ");\n    "@, "let cats = self."@, "let x = "@ + as_float_text(input, d));
    lemma_contains_left("let "@ + output + " = {\n    "@ + "let x = "@ + as_float_text(input, d) + ";\n    "@ + "let x_unsqueezed = x.unsqueeze_dim("@ + usize_literal(rank) + ");\n    "@ + "let cats = self."@, field, "let x = "@ + as_float_text(input, d));
    lemma_contains_left("let "@ + output + " = {\n    "@ + "let x = "@ + as_float_text(input, d) + ";\n    "@ + "let x_unsqueezed = x.unsqueeze_dim("@ + usize_literal(rank) + ");\n    "@ + "let cats = self."@ + field, ".clone().reshape(["@, "let x = "@ + as_float_text(input, d));
    lemma_contains_left("let "@ + output + " = {\n    "@ + "let x = "@ + as_float_text(input, d) + ";\n    "@ + "let x_unsqueezed = x.unsqueeze_dim("@ + usize_literal(rank) + ");\n    "@ + "let cats = self."@ + field + ".clone().reshape(["@, ones_prefix(rank), "let x = "@ + as_float_text(input, d));
    lemma_contains_left("let "@ + output + " = {\n    "@ + "let x = "@ + as_float_text(input, d) + ";\n    "@ + "let x_unsqueezed = x.unsqueeze_dim("@ + usize_literal(rank) + ");\n    "@ + "let cats = self."@ + field + ".clone().reshape(["@ + ones_prefix(rank), usize_literal(n), "let x = "@ + as_float_text(input, d));
    lemma_contains_left("let "@ + output + " = {\n    "@ + "let x = "@ + as_float_text(input, d) + ";\n    "@ + "let x_unsqueezed = x.unsqueeze_dim("@ + usize_literal(rank) + ");\n    "@ + "let cats = self."@ + field + ".clone().reshape(["@ + ones_prefix(rank) + usize_literal(n), "]);\n    "@, "let x = "@ + as_float_text(input, d));
    lemma_contains_left("let "@ + output + " = {\n    "@ + "let x = "@ + as_float_text(input, d) + ";\n    "@ + "let x_unsqueezed = x.unsqueeze_dim("@ + usize_literal(rank) + ");\n    "@ + "let cats = self."@ + field + ".clone().reshape(["@ + ones_prefix(rank) + usize_literal(n) + "]);\n    "@, "x_unsqueezed.equal(cats).float().cast(burn::tensor::DType::F32)"@, "let x = "@ + as_float_text(input, d));
    lemma_contains_left("let "@ + output + " = {\n    "@ + "let x = "@ + as_float_text(input, d) + ";\n    "@ + "let x_unsqueezed = x.unsqueeze_dim("@ + usize_literal(rank) + ");\n    "@ + "let cats = self."@ + field + ".clone().reshape(["@ + ones_prefix(rank) + usize_literal(n) + "]);\n    "@ + "x_unsqueezed.equal(cats).float().cast(burn::tensor::DType::F32)"@, "\n};"@, "let x = "@ + as_float_text(input, d));
}

proof fn lemma_encoder_adds_trailing_dimension(input: Seq<char>, output: Seq<char>, field: Seq<char>, d: DType, rank: nat, n: nat)
    ensures
        contains(encoder_forward_text(input, output, field, d, rank, n), "let x_unsqueezed = x.unsqueeze_dim("@ + usize_literal(rank)),
{
    lemma_contains_within("let "@ + output + " = {\n    "@ + "let x = "@ + as_float_text(input, d) + ";\n    "@, "let x_unsqueezed = x.unsqueeze_dim("@ + usize_literal(rank), Seq::<char>::empty());
    assert("let "@ + output + " = {\n    "@ + "let x = "@ + as_float_text(input, d) + ";\n    "@ + ("let x_unsqueezed = x.unsqueeze_dim("@ + usize_literal(rank)) + Seq::<char>::empty() =~= "let "@ + output + " = {\n    "@ + "let x = "@ + as_float_text(input, d) + ";\n    "@ + "let x_unsqueezed = x.unsqueeze_dim("@ + usize_literal(rank));
    lemma_contains_left("let "@ + output + " = {\n    "@ + "let x = "@ + as_float_text(input, d) + ";\n    "@ + "let x_unsqueezed = x.unsqueeze_dim("@ + usize_literal(rank), ");\n    "@, "let x_unsqueezed = x.unsqueeze_dim("@ + usize_literal(rank));
    lemma_contains_left("let "@ + output + " = {\n    "@ + "let x = "@ + as_float_text(input, d) + ";\n    "@ + "let x_unsqueezed = x.unsqueeze_dim("@ + usize_literal(rank) + ");\n    "@, "let cats = self."@, "let x_unsqueezed = x.unsqueeze_dim("@ + usize_literal(rank));
    lemma_contains_left("let "@ + output + " = {\n    "@ + "let x = "@ + as_float_text(input, d) + ";\n    "@ + "let x_unsqueezed = x.unsqueeze_dim("@ + usize_literal(rank) + ");\n    "@ + "let cats = self."@, field, "let x_unsqueezed = x.unsqueeze_dim("@ + usize_literal(rank));
    lemma_contains_left("let "@ + output + " = {\n    "@ + "let x = "@ + as_float_text(input, d) + ";\n    "@ + "let x_unsqueezed = x.unsqueeze_dim("@ + usize_literal(rank) + ");\n    "@ + "let cats = self."@ + field, ".clone().reshape(["@, "let x_unsqueezed = x.unsqueeze_dim("@ + usize_literal(rank));
    lemma_contains_left("let "@ + output + " = {\n    "@ + "let x = "@ + as_float_text(input, d) + ";\n    "@ + "let x_unsqueezed = x.unsqueeze_dim("@ + usize_literal(rank) + ");\n    "@ + "let cats = self."@ + field + ".clone().reshape(["@, ones_prefix(rank), "let x_unsqueezed = x.unsqueeze_dim("@ + usize_literal(rank));
    lemma_contains_left("let "@ + output + " = {\n    "@ + "let x = "@ + as_float_text(input, d) + ";\n    "@ + "let x_unsqueezed = x.unsqueeze_dim("@ + usize_literal(rank) + ");\n    "@ + "let cats = self."@ + field + ".clone().reshape(["@ + ones_prefix(rank), usize_literal(n), "let x_unsqueezed = x.unsqueeze_dim("@ + usize_literal(rank));
    lemma_contains_left("let "@ + output + " = {\n    "@ + "let x = "@ + as_float_text(input, d) + ";\n    "@ + "let x_unsqueezed = x.unsqueeze_dim("@ + usize_literal(rank) + ");\n    "@ + "let cats = self."@ + field + ".clone().reshape(["@ + ones_prefix(rank) + usize_literal(n), "]);\n    "@, "let x_unsqueezed = x.unsqueeze_dim("@ + usize_literal(rank));
    lemma_contains_left("let "@ + output + " = {\n    "@ + "let x = "@ + as_float_text(input, d) + ";\n    "@ + "let x_unsqueezed = x.unsqueeze_dim("@ + usize_literal(rank) + ");\n    "@ + "let cats = self."@ + field + ".clone().reshape(["@ + ones_prefix(rank) + usize_literal(n) + "]);\n    "@, "x_unsqueezed.equal(cats).float().cast(burn::tensor::DType::F32)"@, "let x_unsqueezed = x.unsqueeze_dim("@ + usize_literal(rank));
    lemma_contains_left("let "@ + output + " = {\n    "@ + "let x = "@ + as_float_text(input, d) + ";\n    "@ + "let x_unsqueezed = x.unsqueeze_dim("@ + usize_literal(rank) + ");\n    "@ + "let cats = self."@ + field + ".clone().reshape(["@ + ones_prefix(rank) + usize_literal(n) + "]);\n    "@ + "x_unsqueezed.equal(cats).float().cast(burn::tensor::DType::F32)"@, "\n};"@, "let x_unsqueezed = x.unsqueeze_dim("@ + usize_literal(rank));
}

proof fn lemma_encoder_reshapes_categories(input: Seq<char>, output: Seq<char>, field: Seq<char>, d: DType, rank: nat, n: nat)
    ensures
        contains(encoder_forward_text(input, output, field, d, rank, n), "let cats = self."@ + field + ".clone().reshape(["@ + ones_prefix(rank) + usize_literal(n)),
{
    let h = "let "@ + output + " = {\n    "@ + "let x = "@ + as_float_text(input, d) + ";\n    "@ + "let x_unsqueezed = x.unsqueeze_dim("@ + usize_literal(rank) + ");\n    "@;
    lemma_contains_last_five(h, "let cats = self."@, field, ".clone().reshape(["@, ones_prefix(rank), usize_literal(n));
    lemma_contains_left("let "@ + output + " = {\n    "@ + "let x = "@ + as_float_text(input, d) + ";\n    "@ + "let x_unsqueezed = x.unsqueeze_dim("@ + usize_literal(rank) + ");\n    "@ + "let cats = self."@ + field + ".clone().reshape(["@ + ones_prefix(rank) + usize_literal(n), "]);\n    "@, "let cats = self."@ + field + ".clone().reshape(["@ + ones_prefix(rank) + usize_literal(n));
    lemma_contains_left("let "@ + output + " = {\n    "@ + "let x = "@ + as_float_text(input, d) + ";\n    "@ + "let x_unsqueezed = x.unsqueeze_dim("@ + usize_literal(rank) + ");\n    "@ + "let cats = self."@ + field + ".clone().reshape(["@ + ones_prefix(rank) + usize_literal(n) + "]);\n    "@, "x_unsqueezed.equal(cats).float().cast(burn::tensor::DType::F32)"@, "let cats = self."@ + field + ".clone().reshape(["@ + ones_prefix(rank) + usize_literal(n));
    lemma_contains_left("let "@ + output + " = {\n    "@ + "let x = "@ + as_float_text(input, d) + ";\n    "@ + "let x_unsqueezed = x.unsqueeze_dim("@ + usize_literal(rank) + ");\n    "@ + "let cats = self."@ + field + ".clone().reshape(["@ + ones_prefix(rank) + usize_literal(n) + "]);\n    "@ + "x_unsqueezed.equal(cats).float().cast(burn::tensor::DType::F32)"@, "\n};"@, "let cats = self."@ + field + ".clone().reshape(["@ + ones_prefix(rank) + usize_literal(n));
}

proof fn lemma_encoder_compares(input: Seq<char>, output: Seq<char>, field: Seq<char>, d: DType, rank: nat, n: nat)
    ensures
        contains(encoder_forward_text(input, output, field, d, rank, n), "x_unsqueezed.equal(cats).float().cast(burn::tensor::DType::F32)"@),
{
    lemma_contains_within("let "@ + output + " = {\n    "@ + "let x = "@ + as_float_text(input, d) + ";\n    "@ + "let x_unsqueezed = x.unsqueeze_dim("@ + usize_literal(rank) + ");\n    "@ + "let cats = self."@ + field + ".clone().reshape(["@ + ones_prefix(rank) + usize_literal(n) + "]);\n    "@, "x_unsqueezed.equal(cats).float().cast(burn::tensor::DType::F32)"@, Seq::<char>::empty());
    assert("let "@ + output + " = {\n    "@ + "let x = "@ + as_float_text(input, d) + ";\n    "@ + "let x_unsqueezed = x.unsqueeze_dim("@ + usize_literal(rank) + ");\n    "@ + "let cats = self."@ + field + ".clone().reshape(["@ + ones_prefix(rank) + usize_literal(n) + "]);\n    "@ + ("x_unsqueezed.equal(cats).float().cast(burn::tensor::DType::F32)"@) + Seq::<char>::empty() =~= "let "@ + output + " = {\n    "@ + "let x = "@ + as_float_text(input, d) + ";\n    "@ + "let x_unsqueezed = x.unsqueeze_dim("@ + usize_literal(rank) + ");\n    "@ + "let cats = self."@ + field + ".clone().reshape(["@ + ones_prefix(rank) + usize_literal(n) + "]);\n    "@ + "x_unsqueezed.equal(cats).float().cast(burn::tensor::DType::F32)"@);
    lemma_contains_left("let "@ + output + " = {\n    "@ + "let x = "@ + as_float_text(input, d) + ";\n    "@ + "let x_unsqueezed = x.unsqueeze_dim("@ + usize_literal(rank) + ");\n    "@ + "let cats = self."@ + field + ".clone().reshape(["@ + ones_prefix(rank) + usize_literal(n) + "]);\n    "@ + "x_unsqueezed.equal(cats).float().cast(burn::tensor::DType::F32)"@, "\n};"@, "x_unsqueezed.equal(cats).float().cast(burn::tensor::DType::F32)"@);
}

/// The input becomes a float tensor (kept for float input, cast for double
/// input, converted then cast for integer input), gets a trailing dimension
/// after its `rank` dimensions, and is compared element by element with the
/// categories of the node's field, reshaped to `rank` dimensions of size 1 and
/// then the `n` categories; each comparison gives 1.0 where the value equals
/// the category and 0.0 elsewhere.
pub proof fn lemma_encoder_compares_with_each_category(input: Seq<char>, output: Seq<char>, field: Seq<char>, d: DType, rank: nat, n: nat)
    ensures
        contains(encoder_forward_text(input, output, field, d, rank, n), "let x = "@ + (if d == DType::F32 {
            input + ".clone()"@
        } else if d == DType::F64 {
            input + ".cast(burn::tensor::DType::F32)"@
        } else {
            input + ".float().cast(burn::tensor::DType::F32)"@
        })),
        contains(encoder_forward_text(input, output, field, d, rank, n), "let x_unsqueezed = x.unsqueeze_dim("@ + usize_literal(rank)),
        contains(encoder_forward_text(input, output, field, d, rank, n), "let cats = self."@ + field + ".clone().reshape(["@ + ones_prefix(rank) + usize_literal(n)),
        contains(encoder_forward_text(input, output, field, d, rank, n), "x_unsqueezed.equal(cats).float().cast(burn::tensor::DType::F32)"@),
{
    lemma_encoder_converts_input(input, output, field, d, rank, n);
    lemma_encoder_adds_trailing_dimension(input, output, field, d, rank, n);
    lemma_encoder_reshapes_categories(input, output, field, d, rank, n);
    lemma_encoder_compares(input, output, field, d, rank, n);
}

/// The fixed part of the lookup forward step after the number of categories.
pub open spec fn lookup_body_text(input: Seq<char>) -> Seq<char> {
    ";\n    let input_shape = "@ + input + ".shape();\n    let batch_size = input_shape.dims[0];\n    let input_flat = "@
        + input
        + ".clone().reshape([batch_size]).into_data();\n    let input_vec: Vec<i64> = input_flat.iter::<i64>().map(|x| x).collect();\n    let mut output_data = Vec::with_capacity(batch_size * num_categories);\n    for &val in input_vec.iter() {\n        let mut row = vec![0.0f32; num_categories];\n        if let Some(idx) = categories.iter().position(|&c| c == val) {\n            row[idx] = 1.0;\n        }\n        output_data.extend_from_slice(&row);\n    }\n    Tensor::<B, 2>::from_data(\n        burn::tensor::TensorData::new(output_data, [batch_size, num_categories].into()).convert(),\n        &*self.device\n    )\n};"@
}

/// The code of the lookup forward step: for each input value, a row of zeros
/// with a one at the position of the value among `cats`, if it is there.
pub open spec fn lookup_forward_text(input: Seq<char>, output: Seq<char>, cats: Seq<i64>) -> Seq<char> {
    "let "@ + output + " = {\n    let categories = ["@ + comma_list(i64_literals(cats)) + "];\n    let num_categories = "@
        + usize_literal(cats.len()) + lookup_body_text(input)
}

fn push_lookup_body(out: &mut String, input: &str)
    ensures
        final(out)@ == old(out)@ + lookup_body_text(input@),
{
    out.append(";\n    let input_shape = ");
    out.append(input);
    out.append(".shape();\n    let batch_size = input_shape.dims[0];\n    let input_flat = ");
    out.append(input);
    out.append(
        ".clone().reshape([batch_size]).into_data();\n    let input_vec: Vec<i64> = input_flat.iter::<i64>().map(|x| x).collect();\n    let mut output_data = Vec::with_capacity(batch_size * num_categories);\n    for &val in input_vec.iter() {\n        let mut row = vec![0.0f32; num_categories];\n        if let Some(idx) = categories.iter().position(|&c| c == val) {\n            row[idx] = 1.0;\n        }\n        output_data.extend_from_slice(&row);\n    }\n    Tensor::<B, 2>::from_data(\n        burn::tensor::TensorData::new(output_data, [batch_size, num_categories].into()).convert(),\n        &*self.device\n    )\n};",
    );
    assert(final(out)@ =~= old(out)@ + lookup_body_text(input@));
}

/// The lookup code holds the integer categories in order and their number;
/// it reads each input value as an integer and gives it a row of zeros, one
/// per category, with 1.0 at the position of the first category equal to it.
pub proof fn lemma_lookup_marks_the_matching_category(input: Seq<char>, output: Seq<char>, cats: Seq<i64>)
    ensures
        contains(lookup_forward_text(input, output, cats), "{\n    let categories = ["@ + comma_list(i64_literals(cats))),
        contains(lookup_forward_text(input, output, cats), input + ".clone().reshape([batch_size]).into_data();\n    let input_vec: Vec<i64> = input_flat.iter::<i64>().map(|x| x).collect();\n    let mut output_data = Vec::with_capacity(batch_size * num_categories);\n    for &val in input_vec.iter() {\n        let mut row = vec![0.0f32; num_categories];\n        if let Some(idx) = categories.iter().position(|&c| c == val) {\n            row[idx] = 1.0;\n        }\n        output_data.extend_from_slice(&row);\n    }\n    Tensor::<B, 2>::from_data(\n        burn::tensor::TensorData::new(output_data, [batch_size, num_categories].into()).convert(),\n        &*self.device\n    )\n};"@),
{
    let head = "let "@ + output + " = "@;
    let part = "{\n    let categories = ["@ + comma_list(i64_literals(cats));
    let tail = "];\n    let num_categories = "@ + usize_literal(cats.len()) + lookup_body_text(input);
    reveal_strlit(" = {\n    let categories = [");
    reveal_strlit(" = ");
    reveal_strlit("{\n    let categories = [");
    assert(" = {\n    let categories = ["@ =~= " = "@ + "{\n    let categories = ["@);
    assert(lookup_forward_text(input, output, cats) =~= head + part + tail);
    lemma_contains_within(head, part, tail);
    let body = lookup_body_text(input);
    let bh = ";\n    let input_shape = "@ + input + ".shape();\n    let batch_size = input_shape.dims[0];\n    let input_flat = "@;
    let bp = input + ".clone().reshape([batch_size]).into_data();\n    let input_vec: Vec<i64> = input_flat.iter::<i64>().map(|x| x).collect();\n    let mut output_data = Vec::with_capacity(batch_size * num_categories);\n    for &val in input_vec.iter() {\n        let mut row = vec![0.0f32; num_categories];\n        if let Some(idx) = categories.iter().position(|&c| c == val) {\n            row[idx] = 1.0;\n        }\n        output_data.extend_from_slice(&row);\n    }\n    Tensor::<B, 2>::from_data(\n        burn::tensor::TensorData::new(output_data, [batch_size, num_categories].into()).convert(),\n        &*self.device\n    )\n};"@;
    assert(body =~= bh + bp + Seq::<char>::empty());
    lemma_contains_within(bh, bp, Seq::<char>::empty());
    lemma_contains_right("let "@ + output + " = {\n    let categories = ["@ + comma_list(i64_literals(cats)) + "];\n    let num_categories = "@ + usize_literal(cats.len()), body, bp);
}

/// The code that initializes the field `name` with the categories `cats` as
/// a rank-1 float tensor.
pub open spec fn category_field_text(name: Seq<char>, cats: Seq<crate::ir::F32ValueView>) -> Seq<char> {
    "let "@ + name + ": Tensor<1> = Tensor::<1>::from_data(\n    ["@ + comma_list(f32_literals(cats))
        + "],\n    (device, burn::tensor::DType::F32),\n);"@
}

impl OneHotEncoderNode {
    /// The inputs of the node.
    pub fn inputs(&self) -> (r: &[Argument])
        ensures
            r@ == self.inputs@,
    {
        self.inputs.as_slice()
    }

    /// The outputs of the node.
    pub fn outputs(&self) -> (r: &[Argument])
        ensures
            r@ == self.outputs@,
    {
        self.outputs.as_slice()
    }

    /// The number of categories the generated model holds.
    pub fn category_len(&self) -> (r: usize)
        ensures
            r == category_count(self.config@),
    {
        match &self.config.cats_int64s {
            Some(v) => v.len(),
            None => match &self.config.cats_strings {
                Some(s) => s.len(),
                None => 0,
            },
        }
    }

    /// The field that keeps the categories, given as floats (one for each
    /// category of the configuration, in order), for the forward step to
    /// compare against; it is named after the node.
    pub fn field_with_categories(&self, cats: &Vec<F32Value>) -> (r: Field)
        requires
            cats@.len() == category_count(self.config@),
            all_finite(cats.deep_view()),
        ensures
            r.name@ == self.name@,
            r.ty@ == "Tensor<1>"@,
            r.init@ == category_field_text(self.name@, cats.deep_view()),
    {
        let mut init = String::from_str("let ");
        init.append(self.name.as_str());
        init.append(": Tensor<1> = Tensor::<1>::from_data(\n    [");
        push_f32_literal_list(&mut init, cats);
        init.append("],\n    (device, burn::tensor::DType::F32),\n);");
        assert(init@ =~= category_field_text(self.name@, cats.deep_view()));
        Field { name: self.name.clone(), ty: String::from_str("Tensor<1>"), init }
    }

    /// The code of the forward step.
    pub fn forward(&self) -> (r: String)
        requires
            self.inputs.len() >= 1,
            self.outputs.len() >= 1,
            self.inputs@[0].ty is Tensor,
        ensures
            self.inputs@[0].ty@ matches ArgTypeView::Tensor(t) && r@ == encoder_forward_text(
                self.inputs@[0].name@,
                self.outputs@[0].name@,
                self.name@,
                t.dtype,
                t.rank as nat,
                category_count(self.config@),
            ),
    {
        let input = self.inputs[0].name.as_str();
        let output = self.outputs[0].name.as_str();
        let (dtype, rank) = match &self.inputs[0].ty {
            ArgType::Tensor(t) => (t.dtype, t.rank),
            _ => (DType::F32, 0),
        };
        let n = self.category_len();
        let mut s = String::from_str("let ");
        s.append(output);
        s.append(" = {\n    ");
        s.append("let x = ");
        s.append(input);
        if dtype == DType::F32 {
            s.append(".clone()");
        } else if dtype == DType::F64 {
            s.append(".cast(burn::tensor::DType::F32)");
        } else {
            s.append(".float().cast(burn::tensor::DType::F32)");
        }
        s.append(";\n    ");
        s.append("let x_unsqueezed = x.unsqueeze_dim(");
        push_usize_literal(&mut s, rank);
        s.append(");\n    ");
        s.append("let cats = self.");
        s.append(self.name.as_str());
        s.append(".clone().reshape([");
        push_ones_prefix(&mut s, rank);
        push_usize_literal(&mut s, n);
        s.append("]);\n    ");
        s.append("x_unsqueezed.equal(cats).float().cast(burn::tensor::DType::F32)");
        s.append("\n};");
        assert(s@ =~= encoder_forward_text(input@, output@, self.name@, dtype, rank as nat, n as nat));
        s
    }

    /// The code of the lookup forward step over the integer categories.
    pub fn lookup_forward(&self) -> (r: String)
        requires
            self.inputs.len() >= 1,
            self.outputs.len() >= 1,
            self.config.cats_int64s is Some,
        ensures
            r@ == lookup_forward_text(
                self.inputs@[0].name@,
                self.outputs@[0].name@,
                self.config.cats_int64s.unwrap()@,
            ),
    {
        let input = self.inputs[0].name.as_str();
        let output = self.outputs[0].name.as_str();
        let mut s = String::from_str("let ");
        s.append(output);
        s.append(" = {\n    let categories = [");
        match &self.config.cats_int64s {
            Some(cats) => {
                push_i64_literal_list(&mut s, cats);
                s.append("];\n    let num_categories = ");
                push_usize_literal(&mut s, cats.len());
            },
            None => {},
        }
        push_lookup_body(&mut s, input);
        assert(s@ =~= lookup_forward_text(input@, output@, self.config.cats_int64s.unwrap()@));
        s
    }
}

} // verus!
