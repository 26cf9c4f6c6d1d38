//! Code generation: the Rust source of the `forward` step (and, where a node
//! keeps constant tensors, of its field) for each operator.
//!
//! The generated code is returned as text. Arguments are referred to by name:
//! the input of a node is its first input's name and the result is bound to
//! its first output's name.
use vstd::prelude::*;
use vstd::string::StringExecFns;
use crate::ir::{F32Value, F32ValueView, f32_bits_finite};
use crate::text::{comma_list, join};

pub mod imputer;
pub mod one_hot_encoder;
pub mod scaler;
pub mod svmregressor;
pub mod tree_ensemble_classifier;

verus! {

/// A field that a generated model keeps: its name, its type and the code that initializes it.
#[derive(Debug, Clone, PartialEq)]
pub struct Field {
    pub name: String,
    pub ty: String,
    pub init: String,
}

/// The literal of a finite float with its type suffix, as in `0.5f32`.
pub open spec fn f32_literal(v: F32ValueView) -> Seq<char> {
    v.text + "f32"@
}

/// The suffixed literals of a list of floats.
pub open spec fn f32_literals(v: Seq<F32ValueView>) -> Seq<Seq<char>> {
    v.map_values(|f: F32ValueView| f32_literal(f))
}

/// Whether every float of a list is finite.
pub open spec fn all_finite(v: Seq<F32ValueView>) -> bool {
    forall|i: int| 0 <= i < v.len() ==> f32_bits_finite(#[trigger] v[i].bits)
}

/// Appends the suffixed literal of a float.
pub fn push_f32_literal(out: &mut String, v: &F32Value)
    ensures
        final(out)@ == old(out)@ + f32_literal(v@),
{
    out.append(v.text.as_str());
    out.append("f32");
    assert(final(out)@ =~= old(out)@ + f32_literal(v@));
}

/// Appends the suffixed literals of a list of floats, separated by `", "`.
pub fn push_f32_literal_list(out: &mut String, v: &Vec<F32Value>)
    ensures
        final(out)@ == old(out)@ + comma_list(f32_literals(v.deep_view())),
{
    let ghost start = out@;
    let ghost items = f32_literals(v.deep_view());
    let mut i: usize = 0;
    while i < v.len()
        invariant
            i <= v.len(),
            items == f32_literals(v.deep_view()),
            out@ == start + comma_list(items.take(i as int)),
        decreases v.len() - i,
    {
        if i > 0 {
            out.append(", ");
            assert(items.take(i + 1).drop_last() =~= items.take(i as int));
        }
        push_f32_literal(out, &v[i]);
        i = i + 1;
        assert(out@ =~= start + comma_list(items.take(i as int)));
    }
    assert(items.take(v.len() as int) =~= items);
}

/// `n` copies of `1usize, `, the leading dimensions of a tensor reshaped to
/// broadcast along its last dimension.
pub open spec fn ones_prefix(n: nat) -> Seq<char>
    decreases n,
{
    if n == 0 {
        Seq::empty()
    } else {
        ones_prefix((n - 1) as nat) + "1usize, "@
    }
}

/// Appends `n` copies of `1usize, `.
pub fn push_ones_prefix(out: &mut String, n: usize)
    ensures
        final(out)@ == old(out)@ + ones_prefix(n as nat),
{
    let ghost start = out@;
    let mut i: usize = 0;
    while i < n
        invariant
            i <= n,
            out@ == start + ones_prefix(i as nat),
        decreases n - i,
    {
        out.append("1usize, ");
        i = i + 1;
        assert(out@ =~= start + ones_prefix(i as nat));
    }
}

} // verus!
