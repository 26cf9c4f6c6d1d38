//! Text rendering used by error messages and by the code generators:
//! decimal integers, suffixed integer literals and string comparison.
use vstd::prelude::*;
use vstd::string::StringExecFns;

verus! {

/// The character of a decimal digit `d` (`0 <= d < 10`).
pub open spec fn digit_char(d: nat) -> char {
    if d == 0 {
        '0'
    } else if d == 1 {
        '1'
    } else if d == 2 {
        '2'
    } else if d == 3 {
        '3'
    } else if d == 4 {
        '4'
    } else if d == 5 {
        '5'
    } else if d == 6 {
        '6'
    } else if d == 7 {
        '7'
    } else if d == 8 {
        '8'
    } else {
        '9'
    }
}

/// The decimal text of a natural number, most significant digit first, without leading zeros.
pub open spec fn nat_text(n: nat) -> Seq<char>
    decreases n,
{
    if n < 10 {
        seq![digit_char(n)]
    } else {
        nat_text(n / 10) + seq![digit_char(n % 10)]
    }
}

/// The decimal text of an integer: a minus sign before the magnitude when it is negative.
pub open spec fn int_text(i: int) -> Seq<char> {
    if i < 0 {
        seq!['-'] + nat_text((-i) as nat)
    } else {
        nat_text(i as nat)
    }
}

/// The number that a text of decimal digits stands for, most significant
/// digit first.
pub open spec fn decimal_value(s: Seq<char>) -> int
    decreases s.len(),
{
    if s.len() == 0 {
        0
    } else {
        decimal_value(s.drop_last()) * 10 + (s.last() as int - '0' as int)
    }
}

/// Whether every character of a text is a decimal digit.
pub open spec fn all_digits(s: Seq<char>) -> bool {
    forall|i: int| 0 <= i < s.len() ==> '0' <= #[trigger] s[i] <= '9'
}

/// The decimal text of a number is made of digits, has no leading zero (but
/// for the number 0 itself), and reads back as the number.
pub proof fn lemma_nat_text_reads_back(n: nat)
    ensures
        nat_text(n).len() >= 1,
        all_digits(nat_text(n)),
        decimal_value(nat_text(n)) == n,
        n > 0 ==> nat_text(n)[0] != '0',
        n == 0 ==> nat_text(n) == seq!['0'],
    decreases n,
{
    let d = n % 10;
    assert(digit_char(d) as int - '0' as int == d);
    assert('0' <= digit_char(d) <= '9');
    if n >= 10 {
        lemma_nat_text_reads_back(n / 10);
        let t = nat_text(n);
        assert(t.drop_last() =~= nat_text(n / 10));
        assert(t[0] == nat_text(n / 10)[0]);
        assert(t.last() == digit_char(d));
        assert(decimal_value(t) == decimal_value(t.drop_last()) * 10 + (t.last() as int - '0' as int));
        assert(decimal_value(t) == (n / 10) as int * 10 + d);
        assert((n / 10) * 10 + n % 10 == n);
    } else {
        let t = nat_text(n);
        assert(t.drop_last() =~= Seq::<char>::empty());
        assert(t.last() == digit_char(d));
        assert(d == n);
        assert(decimal_value(t) == decimal_value(t.drop_last()) * 10 + (t.last() as int - '0' as int));
    }
}

/// The decimal text of an integer starts with a minus sign exactly when the
/// integer is negative, and the digits after it read back as its magnitude.
pub proof fn lemma_int_text_reads_back(i: int)
    ensures
        (int_text(i)[0] == '-') <==> i < 0,
        i < 0 ==> decimal_value(int_text(i).drop_first()) == -i,
        i >= 0 ==> decimal_value(int_text(i)) == i,
{
    if i < 0 {
        lemma_nat_text_reads_back((-i) as nat);
        assert(int_text(i).drop_first() =~= nat_text((-i) as nat));
    } else {
        lemma_nat_text_reads_back(i as nat);
        assert(all_digits(nat_text(i as nat)));
        assert('0' <= nat_text(i as nat)[0] <= '9');
    }
}

fn digit_str(d: u64) -> (s: &'static str)
    requires
        d < 10,
    ensures
        s@ == seq![digit_char(d as nat)],
{
    proof {
        reveal_strlit("0");
        reveal_strlit("1");
        reveal_strlit("2");
        reveal_strlit("3");
        reveal_strlit("4");
        reveal_strlit("5");
        reveal_strlit("6");
        reveal_strlit("7");
        reveal_strlit("8");
        reveal_strlit("9");
    }
    if d == 0 {
        "0"
    } else if d == 1 {
        "1"
    } else if d == 2 {
        "2"
    } else if d == 3 {
        "3"
    } else if d == 4 {
        "4"
    } else if d == 5 {
        "5"
    } else if d == 6 {
        "6"
    } else if d == 7 {
        "7"
    } else if d == 8 {
        "8"
    } else {
        "9"
    }
}

/// Appends the decimal text of `n` to `out`.
pub fn push_u64(out: &mut String, n: u64)
    ensures
        final(out)@ == old(out)@ + nat_text(n as nat),
    decreases n,
{
    if n >= 10 {
        push_u64(out, n / 10);
        out.append(digit_str(n % 10));
        assert(final(out)@ =~= old(out)@ + nat_text(n as nat));
    } else {
        out.append(digit_str(n));
    }
}

/// Appends the decimal text of `n` to `out`.
pub fn push_usize(out: &mut String, n: usize)
    ensures
        final(out)@ == old(out)@ + nat_text(n as nat),
{
    push_u64(out, n as u64);
}

/// Appends the decimal text of `i` to `out`, with a minus sign when it is negative.
pub fn push_i64(out: &mut String, i: i64)
    ensures
        final(out)@ == old(out)@ + int_text(i as int),
{
    if i < 0 {
        out.append("-");
        let magnitude: u64 = (-(i as i128)) as u64;
        push_u64(out, magnitude);
        proof {
            reveal_strlit("-");
        }
        assert(final(out)@ =~= old(out)@ + int_text(i as int));
    } else {
        push_u64(out, i as u64);
    }
}

/// The text of an `i64` literal with its type suffix, as in `-3i64`.
pub open spec fn i64_literal(i: int) -> Seq<char> {
    int_text(i) + "i64"@
}

/// The text of a `usize` literal with its type suffix, as in `4usize`.
pub open spec fn usize_literal(n: nat) -> Seq<char> {
    nat_text(n) + "usize"@
}

/// Appends the suffixed literal of `i`, as in `-3i64`.
pub fn push_i64_literal(out: &mut String, i: i64)
    ensures
        final(out)@ == old(out)@ + i64_literal(i as int),
{
    push_i64(out, i);
    out.append("i64");
    assert(final(out)@ =~= old(out)@ + i64_literal(i as int));
}

/// Appends the suffixed literal of `n`, as in `4usize`.
pub fn push_usize_literal(out: &mut String, n: usize)
    ensures
        final(out)@ == old(out)@ + usize_literal(n as nat),
{
    push_usize(out, n);
    out.append("usize");
    assert(final(out)@ =~= old(out)@ + usize_literal(n as nat));
}

/// Whether two strings hold the same characters.
pub fn same_text(a: &str, b: &str) -> (r: bool)
    ensures
        r == (a@ == b@),
{
    let x = a.to_owned();
    let y = b.to_owned();
    x == y
}

/// Whether `part` occurs in `s` as a run of consecutive characters.
pub open spec fn contains(s: Seq<char>, part: Seq<char>) -> bool {
    exists|i: int| 0 <= i && i + part.len() <= s.len() && #[trigger] s.subrange(i, i + part.len()) == part
}

/// A text contains what stands between its head and its tail.
pub proof fn lemma_contains_within(head: Seq<char>, part: Seq<char>, tail: Seq<char>)
    ensures
        contains(head + part + tail, part),
{
    let s = head + part + tail;
    assert(s.subrange(head.len() as int, (head.len() + part.len()) as int) =~= part);
}

/// Whatever a text contains, a text around it contains too.
pub proof fn lemma_contains_around(head: Seq<char>, s: Seq<char>, tail: Seq<char>, part: Seq<char>)
    requires
        contains(s, part),
    ensures
        contains(head + s + tail, part),
{
    let i = choose|i: int| 0 <= i && i + part.len() <= s.len() && #[trigger] s.subrange(i, i + part.len()) == part;
    let w = head + s + tail;
    assert(w.subrange(head.len() + i, head.len() + i + part.len()) =~= s.subrange(i, i + part.len()));
}

/// What the first part of a text contains, the whole text contains.
pub proof fn lemma_contains_left(x: Seq<char>, y: Seq<char>, part: Seq<char>)
    requires
        contains(x, part),
    ensures
        contains(x + y, part),
{
    lemma_contains_around(Seq::empty(), x, y, part);
    assert(Seq::<char>::empty() + x + y =~= x + y);
}

/// What the last part of a text contains, the whole text contains.
pub proof fn lemma_contains_right(x: Seq<char>, y: Seq<char>, part: Seq<char>)
    requires
        contains(y, part),
    ensures
        contains(x + y, part),
{
    lemma_contains_around(x, y, Seq::empty(), part);
    assert(x + y + Seq::<char>::empty() =~= x + y);
}

/// A text ends with its last five parts.
pub proof fn lemma_contains_last_five(h: Seq<char>, a: Seq<char>, b: Seq<char>, c: Seq<char>, d: Seq<char>, e: Seq<char>)
    ensures
        contains(h + a + b + c + d + e, a + b + c + d + e),
{
    lemma_contains_within(h, a + b + c + d + e, Seq::empty());
    lemma_concat_regroups(h, a + b + c + d, e);
    lemma_concat_regroups(h, a + b + c, d);
    lemma_concat_regroups(h, a + b, c);
    lemma_concat_regroups(h, a, b);
    assert(h + (a + b + c + d + e) + Seq::<char>::empty() =~= h + (a + b + c + d + e));
}

proof fn lemma_concat_regroups(x: Seq<char>, y: Seq<char>, z: Seq<char>)
    ensures
        x + (y + z) == x + y + z,
{
    assert(x + (y + z) =~= x + y + z);
}

/// Whether every character of a string is printable ASCII other than `"` and `\`,
/// so that it stands as it is in a string literal.
pub open spec fn plain_text(s: Seq<char>) -> bool {
    forall|i: int| 0 <= i < s.len() ==> {
        let c = #[trigger] s[i];
        ' ' <= c && c <= '~' && c != '"' && c != '\\'
    }
}

/// `proc_macro2::Literal::string` followed by `to_string`: the source text of a
/// string literal holding `s`. The contract states what every way the crate
/// renders a literal shares: the text starts and ends with a double quote, and
/// when `s` holds only printable ASCII other than `"` and `\`, the escaping
/// leaves every character as it is, so the literal is `s` between double
/// quotes. How other characters are escaped is left unsaid: the crate's own
/// renderer and the compiler's may write them differently.
#[verifier::external_body]
pub(crate) fn string_literal(s: &str) -> (r: String)
    ensures
        r@.len() >= 2,
        r@[0] == '"',
        r@.last() == '"',
        plain_text(s@) ==> r@ == quoted(s@),
{
    proc_macro2::Literal::string(s).to_string()
}

/// The items joined by `sep`: `a{sep}b{sep}c`, and nothing for no items.
pub open spec fn join(items: Seq<Seq<char>>, sep: Seq<char>) -> Seq<char>
    decreases items.len(),
{
    if items.len() == 0 {
        Seq::empty()
    } else if items.len() == 1 {
        items[0]
    } else {
        join(items.drop_last(), sep) + sep + items.last()
    }
}

/// The items joined by `", "`, as a list prints inside its brackets.
pub open spec fn comma_list(items: Seq<Seq<char>>) -> Seq<char> {
    join(items, ", "@)
}

/// The decimal texts of a sequence of integers.
pub open spec fn int_texts(v: Seq<i64>) -> Seq<Seq<char>> {
    v.map_values(|x: i64| int_text(x as int))
}

/// The suffixed literals of a sequence of integers.
pub open spec fn i64_literals(v: Seq<i64>) -> Seq<Seq<char>> {
    v.map_values(|x: i64| i64_literal(x as int))
}

/// The quoted form of a string, as a string literal or `{:?}` shows it
/// (characters that would need an escape are left as they are).
pub open spec fn quoted(s: Seq<char>) -> Seq<char> {
    seq!['"'] + s + seq!['"']
}

/// The quoted forms of a sequence of strings.
pub open spec fn quoted_all(v: Seq<Seq<char>>) -> Seq<Seq<char>> {
    v.map_values(|s: Seq<char>| quoted(s))
}

proof fn lemma_join_step(items: Seq<Seq<char>>, sep: Seq<char>, i: int)
    requires
        0 < i < items.len(),
    ensures
        join(items.take(i + 1), sep) == join(items.take(i), sep) + sep + items[i],
{
    assert(items.take(i + 1).drop_last() =~= items.take(i));
}

proof fn lemma_join_first(items: Seq<Seq<char>>, sep: Seq<char>)
    requires
        items.len() > 0,
    ensures
        join(items.take(1), sep) == items[0],
{
}

/// Appends the decimal texts of `v`, separated by `", "`.
pub fn push_int_list(out: &mut String, v: &Vec<i64>)
    ensures
        final(out)@ == old(out)@ + comma_list(int_texts(v@)),
{
    let ghost start = out@;
    let ghost items = int_texts(v@);
    let mut i: usize = 0;
    while i < v.len()
        invariant
            i <= v.len(),
            items == int_texts(v@),
            out@ == start + comma_list(items.take(i as int)),
        decreases v.len() - i,
    {
        if i > 0 {
            out.append(", ");
            proof {
                lemma_join_step(items, ", "@, i as int);
            }
        } else {
            proof {
                lemma_join_first(items, ", "@);
            }
        }
        push_i64(out, v[i]);
        i = i + 1;
        assert(out@ =~= start + comma_list(items.take(i as int)));
    }
    assert(items.take(v.len() as int) =~= items);
}

/// Appends the suffixed literals of `v`, separated by `", "`.
pub fn push_i64_literal_list(out: &mut String, v: &Vec<i64>)
    ensures
        final(out)@ == old(out)@ + comma_list(i64_literals(v@)),
{
    let ghost start = out@;
    let ghost items = i64_literals(v@);
    let mut i: usize = 0;
    while i < v.len()
        invariant
            i <= v.len(),
            items == i64_literals(v@),
            out@ == start + comma_list(items.take(i as int)),
        decreases v.len() - i,
    {
        if i > 0 {
            out.append(", ");
            proof {
                lemma_join_step(items, ", "@, i as int);
            }
        } else {
            proof {
                lemma_join_first(items, ", "@);
            }
        }
        push_i64_literal(out, v[i]);
        i = i + 1;
        assert(out@ =~= start + comma_list(items.take(i as int)));
    }
    assert(items.take(v.len() as int) =~= items);
}

/// Appends the quoted forms of `v`, separated by `", "`.
pub fn push_quoted_list(out: &mut String, v: &Vec<String>)
    ensures
        final(out)@ == old(out)@ + comma_list(quoted_all(v.deep_view())),
{
    let ghost start = out@;
    let ghost items = quoted_all(v.deep_view());
    let mut i: usize = 0;
    while i < v.len()
        invariant
            i <= v.len(),
            items == quoted_all(v.deep_view()),
            out@ == start + comma_list(items.take(i as int)),
        decreases v.len() - i,
    {
        if i > 0 {
            out.append(", ");
            proof {
                lemma_join_step(items, ", "@, i as int);
            }
        } else {
            proof {
                lemma_join_first(items, ", "@);
            }
        }
        out.append("\"");
        out.append(v[i].as_str());
        out.append("\"");
        proof {
            reveal_strlit("\"");
        }
        i = i + 1;
        assert(out@ =~= start + comma_list(items.take(i as int)));
    }
    assert(items.take(v.len() as int) =~= items);
}

} // verus!
