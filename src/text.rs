use vstd::prelude::*;
use crate::engine::{arity_ok, arity_allows};

verus! {

/// Whether `s` begins with the non-empty text `p`.
pub open spec fn starts_with(s: Seq<char>, p: Seq<char>) -> bool {
    0 < p.len() <= s.len() && s.take(p.len() as int) == p
}

/// `s` with each occurrence of `p`, taken left to right without overlap, replaced by `r`.
/// An empty pattern occurs nowhere.
pub open spec fn replace_all(s: Seq<char>, p: Seq<char>, r: Seq<char>) -> Seq<char>
    decreases s.len(),
{
    if p.len() == 0 || s.len() == 0 {
        s
    } else if starts_with(s, p) {
        r + replace_all(s.skip(p.len() as int), p, r)
    } else {
        seq![s[0]] + replace_all(s.skip(1), p, r)
    }
}

/// How many occurrences of `p` `s` holds, taken left to right without overlap.
/// An empty pattern occurs nowhere.
pub open spec fn count_occurrences(s: Seq<char>, p: Seq<char>) -> nat
    decreases s.len(),
{
    if p.len() == 0 || s.len() == 0 {
        0
    } else if starts_with(s, p) {
        1 + count_occurrences(s.skip(p.len() as int), p)
    } else {
        count_occurrences(s.skip(1), p)
    }
}

/// All of `ts` joined in order.
pub open spec fn concat_all(ts: Seq<Seq<char>>) -> Seq<char>
    decreases ts.len(),
{
    if ts.len() == 0 {
        Seq::empty()
    } else {
        concat_all(ts.drop_last()) + ts.last()
    }
}

/// The texts of a list of text inputs.
pub open spec fn texts(inputs: Seq<Vec<char>>) -> Seq<Seq<char>> {
    inputs.map_values(|t: Vec<char>| t@)
}

/// What a text operator outputs: a text, or a count.
#[derive(Debug, Clone, PartialEq, Eq)]
pub enum TextOutput {
    Text(Vec<char>),
    Count(usize),
}

/// Whether `s` holds the non-empty text `p` at position `i`.
fn occurs_at(s: &Vec<char>, p: &Vec<char>, i: usize) -> (r: bool)
    requires
        i <= s.len(),
    ensures
        r == starts_with(s@.skip(i as int), p@),
{
    if p.len() == 0 || p.len() > s.len() - i {
        return false;
    }
    let mut j: usize = 0;
    while j < p.len()
        invariant
            i + p.len() <= s.len(),
            j <= p.len(),
            forall|k: int| 0 <= k < j ==> s@[i + k] == #[trigger] p@[k],
        decreases p.len() - j,
    {
        if s[i + j] != p[j] {
            assert(s@.skip(i as int).take(p.len() as int)[j as int] != p@[j as int]);
            return false;
        }
        j = j + 1;
    }
    assert(s@.skip(i as int).take(p.len() as int) =~= p@);
    true
}

/// Appends all of `t` to `out`.
fn push_all(out: &mut Vec<char>, t: &Vec<char>)
    ensures
        final(out)@ == old(out)@ + t@,
{
    let mut j: usize = 0;
    while j < t.len()
        invariant
            j <= t.len(),
            out@ == old(out)@ + t@.take(j as int),
        decreases t.len() - j,
    {
        out.push(t[j]);
        j = j + 1;
        assert(out@ =~= old(out)@ + t@.take(j as int));
    }
    assert(t@.take(j as int) =~= t@);
}

/// `s` with each occurrence of `p`, left to right without overlap, replaced by `r`.
pub fn replace_text(s: &Vec<char>, p: &Vec<char>, r: &Vec<char>) -> (out: Vec<char>)
    ensures
        out@ == replace_all(s@, p@, r@),
{
    let mut out: Vec<char> = Vec::new();
    if p.len() == 0 {
        push_all(&mut out, s);
        assert(out@ =~= s@);
        return out;
    }
    let mut i: usize = 0;
    assert(s@.skip(0) =~= s@);
    while i < s.len()
        invariant
            p@.len() > 0,
            i <= s.len(),
            out@ + replace_all(s@.skip(i as int), p@, r@) == replace_all(s@, p@, r@),
        decreases s.len() - i,
    {
        let ghost rest = s@.skip(i as int);
        if occurs_at(s, p, i) {
            assert(rest.skip(p@.len() as int) =~= s@.skip(i + p@.len()));
            assert(out@ + (r@ + replace_all(rest.skip(p@.len() as int), p@, r@)) =~= (out@ + r@)
                + replace_all(rest.skip(p@.len() as int), p@, r@));
            push_all(&mut out, r);
            i = i + p.len();
        } else {
            assert(rest.skip(1) =~= s@.skip(i + 1));
            assert(out@ + (seq![rest[0]] + replace_all(rest.skip(1), p@, r@)) =~= out@.push(s@[i as int])
                + replace_all(rest.skip(1), p@, r@));
            out.push(s[i]);
            i = i + 1;
        }
    }
    assert(out@ + replace_all(s@.skip(i as int), p@, r@) =~= out@);
    out
}

/// The number of occurrences of `p` in `s`, left to right without overlap.
pub fn count_text(s: &Vec<char>, p: &Vec<char>) -> (n: usize)
    ensures
        n == count_occurrences(s@, p@),
{
    if p.len() == 0 {
        return 0;
    }
    let mut n: usize = 0;
    let mut i: usize = 0;
    assert(s@.skip(0) =~= s@);
    while i < s.len()
        invariant
            p@.len() > 0,
            i <= s.len(),
            n <= i,
            n + count_occurrences(s@.skip(i as int), p@) == count_occurrences(s@, p@),
        decreases s.len() - i,
    {
        let ghost rest = s@.skip(i as int);
        if occurs_at(s, p, i) {
            assert(rest.skip(p@.len() as int) =~= s@.skip(i + p@.len()));
            n = n + 1;
            i = i + p.len();
        } else {
            assert(rest.skip(1) =~= s@.skip(i + 1));
            i = i + 1;
        }
    }
    n
}

/// All inputs joined in order.
pub fn concat_texts(inputs: &Vec<Vec<char>>) -> (out: Vec<char>)
    ensures
        out@ == concat_all(texts(inputs@)),
{
    let mut out: Vec<char> = Vec::new();
    let mut i: usize = 0;
    while i < inputs.len()
        invariant
            i <= inputs.len(),
            out@ == concat_all(texts(inputs@).take(i as int)),
        decreases inputs.len() - i,
    {
        assert(texts(inputs@).take(i + 1).drop_last() =~= texts(inputs@).take(i as int));
        push_all(&mut out, &inputs[i]);
        i = i + 1;
    }
    assert(texts(inputs@).take(i as int) =~= texts(inputs@));
    out
}

/// What a text node of type `node_type` outputs on `inputs`: no result for an unknown type,
/// a type that is not a text operator, or inputs outside the type's connection bounds.
pub fn run_text_node(node_type: usize, inputs: &Vec<Vec<char>>) -> (r: Option<TextOutput>)
    ensures
        !arity_ok(node_type, inputs@.len()) || !(301 <= node_type <= 304) ==> r is None,
        arity_ok(node_type, inputs@.len()) ==> match node_type {
            301 => r matches Some(TextOutput::Text(t)) && t@ == replace_all(
                inputs@[0]@,
                inputs@[1]@,
                Seq::empty(),
            ),
            302 => r matches Some(TextOutput::Text(t)) && t@ == replace_all(
                inputs@[0]@,
                inputs@[1]@,
                inputs@[2]@,
            ),
            303 => r matches Some(TextOutput::Count(n)) && n == count_occurrences(
                inputs@[0]@,
                inputs@[1]@,
            ),
            304 => r matches Some(TextOutput::Text(t)) && t@ == concat_all(texts(inputs@)),
            _ => r is None,
        },
{
    if !arity_allows(node_type, inputs.len()) {
        return None;
    }
    match node_type {
        301 => {
            let nothing: Vec<char> = Vec::new();
            Some(TextOutput::Text(replace_text(&inputs[0], &inputs[1], &nothing)))
        },
        302 => Some(TextOutput::Text(replace_text(&inputs[0], &inputs[1], &inputs[2]))),
        303 => Some(TextOutput::Count(count_text(&inputs[0], &inputs[1]))),
        304 => Some(TextOutput::Text(concat_texts(inputs))),
        _ => None,
    }
}

} // verus!
