//! Primitives for the text model: Unicode segmentation and width
//! measurement, character classification, and the `join` function that
//! turns a sequence of grapheme clusters back into the text they came
//! from.

use unicode_segmentation::UnicodeSegmentation;
use unicode_width::UnicodeWidthStr;
use vstd::prelude::*;

verus! {

/// The extended grapheme clusters of a string, in order.
pub uninterp spec fn segments_of(s: Seq<char>) -> Seq<Seq<char>>;

/// The number of terminal columns a string occupies.
pub uninterp spec fn width_of(s: Seq<char>) -> nat;

/// Whether a character is Unicode whitespace.
pub uninterp spec fn is_whitespace_of(c: char) -> bool;

/// Whether a character is a control character.
pub uninterp spec fn is_control_of(c: char) -> bool;

/// The concatenation of a sequence of character sequences.
pub open spec fn join(gs: Seq<Seq<char>>) -> Seq<char>
    decreases gs.len(),
{
    if gs.len() == 0 {
        Seq::empty()
    } else {
        gs[0] + join(gs.drop_first())
    }
}

pub proof fn lemma_join_push(gs: Seq<Seq<char>>, g: Seq<char>)
    ensures
        join(gs.push(g)) == join(gs) + g,
    decreases gs.len(),
{
    if gs.len() == 0 {
        let rest = gs.push(g).drop_first();
        assert(rest =~= Seq::<Seq<char>>::empty());
        assert(join(rest) =~= Seq::<char>::empty());
        assert(join(gs.push(g)) =~= join(gs) + g);
    } else {
        assert(gs.push(g).drop_first() =~= gs.drop_first().push(g));
        lemma_join_push(gs.drop_first(), g);
        assert(join(gs.push(g)) =~= join(gs) + g);
    }
}

pub proof fn lemma_join_concat(a: Seq<Seq<char>>, b: Seq<Seq<char>>)
    ensures
        join(a + b) == join(a) + join(b),
    decreases a.len(),
{
    if a.len() == 0 {
        assert(a + b =~= b);
        assert(join(a + b) =~= join(a) + join(b));
    } else {
        assert((a + b).drop_first() =~= a.drop_first() + b);
        lemma_join_concat(a.drop_first(), b);
        assert(join(a + b) =~= join(a) + join(b));
    }
}

/// `join` over a prefix and the matching suffix gives `join` of the whole.
pub proof fn lemma_join_take_skip(gs: Seq<Seq<char>>, k: int)
    requires
        0 <= k <= gs.len(),
    ensures
        join(gs) == join(gs.take(k)) + join(gs.skip(k)),
{
    assert(gs =~= gs.take(k) + gs.skip(k));
    lemma_join_concat(gs.take(k), gs.skip(k));
}

pub proof fn lemma_join_take_succ(gs: Seq<Seq<char>>, k: int)
    requires
        0 <= k < gs.len(),
    ensures
        join(gs.take(k + 1)) == join(gs.take(k)) + gs[k],
{
    assert(gs.take(k + 1) =~= gs.take(k).push(gs[k]));
    lemma_join_push(gs.take(k), gs[k]);
}

pub proof fn lemma_join_subrange_succ(gs: Seq<Seq<char>>, a: int, b: int)
    requires
        0 <= a <= b < gs.len(),
    ensures
        join(gs.subrange(a, b + 1)) == join(gs.subrange(a, b)) + gs[b],
{
    assert(gs.subrange(a, b + 1) =~= gs.subrange(a, b).push(gs[b]));
    lemma_join_push(gs.subrange(a, b), gs[b]);
}

/// When every part is non-empty, the joined text is at least as long as
/// the number of parts.
pub proof fn lemma_join_len_lower_bound(gs: Seq<Seq<char>>)
    requires
        forall|i: int| 0 <= i < gs.len() ==> gs[i].len() > 0,
    ensures
        join(gs).len() >= gs.len(),
    decreases gs.len(),
{
    if gs.len() > 0 {
        lemma_join_len_lower_bound(gs.drop_first());
    }
}

/// A run of `n` spaces.
pub open spec fn spaces(n: int) -> Seq<char> {
    if n <= 0 {
        Seq::empty()
    } else {
        Seq::new(n as nat, |i: int| ' ')
    }
}

/// Relies on unicode_segmentation's `graphemes(true)`: it yields the
/// extended grapheme clusters of the string, which are non-empty
/// substrings whose concatenation is the original string.
#[verifier::external_body]
pub(crate) fn grapheme_split(s: &str) -> (r: Vec<String>)
    ensures
        r@.map_values(|g: String| g@) == segments_of(s@),
        join(r@.map_values(|g: String| g@)) == s@,
        forall|i: int| 0 <= i < r@.len() ==> r@[i]@.len() > 0,
{
    s.graphemes(true).map(|g| g.to_string()).collect()
}

/// Relies on unicode_width's `UnicodeWidthStr::width`: the displayed
/// width of a string, a pure function of its characters.
#[verifier::external_body]
pub(crate) fn str_width(s: &str) -> (w: usize)
    ensures
        w == width_of(s@),
{
    UnicodeWidthStr::width(s)
}

/// Relies on std's `char::is_whitespace`: a pure character property.
#[verifier::external_body]
pub(crate) fn is_whitespace_char(c: char) -> (r: bool)
    ensures
        r == is_whitespace_of(c),
{
    c.is_whitespace()
}

/// Relies on std's `char::is_control`: a pure character property.
#[verifier::external_body]
pub(crate) fn is_control_char(c: char) -> (r: bool)
    ensures
        r == is_control_of(c),
{
    c.is_control()
}

/// Relies on std's `String::push`: appends one character.
#[verifier::external_body]
pub(crate) fn push_char(s: &mut String, c: char)
    ensures
        final(s)@ == old(s)@.push(c),
{
    s.push(c);
}

} // verus!
