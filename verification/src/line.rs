//! A single logical line of text: its grapheme clusters, the width
//! class of each, and the replacement glyph drawn for clusters that are
//! not directly printable.

use crate::segment::{
    grapheme_split, is_control_char, is_control_of, is_whitespace_char, is_whitespace_of, join,
    lemma_join_subrange_succ, lemma_join_take_skip, lemma_join_take_succ, push_char, segments_of,
    str_width, width_of,
};
use vstd::prelude::*;

verus! {

/// How many columns a grapheme cluster occupies when rendered.
#[derive(Clone, Copy, Debug, PartialEq, Eq, Structural)]
pub enum GraphemeWidth {
    Half,
    Full,
}

/// One grapheme cluster of a line: its text, its rendered width class,
/// and an optional single-character glyph drawn in its place.
pub struct TextFragment {
    pub grapheme: String,
    pub rendered_width: GraphemeWidth,
    pub replacement: Option<char>,
}

/// A line of text as an ordered sequence of grapheme fragments.
pub struct Line {
    fragments: Vec<TextFragment>,
}

pub open spec fn width_val(w: GraphemeWidth) -> nat {
    match w {
        GraphemeWidth::Half => 1,
        GraphemeWidth::Full => 2,
    }
}

pub open spec fn frag_width(f: TextFragment) -> nat {
    width_val(f.rendered_width)
}

/// The grapheme text of each fragment, in order.
pub open spec fn graphemes_of(frags: Seq<TextFragment>) -> Seq<Seq<char>> {
    frags.map_values(|f: TextFragment| f.grapheme@)
}

/// The text a fragment sequence stands for.
pub open spec fn line_text(frags: Seq<TextFragment>) -> Seq<char> {
    join(graphemes_of(frags))
}

pub open spec fn all_whitespace(g: Seq<char>) -> bool {
    forall|i: int| 0 <= i < g.len() ==> is_whitespace_of(g[i])
}

/// The replacement glyph for a grapheme cluster, if any: a space is
/// kept, a tab becomes a space, visible whitespace gets a blank marker,
/// a lone zero-width control character gets a control marker, and any
/// other zero-width cluster gets a dot marker.
pub open spec fn replacement_spec(g: Seq<char>) -> Option<char> {
    if g == seq![' '] {
        None
    } else if g == seq!['\t'] {
        Some(' ')
    } else if width_of(g) > 0 && all_whitespace(g) {
        Some('\u{2423}')
    } else if width_of(g) == 0 {
        if g.len() == 1 && is_control_of(g[0]) {
            Some('\u{25af}')
        } else {
            Some('\u{00b7}')
        }
    } else {
        None
    }
}

/// The width class of a grapheme cluster: replaced clusters always
/// render as one column; otherwise measured width 0 or 1 is one column
/// and anything wider is two.
pub open spec fn width_class_spec(g: Seq<char>) -> GraphemeWidth {
    if replacement_spec(g) is Some {
        GraphemeWidth::Half
    } else if width_of(g) <= 1 {
        GraphemeWidth::Half
    } else {
        GraphemeWidth::Full
    }
}

/// A fragment correctly classifies its own grapheme.
pub open spec fn frag_wf(f: TextFragment) -> bool {
    &&& f.replacement == replacement_spec(f.grapheme@)
    &&& f.rendered_width == width_class_spec(f.grapheme@)
}

impl View for Line {
    type V = Seq<TextFragment>;

    closed spec fn view(&self) -> Seq<TextFragment> {
        self.fragments@
    }
}

/// The fragments are exactly the segmentation of the line's own text,
/// each non-empty and correctly classified.
pub open spec fn line_wf(l: Line) -> bool {
    &&& graphemes_of(l@) == segments_of(l.text())
    &&& forall|i: int| 0 <= i < l@.len() ==> frag_wf(#[trigger] l@[i])
    &&& forall|i: int| 0 <= i < l@.len() ==> (#[trigger] l@[i]).grapheme@.len() > 0
}

/// A well-formed line whose text is empty has no fragments.
pub proof fn lemma_wf_empty_text(l: Line)
    requires
        line_wf(l),
        l.text().len() == 0,
    ensures
        l@ =~= Seq::<TextFragment>::empty(),
{
    let gs = graphemes_of(l@);
    assert(forall|i: int| 0 <= i < gs.len() ==> gs[i].len() > 0) by {
        assert(forall|i: int|
            0 <= i < gs.len() ==> gs[i] == (#[trigger] l@[i]).grapheme@);
    }
    crate::segment::lemma_join_len_lower_bound(gs);
}

fn is_single_char(s: &str, c: char) -> (r: bool)
    ensures
        r == (s@ == seq![c]),
{
    let n = s.unicode_len();
    if n == 1 {
        let c0 = s.get_char(0);
        if c0 == c {
            proof {
                assert(s@ =~= seq![c]);
            }
            true
        } else {
            proof {
                if s@ == seq![c] {
                    assert(s@[0] == c);
                }
            }
            false
        }
    } else {
        proof {
            if s@ == seq![c] {
                assert(s@.len() == 1);
            }
        }
        false
    }
}

fn all_whitespace_exec(s: &str) -> (r: bool)
    ensures
        r == all_whitespace(s@),
{
    let n = s.unicode_len();
    let mut i: usize = 0;
    while i < n
        invariant
            i <= n,
            n == s@.len(),
            forall|j: int| 0 <= j < i ==> is_whitespace_of(s@[j]),
        decreases n - i,
    {
        if !is_whitespace_char(s.get_char(i)) {
            return false;
        }
        i += 1;
    }
    true
}

fn replacement_character(s: &str) -> (r: Option<char>)
    ensures
        r == replacement_spec(s@),
{
    if is_single_char(s, ' ') {
        return None;
    }
    if is_single_char(s, '\t') {
        return Some(' ');
    }
    let w = str_width(s);
    if w > 0 && all_whitespace_exec(s) {
        return Some('\u{2423}');
    }
    if w == 0 {
        if s.unicode_len() == 1 && is_control_char(s.get_char(0)) {
            return Some('\u{25af}');
        }
        return Some('\u{00b7}');
    }
    None
}

fn make_fragment(g: &str) -> (f: TextFragment)
    ensures
        f.grapheme@ == g@,
        frag_wf(f),
{
    let replacement = replacement_character(g);
    let rendered_width = match replacement {
        Some(_) => GraphemeWidth::Half,
        None => {
            let w = str_width(g);
            if w <= 1 {
                GraphemeWidth::Half
            } else {
                GraphemeWidth::Full
            }
        },
    };
    TextFragment { grapheme: String::from_str(g), rendered_width, replacement }
}

fn str_to_fragments(s: &str) -> (v: Vec<TextFragment>)
    ensures
        graphemes_of(v@) == segments_of(s@),
        line_text(v@) == s@,
        forall|i: int| 0 <= i < v@.len() ==> frag_wf(#[trigger] v@[i]),
        forall|i: int| 0 <= i < v@.len() ==> #[trigger] v@[i].grapheme@.len() > 0,
{
    let gs = grapheme_split(s);
    let ghost gseqs = gs@.map_values(|g: String| g@);
    let mut v: Vec<TextFragment> = Vec::new();
    let mut i: usize = 0;
    while i < gs.len()
        invariant
            i <= gs.len(),
            gseqs == gs@.map_values(|g: String| g@),
            v@.len() == i,
            forall|j: int| 0 <= j < i ==> #[trigger] v@[j].grapheme@ == gseqs[j],
            forall|j: int| 0 <= j < i ==> frag_wf(#[trigger] v@[j]),
        decreases gs.len() - i,
    {
        let f = make_fragment(gs[i].as_str());
        v.push(f);
        i += 1;
    }
    proof {
        assert(graphemes_of(v@) =~= gseqs);
        assert(forall|j: int|
            0 <= j < v@.len() ==> #[trigger] v@[j].grapheme@.len() == gseqs[j].len());
    }
    v
}

/// The glyph that marks a fragment only partly inside the window.
pub open spec fn truncation_marker() -> char {
    '\u{22ef}'
}

/// What a walk of the fragments draws for the column window
/// `[start, end)`, starting the walk at column `pos`: a fragment fully
/// inside the window contributes its replacement or its text, one that
/// straddles a window edge contributes a single truncation marker, and
/// one outside contributes nothing.
pub open spec fn visible_rec(frags: Seq<TextFragment>, pos: nat, start: int, end: int) -> Seq<
    char,
>
    decreases frags.len(),
{
    if frags.len() == 0 {
        Seq::empty()
    } else if pos >= end {
        Seq::empty()
    } else {
        let f = frags[0];
        let fend = cap_usize(pos + frag_width(f));
        let piece = if fend > start {
            if fend > end || pos < start {
                seq![truncation_marker()]
            } else if f.replacement is Some {
                seq![f.replacement.unwrap()]
            } else {
                f.grapheme@
            }
        } else {
            Seq::<char>::empty()
        };
        piece + visible_rec(frags.drop_first(), fend, start, end)
    }
}

/// The text drawn for the column window `[start, end)`; an empty or
/// inverted window draws nothing.
pub open spec fn visible_spec(frags: Seq<TextFragment>, start: int, end: int) -> Seq<char> {
    if start >= end {
        Seq::empty()
    } else {
        visible_rec(frags, 0, start, end)
    }
}

/// A count capped at the largest value a `usize` can hold.
pub open spec fn cap_usize(n: nat) -> nat {
    if n > usize::MAX {
        usize::MAX as nat
    } else {
        n
    }
}

/// The sum of the rendered widths of the first `k` fragments; indices
/// past the end contribute nothing.
pub open spec fn prefix_width(frags: Seq<TextFragment>, k: int) -> nat
    decreases k,
{
    if k <= 0 {
        0
    } else {
        prefix_width(frags, k - 1) + if k - 1 < frags.len() {
            frag_width(frags[k - 1])
        } else {
            0
        }
    }
}

/// The text that inserting character `c` before fragment `i` produces;
/// an index past the end appends at the end.
pub open spec fn spliced_text(frags: Seq<TextFragment>, c: char, i: int) -> Seq<char> {
    let k = if i <= frags.len() {
        i
    } else {
        frags.len() as int
    };
    join(graphemes_of(frags).take(k)) + seq![c] + join(graphemes_of(frags).skip(k))
}

/// The text that removing fragment `i` leaves; an index past the end
/// leaves the text unchanged.
pub open spec fn deleted_text(frags: Seq<TextFragment>, i: int) -> Seq<char> {
    if 0 <= i < frags.len() {
        join(graphemes_of(frags).take(i)) + join(graphemes_of(frags).skip(i + 1))
    } else {
        line_text(frags)
    }
}

impl GraphemeWidth {
    pub fn saturating_add(self, other: usize) -> (r: usize)
        ensures
            r as nat == cap_usize(other as nat + width_val(self)),
    {
        match self {
            GraphemeWidth::Half => other.saturating_add(1),
            GraphemeWidth::Full => other.saturating_add(2),
        }
    }
}

impl Line {
    /// The text of the line: its fragments' graphemes concatenated.
    pub open spec fn text(&self) -> Seq<char> {
        line_text(self@)
    }

    /// Segments a raw text line into its grapheme fragments.
    pub fn from(line_str: &str) -> (l: Line)
        ensures
            l.text() == line_str@,
            line_wf(l),
    {
        Line { fragments: str_to_fragments(line_str) }
    }

    pub fn graphemes_len(&self) -> (n: usize)
        ensures
            n == self@.len(),
    {
        self.fragments.len()
    }

    /// Splices one character in before the fragment at `grapheme_index`
    /// (at the end when the index is past it) and re-segments the line.
    pub fn insert(&mut self, c: char, grapheme_index: usize)
        ensures
            final(self).text() == spliced_text(old(self)@, c, grapheme_index as int),
            line_wf(*final(self)),
    {
        let ghost gs = graphemes_of(self@);
        let ghost k: int = if grapheme_index <= self@.len() {
            grapheme_index as int
        } else {
            self@.len() as int
        };
        let mut result = String::new();
        let mut idx: usize = 0;
        while idx < self.fragments.len()
            invariant
                idx <= self.fragments@.len(),
                *self == *old(self),
                gs == graphemes_of(self@),
                k == if grapheme_index <= self@.len() {
                    grapheme_index as int
                } else {
                    self@.len() as int
                },
                result@ == if idx <= k {
                    join(gs.take(idx as int))
                } else {
                    join(gs.take(k)) + seq![c] + join(gs.subrange(k, idx as int))
                },
            decreases self.fragments@.len() - idx,
        {
            if idx == grapheme_index {
                push_char(&mut result, c);
                proof {
                    let sub = gs.subrange(k, k);
                    assert(sub =~= Seq::<Seq<char>>::empty());
                    assert(join(sub) =~= Seq::<char>::empty());
                    assert(result@ =~= join(gs.take(k)) + seq![c] + join(sub));
                }
            }
            result.append(self.fragments[idx].grapheme.as_str());
            proof {
                if idx < k {
                    lemma_join_take_succ(gs, idx as int);
                    assert(result@ =~= join(gs.take(idx + 1)));
                } else {
                    lemma_join_subrange_succ(gs, k, idx as int);
                    assert(result@ =~= join(gs.take(k)) + seq![c] + join(
                        gs.subrange(k, idx + 1),
                    ));
                }
            }
            idx += 1;
        }
        if grapheme_index >= self.fragments.len() {
            push_char(&mut result, c);
        }
        proof {
            let n = gs.len() as int;
            assert(gs.take(n) =~= gs);
            if grapheme_index >= self@.len() {
                assert(gs.skip(k) =~= Seq::<Seq<char>>::empty());
                assert(join(gs.skip(k)) =~= Seq::<char>::empty());
                assert(result@ =~= spliced_text(self@, c, grapheme_index as int));
            } else {
                assert(gs.subrange(k, n) =~= gs.skip(k));
                assert(result@ =~= spliced_text(self@, c, grapheme_index as int));
            }
        }
        self.fragments = str_to_fragments(result.as_str());
    }

    /// Removes the fragment at `grapheme_index` and re-segments the
    /// remaining text; an index past the end removes nothing.
    pub fn delete(&mut self, grapheme_index: usize)
        ensures
            final(self).text() == deleted_text(old(self)@, grapheme_index as int),
            line_wf(*final(self)),
    {
        let ghost gs = graphemes_of(self@);
        let ghost gi = grapheme_index as int;
        let mut result = String::new();
        let mut idx: usize = 0;
        while idx < self.fragments.len()
            invariant
                idx <= self.fragments@.len(),
                *self == *old(self),
                gs == graphemes_of(self@),
                gi == grapheme_index as int,
                result@ == if idx <= gi {
                    join(gs.take(idx as int))
                } else {
                    join(gs.take(gi)) + join(gs.subrange(gi + 1, idx as int))
                },
            decreases self.fragments@.len() - idx,
        {
            if idx != grapheme_index {
                result.append(self.fragments[idx].grapheme.as_str());
                proof {
                    if idx < gi {
                        lemma_join_take_succ(gs, idx as int);
                        assert(result@ =~= join(gs.take(idx + 1)));
                    } else {
                        lemma_join_subrange_succ(gs, gi + 1, idx as int);
                        assert(result@ =~= join(gs.take(gi)) + join(
                            gs.subrange(gi + 1, idx + 1),
                        ));
                    }
                }
            } else {
                proof {
                    let sub = gs.subrange(gi + 1, gi + 1);
                    assert(sub =~= Seq::<Seq<char>>::empty());
                    assert(join(sub) =~= Seq::<char>::empty());
                    assert(result@ =~= join(gs.take(gi)) + join(sub));
                }
            }
            idx += 1;
        }
        proof {
            let n = gs.len() as int;
            assert(gs.take(n) =~= gs);
            if gi < n {
                assert(gs.subrange(gi + 1, n) =~= gs.skip(gi + 1));
                assert(result@ =~= deleted_text(self@, gi));
            } else {
                assert(result@ =~= deleted_text(self@, gi));
            }
        }
        self.fragments = str_to_fragments(result.as_str());
    }

    /// Concatenates another line's text onto this one and re-segments.
    pub fn append(&mut self, other: &Line)
        ensures
            final(self).text() == old(self).text() + other.text(),
            line_wf(*final(self)),
    {
        let ghost ga = graphemes_of(self@);
        let ghost gb = graphemes_of(other@);
        let mut merged = String::new();
        let mut idx: usize = 0;
        while idx < self.fragments.len()
            invariant
                idx <= self.fragments@.len(),
                *self == *old(self),
                ga == graphemes_of(self@),
                merged@ == join(ga.take(idx as int)),
            decreases self.fragments@.len() - idx,
        {
            merged.append(self.fragments[idx].grapheme.as_str());
            proof {
                lemma_join_take_succ(ga, idx as int);
                assert(merged@ =~= join(ga.take(idx + 1)));
            }
            idx += 1;
        }
        proof {
            assert(ga.take(ga.len() as int) =~= ga);
        }
        let mut jdx: usize = 0;
        while jdx < other.fragments.len()
            invariant
                jdx <= other.fragments@.len(),
                gb == graphemes_of(other@),
                ga == graphemes_of(old(self)@),
                merged@ == join(ga) + join(gb.take(jdx as int)),
            decreases other.fragments@.len() - jdx,
        {
            merged.append(other.fragments[jdx].grapheme.as_str());
            proof {
                lemma_join_take_succ(gb, jdx as int);
                assert(merged@ =~= join(ga) + join(gb.take(jdx + 1)));
            }
            jdx += 1;
        }
        proof {
            assert(gb.take(gb.len() as int) =~= gb);
        }
        self.fragments = str_to_fragments(merged.as_str());
    }

    /// Moves the fragments from `split_index` onward into a new line,
    /// keeping the ones before it; an index past the end changes
    /// nothing and hands back an empty line.
    pub fn split(&mut self, split_index: usize) -> (rest: Line)
        ensures
            split_index <= old(self)@.len() ==> {
                &&& final(self)@ == old(self)@.subrange(0, split_index as int)
                &&& rest@ == old(self)@.subrange(
                    split_index as int,
                    old(self)@.len() as int,
                )
                &&& final(self).text() + rest.text() == old(self).text()
            },
            split_index > old(self)@.len() ==> {
                &&& *final(self) == *old(self)
                &&& rest@ == Seq::<TextFragment>::empty()
            },
    {
        if split_index > self.fragments.len() {
            return Line::default();
        }
        let ghost gs = graphemes_of(self@);
        let split_fragments = self.fragments.split_off(split_index);
        let rest = Line { fragments: split_fragments };
        proof {
            let k = split_index as int;
            assert(graphemes_of(self@) =~= gs.take(k));
            assert(graphemes_of(rest@) =~= gs.skip(k));
            lemma_join_take_skip(gs, k);
        }
        rest
    }

    /// The line's text as a string.
    pub fn line_to_string(&self) -> (s: String)
        ensures
            s@ == self.text(),
    {
        let ghost gs = graphemes_of(self@);
        let mut result = String::new();
        let mut idx: usize = 0;
        while idx < self.fragments.len()
            invariant
                idx <= self.fragments@.len(),
                gs == graphemes_of(self@),
                result@ == join(gs.take(idx as int)),
            decreases self.fragments@.len() - idx,
        {
            result.append(self.fragments[idx].grapheme.as_str());
            proof {
                lemma_join_take_succ(gs, idx as int);
                assert(result@ =~= join(gs.take(idx + 1)));
            }
            idx += 1;
        }
        proof {
            assert(gs.take(gs.len() as int) =~= gs);
        }
        result
    }

    /// The text to draw for the column window `range`, with straddling
    /// fragments shown as a truncation marker and replaced fragments
    /// shown as their replacement glyph.
    pub fn get_visible_graphemes(&self, range: core::ops::Range<usize>) -> (s: String)
        ensures
            s@ == visible_spec(self@, range.start as int, range.end as int),
    {
        let start = range.start;
        let end = range.end;
        if start >= end {
            return String::new();
        }
        let mut result = String::new();
        let mut current_pos: usize = 0;
        let mut idx: usize = 0;
        proof {
            assert(self@.skip(0) =~= self@);
            assert(result@ + visible_rec(self@, 0, start as int, end as int) =~= visible_rec(
                self@,
                0,
                start as int,
                end as int,
            ));
        }
        while idx < self.fragments.len() && current_pos < end
            invariant
                idx <= self.fragments@.len(),
                start < end,
                visible_rec(self@, 0, start as int, end as int) == result@ + visible_rec(
                    self@.skip(idx as int),
                    current_pos as nat,
                    start as int,
                    end as int,
                ),
            decreases self.fragments@.len() - idx,
        {
            let ghost tail = self@.skip(idx as int);
            let ghost r0 = result@;
            let ghost pos0 = current_pos as nat;
            let fragment = &self.fragments[idx];
            let fragment_end = fragment.rendered_width.saturating_add(current_pos);
            proof {
                assert(tail[0] == self@[idx as int]);
                assert(tail.drop_first() =~= self@.skip(idx + 1));
            }
            let ghost piece = {
                let f = tail[0];
                let fend = cap_usize(pos0 + frag_width(f));
                if fend > start {
                    if fend > end || pos0 < start {
                        seq![truncation_marker()]
                    } else if f.replacement is Some {
                        seq![f.replacement.unwrap()]
                    } else {
                        f.grapheme@
                    }
                } else {
                    Seq::<char>::empty()
                }
            };
            if fragment_end > start {
                if fragment_end > end || current_pos < start {
                    push_char(&mut result, '\u{22ef}');
                    proof {
                        assert(result@ =~= r0 + piece);
                    }
                } else if let Some(ch) = fragment.replacement {
                    push_char(&mut result, ch);
                    proof {
                        assert(result@ =~= r0 + piece);
                    }
                } else {
                    result.append(fragment.grapheme.as_str());
                }
            } else {
                proof {
                    assert(result@ =~= r0 + piece);
                }
            }
            proof {
                assert(visible_rec(tail, pos0, start as int, end as int) == piece + visible_rec(
                    tail.drop_first(),
                    cap_usize(pos0 + frag_width(tail[0])),
                    start as int,
                    end as int,
                ));
                assert(result@ + visible_rec(
                    self@.skip(idx + 1),
                    fragment_end as nat,
                    start as int,
                    end as int,
                ) =~= r0 + visible_rec(tail, pos0, start as int, end as int));
            }
            current_pos = fragment_end;
            idx += 1;
        }
        proof {
            if idx == self@.len() {
                assert(self@.skip(idx as int) =~= Seq::<TextFragment>::empty());
            }
            assert(visible_rec(
                self@.skip(idx as int),
                current_pos as nat,
                start as int,
                end as int,
            ) =~= Seq::<char>::empty());
        }
        result
    }

    /// The total rendered width of the fragments strictly before
    /// `grapheme_index`: the column at which that grapheme starts.
    pub fn get_previous_width(&self, grapheme_index: usize) -> (w: usize)
        ensures
            w as nat == cap_usize(prefix_width(self@, grapheme_index as int)),
    {
        let end = if grapheme_index < self.fragments.len() {
            grapheme_index
        } else {
            self.fragments.len()
        };
        let mut w: usize = 0;
        let mut i: usize = 0;
        while i < end
            invariant
                i <= end,
                end <= self.fragments@.len(),
                end == if grapheme_index < self@.len() {
                    grapheme_index as int
                } else {
                    self@.len() as int
                },
                w as nat == cap_usize(prefix_width(self@, i as int)),
            decreases end - i,
        {
            w = self.fragments[i].rendered_width.saturating_add(w);
            i += 1;
        }
        proof {
            if grapheme_index >= self@.len() {
                lemma_prefix_width_clip(self@, grapheme_index as int);
            }
        }
        w
    }
}

/// Past the end of the fragments the prefix width no longer grows.
pub proof fn lemma_prefix_width_clip(frags: Seq<TextFragment>, k: int)
    requires
        k >= frags.len(),
    ensures
        prefix_width(frags, k) == prefix_width(frags, frags.len() as int),
    decreases k,
{
    if k > frags.len() {
        lemma_prefix_width_clip(frags, k - 1);
    }
}

/// The column of a grapheme never decreases as its index grows.
pub proof fn lemma_prefix_width_monotone(frags: Seq<TextFragment>, i: int, j: int)
    requires
        i <= j,
    ensures
        prefix_width(frags, i) <= prefix_width(frags, j),
    decreases j - i,
{
    if i < j {
        lemma_prefix_width_monotone(frags, i, j - 1);
    }
}

/// The sum of the rendered widths of all fragments.
pub open spec fn total_width(frags: Seq<TextFragment>) -> nat
    decreases frags.len(),
{
    if frags.len() == 0 {
        0
    } else {
        frag_width(frags[0]) + total_width(frags.drop_first())
    }
}

proof fn lemma_prefix_width_drop_first(frags: Seq<TextFragment>, k: int)
    requires
        1 <= k <= frags.len(),
    ensures
        prefix_width(frags, k) == frag_width(frags[0]) + prefix_width(frags.drop_first(), k - 1),
    decreases k,
{
    let rest = frags.drop_first();
    if k > 1 {
        lemma_prefix_width_drop_first(frags, k - 1);
        assert(rest[k - 2] == frags[k - 1]);
        assert(prefix_width(rest, k - 1) == prefix_width(rest, k - 2) + frag_width(rest[k - 2]));
        assert(prefix_width(frags, k) == prefix_width(frags, k - 1) + frag_width(frags[k - 1]));
    } else {
        assert(prefix_width(frags, 1) == prefix_width(frags, 0) + frag_width(frags[0]));
        assert(prefix_width(rest, 0) == 0);
    }
}

/// The prefix width taken over the whole line is the sum of all
/// fragment widths.
pub proof fn lemma_prefix_width_total(frags: Seq<TextFragment>)
    ensures
        prefix_width(frags, frags.len() as int) == total_width(frags),
    decreases frags.len(),
{
    if frags.len() > 0 {
        lemma_prefix_width_drop_first(frags, frags.len() as int);
        lemma_prefix_width_total(frags.drop_first());
    }
}

/// Concatenating all fragments' original graphemes reproduces exactly
/// the text the line stands for: a line built by `Line::from` ensures
/// `l.text() == input`, and the text is by definition the join of its
/// fragments' graphemes, whatever the input held.
pub proof fn lemma_segmentation_round_trip(l: Line, input: Seq<char>)
    requires
        l.text() == input,
    ensures
        join(graphemes_of(l@)) == input,
{
}

/// Inserting a character before grapheme `i` and then deleting the
/// grapheme at `i` restores the original grapheme sequence and text.
/// The hypothesis on `segments_of` says that the inserted character
/// formed a cluster of its own rather than combining with an adjacent
/// cluster; when it combines, the deletion removes the combined
/// cluster and the round trip does not hold.
pub proof fn lemma_insert_delete_inverse(l0: Line, l1: Line, l2: Line, c: char, i: int)
    requires
        0 <= i <= l0@.len(),
        line_wf(l0),
        line_wf(l1),
        l1.text() == spliced_text(l0@, c, i),
        segments_of(l1.text()) == graphemes_of(l0@).insert(i, seq![c]),
        line_wf(l2),
        l2.text() == deleted_text(l1@, i),
    ensures
        graphemes_of(l2@) == graphemes_of(l0@),
        l2.text() == l0.text(),
{
    let g0 = graphemes_of(l0@);
    let g1 = graphemes_of(l1@);
    assert(g1 == g0.insert(i, seq![c]));
    assert(l1@.len() == g1.len());
    assert(g1.len() == g0.len() + 1);
    assert(g1.take(i) =~= g0.take(i));
    assert(g1.skip(i + 1) =~= g0.skip(i));
    lemma_join_take_skip(g0, i);
    assert(l2.text() == l0.text());
    assert(graphemes_of(l2@) == segments_of(l2.text()));
    assert(segments_of(l0.text()) == g0);
}

/// Splitting a line at a valid index and appending the tail back onto
/// the head reconstructs the original line's text.
pub proof fn lemma_split_append_inverse(l0: Line, head: Line, rest: Line, merged: Line, i: int)
    requires
        0 <= i <= l0@.len(),
        head@ == l0@.subrange(0, i),
        rest@ == l0@.subrange(i, l0@.len() as int),
        merged.text() == head.text() + rest.text(),
    ensures
        merged.text() == l0.text(),
{
    let g0 = graphemes_of(l0@);
    assert(graphemes_of(head@) =~= g0.take(i));
    assert(graphemes_of(rest@) =~= g0.skip(i));
    lemma_join_take_skip(g0, i);
}

impl Default for Line {
    fn default() -> (l: Line)
        ensures
            l@ == Seq::<TextFragment>::empty(),
    {
        Line { fragments: Vec::new() }
    }
}

} // verus!
