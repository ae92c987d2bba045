//! The viewport and caret controller: it owns the document, the
//! caret's logical position, the window size, and the scroll offset,
//! and turns commands into edits, caret moves, and the text to draw
//! for each screen row.

use crate::buffer::{
    buf_delete_post, buf_enter_post, buf_insert_post, buf_merge_post, content_spec, lines_spec,
    Buffer,
};
use crate::command::{Command, Direction, EditCommand};
use crate::line::{cap_usize, line_wf, prefix_width, visible_spec};
use crate::position::{sat_sub, Position, Size};
use crate::segment::{push_char, spaces};
use crate::status::DocumentStatus;
use vstd::prelude::*;
use vstd::view::View as VstdView;

verus! {

/// The caret's logical position: a line index and a grapheme index
/// within that line. The grapheme index may equal the line's grapheme
/// count (caret after the last character).
#[derive(Clone, Copy, Debug, PartialEq, Eq, Structural)]
pub struct Location {
    pub grapheme_index: usize,
    pub line_index: usize,
}

pub struct View {
    buffer: Buffer,
    needs_redraw: bool,
    size: Size,
    text_location: Location,
    scroll_offset: Position,
    margin_bottom: usize,
}

/// The minimal adjustment that brings `coord` into the window of
/// `extent` cells starting at `off`: scroll back exactly to the
/// coordinate, or forward exactly enough to make it the last visible
/// cell; a window of no extent is left where it is.
pub open spec fn axis_fix(off: int, coord: int, extent: int) -> int {
    if extent <= 0 {
        off
    } else if coord < off {
        coord
    } else if coord >= cap_usize((off + extent) as nat) {
        coord - extent + 1
    } else {
        off
    }
}

impl View {
    pub closed spec fn buf(self) -> Buffer {
        self.buffer
    }

    pub closed spec fn caret(self) -> Location {
        self.text_location
    }

    pub closed spec fn vsize(self) -> Size {
        self.size
    }

    pub closed spec fn scroll(self) -> Position {
        self.scroll_offset
    }

    pub closed spec fn redraw(self) -> bool {
        self.needs_redraw
    }

    pub closed spec fn margin(self) -> usize {
        self.margin_bottom
    }

    pub open spec fn line_count(self) -> int {
        self.buf().lines@.len() as int
    }

    /// The grapheme count of row `i`; rows outside the document count
    /// as empty.
    pub open spec fn line_len(self, i: int) -> int {
        if 0 <= i < self.line_count() {
            self.buf().lines@[i]@.len() as int
        } else {
            0
        }
    }

    /// The caret stays on a document row, or on the row just past the
    /// last one only at its start.
    pub open spec fn inv(self) -> bool {
        &&& self.caret().line_index <= self.line_count()
        &&& self.caret().line_index == self.line_count() ==> self.caret().grapheme_index == 0
    }

    /// The caret's render row.
    pub open spec fn caret_row(self) -> int {
        self.caret().line_index as int
    }

    /// The caret's render column: the total width of the graphemes of
    /// its line before it.
    pub open spec fn caret_col(self) -> int {
        let l = self.caret().line_index as int;
        if l < self.line_count() {
            cap_usize(
                prefix_width(self.buf().lines@[l]@, self.caret().grapheme_index as int),
            ) as int
        } else {
            0
        }
    }

    /// The caret's position before clamping, for each direction.
    pub open spec fn moved(self, d: Direction) -> (int, int) {
        let g = self.caret().grapheme_index as int;
        let l = self.caret().line_index as int;
        let h = self.vsize().height as int;
        match d {
            Direction::Up => (g, sat_sub(l, 1)),
            Direction::Down => (
                g,
                if l < usize::MAX as int {
                    l + 1
                } else {
                    l
                },
            ),
            Direction::Left => (sat_sub(g, 1), l),
            Direction::Right => (
                if g < usize::MAX as int {
                    g + 1
                } else {
                    g
                },
                l,
            ),
            Direction::PageUp => (g, 0),
            Direction::PageDown => (g, sat_sub(h, 1)),
            Direction::Home => (0, l),
            Direction::End => (self.line_len(l), l),
        }
    }

    /// A raw caret position clamped to the document: the line index to
    /// the existing rows (or 0 when there are none), then the grapheme
    /// index to that line's length.
    pub open spec fn clamped(self, raw: (int, int)) -> (int, int) {
        let n = self.line_count();
        let l = if n == 0 {
            0
        } else if raw.1 > n - 1 {
            n - 1
        } else {
            raw.1
        };
        let g = if raw.0 > self.line_len(l) {
            self.line_len(l)
        } else {
            raw.0
        };
        (g, l)
    }
}

/// The scroll offset after a caret change: each axis independently
/// receives the minimal adjustment that keeps the caret visible.
pub open spec fn scroll_fixed(pre: View, post: View) -> bool {
    &&& post.scroll().col as int == axis_fix(
        pre.scroll().col as int,
        post.caret_col(),
        post.vsize().width as int,
    )
    &&& post.scroll().row as int == axis_fix(
        pre.scroll().row as int,
        post.caret_row(),
        post.vsize().height as int,
    )
}

/// What a caret move does: the caret lands on the clamped target, the
/// document is untouched, the scroll offset is minimally adjusted, and
/// a redraw is pending exactly when one already was or the offset
/// changed.
pub open spec fn move_post(pre: View, post: View, d: Direction) -> bool {
    &&& post.buf() == pre.buf()
    &&& post.vsize() == pre.vsize()
    &&& post.margin() == pre.margin()
    &&& post.caret().grapheme_index as int == pre.clamped(pre.moved(d)).0
    &&& post.caret().line_index as int == pre.clamped(pre.moved(d)).1
    &&& scroll_fixed(pre, post)
    &&& post.redraw() == (pre.redraw() || post.scroll() != pre.scroll())
}

/// The banner shown on an empty document: a tilde, then the welcome
/// text centered in the rest of the width; just a tilde when the text
/// does not fit, and nothing at all in a zero-width window.
pub open spec fn welcome_spec(width: int) -> Seq<char> {
    if width <= 0 {
        Seq::empty()
    } else {
        let msg = "hecto editor"@;
        let rem = width - 1;
        if rem < msg.len() {
            seq!['~']
        } else {
            let excess = rem - msg.len();
            seq!['~'] + spaces(excess / 2) + msg + spaces(excess - excess / 2)
        }
    }
}

/// The text drawn on screen row `r`: the visible slice of the document
/// row it shows, the welcome banner on an empty document's banner row,
/// or a tilde marking a row past the end of the document.
pub open spec fn row_text_spec(v: View, r: int) -> Seq<char> {
    let doc_row = cap_usize((r + v.scroll().row) as nat) as int;
    if doc_row < v.line_count() {
        visible_spec(
            v.buf().lines@[doc_row]@,
            v.scroll().col as int,
            cap_usize((v.scroll().col + v.vsize().width) as nat) as int,
        )
    } else if v.line_count() == 0 && r == v.vsize().height as int / 3 {
        welcome_spec(v.vsize().width as int)
    } else {
        seq!['~']
    }
}

/// Builds the welcome banner for the given width.
fn build_welcome_msg(width: usize) -> (s: String)
    ensures
        s@ == welcome_spec(width as int),
{
    if width == 0 {
        return String::new();
    }
    let msg = "hecto editor";
    let msg_len = msg.unicode_len();
    let remaining_width = width - 1;
    if remaining_width < msg_len {
        let mut t = String::new();
        push_char(&mut t, '~');
        proof {
            assert(t@ =~= seq!['~']);
        }
        return t;
    }
    let excess = remaining_width - msg_len;
    let left = excess / 2;
    let right = excess - left;
    let mut s = String::new();
    push_char(&mut s, '~');
    proof {
        assert(s@ =~= seq!['~'] + spaces(0));
    }
    let mut i: usize = 0;
    while i < left
        invariant
            i <= left,
            s@ == seq!['~'] + spaces(i as int),
        decreases left - i,
    {
        push_char(&mut s, ' ');
        proof {
            assert(s@ =~= seq!['~'] + spaces(i + 1));
        }
        i += 1;
    }
    s.append(msg);
    let ghost head = seq!['~'] + spaces(left as int) + msg@;
    proof {
        assert(s@ =~= head + spaces(0));
    }
    let mut j: usize = 0;
    while j < right
        invariant
            j <= right,
            head == seq!['~'] + spaces(left as int) + msg@,
            s@ == head + spaces(j as int),
        decreases right - j,
    {
        push_char(&mut s, ' ');
        proof {
            assert(s@ =~= head + spaces(j + 1));
        }
        j += 1;
    }
    proof {
        assert(s@ =~= seq!['~'] + spaces(excess as int / 2) + msg@ + spaces(
            excess as int - excess as int / 2,
        ));
    }
    s
}

/// What inserting a character at the caret does: the character is
/// spliced into the caret's row (created first when the caret sits
/// just past the last row), the caret advances one grapheme, the
/// scroll follows it, and a redraw is pending.
pub open spec fn insert_post(pre: View, post: View, c: char) -> bool {
    &&& buf_insert_post(
        pre.buf(),
        post.buf(),
        pre.caret().line_index as int,
        c,
        pre.caret().grapheme_index as int,
    )
    &&& post.caret().line_index == pre.caret().line_index
    &&& post.caret().grapheme_index == pre.caret().grapheme_index.saturating_add(1)
    &&& post.vsize() == pre.vsize()
    &&& post.margin() == pre.margin()
    &&& scroll_fixed(pre, post)
    &&& post.redraw()
}

/// What backspace does: at the very start of the document nothing; at
/// the start of a later row the caret jumps to the end of the previous
/// row and the rows merge; elsewhere the grapheme before the caret is
/// deleted and the caret steps back.
pub open spec fn backspace_post(pre: View, post: View) -> bool {
    let g = pre.caret().grapheme_index as int;
    let l = pre.caret().line_index as int;
    let n = pre.line_count();
    if g == 0 && l == 0 {
        post == pre
    } else {
        &&& post.vsize() == pre.vsize()
        &&& post.margin() == pre.margin()
        &&& scroll_fixed(pre, post)
        &&& post.redraw()
        &&& if g == 0 {
            &&& post.caret().line_index as int == l - 1
            &&& post.caret().grapheme_index as int == pre.line_len(l - 1)
            &&& if l < n {
                buf_merge_post(pre.buf(), post.buf(), l - 1, l)
            } else {
                post.buf() == pre.buf()
            }
        } else {
            &&& post.caret().line_index as int == l
            &&& post.caret().grapheme_index as int == g - 1
            &&& buf_delete_post(pre.buf(), post.buf(), l, g - 1)
        }
    }
}

/// What forward delete does: inside a row the grapheme at the caret is
/// deleted; at the end of a row that has a successor the two rows
/// merge; at the end of the last row, or in an empty document,
/// nothing. The caret does not move.
pub open spec fn delete_post(pre: View, post: View) -> bool {
    let g = pre.caret().grapheme_index as int;
    let l = pre.caret().line_index as int;
    let n = pre.line_count();
    if n == 0 {
        post == pre
    } else if g < pre.line_len(l) {
        &&& buf_delete_post(pre.buf(), post.buf(), l, g)
        &&& post.caret() == pre.caret()
        &&& post.vsize() == pre.vsize()
        &&& post.margin() == pre.margin()
        &&& scroll_fixed(pre, post)
        &&& post.redraw()
    } else if l < n - 1 {
        &&& buf_merge_post(pre.buf(), post.buf(), l, l + 1)
        &&& post.caret() == pre.caret()
        &&& post.vsize() == pre.vsize()
        &&& post.margin() == pre.margin()
        &&& scroll_fixed(pre, post)
        &&& post.redraw()
    } else {
        post == pre
    }
}

/// What a line break does: the caret's row is broken at the caret and
/// the caret lands at the start of the following row.
pub open spec fn enter_post(pre: View, post: View) -> bool {
    &&& buf_enter_post(
        pre.buf(),
        post.buf(),
        pre.caret().line_index as int,
        pre.caret().grapheme_index as int,
    )
    &&& post.caret().line_index as int == pre.caret().line_index + 1
    &&& post.caret().grapheme_index == 0
    &&& post.vsize() == pre.vsize()
    &&& post.margin() == pre.margin()
    &&& scroll_fixed(pre, post)
    &&& post.redraw()
}

/// What a resize does: the viewport takes the new width and the new
/// height less the bottom margin, the caret is scrolled back into
/// view, and a redraw is pending.
pub open spec fn resize_post(pre: View, post: View, to: Size) -> bool {
    &&& post.buf() == pre.buf()
    &&& post.caret() == pre.caret()
    &&& post.margin() == pre.margin()
    &&& post.vsize().width == to.width
    &&& post.vsize().height as int == sat_sub(to.height as int, pre.margin() as int)
    &&& scroll_fixed(pre, post)
    &&& post.redraw()
}

/// The distance between two scroll offsets.
pub open spec fn dist(a: int, b: int) -> int {
    if a >= b {
        a - b
    } else {
        b - a
    }
}

/// On one axis, the adjusted offset keeps the coordinate inside the
/// window.
pub proof fn lemma_axis_fix_contains(off: int, coord: int, extent: int)
    requires
        0 <= off,
        0 <= coord <= usize::MAX as int,
        0 < extent,
    ensures
        axis_fix(off, coord, extent) <= coord < axis_fix(off, coord, extent) + extent,
{
}

/// On one axis, no offset nearer the previous one than the adjusted
/// one also keeps the coordinate inside the window: the adjustment is
/// minimal.
pub proof fn lemma_axis_fix_minimal(off: int, coord: int, extent: int, other: int)
    requires
        0 <= off,
        0 <= coord <= usize::MAX as int,
        0 < extent,
        off + extent <= usize::MAX as int,
        other <= coord < other + extent,
    ensures
        dist(off, axis_fix(off, coord, extent)) <= dist(off, other),
{
}

/// After any move, the caret's render position lies inside the
/// viewport on both axes.
pub proof fn lemma_move_scroll_contains(pre: View, post: View, d: Direction)
    requires
        move_post(pre, post, d),
        post.vsize().width > 0,
        post.vsize().height > 0,
    ensures
        post.scroll().col <= post.caret_col() < post.scroll().col + post.vsize().width,
        post.scroll().row <= post.caret_row() < post.scroll().row + post.vsize().height,
{
    lemma_axis_fix_contains(
        pre.scroll().col as int,
        post.caret_col(),
        post.vsize().width as int,
    );
    lemma_axis_fix_contains(
        pre.scroll().row as int,
        post.caret_row(),
        post.vsize().height as int,
    );
}

/// After any move, no scroll offset nearer the previous one than the
/// new one would also keep the caret visible on its axis: the scroll
/// never moves further than necessary.
pub proof fn lemma_move_scroll_minimal(
    pre: View,
    post: View,
    d: Direction,
    other_col: int,
    other_row: int,
)
    requires
        move_post(pre, post, d),
        post.vsize().width > 0,
        post.vsize().height > 0,
        pre.scroll().col + post.vsize().width <= usize::MAX as int,
        pre.scroll().row + post.vsize().height <= usize::MAX as int,
        other_col <= post.caret_col() < other_col + post.vsize().width,
        other_row <= post.caret_row() < other_row + post.vsize().height,
    ensures
        dist(pre.scroll().col as int, post.scroll().col as int) <= dist(
            pre.scroll().col as int,
            other_col,
        ),
        dist(pre.scroll().row as int, post.scroll().row as int) <= dist(
            pre.scroll().row as int,
            other_row,
        ),
{
    lemma_axis_fix_minimal(
        pre.scroll().col as int,
        post.caret_col(),
        post.vsize().width as int,
        other_col,
    );
    lemma_axis_fix_minimal(
        pre.scroll().row as int,
        post.caret_row(),
        post.vsize().height as int,
        other_row,
    );
}

/// After any single move, from any starting caret position, the caret
/// line lies within the document (or at 0 in an empty one) and the
/// grapheme index within its line's length. Nothing here depends on
/// the starting position, so the bound holds after every move of a
/// sequence.
pub proof fn lemma_move_clamped(pre: View, post: View, d: Direction)
    requires
        move_post(pre, post, d),
    ensures
        pre.line_count() > 0 ==> post.caret().line_index < pre.line_count(),
        pre.line_count() == 0 ==> post.caret().line_index == 0,
        post.caret().grapheme_index <= post.line_len(post.caret().line_index as int),
{
}

impl View {
    pub fn new(size: Size, margin_bottom: usize) -> (v: View)
        ensures
            v.inv(),
            v.line_count() == 0,
            v.buf().file_info.path is None,
            !v.buf().is_modified,
            v.caret() == (Location { grapheme_index: 0, line_index: 0 }),
            v.scroll() == (Position { col: 0, row: 0 }),
            v.vsize().width == size.width,
            v.vsize().height as int == sat_sub(size.height as int, margin_bottom as int),
            v.margin() == margin_bottom,
            v.redraw(),
    {
        View {
            buffer: Buffer::default(),
            needs_redraw: true,
            size: Size { width: size.width, height: size.height.saturating_sub(margin_bottom) },
            margin_bottom,
            text_location: Location { grapheme_index: 0, line_index: 0 },
            scroll_offset: Position { col: 0, row: 0 },
        }
    }

    fn line_len_exec(&self, i: usize) -> (n: usize)
        ensures
            n as int == self.line_len(i as int),
    {
        if i < self.buffer.lines.len() {
            self.buffer.lines[i].graphemes_len()
        } else {
            0
        }
    }

    fn text_location_to_position(&self) -> (p: Position)
        ensures
            p.col as int == self.caret_col(),
            p.row as int == self.caret_row(),
    {
        let row = self.text_location.line_index;
        let col = if row < self.buffer.lines.len() {
            self.buffer.lines[row].get_previous_width(self.text_location.grapheme_index)
        } else {
            0
        };
        Position { col, row }
    }

    /// The caret's position in viewport-local coordinates.
    pub fn get_caret_position(&self) -> (p: Position)
        ensures
            p.col as int == sat_sub(self.caret_col(), self.scroll().col as int),
            p.row as int == sat_sub(self.caret_row(), self.scroll().row as int),
    {
        self.text_location_to_position().subtract(self.scroll_offset)
    }

    fn scroll_location_into_view(&mut self)
        ensures
            final(self).buf() == old(self).buf(),
            final(self).caret() == old(self).caret(),
            final(self).vsize() == old(self).vsize(),
            final(self).margin() == old(self).margin(),
            scroll_fixed(*old(self), *final(self)),
            final(self).redraw() == (old(self).redraw() || final(self).scroll()
                != old(self).scroll()),
    {
        let p = self.text_location_to_position();
        let col = p.col;
        let row = p.row;
        let width = self.size.width;
        let height = self.size.height;
        let sx = self.scroll_offset.col;
        let sy = self.scroll_offset.row;
        let new_sy = if height == 0 {
            sy
        } else if row < sy {
            row
        } else if row >= sy.saturating_add(height) {
            row - height + 1
        } else {
            sy
        };
        let new_sx = if width == 0 {
            sx
        } else if col < sx {
            col
        } else if col >= sx.saturating_add(width) {
            col - width + 1
        } else {
            sx
        };
        let changed = new_sx != sx || new_sy != sy;
        self.needs_redraw = self.needs_redraw || changed;
        self.scroll_offset = Position { col: new_sx, row: new_sy };
    }

    /// Moves the caret in the given direction, clamps it to the
    /// document, and scrolls it into view.
    pub fn move_text_location(&mut self, direction: Direction)
        ensures
            move_post(*old(self), *final(self), direction),
            final(self).inv(),
    {
        let height = self.size.height;
        let mut grapheme_index = self.text_location.grapheme_index;
        let mut line_index = self.text_location.line_index;
        match direction {
            Direction::Up => {
                line_index = line_index.saturating_sub(1);
            },
            Direction::Down => {
                line_index = line_index.saturating_add(1);
            },
            Direction::Left => {
                grapheme_index = grapheme_index.saturating_sub(1);
            },
            Direction::Right => {
                grapheme_index = grapheme_index.saturating_add(1);
            },
            Direction::PageUp => {
                line_index = 0;
            },
            Direction::PageDown => {
                line_index = height.saturating_sub(1);
            },
            Direction::Home => {
                grapheme_index = 0;
            },
            Direction::End => {
                grapheme_index = self.line_len_exec(line_index);
            },
        }
        let count = self.buffer.lines.len();
        if count == 0 {
            line_index = 0;
        } else if line_index > count - 1 {
            line_index = count - 1;
        }
        let line_length = self.line_len_exec(line_index);
        if grapheme_index > line_length {
            grapheme_index = line_length;
        }
        self.text_location = Location { grapheme_index, line_index };
        self.scroll_location_into_view();
    }

    fn insert_char(&mut self, c: char)
        requires
            old(self).inv(),
        ensures
            insert_post(*old(self), *final(self), c),
            final(self).inv(),
    {
        let line_index = self.text_location.line_index;
        let grapheme_index = self.text_location.grapheme_index;
        self.buffer.insert_in_line(line_index, c, grapheme_index);
        self.text_location = Location {
            grapheme_index: grapheme_index.saturating_add(1),
            line_index,
        };
        self.scroll_location_into_view();
        self.needs_redraw = true;
    }

    fn backspace(&mut self)
        requires
            old(self).inv(),
        ensures
            backspace_post(*old(self), *final(self)),
            final(self).inv(),
    {
        let mut grapheme_index = self.text_location.grapheme_index;
        let mut line_index = self.text_location.line_index;
        if grapheme_index == 0 && line_index == 0 {
            return ;
        }
        if grapheme_index == 0 {
            let last_line_index = line_index - 1;
            let previous_length = self.line_len_exec(last_line_index);
            if line_index < self.buffer.lines.len() {
                self.buffer.merge(last_line_index, line_index);
            }
            grapheme_index = previous_length;
            line_index = last_line_index;
        } else {
            grapheme_index = grapheme_index - 1;
            self.buffer.delete(line_index, grapheme_index);
        }
        self.text_location = Location { grapheme_index, line_index };
        self.scroll_location_into_view();
        self.needs_redraw = true;
    }

    fn delete(&mut self)
        requires
            old(self).inv(),
        ensures
            delete_post(*old(self), *final(self)),
            final(self).inv(),
    {
        let grapheme_index = self.text_location.grapheme_index;
        let line_index = self.text_location.line_index;
        let count = self.buffer.lines.len();
        if count == 0 {
            return ;
        }
        let line_length = self.line_len_exec(line_index);
        if grapheme_index < line_length {
            self.buffer.delete(line_index, grapheme_index);
        } else if line_index < count - 1 {
            self.buffer.merge(line_index, line_index + 1);
        } else {
            return ;
        }
        self.scroll_location_into_view();
        self.needs_redraw = true;
    }

    fn enter(&mut self)
        requires
            old(self).inv(),
        ensures
            enter_post(*old(self), *final(self)),
            final(self).inv(),
    {
        let grapheme_index = self.text_location.grapheme_index;
        let line_index = self.text_location.line_index;
        self.buffer.enter(line_index, grapheme_index);
        let new_count = self.buffer.lines.len();
        proof {
            assert(line_index < new_count);
        }
        self.text_location = Location { grapheme_index: 0, line_index: line_index + 1 };
        self.scroll_location_into_view();
        self.needs_redraw = true;
    }

    fn resize(&mut self, to: Size)
        requires
            old(self).inv(),
        ensures
            resize_post(*old(self), *final(self), to),
            final(self).inv(),
    {
        self.size = Size {
            width: to.width,
            height: to.height.saturating_sub(self.margin_bottom),
        };
        self.scroll_location_into_view();
        self.needs_redraw = true;
    }

    /// Replaces the document with one loaded from the raw text of the
    /// named source, clamps the caret to the new document, and asks
    /// for a redraw.
    pub fn load(&mut self, file_name: &str, contents: &str)
        ensures
            final(self).buf().lines@.len() == lines_spec(contents@).len(),
            forall|i: int|
                0 <= i < lines_spec(contents@).len() ==> (#[trigger] final(self).buf().lines@[i]).text()
                    == lines_spec(contents@)[i],
            forall|i: int|
                0 <= i < lines_spec(contents@).len() ==> line_wf(
                    #[trigger] final(self).buf().lines@[i],
                ),
            !final(self).buf().is_modified,
            final(self).buf().file_info.path is Some,
            final(self).buf().file_info.path.unwrap()@ == file_name@,
            final(self).redraw(),
            final(self).vsize() == old(self).vsize(),
            final(self).margin() == old(self).margin(),
            final(self).scroll() == old(self).scroll(),
            final(self).caret().line_index as int == if old(self).caret().line_index as int
                > final(self).line_count() {
                final(self).line_count()
            } else {
                old(self).caret().line_index as int
            },
            final(self).caret().grapheme_index as int == if old(self).caret().grapheme_index as int
                > final(self).line_len(final(self).caret().line_index as int) {
                final(self).line_len(final(self).caret().line_index as int)
            } else {
                old(self).caret().grapheme_index as int
            },
            final(self).inv(),
    {
        self.buffer = Buffer::load(file_name, contents);
        let count = self.buffer.lines.len();
        let mut line_index = self.text_location.line_index;
        let mut grapheme_index = self.text_location.grapheme_index;
        if line_index > count {
            line_index = count;
        }
        let line_length = self.line_len_exec(line_index);
        if grapheme_index > line_length {
            grapheme_index = line_length;
        }
        self.text_location = Location { grapheme_index, line_index };
        self.needs_redraw = true;
    }

    /// The rows to draw, top to bottom, when a redraw is pending and
    /// the viewport has any height; clears the pending redraw.
    pub fn render(&mut self) -> (rows: Option<Vec<String>>)
        ensures
            (!old(self).redraw() || old(self).vsize().height == 0) ==> rows is None
                && *final(self) == *old(self),
            old(self).redraw() && old(self).vsize().height > 0 ==> {
                &&& rows is Some
                &&& rows.unwrap()@.len() == old(self).vsize().height
                &&& forall|r: int|
                    0 <= r < old(self).vsize().height ==> (#[trigger] rows.unwrap()@[r])@
                        == row_text_spec(*old(self), r)
                &&& final(self).buf() == old(self).buf()
                &&& final(self).caret() == old(self).caret()
                &&& final(self).scroll() == old(self).scroll()
                &&& final(self).vsize() == old(self).vsize()
                &&& final(self).margin() == old(self).margin()
                &&& !final(self).redraw()
            },
    {
        if !self.needs_redraw || self.size.height == 0 {
            return None;
        }
        let width = self.size.width;
        let height = self.size.height;
        let vertical_center = height / 3;
        let top = self.scroll_offset.row;
        let mut rows: Vec<String> = Vec::new();
        let mut r: usize = 0;
        while r < height
            invariant
                r <= height,
                *self == *old(self),
                width == self.vsize().width,
                height == self.vsize().height,
                vertical_center == height as int / 3,
                top == self.scroll().row,
                rows@.len() == r,
                forall|k: int|
                    0 <= k < r ==> (#[trigger] rows@[k])@ == row_text_spec(*self, k),
            decreases height - r,
        {
            let doc_row = r.saturating_add(top);
            let text: String = if doc_row < self.buffer.lines.len() {
                let end = self.scroll_offset.col.saturating_add(width);
                self.buffer.lines[doc_row].get_visible_graphemes(self.scroll_offset.col..end)
            } else if self.buffer.lines.len() == 0 && r == vertical_center {
                build_welcome_msg(width)
            } else {
                let mut t = String::new();
                push_char(&mut t, '~');
                proof {
                    assert(t@ =~= seq!['~']);
                }
                t
            };
            rows.push(text);
            r += 1;
        }
        self.needs_redraw = false;
        Some(rows)
    }

    /// The raw text to write when saving the document.
    pub fn save_content(&self) -> (s: String)
        ensures
            s@ == content_spec(self.buf().lines@),
    {
        self.buffer.save_content()
    }

    /// The path of the document's source, when it has one.
    pub fn file_path(&self) -> (p: Option<String>)
        ensures
            (p is Some) == (self.buf().file_info.path is Some),
            p is Some ==> p.unwrap()@ == self.buf().file_info.path.unwrap()@,
    {
        match &self.buffer.file_info.path {
            Some(s) => Some(s.clone()),
            None => None,
        }
    }

    /// Records that the document was written out successfully.
    pub fn mark_saved(&mut self)
        ensures
            final(self).buf().lines@ == old(self).buf().lines@,
            final(self).buf().file_info == old(self).buf().file_info,
            !final(self).buf().is_modified,
            final(self).caret() == old(self).caret(),
            final(self).vsize() == old(self).vsize(),
            final(self).scroll() == old(self).scroll(),
            final(self).redraw() == old(self).redraw(),
            final(self).margin() == old(self).margin(),
    {
        self.buffer.mark_saved();
    }

    /// A snapshot of the document for the status bar.
    pub fn get_current_document_status(&self) -> (st: DocumentStatus)
        ensures
            st.num_lines == self.line_count(),
            st.current_caret_line == self.caret().line_index,
            st.is_modified == self.buf().is_modified,
            self.buf().file_info.path is Some ==> st.file_name@
                == self.buf().file_info.path.unwrap()@,
            self.buf().file_info.path is None ==> st.file_name@ == "No Name"@,
    {
        DocumentStatus {
            num_lines: self.buffer.get_size(),
            current_caret_line: self.text_location.line_index,
            file_name: self.buffer.file_info.display_name(),
            is_modified: self.buffer.is_modified,
        }
    }

    /// Applies one command: edits and moves change the core's state;
    /// quitting and saving are the caller's concern and change
    /// nothing here.
    pub fn handle_command(&mut self, command: Command)
        requires
            old(self).inv(),
        ensures
            final(self).inv(),
            match command {
                Command::Edit(EditCommand::Insert(c)) => insert_post(
                    *old(self),
                    *final(self),
                    c,
                ),
                Command::Edit(EditCommand::Delete) => delete_post(*old(self), *final(self)),
                Command::Edit(EditCommand::Backspace) => backspace_post(
                    *old(self),
                    *final(self),
                ),
                Command::Edit(EditCommand::Enter) => enter_post(*old(self), *final(self)),
                Command::Move(d) => move_post(*old(self), *final(self), d),
                Command::Resize(to) => resize_post(*old(self), *final(self), to),
                Command::Quit => *final(self) == *old(self),
                Command::Save => *final(self) == *old(self),
            },
    {
        match command {
            Command::Edit(EditCommand::Insert(c)) => self.insert_char(c),
            Command::Edit(EditCommand::Delete) => self.delete(),
            Command::Edit(EditCommand::Backspace) => self.backspace(),
            Command::Edit(EditCommand::Enter) => self.enter(),
            Command::Move(direction) => self.move_text_location(direction),
            Command::Resize(to) => self.resize(to),
            Command::Quit => {},
            Command::Save => {},
        }
    }
}

} // verus!
