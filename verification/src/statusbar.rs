//! The status bar: shows the document's name, line count, modified
//! flag, and the caret's position, on a row of its own above the
//! bottom margin.

use crate::position::{sat_sub, Size};
use crate::segment::{push_char, spaces};
use crate::status::{dec_rec, DocumentStatus};
use vstd::prelude::*;

verus! {

pub struct StatusBar {
    pub current_status: DocumentStatus,
    needs_redraw: bool,
    width: usize,
    position_y: usize,
    margin_bottom: usize,
    is_visible: bool,
}

/// The text of the status line for a given width: the document's
/// name, line count and modified marker on the left, the caret
/// position right-aligned into the rest of the width; an empty line
/// when it all does not fit.
pub open spec fn status_line_spec(st: DocumentStatus, width: int) -> Seq<char> {
    let beginning = st.file_name@ + " - "@ + dec_rec(st.num_lines as int) + " "@ + (
    if st.is_modified {
        "(modified)"@
    } else {
        Seq::<char>::empty()
    });
    let position = dec_rec(st.current_caret_line as int) + seq!['/'] + dec_rec(
        st.num_lines as int,
    );
    let remainder = sat_sub(width, beginning.len() as int);
    let full = beginning + spaces(sat_sub(remainder, position.len() as int)) + position;
    if full.len() <= width {
        full
    } else {
        Seq::empty()
    }
}

/// Two document snapshots that the status bar shows identically.
pub open spec fn doc_status_eq(a: DocumentStatus, b: DocumentStatus) -> bool {
    &&& a.num_lines == b.num_lines
    &&& a.current_caret_line == b.current_caret_line
    &&& a.is_modified == b.is_modified
    &&& a.file_name@ == b.file_name@
}

impl StatusBar {
    /// The document snapshot on show.
    pub closed spec fn status(self) -> DocumentStatus {
        self.current_status
    }

    pub closed spec fn redraw(self) -> bool {
        self.needs_redraw
    }

    pub closed spec fn bar_width(self) -> usize {
        self.width
    }

    /// The screen row the bar is drawn on.
    pub closed spec fn row(self) -> usize {
        self.position_y
    }

    pub closed spec fn margin(self) -> usize {
        self.margin_bottom
    }

    pub closed spec fn visible(self) -> bool {
        self.is_visible
    }

    /// Places the bar for a new terminal size: on the row above the
    /// bottom margin, or hidden when the terminal is too short for
    /// one.
    pub fn resize(&mut self, to: Size)
        ensures
            final(self).status() == old(self).status(),
            final(self).margin() == old(self).margin(),
            final(self).bar_width() == to.width,
            final(self).redraw(),
            to.height as int >= old(self).margin() + 1 ==> final(self).visible() && final(self).row() as int == to.height - old(self).margin() - 1,
            (to.height as int) < old(self).margin() + 1 ==> !final(self).visible() && final(self).row() == 0,
    {
        let mut position_y: usize = 0;
        let mut is_visible = false;
        if to.height > self.margin_bottom {
            position_y = to.height - self.margin_bottom - 1;
            is_visible = true;
        }
        self.width = to.width;
        self.position_y = position_y;
        self.needs_redraw = true;
        self.is_visible = is_visible;
    }

    pub fn new(margin_bottom: usize, size: Size) -> (sb: StatusBar)
        ensures
            sb.status().num_lines == 0,
            sb.status().current_caret_line == 0,
            sb.status().file_name@ == Seq::<char>::empty(),
            !sb.status().is_modified,
            sb.margin() == margin_bottom,
            sb.bar_width() == size.width,
            sb.redraw(),
            size.height as int >= margin_bottom + 1 ==> sb.visible() && sb.row() as int
                == size.height - margin_bottom - 1,
            (size.height as int) < margin_bottom + 1 ==> !sb.visible() && sb.row() == 0,
    {
        let mut status_bar = StatusBar {
            current_status: DocumentStatus::default(),
            width: size.width,
            needs_redraw: true,
            position_y: 0,
            margin_bottom,
            is_visible: false,
        };
        status_bar.resize(size);
        status_bar
    }

    /// The row and text of the status line to draw, when a redraw is
    /// pending and the bar is visible; clears the pending redraw.
    pub fn render(&mut self, size: Size) -> (out: Option<(usize, String)>)
        ensures
            (!old(self).redraw() || !old(self).visible()) ==> out is None && *final(self)
                == *old(self),
            old(self).redraw() && old(self).visible() ==> {
                &&& out is Some
                &&& out.unwrap().0 == old(self).row()
                &&& out.unwrap().1@ == status_line_spec(old(self).status(), size.width as int)
                &&& final(self).status() == old(self).status()
                &&& final(self).bar_width() == old(self).bar_width()
                &&& final(self).row() == old(self).row()
                &&& final(self).margin() == old(self).margin()
                &&& final(self).visible() == old(self).visible()
                &&& !final(self).redraw()
            },
    {
        if !self.needs_redraw || !self.is_visible {
            return None;
        }
        let num_lines = self.current_status.num_lines_to_string();
        let modified_status = self.current_status.is_modified_to_string();
        let mut beginning = String::from_str(self.current_status.file_name.as_str());
        beginning.append(" - ");
        beginning.append(num_lines.as_str());
        beginning.append(" ");
        beginning.append(modified_status.as_str());
        let position = self.current_status.caret_position_to_string();
        let beginning_len = beginning.as_str().unicode_len();
        let position_len = position.as_str().unicode_len();
        let remainder_len = size.width.saturating_sub(beginning_len);
        let pad = remainder_len.saturating_sub(position_len);
        let ghost begin0 = beginning@;
        let mut status = beginning;
        let mut k: usize = 0;
        proof {
            assert(status@ =~= begin0 + spaces(0));
        }
        while k < pad
            invariant
                k <= pad,
                status@ == begin0 + spaces(k as int),
            decreases pad - k,
        {
            push_char(&mut status, ' ');
            proof {
                assert(status@ =~= begin0 + spaces(k + 1));
            }
            k += 1;
        }
        status.append(position.as_str());
        proof {
            assert(status@ =~= begin0 + spaces(pad as int) + position@);
        }
        let total_len = status.as_str().unicode_len();
        let to_print = if total_len <= size.width {
            status
        } else {
            String::new()
        };
        self.needs_redraw = false;
        Some((self.position_y, to_print))
    }

    /// Takes a fresh document snapshot; redraws only when it differs
    /// from the one on show.
    pub fn update_document_status(&mut self, new_document_status: DocumentStatus)
        ensures
            doc_status_eq(final(self).status(), new_document_status),
            final(self).bar_width() == old(self).bar_width(),
            final(self).row() == old(self).row(),
            final(self).margin() == old(self).margin(),
            final(self).visible() == old(self).visible(),
            !doc_status_eq(old(self).status(), new_document_status) ==> final(self).redraw(),
            doc_status_eq(old(self).status(), new_document_status) ==> final(self).redraw()
                == old(self).redraw(),
    {
        if !(new_document_status == self.current_status) {
            self.current_status = new_document_status;
            self.needs_redraw = true;
        } else {
            proof {
                assert(doc_status_eq(self.current_status, new_document_status));
            }
        }
    }
}

} // verus!
