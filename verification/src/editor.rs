//! The editing session: the view, the two bars, the terminal title,
//! and the quit flag, wired together. Raw input decoding, the event
//! loop, and all terminal output stay with the caller.

use crate::messagebar::MessageBar;
use crate::position::Size;
use crate::statusbar::StatusBar;
use crate::view::View;
use vstd::prelude::*;
use vstd::view::View as VstdView;

verus! {

pub struct Editor {
    pub should_quit: bool,
    pub view: View,
    pub status_bar: StatusBar,
    pub message_bar: MessageBar,
    pub title: String,
}

/// The terminal title for a document name.
pub open spec fn title_spec(name: Seq<char>) -> Seq<char> {
    name + " - hecto"@
}

/// The name the view reports for its document.
pub open spec fn doc_name_spec(v: View) -> Seq<char> {
    if v.buf().file_info.path is Some {
        v.buf().file_info.path.unwrap()@
    } else {
        "No Name"@
    }
}

impl Editor {
    /// A fresh session for a terminal of the given size: the view
    /// keeps two rows free at the bottom, the status bar sits above
    /// the message bar.
    pub fn new(size: Size) -> (e: Editor)
        ensures
            !e.should_quit,
            e.view.inv(),
            e.view.line_count() == 0,
            e.view.redraw(),
            e.status_bar.redraw(),
            e.message_bar.redraw(),
            e.title@ == Seq::<char>::empty(),
    {
        Editor {
            should_quit: false,
            view: View::new(size, 2),
            status_bar: StatusBar::new(1, size),
            message_bar: MessageBar::new(),
            title: String::new(),
        }
    }

    /// Refreshes the status bar from the view and recomputes the
    /// terminal title; hands back the new title exactly when it
    /// changed, for the caller to set.
    pub fn refresh_status(&mut self) -> (new_title: Option<String>)
        ensures
            final(self).status_bar.status().num_lines == old(self).view.line_count(),
            final(self).status_bar.status().current_caret_line == old(self).view.caret().line_index,
            final(self).status_bar.status().is_modified == old(self).view.buf().is_modified,
            final(self).status_bar.status().file_name@ == doc_name_spec(old(self).view),
            final(self).view == old(self).view,
            final(self).message_bar == old(self).message_bar,
            final(self).should_quit == old(self).should_quit,
            ({
                let title = title_spec(doc_name_spec(old(self).view));
                if title != old(self).title@ {
                    &&& new_title is Some
                    &&& new_title.unwrap()@ == title
                    &&& final(self).title@ == title
                } else {
                    &&& new_title is None
                    &&& final(self).title@ == old(self).title@
                }
            }),
    {
        let status = self.view.get_current_document_status();
        let mut title = String::from_str(status.file_name.as_str());
        title.append(" - hecto");
        self.status_bar.update_document_status(status);
        if !(title == self.title) {
            self.title = title.clone();
            return Some(title);
        }
        None
    }
}

} // verus!
