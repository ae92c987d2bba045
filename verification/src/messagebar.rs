//! The message bar: shows a transient message on the last screen row
//! until it expires. The clock is the caller's: every entry point
//! takes the current time in milliseconds.

use crate::command::Command;
use crate::position::{sat_sub, Size};
use vstd::prelude::*;

verus! {

/// How long a message stays on show, in milliseconds.
pub const MESSAGE_LIFETIME_MS: u64 = 5000;

struct Message {
    text: String,
    time: u64,
}

pub struct MessageBar {
    needs_redraw: bool,
    is_cleared: bool,
    message: Message,
}

/// Whether a message posted at `time` has expired by `now`.
pub open spec fn expired_spec(time: u64, now: u64) -> bool {
    sat_sub(now as int, time as int) > MESSAGE_LIFETIME_MS
}

impl MessageBar {
    pub closed spec fn redraw(self) -> bool {
        self.needs_redraw
    }

    pub closed spec fn cleared(self) -> bool {
        self.is_cleared
    }

    pub closed spec fn msg_text(self) -> Seq<char> {
        self.message.text@
    }

    pub closed spec fn msg_time(self) -> u64 {
        self.message.time
    }

    pub fn new() -> (mb: MessageBar)
        ensures
            mb.redraw(),
            !mb.cleared(),
            mb.msg_text() == Seq::<char>::empty(),
            mb.msg_time() == 0,
    {
        MessageBar {
            needs_redraw: true,
            is_cleared: false,
            message: Message { text: String::new(), time: 0 },
        }
    }

    /// Posts a message at the given time.
    pub fn update_msg(&mut self, msg: &str, now: u64)
        ensures
            final(self).msg_text() == msg@,
            final(self).msg_time() == now,
            final(self).redraw(),
            final(self).cleared() == old(self).cleared(),
    {
        self.message = Message { text: String::from_str(msg), time: now };
        self.needs_redraw = true;
    }

    pub fn resize(&mut self, _to: Size)
        ensures
            final(self).redraw(),
            final(self).cleared() == old(self).cleared(),
            final(self).msg_text() == old(self).msg_text(),
            final(self).msg_time() == old(self).msg_time(),
    {
        self.needs_redraw = true;
    }

    /// The row and text of the message line to draw, when a redraw is
    /// pending or the message just expired: the message while it
    /// lives, an empty line once it has expired.
    pub fn render(&mut self, now: u64, size: Size) -> (out: Option<(usize, String)>)
        ensures
            ({
                let expired = expired_spec(old(self).msg_time(), now);
                let will_draw = old(self).redraw() || (!old(self).cleared() && expired);
                if !will_draw {
                    out is None && *final(self) == *old(self)
                } else {
                    &&& out is Some
                    &&& out.unwrap().0 as int == sat_sub(size.height as int, 1)
                    &&& out.unwrap().1@ == if expired {
                        Seq::<char>::empty()
                    } else {
                        old(self).msg_text()
                    }
                    &&& final(self).cleared() == (old(self).cleared() || expired)
                    &&& !final(self).redraw()
                    &&& final(self).msg_text() == old(self).msg_text()
                    &&& final(self).msg_time() == old(self).msg_time()
                }
            }),
    {
        let expired = now.saturating_sub(self.message.time) > MESSAGE_LIFETIME_MS;
        self.needs_redraw = self.needs_redraw || (!self.is_cleared && expired);
        if !self.needs_redraw {
            return None;
        }
        if expired {
            self.is_cleared = true;
        }
        let msg = if expired {
            String::new()
        } else {
            String::from_str(self.message.text.as_str())
        };
        let row = size.height.saturating_sub(1);
        self.needs_redraw = false;
        Some((row, msg))
    }

    /// Reacts to a command: only a resize concerns the message bar.
    pub fn handle_command(&mut self, command: Command)
        ensures
            final(self).cleared() == old(self).cleared(),
            final(self).msg_text() == old(self).msg_text(),
            final(self).msg_time() == old(self).msg_time(),
            match command {
                Command::Resize(_) => final(self).redraw(),
                _ => final(self).redraw() == old(self).redraw(),
            },
    {
        if let Command::Resize(size) = command {
            self.resize(size);
        }
    }
}

} // verus!
