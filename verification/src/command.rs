//! The abstract commands the editor core consumes. Decoding raw key
//! events into these values is the caller's concern.

use crate::position::Size;
use vstd::prelude::*;

verus! {

/// A caret movement.
#[derive(Clone, Copy, Debug)]
pub enum Direction {
    Up,
    Down,
    Left,
    Right,
    PageUp,
    PageDown,
    Home,
    End,
}

/// An edit to the document at the caret.
#[derive(Clone, Copy, Debug)]
pub enum EditCommand {
    Insert(char),
    Delete,
    Backspace,
    Enter,
}

/// A complete editor command.
#[derive(Clone, Copy, Debug)]
pub enum Command {
    Edit(EditCommand),
    Move(Direction),
    Resize(Size),
    Quit,
    Save,
}

} // verus!
