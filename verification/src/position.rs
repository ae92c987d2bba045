//! Value objects for the screen: a window size in character cells and
//! a position in column/row coordinates.

use vstd::prelude::*;

verus! {

/// Saturating subtraction on the mathematical integers.
pub open spec fn sat_sub(a: int, b: int) -> int {
    if a - b < 0 {
        0
    } else {
        a - b
    }
}

/// A window size: columns by rows.
#[derive(Clone, Copy, Debug, PartialEq, Eq, Structural)]
pub struct Size {
    pub width: usize,
    pub height: usize,
}

/// A position on the screen or in the document's render grid.
#[derive(Clone, Copy, Debug, PartialEq, Eq, Structural)]
pub struct Position {
    pub col: usize,
    pub row: usize,
}

impl Position {
    /// Componentwise saturating difference: where this position lands
    /// relative to an origin.
    pub fn subtract(&self, other: Position) -> (r: Position)
        ensures
            r.col as int == sat_sub(self.col as int, other.col as int),
            r.row as int == sat_sub(self.row as int, other.row as int),
    {
        Position {
            col: self.col.saturating_sub(other.col),
            row: self.row.saturating_sub(other.row),
        }
    }
}

} // verus!
