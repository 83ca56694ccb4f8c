//! What the library reports when it is handed a value that it cannot use.

use vstd::prelude::*;

use crate::point::Point;

verus! {

/// Why an operation was refused. Each variant carries the offending value.
#[derive(Copy, Clone, Eq, PartialEq, Debug)]
pub enum Error {
    /// A coordinate left the range of its type; the value is what it would
    /// have been.
    Cast(i32),
    /// The position lies outside the grid.
    InvalidPosition(Point<u16>),
    /// No live wyrm has this id.
    InvalidWyrmId(u16),
}

} // verus!
