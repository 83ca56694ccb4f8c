//! Keeping a number within bounds.

use vstd::prelude::*;

verus! {

/// `input` if it lies between `min` and `max`, else the nearer bound.
pub open spec fn clamped(input: u16, min: u16, max: u16) -> u16 {
    if input < min {
        min
    } else if input > max {
        max
    } else {
        input
    }
}

/// `num::clamp` on `u16`: `min` for an input below `min`, `max` for one
/// above `max`, and the input itself in between. Not proved. The call
/// panics in a debug build when `min` is above `max`.
#[verifier::external_body]
pub(crate) fn clamp(input: u16, min: u16, max: u16) -> (bounded: u16)
    requires
        min <= max,
    ensures
        bounded == clamped(input, min, max),
{
    num::clamp(input, min, max)
}

} // verus!
