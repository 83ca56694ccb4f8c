//! The random source of a world, and the draws that the simulation makes
//! from it. Nothing here is proved: each function states what the `rand`
//! crate promises of the call that it makes.

use rand::rngs::StdRng;
use rand::{Rng, SeedableRng};
use vstd::prelude::*;

verus! {

/// The generator `rand::rngs::StdRng`, carried through as an opaque value.
#[verifier::external_type_specification]
#[verifier::external_body]
pub struct ExStdRng(rand::rngs::StdRng);

/// `SeedableRng::from_entropy` for `StdRng`: a generator seeded by the
/// operating system. Nothing is claimed of it. The call panics if the
/// system cannot provide entropy.
#[verifier::external_body]
pub(crate) fn entropy_rng() -> StdRng {
    StdRng::from_entropy()
}

/// `SeedableRng::seed_from_u64` for `StdRng`: a generator whose stream is
/// fixed by `seed`. Nothing is claimed of the stream.
#[verifier::external_body]
pub(crate) fn seeded_rng(seed: u64) -> StdRng {
    StdRng::seed_from_u64(seed)
}

/// `Rng::gen_ratio`: true with a chance of `numerator` in `denominator`.
/// The call panics on a zero denominator and on a numerator above the
/// denominator. It always answers true when the two are equal and always
/// false when the numerator is zero; in between nothing is claimed.
#[verifier::external_body]
pub(crate) fn random_ratio(rng: &mut StdRng, numerator: u32, denominator: u32) -> (hit: bool)
    requires
        0 < denominator,
        numerator <= denominator,
    ensures
        numerator == denominator ==> hit,
        numerator == 0 ==> !hit,
{
    rng.gen_ratio(numerator, denominator)
}

/// `Rng::gen_range` on the inclusive range from `low` to `high`. The value
/// that comes back lies in the range; nothing more is claimed of it. The
/// call panics on an empty range.
#[verifier::external_body]
pub(crate) fn random_in_range(rng: &mut StdRng, low: u32, high: u32) -> (drawn: u32)
    requires
        low <= high,
    ensures
        low <= drawn <= high,
{
    rng.gen_range(low..=high)
}

} // verus!
