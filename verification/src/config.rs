//! The fixed numbers of the simulation.

use vstd::prelude::*;

verus! {

/// A wyrm is spawned on every step whose number is a multiple of this, once
/// the count of steps has passed half of it.
pub const SPAWN_INTERVAL: usize = 32;

/// One interior cell in this many starts out holding food.
pub const FOOD_RARITY: u32 = 16;

/// One move onto empty ground in this many leaves food behind on the cell
/// that the tail gives up.
pub const POOP_RARITY: u32 = 32;

/// The unit in which the advantage of an attacker is counted: an advantage
/// of this much leaves the ratio of the sizes as it is.
pub const ADVANTAGE_UNIT: u32 = 1000;

/// The least advantage that can be drawn: eight tenths.
pub const ADVANTAGE_MIN: u32 = 800;

/// The greatest advantage that can be drawn: twelve tenths.
pub const ADVANTAGE_MAX: u32 = 1200;

/// The number of bytes that a rendered cell takes: red, green and blue.
pub const BYTES_PER_CELL: usize = 3;

} // verus!
