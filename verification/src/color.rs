//! Display colours: the fixed colours of the tiles, and the choice of the
//! colour family of a wyrm.

use vstd::prelude::*;

use crate::tile;

verus! {

/// A display colour as its red, green and blue bytes.
#[derive(Copy, Clone, Eq, PartialEq, Structural, Debug)]
pub struct Color {
    pub r: u8,
    pub g: u8,
    pub b: u8,
}

impl Color {
    /// The three bytes in the order red, green, blue.
    #[must_use]
    pub fn rgb(&self) -> (bytes: (u8, u8, u8))
        ensures
            bytes == (self.r, self.g, self.b),
    {
        (self.r, self.g, self.b)
    }
}

/// The colour of empty ground.
pub open spec fn spec_empty() -> Color {
    Color { r: 0, g: 19, b: 40 }
}

/// The colour of a wall.
pub open spec fn spec_wall() -> Color {
    Color { r: 136, g: 116, b: 174 }
}

/// The colour of food.
pub open spec fn spec_food() -> Color {
    Color { r: 135, g: 13, b: 35 }
}

/// The colour shown for a cell whose id belongs to no live wyrm.
pub open spec fn spec_missing() -> Color {
    Color { r: 255, g: 255, b: 255 }
}

/// The colour of empty ground.
#[verifier::when_used_as_spec(spec_empty)]
pub fn empty() -> (color: Color)
    ensures
        color == spec_empty(),
{
    Color { r: 0, g: 19, b: 40 }
}

/// The colour of a wall.
#[verifier::when_used_as_spec(spec_wall)]
pub fn wall() -> (color: Color)
    ensures
        color == spec_wall(),
{
    Color { r: 136, g: 116, b: 174 }
}

/// The colour of food.
#[verifier::when_used_as_spec(spec_food)]
pub fn food() -> (color: Color)
    ensures
        color == spec_food(),
{
    Color { r: 135, g: 13, b: 35 }
}

/// The colour shown for a cell whose id belongs to no live wyrm.
#[verifier::when_used_as_spec(spec_missing)]
pub fn missing() -> (color: Color)
    ensures
        color == spec_missing(),
{
    Color { r: 255, g: 255, b: 255 }
}

/// The number of slots in the table of colour families that wyrm colours
/// are drawn from.
pub const FAMILY_SLOTS: u16 = 15;

/// The slot of the table of colour families that a wyrm draws its colour
/// from: the ids walk through the table in order and wrap round, and
/// `offset` shifts the slot by a few places either way.
pub open spec fn family_slot_of(id: u16, offset: i32) -> int {
    (id - tile::WYRM + offset + FAMILY_SLOTS) % (FAMILY_SLOTS as int)
}

/// Picks the slot of the table of colour families for the wyrm `id`, given
/// the shift that was drawn for it.
pub fn family_slot(id: u16, offset: i32) -> (slot: usize)
    requires
        id >= tile::WYRM,
        -(FAMILY_SLOTS as int) <= offset <= FAMILY_SLOTS,
    ensures
        slot == family_slot_of(id, offset),
        slot < FAMILY_SLOTS,
{
    let n: i32 = FAMILY_SLOTS as i32;
    let base_index: i32 = (id - tile::WYRM) as i32;
    let raw_index: i32 = (base_index + offset + n) % n;
    raw_index as usize
}

} // verus!
