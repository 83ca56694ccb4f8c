//! The codes that a cell of the grid can hold.

use vstd::prelude::*;

verus! {

/// Nothing is in the cell.
pub const EMPTY: u16 = 0;

/// The cell is solid; whatever moves into it dies.
pub const WALL: u16 = 1;

/// The cell holds food; whatever moves into it grows.
pub const FOOD: u16 = 2;

/// The first wyrm id. A cell that holds this code or a greater one is
/// occupied by the wyrm with that id.
pub const WYRM: u16 = 3;

/// What a cell holds, told apart by kind.
#[derive(Copy, Clone, Eq, PartialEq, Structural, Debug)]
pub enum Tile {
    /// Nothing.
    Empty,
    /// A wall.
    Wall,
    /// Food.
    Food,
    /// A segment of the wyrm with this id.
    Wyrm(u16),
}

impl Tile {
    /// The kind of the tile with the given code.
    pub open spec fn of(code: u16) -> Tile {
        if code == EMPTY {
            Tile::Empty
        } else if code == WALL {
            Tile::Wall
        } else if code == FOOD {
            Tile::Food
        } else {
            Tile::Wyrm(code)
        }
    }

    /// Whether the tile has a code: a wyrm tile has one only if it
    /// carries a wyrm id.
    pub open spec fn valid(self) -> bool {
        self matches Tile::Wyrm(id) ==> id >= WYRM
    }

    /// The code that stands for the tile in the grid.
    pub open spec fn code_of(self) -> u16 {
        match self {
            Tile::Empty => EMPTY,
            Tile::Wall => WALL,
            Tile::Food => FOOD,
            Tile::Wyrm(id) => id,
        }
    }

    /// Tells the kind of the tile with the given code.
    #[must_use]
    pub fn from_code(code: u16) -> (tile: Tile)
        ensures
            tile == Tile::of(code),
            tile.valid(),
            tile.code_of() == code,
    {
        if code == EMPTY {
            Tile::Empty
        } else if code == WALL {
            Tile::Wall
        } else if code == FOOD {
            Tile::Food
        } else {
            Tile::Wyrm(code)
        }
    }

    /// The code that stands for the tile in the grid.
    #[must_use]
    pub fn code(self) -> (code: u16)
        ensures
            code == self.code_of(),
            self.valid() ==> Tile::of(code) == self,
    {
        match self {
            Tile::Empty => EMPTY,
            Tile::Wall => WALL,
            Tile::Food => FOOD,
            Tile::Wyrm(id) => id,
        }
    }
}

/// How desirable a tile is as a destination: food is good, empty ground is
/// neutral, and everything else (a wall or any wyrm) is equally bad.
pub open spec fn score_of(tile: u16) -> int {
    if tile == EMPTY {
        0
    } else if tile == FOOD {
        1
    } else {
        -1
    }
}

/// Scores a tile as a destination.
#[must_use]
pub fn score(tile: u16) -> (s: i8)
    ensures
        s == score_of(tile),
{
    if tile == EMPTY {
        0
    } else if tile == FOOD {
        1
    } else {
        -1
    }
}

} // verus!
