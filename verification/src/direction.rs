//! Absolute and relative headings, and how they compose.

use vstd::prelude::*;
use vstd::std_specs::convert::{FromSpecImpl, TryFromSpecImpl};

use crate::point::Point;

verus! {

/// An absolute heading on the grid. Clockwise from `Up` the headings are
/// numbered 0 to 3.
#[derive(Copy, Clone, Eq, PartialEq, Structural, Debug)]
pub enum Direction {
    Up,
    Right,
    Down,
    Left,
}

/// A heading relative to the one a wyrm already has, numbered clockwise
/// from `Forward`.
#[derive(Copy, Clone, Eq, PartialEq, Structural, Debug)]
pub enum RelativeDirection {
    Forward,
    Right,
    Backward,
    Left,
}

impl Direction {
    /// The number of this heading, counted clockwise from `Up`.
    pub open spec fn ordinal(self) -> int {
        match self {
            Direction::Up => 0,
            Direction::Right => 1,
            Direction::Down => 2,
            Direction::Left => 3,
        }
    }

    /// The heading with the given number; numbers from 4 up have no heading.
    pub open spec fn with_ordinal(n: int) -> Option<Direction> {
        if n == 0 {
            Some(Direction::Up)
        } else if n == 1 {
            Some(Direction::Right)
        } else if n == 2 {
            Some(Direction::Down)
        } else if n == 3 {
            Some(Direction::Left)
        } else {
            None
        }
    }

    /// The unit displacement of one move in this heading; `y` grows downwards.
    pub open spec fn step(self) -> Point<i8> {
        match self {
            Direction::Up => Point { x: 0i8, y: -1i8 },
            Direction::Right => Point { x: 1i8, y: 0i8 },
            Direction::Down => Point { x: 0i8, y: 1i8 },
            Direction::Left => Point { x: -1i8, y: 0i8 },
        }
    }

    /// The heading reached by turning `offset` away from this one: the
    /// ordinals add up modulo 4.
    pub open spec fn rotated(self, offset: RelativeDirection) -> Direction {
        Direction::with_ordinal((self.ordinal() + offset.ordinal()) % 4).unwrap()
    }

    /// Turns this heading by `offset`.
    #[must_use]
    pub fn rotate(&self, offset: RelativeDirection) -> (turned: Direction)
        ensures
            turned == self.rotated(offset),
            turned.ordinal() == (self.ordinal() + offset.ordinal()) % 4,
    {
        let di: usize = match self {
            Direction::Up => 0,
            Direction::Right => 1,
            Direction::Down => 2,
            Direction::Left => 3,
        };
        let oi: usize = match offset {
            RelativeDirection::Forward => 0,
            RelativeDirection::Right => 1,
            RelativeDirection::Backward => 2,
            RelativeDirection::Left => 3,
        };
        let i: usize = (di + oi + 4) % 4;
        match Direction::try_from(i) {
            Ok(direction) => direction,
            Err(_) => unreached(),
        }
    }
}

impl RelativeDirection {
    /// The number of this turn, counted clockwise from `Forward`.
    pub open spec fn ordinal(self) -> int {
        match self {
            RelativeDirection::Forward => 0,
            RelativeDirection::Right => 1,
            RelativeDirection::Backward => 2,
            RelativeDirection::Left => 3,
        }
    }

    /// The turn with the given number; numbers from 4 up have no turn.
    pub open spec fn with_ordinal(n: int) -> Option<RelativeDirection> {
        if n == 0 {
            Some(RelativeDirection::Forward)
        } else if n == 1 {
            Some(RelativeDirection::Right)
        } else if n == 2 {
            Some(RelativeDirection::Backward)
        } else if n == 3 {
            Some(RelativeDirection::Left)
        } else {
            None
        }
    }

    /// The turn that undoes this one.
    pub open spec fn inverse(self) -> RelativeDirection {
        match self {
            RelativeDirection::Forward => RelativeDirection::Forward,
            RelativeDirection::Right => RelativeDirection::Left,
            RelativeDirection::Backward => RelativeDirection::Backward,
            RelativeDirection::Left => RelativeDirection::Right,
        }
    }
}

impl TryFrom<usize> for Direction {
    type Error = ();

    fn try_from(value: usize) -> (converted: Result<Self, Self::Error>) {
        match value {
            0 => Ok(Direction::Up),
            1 => Ok(Direction::Right),
            2 => Ok(Direction::Down),
            3 => Ok(Direction::Left),
            _ => Err(()),
        }
    }
}

impl TryFromSpecImpl<usize> for Direction {
    open spec fn obeys_try_from_spec() -> bool {
        true
    }

    open spec fn try_from_spec(value: usize) -> Result<Self, Self::Error> {
        match Direction::with_ordinal(value as int) {
            Some(direction) => Ok(direction),
            None => Err(()),
        }
    }
}

impl From<RelativeDirection> for Direction {
    fn from(direction: RelativeDirection) -> (converted: Self) {
        match direction {
            RelativeDirection::Forward => Direction::Up,
            RelativeDirection::Right => Direction::Right,
            RelativeDirection::Backward => Direction::Down,
            RelativeDirection::Left => Direction::Left,
        }
    }
}

impl FromSpecImpl<RelativeDirection> for Direction {
    open spec fn obeys_from_spec() -> bool {
        true
    }

    open spec fn from_spec(direction: RelativeDirection) -> Self {
        Direction::with_ordinal(direction.ordinal()).unwrap()
    }
}

impl From<Direction> for RelativeDirection {
    fn from(direction: Direction) -> (converted: Self) {
        match direction {
            Direction::Up => RelativeDirection::Forward,
            Direction::Right => RelativeDirection::Right,
            Direction::Down => RelativeDirection::Backward,
            Direction::Left => RelativeDirection::Left,
        }
    }
}

impl FromSpecImpl<Direction> for RelativeDirection {
    open spec fn obeys_from_spec() -> bool {
        true
    }

    open spec fn from_spec(direction: Direction) -> Self {
        RelativeDirection::with_ordinal(direction.ordinal()).unwrap()
    }
}

impl From<Direction> for Point<i8> {
    fn from(direction: Direction) -> (step: Self) {
        match direction {
            Direction::Up => Point { x: 0, y: -1 },
            Direction::Right => Point { x: 1, y: 0 },
            Direction::Down => Point { x: 0, y: 1 },
            Direction::Left => Point { x: -1, y: 0 },
        }
    }
}

impl FromSpecImpl<Direction> for Point<i8> {
    open spec fn obeys_from_spec() -> bool {
        true
    }

    open spec fn from_spec(direction: Direction) -> Self {
        direction.step()
    }
}

/// Turning forward changes nothing.
pub proof fn lemma_rotate_forward(heading: Direction)
    ensures
        heading.rotated(RelativeDirection::Forward) == heading,
{
}

/// Two turns in a row amount to the one turn whose ordinal is the sum of
/// theirs modulo 4: the turns act on the headings as the cyclic group of
/// order 4.
pub proof fn lemma_rotate_composes(heading: Direction, first: RelativeDirection, second: RelativeDirection)
    ensures
        heading.rotated(first).rotated(second).ordinal() == (heading.ordinal() + first.ordinal()
            + second.ordinal()) % 4,
{
}

/// A turn is undone by the turn with the opposite ordinal.
pub proof fn lemma_rotate_inverse(heading: Direction, offset: RelativeDirection)
    ensures
        heading.rotated(offset).rotated(offset.inverse()) == heading,
{
}

} // verus!
