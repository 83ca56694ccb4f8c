//! A single wyrm: a chain of cells with a head and a heading.

use std::collections::VecDeque;
use vstd::prelude::*;

use crate::color::Color;
use crate::direction::Direction;
use crate::point::Point;

verus! {

/// A creature on the grid. Its body is a chain of cells, the head at the
/// front and the tail at the back; a live wyrm has at least one.
pub struct Wyrm {
    pub id: u16,
    pub color: Color,
    pub direction: Direction,
    pub segments: VecDeque<Point<u16>>,
}

/// What a new wyrm is made from.
pub struct NewWyrmParams {
    pub id: u16,
    pub color: Color,
    pub direction: Direction,
    pub position: Point<u16>,
}

/// A wyrm as a mathematical value: the body is the sequence of its cells,
/// head first.
#[verifier::ext_equal]
pub struct WyrmView {
    pub id: u16,
    pub color: Color,
    pub direction: Direction,
    pub body: Seq<Point<u16>>,
}

impl View for Wyrm {
    type V = WyrmView;

    open spec fn view(&self) -> WyrmView {
        WyrmView {
            id: self.id,
            color: self.color,
            direction: self.direction,
            body: self.segments@,
        }
    }
}

impl WyrmView {
    /// The cell of the head.
    pub open spec fn head(self) -> Point<u16>
        recommends
            self.body.len() > 0,
    {
        self.body[0]
    }
}

impl Wyrm {
    /// A wyrm of one segment at `params.position`.
    #[must_use]
    pub fn new(params: &NewWyrmParams) -> (wyrm: Self)
        ensures
            wyrm@ == (WyrmView {
                id: params.id,
                color: params.color,
                direction: params.direction,
                body: seq![params.position],
            }),
    {
        let mut segments = VecDeque::new();
        segments.push_front(params.position);
        assert(segments@ =~= seq![params.position]);

        Wyrm { id: params.id, color: params.color, direction: params.direction, segments }
    }

    /// The number of segments, which is the wyrm's weight in a fight.
    #[must_use]
    pub fn size(&self) -> (size: usize)
        ensures
            size == self@.body.len(),
    {
        self.segments.len()
    }

    /// The cell of the head.
    #[must_use]
    pub fn head(&self) -> (head: Point<u16>)
        requires
            self@.body.len() > 0,
        ensures
            head == self@.head(),
    {
        self.segments[0]
    }
}

} // verus!
