//! The world: the grid, the wyrms that live on it, and the steps of the
//! simulation.

use rand::rngs::StdRng;
use std::collections::HashMap;
use vstd::prelude::*;
use vstd::std_specs::iter::IteratorSpec;

use crate::bounds::clamp;
use crate::color::{self, Color};
use crate::config::{
    ADVANTAGE_MAX, ADVANTAGE_MIN, ADVANTAGE_UNIT, BYTES_PER_CELL, FOOD_RARITY, POOP_RARITY,
    SPAWN_INTERVAL,
};
use crate::direction::{Direction, RelativeDirection};
use crate::error::Error;
use crate::grid::{cell_index, lemma_cell_index, Grid};
use crate::laws::{
    lemma_acted_sound, lemma_destroyed_wf, lemma_moved_wf, lemma_ranked, lemma_same_board_wf,
    lemma_spawned_wf, lemma_target_in_bounds,
};
use crate::model::{
    attacker_prevails, carcass_certain, carcass_odds, ranked, ring_distance, ring_size,
    ring_successor, WorldView, CARCASS_DIVISOR_MAX,
};
use crate::point::Point;
use crate::random::{entropy_rng, random_in_range, random_ratio, seeded_rng};
use crate::tile::{self, Tile};
use crate::wyrm::{NewWyrmParams, Wyrm, WyrmView};

verus! {

/// A grid of tiles with the wyrms that live on it.
pub struct World {
    grid: Grid,
    wyrms: HashMap<u16, Wyrm>,
    next_wyrm_id: u16,
    current_step: usize,
    rng: StdRng,
}

/// The size of a new world.
pub struct NewWorldParams {
    pub width: u16,
    pub height: u16,
}

/// What the host has drawn for the wyrm that a step may spawn: where to
/// put it, before the position is brought into the interior of the grid,
/// and in which colour.
pub struct SpawnDraw {
    pub position: Point<u16>,
    pub color: Color,
}

/// The candidates for the next move of a wyrm, each with the score of the
/// tile it leads to.
pub type Neighbors = Vec<(RelativeDirection, i8)>;

/// The wyrms of a collection as mathematical values, by id.
pub open spec fn wyrm_views(wyrms: Map<u16, Wyrm>) -> Map<u16, WyrmView> {
    Map::new(|id: u16| wyrms.contains_key(id), |id: u16| wyrms[id]@)
}

/// The tile that a cell starts out with: the edge is wall, and an interior
/// cell holds food if the draw for it said so.
pub open spec fn initial_tile_of(edge: bool, food: bool) -> u16 {
    if edge {
        tile::WALL
    } else if food {
        tile::FOOD
    } else {
        tile::EMPTY
    }
}

impl View for World {
    type V = WorldView;

    closed spec fn view(&self) -> WorldView {
        WorldView {
            grid: self.grid@,
            wyrms: wyrm_views(self.wyrms@),
            next_wyrm_id: self.next_wyrm_id,
            current_step: self.current_step,
        }
    }
}

impl World {
    /// The world is consistent: its store of tiles is sound, and its view
    /// is consistent.
    pub closed spec fn wf(&self) -> bool {
        &&& self.grid.wf()
        &&& self@.wf()
    }

    /// The view of a consistent world is consistent.
    pub proof fn lemma_view_wf(&self)
        requires
            self.wf(),
        ensures
            self@.wf(),
    {
    }

    /// Whether `world` is a world as it is before its first step: a ring
    /// of wall round an interior of empty ground and food, with no wyrm.
    pub open spec fn is_fresh(world: WorldView, params: NewWorldParams) -> bool {
        &&& world.grid.width == params.width
        &&& world.grid.height == params.height
        &&& world.wyrms == Map::<u16, WyrmView>::empty()
        &&& world.next_wyrm_id == tile::WYRM
        &&& world.current_step == 0
        &&& forall|position: Point<u16>|
            world.in_bounds(position) ==> {
                let found = #[trigger] world.tile(position);
                if world.grid.at_edge(position) {
                    found == tile::WALL
                } else {
                    found == tile::FOOD || found == tile::EMPTY
                }
            }
    }

    /// A world of the given size, ready for its first step. Its random
    /// source is seeded by the operating system.
    #[must_use]
    pub fn new(params: &NewWorldParams) -> (world: Self)
        requires
            params.width >= 3,
            params.height >= 3,
        ensures
            world.wf(),
            Self::is_fresh(world@, *params),
    {
        let mut world = World {
            grid: Grid::new(params.width, params.height, tile::EMPTY),
            wyrms: HashMap::new(),
            next_wyrm_id: tile::WYRM,
            current_step: 0,
            rng: entropy_rng(),
        };
        world.fill();
        world
    }

    /// A world of the given size, ready for its first step. Its random
    /// source is seeded with `seed`, so that two worlds made with the same
    /// seed draw the same numbers.
    #[must_use]
    pub fn seeded(params: &NewWorldParams, seed: u64) -> (world: Self)
        requires
            params.width >= 3,
            params.height >= 3,
        ensures
            world.wf(),
            Self::is_fresh(world@, *params),
    {
        let mut world = World {
            grid: Grid::new(params.width, params.height, tile::EMPTY),
            wyrms: HashMap::new(),
            next_wyrm_id: tile::WYRM,
            current_step: 0,
            rng: seeded_rng(seed),
        };
        world.fill();
        world
    }

    /// The tile that a cell starts out with.
    pub fn initial_tile(edge: bool, food: bool) -> (tile: u16)
        ensures
            tile == initial_tile_of(edge, food),
    {
        if edge {
            tile::WALL
        } else if food {
            tile::FOOD
        } else {
            tile::EMPTY
        }
    }

    /// Walls in the edge and strews food over the interior.
    fn fill(&mut self)
        requires
            old(self).grid.wf(),
            old(self).grid@.width >= 3,
            old(self).grid@.height >= 3,
            old(self).wyrms@ == Map::<u16, Wyrm>::empty(),
            old(self).next_wyrm_id == tile::WYRM,
            old(self).current_step == 0,
        ensures
            final(self).wf(),
            Self::is_fresh(
                final(self)@,
                NewWorldParams { width: old(self).grid@.width, height: old(self).grid@.height },
            ),
    {
        let width = self.grid.width();
        let height = self.grid.height();
        proof {
            self.grid.lemma_view_wf();
        }
        let mut y: u16 = 0;
        while y < height
            invariant
                y <= height,
                self.grid.wf(),
                self.grid@.wf(),
                self.grid@.width == width,
                self.grid@.height == height,
                width >= 3,
                height >= 3,
                self.wyrms@ == Map::<u16, Wyrm>::empty(),
                self.next_wyrm_id == tile::WYRM,
                self.current_step == 0,
                forall|position: Point<u16>|
                    self.grid@.in_bounds(position) && position.y < y ==> {
                        let found = #[trigger] self.grid@.tiles[position];
                        if self.grid@.at_edge(position) {
                            found == tile::WALL
                        } else {
                            found == tile::FOOD || found == tile::EMPTY
                        }
                    },
            decreases height - y,
        {
            let mut x: u16 = 0;
            while x < width
                invariant
                    x <= width,
                    y < height,
                    self.grid.wf(),
                    self.grid@.wf(),
                    self.grid@.width == width,
                    self.grid@.height == height,
                    width >= 3,
                    height >= 3,
                    self.wyrms@ == Map::<u16, Wyrm>::empty(),
                    self.next_wyrm_id == tile::WYRM,
                    self.current_step == 0,
                    forall|position: Point<u16>|
                        self.grid@.in_bounds(position) && (position.y < y || (position.y == y
                            && position.x < x)) ==> {
                            let found = #[trigger] self.grid@.tiles[position];
                            if self.grid@.at_edge(position) {
                                found == tile::WALL
                            } else {
                                found == tile::FOOD || found == tile::EMPTY
                            }
                        },
                decreases width - x,
            {
                let position = Point::new(x, y);
                let edge = self.grid.at_edge(position);
                let food = !edge && random_ratio(&mut self.rng, 1, FOOD_RARITY);
                let tile = Self::initial_tile(edge, food);
                self.grid.set_tile(position, tile);
                x += 1;
            }
            y += 1;
        }
        proof {
            assert(self@.wyrms =~= Map::<u16, WyrmView>::empty());
            assert(self@.wyrms.dom() =~= Set::<u16>::empty());
        }
    }

    /// The number of columns of the grid.
    pub fn width(&self) -> (width: u16)
        ensures
            width == self@.grid.width,
    {
        self.grid.width()
    }

    /// The number of rows of the grid.
    pub fn height(&self) -> (height: u16)
        ensures
            height == self@.grid.height,
    {
        self.grid.height()
    }

    /// The number of steps taken so far.
    pub fn current_step(&self) -> (count: usize)
        ensures
            count == self@.current_step,
    {
        self.current_step
    }

    /// The id that the next wyrm will get.
    pub fn next_wyrm_id(&self) -> (id: u16)
        ensures
            id == self@.next_wyrm_id,
    {
        self.next_wyrm_id
    }

    /// The live wyrms by id.
    pub fn wyrms(&self) -> (wyrms: &HashMap<u16, Wyrm>)
        ensures
            wyrm_views(wyrms@) == self@.wyrms,
    {
        &self.wyrms
    }

    /// The tile of the cell at `position`; a position outside the grid is
    /// refused.
    pub fn get_tile(&self, position: Point<u16>) -> (tile: Result<u16, Error>)
        requires
            self.wf(),
        ensures
            self@.in_bounds(position) ==> tile == Ok::<u16, Error>(self@.tile(position)),
            !self@.in_bounds(position) ==> tile == Err::<u16, Error>(
                Error::InvalidPosition(position),
            ),
    {
        self.grid.get_tile(position)
    }

    /// The place of the cell at `position` in row-major order.
    pub fn index(&self, position: Point<u16>) -> (index: usize)
        requires
            self.wf(),
            self@.in_bounds(position),
        ensures
            index == cell_index(self@.grid.width, position),
            index < self@.grid.width * self@.grid.height,
    {
        self.grid.index(position)
    }

    /// Whether `position` lies on the outermost ring of cells.
    pub fn at_edge(&self, position: Point<u16>) -> (edge: bool)
        requires
            self.wf(),
        ensures
            edge == self@.grid.at_edge(position),
    {
        self.grid.at_edge(position)
    }

    /// Writes a wall, food or nothing to an interior cell that no wyrm
    /// lies on, and leaves all else as it is.
    pub fn set_tile(&mut self, position: Point<u16>, tile: u16)
        requires
            old(self).wf(),
            old(self)@.in_bounds(position),
            !old(self)@.grid.at_edge(position),
            old(self)@.tile(position) < tile::WYRM,
            tile < tile::WYRM,
        ensures
            final(self).wf(),
            final(self)@ == old(self)@.with_tile(position, tile),
    {
        self.grid.set_tile(position, tile);
        proof {
            let before = old(self)@;
            let after = self@;
            assert(after =~= before.with_tile(position, tile));
            assert forall|id: u16| #[trigger] after.alive(id) implies after.wyrm_wf(id) by {
                assert(before.alive(id));
                assert(before.wyrm_wf(id));
                let body = before.wyrms[id].body;
                assert forall|i: int| 0 <= i < body.len() implies after.in_bounds(
                    #[trigger] body[i],
                ) && after.tile(body[i]) == id by {
                    assert(before.tile(body[i]) == id);
                }
            }
            assert forall|cell: Point<u16>|
                after.in_bounds(cell) && #[trigger] after.tile(cell) >= tile::WYRM implies after.alive(
                after.tile(cell),
            ) && after.wyrms[after.tile(cell)].body.contains(cell) by {
                assert(before.tile(cell) == after.tile(cell));
            }
            assert forall|cell: Point<u16>|
                after.in_bounds(cell) && after.grid.at_edge(cell) implies #[trigger] after.tile(
                cell,
            ) == tile::WALL by {
                assert(before.tile(cell) == tile::WALL);
            }
        }
    }

    /// The wyrm with the given id; an id that no live wyrm has is refused.
    pub fn get_wyrm(&self, wyrm_id: u16) -> (wyrm: Result<&Wyrm, Error>)
        ensures
            match wyrm {
                Ok(wyrm) => self@.alive(wyrm_id) && wyrm@ == self@.wyrms[wyrm_id],
                Err(error) => !self@.alive(wyrm_id) && error == Error::InvalidWyrmId(wyrm_id),
            },
    {
        match self.wyrms.get(&wyrm_id) {
            Some(wyrm) => Ok(wyrm),
            None => Err(Error::InvalidWyrmId(wyrm_id)),
        }
    }

    /// The wyrm id after `id` round the ring of ids.
    fn successor(id: u16) -> (next: u16)
        requires
            id >= tile::WYRM,
        ensures
            next == ring_successor(id),
            next >= tile::WYRM,
    {
        if id == u16::MAX {
            tile::WYRM
        } else {
            id + 1
        }
    }

    /// Hands out the id that is next and moves on to the first free id
    /// after it, going round from the greatest id to the least. Where no
    /// other id is free nothing is handed out, so that the id that is next
    /// is never one that a live wyrm has.
    pub fn get_next_wyrm_id(&mut self) -> (id: Option<u16>)
        requires
            old(self).wf(),
        ensures
            final(self).wf(),
            match id {
                Some(id) => {
                    &&& id == old(self)@.next_wyrm_id
                    &&& old(self)@.has_spare_id()
                    &&& old(self)@.is_next_free(final(self)@.next_wyrm_id)
                    &&& final(self)@ == (WorldView {
                        next_wyrm_id: final(self)@.next_wyrm_id,
                        ..old(self)@
                    })
                },
                None => !old(self)@.has_spare_id() && final(self)@ == old(self)@,
            },
    {
        let id = self.next_wyrm_id;
        let mut candidate = Self::successor(id);
        let ghost mut steps: int = 1;
        while candidate != id
            invariant
                self.wf(),
                *self == *old(self),
                id == self.next_wyrm_id,
                id >= tile::WYRM,
                candidate >= tile::WYRM,
                1 <= steps <= ring_size(),
                candidate != id ==> ring_distance(id, candidate) == steps,
                candidate == id ==> steps == ring_size(),
                forall|other: u16|
                    other >= tile::WYRM && 0 < ring_distance(id, other) < steps
                        ==> #[trigger] self@.alive(other),
            decreases ring_size() - steps,
        {
            if !self.wyrms.contains_key(&candidate) {
                self.next_wyrm_id = candidate;
                proof {
                    assert(!old(self)@.alive(candidate));
                    assert(self@ =~= (WorldView { next_wyrm_id: candidate, ..old(self)@ }));
                    lemma_same_board_wf(old(self)@, self@);
                }
                return Some(id);
            }
            proof {
                assert(self@.alive(candidate));
                assert forall|other: u16|
                    other >= tile::WYRM && 0 < ring_distance(id, other) < steps + 1
                    implies #[trigger] self@.alive(other) by {
                    if ring_distance(id, other) == steps {
                        assert(other == candidate);
                    }
                }
                steps = steps + 1;
            }
            candidate = Self::successor(candidate);
        }
        proof {
            assert forall|other: u16| other >= tile::WYRM && other != id implies #[trigger]
                self@.alive(other) by {
                assert(0 < ring_distance(id, other) < ring_size());
            }
        }
        None
    }

    /// Puts a wyrm of one segment with the given colour and heading at
    /// `position`. Nothing happens where the cell holds a wall or a wyrm,
    /// and where no id can be spared. A position outside the grid is
    /// refused.
    pub fn create_wyrm_facing(
        &mut self,
        position: Point<u16>,
        color: Color,
        direction: Direction,
    ) -> (done: Result<(), Error>)
        requires
            old(self).wf(),
        ensures
            final(self).wf(),
            old(self)@.in_bounds(position) ==> done is Ok && old(self)@.spawn_outcome(
                final(self)@,
                position,
                color,
                direction,
            ),
            !old(self)@.in_bounds(position) ==> done == Err::<(), Error>(
                Error::InvalidPosition(position),
            ) && final(self)@ == old(self)@,
    {
        let current_tile = match self.get_tile(position) {
            Ok(current_tile) => current_tile,
            Err(error) => {
                return Err(error);
            },
        };
        match Tile::from_code(current_tile) {
            Tile::Wall | Tile::Wyrm(_) => {
                return Ok(());
            },
            Tile::Empty | Tile::Food => {},
        }
        let id = match self.get_next_wyrm_id() {
            Some(id) => id,
            None => {
                return Ok(());
            },
        };
        let wyrm = Wyrm::new(&NewWyrmParams { id, color, direction, position });
        self.wyrms.insert(id, wyrm);
        self.grid.set_tile(position, id);
        proof {
            let before = old(self)@;
            let after = before.spawned(position, color, direction, self.next_wyrm_id);
            assert(self@.wyrms =~= after.wyrms);
            assert(self@ =~= after);
            lemma_spawned_wf(before, position, color, direction, self.next_wyrm_id);
        }
        Ok(())
    }

    /// Draws one of the four headings.
    fn random_direction(&mut self) -> (direction: Direction)
        requires
            old(self).wf(),
        ensures
            final(self).wf(),
            final(self)@ == old(self)@,
    {
        let index = random_in_range(&mut self.rng, 0, 3);
        match Direction::try_from(index as usize) {
            Ok(direction) => direction,
            Err(_) => unreached(),
        }
    }

    /// Puts a wyrm of one segment with the given colour and a heading drawn
    /// at random at `position`. Nothing happens where the cell holds a wall
    /// or a wyrm, and where no id can be spared. A position outside the
    /// grid is refused.
    pub fn create_wyrm(&mut self, position: Point<u16>, color: Color) -> (done: Result<(), Error>)
        requires
            old(self).wf(),
        ensures
            final(self).wf(),
            old(self)@.in_bounds(position) ==> done is Ok && exists|direction: Direction| #[trigger]
                old(self)@.spawn_outcome(final(self)@, position, color, direction),
            !old(self)@.in_bounds(position) ==> done == Err::<(), Error>(
                Error::InvalidPosition(position),
            ) && final(self)@ == old(self)@,
    {
        let direction = self.random_direction();
        self.create_wyrm_facing(position, color, direction)
    }

    /// Puts a wyrm of one segment with the colour that was drawn and a
    /// heading drawn at random at the position that was drawn, brought into
    /// the interior of the grid. Nothing happens where the cell holds a
    /// wyrm or a wall, and where no id can be spared.
    pub fn create_random_wyrm(&mut self, draw: &SpawnDraw)
        requires
            old(self).wf(),
        ensures
            final(self).wf(),
            exists|direction: Direction| #[trigger]
                old(self)@.spawn_outcome(
                    final(self)@,
                    old(self)@.spawn_position(draw.position),
                    draw.color,
                    direction,
                ),
    {
        let x = clamp(draw.position.x, 1, self.grid.width() - 2);
        let y = clamp(draw.position.y, 1, self.grid.height() - 2);
        let position = Point::new(x, y);
        assert(position == self@.spawn_position(draw.position));
        assert(self@.in_bounds(position));
        let _ = self.create_wyrm(position, draw.color);
    }

    /// The three candidates for a move from `position` with the heading
    /// `forward`, each with the score of the tile it leads to, best first.
    pub fn get_neighbors(&self, position: Point<u16>, forward: Direction) -> (neighbors: Result<
        Neighbors,
        Error,
    >)
        requires
            self.wf(),
        ensures
            match neighbors {
                Ok(neighbors) => self@.neighbors(position, forward) == Ok::<
                    Seq<(RelativeDirection, i8)>,
                    Error,
                >(neighbors@),
                Err(error) => self@.neighbors(position, forward) == Err::<
                    Seq<(RelativeDirection, i8)>,
                    Error,
                >(error),
            },
    {
        let left = forward.rotate(RelativeDirection::Left);
        let right = forward.rotate(RelativeDirection::Right);

        let forward_position = match position.move_in_direction(forward) {
            Ok(moved) => moved,
            Err(error) => {
                return Err(error);
            },
        };
        let left_position = match position.move_in_direction(left) {
            Ok(moved) => moved,
            Err(error) => {
                return Err(error);
            },
        };
        let right_position = match position.move_in_direction(right) {
            Ok(moved) => moved,
            Err(error) => {
                return Err(error);
            },
        };

        let forward_tile = match self.get_tile(forward_position) {
            Ok(found) => found,
            Err(error) => {
                return Err(error);
            },
        };
        let left_tile = match self.get_tile(left_position) {
            Ok(found) => found,
            Err(error) => {
                return Err(error);
            },
        };
        let right_tile = match self.get_tile(right_position) {
            Ok(found) => found,
            Err(error) => {
                return Err(error);
            },
        };

        let mut first = (RelativeDirection::Forward, tile::score(forward_tile));
        let mut second = (RelativeDirection::Left, tile::score(left_tile));
        let mut third = (RelativeDirection::Right, tile::score(right_tile));
        if second.1 > first.1 {
            let held = first;
            first = second;
            second = held;
        }
        if third.1 > second.1 {
            let held = second;
            second = third;
            third = held;
            if second.1 > first.1 {
                let held = first;
                first = second;
                second = held;
            }
        }
        let neighbors = vec![first, second, third];
        assert(neighbors@ =~= ranked(
            tile::score_of(forward_tile) as i8,
            tile::score_of(left_tile) as i8,
            tile::score_of(right_tile) as i8,
        ));
        Ok(neighbors)
    }

    /// Whether the attacker wins a fight, given the sizes of the two wyrms
    /// and the advantage that was drawn for the attacker, in thousandths.
    pub fn attacker_wins(attacker_size: usize, defender_size: usize, advantage: u32) -> (wins: bool)
        ensures
            wins == attacker_prevails(attacker_size as int, defender_size as int, advantage as int),
    {
        assert(attacker_size * advantage <= 0xffff_ffff_ffff_ffff * 0xffff_ffff) by (nonlinear_arith)
            requires
                0 <= attacker_size <= 0xffff_ffff_ffff_ffff,
                0 <= advantage <= 0xffff_ffff,
        ;
        let weight: u128 = 2 * (attacker_size as u128 * advantage as u128);
        let bar: u128 = defender_size as u128 * ADVANTAGE_UNIT as u128;
        weight >= bar
    }

    /// The odds, as a numerator and a denominator, that the carcass of a
    /// wyrm leaves food on the cell of its segment `index`.
    pub fn carcass_food_odds(index: usize) -> (odds: (u32, u32))
        ensures
            (odds.0 as int, odds.1 as int) == carcass_odds(index as int),
            0 < odds.1,
            odds.0 <= odds.1,
    {
        let divisor: u32 = if index < (CARCASS_DIVISOR_MAX - 1) as usize {
            (index + 1) as u32
        } else {
            CARCASS_DIVISOR_MAX
        };
        let certain: u32 = 2 * divisor;
        let numerator: u32 = if divisor + 2 < certain {
            divisor + 2
        } else {
            certain
        };
        (numerator, certain)
    }

    /// Moves the wyrm one step in `direction`, onto a cell that holds
    /// neither a wall nor a wyrm. The wyrm takes the direction as its
    /// heading. One that grows keeps its tail; one that does not gives up
    /// the cell of its tail, which then holds food if the wyrm pooped and is
    /// empty if not. An id that no live wyrm has is refused.
    pub fn move_wyrm(&mut self, wyrm_id: u16, direction: Direction, grow: bool, poop: bool) -> (done:
        Result<(), Error>)
        requires
            old(self).wf(),
            old(self)@.alive(wyrm_id) ==> old(self)@.can_enter(wyrm_id, direction),
        ensures
            final(self).wf(),
            match done {
                Ok(_) => old(self)@.alive(wyrm_id) && final(self)@ == old(self)@.moved(
                    wyrm_id,
                    direction,
                    grow,
                    poop,
                ),
                Err(error) => !old(self)@.alive(wyrm_id) && error == Error::InvalidWyrmId(wyrm_id)
                    && final(self)@ == old(self)@,
            },
    {
        let mut wyrm = match self.wyrms.remove(&wyrm_id) {
            Some(wyrm) => wyrm,
            None => {
                assert(self@ =~= old(self)@);
                return Err(Error::InvalidWyrmId(wyrm_id));
            },
        };
        proof {
            lemma_target_in_bounds(old(self)@, wyrm_id, direction);
            assert(old(self).wyrms@.contains_key(wyrm_id));
            assert(old(self)@.alive(wyrm_id));
            assert(old(self)@.wyrm_wf(wyrm_id));
            assert(old(self)@.in_bounds(wyrm@.body[wyrm@.body.len() - 1]));
        }
        let destination = match wyrm.head().move_in_direction(direction) {
            Ok(destination) => destination,
            Err(_) => unreached(),
        };
        wyrm.segments.push_front(destination);
        self.grid.set_tile(destination, wyrm_id);

        if !grow {
            let end = match wyrm.segments.pop_back() {
                Some(end) => end,
                None => unreached(),
            };
            let tile = if poop {
                tile::FOOD
            } else {
                tile::EMPTY
            };
            self.grid.set_tile(end, tile);
        }
        wyrm.direction = direction;
        self.wyrms.insert(wyrm_id, wyrm);
        proof {
            let after = old(self)@.moved(wyrm_id, direction, grow, poop);
            assert(self@.wyrms[wyrm_id].body =~= after.wyrms[wyrm_id].body);
            assert(self@.wyrms =~= after.wyrms);
            assert(self@ =~= after);
            lemma_moved_wf(old(self)@, wyrm_id, direction, grow, poop);
        }
        Ok(())
    }

    /// Destroys the wyrm: it leaves the collection, and each cell of its
    /// body is given food or left empty by a draw whose chance of food
    /// falls off from certain at the head towards one half. An id that no
    /// live wyrm has is refused.
    pub fn destroy_wyrm(&mut self, wyrm_id: u16) -> (done: Result<(), Error>)
        requires
            old(self).wf(),
        ensures
            final(self).wf(),
            match done {
                Ok(_) => old(self)@.alive(wyrm_id) && old(self)@.destroyed(final(self)@, wyrm_id),
                Err(error) => !old(self)@.alive(wyrm_id) && error == Error::InvalidWyrmId(wyrm_id)
                    && final(self)@ == old(self)@,
            },
    {
        let wyrm = match self.wyrms.remove(&wyrm_id) {
            Some(wyrm) => wyrm,
            None => {
                assert(self@ =~= old(self)@);
                return Err(Error::InvalidWyrmId(wyrm_id));
            },
        };
        let ghost body = wyrm@.body;
        proof {
            assert(old(self).wyrms@.contains_key(wyrm_id));
            assert(old(self)@.alive(wyrm_id));
            assert(old(self)@.wyrm_wf(wyrm_id));
            self.grid.lemma_view_wf();
        }
        let size = wyrm.segments.len();
        let mut i: usize = 0;
        while i < size
            invariant
                i <= size,
                size == body.len(),
                body == wyrm@.body,
                body == old(self)@.wyrms[wyrm_id].body,
                body.no_duplicates(),
                forall|j: int| 0 <= j < body.len() ==> old(self)@.in_bounds(#[trigger] body[j]),
                self.grid.wf(),
                self.grid@.wf(),
                self.grid@.width == old(self)@.grid.width,
                self.grid@.height == old(self)@.grid.height,
                self.wyrms@ == old(self).wyrms@.remove(wyrm_id),
                self.next_wyrm_id == old(self).next_wyrm_id,
                self.current_step == old(self).current_step,
                forall|position: Point<u16>|
                    old(self)@.in_bounds(position) && !body.contains(position)
                        ==> #[trigger] self.grid@.tiles[position] == old(self)@.tile(position),
                forall|j: int|
                    0 <= j < i ==> {
                        ||| self.grid@.tiles[#[trigger] body[j]] == tile::FOOD
                        ||| self.grid@.tiles[body[j]] == tile::EMPTY && !carcass_certain(
                            j,
                        )
                    },
            decreases size - i,
        {
            let position = wyrm.segments[i];
            let (numerator, denominator) = Self::carcass_food_odds(i);
            let tile = if random_ratio(&mut self.rng, numerator, denominator) {
                tile::FOOD
            } else {
                tile::EMPTY
            };
            assert(body[i as int] == position);
            self.grid.set_tile(position, tile);
            i += 1;
        }
        proof {
            assert(self@.wyrms =~= old(self)@.wyrms.remove(wyrm_id));
            assert(old(self)@.destroyed(self@, wyrm_id));
            lemma_destroyed_wf(old(self)@, self@, wyrm_id);
        }
        Ok(())
    }

    /// Lets the wyrm act on the cell one step away in the direction that
    /// `relative_direction` gives from its heading. On a wall or on its own
    /// body the wyrm is destroyed. Onto empty ground it moves, and with a
    /// small chance it poops. Onto food it moves and grows. On another wyrm
    /// it fights that wyrm. An id that no live wyrm has is refused.
    pub fn do_wyrm_action(&mut self, wyrm_id: u16, relative_direction: RelativeDirection) -> (done:
        Result<(), Error>)
        requires
            old(self).wf(),
        ensures
            final(self).wf(),
            match done {
                Ok(_) => {
                    &&& old(self)@.alive(wyrm_id)
                    &&& old(self)@.acted(final(self)@, wyrm_id, relative_direction)
                },
                Err(error) => !old(self)@.alive(wyrm_id) && error == Error::InvalidWyrmId(wyrm_id)
                    && final(self)@ == old(self)@,
            },
        decreases old(self)@.wyrms.len(), 1int,
    {
        let (heading, head) = match self.get_wyrm(wyrm_id) {
            Ok(wyrm) => {
                assert(self@.wyrm_wf(wyrm_id));
                (wyrm.direction, wyrm.head())
            },
            Err(error) => {
                return Err(error);
            },
        };
        let direction = heading.rotate(relative_direction);
        proof {
            lemma_target_in_bounds(self@, wyrm_id, direction);
        }
        let destination = match head.move_in_direction(direction) {
            Ok(destination) => destination,
            Err(_) => unreached(),
        };
        let tile_id = match self.get_tile(destination) {
            Ok(tile_id) => tile_id,
            Err(_) => unreached(),
        };
        match Tile::from_code(tile_id) {
            Tile::Wall => {
                let _ = self.destroy_wyrm(wyrm_id);
            },
            Tile::Empty => {
                let poop = random_ratio(&mut self.rng, 1, POOP_RARITY);
                let _ = self.move_wyrm(wyrm_id, direction, false, poop);
            },
            Tile::Food => {
                let _ = self.move_wyrm(wyrm_id, direction, true, false);
            },
            Tile::Wyrm(found_id) => {
                if found_id == wyrm_id {
                    let _ = self.destroy_wyrm(wyrm_id);
                } else {
                    assert(self@.alive(self@.tile(destination)));
                    let _ = self.fight_wyrms(wyrm_id, found_id);
                }
            },
        }
        Ok(())
    }

    /// Lets `wyrm_a_id` fight `wyrm_b_id`. The ratio of the attacker's size
    /// to the defender's, times an advantage drawn for the attacker from
    /// eight tenths to twelve tenths, decides: from one half up the
    /// attacker wins. The loser is destroyed, and the winner then acts on
    /// the cell ahead of it. An id that no live wyrm has is refused, the
    /// attacker's first.
    pub fn fight_wyrms(&mut self, wyrm_a_id: u16, wyrm_b_id: u16) -> (done: Result<(), Error>)
        requires
            old(self).wf(),
            wyrm_a_id != wyrm_b_id,
        ensures
            final(self).wf(),
            match done {
                Ok(_) => {
                    &&& old(self)@.alive(wyrm_a_id)
                    &&& old(self)@.alive(wyrm_b_id)
                    &&& old(self)@.fought(final(self)@, wyrm_a_id, wyrm_b_id)
                },
                Err(error) => {
                    &&& final(self)@ == old(self)@
                    &&& if old(self)@.alive(wyrm_a_id) {
                        !old(self)@.alive(wyrm_b_id) && error == Error::InvalidWyrmId(wyrm_b_id)
                    } else {
                        error == Error::InvalidWyrmId(wyrm_a_id)
                    }
                },
            },
        decreases old(self)@.wyrms.len(), 0int,
    {
        let size_a = match self.get_wyrm(wyrm_a_id) {
            Ok(wyrm) => wyrm.size(),
            Err(error) => {
                return Err(error);
            },
        };
        let size_b = match self.get_wyrm(wyrm_b_id) {
            Ok(wyrm) => wyrm.size(),
            Err(error) => {
                return Err(error);
            },
        };
        let advantage = random_in_range(&mut self.rng, ADVANTAGE_MIN, ADVANTAGE_MAX);
        let (winner_id, loser_id) = if Self::attacker_wins(size_a, size_b, advantage) {
            (wyrm_a_id, wyrm_b_id)
        } else {
            (wyrm_b_id, wyrm_a_id)
        };

        let _ = self.destroy_wyrm(loser_id);
        let ghost between = self@;
        proof {
            lemma_destroyed_wf(old(self)@, between, loser_id);
            assert(between.alive(winner_id));
        }
        let _ = self.do_wyrm_action(winner_id, RelativeDirection::Forward);
        proof {
            assert(old(self)@.fight_settled(between, wyrm_a_id, wyrm_b_id, advantage));
        }
        Ok(())
    }

    /// Lets the wyrm take its turn: it looks at the tiles ahead, to the
    /// left and to the right, and acts on the one with the greatest score.
    /// Forward wins every tie, and left wins a tie with right. An id that no
    /// live wyrm has is refused.
    pub fn update_wyrm(&mut self, wyrm_id: u16) -> (done: Result<(), Error>)
        requires
            old(self).wf(),
        ensures
            final(self).wf(),
            match done {
                Ok(_) => {
                    &&& old(self)@.alive(wyrm_id)
                    &&& old(self)@.acted(final(self)@, wyrm_id, old(self)@.chosen_turn(wyrm_id))
                },
                Err(error) => !old(self)@.alive(wyrm_id) && error == Error::InvalidWyrmId(wyrm_id)
                    && final(self)@ == old(self)@,
            },
    {
        let (heading, head) = match self.get_wyrm(wyrm_id) {
            Ok(wyrm) => {
                assert(self@.wyrm_wf(wyrm_id));
                (wyrm.direction, wyrm.head())
            },
            Err(error) => {
                return Err(error);
            },
        };
        proof {
            lemma_target_in_bounds(self@, wyrm_id, heading);
            lemma_target_in_bounds(self@, wyrm_id, heading.rotated(RelativeDirection::Left));
            lemma_target_in_bounds(self@, wyrm_id, heading.rotated(RelativeDirection::Right));
        }
        let neighbors = match self.get_neighbors(head, heading) {
            Ok(neighbors) => neighbors,
            Err(_) => unreached(),
        };
        proof {
            lemma_ranked(
                tile::score_of(self@.tile(self@.target(wyrm_id, heading))) as i8,
                tile::score_of(
                    self@.tile(self@.target(wyrm_id, heading.rotated(RelativeDirection::Left))),
                ) as i8,
                tile::score_of(
                    self@.tile(self@.target(wyrm_id, heading.rotated(RelativeDirection::Right))),
                ) as i8,
            );
        }
        let (relative_direction, _) = neighbors[0];
        self.do_wyrm_action(wyrm_id, relative_direction)
    }

    /// Advances the world by one step. Where a spawn is due, a wyrm is
    /// spawned from what the host drew. Then every wyrm that was alive at
    /// that point takes its turn, unless it has died in the meantime. Last
    /// the count of steps goes up by one.
    pub fn step(&mut self, draw: &SpawnDraw)
        requires
            old(self).wf(),
            old(self)@.current_step < usize::MAX,
        ensures
            final(self).wf(),
            old(self)@.stepped(final(self)@, draw.position, draw.color),
    {
        let ghost mut heading = Direction::Up;
        if self.current_step > SPAWN_INTERVAL / 2 && self.current_step % SPAWN_INTERVAL == 0 {
            self.create_random_wyrm(draw);
            proof {
                heading = choose|direction: Direction| #[trigger]
                    old(self)@.spawn_outcome(
                        self@,
                        old(self)@.spawn_position(draw.position),
                        draw.color,
                        direction,
                    );
            }
        }
        let ghost between = self@;

        let ghost order = self.wyrms.keys().remaining().unref();
        let mut wyrm_ids: Vec<u16> = Vec::new();
        for wyrm_id in keys: self.wyrms.keys()
            invariant
                keys.seq().unref() == order,
                wyrm_ids@ == order.take(keys.index()),
        {
            wyrm_ids.push(*wyrm_id);
            proof {
                assert(order.take(keys.index() + 1) =~= order.take(keys.index()).push(*wyrm_id));
            }
        }
        proof {
            assert(wyrm_ids@ =~= order);
            assert(order.to_set() =~= between.wyrms.dom());
        }
        let mut turn: usize = 0;
        while turn < wyrm_ids.len()
            invariant
                self.wf(),
                turn <= wyrm_ids.len(),
                between.turns_taken(self@, wyrm_ids@.take(turn as int)),
                self@.current_step == between.current_step,
            decreases wyrm_ids.len() - turn,
        {
            let wyrm_id = wyrm_ids[turn];
            let ghost earlier = self@;
            if self.wyrms.contains_key(&wyrm_id) {
                let _ = self.update_wyrm(wyrm_id);
                proof {
                    self.lemma_view_wf();
                    lemma_acted_sound(earlier, self@, wyrm_id, earlier.chosen_turn(wyrm_id));
                }
            }
            proof {
                let done = wyrm_ids@.take(turn as int + 1);
                assert(done.drop_last() =~= wyrm_ids@.take(turn as int));
                assert(done.last() == wyrm_id);
                assert(earlier.turn_taken(self@, done.last()));
            }
            turn += 1;
        }

        let ghost acted = self@;
        self.current_step += 1;
        proof {
            lemma_same_board_wf(acted, self@);
            assert(wyrm_ids@.take(wyrm_ids@.len() as int) =~= wyrm_ids@);
            assert(acted =~= (WorldView { current_step: old(self)@.current_step, ..self@ }));
            assert(old(self)@.stepped_via(
                between,
                heading,
                order,
                self@,
                draw.position,
                draw.color,
            ));
        }
    }

    /// The colour in which a cell with the given tile is shown.
    pub fn get_tile_color(&self, tile: u16) -> (shown: Color)
        ensures
            shown == self@.tile_color(tile),
    {
        match Tile::from_code(tile) {
            Tile::Empty => color::empty(),
            Tile::Wall => color::wall(),
            Tile::Food => color::food(),
            Tile::Wyrm(id) => match self.wyrms.get(&id) {
                Some(wyrm) => wyrm.color,
                None => color::missing(),
            },
        }
    }

    /// Writes the colour of every cell to `pixel_data`, three bytes to the
    /// cell, row by row. The world is left as it is.
    pub fn render(&self, pixel_data: &mut [u8])
        requires
            self.wf(),
            old(pixel_data)@.len() == self@.grid.width * self@.grid.height * BYTES_PER_CELL,
        ensures
            final(pixel_data)@.len() == old(pixel_data)@.len(),
            forall|position: Point<u16>|
                self@.in_bounds(position) ==> {
                    let shown = self@.tile_color(#[trigger] self@.tile(position));
                    let at = cell_index(self@.grid.width, position) * BYTES_PER_CELL;
                    &&& final(pixel_data)@[at] == shown.r
                    &&& final(pixel_data)@[at + 1] == shown.g
                    &&& final(pixel_data)@[at + 2] == shown.b
                },
    {
        let width = self.grid.width();
        let height = self.grid.height();
        let size = pixel_data.len();
        let mut y: u16 = 0;
        while y < height
            invariant
                self.wf(),
                width == self@.grid.width,
                height == self@.grid.height,
                y <= height,
                pixel_data@.len() == size,
                pixel_data@.len() == width * height * BYTES_PER_CELL,
                forall|position: Point<u16>|
                    self@.in_bounds(position) && position.y < y ==> {
                        let shown = self@.tile_color(#[trigger] self@.tile(position));
                        let at = cell_index(width, position) * BYTES_PER_CELL;
                        &&& pixel_data@[at] == shown.r
                        &&& pixel_data@[at + 1] == shown.g
                        &&& pixel_data@[at + 2] == shown.b
                    },
            decreases height - y,
        {
            let mut x: u16 = 0;
            while x < width
                invariant
                    self.wf(),
                    width == self@.grid.width,
                    height == self@.grid.height,
                    y < height,
                    x <= width,
                    pixel_data@.len() == size,
                    pixel_data@.len() == width * height * BYTES_PER_CELL,
                    forall|position: Point<u16>|
                        self@.in_bounds(position) && (position.y < y || (position.y == y
                            && position.x < x)) ==> {
                            let shown = self@.tile_color(#[trigger] self@.tile(position));
                            let at = cell_index(width, position) * BYTES_PER_CELL;
                            &&& pixel_data@[at] == shown.r
                            &&& pixel_data@[at + 1] == shown.g
                            &&& pixel_data@[at + 2] == shown.b
                        },
                decreases width - x,
            {
                let position = Point::new(x, y);
                let tile_index = self.index(position);
                let tile = match self.get_tile(position) {
                    Ok(tile) => tile,
                    Err(_) => unreached(),
                };
                let tile_color = self.get_tile_color(tile);
                let (r, g, b) = tile_color.rgb();

                assert(tile_index * BYTES_PER_CELL + 2 < size);
                let i = tile_index * BYTES_PER_CELL;
                pixel_data[i] = r;
                pixel_data[i + 1] = g;
                pixel_data[i + 2] = b;
                proof {
                    assert forall|other: Point<u16>|
                        self@.in_bounds(other) && (other.y < y || (other.y == y && other.x < x
                            + 1)) implies ({
                        let shown = self@.tile_color(#[trigger] self@.tile(other));
                        let at = cell_index(width, other) * BYTES_PER_CELL;
                        &&& pixel_data@[at] == shown.r
                        &&& pixel_data@[at + 1] == shown.g
                        &&& pixel_data@[at + 2] == shown.b
                    }) by {
                        lemma_cell_index(width, height, other, position);
                    }
                }
                x += 1;
            }
            y += 1;
        }
    }
}

} // verus!
