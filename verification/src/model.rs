//! The world as a mathematical value, what it means for it to be
//! consistent, and the transitions that the simulation makes on it.

use vstd::prelude::*;

use crate::bounds::clamped;
use crate::color::{spec_empty, spec_food, spec_missing, spec_wall, Color};
use crate::config::{ADVANTAGE_MAX, ADVANTAGE_MIN, ADVANTAGE_UNIT, SPAWN_INTERVAL};
use crate::direction::{Direction, RelativeDirection};
use crate::error::Error;
use crate::grid::GridView;
use crate::point::Point;
use crate::tile;
use crate::wyrm::WyrmView;

verus! {

/// A world as a mathematical value: the grid, the live wyrms by id, the id
/// that the next wyrm will get, and the number of steps taken so far.
#[verifier::ext_equal]
pub struct WorldView {
    pub grid: GridView,
    pub wyrms: Map<u16, WyrmView>,
    pub next_wyrm_id: u16,
    pub current_step: usize,
}

/// The number of wyrm ids.
pub open spec fn ring_size() -> int {
    u16::MAX - tile::WYRM + 1
}

/// The wyrm id after `id`; after the greatest comes the least.
pub open spec fn ring_successor(id: u16) -> u16 {
    if id == u16::MAX {
        tile::WYRM
    } else {
        (id + 1) as u16
    }
}

/// The number of steps from the wyrm id `from` forward to the wyrm id `to`,
/// going round from the greatest id to the least where `to` is the smaller.
pub open spec fn ring_distance(from: u16, to: u16) -> int {
    if to >= from {
        to - from
    } else {
        to - from + ring_size()
    }
}

/// The three candidates for the next move of a wyrm, each with the score
/// of the tile it leads to, best first. Each candidate stands at the place
/// given by the number of candidates that go before it: those with a
/// greater score, and those with the same score that come earlier in the
/// order forward, left, right.
pub open spec fn ranked(forward: i8, left: i8, right: i8) -> Seq<(RelativeDirection, i8)> {
    let forward_place = (if left > forward {
        1int
    } else {
        0int
    }) + (if right > forward {
        1int
    } else {
        0int
    });
    let left_place = (if forward >= left {
        1int
    } else {
        0int
    }) + (if right > left {
        1int
    } else {
        0int
    });
    Seq::new(
        3,
        |place: int|
            if place == forward_place {
                (RelativeDirection::Forward, forward)
            } else if place == left_place {
                (RelativeDirection::Left, left)
            } else {
                (RelativeDirection::Right, right)
            },
    )
}

/// The turn that leads to the tile with the greatest score. Forward wins
/// every tie, and left wins a tie with right.
pub open spec fn best_turn(forward: int, left: int, right: int) -> RelativeDirection {
    if forward >= left && forward >= right {
        RelativeDirection::Forward
    } else if left >= right {
        RelativeDirection::Left
    } else {
        RelativeDirection::Right
    }
}

/// Whether the attacker wins a fight. The ratio of the attacker's size to
/// the defender's, times the advantage that was drawn for the attacker,
/// has to reach one half; the advantage is counted in thousandths.
pub open spec fn attacker_prevails(attacker_size: int, defender_size: int, advantage: int) -> bool {
    2 * (attacker_size * advantage) >= defender_size * (ADVANTAGE_UNIT as int)
}

/// The greatest divisor that the chance of food in a carcass is counted
/// with; beyond it the chance stays what it is there, less than one part in
/// a thousand million above one half.
pub const CARCASS_DIVISOR_MAX: u32 = 0x7fff_ffff;

/// The odds, as a numerator and a denominator, that the carcass of a wyrm
/// leaves food on the cell of its segment `index`, counted from the head.
/// The chance is one half more than one in `index + 1`, and no more than
/// certain.
pub open spec fn carcass_odds(index: int) -> (int, int) {
    let divisor = if index + 1 < CARCASS_DIVISOR_MAX {
        index + 1
    } else {
        CARCASS_DIVISOR_MAX as int
    };
    (
        if divisor + 2 < 2 * divisor {
            divisor + 2
        } else {
            2 * divisor
        },
        2 * divisor,
    )
}

/// Whether the carcass of a wyrm is sure to leave food on the cell of its
/// segment `index`, counted from the head.
pub open spec fn carcass_certain(index: int) -> bool {
    carcass_odds(index).0 == carcass_odds(index).1
}

/// Whether a wyrm is spawned at the start of the step that follows `count`
/// steps: on every multiple of the interval, once the count has passed half
/// of the interval.
pub open spec fn spawn_due(count: usize) -> bool {
    count > SPAWN_INTERVAL / 2 && count % SPAWN_INTERVAL == 0
}

// What a world holds, and when it is consistent.
impl WorldView {
    /// Whether `position` names a cell of the grid.
    pub open spec fn in_bounds(self, position: Point<u16>) -> bool {
        self.grid.in_bounds(position)
    }

    /// The tile of the cell at `position`.
    pub open spec fn tile(self, position: Point<u16>) -> u16 {
        self.grid.tiles[position]
    }

    /// Whether a wyrm with this id is alive.
    pub open spec fn alive(self, id: u16) -> bool {
        self.wyrms.contains_key(id)
    }

    /// The wyrm `id` is sound: it carries its own id, it has a body, no
    /// cell occurs twice in the body, and every cell of the body lies in
    /// the grid and holds the id.
    pub open spec fn wyrm_wf(self, id: u16) -> bool {
        let wyrm = self.wyrms[id];
        &&& id >= tile::WYRM
        &&& wyrm.id == id
        &&& wyrm.body.len() > 0
        &&& wyrm.body.no_duplicates()
        &&& forall|i: int|
            0 <= i < wyrm.body.len() ==> self.in_bounds(#[trigger] wyrm.body[i]) && self.tile(
                wyrm.body[i],
            ) == id
    }

    /// The world is consistent.
    ///
    /// - Each dimension leaves room for at least one interior cell.
    /// - The outermost ring of cells is wall.
    /// - Every live wyrm is sound.
    /// - A cell that holds an id holds the id of a live wyrm, and lies in
    ///   the body of that wyrm.
    /// - The id that the next wyrm will get is a wyrm id that no live wyrm
    ///   has.
    pub open spec fn wf(self) -> bool {
        &&& self.grid.wf()
        &&& self.grid.width >= 3
        &&& self.grid.height >= 3
        &&& forall|position: Point<u16>|
            self.in_bounds(position) && self.grid.at_edge(position) ==> #[trigger] self.tile(
                position,
            ) == tile::WALL
        &&& self.wyrms.dom().finite()
        &&& forall|id: u16| #[trigger] self.alive(id) ==> self.wyrm_wf(id)
        &&& forall|position: Point<u16>|
            self.in_bounds(position) && #[trigger] self.tile(position) >= tile::WYRM ==> self.alive(
                self.tile(position),
            ) && self.wyrms[self.tile(position)].body.contains(position)
        &&& self.next_wyrm_id >= tile::WYRM
        &&& !self.alive(self.next_wyrm_id)
    }

    /// The colour in which a cell with the given tile is shown. Ground,
    /// wall and food have their fixed colours. An id shows as the colour of
    /// the wyrm that has it, or as the colour for a missing wyrm where no
    /// live wyrm has it.
    pub open spec fn tile_color(self, tile: u16) -> Color {
        if tile == tile::EMPTY {
            spec_empty()
        } else if tile == tile::WALL {
            spec_wall()
        } else if tile == tile::FOOD {
            spec_food()
        } else if self.alive(tile) {
            self.wyrms[tile].color
        } else {
            spec_missing()
        }
    }

    /// This world with `tile` written to the cell at `position`.
    pub open spec fn with_tile(self, position: Point<u16>, tile: u16) -> WorldView {
        WorldView { grid: self.grid.with_tile(position, tile), ..self }
    }
}

// How wyrms come into a world.
impl WorldView {
    /// Whether some wyrm id other than the next one is free.
    pub open spec fn has_spare_id(self) -> bool {
        exists|id: u16| id >= tile::WYRM && id != self.next_wyrm_id && !#[trigger] self.alive(id)
    }

    /// Whether `next` is the first free wyrm id after the one that is next
    /// now, going round the ring of ids.
    pub open spec fn is_next_free(self, next: u16) -> bool {
        &&& next >= tile::WYRM
        &&& next != self.next_wyrm_id
        &&& !self.alive(next)
        &&& forall|id: u16|
            id >= tile::WYRM && 0 < ring_distance(self.next_wyrm_id, id) < ring_distance(
                self.next_wyrm_id,
                next,
            ) ==> #[trigger] self.alive(id)
    }

    /// Whether a wyrm can be put on the cell at `position`: the cell lies
    /// in the grid and holds neither a wall nor a wyrm.
    pub open spec fn can_host(self, position: Point<u16>) -> bool {
        self.in_bounds(position) && (self.tile(position) == tile::EMPTY || self.tile(position)
            == tile::FOOD)
    }

    /// This world after a wyrm of one segment has been put at `position`:
    /// the wyrm gets the id that was next, and `next` becomes the id of the
    /// wyrm after it.
    pub open spec fn spawned(
        self,
        position: Point<u16>,
        color: Color,
        direction: Direction,
        next: u16,
    ) -> WorldView {
        let id = self.next_wyrm_id;
        WorldView {
            grid: self.grid.with_tile(position, id),
            wyrms: self.wyrms.insert(id, WyrmView { id, color, direction, body: seq![position] }),
            next_wyrm_id: next,
            current_step: self.current_step,
        }
    }

    /// Whether `after` is this world once a wyrm of the given colour and
    /// heading was to be put at `position`. On a cell that can host a wyrm,
    /// and with an id to spare, the wyrm is there, with the id that was
    /// next, and the id that is next now is the first free one after it.
    /// Otherwise nothing has changed.
    pub open spec fn spawn_outcome(
        self,
        after: WorldView,
        position: Point<u16>,
        color: Color,
        direction: Direction,
    ) -> bool {
        if self.can_host(position) && self.has_spare_id() {
            &&& self.is_next_free(after.next_wyrm_id)
            &&& after == self.spawned(position, color, direction, after.next_wyrm_id)
        } else {
            after == self
        }
    }

    /// Where a wyrm is spawned for a position that was drawn: each
    /// coordinate is brought into the interior of the grid.
    pub open spec fn spawn_position(self, drawn: Point<u16>) -> Point<u16> {
        Point {
            x: clamped(drawn.x, 1, (self.grid.width - 2) as u16),
            y: clamped(drawn.y, 1, (self.grid.height - 2) as u16),
        }
    }
}

// What a wyrm sees, and what it chooses.
impl WorldView {
    /// The cell one step from the head of the wyrm `id` in `direction`.
    pub open spec fn target(self, id: u16, direction: Direction) -> Point<u16> {
        let step = direction.step();
        let head = self.wyrms[id].head();
        Point { x: (head.x + step.x) as u16, y: (head.y + step.y) as u16 }
    }

    /// The three candidates for a move from `position` with the heading
    /// `forward`, best first, or the first thing that stands in the way of
    /// looking at them: a neighbour whose coordinates cannot be had, then a
    /// neighbour outside the grid, each in the order forward, left, right.
    pub open spec fn neighbors(self, position: Point<u16>, forward: Direction) -> Result<
        Seq<(RelativeDirection, i8)>,
        Error,
    > {
        let ahead = position.moved(forward);
        let left = position.moved(forward.rotated(RelativeDirection::Left));
        let right = position.moved(forward.rotated(RelativeDirection::Right));
        if ahead is Err {
            Err(ahead->Err_0)
        } else if left is Err {
            Err(left->Err_0)
        } else if right is Err {
            Err(right->Err_0)
        } else if !self.in_bounds(ahead->Ok_0) {
            Err(Error::InvalidPosition(ahead->Ok_0))
        } else if !self.in_bounds(left->Ok_0) {
            Err(Error::InvalidPosition(left->Ok_0))
        } else if !self.in_bounds(right->Ok_0) {
            Err(Error::InvalidPosition(right->Ok_0))
        } else {
            Ok(
                ranked(
                    tile::score_of(self.tile(ahead->Ok_0)) as i8,
                    tile::score_of(self.tile(left->Ok_0)) as i8,
                    tile::score_of(self.tile(right->Ok_0)) as i8,
                ),
            )
        }
    }

    /// The turn that the wyrm `id` chooses: the one that leads to the tile
    /// with the greatest score among the tiles ahead, to the left and to
    /// the right.
    pub open spec fn chosen_turn(self, id: u16) -> RelativeDirection {
        let heading = self.wyrms[id].direction;
        best_turn(
            tile::score_of(self.tile(self.target(id, heading))),
            tile::score_of(
                self.tile(self.target(id, heading.rotated(RelativeDirection::Left))),
            ),
            tile::score_of(
                self.tile(self.target(id, heading.rotated(RelativeDirection::Right))),
            ),
        )
    }
}

// What a wyrm does.
impl WorldView {
    /// Whether the wyrm `id` can move one step in `direction`: the cell
    /// there holds neither a wall nor a wyrm.
    pub open spec fn can_enter(self, id: u16, direction: Direction) -> bool {
        let target = self.target(id, direction);
        self.tile(target) == tile::EMPTY || self.tile(target) == tile::FOOD
    }

    /// This world after the wyrm `id` has moved one step in `direction`.
    /// The target becomes the new head and the wyrm takes the direction as
    /// its heading. A wyrm that grows keeps its tail. One that does not
    /// gives up the cell of its tail, which then holds food if the wyrm
    /// pooped and is empty if not.
    pub open spec fn moved(self, id: u16, direction: Direction, grow: bool, poop: bool) -> WorldView {
        let wyrm = self.wyrms[id];
        let target = self.target(id, direction);
        let entered = self.grid.with_tile(target, id);
        let left = if poop {
            tile::FOOD
        } else {
            tile::EMPTY
        };
        WorldView {
            grid: if grow {
                entered
            } else {
                entered.with_tile(wyrm.body.last(), left)
            },
            wyrms: self.wyrms.insert(
                id,
                WyrmView {
                    direction,
                    body: if grow {
                        seq![target] + wyrm.body
                    } else {
                        seq![target] + wyrm.body.drop_last()
                    },
                    ..wyrm
                },
            ),
            ..self
        }
    }

    /// Whether `after` is this world after the wyrm `id` has been
    /// destroyed. The wyrm is gone, each cell of its body holds food or is
    /// empty, the cells where food is certain hold food, and all else is as
    /// it was.
    pub open spec fn destroyed(self, after: WorldView, id: u16) -> bool {
        let body = self.wyrms[id].body;
        &&& after.wyrms == self.wyrms.remove(id)
        &&& after.grid.width == self.grid.width
        &&& after.grid.height == self.grid.height
        &&& after.grid.wf()
        &&& after.next_wyrm_id == self.next_wyrm_id
        &&& after.current_step == self.current_step
        &&& forall|position: Point<u16>|
            self.in_bounds(position) && !body.contains(position) ==> #[trigger] after.tile(position)
                == self.tile(position)
        &&& forall|i: int|
            0 <= i < body.len() ==> {
                ||| after.tile(#[trigger] body[i]) == tile::FOOD
                ||| after.tile(body[i]) == tile::EMPTY && !carcass_certain(i)
            }
    }

    /// Whether `after` can come of this world by the wyrm `id` acting on
    /// the cell one step away in the direction that `turn` gives.
    ///
    /// - On a wall or on its own body the wyrm is destroyed.
    /// - Onto empty ground it moves without growing, and may poop.
    /// - Onto food it moves and grows.
    /// - On another wyrm it fights that wyrm.
    pub open spec fn acted(self, after: WorldView, id: u16, turn: RelativeDirection) -> bool
        decreases self.wyrms.len(), 1int,
    {
        let direction = self.wyrms[id].direction.rotated(turn);
        let found = self.tile(self.target(id, direction));
        if found == tile::WALL || found == id {
            self.destroyed(after, id)
        } else if found == tile::EMPTY {
            after == self.moved(id, direction, false, false) || after == self.moved(
                id,
                direction,
                false,
                true,
            )
        } else if found == tile::FOOD {
            after == self.moved(id, direction, true, false)
        } else {
            self.fought(after, id, found)
        }
    }

    /// The wyrm that wins when `attacker` fights `defender` with the given
    /// advantage.
    pub open spec fn fight_winner(self, attacker: u16, defender: u16, advantage: u32) -> u16 {
        if attacker_prevails(
            self.wyrms[attacker].body.len() as int,
            self.wyrms[defender].body.len() as int,
            advantage as int,
        ) {
            attacker
        } else {
            defender
        }
    }

    /// The wyrm that loses when `attacker` fights `defender` with the given
    /// advantage.
    pub open spec fn fight_loser(self, attacker: u16, defender: u16, advantage: u32) -> u16 {
        if self.fight_winner(attacker, defender, advantage) == attacker {
            defender
        } else {
            attacker
        }
    }

    /// Whether `between` is this world once the fight of `attacker` and
    /// `defender` is settled with the given advantage, which is one that
    /// can be drawn: the loser is destroyed.
    pub open spec fn fight_settled(
        self,
        between: WorldView,
        attacker: u16,
        defender: u16,
        advantage: u32,
    ) -> bool {
        &&& ADVANTAGE_MIN <= advantage <= ADVANTAGE_MAX
        &&& self.destroyed(between, self.fight_loser(attacker, defender, advantage))
        &&& between.wyrms.len() < self.wyrms.len()
    }

    /// Whether `after` can come of this world by `attacker` fighting
    /// `defender`: for some advantage that can be drawn the fight is
    /// settled, and from there the winner acts on the cell ahead of it.
    pub open spec fn fought(self, after: WorldView, attacker: u16, defender: u16) -> bool
        decreases self.wyrms.len(), 0int,
    {
        exists|advantage: u32, between: WorldView| #[trigger]
            self.fight_settled(between, attacker, defender, advantage) && between.acted(
                after,
                self.fight_winner(attacker, defender, advantage),
                RelativeDirection::Forward,
            )
    }
}

// How a step goes.
impl WorldView {
    /// Whether `after` can come of this world by the turn of the wyrm
    /// `id`: a live wyrm acts on the tile it chooses, and a dead one is
    /// passed over.
    pub open spec fn turn_taken(self, after: WorldView, id: u16) -> bool {
        if self.alive(id) {
            self.acted(after, id, self.chosen_turn(id))
        } else {
            after == self
        }
    }

    /// Whether `after` can come of this world by the wyrms of `order`
    /// taking their turns one after another in that order.
    pub open spec fn turns_taken(self, after: WorldView, order: Seq<u16>) -> bool
        decreases order.len(),
    {
        if order.len() == 0 {
            after == self
        } else {
            exists|earlier: WorldView| #[trigger]
                earlier.turn_taken(after, order.last()) && self.turns_taken(
                    earlier,
                    order.drop_last(),
                )
        }
    }

    /// Whether `after` comes of this world by one step that goes as
    /// follows. Where a spawn is due, a wyrm with the heading `direction`
    /// is put into the world, as far as the cell and the ids allow; this
    /// gives the world `between`. Then every wyrm that is alive in
    /// `between` has its turn once, in the order `order`. Last the count
    /// of steps goes up by one.
    pub open spec fn stepped_via(
        self,
        between: WorldView,
        direction: Direction,
        order: Seq<u16>,
        after: WorldView,
        drawn: Point<u16>,
        color: Color,
    ) -> bool {
        &&& if spawn_due(self.current_step) {
            self.spawn_outcome(between, self.spawn_position(drawn), color, direction)
        } else {
            between == self
        }
        &&& order.no_duplicates()
        &&& order.to_set() == between.wyrms.dom()
        &&& between.turns_taken(WorldView { current_step: self.current_step, ..after }, order)
        &&& after.current_step == self.current_step + 1
    }

    /// Whether `after` can come of this world by one step, given the
    /// position and the colour that the host drew for the wyrm that the
    /// step may spawn: for some heading of that wyrm and some order of the
    /// turns.
    pub open spec fn stepped(self, after: WorldView, drawn: Point<u16>, color: Color) -> bool {
        exists|between: WorldView, direction: Direction, order: Seq<u16>| #[trigger]
            self.stepped_via(between, direction, order, after, drawn, color)
    }

    /// Whether `after` can come of this world by what wyrms do in a step.
    /// The size of the grid, the next id and the count of steps stay. A
    /// cell is a wall afterwards just if it was one before. No wyrm
    /// appears, and one that is still alive has kept its colour and has not
    /// shrunk.
    pub open spec fn evolves_to(self, after: WorldView) -> bool {
        &&& after.grid.width == self.grid.width
        &&& after.grid.height == self.grid.height
        &&& after.next_wyrm_id == self.next_wyrm_id
        &&& after.current_step == self.current_step
        &&& forall|position: Point<u16>|
            self.in_bounds(position) ==> (#[trigger] after.tile(position) == tile::WALL
                <==> self.tile(position) == tile::WALL)
        &&& forall|id: u16| #[trigger]
            after.alive(id) ==> {
                &&& self.alive(id)
                &&& after.wyrms[id].color == self.wyrms[id].color
                &&& after.wyrms[id].body.len() >= self.wyrms[id].body.len()
            }
    }
}

} // verus!
