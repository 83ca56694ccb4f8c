//! What holds of every consistent world, and of every transition that the
//! simulation makes on one.

use vstd::prelude::*;

use crate::color::Color;
use crate::direction::{Direction, RelativeDirection};
use crate::error::Error;
use crate::config::{ADVANTAGE_MAX, ADVANTAGE_MIN};
use crate::model::{
    attacker_prevails, best_turn, carcass_certain, ranked, ring_distance, spawn_due, WorldView,
};
use crate::point::Point;
use crate::tile;

verus! {

/// Every cell of the body of a live wyrm holds the id of that wyrm, and the
/// cells that hold the id are exactly the cells of the body.
pub proof fn lemma_cells_of_wyrm(world: WorldView, id: u16, position: Point<u16>)
    requires
        world.wf(),
        world.alive(id),
    ensures
        world.wyrms[id].body.contains(position) <==> world.in_bounds(position) && world.tile(
            position,
        ) == id,
{
    let body = world.wyrms[id].body;
    assert(world.wyrm_wf(id));
    if body.contains(position) {
        let i = choose|i: int| 0 <= i < body.len() && body[i] == position;
        assert(world.in_bounds(body[i]));
    }
}

/// No cell lies in the bodies of two live wyrms.
pub proof fn lemma_no_shared_cell(world: WorldView, a: u16, b: u16, position: Point<u16>)
    requires
        world.wf(),
        world.alive(a),
        world.alive(b),
        a != b,
    ensures
        !(world.wyrms[a].body.contains(position) && world.wyrms[b].body.contains(position)),
{
    lemma_cells_of_wyrm(world, a, position);
    lemma_cells_of_wyrm(world, b, position);
}

/// The outermost ring of cells of a consistent world is wall.
pub proof fn lemma_edge_is_wall(world: WorldView, position: Point<u16>)
    requires
        world.wf(),
        world.in_bounds(position),
        world.grid.at_edge(position),
    ensures
        world.tile(position) == tile::WALL,
{
}

/// The head of a live wyrm lies in the interior of the grid, so each of its
/// four neighbours is a cell of the grid.
pub proof fn lemma_target_in_bounds(world: WorldView, id: u16, direction: Direction)
    requires
        world.wf(),
        world.alive(id),
    ensures
        world.wyrms[id].head().moved(direction) == Ok::<Point<u16>, Error>(
            world.target(id, direction),
        ),
        world.in_bounds(world.target(id, direction)),
        world.in_bounds(world.wyrms[id].head()),
        world.tile(world.wyrms[id].head()) == id,
{
    assert(world.wyrm_wf(id));
    let head = world.wyrms[id].body[0];
    assert(world.in_bounds(head));
    assert(world.tile(head) == id);
    assert(!world.grid.at_edge(head));
}

/// Putting a wyrm on a cell that can host one keeps the world consistent,
/// as long as the id of the wyrm after it is another wyrm id that no live
/// wyrm has.
pub proof fn lemma_spawned_wf(
    world: WorldView,
    position: Point<u16>,
    color: Color,
    direction: Direction,
    next: u16,
)
    requires
        world.wf(),
        world.can_host(position),
        next >= tile::WYRM,
        next != world.next_wyrm_id,
        !world.alive(next),
    ensures
        world.spawned(position, color, direction, next).wf(),
{
    let after = world.spawned(position, color, direction, next);
    let id = world.next_wyrm_id;
    assert(world.tile(position) < tile::WYRM);
    assert forall|other: u16| #[trigger] after.alive(other) implies after.wyrm_wf(other) by {
        if other == id {
            assert(after.wyrms[id].body[0] == position);
        } else {
            assert(world.alive(other));
            assert(world.wyrm_wf(other));
            let body = world.wyrms[other].body;
            assert forall|i: int| 0 <= i < body.len() implies after.in_bounds(#[trigger] body[i])
                && after.tile(body[i]) == other by {
                assert(world.tile(body[i]) == other);
            }
        }
    }
    assert forall|cell: Point<u16>|
        after.in_bounds(cell) && #[trigger] after.tile(cell) >= tile::WYRM implies after.alive(
        after.tile(cell),
    ) && after.wyrms[after.tile(cell)].body.contains(cell) by {
        if cell == position {
            assert(after.wyrms[id].body[0] == position);
        } else {
            assert(world.tile(cell) == after.tile(cell));
        }
    }
    assert forall|cell: Point<u16>|
        after.in_bounds(cell) && after.grid.at_edge(cell) implies #[trigger] after.tile(cell)
        == tile::WALL by {
        assert(world.tile(cell) == tile::WALL);
    }
}

/// A move onto a cell that holds neither a wall nor a wyrm keeps the world
/// consistent.
pub proof fn lemma_moved_wf(world: WorldView, id: u16, direction: Direction, grow: bool, poop: bool)
    requires
        world.wf(),
        world.alive(id),
        world.can_enter(id, direction),
    ensures
        world.moved(id, direction, grow, poop).wf(),
{
    let after = world.moved(id, direction, grow, poop);
    let target = world.target(id, direction);
    let old_body = world.wyrms[id].body;
    let new_body = after.wyrms[id].body;
    let tail = old_body.last();
    lemma_target_in_bounds(world, id, direction);
    assert(world.wyrm_wf(id));
    assert(world.tile(target) < tile::WYRM);
    assert(world.in_bounds(old_body[old_body.len() - 1]));
    assert(world.tile(tail) == id);
    assert(target != tail);
    assert forall|i: int| 0 <= i < old_body.len() implies #[trigger] old_body[i] != target by {
        assert(world.tile(old_body[i]) == id);
    }
    assert forall|other: u16| #[trigger] after.alive(other) implies after.wyrm_wf(other) by {
        if other == id {
            assert forall|i: int| 0 <= i < new_body.len() implies after.in_bounds(
                #[trigger] new_body[i],
            ) && after.tile(new_body[i]) == id by {
                if i > 0 {
                    assert(new_body[i] == old_body[i - 1]);
                    assert(world.in_bounds(old_body[i - 1]));
                    assert(world.tile(old_body[i - 1]) == id);
                }
            }
            assert forall|i: int, j: int|
                0 <= i < new_body.len() && 0 <= j < new_body.len() && i != j implies new_body[i]
                != new_body[j] by {
                if i > 0 {
                    assert(new_body[i] == old_body[i - 1]);
                }
                if j > 0 {
                    assert(new_body[j] == old_body[j - 1]);
                }
            }
        } else {
            assert(world.alive(other));
            assert(world.wyrm_wf(other));
            let body = world.wyrms[other].body;
            assert forall|i: int| 0 <= i < body.len() implies after.in_bounds(#[trigger] body[i])
                && after.tile(body[i]) == other by {
                assert(world.tile(body[i]) == other);
            }
        }
    }
    assert forall|cell: Point<u16>|
        after.in_bounds(cell) && #[trigger] after.tile(cell) >= tile::WYRM implies after.alive(
        after.tile(cell),
    ) && after.wyrms[after.tile(cell)].body.contains(cell) by {
        if cell == target {
            assert(new_body[0] == target);
        } else {
            assert(world.tile(cell) == after.tile(cell));
            let owner = world.tile(cell);
            if owner == id {
                let i = choose|i: int| 0 <= i < old_body.len() && old_body[i] == cell;
                assert(new_body[i + 1] == cell);
            }
        }
    }
    assert forall|cell: Point<u16>|
        after.in_bounds(cell) && after.grid.at_edge(cell) implies #[trigger] after.tile(cell)
        == tile::WALL by {
        assert(world.tile(cell) == tile::WALL);
    }
}

/// Destroying a live wyrm keeps the world consistent.
pub proof fn lemma_destroyed_wf(world: WorldView, after: WorldView, id: u16)
    requires
        world.wf(),
        world.alive(id),
        world.destroyed(after, id),
    ensures
        after.wf(),
        !after.alive(id),
        after.wyrms.len() + 1 == world.wyrms.len(),
{
    let body = world.wyrms[id].body;
    assert(world.wyrm_wf(id));
    assert forall|cell: Point<u16>| after.in_bounds(cell) && body.contains(cell) implies after.tile(
        cell,
    ) < tile::WYRM by {
        let i = choose|i: int| 0 <= i < body.len() && body[i] == cell;
        assert(after.tile(body[i]) < tile::WYRM);
    }
    assert forall|other: u16| #[trigger] after.alive(other) implies after.wyrm_wf(other) by {
        assert(world.alive(other));
        assert(world.wyrm_wf(other));
        let theirs = world.wyrms[other].body;
        assert forall|i: int| 0 <= i < theirs.len() implies after.in_bounds(#[trigger] theirs[i])
            && after.tile(theirs[i]) == other by {
            assert(world.tile(theirs[i]) == other);
            lemma_cells_of_wyrm(world, id, theirs[i]);
        }
    }
    assert forall|cell: Point<u16>|
        after.in_bounds(cell) && #[trigger] after.tile(cell) >= tile::WYRM implies after.alive(
        after.tile(cell),
    ) && after.wyrms[after.tile(cell)].body.contains(cell) by {
        assert(!body.contains(cell));
        assert(world.tile(cell) == after.tile(cell));
        lemma_cells_of_wyrm(world, id, cell);
    }
    assert forall|cell: Point<u16>|
        after.in_bounds(cell) && after.grid.at_edge(cell) implies #[trigger] after.tile(cell)
        == tile::WALL by {
        assert(world.tile(cell) == tile::WALL);
        lemma_cells_of_wyrm(world, id, cell);
    }
}

/// Nothing at all is a way for a world to evolve.
pub proof fn lemma_evolves_reflexive(world: WorldView)
    ensures
        world.evolves_to(world),
{
}

/// What evolves from a world that evolved from another evolves from that
/// other.
pub proof fn lemma_evolves_transitive(first: WorldView, second: WorldView, third: WorldView)
    requires
        first.evolves_to(second),
        second.evolves_to(third),
    ensures
        first.evolves_to(third),
{
    assert forall|position: Point<u16>| first.in_bounds(position) implies (#[trigger] third.tile(
        position,
    ) == tile::WALL <==> first.tile(position) == tile::WALL) by {
        assert(second.in_bounds(position));
        assert(second.tile(position) == tile::WALL <==> first.tile(position) == tile::WALL);
    }
    assert forall|id: u16| #[trigger] third.alive(id) implies first.alive(id)
        && third.wyrms[id].color == first.wyrms[id].color && third.wyrms[id].body.len()
        >= first.wyrms[id].body.len() by {
        assert(second.alive(id));
    }
}

/// A move is a way for a world to evolve.
pub proof fn lemma_moved_evolves(
    world: WorldView,
    id: u16,
    direction: Direction,
    grow: bool,
    poop: bool,
)
    requires
        world.wf(),
        world.alive(id),
        world.can_enter(id, direction),
    ensures
        world.evolves_to(world.moved(id, direction, grow, poop)),
{
    let after = world.moved(id, direction, grow, poop);
    lemma_target_in_bounds(world, id, direction);
    assert(world.wyrm_wf(id));
    let body = world.wyrms[id].body;
    assert(world.tile(body[body.len() - 1]) == id);
}

/// The destruction of a wyrm is a way for a world to evolve.
pub proof fn lemma_destroyed_evolves(world: WorldView, after: WorldView, id: u16)
    requires
        world.wf(),
        world.alive(id),
        world.destroyed(after, id),
    ensures
        world.evolves_to(after),
{
    let body = world.wyrms[id].body;
    assert(world.wyrm_wf(id));
    assert forall|position: Point<u16>| world.in_bounds(position) implies (#[trigger] after.tile(
        position,
    ) == tile::WALL <==> world.tile(position) == tile::WALL) by {
        if body.contains(position) {
            let i = choose|i: int| 0 <= i < body.len() && body[i] == position;
            assert(after.tile(body[i]) != tile::WALL);
            assert(world.tile(body[i]) == id);
        }
    }
}

/// The candidates are ranked by score, best first; candidates with the
/// same score keep the order forward, left, right; and the first of them
/// is the best turn.
pub proof fn lemma_ranked(forward: i8, left: i8, right: i8)
    ensures
        ranked(forward, left, right).len() == 3,
        ranked(forward, left, right)[0].1 >= ranked(forward, left, right)[1].1 >= ranked(
            forward,
            left,
            right,
        )[2].1,
        ranked(forward, left, right).contains((RelativeDirection::Forward, forward)),
        ranked(forward, left, right).contains((RelativeDirection::Left, left)),
        ranked(forward, left, right).contains((RelativeDirection::Right, right)),
        forall|i: int, j: int|
            0 <= i < j < 3 && ranked(forward, left, right)[i].1 == ranked(forward, left, right)[j].1
                ==> ranked(forward, left, right)[i].0.ordinal() != ranked(
                forward,
                left,
                right,
            )[j].0.ordinal() && (ranked(forward, left, right)[i].0 == RelativeDirection::Forward
                || ranked(forward, left, right)[j].0 == RelativeDirection::Right),
        ranked(forward, left, right)[0].0 == best_turn(forward as int, left as int, right as int),
{
    let order = ranked(forward, left, right);
    assert(order[0] == order[0]);
    assert(order[1] == order[1]);
    assert(order[2] == order[2]);
}

/// No wyrm ever chooses to turn back.
pub proof fn lemma_never_backward(forward: int, left: int, right: int)
    ensures
        best_turn(forward, left, right) != RelativeDirection::Backward,
{
}

/// An attacker that is at least as large as the defender wins whatever
/// advantage is drawn for it.
pub proof fn lemma_no_smaller_attacker_prevails(
    attacker_size: int,
    defender_size: int,
    advantage: int,
)
    requires
        attacker_size >= defender_size >= 0,
        ADVANTAGE_MIN <= advantage <= ADVANTAGE_MAX,
    ensures
        attacker_prevails(attacker_size, defender_size, advantage),
{
    assert(attacker_size * advantage >= defender_size * 800) by (nonlinear_arith)
        requires
            attacker_size >= defender_size >= 0,
            advantage >= 800,
    ;
}

/// The carcass of a wyrm is sure to leave food on the cell of the head.
pub proof fn lemma_carcass_head_certain()
    ensures
        carcass_certain(0),
{
}

/// A consistent world stays consistent whatever its count of steps is
/// changed to, and when the id that is next is changed to another wyrm id
/// that no live wyrm has.
pub proof fn lemma_same_board_wf(before: WorldView, after: WorldView)
    requires
        before.wf(),
        after.grid == before.grid,
        after.wyrms == before.wyrms,
        after.next_wyrm_id >= tile::WYRM,
        !before.alive(after.next_wyrm_id),
    ensures
        after.wf(),
{
    assert forall|id: u16| #[trigger] after.alive(id) implies after.wyrm_wf(id) by {
        assert(before.alive(id));
        assert(before.wyrm_wf(id));
    }
    assert forall|cell: Point<u16>|
        after.in_bounds(cell) && #[trigger] after.tile(cell) >= tile::WYRM implies after.alive(
        after.tile(cell),
    ) && after.wyrms[after.tile(cell)].body.contains(cell) by {
        assert(before.tile(cell) == after.tile(cell));
    }
    assert forall|cell: Point<u16>|
        after.in_bounds(cell) && after.grid.at_edge(cell) implies #[trigger] after.tile(cell)
        == tile::WALL by {
        assert(before.tile(cell) == tile::WALL);
    }
}

/// A world has at most one first free id after the one that is next, so a
/// spawn leaves no choice of the id that is next after it.
pub proof fn lemma_next_free_unique(world: WorldView, first: u16, second: u16)
    requires
        world.next_wyrm_id >= tile::WYRM,
        world.is_next_free(first),
        world.is_next_free(second),
    ensures
        first == second,
{
    let id = world.next_wyrm_id;
    if ring_distance(id, first) < ring_distance(id, second) {
        assert(world.alive(first));
    }
    if ring_distance(id, second) < ring_distance(id, first) {
        assert(world.alive(second));
    }
}

/// A spawn on a wall, or on a cell that a live wyrm occupies, changes
/// neither the wyrms nor the grid.
pub proof fn lemma_spawn_rejected(
    before: WorldView,
    after: WorldView,
    position: Point<u16>,
    color: Color,
    direction: Direction,
)
    requires
        before.tile(position) == tile::WALL || before.tile(position) >= tile::WYRM,
        before.spawn_outcome(after, position, color, direction),
    ensures
        after.wyrms == before.wyrms,
        after.grid == before.grid,
        after == before,
{
}

/// Whatever comes of a spawn in a consistent world is consistent, and no
/// cell has become or ceased to be a wall.
pub proof fn lemma_spawn_outcome_sound(
    before: WorldView,
    after: WorldView,
    position: Point<u16>,
    color: Color,
    direction: Direction,
)
    requires
        before.wf(),
        before.spawn_outcome(after, position, color, direction),
    ensures
        after.wf(),
        after.grid.width == before.grid.width,
        after.grid.height == before.grid.height,
        forall|cell: Point<u16>|
            before.in_bounds(cell) ==> (#[trigger] after.tile(cell) == tile::WALL <==> before.tile(
                cell,
            ) == tile::WALL),
{
    if before.can_host(position) && before.has_spare_id() {
        lemma_spawned_wf(before, position, color, direction, after.next_wyrm_id);
    }
}

/// A wyrm that moves onto food is one segment longer afterwards, and every
/// cell that it occupied still holds its id. A wyrm that moves onto empty
/// ground is as long as before, and the cell of its old tail is empty or
/// holds food.
pub proof fn lemma_growth(before: WorldView, after: WorldView, id: u16, turn: RelativeDirection)
    requires
        before.wf(),
        before.alive(id),
        before.acted(after, id, turn),
    ensures
        ({
            let found = before.tile(
                before.target(id, before.wyrms[id].direction.rotated(turn)),
            );
            let body = before.wyrms[id].body;
            &&& found == tile::FOOD ==> {
                &&& after.alive(id)
                &&& after.wyrms[id].body.len() == body.len() + 1
                &&& forall|i: int| 0 <= i < body.len() ==> after.tile(#[trigger] body[i]) == id
            }
            &&& found == tile::EMPTY ==> {
                &&& after.alive(id)
                &&& after.wyrms[id].body.len() == body.len()
                &&& after.tile(body.last()) == tile::EMPTY || after.tile(body.last())
                    == tile::FOOD
            }
        }),
{
    let direction = before.wyrms[id].direction.rotated(turn);
    let target = before.target(id, direction);
    let found = before.tile(target);
    let body = before.wyrms[id].body;
    lemma_target_in_bounds(before, id, direction);
    assert(before.wyrm_wf(id));
    if found == tile::FOOD {
        assert forall|i: int| 0 <= i < body.len() implies after.tile(#[trigger] body[i]) == id by {
            assert(before.tile(body[i]) == id);
        }
    }
    if found == tile::EMPTY {
        assert(before.tile(body[body.len() - 1]) == id);
    }
}

/// Once a wyrm is destroyed it is no longer alive, no cell of the grid
/// holds its id, and the cell where its head was holds food.
pub proof fn lemma_destroyed_reclaims(
    before: WorldView,
    after: WorldView,
    id: u16,
    position: Point<u16>,
)
    requires
        before.wf(),
        before.alive(id),
        before.destroyed(after, id),
    ensures
        !after.alive(id),
        before.in_bounds(position) ==> after.tile(position) != id,
        after.tile(before.wyrms[id].head()) == tile::FOOD,
{
    let body = before.wyrms[id].body;
    assert(before.wyrm_wf(id));
    lemma_cells_of_wyrm(before, id, position);
    if body.contains(position) {
        let i = choose|i: int| 0 <= i < body.len() && body[i] == position;
        assert(after.tile(body[i]) < tile::WYRM);
    }
    assert(carcass_certain(0));
    assert(after.tile(body[0]) == tile::FOOD);
}

/// Whatever comes of the action of a live wyrm in a consistent world is
/// consistent, and the world has evolved into it.
pub proof fn lemma_acted_sound(before: WorldView, after: WorldView, id: u16, turn: RelativeDirection)
    requires
        before.wf(),
        before.alive(id),
        before.acted(after, id, turn),
    ensures
        after.wf(),
        before.evolves_to(after),
    decreases before.wyrms.len(), 1int,
{
    let direction = before.wyrms[id].direction.rotated(turn);
    let target = before.target(id, direction);
    let found = before.tile(target);
    lemma_target_in_bounds(before, id, direction);
    if found == tile::WALL || found == id {
        lemma_destroyed_wf(before, after, id);
        lemma_destroyed_evolves(before, after, id);
    } else if found == tile::EMPTY {
        lemma_moved_wf(before, id, direction, false, false);
        lemma_moved_wf(before, id, direction, false, true);
        lemma_moved_evolves(before, id, direction, false, false);
        lemma_moved_evolves(before, id, direction, false, true);
    } else if found == tile::FOOD {
        lemma_moved_wf(before, id, direction, true, false);
        lemma_moved_evolves(before, id, direction, true, false);
    } else {
        assert(before.alive(before.tile(target)));
        lemma_fought_sound(before, after, id, found);
    }
}

/// Whatever comes of a fight of two live wyrms in a consistent world is
/// consistent, the world has evolved into it, and one of the two is dead.
pub proof fn lemma_fought_sound(before: WorldView, after: WorldView, attacker: u16, defender: u16)
    requires
        before.wf(),
        before.alive(attacker),
        before.alive(defender),
        attacker != defender,
        before.fought(after, attacker, defender),
    ensures
        after.wf(),
        before.evolves_to(after),
        !after.alive(attacker) || !after.alive(defender),
    decreases before.wyrms.len(), 0int,
{
    let (advantage, between) = choose|advantage: u32, between: WorldView| #[trigger]
        before.fight_settled(between, attacker, defender, advantage) && between.acted(
            after,
            before.fight_winner(attacker, defender, advantage),
            RelativeDirection::Forward,
        );
    let winner = before.fight_winner(attacker, defender, advantage);
    let loser = before.fight_loser(attacker, defender, advantage);
    lemma_destroyed_wf(before, between, loser);
    lemma_destroyed_evolves(before, between, loser);
    assert(between.alive(winner));
    lemma_acted_sound(between, after, winner, RelativeDirection::Forward);
    lemma_evolves_transitive(before, between, after);
    if after.alive(loser) {
        assert(between.alive(loser));
    }
}

/// Whatever comes of the wyrms of a consistent world taking turns is
/// consistent, and the world has evolved into it.
pub proof fn lemma_turns_sound(before: WorldView, after: WorldView, order: Seq<u16>)
    requires
        before.wf(),
        before.turns_taken(after, order),
    ensures
        after.wf(),
        before.evolves_to(after),
    decreases order.len(),
{
    if order.len() == 0 {
        lemma_evolves_reflexive(before);
    } else {
        let earlier = choose|earlier: WorldView| #[trigger]
            earlier.turn_taken(after, order.last()) && before.turns_taken(
                earlier,
                order.drop_last(),
            );
        lemma_turns_sound(before, earlier, order.drop_last());
        if earlier.alive(order.last()) {
            lemma_acted_sound(earlier, after, order.last(), earlier.chosen_turn(order.last()));
            lemma_evolves_transitive(before, earlier, after);
        }
    }
}

/// A step of a consistent world gives a consistent world of the same size
/// with one step more on the count, and no cell of it has become or ceased
/// to be a wall: the outermost ring is wall before and after.
pub proof fn lemma_stepped_sound(
    before: WorldView,
    after: WorldView,
    drawn: Point<u16>,
    color: Color,
)
    requires
        before.wf(),
        before.stepped(after, drawn, color),
    ensures
        after.wf(),
        after.current_step == before.current_step + 1,
        after.grid.width == before.grid.width,
        after.grid.height == before.grid.height,
        forall|cell: Point<u16>|
            before.in_bounds(cell) ==> (#[trigger] after.tile(cell) == tile::WALL <==> before.tile(
                cell,
            ) == tile::WALL),
        forall|cell: Point<u16>|
            before.in_bounds(cell) && before.grid.at_edge(cell) ==> before.tile(cell) == tile::WALL
                && #[trigger] after.tile(cell) == tile::WALL,
{
    let (between, direction, order) = choose|
        between: WorldView,
        direction: Direction,
        order: Seq<u16>,
    | #[trigger] before.stepped_via(between, direction, order, after, drawn, color);
    let acted = WorldView { current_step: before.current_step, ..after };
    if spawn_due(before.current_step) {
        lemma_spawn_outcome_sound(
            before,
            between,
            before.spawn_position(drawn),
            color,
            direction,
        );
    }
    lemma_turns_sound(between, acted, order);
    lemma_same_board_wf(acted, after);
    assert forall|cell: Point<u16>| before.in_bounds(cell) implies (#[trigger] after.tile(cell)
        == tile::WALL <==> before.tile(cell) == tile::WALL) by {
        assert(after.tile(cell) == acted.tile(cell));
        assert(between.in_bounds(cell));
        assert(acted.tile(cell) == tile::WALL <==> between.tile(cell) == tile::WALL);
    }
}

} // verus!
