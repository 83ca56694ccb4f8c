use wymrs::tile::{EMPTY, FOOD, WALL, WYRM};
use wymrs::{
    Color, Direction, Error, NewWorldParams, Point, RelativeDirection, SpawnDraw, World,
};

const RED: Color = Color { r: 200, g: 10, b: 10 };
const BLUE: Color = Color { r: 10, g: 10, b: 200 };

fn bare_world(width: u16, height: u16, seed: u64) -> World {
    let mut world = World::seeded(&NewWorldParams { width, height }, seed);
    for y in 1..height - 1 {
        for x in 1..width - 1 {
            world.set_tile(Point::new(x, y), EMPTY);
        }
    }
    world
}

fn tile(world: &World, x: u16, y: u16) -> u16 {
    world.get_tile(Point::new(x, y)).unwrap()
}

fn assert_consistent(world: &World) {
    let width = world.width();
    let height = world.height();
    for y in 0..height {
        for x in 0..width {
            let position = Point::new(x, y);
            let found = world.get_tile(position).unwrap();
            if x == 0 || y == 0 || x == width - 1 || y == height - 1 {
                assert_eq!(found, WALL);
            }
            if found >= WYRM {
                let wyrm = world.get_wyrm(found).expect("a cell holds the id of a dead wyrm");
                assert!(wyrm.segments.contains(&position));
            }
        }
    }
    for (id, wyrm) in world.wyrms() {
        assert_eq!(*id, wyrm.id);
        assert!(*id >= WYRM);
        assert!(wyrm.size() > 0);
        for (i, segment) in wyrm.segments.iter().enumerate() {
            assert_eq!(world.get_tile(*segment), Ok(*id));
            for other in wyrm.segments.iter().skip(i + 1) {
                assert_ne!(segment, other);
            }
        }
    }
    assert!(world.next_wyrm_id() >= WYRM);
    assert!(!world.wyrms().contains_key(&world.next_wyrm_id()));
}

#[test]
fn new_world_has_walls_round_food_and_ground() {
    let world = World::new(&NewWorldParams { width: 12, height: 9 });
    assert_eq!(world.width(), 12);
    assert_eq!(world.height(), 9);
    assert_eq!(world.current_step(), 0);
    assert_eq!(world.next_wyrm_id(), WYRM);
    assert!(world.wyrms().is_empty());
    for y in 0..9 {
        for x in 0..12 {
            let found = tile(&world, x, y);
            if x == 0 || y == 0 || x == 11 || y == 8 {
                assert_eq!(found, WALL);
            } else {
                assert!(found == EMPTY || found == FOOD);
            }
        }
    }
    assert_consistent(&world);
}

#[test]
fn smallest_world_has_one_interior_cell() {
    let world = World::seeded(&NewWorldParams { width: 3, height: 3 }, 1);
    for y in 0..3 {
        for x in 0..3 {
            if (x, y) != (1, 1) {
                assert_eq!(tile(&world, x, y), WALL);
            }
        }
    }
    assert!(tile(&world, 1, 1) == EMPTY || tile(&world, 1, 1) == FOOD);
}

#[test]
fn same_seed_gives_same_world() {
    let first = World::seeded(&NewWorldParams { width: 40, height: 30 }, 7);
    let second = World::seeded(&NewWorldParams { width: 40, height: 30 }, 7);
    let mut food = 0;
    for y in 0..30 {
        for x in 0..40 {
            assert_eq!(tile(&first, x, y), tile(&second, x, y));
            if tile(&first, x, y) == FOOD {
                food += 1;
            }
        }
    }
    assert!(food > 0);
    assert!(food < 38 * 28);
}

#[test]
fn get_tile_refuses_positions_outside() {
    let world = World::seeded(&NewWorldParams { width: 5, height: 4 }, 1);
    assert_eq!(world.get_tile(Point::new(5, 0)), Err(Error::InvalidPosition(Point::new(5, 0))));
    assert_eq!(world.get_tile(Point::new(0, 4)), Err(Error::InvalidPosition(Point::new(0, 4))));
    assert_eq!(
        world.get_tile(Point::new(u16::MAX, u16::MAX)),
        Err(Error::InvalidPosition(Point::new(u16::MAX, u16::MAX)))
    );
    assert_eq!(world.get_tile(Point::new(4, 3)), Ok(WALL));
}

#[test]
fn index_is_row_major() {
    let world = World::seeded(&NewWorldParams { width: 5, height: 4 }, 1);
    assert_eq!(world.index(Point::new(0, 0)), 0);
    assert_eq!(world.index(Point::new(4, 0)), 4);
    assert_eq!(world.index(Point::new(0, 1)), 5);
    assert_eq!(world.index(Point::new(3, 2)), 13);
    assert_eq!(world.index(Point::new(4, 3)), 19);
}

#[test]
fn at_edge_is_the_outer_ring() {
    let world = World::seeded(&NewWorldParams { width: 5, height: 4 }, 1);
    for y in 0..4 {
        for x in 0..5 {
            assert_eq!(world.at_edge(Point::new(x, y)), x == 0 || y == 0 || x == 4 || y == 3);
        }
    }
}

#[test]
fn set_tile_changes_one_cell() {
    let mut world = bare_world(6, 6, 3);
    world.set_tile(Point::new(2, 3), FOOD);
    world.set_tile(Point::new(4, 4), WALL);
    for y in 1..5 {
        for x in 1..5 {
            let expected = match (x, y) {
                (2, 3) => FOOD,
                (4, 4) => WALL,
                _ => EMPTY,
            };
            assert_eq!(tile(&world, x, y), expected);
        }
    }
    assert_consistent(&world);
}

#[test]
fn spawn_puts_a_wyrm_of_one_segment() {
    let mut world = bare_world(5, 5, 1);
    assert_eq!(world.create_wyrm_facing(Point::new(2, 2), RED, Direction::Down), Ok(()));
    assert_eq!(world.wyrms().len(), 1);
    let wyrm = world.get_wyrm(WYRM).unwrap();
    assert_eq!(wyrm.id, WYRM);
    assert_eq!(wyrm.color, RED);
    assert_eq!(wyrm.direction, Direction::Down);
    assert_eq!(wyrm.size(), 1);
    assert_eq!(wyrm.head(), Point::new(2, 2));
    assert_eq!(tile(&world, 2, 2), WYRM);
    assert_eq!(world.next_wyrm_id(), WYRM + 1);
    assert_consistent(&world);
}

#[test]
fn spawn_onto_food_is_allowed() {
    let mut world = bare_world(5, 5, 1);
    world.set_tile(Point::new(3, 1), FOOD);
    assert_eq!(world.create_wyrm_facing(Point::new(3, 1), RED, Direction::Up), Ok(()));
    assert_eq!(tile(&world, 3, 1), WYRM);
    assert_eq!(world.wyrms().len(), 1);
}

#[test]
fn spawn_with_drawn_heading() {
    let mut seen = [false; 4];
    for seed in 0..64 {
        let mut world = bare_world(5, 5, seed);
        assert_eq!(world.create_wyrm(Point::new(2, 2), BLUE), Ok(()));
        let wyrm = world.get_wyrm(WYRM).unwrap();
        assert_eq!(wyrm.color, BLUE);
        assert_eq!(wyrm.head(), Point::new(2, 2));
        assert_eq!(wyrm.size(), 1);
        match wyrm.direction {
            Direction::Up => seen[0] = true,
            Direction::Right => seen[1] = true,
            Direction::Down => seen[2] = true,
            Direction::Left => seen[3] = true,
        }
        assert_consistent(&world);
    }
    assert_eq!(seen, [true; 4]);
}

#[test]
fn spawn_on_wall_changes_nothing() {
    let mut world = bare_world(5, 5, 1);
    world.set_tile(Point::new(2, 2), WALL);
    for position in [Point::new(0, 0), Point::new(4, 2), Point::new(2, 4), Point::new(2, 2)] {
        assert_eq!(world.create_wyrm(position, RED), Ok(()));
        assert_eq!(world.create_wyrm_facing(position, RED, Direction::Up), Ok(()));
        assert!(world.wyrms().is_empty());
        assert_eq!(world.get_tile(position), Ok(WALL));
        assert_eq!(world.next_wyrm_id(), WYRM);
    }
    assert_consistent(&world);
}

#[test]
fn spawn_on_wyrm_changes_nothing() {
    let mut world = bare_world(5, 5, 1);
    world.create_wyrm_facing(Point::new(2, 2), RED, Direction::Up).unwrap();
    assert_eq!(world.create_wyrm_facing(Point::new(2, 2), BLUE, Direction::Down), Ok(()));
    assert_eq!(world.create_wyrm(Point::new(2, 2), BLUE), Ok(()));
    assert_eq!(world.wyrms().len(), 1);
    let wyrm = world.get_wyrm(WYRM).unwrap();
    assert_eq!(wyrm.color, RED);
    assert_eq!(wyrm.direction, Direction::Up);
    assert_eq!(tile(&world, 2, 2), WYRM);
    assert_eq!(world.next_wyrm_id(), WYRM + 1);
    assert_consistent(&world);
}

#[test]
fn spawn_outside_the_grid_is_refused() {
    let mut world = bare_world(5, 5, 1);
    let outside = Point::new(5, 2);
    assert_eq!(world.create_wyrm(outside, RED), Err(Error::InvalidPosition(outside)));
    assert_eq!(
        world.create_wyrm_facing(Point::new(2, 9), RED, Direction::Up),
        Err(Error::InvalidPosition(Point::new(2, 9)))
    );
    assert!(world.wyrms().is_empty());
    assert_eq!(world.next_wyrm_id(), WYRM);
}

#[test]
fn random_spawn_is_brought_into_the_interior() {
    for (drawn, expected) in [
        (Point::new(0, 0), Point::new(1, 1)),
        (Point::new(u16::MAX, u16::MAX), Point::new(6, 4)),
        (Point::new(3, 2), Point::new(3, 2)),
        (Point::new(7, 0), Point::new(6, 1)),
        (Point::new(0, 5), Point::new(1, 4)),
    ] {
        let mut world = bare_world(8, 6, 5);
        world.create_random_wyrm(&SpawnDraw { position: drawn, color: RED });
        let wyrm = world.get_wyrm(WYRM).unwrap();
        assert_eq!(wyrm.head(), expected);
        assert_eq!(wyrm.color, RED);
        assert_consistent(&world);
    }
}

#[test]
fn unknown_wyrm_is_refused() {
    let mut world = bare_world(5, 5, 1);
    assert!(matches!(world.get_wyrm(9), Err(Error::InvalidWyrmId(9))));
    assert_eq!(world.update_wyrm(9), Err(Error::InvalidWyrmId(9)));
    assert_eq!(
        world.do_wyrm_action(9, RelativeDirection::Forward),
        Err(Error::InvalidWyrmId(9))
    );
    assert_eq!(world.destroy_wyrm(9), Err(Error::InvalidWyrmId(9)));
    assert_eq!(world.move_wyrm(9, Direction::Up, false, false), Err(Error::InvalidWyrmId(9)));
    world.create_wyrm_facing(Point::new(2, 2), RED, Direction::Up).unwrap();
    assert_eq!(world.fight_wyrms(9, WYRM), Err(Error::InvalidWyrmId(9)));
    assert_eq!(world.fight_wyrms(WYRM, 9), Err(Error::InvalidWyrmId(9)));
    assert_eq!(world.fight_wyrms(8, 9), Err(Error::InvalidWyrmId(8)));
    assert_eq!(world.wyrms().len(), 1);
    assert_consistent(&world);
}

#[test]
fn neighbors_are_ranked_best_first() {
    let mut world = bare_world(5, 5, 1);
    let center = Point::new(2, 2);
    assert_eq!(
        world.get_neighbors(center, Direction::Up).unwrap(),
        vec![
            (RelativeDirection::Forward, 0),
            (RelativeDirection::Left, 0),
            (RelativeDirection::Right, 0)
        ]
    );
    world.set_tile(Point::new(3, 2), FOOD);
    assert_eq!(
        world.get_neighbors(center, Direction::Up).unwrap(),
        vec![
            (RelativeDirection::Right, 1),
            (RelativeDirection::Forward, 0),
            (RelativeDirection::Left, 0)
        ]
    );
    world.set_tile(Point::new(2, 1), WALL);
    assert_eq!(
        world.get_neighbors(center, Direction::Up).unwrap(),
        vec![
            (RelativeDirection::Right, 1),
            (RelativeDirection::Left, 0),
            (RelativeDirection::Forward, -1)
        ]
    );
    world.set_tile(Point::new(1, 2), FOOD);
    assert_eq!(
        world.get_neighbors(center, Direction::Up).unwrap(),
        vec![
            (RelativeDirection::Left, 1),
            (RelativeDirection::Right, 1),
            (RelativeDirection::Forward, -1)
        ]
    );
    assert_eq!(
        world.get_neighbors(center, Direction::Down).unwrap(),
        vec![
            (RelativeDirection::Left, 1),
            (RelativeDirection::Right, 1),
            (RelativeDirection::Forward, 0)
        ]
    );
}

#[test]
fn neighbors_never_look_backward() {
    let mut world = bare_world(5, 5, 1);
    world.set_tile(Point::new(2, 3), FOOD);
    let neighbors = world.get_neighbors(Point::new(2, 2), Direction::Up).unwrap();
    assert_eq!(neighbors.len(), 3);
    for (turn, score) in neighbors {
        assert_ne!(turn, RelativeDirection::Backward);
        assert_eq!(score, 0);
    }
}

#[test]
fn neighbors_off_the_grid_are_refused() {
    let world = bare_world(5, 5, 1);
    assert_eq!(world.get_neighbors(Point::new(0, 0), Direction::Up), Err(Error::Cast(-1)));
    assert_eq!(world.get_neighbors(Point::new(0, 2), Direction::Up), Err(Error::Cast(-1)));
    assert_eq!(
        world.get_neighbors(Point::new(4, 2), Direction::Up),
        Err(Error::InvalidPosition(Point::new(5, 2)))
    );
    assert_eq!(
        world.get_neighbors(Point::new(2, 4), Direction::Down),
        Err(Error::InvalidPosition(Point::new(2, 5)))
    );
}

#[test]
fn move_onto_empty_ground_keeps_the_length() {
    let mut world = bare_world(5, 5, 1);
    world.create_wyrm_facing(Point::new(2, 2), RED, Direction::Up).unwrap();
    assert_eq!(world.move_wyrm(WYRM, Direction::Up, false, false), Ok(()));
    let wyrm = world.get_wyrm(WYRM).unwrap();
    assert_eq!(wyrm.size(), 1);
    assert_eq!(wyrm.head(), Point::new(2, 1));
    assert_eq!(wyrm.direction, Direction::Up);
    assert_eq!(tile(&world, 2, 1), WYRM);
    assert_eq!(tile(&world, 2, 2), EMPTY);
    assert_consistent(&world);
}

#[test]
fn move_with_poop_leaves_food_behind() {
    let mut world = bare_world(5, 5, 1);
    world.create_wyrm_facing(Point::new(2, 2), RED, Direction::Up).unwrap();
    assert_eq!(world.move_wyrm(WYRM, Direction::Right, false, true), Ok(()));
    let wyrm = world.get_wyrm(WYRM).unwrap();
    assert_eq!(wyrm.size(), 1);
    assert_eq!(wyrm.head(), Point::new(3, 2));
    assert_eq!(wyrm.direction, Direction::Right);
    assert_eq!(tile(&world, 3, 2), WYRM);
    assert_eq!(tile(&world, 2, 2), FOOD);
    assert_consistent(&world);
}

#[test]
fn move_with_growth_keeps_the_tail() {
    let mut world = bare_world(6, 6, 1);
    world.create_wyrm_facing(Point::new(2, 2), RED, Direction::Up).unwrap();
    assert_eq!(world.move_wyrm(WYRM, Direction::Down, true, false), Ok(()));
    assert_eq!(world.move_wyrm(WYRM, Direction::Right, true, false), Ok(()));
    let wyrm = world.get_wyrm(WYRM).unwrap();
    assert_eq!(wyrm.size(), 3);
    let body: Vec<Point<u16>> = wyrm.segments.iter().copied().collect();
    assert_eq!(body, vec![Point::new(3, 3), Point::new(2, 3), Point::new(2, 2)]);
    assert_eq!(wyrm.direction, Direction::Right);
    for segment in body {
        assert_eq!(world.get_tile(segment), Ok(WYRM));
    }
    assert_consistent(&world);
    assert_eq!(world.move_wyrm(WYRM, Direction::Right, false, false), Ok(()));
    let wyrm = world.get_wyrm(WYRM).unwrap();
    let body: Vec<Point<u16>> = wyrm.segments.iter().copied().collect();
    assert_eq!(body, vec![Point::new(4, 3), Point::new(3, 3), Point::new(2, 3)]);
    assert_eq!(tile(&world, 2, 2), EMPTY);
    assert_consistent(&world);
}

#[test]
fn wyrm_that_finds_food_grows() {
    let mut world = bare_world(5, 5, 1);
    world.set_tile(Point::new(1, 2), FOOD);
    world.create_wyrm_facing(Point::new(2, 2), RED, Direction::Up).unwrap();
    assert_eq!(world.update_wyrm(WYRM), Ok(()));
    let wyrm = world.get_wyrm(WYRM).unwrap();
    assert_eq!(wyrm.size(), 2);
    assert_eq!(wyrm.head(), Point::new(1, 2));
    assert_eq!(wyrm.direction, Direction::Left);
    assert_eq!(tile(&world, 1, 2), WYRM);
    assert_eq!(tile(&world, 2, 2), WYRM);
    assert_consistent(&world);
}

#[test]
fn wyrm_on_empty_ground_moves_forward() {
    for seed in 0..32 {
        let mut world = bare_world(5, 5, seed);
        world.create_wyrm_facing(Point::new(2, 2), RED, Direction::Right).unwrap();
        assert_eq!(world.update_wyrm(WYRM), Ok(()));
        let wyrm = world.get_wyrm(WYRM).unwrap();
        assert_eq!(wyrm.size(), 1);
        assert_eq!(wyrm.head(), Point::new(3, 2));
        assert_eq!(wyrm.direction, Direction::Right);
        assert!(tile(&world, 2, 2) == EMPTY || tile(&world, 2, 2) == FOOD);
        assert_consistent(&world);
    }
}

#[test]
fn step_moves_a_lone_wyrm_forward() {
    let draw = SpawnDraw { position: Point::new(0, 0), color: BLUE };
    let mut cleared = 0;
    for seed in 0..64 {
        let mut world = bare_world(5, 5, seed);
        world.create_wyrm_facing(Point::new(2, 2), RED, Direction::Up).unwrap();
        world.step(&draw);
        assert_eq!(world.current_step(), 1);
        assert_eq!(world.wyrms().len(), 1);
        let wyrm = world.get_wyrm(WYRM).unwrap();
        assert_eq!(wyrm.head(), Point::new(2, 1));
        assert_eq!(wyrm.direction, Direction::Up);
        assert_eq!(wyrm.size(), 1);
        assert_eq!(tile(&world, 2, 1), WYRM);
        let left_behind = tile(&world, 2, 2);
        assert!(left_behind == EMPTY || left_behind == FOOD);
        if left_behind == EMPTY {
            cleared += 1;
        }
        assert_consistent(&world);
    }
    assert!(cleared > 32);
}

#[test]
fn wall_collision_destroys_the_wyrm() {
    for seed in 0..16 {
        let mut world = bare_world(3, 3, seed);
        world.create_wyrm(Point::new(1, 1), RED).unwrap();
        assert_eq!(world.wyrms().len(), 1);
        world.step(&SpawnDraw { position: Point::new(1, 1), color: BLUE });
        assert!(world.wyrms().is_empty());
        assert_eq!(tile(&world, 1, 1), FOOD);
        assert_eq!(world.current_step(), 1);
        assert_consistent(&world);
    }
}

#[test]
fn forced_wall_collision_leaves_food() {
    let mut world = bare_world(5, 5, 2);
    world.create_wyrm_facing(Point::new(1, 2), RED, Direction::Left).unwrap();
    assert_eq!(world.do_wyrm_action(WYRM, RelativeDirection::Forward), Ok(()));
    assert!(world.wyrms().is_empty());
    assert!(matches!(world.get_wyrm(WYRM), Err(Error::InvalidWyrmId(3))));
    assert_eq!(tile(&world, 1, 2), FOOD);
    assert_eq!(tile(&world, 0, 2), WALL);
    assert_consistent(&world);
}

#[test]
fn walled_in_wyrm_runs_into_the_wall() {
    let mut world = bare_world(5, 5, 2);
    world.set_tile(Point::new(1, 1), WALL);
    world.set_tile(Point::new(1, 3), WALL);
    world.create_wyrm_facing(Point::new(1, 2), RED, Direction::Left).unwrap();
    world.step(&SpawnDraw { position: Point::new(2, 2), color: BLUE });
    assert!(world.wyrms().is_empty());
    assert_eq!(tile(&world, 1, 2), FOOD);
    assert_consistent(&world);
}

#[test]
fn self_collision_destroys_the_wyrm() {
    let mut world = bare_world(6, 6, 4);
    world.create_wyrm_facing(Point::new(2, 2), RED, Direction::Up).unwrap();
    world.move_wyrm(WYRM, Direction::Right, true, false).unwrap();
    world.move_wyrm(WYRM, Direction::Down, true, false).unwrap();
    world.move_wyrm(WYRM, Direction::Left, true, false).unwrap();
    assert_eq!(world.get_wyrm(WYRM).unwrap().size(), 4);
    assert_eq!(world.do_wyrm_action(WYRM, RelativeDirection::Right), Ok(()));
    assert!(world.wyrms().is_empty());
    assert_eq!(tile(&world, 2, 3), FOOD);
    assert_eq!(tile(&world, 3, 3), FOOD);
    for (x, y) in [(3, 2), (2, 2)] {
        assert!(tile(&world, x, y) == FOOD || tile(&world, x, y) == EMPTY);
    }
    assert_consistent(&world);
}

#[test]
fn destroyed_wyrm_leaves_no_cell_behind() {
    for seed in 0..32 {
        let mut world = bare_world(12, 5, seed);
        world.create_wyrm_facing(Point::new(1, 2), RED, Direction::Right).unwrap();
        for _ in 0..8 {
            world.move_wyrm(WYRM, Direction::Right, true, false).unwrap();
        }
        assert_eq!(world.get_wyrm(WYRM).unwrap().size(), 9);
        assert_eq!(world.destroy_wyrm(WYRM), Ok(()));
        assert!(world.wyrms().is_empty());
        for y in 0..5 {
            for x in 0..12 {
                assert!(tile(&world, x, y) < WYRM);
            }
        }
        assert_eq!(tile(&world, 9, 2), FOOD);
        assert_eq!(tile(&world, 8, 2), FOOD);
        assert_consistent(&world);
    }
}

#[test]
fn carcass_is_richer_near_the_head() {
    let mut near = 0;
    let mut far = 0;
    for seed in 0..200 {
        let mut world = bare_world(40, 3, seed);
        world.create_wyrm_facing(Point::new(1, 1), RED, Direction::Right).unwrap();
        for _ in 0..37 {
            world.move_wyrm(WYRM, Direction::Right, true, false).unwrap();
        }
        world.destroy_wyrm(WYRM).unwrap();
        if tile(&world, 36, 1) == FOOD {
            near += 1;
        }
        if tile(&world, 1, 1) == FOOD {
            far += 1;
        }
    }
    assert!(near > 130 && near < 195);
    assert!(far > 70 && far < 140);
}

#[test]
fn equal_wyrms_fight_and_the_attacker_wins() {
    for seed in 0..32 {
        let mut world = bare_world(4, 3, seed);
        world.create_wyrm_facing(Point::new(1, 1), RED, Direction::Right).unwrap();
        world.create_wyrm_facing(Point::new(2, 1), BLUE, Direction::Left).unwrap();
        assert_eq!(world.update_wyrm(WYRM), Ok(()));
        assert_eq!(world.wyrms().len(), 1);
        assert!(matches!(world.get_wyrm(WYRM + 1), Err(Error::InvalidWyrmId(4))));
        let winner = world.get_wyrm(WYRM).unwrap();
        assert_eq!(winner.color, RED);
        assert_eq!(winner.size(), 2);
        assert_eq!(winner.head(), Point::new(2, 1));
        assert_eq!(tile(&world, 1, 1), WYRM);
        assert_eq!(tile(&world, 2, 1), WYRM);
        assert_consistent(&world);
    }
}

#[test]
fn fight_destroys_exactly_one_of_two() {
    for seed in 0..32 {
        let mut world = bare_world(12, 5, seed);
        world.create_wyrm_facing(Point::new(1, 1), RED, Direction::Right).unwrap();
        world.create_wyrm_facing(Point::new(1, 3), BLUE, Direction::Right).unwrap();
        for _ in 0..5 {
            world.move_wyrm(WYRM + 1, Direction::Right, true, false).unwrap();
        }
        assert_eq!(world.fight_wyrms(WYRM, WYRM + 1), Ok(()));
        assert!(world.wyrms().len() <= 1);
        assert!(!(world.wyrms().contains_key(&WYRM) && world.wyrms().contains_key(&(WYRM + 1))));
        assert_consistent(&world);
    }
}

#[test]
fn much_larger_defender_always_wins() {
    for seed in 0..32 {
        let mut world = bare_world(12, 5, seed);
        world.create_wyrm_facing(Point::new(1, 1), RED, Direction::Right).unwrap();
        world.create_wyrm_facing(Point::new(1, 3), BLUE, Direction::Right).unwrap();
        for _ in 0..2 {
            world.move_wyrm(WYRM + 1, Direction::Right, true, false).unwrap();
        }
        assert_eq!(world.fight_wyrms(WYRM, WYRM + 1), Ok(()));
        assert!(!world.wyrms().contains_key(&WYRM));
        assert_eq!(tile(&world, 1, 1), FOOD);
        let winner = world.get_wyrm(WYRM + 1).unwrap();
        assert_eq!(winner.head(), Point::new(4, 3));
        assert_eq!(winner.size(), 3);
        assert_consistent(&world);
    }
}

#[test]
fn attacker_wins_from_one_half() {
    assert!(World::attacker_wins(1, 1, 1000));
    assert!(World::attacker_wins(1, 1, 800));
    assert!(World::attacker_wins(1, 1, 1200));
    assert!(World::attacker_wins(1, 2, 1000));
    assert!(!World::attacker_wins(1, 2, 999));
    assert!(World::attacker_wins(5, 8, 800));
    assert!(!World::attacker_wins(5, 9, 800));
    assert!(World::attacker_wins(5, 12, 1200));
    assert!(!World::attacker_wins(5, 13, 1200));
    assert!(!World::attacker_wins(1, 3, 1200));
    assert!(World::attacker_wins(usize::MAX, usize::MAX, 800));
    assert!(!World::attacker_wins(0, 1, 1200));
}

#[test]
fn carcass_odds_fall_off_from_certain() {
    assert_eq!(World::carcass_food_odds(0), (2, 2));
    assert_eq!(World::carcass_food_odds(1), (4, 4));
    assert_eq!(World::carcass_food_odds(2), (5, 6));
    assert_eq!(World::carcass_food_odds(3), (6, 8));
    assert_eq!(World::carcass_food_odds(9), (12, 20));
    assert_eq!(World::carcass_food_odds(999), (1002, 2000));
    assert_eq!(World::carcass_food_odds(usize::MAX), (0x8000_0001, 0xffff_fffe));
}

#[test]
fn initial_tile_kinds() {
    assert_eq!(World::initial_tile(true, false), WALL);
    assert_eq!(World::initial_tile(true, true), WALL);
    assert_eq!(World::initial_tile(false, true), FOOD);
    assert_eq!(World::initial_tile(false, false), EMPTY);
}

#[test]
fn step_counts_up_by_one() {
    let mut world = World::seeded(&NewWorldParams { width: 20, height: 20 }, 11);
    let draw = SpawnDraw { position: Point::new(10, 10), color: RED };
    for count in 0..40 {
        assert_eq!(world.current_step(), count);
        world.step(&draw);
    }
    assert_eq!(world.current_step(), 40);
}

#[test]
fn periodic_spawn_waits_for_the_interval() {
    let mut world = bare_world(20, 20, 11);
    let draw = SpawnDraw { position: Point::new(10, 10), color: RED };
    for _ in 0..32 {
        world.step(&draw);
        assert!(world.wyrms().is_empty());
        assert_eq!(world.next_wyrm_id(), WYRM);
    }
    assert_eq!(world.current_step(), 32);
    world.step(&draw);
    assert_eq!(world.next_wyrm_id(), WYRM + 1);
    assert_eq!(world.wyrms().len(), 1);
    let wyrm = world.get_wyrm(WYRM).unwrap();
    assert_eq!(wyrm.color, RED);
    assert_eq!(wyrm.size(), 1);
    let head = wyrm.head();
    let away = (i32::from(head.x) - 10).abs() + (i32::from(head.y) - 10).abs();
    assert_eq!(away, 1);
    for _ in 33..64 {
        world.step(&draw);
        assert_eq!(world.next_wyrm_id(), WYRM + 1);
    }
    assert_eq!(world.current_step(), 64);
    world.step(&draw);
    assert_eq!(world.next_wyrm_id(), WYRM + 2);
}

#[test]
fn world_stays_consistent_over_many_steps() {
    for seed in 0..4 {
        let mut world = World::seeded(&NewWorldParams { width: 24, height: 16 }, seed);
        let mut placed = 0;
        for y in 1..15 {
            for x in 1..23 {
                if (x * 7 + y * 3) % 11 == 0 {
                    world.create_wyrm(Point::new(x, y), RED).unwrap();
                    placed += 1;
                }
            }
        }
        assert_eq!(world.wyrms().len(), placed);
        assert_consistent(&world);
        for count in 0..200u16 {
            let draw = SpawnDraw { position: Point::new(count % 30, count % 7), color: BLUE };
            world.step(&draw);
            assert_consistent(&world);
        }
        assert_eq!(world.current_step(), 200);
    }
}

#[test]
fn ids_are_handed_out_in_order() {
    let mut world = bare_world(5, 5, 1);
    assert_eq!(world.get_next_wyrm_id(), Some(3));
    assert_eq!(world.get_next_wyrm_id(), Some(4));
    assert_eq!(world.next_wyrm_id(), 5);
    world.create_wyrm_facing(Point::new(1, 1), RED, Direction::Up).unwrap();
    assert!(world.wyrms().contains_key(&5));
    assert_eq!(tile(&world, 1, 1), 5);
    assert_eq!(world.next_wyrm_id(), 6);
}

#[test]
fn ids_wrap_round_and_skip_live_wyrms() {
    let mut world = bare_world(6, 6, 1);
    world.create_wyrm_facing(Point::new(1, 1), RED, Direction::Up).unwrap();
    world.create_wyrm_facing(Point::new(2, 1), RED, Direction::Up).unwrap();
    assert_eq!(world.get_next_wyrm_id(), Some(5));
    world.create_wyrm_facing(Point::new(3, 1), RED, Direction::Up).unwrap();
    assert!(world.wyrms().contains_key(&3));
    assert!(world.wyrms().contains_key(&4));
    assert!(world.wyrms().contains_key(&6));
    for expected in 7..u16::MAX {
        assert_eq!(world.get_next_wyrm_id(), Some(expected));
    }
    assert_eq!(world.next_wyrm_id(), u16::MAX);
    assert_eq!(world.get_next_wyrm_id(), Some(u16::MAX));
    assert_eq!(world.next_wyrm_id(), 5);
    world.create_wyrm_facing(Point::new(4, 1), BLUE, Direction::Up).unwrap();
    assert_eq!(world.get_wyrm(5).unwrap().color, BLUE);
    assert_eq!(world.next_wyrm_id(), 7);
    assert_eq!(world.get_wyrm(3).unwrap().head(), Point::new(1, 1));
    assert_eq!(world.get_wyrm(4).unwrap().head(), Point::new(2, 1));
    assert_eq!(world.get_wyrm(6).unwrap().head(), Point::new(3, 1));
    assert_consistent(&world);
}

#[test]
fn next_id_steps_past_live_wyrms_after_a_wrap() {
    let mut world = bare_world(6, 6, 1);
    world.create_wyrm_facing(Point::new(1, 1), RED, Direction::Up).unwrap();
    for _ in 4..7 {
        world.get_next_wyrm_id().unwrap();
    }
    world.create_wyrm_facing(Point::new(2, 1), RED, Direction::Up).unwrap();
    assert!(world.wyrms().contains_key(&7));
    for expected in 8..=u16::MAX {
        assert_eq!(world.get_next_wyrm_id(), Some(expected));
    }
    assert_eq!(world.next_wyrm_id(), 4);
    assert_eq!(world.get_next_wyrm_id(), Some(4));
    assert_eq!(world.get_next_wyrm_id(), Some(5));
    assert_eq!(world.get_next_wyrm_id(), Some(6));
    assert_eq!(world.next_wyrm_id(), 8);
    assert_consistent(&world);
}

#[test]
fn last_free_id_is_never_handed_out() {
    let mut world = bare_world(300, 300, 1);
    let mut spawned: u32 = 0;
    'rows: for y in 1..299 {
        for x in 1..299 {
            world.create_wyrm_facing(Point::new(x, y), RED, Direction::Up).unwrap();
            spawned += 1;
            if spawned == 65532 {
                break 'rows;
            }
        }
    }
    assert_eq!(world.wyrms().len(), 65532);
    assert_eq!(world.next_wyrm_id(), u16::MAX);
    assert_eq!(world.get_next_wyrm_id(), None);
    assert_eq!(world.create_wyrm_facing(Point::new(298, 298), BLUE, Direction::Up), Ok(()));
    assert_eq!(world.wyrms().len(), 65532);
    assert_eq!(tile(&world, 298, 298), EMPTY);
    assert_eq!(world.next_wyrm_id(), u16::MAX);
}
