use minefield::game::{
    expose_current_square, expose_mine, is_wall, move_player, num_mines, quit, Direction,
    Exposure, GameError, Player, World,
};

fn directions() -> [Direction; 4] {
    [Direction::Up, Direction::Down, Direction::Left, Direction::Right]
}

#[test]
fn new_player_starts_alive_at_the_origin() {
    assert_eq!(Player::new(), Player { x: 0, y: 0, score: 0, alive: true });
}

#[test]
fn moving_up_from_the_origin_stays_at_the_origin() {
    let world = World::new(4, 4);
    let mut player = Player::new();
    for _ in 0u32..10 {
        move_player(&world, &mut player, &Direction::Up);
        assert_eq!((player.x, player.y), (0, 0));
    }
    assert_eq!(player, Player::new());
}

#[test]
fn moves_go_one_square_in_each_direction() {
    let world = World::new(4, 4);
    let mut player = Player { x: 1, y: 2, score: 3, alive: true };
    move_player(&world, &mut player, &Direction::Right);
    assert_eq!(player, Player { x: 2, y: 2, score: 3, alive: true });
    move_player(&world, &mut player, &Direction::Down);
    assert_eq!(player, Player { x: 2, y: 3, score: 3, alive: true });
    move_player(&world, &mut player, &Direction::Left);
    assert_eq!(player, Player { x: 1, y: 3, score: 3, alive: true });
    move_player(&world, &mut player, &Direction::Up);
    assert_eq!(player, Player { x: 1, y: 2, score: 3, alive: true });
}

#[test]
fn moves_stop_at_every_edge() {
    let world = World::new(4, 3);
    let mut player = Player::new();
    for _ in 0u32..10 {
        move_player(&world, &mut player, &Direction::Right);
    }
    assert_eq!((player.x, player.y), (3, 0));
    for _ in 0u32..10 {
        move_player(&world, &mut player, &Direction::Down);
    }
    assert_eq!((player.x, player.y), (3, 2));
    for _ in 0u32..10 {
        move_player(&world, &mut player, &Direction::Left);
    }
    assert_eq!((player.x, player.y), (0, 2));
    for _ in 0u32..10 {
        move_player(&world, &mut player, &Direction::Up);
    }
    assert_eq!((player.x, player.y), (0, 0));
}

#[test]
fn moves_never_leave_the_board() {
    let world = World::new(3, 2);
    for y in 0u8..2 {
        for x in 0u8..3 {
            for direction in directions().iter() {
                let mut player = Player { x, y, score: 0, alive: true };
                move_player(&world, &mut player, direction);
                assert!(world.contains(player.x, player.y));
            }
        }
    }
}

#[test]
fn wall_is_where_a_move_changes_nothing() {
    let world = World::new(4, 3);
    for y in 0u8..3 {
        for x in 0u8..4 {
            for direction in directions().iter() {
                let before = Player { x, y, score: 7, alive: true };
                let mut after = before;
                move_player(&world, &mut after, direction);
                assert_eq!(is_wall(&world, &before, direction), after == before);
            }
        }
    }
}

#[test]
fn walls_of_a_four_by_four_board() {
    let world = World::new(4, 4);
    let origin = Player::new();
    assert!(is_wall(&world, &origin, &Direction::Up));
    assert!(is_wall(&world, &origin, &Direction::Left));
    assert!(!is_wall(&world, &origin, &Direction::Down));
    assert!(!is_wall(&world, &origin, &Direction::Right));
    let far = Player { x: 3, y: 3, score: 0, alive: true };
    assert!(!is_wall(&world, &far, &Direction::Up));
    assert!(!is_wall(&world, &far, &Direction::Left));
    assert!(is_wall(&world, &far, &Direction::Down));
    assert!(is_wall(&world, &far, &Direction::Right));
    assert_eq!(far, Player { x: 3, y: 3, score: 0, alive: true });
}

#[test]
fn walls_at_the_limit_of_the_coordinates() {
    let world = World::new(255, 255);
    let far = Player { x: 254, y: 254, score: 0, alive: true };
    assert!(is_wall(&world, &far, &Direction::Right));
    assert!(is_wall(&world, &far, &Direction::Down));
    let stray = Player { x: 255, y: 255, score: 0, alive: true };
    for direction in directions().iter() {
        assert!(is_wall(&world, &stray, direction));
        let mut moved = stray;
        move_player(&world, &mut moved, direction);
        assert_eq!(moved, stray);
    }
}

#[test]
fn player_beside_the_board_can_only_step_onto_it() {
    let world = World::new(4, 4);
    let stray = Player { x: 4, y: 1, score: 0, alive: true };
    assert!(is_wall(&world, &stray, &Direction::Up));
    assert!(is_wall(&world, &stray, &Direction::Down));
    assert!(is_wall(&world, &stray, &Direction::Right));
    assert!(!is_wall(&world, &stray, &Direction::Left));
    let mut moved = stray;
    move_player(&world, &mut moved, &Direction::Left);
    assert_eq!((moved.x, moved.y), (3, 1));
}

#[test]
fn right_then_down_then_expose_on_a_board_without_mines() {
    let mut world = World::new(4, 4);
    let mut player = Player::new();
    move_player(&world, &mut player, &Direction::Right);
    move_player(&world, &mut player, &Direction::Down);
    let found = expose_current_square(&mut world, &mut player);
    assert_eq!(found, Ok(Exposure { hit_mine: false, adjacent_mine_count: 0 }));
    assert_eq!(player, Player { x: 1, y: 1, score: 1, alive: true });
    assert!(world.get_square(1, 1).unwrap().exposed);
}

#[test]
fn exposing_a_mined_square_kills_the_player() {
    let mut world = World::new(4, 4);
    world.place_mine(1, 1).unwrap();
    let mut player = Player::new();
    move_player(&world, &mut player, &Direction::Right);
    move_player(&world, &mut player, &Direction::Down);
    assert_eq!((player.x, player.y), (1, 1));
    let found = expose_current_square(&mut world, &mut player);
    assert_eq!(found, Ok(Exposure { hit_mine: true, adjacent_mine_count: 0 }));
    assert!(!player.alive);
    assert_eq!(player.score, 0);
}

#[test]
fn adjacent_mines_are_summed_over_all_neighbours() {
    let mut world = World::new(4, 4);
    world.place_mine(0, 1).unwrap();
    world.place_mine(1, 0).unwrap();
    let mut player = Player::new();
    move_player(&world, &mut player, &Direction::Right);
    move_player(&world, &mut player, &Direction::Down);
    let found = expose_current_square(&mut world, &mut player);
    assert_eq!(found, Ok(Exposure { hit_mine: false, adjacent_mine_count: 2 }));
    assert_eq!(num_mines(&world, &player), 2);
    assert_eq!(player.score, 1);
    assert!(player.alive);
}

#[test]
fn num_mines_counts_each_of_the_four_neighbours() {
    let at = Player { x: 1, y: 1, score: 0, alive: true };
    let neighbours: [(u8, u8); 4] = [(0, 1), (2, 1), (1, 0), (1, 2)];
    let mut world = World::new(3, 3);
    assert_eq!(num_mines(&world, &at), 0);
    let mut placed: u8 = 0;
    for (x, y) in neighbours.iter() {
        world.place_mine(*x, *y).unwrap();
        placed += 1;
        assert_eq!(num_mines(&world, &at), placed);
    }
    assert_eq!(num_mines(&world, &at), 4);
    for (x, y) in neighbours.iter() {
        let mut single = World::new(3, 3);
        single.place_mine(*x, *y).unwrap();
        assert_eq!(num_mines(&single, &at), 1);
    }
}

#[test]
fn num_mines_ignores_diagonals_and_the_own_square() {
    let at = Player { x: 1, y: 1, score: 0, alive: true };
    let mut world = World::new(3, 3);
    world.place_mine(0, 0).unwrap();
    world.place_mine(2, 0).unwrap();
    world.place_mine(0, 2).unwrap();
    world.place_mine(2, 2).unwrap();
    world.place_mine(1, 1).unwrap();
    assert_eq!(num_mines(&world, &at), 0);
}

#[test]
fn num_mines_at_the_edges_counts_the_neighbours_on_the_board() {
    let mut world = World::new(3, 3);
    for y in 0u8..3 {
        for x in 0u8..3 {
            world.place_mine(x, y).unwrap();
        }
    }
    assert_eq!(num_mines(&world, &Player { x: 0, y: 0, score: 0, alive: true }), 2);
    assert_eq!(num_mines(&world, &Player { x: 2, y: 2, score: 0, alive: true }), 2);
    assert_eq!(num_mines(&world, &Player { x: 1, y: 0, score: 0, alive: true }), 3);
    assert_eq!(num_mines(&world, &Player { x: 2, y: 1, score: 0, alive: true }), 3);
    assert_eq!(num_mines(&world, &Player { x: 1, y: 1, score: 0, alive: true }), 4);
    assert_eq!(num_mines(&world, &Player { x: 3, y: 1, score: 0, alive: true }), 1);
    assert_eq!(num_mines(&world, &Player { x: 255, y: 255, score: 0, alive: true }), 0);
}

#[test]
fn num_mines_reaches_the_last_column_and_row() {
    let mut world = World::new(4, 4);
    world.place_mine(3, 2).unwrap();
    world.place_mine(2, 3).unwrap();
    assert_eq!(num_mines(&world, &Player { x: 2, y: 2, score: 0, alive: true }), 2);
}

#[test]
fn expose_mine_tells_the_same_twice() {
    let mut world = World::new(4, 4);
    world.place_mine(2, 1).unwrap();
    let mut on_mine = Player { x: 2, y: 1, score: 4, alive: true };
    assert_eq!(expose_mine(&mut on_mine, &mut world), Ok(true));
    assert_eq!(on_mine, Player { x: 2, y: 1, score: 4, alive: false });
    assert_eq!(expose_mine(&mut on_mine, &mut world), Ok(true));
    assert_eq!(on_mine, Player { x: 2, y: 1, score: 4, alive: false });
    let mut on_safe = Player { x: 1, y: 1, score: 4, alive: true };
    assert_eq!(expose_mine(&mut on_safe, &mut world), Ok(false));
    assert_eq!(expose_mine(&mut on_safe, &mut world), Ok(false));
    assert!(on_safe.alive);
}

#[test]
fn score_counts_each_square_once() {
    let mut world = World::new(4, 4);
    let mut player = Player::new();
    for _ in 0u32..5 {
        assert_eq!(expose_mine(&mut player, &mut world), Ok(false));
        assert_eq!(player.score, 1);
    }
    move_player(&world, &mut player, &Direction::Right);
    for _ in 0u32..5 {
        assert_eq!(expose_mine(&mut player, &mut world), Ok(false));
        assert_eq!(player.score, 2);
    }
    move_player(&world, &mut player, &Direction::Left);
    assert_eq!(expose_mine(&mut player, &mut world), Ok(false));
    assert_eq!(player.score, 2);
}

#[test]
fn exposed_mine_does_not_kill_a_later_visitor() {
    let mut world = World::new(4, 4);
    world.place_mine(1, 0).unwrap();
    world.expose(1, 0).unwrap();
    let mut player = Player { x: 1, y: 0, score: 2, alive: true };
    assert_eq!(expose_mine(&mut player, &mut world), Ok(true));
    assert_eq!(player, Player { x: 1, y: 0, score: 2, alive: true });
}

#[test]
fn expose_mine_off_the_board_is_refused() {
    let mut world = World::new(4, 4);
    let mut player = Player { x: 4, y: 0, score: 1, alive: true };
    assert_eq!(expose_mine(&mut player, &mut world), Err(GameError::OutOfBounds));
    assert_eq!(player, Player { x: 4, y: 0, score: 1, alive: true });
    assert_eq!(
        expose_current_square(&mut world, &mut player),
        Err(GameError::OutOfBounds)
    );
    for y in 0u8..4 {
        for x in 0u8..4 {
            assert!(!world.get_square(x, y).unwrap().exposed);
        }
    }
}

#[test]
fn expose_mine_touches_no_other_square() {
    let mut world = World::new(3, 3);
    world.place_mine(2, 2).unwrap();
    let mut player = Player { x: 1, y: 2, score: 0, alive: true };
    assert_eq!(expose_mine(&mut player, &mut world), Ok(false));
    for y in 0u8..3 {
        for x in 0u8..3 {
            let square = world.get_square(x, y).unwrap();
            assert_eq!(square.exposed, x == 1 && y == 2);
            assert_eq!(square.has_mine, x == 2 && y == 2);
        }
    }
}

#[test]
fn quit_ends_the_game() {
    let mut player = Player { x: 2, y: 1, score: 5, alive: true };
    quit(&mut player);
    assert_eq!(player, Player { x: 2, y: 1, score: 5, alive: false });
    quit(&mut player);
    assert!(!player.alive);
}
