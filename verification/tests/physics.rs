use wye_2d::input_system::Key;
use wye_2d::physics::{Color, Direction, Physics};
use wye_2d::physics_system::{
    find_collision, generate_npc_physics, get_random_position, initial_player_physics,
    npc_physics_at, random_desk_type, update_physics_in_slot, update_player_physics,
};
use wye_2d::positioning::{Position, Sizable, Size};

const TICK: u32 = 16_000;

fn world_size() -> Size {
    Size { width: 2_000_000, height: 1_000_000 }
}

fn walker(x: i64, y: i64) -> Physics {
    Physics::new(
        Position { x, y },
        Size { width: 25_000, height: 25_000 },
        125_000,
        Color::from_rgb(0, 171, 169),
        Some(Direction::Down),
        None,
    )
}

fn desk(x: i64, y: i64) -> Option<Physics> {
    Some(Physics::new(
        Position { x, y },
        Size { width: 150_000, height: 70_000 },
        0,
        Color::white(),
        Some(Direction::Up),
        None,
    ))
}

#[test]
fn direction_to_index_runs_clockwise_from_up() {
    assert_eq!(Direction::Up.to_index(), 0);
    assert_eq!(Direction::Right.to_index(), 1);
    assert_eq!(Direction::Down.to_index(), 2);
    assert_eq!(Direction::Left.to_index(), 3);
}

#[test]
fn direction_names() {
    assert_eq!(Direction::Up.name(), "up");
    assert_eq!(Direction::Down.name(), "down");
    assert_eq!(Direction::Left.name(), "left");
    assert_eq!(Direction::Right.name(), "right");
}

#[test]
fn direction_iter_follows_the_declaration() {
    assert_eq!(
        Direction::iter(),
        vec![Direction::Up, Direction::Down, Direction::Left, Direction::Right]
    );
}

#[test]
fn direction_and_key_correspond() {
    for direction in Direction::iter() {
        assert_eq!(Direction::from_key(direction.key()), Some(direction));
    }
    assert_eq!(Direction::from_key(Key::Up), Some(Direction::Up));
    assert_eq!(Direction::from_key(Key::Down), Some(Direction::Down));
    assert_eq!(Direction::from_key(Key::Left), Some(Direction::Left));
    assert_eq!(Direction::from_key(Key::Right), Some(Direction::Right));
    assert_eq!(Direction::from_key(Key::Return), None);
    assert_eq!(Direction::from_key(Key::Escape), None);
    assert_eq!(Direction::from_key(Key::Other), None);
}

#[test]
fn colors() {
    assert_eq!(Color::from_rgb(1, 2, 3), Color { r: 1, g: 2, b: 3, a: 255 });
    assert_eq!(Color::white(), Color { r: 255, g: 255, b: 255, a: 255 });
}

#[test]
fn physics_new_stands_still() {
    let physics = Physics::new(
        Position { x: 1, y: 2 },
        Size { width: 3, height: 4 },
        5,
        Color::from_rgb(6, 7, 8),
        Some(Direction::Left),
        Some(9),
    );
    assert_eq!(
        physics,
        Physics {
            position: Position { x: 1, y: 2 },
            size: Size { width: 3, height: 4 },
            speed: 5,
            color: Color { r: 6, g: 7, b: 8, a: 255 },
            direction: Some(Direction::Left),
            walking: false,
            current_focus: Some(9),
        }
    );
    assert_eq!(*physics.get_position(), Position { x: 1, y: 2 });
    assert_eq!(*physics.get_size(), Size { width: 3, height: 4 });
}

#[test]
fn physics_update_position_walks_and_keeps_the_rest() {
    let mut physics = walker(500_000, 600_000);
    physics.current_focus = Some(3);
    physics.update_position(TICK, Key::Left, &world_size());
    assert_eq!(
        physics,
        Physics {
            position: Position { x: 498_000, y: 600_000 },
            size: Size { width: 25_000, height: 25_000 },
            speed: 125_000,
            color: Color { r: 0, g: 171, b: 169, a: 255 },
            direction: Some(Direction::Down),
            walking: true,
            current_focus: Some(3),
        }
    );
}

#[test]
fn physics_update_position_walks_even_on_the_spot() {
    let mut physics = walker(12_500, 12_500);
    physics.update_position(TICK, Key::Left, &world_size());
    assert_eq!(physics.position, Position { x: 12_500, y: 12_500 });
    assert!(physics.walking);
    let mut other = walker(500_000, 500_000);
    other.update_position(TICK, Key::Other, &world_size());
    assert_eq!(other.position, Position { x: 500_000, y: 500_000 });
    assert!(other.walking);
}

#[test]
fn initial_player_physics_values() {
    assert_eq!(
        initial_player_physics(),
        Physics {
            position: Position { x: 1_000_000, y: 500_000 },
            size: Size { width: 30_000, height: 60_000 },
            speed: 125_000,
            color: Color { r: 0, g: 171, b: 169, a: 255 },
            direction: Some(Direction::Down),
            walking: false,
            current_focus: None,
        }
    );
}

#[test]
fn npc_physics_at_a_pixel() {
    assert_eq!(
        npc_physics_at(300, 699),
        Physics {
            position: Position { x: 300_000, y: 699_000 },
            size: Size { width: 30_000, height: 60_000 },
            speed: 0,
            color: Color { r: 112, g: 111, b: 211, a: 255 },
            direction: None,
            walking: false,
            current_focus: None,
        }
    );
    assert_eq!(npc_physics_at(-1, i32::MAX).position, Position { x: -1000, y: 2_147_483_647_000 });
}

#[test]
fn random_positions_lie_in_the_spawn_area() {
    for _ in 0..500 {
        let (x, y) = get_random_position();
        assert!((300..900).contains(&x));
        assert!((200..700).contains(&y));
    }
}

#[test]
fn random_positions_are_not_all_the_same() {
    let first = get_random_position();
    let mut differs = false;
    for _ in 0..200 {
        if get_random_position() != first {
            differs = true;
        }
    }
    assert!(differs);
}

#[test]
fn generated_npcs_stand_in_the_spawn_area() {
    for _ in 0..200 {
        let npc = generate_npc_physics();
        assert!(npc.position.x >= 300_000 && npc.position.x < 900_000);
        assert!(npc.position.y >= 200_000 && npc.position.y < 700_000);
        assert_eq!(npc.position.x % 1000, 0);
        assert_eq!(npc.position.y % 1000, 0);
        let expected = npc_physics_at((npc.position.x / 1000) as i32, (npc.position.y / 1000) as i32);
        assert_eq!(npc, expected);
    }
}

#[test]
fn random_desk_types_are_zero_or_one() {
    let mut seen = [false, false];
    for _ in 0..200 {
        let desk_type = random_desk_type();
        assert!(desk_type == 0 || desk_type == 1);
        seen[desk_type as usize] = true;
    }
    assert!(seen[0] && seen[1]);
}

#[test]
fn no_keys_only_stop_the_walk() {
    let mut player = walker(500_000, 600_000);
    player.walking = true;
    player.current_focus = Some(0);
    player.direction = Some(Direction::Left);
    let others = vec![desk(500_000, 600_000), None];
    let after = update_player_physics(TICK, &vec![], &player, &others, &world_size());
    let mut expected = player;
    expected.walking = false;
    assert_eq!(after, expected);
    let again = update_player_physics(TICK, &vec![], &after, &others, &world_size());
    assert_eq!(again, after);
}

#[test]
fn no_keys_do_not_even_clamp() {
    let player = walker(-50, 5_000_000);
    let after = update_player_physics(TICK, &vec![], &player, &vec![], &world_size());
    assert_eq!(after.position, Position { x: -50, y: 5_000_000 });
}

#[test]
fn a_free_step_moves_walks_and_turns() {
    let mut player = walker(500_000, 600_000);
    player.current_focus = Some(1);
    let others = vec![desk(200_000, 240_000), None];
    let after = update_player_physics(TICK, &vec![Key::Right], &player, &others, &world_size());
    assert_eq!(
        after,
        Physics {
            position: Position { x: 502_000, y: 600_000 },
            size: Size { width: 25_000, height: 25_000 },
            speed: 125_000,
            color: Color { r: 0, g: 171, b: 169, a: 255 },
            direction: Some(Direction::Right),
            walking: true,
            current_focus: None,
        }
    );
}

#[test]
fn a_blocked_step_changes_only_the_focus() {
    // The desk spans x 125_000..275_000; the player's box would reach into it.
    let player = walker(288_000, 240_000);
    let others = vec![None, desk(200_000, 240_000)];
    let after = update_player_physics(TICK, &vec![Key::Left], &player, &others, &world_size());
    let mut expected = player;
    expected.current_focus = Some(1);
    assert_eq!(after, expected);
    assert_eq!(after.position, player.position);
    assert!(!after.walking);
    assert_eq!(after.direction, Some(Direction::Down));
}

#[test]
fn a_step_that_ends_edge_to_edge_is_free() {
    // After the step the boxes touch at x = 275_000 and do not collide.
    let player = walker(289_500, 240_000);
    let others = vec![desk(200_000, 240_000)];
    let after = update_player_physics(TICK, &vec![Key::Left], &player, &others, &world_size());
    assert_eq!(after.position, Position { x: 287_500, y: 240_000 });
    assert_eq!(after.current_focus, None);
    let blocked = update_player_physics(TICK, &vec![Key::Left], &after, &others, &world_size());
    assert_eq!(blocked.position, Position { x: 287_500, y: 240_000 });
    assert_eq!(blocked.current_focus, Some(0));
}

#[test]
fn the_last_colliding_slot_is_the_focus() {
    let player = walker(288_000, 240_000);
    let others = vec![
        desk(200_000, 240_000),
        None,
        desk(210_000, 250_000),
        desk(900_000, 900_000),
    ];
    assert_eq!(find_collision(&walker(286_000, 240_000), &others, None), Some(2));
    assert_eq!(find_collision(&walker(286_000, 240_000), &others, Some(2)), Some(0));
    assert_eq!(find_collision(&walker(286_000, 240_000), &others, Some(3)), Some(2));
    assert_eq!(find_collision(&walker(600_000, 240_000), &others, None), None);
    assert_eq!(find_collision(&walker(286_000, 240_000), &vec![], None), None);
    let after = update_player_physics(TICK, &vec![Key::Left], &player, &others, &world_size());
    assert_eq!(after.current_focus, Some(2));
}

#[test]
fn diagonal_steps_are_taken_one_after_the_other() {
    let player = walker(500_000, 600_000);
    let after = update_player_physics(
        TICK,
        &vec![Key::Up, Key::Right],
        &player,
        &vec![],
        &world_size(),
    );
    assert_eq!(after.position, Position { x: 502_000, y: 598_000 });
    assert_eq!(after.direction, Some(Direction::Right));
    assert!(after.walking);
}

#[test]
fn a_blocked_key_after_a_free_one_blocks_the_tick() {
    // Up alone is free, but the candidate of the tick, up and left, lies in
    // the desk: the player does not move at all.
    let player = walker(288_000, 240_000);
    let others = vec![desk(200_000, 240_000)];
    let up = update_player_physics(TICK, &vec![Key::Up], &player, &others, &world_size());
    assert_eq!(up.position, Position { x: 288_000, y: 238_000 });
    let after = update_player_physics(
        TICK,
        &vec![Key::Up, Key::Left],
        &player,
        &others,
        &world_size(),
    );
    let mut expected = player;
    expected.current_focus = Some(0);
    assert_eq!(after, expected);
    assert_eq!(after.position, Position { x: 288_000, y: 240_000 });
    assert_eq!(after.direction, Some(Direction::Down));
    assert!(!after.walking);
}

#[test]
fn a_free_key_after_a_blocked_one_does_not_free_the_tick() {
    let player = walker(288_000, 240_000);
    let others = vec![desk(200_000, 240_000)];
    let down = update_player_physics(TICK, &vec![Key::Down], &player, &others, &world_size());
    assert_eq!(down.position, Position { x: 288_000, y: 242_000 });
    let after = update_player_physics(
        TICK,
        &vec![Key::Left, Key::Down],
        &player,
        &others,
        &world_size(),
    );
    assert_eq!(after.position, Position { x: 288_000, y: 240_000 });
    assert_eq!(after.direction, Some(Direction::Down));
    assert_eq!(after.current_focus, Some(0));
}

#[test]
fn only_the_candidate_of_the_tick_counts() {
    // Wedged between two desks: a step left alone and a step right alone are
    // both blocked. Left and right together lead back to where the player
    // stands, where nothing is in the way: the tick is taken.
    let player = walker(288_000, 240_000);
    let others = vec![desk(200_000, 240_000), desk(376_000, 240_000)];
    let left = update_player_physics(TICK, &vec![Key::Left], &player, &others, &world_size());
    assert_eq!(left.position, player.position);
    assert_eq!(left.current_focus, Some(0));
    let right = update_player_physics(TICK, &vec![Key::Right], &player, &others, &world_size());
    assert_eq!(right.position, player.position);
    assert_eq!(right.current_focus, Some(1));
    let after = update_player_physics(
        TICK,
        &vec![Key::Left, Key::Right],
        &player,
        &others,
        &world_size(),
    );
    assert_eq!(after.position, player.position);
    assert_eq!(after.direction, Some(Direction::Right));
    assert!(after.walking);
    assert_eq!(after.current_focus, None);
}

#[test]
fn a_free_tick_faces_the_way_of_the_last_key() {
    let player = walker(500_000, 600_000);
    let other = update_player_physics(TICK, &vec![Key::Other], &player, &vec![], &world_size());
    assert_eq!(other.position, player.position);
    assert_eq!(other.direction, Some(Direction::Down));
    assert!(other.walking);
    assert_eq!(other.current_focus, None);
    let turned = update_player_physics(
        TICK,
        &vec![Key::Up, Key::Right],
        &player,
        &vec![],
        &world_size(),
    );
    assert_eq!(turned.position, Position { x: 502_000, y: 598_000 });
    assert_eq!(turned.direction, Some(Direction::Right));
    let kept = update_player_physics(
        TICK,
        &vec![Key::Up, Key::Return],
        &player,
        &vec![],
        &world_size(),
    );
    assert_eq!(kept.position, Position { x: 500_000, y: 598_000 });
    assert_eq!(kept.direction, Some(Direction::Down));
}

#[test]
fn walking_right_until_the_wall() {
    let mut player = Physics::new(
        Position { x: 500_000, y: 600_000 },
        Size { width: 25_000, height: 25_000 },
        125_000,
        Color::from_rgb(0, 171, 169),
        Some(Direction::Down),
        None,
    );
    let others = vec![desk(200_000, 240_000)];
    let wall = 2_000_000 - 12_500;
    let mut ticks = 0;
    while player.position.x < wall {
        let before = player;
        player = update_player_physics(TICK, &vec![Key::Right], &player, &others, &world_size());
        assert!(player.position.x > before.position.x);
        assert_eq!(player.position.y, 600_000);
        assert_eq!(player.direction, Some(Direction::Right));
        assert!(player.walking);
        assert_eq!(player.current_focus, None);
        ticks += 1;
        assert!(ticks <= 1000);
    }
    assert_eq!(player.position, Position { x: 1_987_500, y: 600_000 });
    assert_eq!(ticks, 744);
    for _ in 0..5 {
        player = update_player_physics(TICK, &vec![Key::Right], &player, &others, &world_size());
        assert_eq!(player.position, Position { x: 1_987_500, y: 600_000 });
    }
}

#[test]
fn an_entity_in_a_slot_does_not_collide_with_itself() {
    let player = walker(500_000, 600_000);
    let others = vec![None, Some(player), desk(200_000, 240_000)];
    let hits_itself = update_physics_in_slot(
        TICK,
        &vec![Key::Right],
        &player,
        &others,
        None,
        &world_size(),
    );
    assert_eq!(hits_itself.position, player.position);
    assert_eq!(hits_itself.current_focus, Some(1));
    let skips_itself = update_physics_in_slot(
        TICK,
        &vec![Key::Right],
        &player,
        &others,
        Some(1),
        &world_size(),
    );
    assert_eq!(skips_itself.position, Position { x: 502_000, y: 600_000 });
    assert_eq!(skips_itself.current_focus, None);
}

#[test]
fn update_in_slot_without_skip_is_update_player_physics() {
    let player = walker(288_000, 240_000);
    let others = vec![desk(200_000, 240_000), None];
    for keys in [vec![], vec![Key::Left], vec![Key::Up, Key::Left], vec![Key::Right, Key::Down]] {
        assert_eq!(
            update_physics_in_slot(TICK, &keys, &player, &others, None, &world_size()),
            update_player_physics(TICK, &keys, &player, &others, &world_size())
        );
    }
}

#[test]
fn diagonally_against_a_corner() {
    // The desk spans x 125_000..275_000 and y 205_000..275_000. The player
    // stands off its lower right corner; a step up alone is free and a step
    // left alone is free, but the two together end in the desk: the tick is
    // blocked as a whole.
    let player = walker(288_500, 288_500);
    let others = vec![desk(200_000, 240_000)];
    let up = update_player_physics(TICK, &vec![Key::Up], &player, &others, &world_size());
    assert_eq!(up.position, Position { x: 288_500, y: 286_500 });
    let left = update_player_physics(TICK, &vec![Key::Left], &player, &others, &world_size());
    assert_eq!(left.position, Position { x: 286_500, y: 288_500 });
    let both = update_player_physics(
        TICK,
        &vec![Key::Up, Key::Left],
        &player,
        &others,
        &world_size(),
    );
    let mut expected = player;
    expected.current_focus = Some(0);
    assert_eq!(both, expected);
    assert_eq!(both.position, Position { x: 288_500, y: 288_500 });
}

#[test]
fn up_then_left_into_a_desk_is_not_taken_in_part() {
    let player = Physics::new(
        Position { x: 300_000, y: 330_000 },
        Size { width: 30_000, height: 60_000 },
        100_000,
        Color::from_rgb(0, 171, 169),
        Some(Direction::Down),
        None,
    );
    let others = vec![desk(200_000, 240_000)];
    let half_a_second = 500_000;
    let up = update_player_physics(half_a_second, &vec![Key::Up], &player, &others, &world_size());
    assert_eq!(up.position, Position { x: 300_000, y: 280_000 });
    let after = update_player_physics(
        half_a_second,
        &vec![Key::Up, Key::Left],
        &player,
        &others,
        &world_size(),
    );
    assert_eq!(after.position, Position { x: 300_000, y: 330_000 });
    assert_eq!(after.current_focus, Some(0));
    assert_eq!(after.direction, Some(Direction::Down));
    assert!(!after.walking);
}

#[test]
fn every_step_of_a_tick_is_clamped() {
    // At the upper wall a step up is cut short, and the step down that
    // follows it starts from the wall.
    let player = walker(500_000, 13_000);
    let after = update_player_physics(
        TICK,
        &vec![Key::Up, Key::Down],
        &player,
        &vec![],
        &world_size(),
    );
    assert_eq!(after.position, Position { x: 500_000, y: 14_500 });
}
