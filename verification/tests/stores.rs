use wye_2d::components::{Npc, Player};
use wye_2d::ecs::{get_wyeworkers_npcs, Ecs};
use wye_2d::entities::{Desk, OfficeMap, Player as MapPlayer};
use wye_2d::game_state::desk_physics_at;
use wye_2d::input_system::{HeldKeys, Key};
use wye_2d::interaction::Interaction;
use wye_2d::physics::{Color, Direction, Physics};
use wye_2d::physics_system::{initial_player_physics, npc_physics_at};
use wye_2d::positioning::{Body, Position, Size};
use wye_2d::world::World;

const DT: u32 = 16_000;

fn bounds() -> Size {
    Size { width: 2_000_000, height: 1_000_000 }
}

fn holding(key: Key) -> HeldKeys {
    HeldKeys {
        up: key == Key::Up,
        down: key == Key::Down,
        left: key == Key::Left,
        right: key == Key::Right,
    }
}

fn nothing_held() -> HeldKeys {
    HeldKeys { up: false, down: false, left: false, right: false }
}

fn spawned(physics: &Option<Physics>) -> bool {
    let physics = physics.unwrap();
    physics.position.x >= 300_000
        && physics.position.x < 900_000
        && physics.position.y >= 200_000
        && physics.position.y < 700_000
        && physics
            == npc_physics_at((physics.position.x / 1000) as i32, (physics.position.y / 1000) as i32)
}

#[test]
fn the_people_of_the_office() {
    assert_eq!(get_wyeworkers_npcs(), vec!["Juan", "Andrés", "Nico", "Mauri"]);
}

#[test]
fn ecs_new_is_empty() {
    let ecs = Ecs::new();
    assert!(ecs.physics_components.is_empty());
    assert!(ecs.npcs_components.is_empty());
    assert_eq!(ecs.player_physics, initial_player_physics());
    assert_eq!(ecs.current_interaction, None);
    assert_eq!(ecs.current_focus, None);
}

#[test]
fn ecs_loads_the_people_and_then_the_desks() {
    let mut ecs = Ecs::new();
    ecs.load_initial_components();
    assert_eq!(ecs.physics_components.len(), 8);
    assert_eq!(ecs.npcs_components.len(), 8);
    let names = ["Juan", "Andrés", "Nico", "Mauri"];
    for slot in 0..4 {
        assert!(spawned(&ecs.physics_components[slot]));
        assert_eq!(
            ecs.npcs_components[slot],
            Some(Npc { id: None, name: names[slot].to_string() })
        );
    }
    for row in 0..4 {
        assert_eq!(ecs.physics_components[4 + row], Some(desk_physics_at(2 + row as i32, 120)));
        assert_eq!(ecs.npcs_components[4 + row], None);
    }
    assert_eq!(ecs.physics_components[4].unwrap().position, Position { x: 200_000, y: 240_000 });
    assert_eq!(ecs.physics_components[7].unwrap().position, Position { x: 200_000, y: 600_000 });
}

#[test]
fn ecs_add_entity_appends_to_both_lists() {
    let mut ecs = Ecs::new();
    ecs.add_entity(None, Some(Npc { id: Some(3), name: "Ana".to_string() }));
    ecs.add_entity(Some(desk_physics_at(2, 120)), None);
    assert_eq!(ecs.physics_components, vec![None, Some(desk_physics_at(2, 120))]);
    assert_eq!(
        ecs.npcs_components,
        vec![Some(Npc { id: Some(3), name: "Ana".to_string() }), None]
    );
}

#[test]
fn ecs_add_innanimate_objects_adds_the_desk_row() {
    let mut ecs = Ecs::new();
    ecs.add_innanimate_objects();
    let mut other = Ecs::new();
    other.add_first_desk_row();
    assert_eq!(ecs.physics_components, other.physics_components);
    assert_eq!(ecs.physics_components.len(), 4);
    assert_eq!(ecs.npcs_components, vec![None, None, None, None]);
}

#[test]
fn ecs_update_moves_the_player_and_records_the_focus() {
    let mut ecs = Ecs::new();
    ecs.add_first_desk_row();
    ecs.player_physics.position = Position { x: 291_000, y: 240_000 };
    ecs.update(DT, &holding(Key::Left), &bounds());
    assert_eq!(ecs.player_physics.position, Position { x: 291_000, y: 240_000 });
    assert_eq!(ecs.current_focus, Some(0));
    assert_eq!(ecs.player_physics.current_focus, Some(0));
    ecs.update(DT, &holding(Key::Right), &bounds());
    assert_eq!(ecs.player_physics.position, Position { x: 293_000, y: 240_000 });
    assert_eq!(ecs.current_focus, None);
    assert!(ecs.player_physics.walking);
    ecs.update(DT, &nothing_held(), &bounds());
    assert!(!ecs.player_physics.walking);
    assert_eq!(ecs.player_physics.position, Position { x: 293_000, y: 240_000 });
}

#[test]
fn ecs_begin_interaction_greets_people_only() {
    let mut ecs = Ecs::new();
    ecs.add_entity(Some(npc_physics_at(400, 400)), Some(Npc { id: None, name: "Juan".to_string() }));
    ecs.add_entity(Some(desk_physics_at(2, 120)), None);
    ecs.begin_interaction();
    assert_eq!(ecs.current_interaction, None);
    ecs.current_focus = Some(1);
    ecs.begin_interaction();
    assert_eq!(ecs.current_interaction, None);
    assert!(ecs.is_focus_in_range());
    ecs.current_focus = Some(7);
    assert!(!ecs.is_focus_in_range());
    assert!(!ecs.is_well_formed());
    ecs.current_focus = Some(0);
    ecs.begin_interaction();
    assert_eq!(ecs.current_interaction, Some(Interaction::default()));
    assert_eq!(ecs.current_focus, Some(0));
}

#[test]
fn ecs_does_not_move_during_a_conversation() {
    let mut ecs = Ecs::new();
    ecs.add_entity(Some(npc_physics_at(400, 400)), Some(Npc { id: None, name: "Juan".to_string() }));
    ecs.current_focus = Some(0);
    ecs.player_physics.current_focus = Some(0);
    ecs.begin_interaction();
    let before = ecs.player_physics;
    ecs.update(DT, &holding(Key::Up), &bounds());
    assert_eq!(ecs.player_physics, before);
    ecs.end_interaction();
    assert_eq!(ecs.current_interaction, None);
    assert_eq!(ecs.current_focus, None);
    assert_eq!(ecs.player_physics.current_focus, None);
    ecs.update(DT, &holding(Key::Up), &bounds());
    assert_eq!(ecs.player_physics.position, Position { x: 1_000_000, y: 498_000 });
}

#[test]
fn world_new_is_empty() {
    let world = World::new();
    assert!(world.physics_components.is_empty());
    assert!(world.npcs_components.is_empty());
    assert!(world.player_components.is_empty());
    assert!(world.players.is_empty());
}

#[test]
fn world_loads_the_player_the_people_and_the_desks() {
    let mut world = World::new();
    world.load_initial_components();
    assert_eq!(world.physics_components.len(), 9);
    assert_eq!(world.npcs_components.len(), 9);
    assert_eq!(world.player_components.len(), 9);
    assert_eq!(world.players, vec![0]);
    assert_eq!(world.physics_components[0], Some(initial_player_physics()));
    assert_eq!(
        world.player_components[0],
        Some(Player { interacting: None, current_focus: None })
    );
    assert_eq!(world.npcs_components[0], None);
    let names = ["Juan", "Andrés", "Nico", "Mauri"];
    for i in 0..4 {
        assert!(spawned(&world.physics_components[1 + i]));
        assert_eq!(
            world.npcs_components[1 + i],
            Some(Npc { id: None, name: names[i].to_string() })
        );
        assert_eq!(world.player_components[1 + i], None);
    }
    for row in 0..4 {
        assert_eq!(world.physics_components[5 + row], Some(desk_physics_at(2 + row as i32, 120)));
        assert_eq!(world.npcs_components[5 + row], None);
        assert_eq!(world.player_components[5 + row], None);
    }
}

#[test]
fn world_add_entity_lists_the_players() {
    let mut world = World::new();
    world.add_entity(Some(desk_physics_at(2, 120)), None, None);
    world.add_player();
    world.add_entity(None, None, Some(Npc { id: None, name: "Ana".to_string() }));
    world.add_entity(
        Some(npc_physics_at(500, 500)),
        Some(Player { interacting: None, current_focus: Some(0) }),
        None,
    );
    assert_eq!(world.players, vec![1, 3]);
    assert_eq!(world.physics_components.len(), 4);
    assert_eq!(world.npcs_components.len(), 4);
    assert_eq!(world.player_components.len(), 4);
    assert_eq!(world.npcs_components[2], Some(Npc { id: None, name: "Ana".to_string() }));
    assert_eq!(
        world.player_components[3],
        Some(Player { interacting: None, current_focus: Some(0) })
    );
}

#[test]
fn world_add_npcs_and_desks_add_no_players() {
    let mut world = World::new();
    world.add_npcs();
    world.add_innanimate_objects();
    world.add_first_desk_row();
    assert_eq!(world.physics_components.len(), 12);
    assert!(world.players.is_empty());
    assert!(world.player_components.iter().all(|player| player.is_none()));
}

fn world_with_a_desk() -> World {
    let mut world = World::new();
    world.add_entity(Some(desk_physics_at(2, 120)), None, None);
    world.add_player();
    world
}

#[test]
fn world_update_moves_the_player_in_its_slot() {
    let mut world = world_with_a_desk();
    world.update(DT, &holding(Key::Down), &bounds());
    let player = world.physics_components[1].unwrap();
    assert_eq!(player.position, Position { x: 1_000_000, y: 502_000 });
    assert_eq!(player.direction, Some(Direction::Down));
    assert!(player.walking);
    assert_eq!(
        world.player_components[1],
        Some(Player { interacting: None, current_focus: None })
    );
    assert_eq!(world.physics_components[0], Some(desk_physics_at(2, 120)));
    assert_eq!(world.players, vec![1]);
}

#[test]
fn world_update_records_the_focus_of_the_player() {
    let mut world = world_with_a_desk();
    let mut player = initial_player_physics();
    player.position = Position { x: 291_000, y: 240_000 };
    world.physics_components[1] = Some(player);
    world.update(DT, &holding(Key::Left), &bounds());
    assert_eq!(world.physics_components[1].unwrap().position, Position { x: 291_000, y: 240_000 });
    assert_eq!(world.physics_components[1].unwrap().current_focus, Some(0));
    assert_eq!(
        world.player_components[1],
        Some(Player { interacting: None, current_focus: Some(0) })
    );
    world.begin_interaction();
    assert_eq!(
        world.player_components[1],
        Some(Player { interacting: Some(Interaction::default()), current_focus: Some(0) })
    );
    // In a conversation the player stays.
    let before = world.physics_components.clone();
    world.update(DT, &holding(Key::Right), &bounds());
    assert_eq!(world.physics_components, before);
}

#[test]
fn world_begin_interaction_needs_a_focus() {
    let mut world = world_with_a_desk();
    world.begin_interaction();
    assert_eq!(
        world.player_components,
        vec![None, Some(Player { interacting: None, current_focus: None })]
    );
}

#[test]
fn world_players_move_in_the_order_of_their_slots() {
    // Two players side by side, edge to edge; both walk right. The first is
    // blocked by the second, which has not moved yet; the second is free.
    let mut world = World::new();
    let mut left = initial_player_physics();
    left.position = Position { x: 500_000, y: 500_000 };
    let mut right = initial_player_physics();
    right.position = Position { x: 530_000, y: 500_000 };
    world.add_entity(Some(left), Some(Player { interacting: None, current_focus: None }), None);
    world.add_entity(Some(right), Some(Player { interacting: None, current_focus: None }), None);
    world.update(DT, &holding(Key::Right), &bounds());
    assert_eq!(world.physics_components[0].unwrap().position, Position { x: 500_000, y: 500_000 });
    assert_eq!(world.player_components[0].as_ref().unwrap().current_focus, Some(1));
    assert_eq!(world.physics_components[1].unwrap().position, Position { x: 532_000, y: 500_000 });
    assert_eq!(world.player_components[1].as_ref().unwrap().current_focus, None);
    // Walking left, the first moves away before the second follows.
    world.update(DT, &holding(Key::Left), &bounds());
    assert_eq!(world.physics_components[0].unwrap().position, Position { x: 498_000, y: 500_000 });
    assert_eq!(world.physics_components[1].unwrap().position, Position { x: 530_000, y: 500_000 });
}

#[test]
fn world_update_player_of_a_slot_that_does_not_move() {
    let mut world = world_with_a_desk();
    let before_physics = world.physics_components.clone();
    world.update_player(0, &vec![Key::Right], DT, &bounds());
    world.update_player(9, &vec![Key::Right], DT, &bounds());
    assert_eq!(world.physics_components, before_physics);
    world.update_player(1, &vec![Key::Right], DT, &bounds());
    assert_eq!(world.physics_components[1].unwrap().position, Position { x: 1_002_000, y: 500_000 });
}

#[test]
fn map_entities() {
    assert_eq!(
        Desk::new(Position { x: 4, y: 5 }),
        Desk {
            body: Body {
                position: Position { x: 4, y: 5 },
                size: Size { width: 150_000, height: 70_000 },
                speed: 0
            }
        }
    );
    assert_eq!(
        MapPlayer::new(),
        MapPlayer {
            body: Body {
                position: Position { x: 600_000, y: 500_000 },
                size: Size { width: 25_000, height: 25_000 },
                speed: 150_000
            }
        }
    );
}

#[test]
fn map_new_has_four_desks() {
    let office = OfficeMap::new();
    assert_eq!(office.player, MapPlayer::new());
    assert_eq!(
        office.desks,
        vec![
            Desk::new(Position { x: 200_000, y: 240_000 }),
            Desk::new(Position { x: 200_000, y: 360_000 }),
            Desk::new(Position { x: 200_000, y: 480_000 }),
            Desk::new(Position { x: 200_000, y: 600_000 }),
        ]
    );
}

#[test]
fn map_update_walks_and_stops_at_desks() {
    let mut office = OfficeMap::new();
    let drawable = Size { width: 800_000, height: 600_000 };
    office.update(20_000, &holding(Key::Left), &drawable);
    assert_eq!(office.player.body.position, Position { x: 597_000, y: 500_000 });
    office.update(20_000, &nothing_held(), &drawable);
    assert_eq!(office.player.body.position, Position { x: 597_000, y: 500_000 });
    // The desk of row 4 spans x 125_000..275_000, y 445_000..515_000.
    for _ in 0..200 {
        office.update(20_000, &holding(Key::Left), &drawable);
    }
    assert_eq!(office.player.body.position, Position { x: 288_000, y: 500_000 });
    assert!(office.collides_with_desk(&Body {
        position: Position { x: 285_000, y: 500_000 },
        size: Size { width: 25_000, height: 25_000 },
        speed: 0
    }));
    assert!(!office.collides_with_desk(&office.player.body));
    // Diagonally against the desk: up alone is free, but up and left end in
    // the desk, and the tick is not taken.
    let both = HeldKeys { up: true, down: false, left: true, right: false };
    office.update(20_000, &both, &drawable);
    assert_eq!(office.player.body.position, Position { x: 288_000, y: 500_000 });
    office.update(20_000, &holding(Key::Up), &drawable);
    assert_eq!(office.player.body.position, Position { x: 288_000, y: 497_000 });
    assert_eq!(office.desks, OfficeMap::new().desks);
}

#[test]
fn colors_of_the_example_entities() {
    assert_eq!(initial_player_physics().color, Color::from_rgb(0, 171, 169));
    assert_eq!(desk_physics_at(3, 120).color, Color::white());
}

#[test]
fn ecs_well_formedness() {
    let mut ecs = Ecs::new();
    assert!(ecs.is_well_formed());
    ecs.load_initial_components();
    assert!(ecs.is_well_formed());
    ecs.current_focus = Some(2);
    assert!(!ecs.is_well_formed());
    ecs.player_physics.current_focus = Some(2);
    assert!(ecs.is_well_formed());
    ecs.begin_interaction();
    assert!(ecs.is_well_formed());
    ecs.npcs_components.pop();
    assert!(!ecs.is_well_formed());
}
