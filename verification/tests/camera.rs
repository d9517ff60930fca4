use wye_2d::camera::{maybe_update_camera, Camera};
use wye_2d::physics::{Color, Direction, Physics};
use wye_2d::positioning::{Position, Size};

const FRAME: u32 = 16_000;

fn the_world() -> Size {
    Size { width: 2_000_000, height: 1_000_000 }
}

fn player_facing(x: i64, y: i64, direction: Option<Direction>) -> Physics {
    Physics::new(
        Position { x, y },
        Size { width: 30_000, height: 60_000 },
        125_000,
        Color::from_rgb(0, 171, 169),
        direction,
        None,
    )
}

#[test]
fn camera_new_has_the_default_viewport() {
    let camera = Camera::new(Position { x: 7, y: -8 });
    assert_eq!(
        camera,
        Camera {
            position: Position { x: 7, y: -8 },
            size: Size { width: 1_600_000, height: 800_000 },
            speed: 125_000,
        }
    );
}

#[test]
fn world_to_screen_is_relative_to_the_upper_left_corner() {
    let camera = Camera::new(Position { x: 1_000_000, y: 500_000 });
    assert_eq!(
        camera.world_to_screen(&Position { x: 1_000_000, y: 500_000 }),
        Position { x: 800_000, y: 400_000 }
    );
    assert_eq!(
        camera.world_to_screen(&Position { x: 200_000, y: 100_000 }),
        Position { x: 0, y: 0 }
    );
    assert_eq!(
        camera.world_to_screen(&Position { x: 0, y: 0 }),
        Position { x: -200_000, y: -100_000 }
    );
}

#[test]
fn camera_update_position_scrolls_by_one_step() {
    let start = Camera::new(Position { x: 1_000_000, y: 500_000 });
    let mut camera = start;
    camera.update_position(Direction::Right, FRAME);
    assert_eq!(camera.position, Position { x: 1_002_000, y: 500_000 });
    camera.update_position(Direction::Left, FRAME);
    assert_eq!(camera.position, Position { x: 1_000_000, y: 500_000 });
    camera.update_position(Direction::Up, FRAME);
    assert_eq!(camera.position, Position { x: 1_000_000, y: 498_000 });
    camera.update_position(Direction::Down, 2 * FRAME);
    assert_eq!(camera.position, Position { x: 1_000_000, y: 502_000 });
    assert_eq!(camera.size, start.size);
    assert_eq!(camera.speed, start.speed);
}

#[test]
fn the_middle_third_is_a_dead_zone() {
    let camera = Camera::new(Position { x: 1_000_000, y: 500_000 });
    for direction in [Direction::Up, Direction::Down, Direction::Left, Direction::Right] {
        let centre = player_facing(1_000_000, 500_000, Some(direction));
        assert!(!camera.is_player_approaching_camera_edge(&centre));
    }
    // The middle third reaches a sixth of the viewport from the centre:
    // 266_666 and two thirds to the left and right, 133_333 and a third up
    // and down.
    let near = |x: i64, y: i64, direction: Direction| {
        camera.is_player_approaching_camera_edge(&player_facing(x, y, Some(direction)))
    };
    assert!(!near(1_266_666, 500_000, Direction::Right));
    assert!(near(1_266_667, 500_000, Direction::Right));
    assert!(!near(733_334, 500_000, Direction::Left));
    assert!(near(733_333, 500_000, Direction::Left));
    assert!(!near(1_000_000, 366_667, Direction::Up));
    assert!(near(1_000_000, 366_666, Direction::Up));
    assert!(!near(1_000_000, 633_333, Direction::Down));
    assert!(near(1_000_000, 633_334, Direction::Down));
}

#[test]
fn the_dead_zone_of_a_viewport_of_odd_extents() {
    // A viewport 9 wide and 3 high: a sixth is one and a half, and a half.
    let camera = Camera {
        position: Position { x: 100, y: 100 },
        size: Size { width: 9, height: 3 },
        speed: 1,
    };
    let near = |x: i64, y: i64, direction: Direction| {
        camera.is_player_approaching_camera_edge(&player_facing(x, y, Some(direction)))
    };
    assert!(!near(101, 100, Direction::Right));
    assert!(near(102, 100, Direction::Right));
    assert!(!near(99, 100, Direction::Left));
    assert!(near(98, 100, Direction::Left));
    assert!(!near(100, 100, Direction::Down));
    assert!(near(100, 101, Direction::Down));
    assert!(!near(100, 100, Direction::Up));
    assert!(near(100, 99, Direction::Up));
    // Its right edge lies at 104.5: it can scroll right as long as that is
    // left of the world's edge and the offset, 20 + 80_000.
    let world = Size { width: 20, height: 20 };
    assert!(camera.is_within_world_bounds(&world, Direction::Right));
    let at_the_edge = Camera { position: Position { x: 80_015, y: 100 }, ..camera };
    assert!(at_the_edge.is_within_world_bounds(&world, Direction::Right));
    let past_the_edge = Camera { position: Position { x: 80_016, y: 100 }, ..camera };
    assert!(!past_the_edge.is_within_world_bounds(&world, Direction::Right));
}

#[test]
fn only_the_side_that_the_player_faces_counts() {
    let camera = Camera::new(Position { x: 1_000_000, y: 500_000 });
    let right = 1_500_000;
    assert!(camera.is_player_approaching_camera_edge(&player_facing(
        right,
        500_000,
        Some(Direction::Right)
    )));
    for direction in [Some(Direction::Left), Some(Direction::Up), Some(Direction::Down), None] {
        assert!(!camera.is_player_approaching_camera_edge(&player_facing(
            right, 500_000, direction
        )));
    }
}

#[test]
fn the_viewport_may_reach_the_offset_past_the_world() {
    // The viewport is 1_600_000 wide and 800_000 high; the offset is 80_000.
    let at = |x: i64, y: i64| Camera::new(Position { x, y });
    assert!(at(1_279_999, 500_000).is_within_world_bounds(&the_world(), Direction::Right));
    assert!(!at(1_280_000, 500_000).is_within_world_bounds(&the_world(), Direction::Right));
    assert!(at(720_001, 500_000).is_within_world_bounds(&the_world(), Direction::Left));
    assert!(!at(720_000, 500_000).is_within_world_bounds(&the_world(), Direction::Left));
    assert!(at(1_000_000, 320_001).is_within_world_bounds(&the_world(), Direction::Up));
    assert!(!at(1_000_000, 320_000).is_within_world_bounds(&the_world(), Direction::Up));
    assert!(at(1_000_000, 679_999).is_within_world_bounds(&the_world(), Direction::Down));
    assert!(!at(1_000_000, 680_000).is_within_world_bounds(&the_world(), Direction::Down));
    // A camera at the right limit can still scroll the other ways.
    assert!(at(1_280_000, 500_000).is_within_world_bounds(&the_world(), Direction::Left));
    assert!(at(1_280_000, 500_000).is_within_world_bounds(&the_world(), Direction::Up));
    assert!(at(1_280_000, 500_000).is_within_world_bounds(&the_world(), Direction::Down));
}

#[test]
fn the_camera_follows_the_player_to_the_right_until_the_world_ends() {
    let mut camera = Camera::new(Position { x: 1_000_000, y: 500_000 });
    // The player stands in the right third of the viewport and faces right.
    let player = player_facing(1_900_000, 500_000, Some(Direction::Right));
    camera.maybe_update(FRAME, &player, &the_world());
    assert_eq!(camera.position, Position { x: 1_002_000, y: 500_000 });
    let mut scrolls = 1;
    loop {
        let before = camera;
        camera.maybe_update(FRAME, &player, &the_world());
        if camera == before {
            break;
        }
        assert_eq!(camera.position.x, before.position.x + 2_000);
        assert_eq!(camera.position.y, 500_000);
        scrolls += 1;
        assert!(scrolls < 1000);
    }
    assert_eq!(camera.position, Position { x: 1_280_000, y: 500_000 });
    assert_eq!(scrolls, 140);
    for _ in 0..3 {
        camera.maybe_update(FRAME, &player, &the_world());
        assert_eq!(camera.position, Position { x: 1_280_000, y: 500_000 });
    }
}

#[test]
fn the_camera_rests_while_the_player_is_in_the_dead_zone() {
    let start = Camera::new(Position { x: 1_000_000, y: 500_000 });
    let mut camera = start;
    camera.maybe_update(FRAME, &player_facing(1_000_000, 500_000, Some(Direction::Right)), &the_world());
    assert_eq!(camera, start);
    camera.maybe_update(FRAME, &player_facing(1_900_000, 500_000, None), &the_world());
    assert_eq!(camera, start);
    camera.maybe_update(FRAME, &player_facing(1_900_000, 500_000, Some(Direction::Up)), &the_world());
    assert_eq!(camera, start);
}

#[test]
fn the_camera_follows_in_every_direction() {
    let start = Camera::new(Position { x: 1_000_000, y: 500_000 });
    let mut camera = start;
    camera.maybe_update(FRAME, &player_facing(300_000, 500_000, Some(Direction::Left)), &the_world());
    assert_eq!(camera.position, Position { x: 998_000, y: 500_000 });
    camera = start;
    camera.maybe_update(FRAME, &player_facing(1_000_000, 150_000, Some(Direction::Up)), &the_world());
    assert_eq!(camera.position, Position { x: 1_000_000, y: 498_000 });
    camera = start;
    camera.maybe_update(FRAME, &player_facing(1_000_000, 850_000, Some(Direction::Down)), &the_world());
    assert_eq!(camera.position, Position { x: 1_000_000, y: 502_000 });
}

#[test]
fn maybe_update_camera_gives_what_maybe_update_leaves() {
    let start = Camera::new(Position { x: 1_000_000, y: 500_000 });
    for player in [
        player_facing(1_900_000, 500_000, Some(Direction::Right)),
        player_facing(1_000_000, 500_000, Some(Direction::Right)),
        player_facing(300_000, 500_000, Some(Direction::Left)),
        player_facing(300_000, 500_000, None),
    ] {
        let mut in_place = start;
        in_place.maybe_update(FRAME, &player, &the_world());
        assert_eq!(maybe_update_camera(FRAME, &start, &player, &the_world()), in_place);
    }
    assert_eq!(
        maybe_update_camera(
            FRAME,
            &start,
            &player_facing(1_900_000, 500_000, Some(Direction::Right)),
            &the_world()
        )
        .position,
        Position { x: 1_002_000, y: 500_000 }
    );
}

#[test]
fn what_the_camera_can_scroll() {
    let camera = Camera::new(Position { x: 1_000_000, y: 500_000 });
    for direction in [Direction::Up, Direction::Down, Direction::Left, Direction::Right] {
        assert!(camera.can_update_position(direction, FRAME));
    }
    let mut edge = Camera::new(Position { x: i64::MAX - 2_000, y: i64::MIN + 1_999 });
    assert!(edge.can_update_position(Direction::Right, FRAME));
    assert!(!edge.can_update_position(Direction::Right, FRAME + 8));
    assert!(!edge.can_update_position(Direction::Up, FRAME));
    assert!(edge.can_update_position(Direction::Down, FRAME));
    assert!(edge.can_update_position(Direction::Left, FRAME));
    edge.update_position(Direction::Right, FRAME);
    assert_eq!(edge.position, Position { x: i64::MAX, y: i64::MIN + 1_999 });
    assert!(edge.can_update_position(Direction::Right, 7));
    assert!(!edge.can_update_position(Direction::Right, 8));
}
