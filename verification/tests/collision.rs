use wye_2d::collision::objects_collide;
use wye_2d::physics::{Color, Physics};
use wye_2d::positioning::{Body, Position, Size};

fn body_at(x: i64, y: i64, width: u32, height: u32) -> Body {
    Body { position: Position { x, y }, size: Size { width, height }, speed: 0 }
}

fn physics_at(x: i64, y: i64, width: u32, height: u32) -> Physics {
    Physics::new(
        Position { x, y },
        Size { width, height },
        0,
        Color::white(),
        None,
        None,
    )
}

#[test]
fn overlapping_boxes_collide() {
    assert!(objects_collide(&body_at(0, 0, 10, 10), &body_at(5, 5, 10, 10)));
    assert!(objects_collide(&body_at(0, 0, 10, 10), &body_at(9, 9, 10, 10)));
    assert!(objects_collide(&body_at(0, 0, 10, 10), &body_at(0, 0, 10, 10)));
}

#[test]
fn a_box_inside_another_collides_with_it() {
    assert!(objects_collide(&body_at(0, 0, 100, 100), &body_at(3, -4, 2, 2)));
    assert!(objects_collide(&body_at(3, -4, 2, 2), &body_at(0, 0, 100, 100)));
}

#[test]
fn touching_boxes_do_not_collide() {
    assert!(!objects_collide(&body_at(0, 0, 10, 10), &body_at(10, 0, 10, 10)));
    assert!(!objects_collide(&body_at(0, 0, 10, 10), &body_at(-10, 0, 10, 10)));
    assert!(!objects_collide(&body_at(0, 0, 10, 10), &body_at(0, 10, 10, 10)));
    assert!(!objects_collide(&body_at(0, 0, 10, 10), &body_at(0, -10, 10, 10)));
    assert!(!objects_collide(&body_at(0, 0, 10, 10), &body_at(10, 10, 10, 10)));
}

#[test]
fn boxes_apart_do_not_collide() {
    assert!(!objects_collide(&body_at(0, 0, 10, 10), &body_at(11, 0, 10, 10)));
    assert!(!objects_collide(&body_at(0, 0, 10, 10), &body_at(0, 500, 10, 10)));
    assert!(!objects_collide(&body_at(0, 0, 10, 10), &body_at(-500, -500, 10, 10)));
}

#[test]
fn overlap_on_one_axis_only_is_no_collision() {
    assert!(!objects_collide(&body_at(0, 0, 10, 10), &body_at(3, 40, 10, 10)));
    assert!(!objects_collide(&body_at(0, 0, 10, 10), &body_at(40, 3, 10, 10)));
}

#[test]
fn collision_does_not_depend_on_the_order() {
    let boxes = [
        body_at(0, 0, 10, 10),
        body_at(10, 0, 10, 10),
        body_at(7, 7, 4, 4),
        body_at(-3, 2, 30, 2),
        body_at(100, 100, 1, 1),
    ];
    for a in boxes.iter() {
        for b in boxes.iter() {
            assert_eq!(objects_collide(a, b), objects_collide(b, a));
        }
    }
}

#[test]
fn odd_extents_count_in_full() {
    // Width 5 reaches two and a half units each way: the boxes span
    // -2.5..2.5 and 1.5..6.5 and overlap; at a distance of 5 they only touch.
    assert!(objects_collide(&body_at(0, 0, 5, 5), &body_at(4, 0, 5, 5)));
    assert!(!objects_collide(&body_at(0, 0, 5, 5), &body_at(5, 0, 5, 5)));
    assert!(objects_collide(&body_at(0, 0, 5, 4), &body_at(4, 0, 4, 4)));
    assert!(!objects_collide(&body_at(0, 0, 4, 4), &body_at(4, 0, 4, 4)));
}

#[test]
fn a_box_collides_with_itself() {
    for (width, height) in [(1, 1), (1, 7), (2, 2), (5, 3), (u32::MAX, u32::MAX)] {
        let body = body_at(-3, 9, width, height);
        assert!(objects_collide(&body, &body));
    }
    assert!(!objects_collide(&body_at(0, 0, 0, 5), &body_at(0, 0, 0, 5)));
}

#[test]
fn a_box_without_extent_collides_only_strictly_inside() {
    assert!(objects_collide(&body_at(0, 0, 0, 0), &body_at(0, 0, 10, 10)));
    assert!(!objects_collide(&body_at(5, 0, 0, 0), &body_at(0, 0, 10, 10)));
    assert!(!objects_collide(&body_at(0, 0, 0, 0), &body_at(0, 0, 0, 0)));
}

#[test]
fn collision_at_the_limits_of_the_number_range() {
    assert!(!objects_collide(
        &body_at(i64::MIN, i64::MIN, u32::MAX, u32::MAX),
        &body_at(i64::MAX, i64::MAX, u32::MAX, u32::MAX)
    ));
    assert!(objects_collide(
        &body_at(i64::MAX, i64::MAX, u32::MAX, u32::MAX),
        &body_at(i64::MAX - 1, i64::MAX, u32::MAX, u32::MAX)
    ));
}

#[test]
fn bodies_and_physics_collide_alike() {
    assert!(objects_collide(&physics_at(0, 0, 10, 10), &body_at(5, 5, 10, 10)));
    assert!(!objects_collide(&physics_at(0, 0, 10, 10), &physics_at(10, 0, 10, 10)));
    assert!(objects_collide(&body_at(200_000, 240_000, 150_000, 70_000), &physics_at(270_000, 270_000, 25_000, 25_000)));
}
