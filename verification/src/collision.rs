//! Whether two boxes overlap.

use vstd::prelude::*;
use crate::positioning::{Position, Sizable, Size};

verus! {

/// The four edges of a box, each at twice its coordinate. An edge lies half
/// an extent from the centre, so the doubled edges are whole numbers for
/// every extent, odd ones too.
pub ghost struct Aabb {
    pub min_x: int,
    pub max_x: int,
    pub min_y: int,
    pub max_y: int,
}

/// The doubled edges of the box of `size` centred on `position`.
pub open spec fn aabb(position: Position, size: Size) -> Aabb {
    Aabb {
        min_x: 2 * position.x - size.width,
        max_x: 2 * position.x + size.width,
        min_y: 2 * position.y - size.height,
        max_y: 2 * position.y + size.height,
    }
}

/// Two boxes collide when they overlap on both axes by more than an edge.
pub open spec fn boxes_collide(a: Aabb, b: Aabb) -> bool {
    &&& a.min_x < b.max_x
    &&& a.max_x > b.min_x
    &&& a.min_y < b.max_y
    &&& a.max_y > b.min_y
}

/// The length that two ranges share; zero where they are apart or only touch.
pub open spec fn shared_length(a_min: int, a_max: int, b_min: int, b_max: int) -> int {
    let low = if a_min >= b_min {
        a_min
    } else {
        b_min
    };
    let high = if a_max <= b_max {
        a_max
    } else {
        b_max
    };
    if high > low {
        high - low
    } else {
        0
    }
}

/// The area that two boxes share, in the units of the doubled edges: four
/// times the area in world units.
pub open spec fn shared_area(a: Aabb, b: Aabb) -> int {
    shared_length(a.min_x, a.max_x, b.min_x, b.max_x) * shared_length(
        a.min_y,
        a.max_y,
        b.min_y,
        b.max_y,
    )
}

/// On one axis at least, one box ends where the other begins, or before.
pub open spec fn apart(a: Aabb, b: Aabb) -> bool {
    ||| a.max_x <= b.min_x
    ||| b.max_x <= a.min_x
    ||| a.max_y <= b.min_y
    ||| b.max_y <= a.min_y
}

/// On one axis at least, one box ends exactly where the other begins.
pub open spec fn touching(a: Aabb, b: Aabb) -> bool {
    ||| a.max_x == b.min_x
    ||| b.max_x == a.min_x
    ||| a.max_y == b.min_y
    ||| b.max_y == a.min_y
}

/// Neither extent of the box is zero.
pub open spec fn solid(a: Aabb) -> bool {
    a.min_x < a.max_x && a.min_y < a.max_y
}

/// Whether the boxes of `a` and `b` collide. Boxes that only touch do not.
pub fn objects_collide<A: Sizable, B: Sizable>(a: &A, b: &B) -> (collision: bool)
    ensures
        collision == boxes_collide(
            aabb(a.position_of(), a.size_of()),
            aabb(b.position_of(), b.size_of()),
        ),
{
    let a_x: i128 = 2 * (a.get_position().x as i128);
    let a_y: i128 = 2 * (a.get_position().y as i128);
    let a_w: i128 = a.get_size().width as i128;
    let a_h: i128 = a.get_size().height as i128;
    let b_x: i128 = 2 * (b.get_position().x as i128);
    let b_y: i128 = 2 * (b.get_position().y as i128);
    let b_w: i128 = b.get_size().width as i128;
    let b_h: i128 = b.get_size().height as i128;
    a_x - a_w < b_x + b_w && a_x + a_w > b_x - b_w && a_y - a_h < b_y + b_h && a_h + a_y > b_y
        - b_h
}

/// Boxes that are apart on an axis do not collide, and boxes that do not
/// collide are apart on an axis.
pub proof fn lemma_apart_iff_no_collision(a: Aabb, b: Aabb)
    ensures
        apart(a, b) <==> !boxes_collide(a, b),
{
}

/// Boxes that share an area collide.
pub proof fn lemma_shared_area_collides(a: Aabb, b: Aabb)
    requires
        shared_area(a, b) > 0,
    ensures
        boxes_collide(a, b),
{
    let w = shared_length(a.min_x, a.max_x, b.min_x, b.max_x);
    let h = shared_length(a.min_y, a.max_y, b.min_y, b.max_y);
    assert(w > 0 && h > 0) by (nonlinear_arith)
        requires
            w * h > 0,
            w >= 0,
            h >= 0,
    ;
}

/// Boxes that touch along an edge do not collide, and share no area.
pub proof fn lemma_touching_does_not_collide(a: Aabb, b: Aabb)
    requires
        touching(a, b),
    ensures
        !boxes_collide(a, b),
        shared_area(a, b) == 0,
{
    let w = shared_length(a.min_x, a.max_x, b.min_x, b.max_x);
    let h = shared_length(a.min_y, a.max_y, b.min_y, b.max_y);
    if a.max_x == b.min_x || b.max_x == a.min_x {
        assert(w == 0);
        assert(w * h == 0) by (nonlinear_arith)
            requires
                w == 0,
        ;
    } else {
        assert(h == 0);
        assert(w * h == 0) by (nonlinear_arith)
            requires
                h == 0,
        ;
    }
}

/// Two solid boxes collide exactly when they share an area.
pub proof fn lemma_solid_boxes_collide_iff_shared_area(a: Aabb, b: Aabb)
    requires
        solid(a),
        solid(b),
    ensures
        boxes_collide(a, b) <==> shared_area(a, b) > 0,
{
    let w = shared_length(a.min_x, a.max_x, b.min_x, b.max_x);
    let h = shared_length(a.min_y, a.max_y, b.min_y, b.max_y);
    if boxes_collide(a, b) {
        assert(w > 0 && h > 0);
        assert(w * h > 0) by (nonlinear_arith)
            requires
                w > 0,
                h > 0,
        ;
    }
    if shared_area(a, b) > 0 {
        lemma_shared_area_collides(a, b);
    }
}

/// Whether two boxes collide does not depend on which is asked first.
pub proof fn lemma_collision_is_symmetric(a: Aabb, b: Aabb)
    ensures
        boxes_collide(a, b) == boxes_collide(b, a),
{
}

/// A box with both extents positive collides with itself.
pub proof fn lemma_solid_box_collides_with_itself(position: Position, size: Size)
    requires
        size.width > 0,
        size.height > 0,
    ensures
        boxes_collide(aabb(position, size), aabb(position, size)),
{
}

} // verus!
