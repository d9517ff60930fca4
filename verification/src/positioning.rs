//! Points, extents and clamping.

use vstd::prelude::*;
use crate::constants::MICROS_PER_SECOND;
use crate::input_system::Key;

verus! {

/// A point of the world, in world units. `x` grows to the right, `y` downwards.
#[derive(Clone, Copy, Debug, PartialEq, Eq, Structural)]
pub struct Position {
    pub x: i64,
    pub y: i64,
}

/// The extents of a box, in world units.
#[derive(Clone, Copy, Debug, PartialEq, Eq, Structural)]
pub struct Size {
    pub width: u32,
    pub height: u32,
}

/// `value` moved to the nearest end of `low..=high` when it lies outside.
/// With `low > high` nothing lies inside: values under `low` go to `low`, all
/// others to `high`.
pub open spec fn clamped(value: int, low: int, high: int) -> int {
    if value < low {
        low
    } else if value > high {
        high
    } else {
        value
    }
}

/// Distance between two numbers.
pub open spec fn distance(a: int, b: int) -> int {
    if a <= b {
        b - a
    } else {
        a - b
    }
}

/// World units covered in `dt_micros` microseconds at `speed` units per
/// second, rounded down.
pub open spec fn travel(speed: u32, dt_micros: u32) -> int {
    (speed as int * dt_micros as int) / (MICROS_PER_SECOND as int)
}

/// World units covered in `dt_micros` microseconds at `speed` units per
/// second, rounded down.
pub fn step_length(speed: u32, dt_micros: u32) -> (step: u64)
    ensures
        step == travel(speed, dt_micros),
        step <= 0x1_0000_0000_0000,
{
    assert(speed as int * dt_micros as int <= 0xffff_ffff * 0xffff_ffff) by (nonlinear_arith)
        requires
            0 <= speed <= 0xffff_ffff,
            0 <= dt_micros <= 0xffff_ffff,
    ;
    assert(0 <= speed as int * dt_micros as int) by (nonlinear_arith)
        requires
            0 <= speed,
            0 <= dt_micros,
    ;
    let product: u64 = (speed as u64) * (dt_micros as u64);
    product / MICROS_PER_SECOND
}

/// Limits `value` to `low..=high`.
pub fn clamp(value: &mut i64, low: i64, high: i64)
    ensures
        *final(value) == clamped(*old(value) as int, low as int, high as int),
{
    if *value < low {
        *value = low;
    } else if *value > high {
        *value = high;
    }
}

impl Size {
    /// Half the height, rounded down.
    pub open spec fn spec_h_half(&self) -> u32 {
        (self.height as int / 2) as u32
    }

    /// Half the width, rounded down.
    pub open spec fn spec_w_half(&self) -> u32 {
        (self.width as int / 2) as u32
    }

    #[verifier::when_used_as_spec(spec_h_half)]
    pub fn h_half(&self) -> (half: u32)
        ensures
            half == self.spec_h_half(),
    {
        self.height / 2
    }

    #[verifier::when_used_as_spec(spec_w_half)]
    pub fn w_half(&self) -> (half: u32)
        ensures
            half == self.spec_w_half(),
    {
        self.width / 2
    }

    /// The least whole distance from the centre of a box to a line that its
    /// upper and lower edges do not pass: half the height, rounded up.
    pub open spec fn spec_h_reach(&self) -> u32 {
        ((self.height + 1) / 2) as u32
    }

    /// The least whole distance from the centre of a box to a line that its
    /// left and right edges do not pass: half the width, rounded up.
    pub open spec fn spec_w_reach(&self) -> u32 {
        ((self.width + 1) / 2) as u32
    }

    #[verifier::when_used_as_spec(spec_h_reach)]
    pub fn h_reach(&self) -> (reach: u32)
        ensures
            reach == self.spec_h_reach(),
    {
        self.height / 2 + self.height % 2
    }

    #[verifier::when_used_as_spec(spec_w_reach)]
    pub fn w_reach(&self) -> (reach: u32)
        ensures
            reach == self.spec_w_reach(),
    {
        self.width / 2 + self.width % 2
    }
}

/// The box of `size` centred on `position` lies inside the area that spans
/// from the origin to `area`: none of its edges is outside. The edges lie
/// half an extent from the centre, so the comparison is made on doubled
/// coordinates, which are whole for every extent.
pub open spec fn box_inside(position: (int, int), size: Size, area: (int, int)) -> bool {
    &&& 2 * position.0 - size.width >= 0
    &&& 2 * position.0 + size.width <= 2 * area.0
    &&& 2 * position.1 - size.height >= 0
    &&& 2 * position.1 + size.height <= 2 * area.1
}

impl Position {
    pub fn new(x: i64, y: i64) -> (p: Position)
        ensures
            p.x == x,
            p.y == y,
    {
        Position { x, y }
    }

    /// Where a box of `object_size` centred on `self` comes to rest when it
    /// must lie inside the area from the origin to `area`: no edge of the box
    /// leaves the area, as far as the area is large enough to hold it. The
    /// bounds are the outermost whole coordinates at which that is so.
    pub open spec fn clamped_to(self, object_size: Size, area: Position) -> (int, int) {
        (
            clamped(self.x as int, object_size.w_reach() as int, area.x - object_size.w_reach()),
            clamped(self.y as int, object_size.h_reach() as int, area.y - object_size.h_reach()),
        )
    }

    /// Whether the bounds for a box of `object_size` in the area that spans
    /// from the origin to `area` can be held in the coordinates of a
    /// [`Position`].
    pub open spec fn bounds_in_range(object_size: Size, area: Position) -> bool {
        &&& area.x - object_size.w_reach() >= i64::MIN
        &&& area.y - object_size.h_reach() >= i64::MIN
    }

    /// Whether a box of `object_size` can be clamped to the area that spans
    /// from the origin to `area`.
    pub fn can_clamp(object_size: &Size, area: &Position) -> (ok: bool)
        ensures
            ok == Position::bounds_in_range(*object_size, *area),
    {
        area.x as i128 - object_size.w_reach() as i128 >= i64::MIN as i128 && area.y as i128
            - object_size.h_reach() as i128 >= i64::MIN as i128
    }

    /// Moves the point so that a box of `object_size` around it lies inside
    /// the area that spans from the origin to `area_coordinates`.
    pub fn clamp_self(&mut self, object_size: &Size, area_coordinates: &Position)
        requires
            Position::bounds_in_range(*object_size, *area_coordinates),
        ensures
            final(self).x == old(self).clamped_to(*object_size, *area_coordinates).0,
            final(self).y == old(self).clamped_to(*object_size, *area_coordinates).1,
    {
        let w_reach: i64 = object_size.w_reach() as i64;
        let h_reach: i64 = object_size.h_reach() as i64;
        let mut x: i64 = self.x;
        let mut y: i64 = self.y;
        clamp(&mut x, w_reach, area_coordinates.x - w_reach);
        clamp(&mut y, h_reach, area_coordinates.y - h_reach);
        self.x = x;
        self.y = y;
    }
}

/// Moves `object_position` so that a box of `object_size` around it lies
/// inside the area that spans from the origin to `area_coordinates`.
pub fn clamp_object(object_position: &mut Position, object_size: &Size, area_coordinates: &Position)
    requires
        Position::bounds_in_range(*object_size, *area_coordinates),
    ensures
        final(object_position).x == old(object_position).clamped_to(
            *object_size,
            *area_coordinates,
        ).0,
        final(object_position).y == old(object_position).clamped_to(
            *object_size,
            *area_coordinates,
        ).1,
{
    object_position.clamp_self(object_size, area_coordinates);
}

/// `position` shifted by `step` along the axis of an arrow key; any other key
/// leaves it where it is.
pub open spec fn shifted(position: Position, direction: Key, step: int) -> (int, int) {
    match direction {
        Key::Up => (position.x as int, position.y - step),
        Key::Down => (position.x as int, position.y + step),
        Key::Left => (position.x - step, position.y as int),
        Key::Right => (position.x + step, position.y as int),
        _ => (position.x as int, position.y as int),
    }
}

/// Where a box of `size` that starts at `position` and travels for
/// `dt_micros` at `speed` along `direction` comes to rest in an area of
/// `area` extents: it is shifted first and clamped to the area then.
pub open spec fn candidate(
    position: Position,
    size: Size,
    speed: u32,
    direction: Key,
    dt_micros: u32,
    area: Size,
) -> (int, int) {
    let raw = shifted(position, direction, travel(speed, dt_micros));
    (
        clamped(raw.0, size.w_reach() as int, area.width - size.w_reach()),
        clamped(raw.1, size.h_reach() as int, area.height - size.h_reach()),
    )
}

/// Where a box comes to rest that takes one step for each of `keys`, in
/// their order, each step clamped to the area: the candidate of a tick in
/// which those keys are pressed.
pub open spec fn combined_candidate(
    position: Position,
    size: Size,
    speed: u32,
    keys: Seq<Key>,
    dt_micros: u32,
    area: Size,
) -> Position
    decreases keys.len(),
{
    if keys.len() == 0 {
        position
    } else {
        let step = candidate(
            combined_candidate(position, size, speed, keys.drop_last(), dt_micros, area),
            size,
            speed,
            keys.last(),
            dt_micros,
            area,
        );
        Position { x: step.0 as i64, y: step.1 as i64 }
    }
}

/// Limits a coordinate that may lie outside the range of `i64` to bounds that
/// lie inside it.
fn clamp_wide(value: i128, low: i64, high: i64) -> (r: i64)
    ensures
        r == clamped(value as int, low as int, high as int),
{
    if value < low as i128 {
        low
    } else if value > high as i128 {
        high
    } else {
        value as i64
    }
}

/// Shifts `position` along `direction` by what `speed` covers in `dt_micros`
/// and clamps the outcome to the area, so that the box stays inside it.
pub fn move_within(
    position: Position,
    size: &Size,
    speed: u32,
    direction: Key,
    dt_micros: u32,
    area: &Size,
) -> (moved: Position)
    ensures
        (moved.x as int, moved.y as int) == candidate(
            position,
            *size,
            speed,
            direction,
            dt_micros,
            *area,
        ),
{
    let step: i128 = step_length(speed, dt_micros) as i128;
    let mut x: i128 = position.x as i128;
    let mut y: i128 = position.y as i128;
    match direction {
        Key::Up => {
            y = y - step;
        },
        Key::Down => {
            y = y + step;
        },
        Key::Left => {
            x = x - step;
        },
        Key::Right => {
            x = x + step;
        },
        _ => {},
    }
    let w_reach: i64 = size.w_reach() as i64;
    let h_reach: i64 = size.h_reach() as i64;
    Position {
        x: clamp_wide(x, w_reach, area.width as i64 - w_reach),
        y: clamp_wide(y, h_reach, area.height as i64 - h_reach),
    }
}

/// Takes one step for each of `keys`, in their order, each step clamped to
/// the area.
pub fn move_along(
    position: Position,
    size: &Size,
    speed: u32,
    keys: &Vec<Key>,
    dt_micros: u32,
    area: &Size,
) -> (moved: Position)
    ensures
        moved == combined_candidate(position, *size, speed, keys@, dt_micros, *area),
{
    let mut moved: Position = position;
    let mut index: usize = 0;
    while index < keys.len()
        invariant
            index <= keys.len(),
            moved == combined_candidate(
                position,
                *size,
                speed,
                keys@.take(index as int),
                dt_micros,
                *area,
            ),
        decreases keys.len() - index,
    {
        proof {
            let prefix = keys@.take(index + 1);
            assert(prefix.drop_last() == keys@.take(index as int));
            assert(prefix.last() == keys@[index as int]);
        }
        moved = move_within(moved, size, speed, keys[index], dt_micros, area);
        index = index + 1;
    }
    proof {
        assert(keys@.take(index as int) == keys@);
    }
    moved
}

/// What has a box: a centre and extents.
pub trait Sizable {
    /// The extents of the box.
    spec fn size_of(&self) -> Size;

    /// The centre of the box.
    spec fn position_of(&self) -> Position;

    fn get_size(&self) -> (size: &Size)
        ensures
            *size == self.size_of(),
    ;

    fn get_position(&self) -> (position: &Position)
        ensures
            *position == self.position_of(),
    ;
}

/// A box that can move: its centre, its extents, and its speed in world
/// units per second.
#[derive(Clone, Copy, Debug, PartialEq, Eq, Structural)]
pub struct Body {
    pub position: Position,
    pub size: Size,
    pub speed: u32,
}

impl Sizable for Body {
    open spec fn size_of(&self) -> Size {
        self.size
    }

    open spec fn position_of(&self) -> Position {
        self.position
    }

    fn get_size(&self) -> (size: &Size) {
        &self.size
    }

    fn get_position(&self) -> (position: &Position) {
        &self.position
    }
}

impl Body {
    /// Moves the body along `direction` for `dt_micros` and keeps it inside
    /// the drawable area. Size and speed stay as they are.
    pub fn update_position(&mut self, direction: Key, dt_micros: u32, drawable_size: &Size)
        ensures
            (final(self).position.x as int, final(self).position.y as int) == candidate(
                old(self).position,
                old(self).size,
                old(self).speed,
                direction,
                dt_micros,
                *drawable_size,
            ),
            final(self).size == old(self).size,
            final(self).speed == old(self).speed,
    {
        self.position = move_within(
            self.position,
            &self.size,
            self.speed,
            direction,
            dt_micros,
            drawable_size,
        );
    }
}

/// A value inside the bounds is left where it is.
pub proof fn lemma_clamp_fixed_point(value: int, low: int, high: int)
    requires
        low <= value <= high,
    ensures
        clamped(value, low, high) == value,
{
}

/// Where the bounds hold anything, the clamped value lies inside them.
pub proof fn lemma_clamp_in_bounds(value: int, low: int, high: int)
    requires
        low <= high,
    ensures
        low <= clamped(value, low, high) <= high,
{
}

/// Clamping moves a value no further than it must: no point inside the
/// bounds is nearer to the value than the clamped one.
pub proof fn lemma_clamp_nearest(value: int, low: int, high: int, other: int)
    requires
        low <= other <= high,
    ensures
        distance(value, clamped(value, low, high)) <= distance(value, other),
{
}

/// Clamping twice is clamping once, where the bounds hold anything.
pub proof fn lemma_clamp_idempotent(value: int, low: int, high: int)
    requires
        low <= high,
    ensures
        clamped(clamped(value, low, high), low, high) == clamped(value, low, high),
{
}

/// Clamping keeps the order of two values, unless the bounds are crossed
/// and the lower bound parts the two.
pub proof fn lemma_clamp_keeps_order(a: int, b: int, low: int, high: int)
    requires
        a <= b,
        low <= high || !(a < low <= b),
    ensures
        clamped(a, low, high) <= clamped(b, low, high),
{
}

/// A box that lies inside the area stays where it is.
pub proof fn lemma_clamped_to_fixed_point(position: Position, object_size: Size, area: Position)
    requires
        box_inside(
            (position.x as int, position.y as int),
            object_size,
            (area.x as int, area.y as int),
        ),
    ensures
        position.clamped_to(object_size, area) == (position.x as int, position.y as int),
{
}

/// A box that has been clamped to an area that can hold it at some whole
/// position lies inside that area, edges and all, and clamping it again
/// does not move it.
pub proof fn lemma_clamped_to_settles(position: Position, object_size: Size, area: Position)
    requires
        2 * object_size.w_reach() <= area.x,
        2 * object_size.h_reach() <= area.y,
    ensures
        ({
            let once = position.clamped_to(object_size, area);
            &&& box_inside(once, object_size, (area.x as int, area.y as int))
            &&& clamped(once.0, object_size.w_reach() as int, area.x - object_size.w_reach())
                == once.0
            &&& clamped(once.1, object_size.h_reach() as int, area.y - object_size.h_reach())
                == once.1
        }),
{
}

/// The candidate of a tick with one key is one step along that key.
pub proof fn lemma_one_key_candidate(
    position: Position,
    size: Size,
    speed: u32,
    key: Key,
    dt_micros: u32,
    area: Size,
)
    ensures
        ({
            let step = candidate(position, size, speed, key, dt_micros, area);
            let moved = combined_candidate(position, size, speed, seq![key], dt_micros, area);
            moved.x == step.0 as i64 && moved.y == step.1 as i64
        }),
{
    let keys = seq![key];
    assert(keys.drop_last() =~= Seq::<Key>::empty());
    assert(keys.last() == key);
    assert(combined_candidate(position, size, speed, keys.drop_last(), dt_micros, area)
        == position);
}

} // verus!
