//! The camera: which part of the world is on screen, and when it scrolls.

use vstd::prelude::*;
use crate::constants::{
    DEFAULT_CAMERA_H,
    DEFAULT_CAMERA_OFFSET,
    DEFAULT_CAMERA_SPEED,
    DEFAULT_CAMERA_W,
};
use crate::physics::{Direction, Physics};
use crate::positioning::{shifted, step_length, travel, Position, Size};

verus! {

/// A viewport of `size` centred on `position`; it scrolls at `speed` world
/// units per second.
#[derive(Clone, Copy, Debug, PartialEq, Eq, Structural)]
pub struct Camera {
    pub position: Position,
    pub size: Size,
    pub speed: u32,
}

impl Camera {
    /// A camera of the default size and speed, centred on `position`.
    pub open spec fn centred_on(position: Position) -> Camera {
        Camera {
            position,
            size: Size { width: DEFAULT_CAMERA_W, height: DEFAULT_CAMERA_H },
            speed: DEFAULT_CAMERA_SPEED,
        }
    }

    /// A camera of the default size and speed.
    pub fn new(position: Position) -> (camera: Camera)
        ensures
            camera == Camera::centred_on(position),
    {
        Camera {
            position,
            size: Size { width: DEFAULT_CAMERA_W, height: DEFAULT_CAMERA_H },
            speed: DEFAULT_CAMERA_SPEED,
        }
    }

    /// Where a point of the world lies on screen: its offset from the
    /// viewport's upper left corner.
    pub open spec fn screen_position(self, world_position: Position) -> (int, int) {
        (
            world_position.x - (self.position.x - self.size.w_half()),
            world_position.y - (self.position.y - self.size.h_half()),
        )
    }

    /// Whether a screen position can be held in a [`Position`].
    pub open spec fn on_screen_range(self, world_position: Position) -> bool {
        let screen = self.screen_position(world_position);
        i64::MIN <= screen.0 <= i64::MAX && i64::MIN <= screen.1 <= i64::MAX
    }

    /// Whether the screen position of `world_position` can be held in a
    /// [`Position`].
    pub fn can_show(&self, world_position: &Position) -> (ok: bool)
        ensures
            ok == self.on_screen_range(*world_position),
    {
        let x: i128 = world_position.x as i128 - (self.position.x as i128
            - self.size.w_half() as i128);
        let y: i128 = world_position.y as i128 - (self.position.y as i128
            - self.size.h_half() as i128);
        i64::MIN as i128 <= x && x <= i64::MAX as i128 && i64::MIN as i128 <= y && y
            <= i64::MAX as i128
    }

    /// Where a point of the world lies on screen.
    pub fn world_to_screen(&self, world_position: &Position) -> (screen: Position)
        requires
            self.on_screen_range(*world_position),
        ensures
            (screen.x as int, screen.y as int) == self.screen_position(*world_position),
    {
        let x: i128 = world_position.x as i128 - (self.position.x as i128
            - self.size.w_half() as i128);
        let y: i128 = world_position.y as i128 - (self.position.y as i128
            - self.size.h_half() as i128);
        Position { x: x as i64, y: y as i64 }
    }

    /// The camera's centre after it has scrolled along `direction` for
    /// `dt_micros`.
    pub open spec fn scrolled(self, direction: Direction, dt_micros: u32) -> (int, int) {
        shifted(self.position, direction.key(), travel(self.speed, dt_micros))
    }

    /// Whether the camera's centre can still be held in a [`Position`] after
    /// it has scrolled along `direction` for `dt_micros`.
    pub open spec fn scroll_in_range(self, direction: Direction, dt_micros: u32) -> bool {
        &&& i64::MIN <= self.scrolled(direction, dt_micros).0 <= i64::MAX
        &&& i64::MIN <= self.scrolled(direction, dt_micros).1 <= i64::MAX
    }

    /// Whether the camera can scroll along `direction` for `dt_micros`.
    pub fn can_update_position(&self, direction: Direction, dt_micros: u32) -> (ok: bool)
        ensures
            ok == self.scroll_in_range(direction, dt_micros),
    {
        let step: i128 = step_length(self.speed, dt_micros) as i128;
        let x: i128 = self.position.x as i128;
        let y: i128 = self.position.y as i128;
        match direction {
            Direction::Up => y - step >= i64::MIN as i128,
            Direction::Down => y + step <= i64::MAX as i128,
            Direction::Left => x - step >= i64::MIN as i128,
            Direction::Right => x + step <= i64::MAX as i128,
        }
    }

    /// Scrolls along `direction` for `dt_micros`.
    pub fn update_position(&mut self, direction: Direction, dt_micros: u32)
        requires
            old(self).scroll_in_range(direction, dt_micros),
        ensures
            (final(self).position.x as int, final(self).position.y as int) == old(self).scrolled(
                direction,
                dt_micros,
            ),
            final(self).size == old(self).size,
            final(self).speed == old(self).speed,
    {
        let step: i128 = step_length(self.speed, dt_micros) as i128;
        match direction {
            Direction::Up => {
                self.position.y = (self.position.y as i128 - step) as i64;
            },
            Direction::Down => {
                self.position.y = (self.position.y as i128 + step) as i64;
            },
            Direction::Left => {
                self.position.x = (self.position.x as i128 - step) as i64;
            },
            Direction::Right => {
                self.position.x = (self.position.x as i128 + step) as i64;
            },
        }
    }

    /// Whether the player has left the middle third of the viewport on the
    /// side that it faces. The middle third reaches a sixth of the viewport
    /// to each side of the camera's centre, so the player has left it when
    /// six times its distance from the centre is more than the viewport's
    /// extent; no third and no half is rounded.
    pub open spec fn player_near_edge(self, player_physics: Physics) -> bool {
        let right = player_physics.position.x - self.position.x;
        let down = player_physics.position.y - self.position.y;
        match player_physics.direction {
            Some(Direction::Left) => 6 * right < -self.size.width,
            Some(Direction::Up) => 6 * down < -self.size.height,
            Some(Direction::Right) => 6 * right > self.size.width,
            Some(Direction::Down) => 6 * down > self.size.height,
            None => false,
        }
    }

    pub fn is_player_approaching_camera_edge(&self, player_physics: &Physics) -> (near: bool)
        ensures
            near == self.player_near_edge(*player_physics),
    {
        let right: i128 = 6 * (player_physics.position.x as i128 - self.position.x as i128);
        let down: i128 = 6 * (player_physics.position.y as i128 - self.position.y as i128);
        match player_physics.direction {
            Some(Direction::Left) => right < -(self.size.width as i128),
            Some(Direction::Up) => down < -(self.size.height as i128),
            Some(Direction::Right) => right > self.size.width as i128,
            Some(Direction::Down) => down > self.size.height as i128,
            None => false,
        }
    }

    /// Whether the viewport can scroll further along `direction`: its edge on
    /// that side has not yet reached the line that runs
    /// `DEFAULT_CAMERA_OFFSET` outside the world's edge. The edge lies half
    /// an extent from the centre, so the comparison is made on doubled
    /// coordinates.
    pub open spec fn room_to_scroll(self, world_size: Size, direction: Direction) -> bool {
        match direction {
            Direction::Left => 2 * self.position.x - self.size.width > -2 * DEFAULT_CAMERA_OFFSET,
            Direction::Up => 2 * self.position.y - self.size.height > -2 * DEFAULT_CAMERA_OFFSET,
            Direction::Right => 2 * self.position.x + self.size.width < 2 * (world_size.width
                + DEFAULT_CAMERA_OFFSET),
            Direction::Down => 2 * self.position.y + self.size.height < 2 * (world_size.height
                + DEFAULT_CAMERA_OFFSET),
        }
    }

    pub fn is_within_world_bounds(&self, world_size: &Size, direction: Direction) -> (within: bool)
        ensures
            within == self.room_to_scroll(*world_size, direction),
    {
        let width: i128 = self.size.width as i128;
        let height: i128 = self.size.height as i128;
        let x: i128 = 2 * (self.position.x as i128);
        let y: i128 = 2 * (self.position.y as i128);
        let offset: i128 = 2 * (DEFAULT_CAMERA_OFFSET as i128);
        match direction {
            Direction::Left => x - width > -offset,
            Direction::Up => y - height > -offset,
            Direction::Right => x + width < 2 * (world_size.width as i128) + offset,
            Direction::Down => y + height < 2 * (world_size.height as i128) + offset,
        }
    }

    /// Whether the camera follows the player in this tick: the player nears
    /// the edge that it faces, and the viewport has room to scroll that way.
    pub open spec fn follows(self, player_physics: Physics, world_size: Size) -> bool {
        &&& self.player_near_edge(player_physics)
        &&& self.room_to_scroll(world_size, player_physics.direction->0)
    }

    /// The camera after one tick: scrolled the way the player faces where it
    /// follows the player, and as it was where it does not.
    pub open spec fn after_tick(
        self,
        player_physics: Physics,
        world_size: Size,
        dt_micros: u32,
    ) -> Camera {
        if self.follows(player_physics, world_size) {
            let centre = self.scrolled(player_physics.direction->0, dt_micros);
            Camera { position: Position { x: centre.0 as i64, y: centre.1 as i64 }, ..self }
        } else {
            self
        }
    }

    /// Follows the player for one tick, if it has to.
    pub fn maybe_update(&mut self, dt_micros: u32, player_physics: &Physics, world_size: &Size)
        ensures
            *final(self) == old(self).after_tick(*player_physics, *world_size, dt_micros),
            old(self).follows(*player_physics, *world_size) ==> (
            final(self).position.x as int,
            final(self).position.y as int,
        ) == old(self).scrolled(player_physics.direction->0, dt_micros),
    {
        if self.is_player_approaching_camera_edge(player_physics) {
            match player_physics.direction {
                Some(direction) => {
                    if self.is_within_world_bounds(world_size, direction) {
                        proof {
                            lemma_travel_bound(self.speed, dt_micros);
                        }
                        self.update_position(direction, dt_micros);
                    }
                },
                None => {},
            }
        }
    }
}

/// The camera after it has followed the player for one tick, if it had to.
pub fn maybe_update_camera(
    dt_micros: u32,
    camera: &Camera,
    player_physics: &Physics,
    world_size: &Size,
) -> (new_camera: Camera)
    ensures
        new_camera == camera.after_tick(*player_physics, *world_size, dt_micros),
{
    let mut new_camera: Camera = *camera;
    new_camera.maybe_update(dt_micros, player_physics, world_size);
    new_camera
}

/// A camera whose player stays in the middle third of the viewport, or
/// faces nowhere, does not move.
pub proof fn lemma_camera_rests_in_dead_zone(
    camera: Camera,
    player_physics: Physics,
    world_size: Size,
    dt_micros: u32,
)
    requires
        !camera.player_near_edge(player_physics),
    ensures
        camera.after_tick(player_physics, world_size, dt_micros) == camera,
{
}

/// A camera whose viewport has reached the line outside the world's edge
/// on the side that the player faces does not move.
pub proof fn lemma_camera_stops_at_world_edge(
    camera: Camera,
    player_physics: Physics,
    world_size: Size,
    dt_micros: u32,
)
    requires
        player_physics.direction is Some,
        !camera.room_to_scroll(world_size, player_physics.direction->0),
    ensures
        camera.after_tick(player_physics, world_size, dt_micros) == camera,
{
}

/// A camera that follows the player moves by what its speed covers in the
/// tick, along the axis that the player faces, and not along the other.
pub proof fn lemma_camera_scrolls_by_one_step(
    camera: Camera,
    player_physics: Physics,
    world_size: Size,
    dt_micros: u32,
)
    requires
        camera.follows(player_physics, world_size),
    ensures
        ({
            let next = camera.after_tick(player_physics, world_size, dt_micros);
            let step = travel(camera.speed, dt_micros);
            match player_physics.direction->0 {
                Direction::Up => next.position.x == camera.position.x && next.position.y
                    == camera.position.y - step,
                Direction::Down => next.position.x == camera.position.x && next.position.y
                    == camera.position.y + step,
                Direction::Left => next.position.y == camera.position.y && next.position.x
                    == camera.position.x - step,
                Direction::Right => next.position.y == camera.position.y && next.position.x
                    == camera.position.x + step,
            }
        }),
{
    lemma_travel_bound(camera.speed, dt_micros);
}

/// No tick is long enough to take anything further than 2^48 world units.
pub proof fn lemma_travel_bound(speed: u32, dt_micros: u32)
    ensures
        0 <= travel(speed, dt_micros) <= 0x1_0000_0000_0000,
{
    assert(speed as int * dt_micros as int <= 0xffff_ffff * 0xffff_ffff) by (nonlinear_arith)
        requires
            0 <= speed <= 0xffff_ffff,
            0 <= dt_micros <= 0xffff_ffff,
    ;
    assert(0 <= speed as int * dt_micros as int) by (nonlinear_arith)
        requires
            0 <= speed,
            0 <= dt_micros,
    ;
}

} // verus!
