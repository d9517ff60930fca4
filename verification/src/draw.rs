//! What can be drawn for an entity.

use vstd::prelude::*;
use crate::camera::Camera;
use crate::constants::UNITS_PER_PIXEL;
use crate::physics::Physics;
use crate::positioning::Position;
use crate::sprite::{DrawCommand, Sprite};

verus! {

/// Where on screen the upper left corner of `sprite` goes when it is drawn
/// for an entity at `position`: the entity's place on screen, less the
/// sprite's extents.
pub open spec fn sprite_destination(camera: Camera, position: Position, sprite: Sprite) -> (
    int,
    int,
) {
    let screen = camera.screen_position(position);
    (screen.0 - sprite.width * UNITS_PER_PIXEL, screen.1 - sprite.height * UNITS_PER_PIXEL)
}

/// Whether both coordinates can be held in a [`Position`].
pub open spec fn in_range(point: (int, int)) -> bool {
    i64::MIN <= point.0 <= i64::MAX && i64::MIN <= point.1 <= i64::MAX
}

/// The order to draw `sprite` twice as large for an entity at `position`.
pub open spec fn entity_picture(camera: Camera, position: Position, sprite: Sprite) -> DrawCommand {
    let dest = sprite_destination(camera, position, sprite);
    DrawCommand {
        src: sprite.rect,
        sheet: sprite.sheet,
        dest: Position { x: dest.0 as i64, y: dest.1 as i64 },
        scale_x: 2,
        scale_y: 2,
    }
}

/// Whether the place of `sprite` on screen, drawn for an entity at
/// `position`, can be held in a [`Position`].
pub fn can_draw_entity(camera: &Camera, position: &Position, sprite: &Sprite) -> (ok: bool)
    ensures
        ok == in_range(sprite_destination(*camera, *position, *sprite)),
{
    assert(-0x8000_0000 * 1000 <= sprite.width * UNITS_PER_PIXEL <= 0x7fff_ffff * 1000
        && -0x8000_0000 * 1000 <= sprite.height * UNITS_PER_PIXEL <= 0x7fff_ffff * 1000)
        by (nonlinear_arith)
        requires
            UNITS_PER_PIXEL == 1000,
            -0x8000_0000 <= sprite.width <= 0x7fff_ffff,
            -0x8000_0000 <= sprite.height <= 0x7fff_ffff,
    ;
    let x: i128 = position.x as i128 - (camera.position.x as i128 - camera.size.w_half() as i128)
        - sprite.width as i128 * UNITS_PER_PIXEL as i128;
    let y: i128 = position.y as i128 - (camera.position.y as i128 - camera.size.h_half() as i128)
        - sprite.height as i128 * UNITS_PER_PIXEL as i128;
    i64::MIN as i128 <= x && x <= i64::MAX as i128 && i64::MIN as i128 <= y && y <= i64::MAX as i128
}

/// The order to draw `sprite` twice as large for an entity at `position`.
pub fn draw_entity(camera: &Camera, position: &Position, sprite: &Sprite) -> (command: DrawCommand)
    requires
        in_range(sprite_destination(*camera, *position, *sprite)),
    ensures
        command == entity_picture(*camera, *position, *sprite),
{
    let x: i128 = position.x as i128 - (camera.position.x as i128 - camera.size.w_half() as i128)
        - sprite.width as i128 * UNITS_PER_PIXEL as i128;
    let y: i128 = position.y as i128 - (camera.position.y as i128 - camera.size.h_half() as i128)
        - sprite.height as i128 * UNITS_PER_PIXEL as i128;
    sprite.draw_params(Position { x: x as i64, y: y as i64 }, (2, 2))
}

/// Pictures of an entity that change with its physics and with time.
pub trait Draw {
    /// Whether there is a picture for these physics, and a place for it.
    spec fn drawable(&self, camera: &Camera, physics: &Physics, frames: usize) -> bool;

    /// The order to draw the entity in frame `frames`.
    spec fn picture(&self, camera: &Camera, physics: &Physics, frames: usize) -> DrawCommand;

    /// Whether there is a picture for these physics, and a place for it.
    fn can_draw(&self, camera: &Camera, physics: &Physics, frames: usize) -> (ok: bool)
        ensures
            ok == self.drawable(camera, physics, frames),
    ;

    fn draw(&self, camera: &Camera, physics: &Physics, frames: usize) -> (command: DrawCommand)
        requires
            self.drawable(camera, physics, frames),
        ensures
            command == self.picture(camera, physics, frames),
    ;
}

/// Pictures of an entity that also depend on one of its components.
pub trait DrawComponent {
    type Component;

    /// Whether there is a picture for this component, and a place for it.
    spec fn drawable(
        &self,
        camera: &Camera,
        physics: &Physics,
        frames: usize,
        component: &Self::Component,
    ) -> bool;

    /// The order to draw the entity in frame `frames`.
    spec fn picture(
        &self,
        camera: &Camera,
        physics: &Physics,
        frames: usize,
        component: &Self::Component,
    ) -> DrawCommand;

    /// Whether there is a picture for this component, and a place for it.
    fn can_draw_component(
        &self,
        camera: &Camera,
        physics: &Physics,
        frames: usize,
        component: &Self::Component,
    ) -> (ok: bool)
        ensures
            ok == self.drawable(camera, physics, frames, component),
    ;

    fn draw_component(
        &self,
        camera: &Camera,
        physics: &Physics,
        frames: usize,
        component: &Self::Component,
    ) -> (command: DrawCommand)
        requires
            self.drawable(camera, physics, frames, component),
        ensures
            command == self.picture(camera, physics, frames, component),
    ;
}

} // verus!
