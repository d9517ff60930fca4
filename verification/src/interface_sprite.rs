//! The pictures of the interface: a heart, hollow and filled.

use vstd::prelude::*;
use crate::atlas::{atlas_sprite, has_frame, Atlas};
use crate::positioning::Position;
use crate::sprite::{DrawCommand, Sprite};

verus! {

/// Where on screen the heart is drawn, in world units.
pub const HEART_X: i64 = 600_000;

pub const HEART_Y: i64 = 600_000;

pub struct InterfaceSprite {
    pub life_outline_sprite: Sprite,
    pub life_filled_sprite: Sprite,
}

impl InterfaceSprite {
    /// The hearts as `atlas` holds them: the hollow one under `heart-0`, the
    /// filled one under `heart-1`.
    pub fn new(atlas: &Atlas) -> (sprite: InterfaceSprite)
        requires
            has_frame(atlas.frames@, "heart-0"@),
            has_frame(atlas.frames@, "heart-1"@),
        ensures
            sprite.life_outline_sprite == atlas_sprite(*atlas, "heart-0"@),
            sprite.life_filled_sprite == atlas_sprite(*atlas, "heart-1"@),
    {
        InterfaceSprite {
            life_outline_sprite: atlas.create_sprite("heart-0"),
            life_filled_sprite: atlas.create_sprite("heart-1"),
        }
    }

    /// The order to draw the filled heart, twice as large, at its place.
    pub fn draw(&self) -> (command: DrawCommand)
        ensures
            command == (DrawCommand {
                src: self.life_filled_sprite.rect,
                sheet: self.life_filled_sprite.sheet,
                dest: Position { x: HEART_X, y: HEART_Y },
                scale_x: 2,
                scale_y: 2,
            }),
    {
        self.life_filled_sprite.draw_params(Position { x: HEART_X, y: HEART_Y }, (2, 2))
    }
}

} // verus!
