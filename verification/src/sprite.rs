//! One picture cut out of a sprite sheet, and the order to draw it.

use vstd::prelude::*;
use crate::atlas::{AtlasSize, JsonRect};
use crate::positioning::Position;

verus! {

/// A picture of a sheet: the rectangle to cut out, the size of the sheet it
/// is cut from, how much it is enlarged, and its extents in pixels.
#[derive(Clone, Copy, Debug, PartialEq, Eq, Structural)]
pub struct Sprite {
    /// The rectangle that is cut out of the sheet.
    pub rect: JsonRect,
    pub sheet: AtlasSize,
    pub scale_x: u32,
    pub scale_y: u32,
    pub width: i32,
    pub height: i32,
}

/// The order to draw one picture: what to cut out of which sheet, where its
/// upper left corner goes on screen, in world units, and how much it is
/// enlarged.
#[derive(Clone, Copy, Debug, PartialEq, Eq, Structural)]
pub struct DrawCommand {
    pub src: JsonRect,
    pub sheet: AtlasSize,
    pub dest: Position,
    pub scale_x: u32,
    pub scale_y: u32,
}

/// The extents of a box, in pixels.
#[derive(Clone, Copy, Debug, PartialEq, Eq, Structural)]
pub struct BoundBox {
    pub x: i64,
    pub y: i64,
    pub w: i64,
    pub h: i64,
}

impl Sprite {
    /// A picture at its natural size.
    pub fn new(rect: JsonRect, sheet: AtlasSize, width: i32, height: i32) -> (sprite: Sprite)
        ensures
            sprite == (Sprite { rect, sheet, scale_x: 1, scale_y: 1, width, height }),
    {
        Sprite { rect, sheet, scale_x: 1, scale_y: 1, width, height }
    }

    /// The order to draw this picture at `pos`, enlarged by `scale`.
    pub fn draw_params(&self, pos: Position, scale: (u32, u32)) -> (command: DrawCommand)
        ensures
            command == (DrawCommand {
                src: self.rect,
                sheet: self.sheet,
                dest: pos,
                scale_x: scale.0,
                scale_y: scale.1,
            }),
    {
        DrawCommand {
            src: self.rect,
            sheet: self.sheet,
            dest: pos,
            scale_x: scale.0,
            scale_y: scale.1,
        }
    }

    /// The box of the enlarged picture, with its corner at the origin.
    pub fn get_bound_box(&self) -> (bound_box: BoundBox)
        ensures
            bound_box.x == 0,
            bound_box.y == 0,
            bound_box.w == self.width * self.scale_x,
            bound_box.h == self.height * self.scale_y,
    {
        assert(-0x8000_0000 * 0xffff_ffff <= self.width * self.scale_x <= 0x7fff_ffff
            * 0xffff_ffff) by (nonlinear_arith)
            requires
                -0x8000_0000 <= self.width <= 0x7fff_ffff,
                0 <= self.scale_x <= 0xffff_ffff,
        ;
        assert(-0x8000_0000 * 0xffff_ffff <= self.height * self.scale_y <= 0x7fff_ffff
            * 0xffff_ffff) by (nonlinear_arith)
            requires
                -0x8000_0000 <= self.height <= 0x7fff_ffff,
                0 <= self.scale_y <= 0xffff_ffff,
        ;
        BoundBox {
            x: 0,
            y: 0,
            w: self.width as i64 * self.scale_x as i64,
            h: self.height as i64 * self.scale_y as i64,
        }
    }
}

} // verus!
