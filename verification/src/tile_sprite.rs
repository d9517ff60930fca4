//! The floor: one tile of the sheet, laid out over the whole world.

use vstd::prelude::*;
use vstd::arithmetic::div_mod::lemma_fundamental_div_mod_converse;
use crate::atlas::{atlas_sprite, has_frame, Atlas};
use crate::camera::Camera;
use crate::constants::{INTIAL_WORLD_H, INTIAL_WORLD_W, UNITS_PER_PIXEL};
use crate::positioning::Position;
use crate::sprite::{DrawCommand, Sprite};

verus! {

pub const NUMBER_OF_TILES: u8 = 3;

/// One tile of the floor: a picture, and the point of the world at which
/// its upper left corner lies.
#[derive(Clone, Copy, Debug, PartialEq, Eq, Structural)]
pub struct TileSprite {
    pub sprite: Sprite,
    pub position: Position,
}

/// A tile of the floor.
pub type TileEntity = TileSprite;

/// How many steps of `step` it takes from 0 to reach `length` or pass it.
pub open spec fn steps(length: int, step: int) -> int
    decreases (if length > 0 {
        length
    } else {
        0
    }),
{
    if length <= 0 || step <= 0 {
        0
    } else {
        1 + steps(length - step, step)
    }
}

/// The width of the world in pixels.
pub open spec fn world_width_pixels() -> int {
    INTIAL_WORLD_W as int / UNITS_PER_PIXEL as int
}

/// The height of the world in pixels.
pub open spec fn world_height_pixels() -> int {
    INTIAL_WORLD_H as int / UNITS_PER_PIXEL as int
}

/// The tile at place `place` of a floor that is laid row by row, `columns`
/// tiles to the row, with tiles of `sprite`.
pub open spec fn floor_tile(sprite: Sprite, columns: int, place: int) -> TileSprite {
    TileSprite {
        sprite,
        position: Position {
            x: ((place % columns) * sprite.width * UNITS_PER_PIXEL) as i64,
            y: ((place / columns) * sprite.height * UNITS_PER_PIXEL) as i64,
        },
    }
}

impl TileSprite {
    pub fn new(sprite: Sprite, position: (i64, i64)) -> (tile: TileSprite)
        ensures
            tile == (TileSprite { sprite, position: Position { x: position.0, y: position.1 } }),
    {
        TileSprite { sprite, position: Position { x: position.0, y: position.1 } }
    }

    /// The order to draw the tile at its natural size.
    pub fn draw(&self, camera: &Camera) -> (command: DrawCommand)
        requires
            camera.on_screen_range(self.position),
        ensures
            (command.dest.x as int, command.dest.y as int) == camera.screen_position(
                self.position,
            ),
            command.src == self.sprite.rect,
            command.sheet == self.sprite.sheet,
            command.scale_x == 1,
            command.scale_y == 1,
    {
        let position = camera.world_to_screen(&self.position);
        self.sprite.draw_params(position, (1, 1))
    }
}

/// A tile of `sprite` with its corner at the pixel (`x`, `y`).
fn create_tile(sprite: Sprite, x: i64, y: i64) -> (tile: Box<TileSprite>)
    requires
        0 <= x <= 0x7fff_ffff,
        0 <= y <= 0x7fff_ffff,
    ensures
        *tile == (TileSprite {
            sprite,
            position: Position {
                x: (x * UNITS_PER_PIXEL) as i64,
                y: (y * UNITS_PER_PIXEL) as i64,
            },
        }),
{
    Box::new(TileSprite::new(sprite, (x * UNITS_PER_PIXEL as i64, y * UNITS_PER_PIXEL as i64)))
}

/// The floor: tiles of the picture `floor_tile.png`, laid row by row from
/// the world's upper left corner until the world is covered.
pub fn create_tiles(sprites: &Atlas) -> (tiles: Vec<Box<TileSprite>>)
    requires
        has_frame(sprites.frames@, "floor_tile.png"@),
        atlas_sprite(*sprites, "floor_tile.png"@).width > 0,
        atlas_sprite(*sprites, "floor_tile.png"@).height > 0,
    ensures
        ({
            let tile = atlas_sprite(*sprites, "floor_tile.png"@);
            let columns = steps(world_width_pixels(), tile.width as int);
            let rows = steps(world_height_pixels(), tile.height as int);
            &&& columns > 0
            &&& rows > 0
            &&& tiles@.len() == rows * columns
            &&& forall|place: int|
                0 <= place < tiles@.len() ==> *(#[trigger] tiles@[place]) == floor_tile(
                    tile,
                    columns,
                    place,
                )
        }),
{
    let floor = sprites.create_sprite("floor_tile.png");
    let width: i64 = floor.width as i64;
    let height: i64 = floor.height as i64;
    let world_w: i64 = (INTIAL_WORLD_W / UNITS_PER_PIXEL) as i64;
    let world_h: i64 = (INTIAL_WORLD_H / UNITS_PER_PIXEL) as i64;
    let ghost columns = steps(world_w as int, width as int);
    let ghost rows = steps(world_h as int, height as int);
    proof {
        lemma_steps_bounds(world_w as int, width as int);
        lemma_steps_bounds(world_h as int, height as int);
    }
    let mut tiles: Vec<Box<TileSprite>> = Vec::new();
    let mut y: i64 = 0;
    let mut row: i64 = 0;
    while y < world_h
        invariant
            world_w == world_width_pixels(),
            world_h == world_height_pixels(),
            width == floor.width,
            height == floor.height,
            width > 0,
            height > 0,
            columns == steps(world_w as int, width as int),
            0 < columns <= world_w,
            0 <= row <= y,
            y == row * height,
            0 <= y < world_h + height,
            rows == row + steps(world_h - y, height as int),
            tiles@.len() == row * columns,
            forall|place: int|
                0 <= place < tiles@.len() ==> *(#[trigger] tiles@[place]) == floor_tile(
                    floor,
                    columns,
                    place,
                ),
        decreases world_h + height - y,
    {
        let mut x: i64 = 0;
        let mut column: i64 = 0;
        while x < world_w
            invariant
                world_w == world_width_pixels(),
                width == floor.width,
                height == floor.height,
                width > 0,
                height > 0,
                0 < columns <= world_w,
                0 <= row,
                0 <= y < world_height_pixels(),
                y == row * height,
                0 <= column <= x,
                x == column * width,
                0 <= x < world_w + width,
                columns == column + steps(world_w - x, width as int),
                tiles@.len() == row * columns + column,
                forall|place: int|
                    0 <= place < tiles@.len() ==> *(#[trigger] tiles@[place]) == floor_tile(
                        floor,
                        columns,
                        place,
                    ),
            decreases world_w + width - x,
        {
            proof {
                lemma_steps_bounds(world_w - x, width as int);
                let place = row * columns + column;
                lemma_fundamental_div_mod_converse(place, columns, row as int, column as int);
                assert((place % columns) * floor.width == x);
                assert((place / columns) * floor.height == y);
            }
            tiles.push(create_tile(floor, x, y));
            x = x + width;
            column = column + 1;
            proof {
                assert(column * width == (column - 1) * width + width) by (nonlinear_arith);
            }
        }
        y = y + height;
        row = row + 1;
        proof {
            assert(row * height == (row - 1) * height + height) by (nonlinear_arith);
            assert(row * columns == (row - 1) * columns + columns) by (nonlinear_arith);
        }
    }
    proof {
        assert(rows * columns == row * columns);
    }
    tiles
}

/// It takes at least one step to cover a length, and no more steps than the
/// length is long.
pub proof fn lemma_steps_bounds(length: int, step: int)
    requires
        step > 0,
    ensures
        length > 0 ==> 0 < steps(length, step) <= length,
        length <= 0 ==> steps(length, step) == 0,
    decreases (if length > 0 {
        length
    } else {
        0
    }),
{
    if length > 0 {
        lemma_steps_bounds(length - step, step);
    }
}

} // verus!
