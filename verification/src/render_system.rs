//! What there is to draw, as plain values: rectangles on screen and lines of
//! text. Nothing here draws.

use vstd::prelude::*;
use vstd::string::*;
use crate::camera::Camera;
use crate::draw::in_range;
use crate::interaction::Interaction;
use crate::physics::{Color, Physics};
use crate::positioning::{Position, Size};

verus! {

/// A rectangle: its upper left corner and its extents, in world units.
#[derive(Clone, Copy, Debug, PartialEq, Eq, Structural)]
pub struct ScreenRect {
    pub x: i64,
    pub y: i64,
    pub w: u64,
    pub h: u64,
}

/// The upper left corner, on screen, of a box of `size` centred on
/// `position`.
pub open spec fn corner_on_screen(camera: Camera, position: Position, size: Size) -> (int, int) {
    let screen = camera.screen_position(position);
    (screen.0 - size.w_half(), screen.1 - size.h_half())
}

/// The centre of a world of `world_size`.
pub open spec fn world_centre(world_size: Size) -> Position {
    Position { x: world_size.w_half() as i64, y: world_size.h_half() as i64 }
}

/// Whether the corner on screen of a box of `size` centred on `position` can
/// be held in a [`Position`].
pub fn can_draw_box(camera: &Camera, position: &Position, size: &Size) -> (ok: bool)
    ensures
        ok == in_range(corner_on_screen(*camera, *position, *size)),
{
    let x: i128 = position.x as i128 - (camera.position.x as i128 - camera.size.w_half() as i128)
        - size.w_half() as i128;
    let y: i128 = position.y as i128 - (camera.position.y as i128 - camera.size.h_half() as i128)
        - size.h_half() as i128;
    i64::MIN as i128 <= x && x <= i64::MAX as i128 && i64::MIN as i128 <= y && y <= i64::MAX as i128
}

/// Whether the outline of the world has a place on screen.
pub fn can_draw_world_bounds(camera: &Camera, world_size: &Size) -> (ok: bool)
    ensures
        ok == in_range(corner_on_screen(*camera, world_centre(*world_size), *world_size)),
{
    let rectangle_position = Position {
        x: world_size.w_half() as i64,
        y: world_size.h_half() as i64,
    };
    can_draw_box(camera, &rectangle_position, world_size)
}

/// The rectangle on screen of a box of `size` centred on `position`.
fn rect_on_screen(camera: &Camera, position: &Position, size: &Size) -> (rect: ScreenRect)
    requires
        in_range(corner_on_screen(*camera, *position, *size)),
    ensures
        (rect.x as int, rect.y as int) == corner_on_screen(*camera, *position, *size),
        rect.w == size.width,
        rect.h == size.height,
{
    let x: i128 = position.x as i128 - (camera.position.x as i128 - camera.size.w_half() as i128)
        - size.w_half() as i128;
    let y: i128 = position.y as i128 - (camera.position.y as i128 - camera.size.h_half() as i128)
        - size.h_half() as i128;
    ScreenRect { x: x as i64, y: y as i64, w: size.width as u64, h: size.height as u64 }
}

/// The outline of the world on screen.
pub fn draw_world_bounds(camera: &Camera, world_size: &Size) -> (rect: ScreenRect)
    requires
        in_range(corner_on_screen(*camera, world_centre(*world_size), *world_size)),
    ensures
        (rect.x as int, rect.y as int) == corner_on_screen(
            *camera,
            world_centre(*world_size),
            *world_size,
        ),
        rect.w == world_size.width,
        rect.h == world_size.height,
{
    let rectangle_position = Position {
        x: world_size.w_half() as i64,
        y: world_size.h_half() as i64,
    };
    rect_on_screen(camera, &rectangle_position, world_size)
}

/// The box of an entity on screen, and the colour to fill it with.
pub fn draw_object(physics: &Physics, camera: &Camera) -> (filled: (ScreenRect, Color))
    requires
        in_range(corner_on_screen(*camera, physics.position, physics.size)),
    ensures
        (filled.0.x as int, filled.0.y as int) == corner_on_screen(
            *camera,
            physics.position,
            physics.size,
        ),
        filled.0.w == physics.size.width,
        filled.0.h == physics.size.height,
        filled.1 == physics.color,
{
    (rect_on_screen(camera, &physics.position, &physics.size), physics.color)
}

/// The box in which someone's words are shown: fifteen times as wide and
/// five times as high as the speaker, two widths to the right of the
/// speaker's centre and one and a half heights above it.
pub open spec fn speech_box(npc_physics: Physics) -> (int, int, int, int) {
    (
        npc_physics.position.x + npc_physics.size.width * 2,
        npc_physics.position.y - (npc_physics.size.height * 3) / 2,
        npc_physics.size.width * 15,
        npc_physics.size.height * 5,
    )
}

/// Whether the corner of the box for the words of the speaker at
/// `npc_physics` can be held in a [`Position`].
pub fn can_draw_interaction(npc_physics: &Physics) -> (ok: bool)
    ensures
        ok == in_range((speech_box(*npc_physics).0, speech_box(*npc_physics).1)),
{
    let width: i128 = npc_physics.size.width as i128;
    let height: i128 = npc_physics.size.height as i128;
    let x: i128 = npc_physics.position.x as i128 + width * 2;
    let y: i128 = npc_physics.position.y as i128 - (height * 3) / 2;
    i64::MIN as i128 <= x && x <= i64::MAX as i128 && i64::MIN as i128 <= y && y <= i64::MAX as i128
}

/// The box in which the words of the speaker at `npc_physics` are shown.
pub fn draw_interaction(npc_physics: &Physics) -> (rect: ScreenRect)
    requires
        in_range((speech_box(*npc_physics).0, speech_box(*npc_physics).1)),
    ensures
        (rect.x as int, rect.y as int, rect.w as int, rect.h as int) == speech_box(*npc_physics),
{
    let width: i128 = npc_physics.size.width as i128;
    let height: i128 = npc_physics.size.height as i128;
    let x: i128 = npc_physics.position.x as i128 + width * 2;
    let y: i128 = npc_physics.position.y as i128 - (height * 3) / 2;
    ScreenRect {
        x: x as i64,
        y: y as i64,
        w: npc_physics.size.width as u64 * 15,
        h: npc_physics.size.height as u64 * 5,
    }
}

/// The line that shows answer `index`: the answer itself, after `> ` where
/// the cursor is on it.
pub open spec fn option_line(options: Seq<Seq<char>>, hovered_option: nat, index: int) -> Seq<
    char,
> {
    if index == hovered_option {
        "> "@ + options[index]
    } else {
        options[index]
    }
}

/// The lines that show the answers of `interaction`, in the answers' order.
pub fn draw_dialog_options(interaction: &Interaction) -> (lines: Vec<String>)
    requires
        interaction.options is Some,
    ensures
        lines@.len() == interaction@.options->0.len(),
        forall|index: int|
            0 <= index < lines@.len() ==> (#[trigger] lines@[index])@ == option_line(
                interaction@.options->0,
                interaction@.hovered_option,
                index,
            ),
{
    proof {
        interaction.lemma_view();
    }
    let mut lines: Vec<String> = Vec::new();
    match &interaction.options {
        Some(options) => {
            let mut index: usize = 0;
            while index < options.len()
                invariant
                    index <= options.len(),
                    interaction.options == Some(*options),
                    interaction@.options is Some,
                    interaction@.options->0.len() == options@.len(),
                    forall|i: int|
                        0 <= i < options@.len() ==> interaction@.options->0[i]
                            == (#[trigger] options@[i])@,
                    interaction@.hovered_option == interaction.hovered_option,
                    lines@.len() == index,
                    forall|i: int|
                        0 <= i < index ==> (#[trigger] lines@[i])@ == option_line(
                            interaction@.options->0,
                            interaction@.hovered_option,
                            i,
                        ),
                decreases options.len() - index,
            {
                if interaction.hovered_option == index {
                    let mut line = "> ".to_owned();
                    line.append(options[index].as_str());
                    lines.push(line);
                } else {
                    lines.push(options[index].clone());
                }
                index = index + 1;
            }
        },
        None => {},
    }
    lines
}

} // verus!
