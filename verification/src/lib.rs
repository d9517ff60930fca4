//! Rules of a top-down office exploration game: boxes that move and collide
//! inside a bounded world, a camera that follows the player, and the dialog
//! state machine that runs conversations with the people in the office.
//!
//! Every length is a whole number of world units; a pixel is
//! [`constants::UNITS_PER_PIXEL`] units. Time steps are whole microseconds.
//! The edges of a box lie half an extent from its centre: wherever edges
//! are compared (collision, clamping, the camera's bounds and dead zone),
//! the comparison is made on multiples that are whole, so that no half is
//! rounded. Only where a place on screen is handed out as a whole number is
//! a half rounded down.
//! Nothing here draws, reads a file or polls a keyboard: callers hand in plain
//! values and take plain values back.

pub mod atlas;
pub mod camera;
pub mod collision;
pub mod components;
pub mod constants;
pub mod ecs;
pub mod draw;
pub mod entities;
pub mod game_state;
pub mod input_system;
pub mod interaction;
pub mod interface_sprite;
pub mod npcs_loader;
pub mod npc_sprite;
pub mod office_sprite;
pub mod physics;
pub mod physics_system;
pub mod player_sprite;
pub mod positioning;
pub mod render_system;
pub mod sprite;
pub mod sprite_keys;
pub mod tile_sprite;
pub mod world;
