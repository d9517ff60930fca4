//! Fixed measures of the office, in world units.

use vstd::prelude::*;

verus! {

/// World units in one pixel.
pub const UNITS_PER_PIXEL: u32 = 1000;

/// Microseconds in one second; speeds are world units per second.
pub const MICROS_PER_SECOND: u64 = 1_000_000;

pub const HUMANOID_W: u32 = 30_000;

pub const HUMANOID_H: u32 = 60_000;

pub const DESK_H: u32 = 70_000;

pub const DESK_W: u32 = 150_000;

pub const INITIAL_PLAYER_X: i64 = 1_000_000;

pub const INITIAL_PLAYER_Y: i64 = 500_000;

pub const INITIAL_PLAYER_SPEED: u32 = 125_000;

pub const INTIAL_WORLD_W: u32 = 2_000_000;

pub const INTIAL_WORLD_H: u32 = 1_000_000;

pub const DEFAULT_WINDOW_W: u32 = 1_600_000;

pub const DEFAULT_WINDOW_H: u32 = 800_000;

/// How far past the world's edge the camera's viewport may reach.
pub const DEFAULT_CAMERA_OFFSET: u32 = 80_000;

pub const DEFAULT_CAMERA_SPEED: u32 = 125_000;

pub const DEFAULT_CAMERA_W: u32 = DEFAULT_WINDOW_W;

pub const DEFAULT_CAMERA_H: u32 = DEFAULT_WINDOW_H;

/// People in the office that have a sprite of their own.
pub const NPC_COUNT: u32 = 4;

} // verus!
