//! Movement, collision and animation core of a tile-based maze game: a
//! clamped tile grid with power-of-two coordinate mapping, a
//! collision-resolved movement controller over axis-aligned rectangles, a
//! ping-pong sprite-frame cycler, per-frame input snapshots and frame
//! timing. Every quantity is in whole world units or milliseconds; the
//! window, renderer, clock and asset loading live outside the library and
//! hand it plain values.

use vstd::prelude::*;

pub mod animation_sprite;
pub mod game_time;
pub mod input;
pub mod level;
pub mod level_object;
pub mod player;
pub mod sprite_sheet;
pub mod units;

verus! {

/// Scale factor from the 8-unit base sprite size up to world units.
pub const SCREEN_SCALE: u32 = 4;

/// Side length of one grid cell in world units. It is a power of two; the
/// coordinate mapping in `level` masks low bits and is only correct for
/// power-of-two cell sizes.
pub const GAME_SIZE: u32 = 8 * SCREEN_SCALE;

/// Conservative bound on world coordinates, half-sizes and per-frame
/// displacements. Sums of a handful of in-bound values stay inside `i32`,
/// which keeps every intermediate of the movement pipeline free of overflow.
pub const WORLD_BOUND: i32 = 0x1000_0000;

} // verus!
