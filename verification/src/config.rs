//! World constants, in the crate's fixed-point units: positions in
//! micro-units, velocities in milli-units per second, times in milliseconds.

use vstd::prelude::*;

verus! {

/// Vertical position of the ground, in micro-units (screen coordinates grow
/// downward, so a body is above ground exactly when its position is smaller).
pub const GROUND_Y: i64 = 300_000_000;

/// Horizontal position of the player's bounding box, in micro-units.
pub const DINO_X: i64 = 50_000_000;

/// Width of the player's bounding box, in micro-units.
pub const DINO_WIDTH: i64 = 50_000_000;

/// Height of the player's bounding box, in micro-units.
pub const DINO_HEIGHT: i64 = 50_000_000;

/// Vertical position of every obstacle's bounding box, in micro-units.
pub const CACTUS_Y: i64 = 300_000_000;

/// Width of an obstacle's bounding box, in micro-units.
pub const CACTUS_WIDTH: i64 = 20_000_000;

/// Height of an obstacle's bounding box, in micro-units.
pub const CACTUS_HEIGHT: i64 = 40_000_000;

/// An obstacle whose horizontal position falls below this is off screen
/// and is removed, in micro-units.
pub const OFF_SCREEN_X: i64 = -20_000_000;

/// Velocity set by a jump, in milli-units per second (negative is upward).
pub const JUMP_VELOCITY: i64 = -12_000;

/// Releasing the jump key clamps an ascent to this velocity, in
/// milli-units per second, which makes short hops possible.
pub const SHORT_HOP_VELOCITY: i64 = -6_000;

/// Gravitational acceleration, in units per second per second.
pub const GRAVITY: i64 = 30;

/// World speed multiplier applied to every displacement per second.
pub const SPEED_SCALE: i64 = 60;

/// Default leftward speed of obstacles, in milli-units per second.
pub const DEFAULT_SPEED: i64 = 5_000;

/// Smallest spawn interval the spawner may draw, in milliseconds (inclusive).
pub const SPAWN_MIN_MS: i64 = 1_000;

/// Largest spawn interval the spawner may draw, in milliseconds (exclusive).
pub const SPAWN_MAX_MS: i64 = 2_000;

/// Largest frame time a tick accepts, in milliseconds; keeps every
/// intermediate product comfortably inside `i64`.
pub const DT_MAX_MS: i64 = 10_000;

/// Largest obstacle speed a world accepts, in milli-units per second.
pub const SPEED_MAX: i64 = 1_000_000;

/// Largest spawn position a world accepts, in micro-units.
pub const SPAWN_X_MAX: i64 = 1_000_000_000_000;

/// Largest magnitude a rectangle corner coordinate may have, in
/// micro-units; keeps the overlap test's sums inside `i64`.
pub const COORD_LIMIT: i64 = 2_000_000_000_000;

/// Largest rectangle width or height, in micro-units.
pub const SIZE_LIMIT: i64 = 1_000_000_000;

/// Lower bound on `y - velocity * velocity` for a well-formed body: the
/// quantity never decreases across an update except when a jump fires, and
/// a jump followed by one worst-case integration step lands exactly on this
/// bound. Its value is
/// `GROUND_Y - JUMP_VELOCITY * JUMP_VELOCITY + SPEED_SCALE * JUMP_VELOCITY * DT_MAX_MS`.
pub const PHI_FLOOR: i64 = -7_044_000_000;

} // verus!
