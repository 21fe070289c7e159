//! The constants of the game.
//!
//! A length is a whole number of millionths of a screen unit, a time a whole
//! number of microseconds, and a speed a whole number of units per second:
//! in one microsecond a sprite at speed `s` moves by `s` millionths of a unit.

use vstd::prelude::*;

verus! {

/// One screen unit.
pub const UNIT: i64 = 1_000_000;

/// Vertical speed of the player while a key is held, in units per second.
pub const PLAYER_SPEED: i64 = 400;

/// Speed at which the lane markers scroll to the left, in units per second.
pub const ROAD_SPEED: i64 = 400;

/// The road reaches this far above and below the centre line.
pub const ROAD_HALF_HEIGHT: i64 = 360_000_000;

/// A player no further than this from the centre line can be moved for one
/// frame of any length and still has a height that an `i64` holds.
pub const PLAYER_REACH: i64 = 9_000_000_000_000_000_000;

/// Horizontal position of the player, which never changes.
pub const PLAYER_X: i64 = -500_000_000;

/// A lane marker left of this line is moved back to the right.
pub const ROADLINE_EXIT: i64 = -675_000_000;

/// An obstacle left of this line is moved back to the right.
pub const OBSTACLE_EXIT: i64 = -800_000_000;

/// Health at the start of a run.
pub const STARTING_HEALTH: u8 = 5;

/// Time between two obstacles that the spawn timer adds, in microseconds.
pub const SPAWN_PERIOD: u32 = 3_000_000;

/// Number of obstacles in the scene at the start of a run.
pub const OBSTACLES_AT_START: usize = 8;

/// Fewest and most lane markers in the scene.
pub const ROADLINES_MIN: i64 = 8;
pub const ROADLINES_MAX: i64 = 17;

/// At the start a lane marker lies at most this far left or right of the centre.
pub const ROADLINE_START_REACH: i64 = 640_000_000;

/// The player banks by this many hundredths of a radian while it moves.
pub const BANK_STEP: i16 = 15;

/// Bounds of the three ranges that a run draws from: where a sprite that
/// scrolled off the left edge comes back, and how fast an obstacle scrolls.
pub const SPAWN_X_LOW: i64 = 800_000_000;
pub const SPAWN_X_HIGH: i64 = 1_600_000_000;
pub const SPAWN_Y_LOW: i64 = -360_000_000;
pub const SPAWN_Y_HIGH: i64 = 360_000_000;
pub const SPEED_LOW: i64 = 300;
pub const SPEED_HIGH: i64 = 1500;

} // verus!
