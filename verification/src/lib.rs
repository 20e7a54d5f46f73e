//! Verified simulation core for a virtual-pet world: a player-guided pet with
//! decaying vitality stats, a pursuing bug swarm that grows over time, a
//! pushable ball, and procedurally generated terrain chunks.
//!
//! All quantities are fixed-point integers:
//! - distances and velocities in milli-units (1/1000 of a world unit),
//! - angles in milliradians, normalized to `[0, TAU_MRAD)`,
//! - vitality stats in milli-points (`[0, STAT_MAX]` is the nominal range),
//! - wall-clock time in milliseconds.
//!
//! The per-frame rules (drag of 19/20, fixed accelerations, thresholds) are
//! exact in these units; trigonometry uses the library's own rational
//! approximation, exact by definition.

use vstd::prelude::*;

pub mod ball;
pub mod bug;
pub mod numeric;
pub mod pet;
pub mod session;
pub mod terrain;
pub mod trig;

verus! {

/// Largest coordinate the world model represents, in milli-units.
/// Positions are clamped into `[-WORLD_LIMIT, WORLD_LIMIT]` on every
/// integration step; the bound is far beyond anything a session can reach.
pub const WORLD_LIMIT: i64 = 1_000_000_000_000;

/// Latest instant the model represents, in milliseconds.
pub const TIME_LIMIT: i64 = 1_000_000_000_000_000;

/// Saturation bound for stat arithmetic that happens between the per-frame
/// clamps, in milli-points. Unreachable in practice; it only pins down the
/// behavior at the edge of the representable range.
pub const STAT_SAT: i64 = 1_000_000_000_000_000;

/// Nominal upper end of a vitality stat, in milli-points (100 points).
pub const STAT_MAX: i64 = 100_000;

/// Bound on the pet's per-axis velocity, in milli-units per frame.
pub const PET_VEL_LIMIT: i64 = 1200;

/// Bound on the ball's per-axis velocity, in milli-units per frame.
pub const BALL_VEL_LIMIT: i64 = 300;

/// Cap on the shared bug speed, in milli-units per frame.
pub const SPEED_LIMIT: i64 = 1_000_000_000;

/// One full turn in milliradians.
pub const TAU_MRAD: i64 = 6283;

/// Half a turn in milliradians.
pub const PI_MRAD: i64 = 3142;

/// A quarter turn in milliradians.
pub const HALF_PI_MRAD: i64 = 1571;

/// Side length of a terrain chunk, in milli-units (20 world units).
pub const CHUNK_SIZE: i64 = 20_000;

} // verus!
