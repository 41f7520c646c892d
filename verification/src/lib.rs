//! A verified core for a two-paddle "pong" style arcade simulation.
//!
//! All quantities are fixed-point integers: one game unit is `FP_ONE`
//! (1000) raw ticks, so positions, speeds and time steps carry three
//! decimal places. The presentation layer (rendering, input polling,
//! window management) lives outside this crate and exchanges plain
//! values with it.

pub mod board;
pub mod entities;
pub mod fixed;
pub mod geom;
pub mod sim;

use vstd::prelude::*;

verus! {

/// One game unit, as a raw fixed-point value (three decimal places).
pub const FP_ONE: i64 = 1000;

/// Upper bound for configured sizes: collider half-extents, playfield
/// width and height, paddle offset and paddle speed (one million units).
pub const GEOM_MAX: i64 = 1_000_000_000;

/// The ball's speed saturates here instead of growing without bound
/// over a long rally.
pub const SPEED_CAP: i64 = 1_000_000_000;

/// Flat speed increase applied on each paddle hit (100 units/second).
pub const SPEED_INCREMENT: i64 = 100_000;

/// Longest accepted time step (1000 seconds).
pub const DT_MAX: i64 = 1_000_000;

/// Positions handed to a simulation tick stay within this magnitude.
pub const POS_MAX: i64 = 100_000_000_000_000;

/// Farthest any object moves in one tick: `SPEED_CAP / FP_ONE * DT_MAX`.
pub const MOVE_MAX: i64 = 1_000_000_000_000;

} // verus!
