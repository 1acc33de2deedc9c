//! Core of a terminal side-scrolling avoider game: a bird falls under
//! constant gravity and must pass through gaps in a stream of pipes that
//! scroll from right to left. This crate holds the verified simulation
//! core (physics, collision, obstacle stream, tick state machine); the
//! terminal adapter around it does the drawing and key polling.
//!
//! Positions and speeds are fixed-point integers in milli-cells: one
//! character cell is `SCALE` units, so a scroll speed of a fifth of a
//! cell per tick is 200.

pub mod bird;
pub mod collision;
mod rng;
pub mod state;
pub mod stream;
pub mod input;
pub mod pipe;
pub mod units;

use vstd::prelude::*;

verus! {

/// Fixed-point scale: milli-cell units per character cell.
pub const SCALE: i64 = 1000;

/// Horizontal thickness of a pipe, in cells.
pub const PIPE_WIDTH_CELLS: i64 = 10;

/// Horizontal distance between the trailing edge of one pipe and the
/// leading edge of the next, in cells.
pub const PIPE_GAP_CELLS: i64 = 12;

/// Vertical extent of the passable hole in a pipe, in rows.
pub const HOLE_HEIGHT_ROWS: i64 = 7;

/// Leftward shift of every pipe per tick, in milli-cells (a fifth of a cell).
pub const SCROLL_SPEED: i64 = 200;

/// Added to the bird's velocity every tick, in milli-rows per tick.
pub const GRAVITY: i64 = 5;

/// The velocity a jump sets, in milli-rows per tick (negative is upward).
pub const JUMP_IMPULSE: i64 = -200;

/// The bird's velocity at game start, in milli-rows per tick.
pub const INITIAL_VELOCITY: i64 = 200;

/// Lowest row (inclusive) from which a pipe's hole start is sampled.
pub const HOLE_MIN_ROW: i64 = 10;

/// Highest row (exclusive) from which a pipe's hole start is sampled.
pub const HOLE_MAX_ROW: i64 = 20;

/// Number of pipes the queue holds at all times.
pub const PIPE_COUNT: usize = 19;

} // verus!
