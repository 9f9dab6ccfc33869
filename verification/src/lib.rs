//! Per-frame character-controller core for a 2D platformer.
//!
//! The core turns an input snapshot and an elapsed-time value into an updated
//! character: a movement state (idle / run / jump / fall), a world position, a
//! facing flag and an advancing animation frame index.  Rendering, asset
//! loading and real input devices belong to the host; the core works on plain
//! values only.
//!
//! All quantities are integers in fixed units: time in milliseconds and
//! distance in millipixels, so a rate given in pixels per second is numerically
//! a rate in millipixels per millisecond, and every displacement is the exact
//! product `elapsed * rate`.

use vstd::prelude::*;

pub mod animation;
pub mod character;
pub mod classify;
pub mod clip;
pub mod ground;
pub mod horizontal;
pub mod input;
pub mod vertical;

verus! {

/// Horizontal speed of a running character, in millipixels per millisecond
/// (equal to 100 pixels per second).
pub const MOVE_SPEED: u64 = 100;

/// Constant descent rate while falling, in millipixels per millisecond
/// (equal to 98 pixels per second).
pub const FALL_RATE: u64 = 98;

/// Ascent rate while a jump budget remains: twice the fall rate by design,
/// so ascent is faster than descent.
pub const RISE_RATE: u64 = 2 * FALL_RATE;

/// Upward displacement capacity granted to a fresh jump, in millipixels
/// (100 pixels in total).
pub const JUMP_ENERGY: u64 = 100000;

} // verus!
