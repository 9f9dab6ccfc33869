//! Position-based ground detection.
//!
//! The detector keeps one frame of memory: the previous frame's vertical
//! position.  A character counts as grounded exactly when its vertical
//! position did not change since that frame.  This is a deliberately crude
//! proxy for "resting": it is valid because the two vertical integrators are
//! the only sources of vertical motion and both clamp or zero out at rest.
//! It must run after the integrators have moved the position, comparing
//! against the value remembered before this frame's motion.

use vstd::prelude::*;

verus! {

/// One frame of memory for ground detection: the vertical position the
/// character had when the detector last ran.
#[derive(Clone, Copy, Debug, PartialEq, Eq, Structural)]
pub struct GroundDetector {
    /// The previous frame's vertical position, in millipixels.
    pub previous_y: u64,
}

impl GroundDetector {
    /// A fresh detector remembering the given starting height.
    pub fn new(start_y: u64) -> (d: GroundDetector)
        ensures
            d.previous_y == start_y,
    {
        GroundDetector { previous_y: start_y }
    }

    /// Compare this frame's vertical position against the remembered one and
    /// remember the new one for next frame.  Grounded is true exactly when
    /// the position did not change between the two consecutive frames.
    pub fn update(&mut self, current_y: u64) -> (grounded: bool)
        ensures
            grounded == (current_y == old(self).previous_y),
            final(self).previous_y == current_y,
    {
        let grounded = current_y == self.previous_y;
        self.previous_y = current_y;
        grounded
    }
}

} // verus!
