//! The per-frame input snapshot.
//!
//! The host resolves its physical keys to three logical keys — Left, Right and
//! Jump — and reports for each whether it is currently held, was pressed this
//! frame, or was released this frame.  The core never reads a device itself.

use vstd::prelude::*;

verus! {

/// A discrete snapshot of the logical keys for one frame.
///
/// `*_just_pressed` and `*_just_released` are edge flags: true only on the
/// exact frame the key changed, while `*_held` reports the level.
#[derive(Clone, Copy, Debug, PartialEq, Eq, Structural)]
pub struct InputSnapshot {
    /// A left movement key is currently held.
    pub left_held: bool,
    /// A right movement key is currently held.
    pub right_held: bool,
    /// A left movement key went down this frame.
    pub left_just_pressed: bool,
    /// A right movement key went down this frame.
    pub right_just_pressed: bool,
    /// A left movement key came up this frame.
    pub left_just_released: bool,
    /// A jump key went down this frame.
    pub jump_just_pressed: bool,
}

impl InputSnapshot {
    /// A frame on which no key is held and no edge fired.
    pub fn released() -> (s: InputSnapshot)
        ensures
            s == (InputSnapshot {
                left_held: false,
                right_held: false,
                left_just_pressed: false,
                right_just_pressed: false,
                left_just_released: false,
                jump_just_pressed: false,
            }),
    {
        InputSnapshot {
            left_held: false,
            right_held: false,
            left_just_pressed: false,
            right_just_pressed: false,
            left_just_released: false,
            jump_just_pressed: false,
        }
    }
}

} // verus!
