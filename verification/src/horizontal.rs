//! Constant-speed horizontal movement.
//!
//! Held movement keys translate the character at a fixed speed.  An edge
//! press of the jump key takes exclusive priority for the frame's input, so
//! no horizontal motion happens on that frame; and if both directions are
//! held, left wins — only one branch ever applies per frame.

use vstd::prelude::*;

use crate::MOVE_SPEED;
use crate::input::InputSnapshot;

verus! {

/// The horizontal position after one frame: unchanged on a jump edge press,
/// else moved left by the frame's travel while a left key is held, else
/// moved right while a right key is held, else unchanged.
pub open spec fn spec_move_horizontal(x: int, input: InputSnapshot, dt: int) -> int {
    if input.jump_just_pressed {
        x
    } else if input.left_held {
        x - dt * MOVE_SPEED
    } else if input.right_held {
        x + dt * MOVE_SPEED
    } else {
        x
    }
}

/// Apply one frame of horizontal movement to a plain position value.
pub fn move_horizontal(x: i64, input: &InputSnapshot, dt: u64) -> (nx: i64)
    requires
        x - dt * MOVE_SPEED >= i64::MIN,
        x + dt * MOVE_SPEED <= i64::MAX,
    ensures
        nx == spec_move_horizontal(x as int, *input, dt as int),
{
    if input.jump_just_pressed {
        x
    } else if input.left_held {
        x - (dt * MOVE_SPEED) as i64
    } else if input.right_held {
        x + (dt * MOVE_SPEED) as i64
    } else {
        x
    }
}

/// Law: left takes priority — whenever a left key is held and no jump edge
/// fired, the frame moves the character leftward, whatever the right key is
/// doing.
pub proof fn lemma_left_priority(x: int, input: InputSnapshot, dt: int)
    requires
        input.left_held,
        !input.jump_just_pressed,
        dt > 0,
    ensures
        spec_move_horizontal(x, input, dt) < x,
{
    vstd::arithmetic::mul::lemma_mul_strictly_positive(dt, MOVE_SPEED as int);
}

} // verus!
