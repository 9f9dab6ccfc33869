//! Movement state classification and facing.
//!
//! Once per frame, after the integrators have run, the classifier picks
//! exactly one of the four movement states by a fixed priority, and the facing
//! flag is updated from edge-triggered horizontal-key transitions.

use vstd::prelude::*;

use crate::input::InputSnapshot;

verus! {

/// The four movement states.  Exactly one is active per character per frame;
/// it selects which animation clip is displayed.
#[derive(Clone, Copy, Debug, PartialEq, Eq, Structural)]
pub enum MovementState {
    Idle,
    Run,
    Jump,
    Fall,
}

/// The state chosen for a frame, by fixed priority: Jump while a jump budget
/// is present; else Fall while not grounded; else Run while any horizontal
/// movement key is held; else Idle.
pub open spec fn spec_classify(
    jumping: bool,
    grounded: bool,
    left_held: bool,
    right_held: bool,
) -> MovementState {
    if jumping {
        MovementState::Jump
    } else if !grounded {
        MovementState::Fall
    } else if left_held || right_held {
        MovementState::Run
    } else {
        MovementState::Idle
    }
}

/// Pick this frame's movement state from the jump-budget presence, the
/// grounded flag and the held movement keys.
pub fn classify(jumping: bool, grounded: bool, input: &InputSnapshot) -> (s: MovementState)
    ensures
        s == spec_classify(jumping, grounded, input.left_held, input.right_held),
{
    if jumping {
        MovementState::Jump
    } else if !grounded {
        MovementState::Fall
    } else if input.left_held || input.right_held {
        MovementState::Run
    } else {
        MovementState::Idle
    }
}

/// Law: Jump has the highest priority.  Whenever a jump budget is present the
/// classified state is Jump, whatever the grounded flag and the held keys say.
pub proof fn lemma_jump_has_priority(grounded: bool, left_held: bool, right_held: bool)
    ensures
        spec_classify(true, grounded, left_held, right_held) == MovementState::Jump,
{
}

/// The facing flag after a frame: true means the sprite is flipped to face
/// left.  It flips left on an edge press of a left key; it flips right on an
/// edge press of a right key with no left key held, and on the release of a
/// left key when no left key remains held but a right key is; otherwise it
/// keeps its value.
pub open spec fn spec_next_facing(facing_left: bool, input: InputSnapshot) -> bool {
    if input.left_just_pressed {
        true
    } else if input.right_just_pressed && !input.left_held {
        false
    } else if input.left_just_released && !input.left_held && input.right_held {
        false
    } else {
        facing_left
    }
}

/// Update the facing flag from this frame's input edges.  Facing changes
/// never affect the movement state.
pub fn update_facing(facing_left: bool, input: &InputSnapshot) -> (f: bool)
    ensures
        f == spec_next_facing(facing_left, *input),
{
    if input.left_just_pressed {
        true
    } else if input.right_just_pressed && !input.left_held {
        false
    } else if input.left_just_released && !input.left_held && input.right_held {
        false
    } else {
        facing_left
    }
}

} // verus!
