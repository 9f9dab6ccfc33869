//! The per-character state and the fixed-order frame update.
//!
//! One call of [`Character::update`] performs a whole frame in the mandatory
//! order: input resolution (horizontal motion or jump trigger), the vertical
//! integrator (jump while a budget is present, otherwise fall), ground
//! detection against the previous frame's position, state classification and
//! facing, and finally the animation advance for whichever clip the
//! classifier selected.

use vstd::prelude::*;

use crate::JUMP_ENERGY;
use crate::MOVE_SPEED;
use crate::RISE_RATE;
use crate::animation::AnimationCursor;
use crate::animation::advanced_frame;
use crate::animation::advanced_time;
use crate::classify::MovementState;
use crate::classify::classify;
use crate::classify::spec_classify;
use crate::classify::spec_next_facing;
use crate::classify::update_facing;
use crate::clip::AnimationClip;
use crate::clip::ClipTable;
use crate::clip::MissingClipError;
use crate::ground::GroundDetector;
use crate::horizontal::move_horizontal;
use crate::horizontal::spec_move_horizontal;
use crate::input::InputSnapshot;
use crate::vertical::fall_step;
use crate::vertical::integrate_fall;
use crate::vertical::integrate_jump;
use crate::vertical::jump_energy_after;
use crate::vertical::jump_spend;

verus! {

/// The whole mutable state of one character.  Everything is a plain value;
/// the host renders from `state`, `cursor.frame_index`, `facing_left` and the
/// position.
#[derive(Clone, Copy, Debug)]
pub struct Character {
    /// Horizontal world position, in millipixels.
    pub x: i64,
    /// Vertical world position, in millipixels; never below the ground plane
    /// at zero.
    pub y: u64,
    /// True when the sprite is flipped to face left.
    pub facing_left: bool,
    /// Whether the character rested on the ground this frame.
    pub grounded: bool,
    /// One frame of position memory for ground detection.
    pub detector: GroundDetector,
    /// The jump budget: remaining upward capacity in millipixels, present
    /// only while the character is jumping.
    pub jump: Option<u64>,
    /// The movement state the classifier last selected.
    pub state: MovementState,
    /// The clip registered for that state when it was selected.
    pub clip: AnimationClip,
    /// The animation position within the active clip.
    pub cursor: AnimationCursor,
}

/// The jump budget after this frame's input resolution: an edge press of the
/// jump key creates a fresh budget, but only while none is present.
pub open spec fn spec_trigger_jump(jump: Option<u64>, input: InputSnapshot) -> Option<u64> {
    if input.jump_just_pressed && jump is None {
        Some(JUMP_ENERGY)
    } else {
        jump
    }
}

/// The vertical position after this frame's integrator: rising by the spent
/// energy while a budget is present, otherwise descending toward the ground
/// plane.
pub open spec fn spec_y_after_vertical(y: int, jump: Option<u64>, dt: int) -> int {
    match jump {
        Some(e) => y + jump_spend(e as int, dt),
        None => fall_step(y, dt),
    }
}

/// The jump budget after this frame's integrator: reduced by the spent
/// energy, and removed the very frame it reaches zero.
pub open spec fn spec_budget_after_vertical(jump: Option<u64>, dt: int) -> Option<u64> {
    match jump {
        Some(e) => if jump_energy_after(e as int, dt) == 0 {
            None
        } else {
            Some(jump_energy_after(e as int, dt) as u64)
        },
        None => None,
    }
}

impl Character {
    /// Internal consistency: the active clip is well formed, the frame index
    /// is inside it, and a present jump budget is positive and never above
    /// the fresh-jump capacity.
    pub open spec fn wf(self) -> bool {
        &&& self.clip.wf()
        &&& self.cursor.wf_for(self.clip)
        &&& (self.jump matches Some(e) ==> 0 < e <= JUMP_ENERGY)
    }

    /// Spawn a character at the origin: on the ground plane, facing right,
    /// grounded, idle, at frame zero.  Fails, reporting the Idle state, when
    /// no Idle clip is registered.
    pub fn spawn(clips: &ClipTable) -> (r: Result<Character, MissingClipError>)
        requires
            clips.wf(),
        ensures
            r is Ok <==> clips.spec_get(MovementState::Idle) is Some,
            r matches Ok(c) ==> ({
                &&& c.wf()
                &&& c.x == 0
                &&& c.y == 0
                &&& !c.facing_left
                &&& c.grounded
                &&& c.detector.previous_y == 0
                &&& c.jump is None
                &&& c.state == MovementState::Idle
                &&& Some(c.clip) == clips.spec_get(MovementState::Idle)
                &&& c.cursor.frame_index == 0
                &&& c.cursor.accumulated_time == 0
            }),
            r matches Err(e) ==> e.state == MovementState::Idle,
    {
        match clips.get(MovementState::Idle) {
            Ok(clip) => Ok(
                Character {
                    x: 0,
                    y: 0,
                    facing_left: false,
                    grounded: true,
                    detector: GroundDetector::new(0),
                    jump: None,
                    state: MovementState::Idle,
                    clip,
                    cursor: AnimationCursor::new(),
                },
            ),
            Err(e) => Err(e),
        }
    }

    /// Run one whole frame in the fixed order.
    ///
    /// On `Err` the requested state had no registered clip: the error names
    /// it, the state and active clip stay as they were, and the frame's
    /// animation still advances against the old clip, so one misconfigured
    /// state skips the swap without halting the character.
    pub fn update(&mut self, input: &InputSnapshot, dt: u64, clips: &ClipTable) -> (r: Result<
        (),
        MissingClipError,
    >)
        requires
            old(self).wf(),
            clips.wf(),
            dt * RISE_RATE <= u64::MAX,
            old(self).y + JUMP_ENERGY <= u64::MAX,
            old(self).x - dt * MOVE_SPEED >= i64::MIN,
            old(self).x + dt * MOVE_SPEED <= i64::MAX,
            old(self).cursor.accumulated_time + dt <= u64::MAX,
        ensures
            final(self).wf(),
            final(self).x == spec_move_horizontal(old(self).x as int, *input, dt as int),
            final(self).y == spec_y_after_vertical(
                old(self).y as int,
                spec_trigger_jump(old(self).jump, *input),
                dt as int,
            ),
            final(self).jump == spec_budget_after_vertical(
                spec_trigger_jump(old(self).jump, *input),
                dt as int,
            ),
            final(self).grounded == (final(self).y == old(self).detector.previous_y),
            final(self).detector.previous_y == final(self).y,
            final(self).facing_left == spec_next_facing(old(self).facing_left, *input),
            ({
                let s = spec_classify(
                    final(self).jump is Some,
                    final(self).grounded,
                    input.left_held,
                    input.right_held,
                );
                &&& (r is Ok <==> clips.spec_get(s) is Some)
                &&& (r matches Err(e) ==> e.state == s && final(self).state == old(self).state
                    && final(self).clip == old(self).clip)
                &&& (r is Ok ==> final(self).state == s && Some(final(self).clip)
                    == clips.spec_get(s))
            }),
            ({
                let c = final(self).clip;
                let idx0 = if r is Ok {
                    (old(self).cursor.frame_index as int) % (c.frame_count as int)
                } else {
                    old(self).cursor.frame_index as int
                };
                &&& final(self).cursor.accumulated_time == advanced_time(
                    old(self).cursor.accumulated_time as int,
                    dt as int,
                    c.frame_time as int,
                )
                &&& final(self).cursor.frame_index == advanced_frame(
                    old(self).cursor.accumulated_time as int,
                    dt as int,
                    idx0,
                    c,
                )
            }),
    {
        // Input resolution: a jump edge press takes the frame; otherwise the
        // held movement keys translate the character.
        self.x = move_horizontal(self.x, input, dt);
        if input.jump_just_pressed && self.jump.is_none() {
            self.jump = Some(JUMP_ENERGY);
        }

        // Vertical integrator: jump and fall are mutually exclusive, gated
        // by the presence of the budget.
        match self.jump {
            Some(e) => {
                let (ny, ne) = integrate_jump(self.y, e, dt);
                self.y = ny;
                self.jump = if ne == 0 {
                    None
                } else {
                    Some(ne)
                };
            },
            None => {
                self.y = integrate_fall(self.y, dt);
            },
        }

        // Ground detection: compare against the position remembered before
        // this frame's motion, then remember the new one.
        let grounded = self.detector.update(self.y);
        self.grounded = grounded;

        // Facing and state classification.
        self.facing_left = update_facing(self.facing_left, input);
        let next = classify(self.jump.is_some(), grounded, input);

        // Clip swap and animation advance.
        match clips.get(next) {
            Ok(c) => {
                self.state = next;
                self.clip = c;
                self.cursor.retarget(&c);
                self.cursor.advance(&c, dt);
                Ok(())
            },
            Err(e) => {
                self.cursor.advance(&self.clip, dt);
                Err(e)
            },
        }
    }
}

} // verus!
