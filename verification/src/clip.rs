//! Animation clip descriptors and the per-state clip table.
//!
//! A clip is an immutable descriptor of an animation sequence: how many frames
//! it has and how long each frame lasts.  The table maps each movement state
//! to its clip; asking for a state that was never registered is a content bug
//! and is reported, not silently defaulted.

use vstd::prelude::*;

use crate::classify::MovementState;

verus! {

/// An immutable animation clip descriptor: a positive number of frames and a
/// positive per-frame duration in time units.
#[derive(Clone, Copy, Debug, PartialEq, Eq, Structural)]
pub struct AnimationClip {
    /// Number of frames in the clip's sequence.
    pub frame_count: usize,
    /// Duration of one frame, in time units (milliseconds).
    pub frame_time: u64,
}

impl AnimationClip {
    /// A clip is well formed when both of its fields are positive.
    pub open spec fn wf(self) -> bool {
        self.frame_count > 0 && self.frame_time > 0
    }

    /// Build a clip descriptor.
    pub fn new(frame_count: usize, frame_time: u64) -> (c: AnimationClip)
        requires
            frame_count > 0,
            frame_time > 0,
        ensures
            c.frame_count == frame_count,
            c.frame_time == frame_time,
            c.wf(),
    {
        AnimationClip { frame_count, frame_time }
    }
}

/// Reported when a movement state has no registered clip: a configuration
/// bug, surfaced so the host can log it while the rest of the frame goes on.
#[derive(Clone, Copy, Debug, PartialEq, Eq, Structural)]
pub struct MissingClipError {
    /// The state whose clip was requested and not found.
    pub state: MovementState,
}

/// Maps each movement state to its clip.  The state set is closed, so the
/// table is a tagged record with one slot per state rather than a dynamic
/// registry; registering a state twice overwrites the earlier entry.
#[derive(Clone, Copy, Debug, PartialEq, Eq, Structural)]
pub struct ClipTable {
    /// The clip registered for Idle, if any.
    pub idle: Option<AnimationClip>,
    /// The clip registered for Run, if any.
    pub run: Option<AnimationClip>,
    /// The clip registered for Jump, if any.
    pub jump: Option<AnimationClip>,
    /// The clip registered for Fall, if any.
    pub fall: Option<AnimationClip>,
}

impl ClipTable {
    /// The entry registered for a state, if any.
    pub open spec fn spec_get(self, state: MovementState) -> Option<AnimationClip> {
        match state {
            MovementState::Idle => self.idle,
            MovementState::Run => self.run,
            MovementState::Jump => self.jump,
            MovementState::Fall => self.fall,
        }
    }

    /// Every registered clip is well formed.
    pub open spec fn wf(self) -> bool {
        forall|s: MovementState| #[trigger] self.spec_get(s) matches Some(c) ==> c.wf()
    }

    /// All four states have a clip registered.
    pub open spec fn complete(self) -> bool {
        forall|s: MovementState| #[trigger] self.spec_get(s) is Some
    }

    /// An empty table, with no clip registered yet.
    pub fn new() -> (t: ClipTable)
        ensures
            forall|s: MovementState| t.spec_get(s) is None,
            t.wf(),
    {
        ClipTable { idle: None, run: None, jump: None, fall: None }
    }

    /// Register (or overwrite) the clip for one state; the other states keep
    /// their entries.
    pub fn add(&mut self, state: MovementState, clip: AnimationClip)
        requires
            old(self).wf(),
            clip.wf(),
        ensures
            final(self).spec_get(state) == Some(clip),
            forall|s: MovementState|
                s != state ==> final(self).spec_get(s) == old(self).spec_get(s),
            final(self).wf(),
    {
        match state {
            MovementState::Idle => self.idle = Some(clip),
            MovementState::Run => self.run = Some(clip),
            MovementState::Jump => self.jump = Some(clip),
            MovementState::Fall => self.fall = Some(clip),
        }
        proof {
            assert forall|s: MovementState|
                #[trigger] self.spec_get(s) matches Some(c) ==> c.wf() by {
                if s != state {
                    assert(self.spec_get(s) == old(self).spec_get(s));
                }
            }
        }
    }

    /// Look up the clip for a state.  Succeeds exactly when one was
    /// registered; otherwise reports which state was missing.
    pub fn get(&self, state: MovementState) -> (r: Result<AnimationClip, MissingClipError>)
        ensures
            r matches Ok(c) ==> self.spec_get(state) == Some(c),
            r matches Err(e) ==> self.spec_get(state) is None && e.state == state,
            r is Ok <==> self.spec_get(state) is Some,
    {
        let slot = match state {
            MovementState::Idle => &self.idle,
            MovementState::Run => &self.run,
            MovementState::Jump => &self.jump,
            MovementState::Fall => &self.fall,
        };
        match slot {
            Some(c) => Ok(*c),
            None => Err(MissingClipError { state }),
        }
    }
}

} // verus!
