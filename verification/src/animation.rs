//! Time-accumulator animation player.
//!
//! A cursor accumulates elapsed time and advances its frame index through the
//! active clip.  Advancement uses one floor division rather than a per-frame
//! decrement loop, so it stays correct under arbitrarily large elapsed times
//! (stutters).  On a clip change the frame index is re-taken modulo the new
//! clip's frame count rather than reset, which preserves continuity between
//! clips of the same length; the accumulated time carries across unchanged.

use vstd::prelude::*;

use vstd::arithmetic::div_mod::{
    lemma_add_mod_noop, lemma_div_multiples_vanish, lemma_mod_multiples_basic,
    lemma_mod_sub_multiples_vanish, lemma_small_mod,
};

use crate::clip::AnimationClip;

verus! {

/// Mutable per-character animation position: how far into the current frame
/// time has accumulated, and which frame of the active clip is displayed.
#[derive(Clone, Copy, Debug, PartialEq, Eq, Structural)]
pub struct AnimationCursor {
    /// Time accumulated toward the next frame advance, in time units.
    pub accumulated_time: u64,
    /// Index of the displayed frame within the active clip.
    pub frame_index: usize,
}

/// The accumulated time after advancing by `dt` against a clip whose frames
/// last `frame_time`: the remainder once whole frames are paid for, or the
/// plain sum when it does not yet exceed one frame duration.
pub open spec fn advanced_time(acc: int, dt: int, frame_time: int) -> int
    recommends
        frame_time > 0,
{
    if acc + dt > frame_time {
        (acc + dt) % frame_time
    } else {
        acc + dt
    }
}

/// The frame index after advancing by `dt`: moved forward by the number of
/// whole frame durations the accumulated time covers, wrapped modulo the
/// clip's frame count.
pub open spec fn advanced_frame(acc: int, dt: int, idx: int, clip: AnimationClip) -> int
    recommends
        clip.wf(),
{
    if acc + dt > clip.frame_time {
        (idx + (acc + dt) / (clip.frame_time as int)) % (clip.frame_count as int)
    } else {
        idx
    }
}

impl AnimationCursor {
    /// A cursor is well formed for a clip when its frame index is inside the
    /// clip's sequence.
    pub open spec fn wf_for(self, clip: AnimationClip) -> bool {
        self.frame_index < clip.frame_count
    }

    /// A fresh cursor: frame zero, nothing accumulated.
    pub fn new() -> (c: AnimationCursor)
        ensures
            c.accumulated_time == 0,
            c.frame_index == 0,
    {
        AnimationCursor { accumulated_time: 0, frame_index: 0 }
    }

    /// Advance the cursor by `dt` elapsed time units against the active clip.
    ///
    /// The frame index never reaches the clip's frame count, and afterward
    /// the accumulated time never exceeds one frame duration.
    pub fn advance(&mut self, clip: &AnimationClip, dt: u64)
        requires
            clip.wf(),
            old(self).wf_for(*clip),
            old(self).accumulated_time + dt <= u64::MAX,
        ensures
            final(self).accumulated_time == advanced_time(
                old(self).accumulated_time as int,
                dt as int,
                clip.frame_time as int,
            ),
            final(self).frame_index == advanced_frame(
                old(self).accumulated_time as int,
                dt as int,
                old(self).frame_index as int,
                *clip,
            ),
            final(self).accumulated_time <= clip.frame_time,
            final(self).wf_for(*clip),
    {
        let total: u64 = self.accumulated_time + dt;
        if total > clip.frame_time {
            let frames: u64 = total / clip.frame_time;
            let count: u64 = clip.frame_count as u64;
            let idx: u64 = self.frame_index as u64;
            let shift: u64 = frames % count;
            let new_idx: u64 = if idx >= count - shift {
                idx - (count - shift)
            } else {
                idx + shift
            };
            proof {
                let c = count as int;
                let i = idx as int;
                let f = frames as int;
                lemma_small_mod(idx as nat, count as nat);
                lemma_add_mod_noop(i, f, c);
                if i + shift >= c {
                    lemma_mod_sub_multiples_vanish(i + shift, c);
                    lemma_small_mod((i + shift - c) as nat, count as nat);
                } else {
                    lemma_small_mod((i + shift) as nat, count as nat);
                }
            }
            self.frame_index = new_idx as usize;
            self.accumulated_time = total % clip.frame_time;
        } else {
            self.accumulated_time = total;
        }
    }

    /// Switch the cursor to a (possibly different) clip: the frame index is
    /// re-taken modulo the new clip's frame count and the accumulated time is
    /// left untouched.
    pub fn retarget(&mut self, clip: &AnimationClip)
        requires
            clip.wf(),
        ensures
            final(self).frame_index == (old(self).frame_index as int) % (clip.frame_count
                as int),
            final(self).accumulated_time == old(self).accumulated_time,
            final(self).wf_for(*clip),
    {
        self.frame_index = self.frame_index % clip.frame_count;
    }
}

/// Law: advancing by zero elapsed time changes neither the accumulated time
/// nor the frame index.  The premise `acc <= frame_time` is the state the
/// player itself maintains: after any advancement the accumulated time never
/// exceeds one frame duration.
pub proof fn lemma_zero_elapsed_is_identity(acc: int, idx: int, clip: AnimationClip)
    requires
        clip.wf(),
        0 <= acc <= clip.frame_time,
    ensures
        advanced_time(acc, 0, clip.frame_time as int) == acc,
        advanced_frame(acc, 0, idx, clip) == idx,
{
}

/// Law: from a fresh accumulator, advancing by exactly `k` whole frame
/// durations moves the frame index forward by exactly `k` modulo the frame
/// count and leaves the accumulated time at zero.  `k == 1` is excluded: one
/// exact frame duration only fills the accumulator, since a frame rolls over
/// strictly after its duration has passed.
pub proof fn lemma_whole_frames_round_trip(k: nat, idx: int, clip: AnimationClip)
    requires
        clip.wf(),
        0 <= idx < clip.frame_count,
        k != 1,
    ensures
        advanced_time(0, k * clip.frame_time, clip.frame_time as int) == 0,
        advanced_frame(0, k * clip.frame_time, idx, clip) == (idx + k) % (clip.frame_count
            as int),
{
    let ft = clip.frame_time as int;
    let c = clip.frame_count as int;
    if k == 0 {
        assert(k * ft == 0) by (nonlinear_arith)
            requires
                k == 0,
        ;
        lemma_small_mod(idx as nat, c as nat);
    } else {
        assert(k * ft > ft) by (nonlinear_arith)
            requires
                k >= 2,
                ft > 0,
        ;
        lemma_mod_multiples_basic(k as int, ft);
        lemma_div_multiples_vanish(k as int, ft);
    }
}

} // verus!
