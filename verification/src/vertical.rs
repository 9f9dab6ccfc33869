//! Vertical motion: the jump and fall integrators.
//!
//! While a jump budget is present, each frame spends part of the budget as
//! upward displacement, at a fixed rise rate and clamped so the spend never
//! overshoots the remaining energy; the budget is removed the very frame its
//! energy reaches zero.  While no budget is present, the character descends
//! at a fixed fall rate and is clamped at the ground plane.  The two
//! integrators never run in the same frame: budget presence gates which one
//! does.

use vstd::prelude::*;

use vstd::arithmetic::mul::lemma_mul_is_distributive_add_other_way;

use crate::FALL_RATE;
use crate::RISE_RATE;

verus! {

/// Subtraction clamped at zero.
pub open spec fn clamped_sub(a: int, b: int) -> int {
    if a >= b {
        a - b
    } else {
        0
    }
}

/// The energy spent (and height gained) by one jump frame of elapsed time
/// `dt`: the rise capacity of the frame, clamped so it never overshoots the
/// remaining energy.
pub open spec fn jump_spend(energy: int, dt: int) -> int {
    if dt * RISE_RATE >= energy {
        energy
    } else {
        dt * RISE_RATE
    }
}

/// The energy left after one jump frame of elapsed time `dt`.
pub open spec fn jump_energy_after(energy: int, dt: int) -> int {
    clamped_sub(energy, dt * RISE_RATE)
}

/// One frame of the jump integrator on plain values: returns the new height
/// and the remaining energy.  Exactly the spent energy is added to the
/// height, so height plus energy is conserved.
pub fn integrate_jump(y: u64, energy: u64, dt: u64) -> (r: (u64, u64))
    requires
        dt * RISE_RATE <= u64::MAX,
        y + energy <= u64::MAX,
    ensures
        r.0 == y + jump_spend(energy as int, dt as int),
        r.1 == jump_energy_after(energy as int, dt as int),
        r.0 + r.1 == y + energy,
        r.1 <= energy,
{
    let rise: u64 = dt * RISE_RATE;
    let spend: u64 = if rise >= energy {
        energy
    } else {
        rise
    };
    (y + spend, energy - spend)
}

/// The height after one fall frame of elapsed time `dt`: a character above
/// the ground descends by the frame's fall capacity, clamped at the ground
/// plane; a character on the ground stays exactly there.
pub open spec fn fall_step(y: int, dt: int) -> int {
    if y > 0 {
        clamped_sub(y, dt * FALL_RATE)
    } else {
        y
    }
}

/// One frame of the fall integrator on a plain height value.
pub fn integrate_fall(y: u64, dt: u64) -> (ny: u64)
    requires
        dt * FALL_RATE <= u64::MAX,
    ensures
        ny == fall_step(y as int, dt as int),
        ny <= y,
{
    if y > 0 {
        let drop: u64 = dt * FALL_RATE;
        if drop >= y {
            0
        } else {
            y - drop
        }
    } else {
        y
    }
}

/// Every element of the sequence is nonnegative.
pub open spec fn all_nonneg(ds: Seq<int>) -> bool {
    forall|i: int| 0 <= i < ds.len() ==> ds[i] >= 0
}

/// The sum of a sequence of elapsed times.
pub open spec fn sum_of(ds: Seq<int>) -> int
    decreases ds.len(),
{
    if ds.len() == 0 {
        0
    } else {
        ds[0] + sum_of(ds.subrange(1, ds.len() as int))
    }
}

/// The energy left after jump-integrating a whole sequence of elapsed times.
pub open spec fn jump_energy_after_all(energy: int, ds: Seq<int>) -> int
    decreases ds.len(),
{
    if ds.len() == 0 {
        energy
    } else {
        jump_energy_after_all(jump_energy_after(energy, ds[0]), ds.subrange(1, ds.len() as int))
    }
}

/// The height after jump-integrating a whole sequence of elapsed times.
pub open spec fn jump_y_after_all(y: int, energy: int, ds: Seq<int>) -> int
    decreases ds.len(),
{
    if ds.len() == 0 {
        y
    } else {
        jump_y_after_all(
            y + jump_spend(energy, ds[0]),
            jump_energy_after(energy, ds[0]),
            ds.subrange(1, ds.len() as int),
        )
    }
}

/// The height after fall-integrating a whole sequence of elapsed times.
pub open spec fn fall_y_after_all(y: int, ds: Seq<int>) -> int
    decreases ds.len(),
{
    if ds.len() == 0 {
        y
    } else {
        fall_y_after_all(fall_step(y, ds[0]), ds.subrange(1, ds.len() as int))
    }
}

proof fn lemma_sum_nonneg(ds: Seq<int>)
    requires
        all_nonneg(ds),
    ensures
        sum_of(ds) >= 0,
    decreases ds.len(),
{
    if ds.len() > 0 {
        let rest = ds.subrange(1, ds.len() as int);
        assert(all_nonneg(rest)) by {
            assert forall|i: int| 0 <= i < rest.len() implies rest[i] >= 0 by {
                assert(rest[i] == ds[i + 1]);
            }
        }
        lemma_sum_nonneg(rest);
    }
}

/// Law: height plus remaining energy is conserved by jump integration, so
/// the total height gained by any sequence of frames is exactly the energy
/// spent, however the elapsed time is partitioned.
pub proof fn lemma_jump_conservation(y: int, energy: int, ds: Seq<int>)
    requires
        energy >= 0,
    ensures
        jump_y_after_all(y, energy, ds) + jump_energy_after_all(energy, ds) == y + energy,
        jump_energy_after_all(energy, ds) >= 0,
    decreases ds.len(),
{
    if ds.len() > 0 {
        let rest = ds.subrange(1, ds.len() as int);
        lemma_jump_conservation(
            y + jump_spend(energy, ds[0]),
            jump_energy_after(energy, ds[0]),
            rest,
        );
    }
}

/// Law: a jump budget of energy `e` is driven to exactly zero by any
/// sequence of elapsed times whose total rise capacity covers it, and the
/// height then ends exactly `e` above where it started, however the elapsed
/// time was partitioned across frames.
pub proof fn lemma_jump_budget_exhaustion(y: int, energy: int, ds: Seq<int>)
    requires
        energy >= 0,
        all_nonneg(ds),
        sum_of(ds) * RISE_RATE >= energy,
    ensures
        jump_energy_after_all(energy, ds) == 0,
        jump_y_after_all(y, energy, ds) == y + energy,
    decreases ds.len(),
{
    if ds.len() == 0 {
        assert(energy == 0);
    } else {
        let rest = ds.subrange(1, ds.len() as int);
        assert(all_nonneg(rest)) by {
            assert forall|i: int| 0 <= i < rest.len() implies rest[i] >= 0 by {
                assert(rest[i] == ds[i + 1]);
            }
        }
        lemma_sum_nonneg(rest);
        assert(sum_of(ds) == ds[0] + sum_of(rest));
        lemma_mul_is_distributive_add_other_way(RISE_RATE as int, ds[0], sum_of(rest));
        assert(sum_of(ds) * RISE_RATE == ds[0] * RISE_RATE + sum_of(rest) * RISE_RATE);
        lemma_jump_budget_exhaustion(
            y + jump_spend(energy, ds[0]),
            jump_energy_after(energy, ds[0]),
            rest,
        );
    }
    lemma_jump_conservation(y, energy, ds);
}

/// Law: the height never goes negative under fall integration.
pub proof fn lemma_fall_never_negative(y: int, ds: Seq<int>)
    requires
        y >= 0,
    ensures
        fall_y_after_all(y, ds) >= 0,
    decreases ds.len(),
{
    if ds.len() > 0 {
        lemma_fall_never_negative(fall_step(y, ds[0]), ds.subrange(1, ds.len() as int));
    }
}

/// Law: from any height, a sequence of fall frames whose total fall capacity
/// covers it brings the height to exactly zero — and keeps it there, since a
/// character at the ground plane never moves again (the case `y == 0`).
pub proof fn lemma_fall_reaches_ground(y: int, ds: Seq<int>)
    requires
        y >= 0,
        all_nonneg(ds),
        sum_of(ds) * FALL_RATE >= y,
    ensures
        fall_y_after_all(y, ds) == 0,
    decreases ds.len(),
{
    if ds.len() == 0 {
        assert(y == 0);
    } else {
        let rest = ds.subrange(1, ds.len() as int);
        assert(all_nonneg(rest)) by {
            assert forall|i: int| 0 <= i < rest.len() implies rest[i] >= 0 by {
                assert(rest[i] == ds[i + 1]);
            }
        }
        lemma_sum_nonneg(rest);
        assert(sum_of(ds) == ds[0] + sum_of(rest));
        lemma_mul_is_distributive_add_other_way(FALL_RATE as int, ds[0], sum_of(rest));
        assert(sum_of(ds) * FALL_RATE == ds[0] * FALL_RATE + sum_of(rest) * FALL_RATE);
        lemma_fall_reaches_ground(fall_step(y, ds[0]), rest);
    }
}

} // verus!
