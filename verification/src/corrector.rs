//! Offset corrector: combines a quantized position vector with the resolved
//! inversion flags and the pose-1 target to produce the homing-offset
//! correction written back to each servo.
//!
//! A non-inverted joint's reading is negated before the target is added,
//! because its logical home direction is opposite the encoder's positive
//! direction; an inverted joint's reading is kept and the target subtracted.
//! The asymmetric branches keep the corrected zero pose consistent whichever
//! way the joint is mounted.

use crate::poses::{lemma_pose1_small, pose1_target, wanted_position_1};
use vstd::prelude::*;

verus! {

/// A reading with the physical-direction sign applied: kept for inverted
/// joints, negated otherwise.
pub open spec fn spec_invert_at(x: int, inv: bool) -> int {
    if inv {
        x
    } else {
        -x
    }
}

/// The homing-offset correction for one joint.
pub open spec fn spec_correct_at(x: int, inv: bool, t: int) -> int {
    if inv {
        x - t
    } else {
        -x + t
    }
}

/// The corrections that fit in a 32-bit signed integer, including the
/// intermediate sign-applied reading.
pub open spec fn correction_fits(x: int, inv: bool, t: int) -> bool {
    if inv {
        i32::MIN <= x - t <= i32::MAX
    } else {
        i32::MIN <= -x <= i32::MAX && i32::MIN <= -x + t <= i32::MAX
    }
}

/// Apply the physical-direction sign to each reading: inverted joints keep
/// theirs, all others are negated.
pub fn invert_appropriate_positions(pos: &Vec<i32>, inverted: &Vec<bool>) -> (r: Vec<i32>)
    requires
        pos@.len() == 6,
        inverted@.len() == 6,
        forall|i: int| 0 <= i < 6 && !inverted@[i] ==> pos@[i] != i32::MIN,
    ensures
        r@.len() == 6,
        forall|i: int| 0 <= i < 6 ==> r@[i] as int == spec_invert_at(pos@[i] as int, inverted@[i]),
{
    let mut r: Vec<i32> = Vec::new();
    let mut idx: usize = 0;
    while idx < 6
        invariant
            idx <= 6,
            pos@.len() == 6,
            inverted@.len() == 6,
            forall|i: int| 0 <= i < 6 && !inverted@[i] ==> pos@[i] != i32::MIN,
            r@.len() == idx,
            forall|i: int|
                0 <= i < idx ==> r@[i] as int == spec_invert_at(pos@[i] as int, inverted@[i]),
        decreases 6 - idx,
    {
        let v = if inverted[idx] {
            pos[idx]
        } else {
            -pos[idx]
        };
        r.push(v);
        idx = idx + 1;
    }
    r
}

/// Compute the homing-offset correction for every joint against the pose-1
/// target.
pub fn calculate_corrections(pos: &Vec<i32>, inverted: &Vec<bool>) -> (r: Vec<i32>)
    requires
        pos@.len() == 6,
        inverted@.len() == 6,
        forall|i: int|
            0 <= i < 6 ==> correction_fits(pos@[i] as int, inverted@[i], pose1_target()[i]),
    ensures
        r@.len() == 6,
        forall|i: int|
            0 <= i < 6 ==> r@[i] as int == spec_correct_at(
                pos@[i] as int,
                inverted@[i],
                pose1_target()[i],
            ),
{
    let wanted = wanted_position_1();
    let signed = invert_appropriate_positions(pos, inverted);
    let mut r: Vec<i32> = Vec::new();
    let mut idx: usize = 0;
    while idx < 6
        invariant
            idx <= 6,
            pos@.len() == 6,
            inverted@.len() == 6,
            signed@.len() == 6,
            wanted@.len() == 6,
            forall|i: int|
                0 <= i < 6 ==> correction_fits(pos@[i] as int, inverted@[i], pose1_target()[i]),
            forall|i: int|
                0 <= i < 6 ==> signed@[i] as int == spec_invert_at(pos@[i] as int, inverted@[i]),
            forall|i: int| 0 <= i < 6 ==> wanted@[i] as int == pose1_target()[i],
            r@.len() == idx,
            forall|i: int|
                0 <= i < idx ==> r@[i] as int == spec_correct_at(
                    pos@[i] as int,
                    inverted@[i],
                    pose1_target()[i],
                ),
        decreases 6 - idx,
    {
        let v = if inverted[idx] {
            signed[idx] - wanted[idx]
        } else {
            signed[idx] + wanted[idx]
        };
        r.push(v);
        idx = idx + 1;
    }
    r
}

/// Reapplying a correction to the quantized reading it was computed from
/// recovers the target exactly: an inverted joint's corrected reading is the
/// reading minus its offset, a non-inverted joint's is the reading plus its
/// offset, and both equal the target. Homing therefore leaves zero residual
/// error.
pub proof fn lemma_correction_cancels(x: int, inv: bool, t: int)
    ensures
        inv ==> x - spec_correct_at(x, inv, t) == t,
        !inv ==> x + spec_correct_at(x, inv, t) == t,
{
}

/// Corrections fit whenever every reading is within half the signed range
/// less one quantum, as every quantized in-range reading is.
pub proof fn lemma_correction_fits_bound(x: int, inv: bool, i: int)
    requires
        -0x7fff_f800 <= x <= 0x7fff_f800,
        0 <= i < 6,
    ensures
        correction_fits(x, inv, pose1_target()[i]),
{
    lemma_pose1_small();
}

} // verus!
