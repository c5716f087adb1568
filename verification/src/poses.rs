//! The two fixed reference poses, in quantized units: the calibration
//! targets the operator holds the arm in. Pose 1 is the homing reference;
//! pose 2 is the inversion-detection reference.

use vstd::prelude::*;

verus! {

/// Quantized target vector for pose 1, one entry per joint.
pub open spec fn pose1_target() -> Seq<int> {
    seq![0, 0, 1024, 0, -1024, 0]
}

/// Quantized target vector for pose 2, one entry per joint.
pub open spec fn pose2_target() -> Seq<int> {
    seq![1024, 1024, 0, -1024, 0, 1024]
}

/// The quantized position wanted in pose 1 for each joint.
pub fn wanted_position_1() -> (r: Vec<i32>)
    ensures
        r@.len() == 6,
        forall|i: int| 0 <= i < 6 ==> r@[i] as int == pose1_target()[i],
{
    let mut r: Vec<i32> = Vec::new();
    r.push(0);
    r.push(0);
    r.push(1024);
    r.push(0);
    r.push(-1024);
    r.push(0);
    r
}

/// The quantized position wanted in pose 2 for each joint.
pub fn wanted_position_2() -> (r: Vec<i32>)
    ensures
        r@.len() == 6,
        forall|i: int| 0 <= i < 6 ==> r@[i] as int == pose2_target()[i],
{
    let mut r: Vec<i32> = Vec::new();
    r.push(1024);
    r.push(1024);
    r.push(0);
    r.push(-1024);
    r.push(0);
    r.push(1024);
    r
}

/// Every pose-1 target entry is at most one quantum in magnitude.
pub proof fn lemma_pose1_small()
    ensures
        forall|i: int| 0 <= i < 6 ==> -1024 <= #[trigger] pose1_target()[i] <= 1024,
{
    assert forall|i: int| 0 <= i < 6 implies -1024 <= #[trigger] pose1_target()[i] <= 1024 by {
        assert(pose1_target()[i] == seq![0, 0, 1024, 0, -1024, 0][i]);
    }
}

} // verus!
