//! Inversion resolver: decides, per joint, whether its physical rotation
//! direction is reversed, by comparing the quantized positions observed in
//! pose 2 against the pose-2 target. A mirrored joint reads the negative of
//! its target, and since readings are already snapped to the quantized grid,
//! any mismatch signals a flipped mount.

use vstd::prelude::*;

verus! {

/// Per-joint inversion flags: a joint is inverted exactly when its observed
/// quantized position differs from the target.
pub open spec fn spec_resolve(observed: Seq<int>, target: Seq<int>) -> Seq<bool> {
    Seq::new(observed.len(), |i: int| observed[i] != target[i])
}

/// Compare observed quantized positions against a target vector, flagging
/// every joint that does not sit exactly on its target.
pub fn resolve_inversions(observed: &Vec<i32>, target: &Vec<i32>) -> (flags: Vec<bool>)
    requires
        observed@.len() == target@.len(),
    ensures
        flags@.len() == observed@.len(),
        forall|i: int| 0 <= i < observed@.len() ==> flags@[i] == (observed@[i] != target@[i]),
{
    let mut flags: Vec<bool> = Vec::new();
    let mut idx: usize = 0;
    while idx < observed.len()
        invariant
            idx <= observed@.len(),
            observed@.len() == target@.len(),
            flags@.len() == idx,
            forall|i: int| 0 <= i < idx ==> flags@[i] == (observed@[i] != target@[i]),
        decreases observed@.len() - idx,
    {
        flags.push(observed[idx] != target[idx]);
        idx = idx + 1;
    }
    flags
}

/// An arm that sits exactly on the target pose resolves with every flag
/// clear.
pub proof fn lemma_resolve_all_clear(observed: Seq<int>, target: Seq<int>)
    requires
        observed == target,
    ensures
        forall|i: int| 0 <= i < observed.len() ==> !spec_resolve(observed, target)[i],
{
}

/// Flipping the sign of one joint with a nonzero target sets exactly that
/// joint's flag.
pub proof fn lemma_resolve_single_flip(target: Seq<int>, j: int)
    requires
        0 <= j < target.len(),
        target[j] != 0,
    ensures
        forall|i: int|
            0 <= i < target.len() ==> ((#[trigger] spec_resolve(target.update(j, -target[j]), target)[i])
                <==> i == j),
{
    let observed = target.update(j, -target[j]);
    assert forall|i: int|
        0 <= i < target.len() implies (spec_resolve(observed, target)[i] <==> i == j) by {
        if i == j {
            assert(observed[j] == -target[j]);
        } else {
            assert(observed[i] == target[i]);
        }
    }
}

} // verus!
