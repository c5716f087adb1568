use lcr_auto_configure::corrector::{calculate_corrections, invert_appropriate_positions};
use lcr_auto_configure::poses::{wanted_position_1, wanted_position_2};
use lcr_auto_configure::resolver::resolve_inversions;

#[test]
fn pose_targets() {
    assert_eq!(wanted_position_1(), vec![0, 0, 1024, 0, -1024, 0]);
    assert_eq!(wanted_position_2(), vec![1024, 1024, 0, -1024, 0, 1024]);
}

#[test]
fn resolver_all_clear_on_exact_pose() {
    let target = wanted_position_2();
    let flags = resolve_inversions(&target.clone(), &target);
    assert_eq!(flags, vec![false; 6]);
}

#[test]
fn resolver_flags_exactly_the_flipped_joint() {
    let target = wanted_position_2();
    for j in [0usize, 1, 3, 5] {
        // joints with a nonzero pose-2 target
        let mut observed = target.clone();
        observed[j] = -observed[j];
        let flags = resolve_inversions(&observed, &target);
        for i in 0..6 {
            assert_eq!(flags[i], i == j);
        }
    }
}

#[test]
fn inversion_keeps_flagged_and_negates_the_rest() {
    let pos = vec![10, -20, 30, -40, 50, -60];
    let inverted = vec![true, false, true, false, true, false];
    assert_eq!(invert_appropriate_positions(&pos, &inverted), vec![10, 20, 30, 40, 50, 60]);
}

// The worked correction example: quantized readings equal to the pose-1
// target with no joint inverted. Following the documented branches, each
// entry is negated and the target added, so every correction cancels to
// zero.
#[test]
fn corrections_on_pose_one_without_inversions() {
    let quantized = vec![0, 0, 1024, 0, -1024, 0];
    let inverted = vec![false; 6];
    let wanted = wanted_position_1();
    let corrections = calculate_corrections(&quantized, &inverted);
    for i in 0..6 {
        assert_eq!(corrections[i], -quantized[i] + wanted[i]);
    }
    assert_eq!(corrections, vec![0; 6]);
}

#[test]
fn corrections_follow_the_branch_formulas() {
    let quantized = vec![1024, -2048, 0, 2048, 0, -1024];
    let inverted = vec![true, false, false, true, false, false];
    let wanted = wanted_position_1();
    let corrections = calculate_corrections(&quantized, &inverted);
    for i in 0..6 {
        let expected = if inverted[i] {
            quantized[i] - wanted[i]
        } else {
            -quantized[i] + wanted[i]
        };
        assert_eq!(corrections[i], expected);
    }
    assert_eq!(corrections, vec![1024, 2048, 1024, 2048, -1024, 1024]);
}

// Reapplying each correction to the reading it came from recovers the
// target, whichever branch applied: homing leaves zero residual.
#[test]
fn corrections_cancel_to_the_target() {
    let quantized = vec![1024, -2048, 0, 2048, 0, -1024];
    let inverted = vec![true, false, false, true, false, false];
    let wanted = wanted_position_1();
    let corrections = calculate_corrections(&quantized, &inverted);
    for i in 0..6 {
        let corrected = if inverted[i] {
            quantized[i] - corrections[i]
        } else {
            quantized[i] + corrections[i]
        };
        assert_eq!(corrected, wanted[i]);
    }
}
