//! Calibration orchestrator: a strictly sequential state machine that
//! drives the two-pose homing procedure.
//!
//! The machine owns no transport. The caller performs each returned
//! [`Action`] against the servo bus (or the operator) and feeds the outcome
//! back in as an [`Event`]: `Proceed` for a completed write or an operator
//! confirmation, `Positions` for a completed read, `Failed` for any
//! transport error. A failure, a malformed reading, or an event that the
//! current state does not expect aborts the run: the machine moves to its
//! terminal `Aborted` state and never requests another transport operation.
//!
//! After the final homing pass the machine enters an unbounded monitoring
//! loop, alternating reads and reports for operator visual confirmation; it
//! has no natural exit.

use crate::codec::{read_i32_angle, spec_decode};
use crate::corrector::{
    calculate_corrections, correction_fits, lemma_correction_fits_bound, spec_correct_at,
};
use crate::poses::{pose1_target, pose2_target, wanted_position_2};
use crate::quantizer::{
    calculate_nearest_rounded_positions, lemma_quantize_in_range, quantize_fits, spec_quantize,
};
use crate::resolver::{resolve_inversions, spec_resolve};
use vstd::prelude::*;

verus! {

/// The states of the calibration procedure, in the order a successful run
/// passes through them.
#[derive(Clone, Copy, PartialEq, Eq, Structural, Debug)]
pub enum CalState {
    /// Nothing has happened yet.
    Start,
    /// The preparation writes (torque off, extended position mode, cleared
    /// drive modes and offsets) are in flight.
    Preparing,
    /// Waiting for the operator to hold the arm in pose 1.
    AwaitPose1,
    /// The first homing pass is clearing the homing offsets.
    Pass1Zeroing,
    /// The first homing pass is reading positions.
    Pass1Reading,
    /// The first homing pass is writing its offsets, computed as if no
    /// joint were inverted.
    Pass1Writing,
    /// Waiting for the operator to hold the arm in pose 2.
    AwaitPose2,
    /// The drive-mode pass is reading positions.
    DriveReading,
    /// The drive-mode pass is writing the resolved inversion flags.
    DriveWriting,
    /// Waiting for the operator to return the arm to pose 1.
    AwaitPose1Back,
    /// The final homing pass is reading positions.
    Pass2Reading,
    /// The final homing pass is writing its offsets, computed with the
    /// resolved inversion flags.
    Pass2Writing,
    /// The monitoring loop is reading positions.
    MonitorReading,
    /// The monitoring loop is reporting the last positions read.
    MonitorReporting,
    /// A failure ended the run; no further transport operation is issued.
    Aborted,
}

/// The outcome of the last action, reported back into the machine.
#[derive(Clone, PartialEq, Eq, Debug)]
pub enum Event {
    /// The last write completed, or the operator confirmed readiness.
    Proceed,
    /// The last read completed, with one raw counter value per joint.
    Positions(Vec<u32>),
    /// The last transport operation failed.
    Failed,
}

/// The next operation the caller is asked to perform.
#[derive(Clone, PartialEq, Eq, Debug)]
pub enum Action {
    /// Disable torque, select extended position mode, clear drive modes and
    /// homing offsets on every joint.
    Prepare,
    /// Block until the operator confirms the arm is in place.
    AwaitOperator,
    /// Write a zero homing offset to every joint.
    ZeroOffsets,
    /// Read the raw position of every joint.
    ReadPositions,
    /// Write these homing offsets, one per joint.
    WriteOffsets(Vec<i32>),
    /// Write these drive-mode flags, one per joint; true means inverted.
    WriteDriveModes(Vec<bool>),
    /// Display these signed positions to the operator.
    Report(Vec<i32>),
    /// Stop: the run is over and nothing more may be written.
    Abort,
}

/// A raw counter value whose decoded angle the whole correction pipeline
/// can carry without leaving the 32-bit signed range. Anything outside is
/// treated as a malformed reading.
pub open spec fn reading_in_range(raw: int) -> bool {
    -0x7fff_f9ff <= spec_decode(raw) <= 0x7fff_f9ff
}

/// A well-formed read result: one in-range value per joint.
pub open spec fn readings_ok(raw: Seq<u32>) -> bool {
    raw.len() == 6 && (forall|i: int| 0 <= i < 6 ==> reading_in_range(#[trigger] raw[i] as int))
}

/// The decoded signed angles of a read result.
pub open spec fn decoded_of(raw: Seq<u32>) -> Seq<int> {
    Seq::new(raw.len(), |i: int| spec_decode(raw[i] as int))
}

/// The decoded angles of a read result, snapped to the quantized grid.
pub open spec fn quantized_of(raw: Seq<u32>) -> Seq<int> {
    Seq::new(raw.len(), |i: int| spec_quantize(spec_decode(raw[i] as int)))
}

/// The homing-offset corrections for a read result under the given
/// inversion flags, against the pose-1 target.
pub open spec fn corrections_of(raw: Seq<u32>, inv: Seq<bool>) -> Seq<int> {
    Seq::new(raw.len(), |i: int| spec_correct_at(quantized_of(raw)[i], inv[i], pose1_target()[i]))
}

/// The all-clear flag vector the first homing pass assumes.
pub open spec fn no_inversions() -> Seq<bool> {
    Seq::new(6, |i: int| false)
}

/// A sequence of signed values as mathematical integers.
pub open spec fn ints_of(v: Seq<i32>) -> Seq<int> {
    Seq::new(v.len(), |i: int| v[i] as int)
}

/// The step outcome that ends the run: the machine is aborted, the flags
/// are kept, and the caller is told to stop.
pub open spec fn step_aborts(
    pre_inv: Seq<bool>,
    post_state: CalState,
    post_inv: Seq<bool>,
    act: Action,
) -> bool {
    post_state == CalState::Aborted && post_inv == pre_inv && act == Action::Abort
}

/// The full transition relation of the calibration procedure: what state
/// the machine moves to, what it remembers, and what it asks for, given
/// where it stood and what came back. Any event a state does not expect,
/// any failure, and any malformed reading aborts the run.
pub open spec fn step_spec(
    pre_state: CalState,
    pre_inv: Seq<bool>,
    ev: Event,
    post_state: CalState,
    post_inv: Seq<bool>,
    act: Action,
) -> bool {
    match (pre_state, ev) {
        (CalState::Start, Event::Proceed) => post_state == CalState::Preparing && post_inv
            == pre_inv && act == Action::Prepare,
        (CalState::Preparing, Event::Proceed) => post_state == CalState::AwaitPose1 && post_inv
            == pre_inv && act == Action::AwaitOperator,
        (CalState::AwaitPose1, Event::Proceed) => post_state == CalState::Pass1Zeroing && post_inv
            == pre_inv && act == Action::ZeroOffsets,
        (CalState::Pass1Zeroing, Event::Proceed) => post_state == CalState::Pass1Reading && post_inv
            == pre_inv && act == Action::ReadPositions,
        (CalState::Pass1Reading, Event::Positions(raw)) => if readings_ok(raw@) {
            &&& post_state == CalState::Pass1Writing
            &&& post_inv == pre_inv
            &&& act matches Action::WriteOffsets(c) && ints_of(c@) == corrections_of(
                raw@,
                no_inversions(),
            )
        } else {
            step_aborts(pre_inv, post_state, post_inv, act)
        },
        (CalState::Pass1Writing, Event::Proceed) => post_state == CalState::AwaitPose2 && post_inv
            == pre_inv && act == Action::AwaitOperator,
        (CalState::AwaitPose2, Event::Proceed) => post_state == CalState::DriveReading && post_inv
            == pre_inv && act == Action::ReadPositions,
        (CalState::DriveReading, Event::Positions(raw)) => if readings_ok(raw@) {
            &&& post_state == CalState::DriveWriting
            &&& post_inv == spec_resolve(quantized_of(raw@), pose2_target())
            &&& act matches Action::WriteDriveModes(f) && f@ == post_inv
        } else {
            step_aborts(pre_inv, post_state, post_inv, act)
        },
        (CalState::DriveWriting, Event::Proceed) => post_state == CalState::AwaitPose1Back
            && post_inv == pre_inv && act == Action::AwaitOperator,
        (CalState::AwaitPose1Back, Event::Proceed) => post_state == CalState::Pass2Reading
            && post_inv == pre_inv && act == Action::ReadPositions,
        (CalState::Pass2Reading, Event::Positions(raw)) => if readings_ok(raw@) {
            &&& post_state == CalState::Pass2Writing
            &&& post_inv == pre_inv
            &&& act matches Action::WriteOffsets(c) && ints_of(c@) == corrections_of(raw@, pre_inv)
        } else {
            step_aborts(pre_inv, post_state, post_inv, act)
        },
        (CalState::Pass2Writing, Event::Proceed) => post_state == CalState::MonitorReading
            && post_inv == pre_inv && act == Action::ReadPositions,
        (CalState::MonitorReading, Event::Positions(raw)) => if raw@.len() == 6 {
            &&& post_state == CalState::MonitorReporting
            &&& post_inv == pre_inv
            &&& act matches Action::Report(p) && ints_of(p@) == decoded_of(raw@)
        } else {
            step_aborts(pre_inv, post_state, post_inv, act)
        },
        (CalState::MonitorReporting, Event::Proceed) => post_state == CalState::MonitorReading
            && post_inv == pre_inv && act == Action::ReadPositions,
        _ => step_aborts(pre_inv, post_state, post_inv, act),
    }
}

/// The calibration state machine: the current state and the inversion
/// flags resolved so far (all clear until the drive-mode pass).
pub struct Calibrator {
    state: CalState,
    inverted: Vec<bool>,
}

impl Calibrator {
    /// The current state, for specifications.
    pub closed spec fn spec_state(&self) -> CalState {
        self.state
    }

    /// The inversion flags held by the machine, for specifications.
    pub closed spec fn spec_inverted(&self) -> Seq<bool> {
        self.inverted@
    }

    /// Well-formed: one inversion flag per joint.
    pub open spec fn wf(&self) -> bool {
        self.spec_inverted().len() == 6
    }

    /// A fresh machine, ready to start a run, with every flag clear.
    pub fn new() -> (c: Calibrator)
        ensures
            c.wf(),
            c.spec_state() == CalState::Start,
            c.spec_inverted() == no_inversions(),
    {
        let inverted = no_inversion_flags();
        proof {
            assert(inverted@ =~= no_inversions());
        }
        Calibrator { state: CalState::Start, inverted }
    }

    /// The current state.
    pub fn current_state(&self) -> (s: CalState)
        ensures
            s == self.spec_state(),
    {
        self.state
    }

    /// The inversion flags resolved so far.
    pub fn inversion_flags(&self) -> (v: Vec<bool>)
        ensures
            v@ == self.spec_inverted(),
    {
        let mut v: Vec<bool> = Vec::new();
        let mut idx: usize = 0;
        while idx < self.inverted.len()
            invariant
                idx <= self.inverted@.len(),
                v@.len() == idx,
                forall|i: int| 0 <= i < idx ==> v@[i] == self.inverted@[i],
            decreases self.inverted@.len() - idx,
        {
            v.push(self.inverted[idx]);
            idx = idx + 1;
        }
        proof {
            assert(v@ =~= self.spec_inverted());
        }
        v
    }

    /// Feed the outcome of the last action into the machine and get the
    /// next action to perform, as the transition relation prescribes.
    pub fn step(&mut self, ev: Event) -> (act: Action)
        requires
            old(self).wf(),
        ensures
            final(self).wf(),
            step_spec(
                old(self).spec_state(),
                old(self).spec_inverted(),
                ev,
                final(self).spec_state(),
                final(self).spec_inverted(),
                act,
            ),
    {
        match (self.state, ev) {
            (CalState::Start, Event::Proceed) => {
                self.state = CalState::Preparing;
                Action::Prepare
            },
            (CalState::Preparing, Event::Proceed) => {
                self.state = CalState::AwaitPose1;
                Action::AwaitOperator
            },
            (CalState::AwaitPose1, Event::Proceed) => {
                self.state = CalState::Pass1Zeroing;
                Action::ZeroOffsets
            },
            (CalState::Pass1Zeroing, Event::Proceed) => {
                self.state = CalState::Pass1Reading;
                Action::ReadPositions
            },
            (CalState::Pass1Reading, Event::Positions(raw)) => {
                match quantize_readings(&raw) {
                    Some(q) => {
                        let flags = no_inversion_flags();
                        proof {
                            assert(flags@ =~= no_inversions());
                            corrections_fit(&q);
                        }
                        let corr = calculate_corrections(&q, &flags);
                        proof {
                            assert(ints_of(corr@) =~= corrections_of(raw@, no_inversions()));
                        }
                        self.state = CalState::Pass1Writing;
                        Action::WriteOffsets(corr)
                    },
                    None => {
                        self.state = CalState::Aborted;
                        Action::Abort
                    },
                }
            },
            (CalState::Pass1Writing, Event::Proceed) => {
                self.state = CalState::AwaitPose2;
                Action::AwaitOperator
            },
            (CalState::AwaitPose2, Event::Proceed) => {
                self.state = CalState::DriveReading;
                Action::ReadPositions
            },
            (CalState::DriveReading, Event::Positions(raw)) => {
                match quantize_readings(&raw) {
                    Some(q) => {
                        let target = wanted_position_2();
                        let flags = resolve_inversions(&q, &target);
                        let flags_out = resolve_inversions(&q, &target);
                        proof {
                            assert(flags@ =~= spec_resolve(quantized_of(raw@), pose2_target()));
                            assert(flags_out@ =~= flags@);
                        }
                        self.inverted = flags;
                        self.state = CalState::DriveWriting;
                        Action::WriteDriveModes(flags_out)
                    },
                    None => {
                        self.state = CalState::Aborted;
                        Action::Abort
                    },
                }
            },
            (CalState::DriveWriting, Event::Proceed) => {
                self.state = CalState::AwaitPose1Back;
                Action::AwaitOperator
            },
            (CalState::AwaitPose1Back, Event::Proceed) => {
                self.state = CalState::Pass2Reading;
                Action::ReadPositions
            },
            (CalState::Pass2Reading, Event::Positions(raw)) => {
                match quantize_readings(&raw) {
                    Some(q) => {
                        proof {
                            corrections_fit(&q);
                        }
                        let corr = calculate_corrections(&q, &self.inverted);
                        proof {
                            assert(ints_of(corr@) =~= corrections_of(raw@, self.inverted@));
                        }
                        self.state = CalState::Pass2Writing;
                        Action::WriteOffsets(corr)
                    },
                    None => {
                        self.state = CalState::Aborted;
                        Action::Abort
                    },
                }
            },
            (CalState::Pass2Writing, Event::Proceed) => {
                self.state = CalState::MonitorReading;
                Action::ReadPositions
            },
            (CalState::MonitorReading, Event::Positions(raw)) => {
                if raw.len() == 6 {
                    let decoded = decode_readings(&raw);
                    proof {
                        assert(ints_of(decoded@) =~= decoded_of(raw@));
                    }
                    self.state = CalState::MonitorReporting;
                    Action::Report(decoded)
                } else {
                    self.state = CalState::Aborted;
                    Action::Abort
                }
            },
            (CalState::MonitorReporting, Event::Proceed) => {
                self.state = CalState::MonitorReading;
                Action::ReadPositions
            },
            _ => {
                self.state = CalState::Aborted;
                Action::Abort
            },
        }
    }
}

/// A flag vector with every joint not inverted.
fn no_inversion_flags() -> (r: Vec<bool>)
    ensures
        r@.len() == 6,
        forall|i: int| 0 <= i < 6 ==> !r@[i],
{
    let mut r: Vec<bool> = Vec::new();
    let mut idx: usize = 0;
    while idx < 6
        invariant
            idx <= 6,
            r@.len() == idx,
            forall|i: int| 0 <= i < idx ==> !r@[i],
        decreases 6 - idx,
    {
        r.push(false);
        idx = idx + 1;
    }
    r
}

/// Decode a six-element read result into signed angles.
fn decode_readings(raw: &Vec<u32>) -> (r: Vec<i32>)
    requires
        raw@.len() == 6,
    ensures
        r@.len() == 6,
        forall|i: int| 0 <= i < 6 ==> r@[i] as int == spec_decode(raw@[i] as int),
{
    let mut r: Vec<i32> = Vec::new();
    let mut idx: usize = 0;
    while idx < 6
        invariant
            idx <= 6,
            raw@.len() == 6,
            r@.len() == idx,
            forall|i: int| 0 <= i < idx ==> r@[i] as int == spec_decode(raw@[i] as int),
        decreases 6 - idx,
    {
        r.push(read_i32_angle(raw[idx]));
        idx = idx + 1;
    }
    r
}

/// Decode and quantize a read result, rejecting a malformed one: a wrong
/// element count, or an angle so large that the correction arithmetic could
/// leave the 32-bit range.
fn quantize_readings(raw: &Vec<u32>) -> (r: Option<Vec<i32>>)
    ensures
        r is Some <==> readings_ok(raw@),
        r matches Some(q) ==> {
            &&& q@.len() == 6
            &&& forall|i: int|
                0 <= i < 6 ==> #[trigger] q@[i] as int == quantized_of(raw@)[i] && -0x7fff_f800
                    <= q@[i] <= 0x7fff_f800
        },
{
    if raw.len() != 6 {
        return None;
    }
    let mut decoded: Vec<i32> = Vec::new();
    let mut idx: usize = 0;
    while idx < 6
        invariant
            idx <= 6,
            raw@.len() == 6,
            decoded@.len() == idx,
            forall|i: int| 0 <= i < idx ==> reading_in_range(#[trigger] raw@[i] as int),
            forall|i: int| 0 <= i < idx ==> decoded@[i] as int == spec_decode(raw@[i] as int),
        decreases 6 - idx,
    {
        let d = read_i32_angle(raw[idx]);
        if d < -0x7fff_f9ff || d > 0x7fff_f9ff {
            return None;
        }
        decoded.push(d);
        idx = idx + 1;
    }
    proof {
        assert forall|i: int| 0 <= i < 6 implies quantize_fits(decoded@[i] as int) by {
            lemma_quantize_in_range(decoded@[i] as int);
        }
    }
    let q = calculate_nearest_rounded_positions(&decoded);
    proof {
        assert forall|i: int|
            0 <= i < 6 implies #[trigger] q@[i] as int == quantized_of(raw@)[i] && -0x7fff_f800
            <= q@[i] <= 0x7fff_f800 by {
            lemma_quantize_in_range(decoded@[i] as int);
        }
    }
    Some(q)
}

/// Every quantized in-range reading admits a correction in every branch.
proof fn corrections_fit(q: &Vec<i32>)
    requires
        q@.len() == 6,
        forall|i: int| 0 <= i < 6 ==> -0x7fff_f800 <= #[trigger] q@[i] <= 0x7fff_f800,
    ensures
        forall|i: int, inv: bool|
            0 <= i < 6 ==> #[trigger] correction_fits(q@[i] as int, inv, pose1_target()[i]),
{
    assert forall|i: int, inv: bool|
        0 <= i < 6 implies #[trigger] correction_fits(q@[i] as int, inv, pose1_target()[i]) by {
        lemma_correction_fits_bound(q@[i] as int, inv, i);
    }
}

/// A transport failure, reported in any state, aborts the run: the machine
/// is left aborted and asks for nothing but a stop.
pub proof fn lemma_failure_aborts(
    pre_state: CalState,
    pre_inv: Seq<bool>,
    post_state: CalState,
    post_inv: Seq<bool>,
    act: Action,
)
    requires
        step_spec(pre_state, pre_inv, Event::Failed, post_state, post_inv, act),
    ensures
        post_state == CalState::Aborted,
        post_inv == pre_inv,
        act == Action::Abort,
{
}

/// Once aborted, the machine stays aborted and never requests another
/// transport operation, whatever is fed in.
pub proof fn lemma_abort_is_terminal(
    pre_inv: Seq<bool>,
    ev: Event,
    post_state: CalState,
    post_inv: Seq<bool>,
    act: Action,
)
    requires
        step_spec(CalState::Aborted, pre_inv, ev, post_state, post_inv, act),
    ensures
        post_state == CalState::Aborted,
        post_inv == pre_inv,
        act == Action::Abort,
{
}

} // verus!
