use lcr_auto_configure::codec::encode_i32_angle;
use lcr_auto_configure::orchestrator::{Action, CalState, Calibrator, Event};

fn encode_all(decoded: &[i32]) -> Vec<u32> {
    decoded.iter().map(|&d| encode_i32_angle(d)).collect()
}

// Simulated raw readings: the arm near pose 1 before homing, near pose 2
// with joints 0 and 3 physically inverted, and back near pose 1 with the
// joints left wherever the first pass put them.
fn pose1_raw() -> Vec<u32> {
    encode_all(&[3, -2, 1019, 5, -1030, 2])
}

fn pose2_raw() -> Vec<u32> {
    encode_all(&[-1020, 1015, -8, 1030, 6, 1018])
}

fn pose1_again_raw() -> Vec<u32> {
    encode_all(&[1021, -2050, 2, 1600, -6, -1022])
}

// The events of a full successful run, in order.
fn full_run_events() -> Vec<Event> {
    vec![
        Event::Proceed,                       // start
        Event::Proceed,                       // preparation done
        Event::Proceed,                       // operator holds pose 1
        Event::Proceed,                       // offsets zeroed
        Event::Positions(pose1_raw()),        // first homing read
        Event::Proceed,                       // offsets written
        Event::Proceed,                       // operator holds pose 2
        Event::Positions(pose2_raw()),        // drive-mode read
        Event::Proceed,                       // drive modes written
        Event::Proceed,                       // operator back in pose 1
        Event::Positions(pose1_again_raw()),  // final homing read
        Event::Proceed,                       // offsets written
    ]
}

#[test]
fn full_run_reaches_the_monitor() {
    let mut cal = Calibrator::new();
    assert_eq!(cal.current_state(), CalState::Start);

    assert_eq!(cal.step(Event::Proceed), Action::Prepare);
    assert_eq!(cal.step(Event::Proceed), Action::AwaitOperator);
    assert_eq!(cal.step(Event::Proceed), Action::ZeroOffsets);
    assert_eq!(cal.step(Event::Proceed), Action::ReadPositions);

    // First homing pass: computed as if nothing were inverted; readings sit
    // on the pose-1 target, so every correction cancels to zero.
    let act = cal.step(Event::Positions(pose1_raw()));
    assert_eq!(act, Action::WriteOffsets(vec![0; 6]));

    assert_eq!(cal.step(Event::Proceed), Action::AwaitOperator);
    assert_eq!(cal.step(Event::Proceed), Action::ReadPositions);

    // Drive-mode pass: joints 0 and 3 read the negative of their pose-2
    // target, so exactly their flags are set.
    let injected = vec![true, false, false, true, false, false];
    let act = cal.step(Event::Positions(pose2_raw()));
    assert_eq!(act, Action::WriteDriveModes(injected.clone()));
    assert_eq!(cal.inversion_flags(), injected);

    assert_eq!(cal.step(Event::Proceed), Action::AwaitOperator);
    assert_eq!(cal.step(Event::Proceed), Action::ReadPositions);

    // Final homing pass, with the resolved flags.
    let act = cal.step(Event::Positions(pose1_again_raw()));
    let offsets = match act {
        Action::WriteOffsets(o) => o,
        other => panic!("expected offsets, got {:?}", other),
    };

    // Zero residual: reapplying each offset to the quantized pose-1 reading
    // it was computed from recovers the pose-1 target exactly.
    let quantized = vec![1024, -2048, 0, 2048, 0, -1024];
    let pose1_target = vec![0, 0, 1024, 0, -1024, 0];
    for i in 0..6 {
        let corrected = if injected[i] {
            quantized[i] - offsets[i]
        } else {
            quantized[i] + offsets[i]
        };
        assert_eq!(corrected, pose1_target[i]);
    }

    // The run ends in the unbounded monitoring loop.
    assert_eq!(cal.step(Event::Proceed), Action::ReadPositions);
    assert_eq!(cal.current_state(), CalState::MonitorReading);
    let act = cal.step(Event::Positions(pose1_again_raw()));
    assert_eq!(act, Action::Report(vec![1021, -2050, 2, 1600, -6, -1022]));
    assert_eq!(cal.step(Event::Proceed), Action::ReadPositions);
    assert_eq!(cal.current_state(), CalState::MonitorReading);
}

#[test]
fn failure_at_every_state_aborts_without_further_writes() {
    let script = full_run_events();
    for cut in 0..=script.len() {
        let mut cal = Calibrator::new();
        for ev in script.iter().take(cut) {
            let act = cal.step(ev.clone());
            assert_ne!(act, Action::Abort);
        }
        assert_eq!(cal.step(Event::Failed), Action::Abort);
        assert_eq!(cal.current_state(), CalState::Aborted);
        // Nothing fed in afterwards makes it ask for anything again.
        assert_eq!(cal.step(Event::Proceed), Action::Abort);
        assert_eq!(cal.step(Event::Positions(pose1_raw())), Action::Abort);
        assert_eq!(cal.current_state(), CalState::Aborted);
    }
}

#[test]
fn unexpected_event_aborts() {
    let mut cal = Calibrator::new();
    assert_eq!(cal.step(Event::Proceed), Action::Prepare);
    // A read result arrives while a write acknowledgement was expected.
    assert_eq!(cal.step(Event::Positions(pose1_raw())), Action::Abort);
    assert_eq!(cal.current_state(), CalState::Aborted);
}

#[test]
fn short_reading_aborts() {
    let mut cal = Calibrator::new();
    for _ in 0..4 {
        cal.step(Event::Proceed);
    }
    assert_eq!(cal.current_state(), CalState::Pass1Reading);
    assert_eq!(cal.step(Event::Positions(vec![0, 0, 0])), Action::Abort);
    assert_eq!(cal.current_state(), CalState::Aborted);
}

#[test]
fn out_of_range_reading_aborts() {
    let mut cal = Calibrator::new();
    for _ in 0..4 {
        cal.step(Event::Proceed);
    }
    // Decodes to the most negative angle, which the correction arithmetic
    // cannot carry: treated as a malformed reading.
    let mut raw = pose1_raw();
    raw[2] = i32::MAX as u32;
    assert_eq!(cal.step(Event::Positions(raw)), Action::Abort);
    assert_eq!(cal.current_state(), CalState::Aborted);
}
