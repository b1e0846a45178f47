use plumefoil::replay::{InputFrame, InputLog, ReplayHeader, REPLAY_PROTOCOL_VERSION};
use plumefoil::validation::{reaches_tick_overflow, validate_replay, FrameBounds, Rejection};

fn header(version: u32) -> ReplayHeader {
    ReplayHeader {
        protocol_version: version,
        game_version: "0.1.0".to_string(),
        course_id: "corsica_bay_slalom".to_string(),
        player_id: "Ka10U_verified".to_string(),
        seed: 987654321,
        efoil_setup_id: "plume_cruiser_110".to_string(),
        reported_time_bits: 5.0f64.to_bits(),
        game_mode: "slalom".to_string(),
    }
}

fn log_with_ticks(version: u32, ticks: &[u64]) -> InputLog {
    let mut log = InputLog::new(header(version));
    for &t in ticks {
        log.push_frame(InputFrame { tick: t, throttle_bits: 0, pitch_lean_bits: 0, roll_lean_bits: 0 });
    }
    log
}

const OK: FrameBounds = FrameBounds { throttle_in_range: true, pitch_in_range: true, roll_in_range: true, steady: true };

fn all_ok(n: usize) -> Vec<FrameBounds> {
    vec![OK; n]
}

#[test]
fn test_continuous_in_range_replay_is_certified() {
    let ticks: Vec<u64> = (0..300).collect();
    let log = log_with_ticks(REPLAY_PROTOCOL_VERSION, &ticks);
    assert_eq!(validate_replay(&log, &all_ok(300)), Ok(()));
}

#[test]
fn test_protocol_mismatch_is_refused_first() {
    let log = log_with_ticks(2, &[]);
    assert_eq!(
        validate_replay(&log, &all_ok(0)),
        Err(Rejection::ProtocolMismatch { found: 2, expected: 1 })
    );
}

#[test]
fn test_empty_replay_is_refused() {
    let log = log_with_ticks(1, &[]);
    assert_eq!(validate_replay(&log, &all_ok(0)), Err(Rejection::NoFrames));
}

#[test]
fn test_tick_gap_is_refused() {
    let log = log_with_ticks(1, &[10, 11, 13, 14]);
    assert_eq!(
        validate_replay(&log, &all_ok(4)),
        Err(Rejection::TickDiscontinuity { index: 2, expected: 12, got: 13 })
    );
}

#[test]
fn test_first_frame_may_start_at_any_tick() {
    let log = log_with_ticks(1, &[500, 501]);
    assert_eq!(validate_replay(&log, &all_ok(2)), Ok(()));
}

#[test]
fn test_each_out_of_range_input_is_refused_with_its_tick() {
    let log = log_with_ticks(1, &[4, 5, 6]);
    let mut b = all_ok(3);
    b[1].throttle_in_range = false;
    assert_eq!(validate_replay(&log, &b), Err(Rejection::ThrottleOutOfBounds { index: 1, tick: 5 }));
    let mut b = all_ok(3);
    b[2].pitch_in_range = false;
    assert_eq!(validate_replay(&log, &b), Err(Rejection::PitchOutOfBounds { index: 2, tick: 6 }));
    let mut b = all_ok(3);
    b[0].roll_in_range = false;
    assert_eq!(validate_replay(&log, &b), Err(Rejection::RollOutOfBounds { index: 0, tick: 4 }));
}

#[test]
fn test_jump_between_frames_is_refused() {
    let log = log_with_ticks(1, &[0, 1, 2]);
    let mut b = all_ok(3);
    b[2].steady = false;
    assert_eq!(validate_replay(&log, &b), Err(Rejection::UnnaturalDelta { index: 2, tick: 2 }));
}

#[test]
fn test_first_frame_has_no_jump_to_check() {
    let log = log_with_ticks(1, &[0, 1]);
    let mut b = all_ok(2);
    b[0].steady = false;
    assert_eq!(validate_replay(&log, &b), Ok(()));
}

#[test]
fn test_checks_run_in_order_within_a_frame() {
    let log = log_with_ticks(1, &[0, 5]);
    let bad = FrameBounds { throttle_in_range: false, pitch_in_range: false, roll_in_range: false, steady: false };
    assert_eq!(
        validate_replay(&log, &vec![OK, bad]),
        Err(Rejection::TickDiscontinuity { index: 1, expected: 1, got: 5 })
    );
    let log = log_with_ticks(1, &[0, 1]);
    assert_eq!(validate_replay(&log, &vec![OK, bad]), Err(Rejection::ThrottleOutOfBounds { index: 1, tick: 1 }));
    let pitch_and_roll = FrameBounds { pitch_in_range: false, roll_in_range: false, ..OK };
    assert_eq!(validate_replay(&log, &vec![OK, pitch_and_roll]), Err(Rejection::PitchOutOfBounds { index: 1, tick: 1 }));
    let roll_and_jump = FrameBounds { roll_in_range: false, steady: false, ..OK };
    assert_eq!(validate_replay(&log, &vec![OK, roll_and_jump]), Err(Rejection::RollOutOfBounds { index: 1, tick: 1 }));
}

#[test]
fn test_earliest_failing_frame_is_reported() {
    let log = log_with_ticks(1, &[0, 1, 2, 9]);
    let mut b = all_ok(4);
    b[1].pitch_in_range = false;
    assert_eq!(validate_replay(&log, &b), Err(Rejection::PitchOutOfBounds { index: 1, tick: 1 }));
}

#[test]
fn test_last_tick_at_maximum_is_fine() {
    let log = log_with_ticks(1, &[u64::MAX - 1, u64::MAX]);
    assert!(!reaches_tick_overflow(&log, &all_ok(2)));
    assert_eq!(validate_replay(&log, &all_ok(2)), Ok(()));
}

#[test]
fn test_tick_overflow_is_detected_only_when_reached() {
    let log = log_with_ticks(1, &[u64::MAX, 0]);
    assert!(reaches_tick_overflow(&log, &all_ok(2)));
    let mut b = all_ok(2);
    b[0].throttle_in_range = false;
    assert!(!reaches_tick_overflow(&log, &b));
    assert_eq!(validate_replay(&log, &b), Err(Rejection::ThrottleOutOfBounds { index: 0, tick: u64::MAX }));
    let old = log_with_ticks(3, &[u64::MAX, 0]);
    assert!(!reaches_tick_overflow(&old, &all_ok(2)));
}
