use plumefoil::replay::{InputFrame, InputLog, ReplayCodecError, ReplayHeader, REPLAY_PROTOCOL_VERSION};

fn frame(tick: u64, throttle: f32, pitch_lean: f32, roll_lean: f32) -> InputFrame {
    InputFrame {
        tick,
        throttle_bits: throttle.clamp(0.0, 1.0).to_bits(),
        pitch_lean_bits: pitch_lean.clamp(-1.0, 1.0).to_bits(),
        roll_lean_bits: roll_lean.clamp(-1.0, 1.0).to_bits(),
    }
}

fn small_header() -> ReplayHeader {
    ReplayHeader {
        protocol_version: 1,
        game_version: "v".to_string(),
        course_id: "c".to_string(),
        player_id: "".to_string(),
        seed: 0x0102,
        efoil_setup_id: "ab".to_string(),
        reported_time_bits: 2.5f64.to_bits(),
        game_mode: "m".to_string(),
    }
}

#[test]
fn test_replay_binary_roundtrip() {
    let header = ReplayHeader {
        protocol_version: REPLAY_PROTOCOL_VERSION,
        game_version: "0.1.0".to_string(),
        course_id: "norway_fjord_speedrun".to_string(),
        player_id: "Ka10U_pilot".to_string(),
        seed: 1337420,
        efoil_setup_id: "plume_race_100_mast85_wing800".to_string(),
        reported_time_bits: 42.195f64.to_bits(),
        game_mode: "slalom".to_string(),
    };

    let mut log = InputLog::new(header);
    for tick in 0..100 {
        let t = tick as f32 / 100.0;
        log.push_frame(frame(tick, t, 0.1 * t.sin(), -0.2 * t.cos()));
    }

    let encoded = log.to_bytes().expect("Serialization failed");
    assert!(!encoded.is_empty());

    let decoded = InputLog::from_bytes(&encoded).expect("Deserialization failed");
    assert_eq!(log, decoded);
    assert_eq!(decoded.frames.len(), 100);
}

#[test]
fn test_new_log_is_empty_and_keeps_header() {
    let log = InputLog::new(small_header());
    assert!(log.frames.is_empty());
    assert_eq!(log.header, small_header());
}

#[test]
fn test_push_frame_appends_in_order() {
    let mut log = InputLog::new(small_header());
    log.push_frame(frame(3, 0.5, 0.0, 0.0));
    log.push_frame(frame(4, 0.25, -0.5, 0.5));
    assert_eq!(log.frames, vec![frame(3, 0.5, 0.0, 0.0), frame(4, 0.25, -0.5, 0.5)]);
    assert_eq!(log.header, small_header());
}

fn expected_small_bytes() -> Vec<u8> {
    let mut b: Vec<u8> = Vec::new();
    b.extend_from_slice(&1u32.to_le_bytes());
    for s in ["v", "c", ""] {
        b.extend_from_slice(&(s.len() as u64).to_le_bytes());
        b.extend_from_slice(s.as_bytes());
    }
    b.extend_from_slice(&0x0102u64.to_le_bytes());
    b.extend_from_slice(&2u64.to_le_bytes());
    b.extend_from_slice(b"ab");
    b.extend_from_slice(&2.5f64.to_bits().to_le_bytes());
    b.extend_from_slice(&1u64.to_le_bytes());
    b.extend_from_slice(b"m");
    b.extend_from_slice(&1u64.to_le_bytes());
    b.extend_from_slice(&7u64.to_le_bytes());
    b.extend_from_slice(&0.5f32.to_bits().to_le_bytes());
    b.extend_from_slice(&(-0.25f32).to_bits().to_le_bytes());
    b.extend_from_slice(&1.0f32.to_bits().to_le_bytes());
    b
}

#[test]
fn test_to_bytes_writes_fields_in_order() {
    let mut log = InputLog::new(small_header());
    log.push_frame(frame(7, 0.5, -0.25, 1.0));
    assert_eq!(log.to_bytes().unwrap(), expected_small_bytes());
}

#[test]
fn test_from_bytes_reads_fields_in_order() {
    let log = InputLog::from_bytes(&expected_small_bytes()).unwrap();
    assert_eq!(log.header, small_header());
    assert_eq!(log.frames, vec![frame(7, 0.5, -0.25, 1.0)]);
}

#[test]
fn test_empty_log_roundtrip() {
    let log = InputLog::new(small_header());
    let bytes = log.to_bytes().unwrap();
    assert_eq!(InputLog::from_bytes(&bytes).unwrap(), log);
}

#[test]
fn test_from_bytes_rejects_truncated_input() {
    let bytes = expected_small_bytes();
    let r = InputLog::from_bytes(&bytes[..bytes.len() - 1]);
    match r {
        Err(ReplayCodecError::Bincode(e)) => assert!(matches!(*e, bincode::ErrorKind::Io(_))),
        Ok(_) => panic!("truncated replay was accepted"),
    }
    assert!(InputLog::from_bytes(&[]).is_err());
}

#[test]
fn test_from_bytes_rejects_invalid_utf8() {
    let mut bytes = expected_small_bytes();
    // the single byte of game_version sits after the version (4) and its length (8)
    bytes[12] = 0xff;
    match InputLog::from_bytes(&bytes) {
        Err(ReplayCodecError::Bincode(e)) => assert!(matches!(*e, bincode::ErrorKind::InvalidUtf8Encoding(_))),
        Ok(_) => panic!("invalid UTF-8 was accepted"),
    }
}

#[test]
fn test_nan_bits_survive_roundtrip() {
    let mut log = InputLog::new(small_header());
    log.push_frame(InputFrame { tick: 0, throttle_bits: 0x7fc0_0001, pitch_lean_bits: 0xffff_ffff, roll_lean_bits: 0 });
    let back = InputLog::from_bytes(&log.to_bytes().unwrap()).unwrap();
    assert_eq!(back.frames[0].throttle_bits, 0x7fc0_0001);
    assert_eq!(back.frames[0].pitch_lean_bits, 0xffff_ffff);
}

#[test]
fn test_encoding_length_with_empty_strings() {
    let header = ReplayHeader {
        protocol_version: 1,
        game_version: String::new(),
        course_id: String::new(),
        player_id: String::new(),
        seed: 0,
        efoil_setup_id: String::new(),
        reported_time_bits: 0,
        game_mode: String::new(),
    };
    let mut log = InputLog::new(header);
    assert_eq!(log.to_bytes().unwrap().len(), 68);
    log.push_frame(frame(0, 0.0, 0.0, 0.0));
    log.push_frame(frame(1, 1.0, 1.0, 1.0));
    assert_eq!(log.to_bytes().unwrap().len(), 108);
}

#[test]
fn test_every_strict_prefix_is_refused() {
    let mut log = InputLog::new(small_header());
    log.push_frame(frame(7, 0.5, -0.25, 1.0));
    log.push_frame(frame(8, 0.5, -0.25, 1.0));
    let bytes = log.to_bytes().unwrap();
    for k in 0..bytes.len() {
        assert!(InputLog::from_bytes(&bytes[..k]).is_err(), "prefix of length {k} was accepted");
    }
    assert_eq!(InputLog::from_bytes(&bytes).unwrap(), log);
}
