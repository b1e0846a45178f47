//! The certification rules that the headless validator applies to a replay
//! before a run reaches a leaderboard.
//!
//! The checks on the recorded input values themselves compare floating-point
//! numbers; the caller makes those comparisons and hands over, per frame, their
//! outcome in a [`FrameBounds`]. Everything else (the protocol version, the
//! frame count, the tick sequence, and which failure is reported first) is
//! decided here.

use vstd::prelude::*;

use crate::replay::{InputFrame, InputLog, LogModel, REPLAY_PROTOCOL_VERSION};

verus! {

/// Outcome of the floating-point checks on one frame.
#[derive(Clone, Copy, Debug, PartialEq, Eq, Structural)]
pub struct FrameBounds {
    /// The throttle lies in [0, 1].
    pub throttle_in_range: bool,
    /// The pitch lean lies in [-1, 1].
    pub pitch_in_range: bool,
    /// The roll lean lies in [-1, 1].
    pub roll_in_range: bool,
    /// Neither lean moved by more than 1.8 since the previous frame
    /// (not consulted for the first frame).
    pub steady: bool,
}

/// Why a replay is refused.
#[derive(Clone, Copy, Debug, PartialEq, Eq, Structural)]
pub enum Rejection {
    /// The replay was written under another protocol version.
    ProtocolMismatch { found: u32, expected: u32 },
    /// The replay holds no frames.
    NoFrames,
    /// The frame at `index` does not follow the previous frame's tick.
    TickDiscontinuity { index: usize, expected: u64, got: u64 },
    /// The throttle of the frame at `index` lies outside [0, 1].
    ThrottleOutOfBounds { index: usize, tick: u64 },
    /// The pitch lean of the frame at `index` lies outside [-1, 1].
    PitchOutOfBounds { index: usize, tick: u64 },
    /// The roll lean of the frame at `index` lies outside [-1, 1].
    RollOutOfBounds { index: usize, tick: u64 },
    /// A lean of the frame at `index` jumped by more than 1.8 in one tick.
    UnnaturalDelta { index: usize, tick: u64 },
}

/// The failure, if any, of the frame at `i`, checked in the validator's order:
/// tick continuity, throttle, pitch, roll, then the jump from the previous frame.
pub open spec fn frame_rejection(frames: Seq<InputFrame>, bounds: Seq<FrameBounds>, i: int) -> Option<Rejection> {
    let f = frames[i];
    let b = bounds[i];
    if i > 0 && f.tick != frames[i - 1].tick + 1 {
        Some(Rejection::TickDiscontinuity { index: i as usize, expected: (frames[i - 1].tick + 1) as u64, got: f.tick })
    } else if !b.throttle_in_range {
        Some(Rejection::ThrottleOutOfBounds { index: i as usize, tick: f.tick })
    } else if !b.pitch_in_range {
        Some(Rejection::PitchOutOfBounds { index: i as usize, tick: f.tick })
    } else if !b.roll_in_range {
        Some(Rejection::RollOutOfBounds { index: i as usize, tick: f.tick })
    } else if i > 0 && !b.steady {
        Some(Rejection::UnnaturalDelta { index: i as usize, tick: f.tick })
    } else {
        None
    }
}

/// The first failure among the frames from `i` on.
pub open spec fn first_rejection_from(frames: Seq<InputFrame>, bounds: Seq<FrameBounds>, i: int) -> Option<Rejection>
    decreases frames.len() - i,
{
    if i < 0 || i >= frames.len() {
        None
    } else {
        match frame_rejection(frames, bounds, i) {
            Some(r) => Some(r),
            None => first_rejection_from(frames, bounds, i + 1),
        }
    }
}

/// The validator's verdict on a replay.
pub open spec fn replay_verdict(log: LogModel, bounds: Seq<FrameBounds>) -> Result<(), Rejection> {
    if log.header.protocol_version != REPLAY_PROTOCOL_VERSION {
        Err(Rejection::ProtocolMismatch { found: log.header.protocol_version, expected: REPLAY_PROTOCOL_VERSION })
    } else if log.frames.len() == 0 {
        Err(Rejection::NoFrames)
    } else {
        match first_rejection_from(log.frames, bounds, 0) {
            Some(r) => Err(r),
            None => Ok(()),
        }
    }
}

/// The validator reaches the frame after one whose tick is `u64::MAX`: all
/// frames up to and including it pass, so the next expected tick overflows.
pub open spec fn tick_overflow_reached(log: LogModel, bounds: Seq<FrameBounds>) -> bool {
    &&& log.header.protocol_version == REPLAY_PROTOCOL_VERSION
    &&& exists|i: int|
        0 <= i < log.frames.len() - 1 && log.frames[i].tick == u64::MAX && (forall|j: int|
            0 <= j <= i ==> #[trigger] frame_rejection(log.frames, bounds, j) is None)
}

/// A replay that the validator certifies: current protocol, at least one
/// frame, consecutive ticks, every input in range, no jump between frames.
pub open spec fn replay_acceptable(log: LogModel, bounds: Seq<FrameBounds>) -> bool {
    &&& log.header.protocol_version == REPLAY_PROTOCOL_VERSION
    &&& log.frames.len() > 0
    &&& forall|i: int| 0 < i < log.frames.len() ==> #[trigger] log.frames[i].tick == log.frames[i - 1].tick + 1
    &&& forall|i: int|
        0 <= i < log.frames.len() ==> (#[trigger] bounds[i]).throttle_in_range && bounds[i].pitch_in_range
            && bounds[i].roll_in_range
    &&& forall|i: int| 0 < i < log.frames.len() ==> (#[trigger] bounds[i]).steady
}

/// No frame from `i` on fails exactly when the scan from `i` finds nothing.
proof fn lemma_no_rejection_from(frames: Seq<InputFrame>, bounds: Seq<FrameBounds>, i: int)
    requires
        0 <= i <= frames.len(),
    ensures
        first_rejection_from(frames, bounds, i) is None <==> (forall|j: int|
            i <= j < frames.len() ==> #[trigger] frame_rejection(frames, bounds, j) is None),
    decreases frames.len() - i,
{
    if i < frames.len() {
        lemma_no_rejection_from(frames, bounds, i + 1);
        if first_rejection_from(frames, bounds, i) is None {
            assert forall|j: int| i <= j < frames.len() implies #[trigger] frame_rejection(frames, bounds, j) is None by {
                if j > i {
                    assert(frame_rejection(frames, bounds, j) is None);
                }
            }
        }
    }
}

/// The validator certifies a replay exactly when its protocol version is
/// current, it holds at least one frame, each tick follows the previous one by
/// one, every throttle, pitch and roll is in range, and no lean jumps between
/// consecutive frames. Such a replay never drives the tick count past
/// `u64::MAX`, so [`validate_replay`] accepts it as input.
pub proof fn lemma_certified_exactly_when_acceptable(log: LogModel, bounds: Seq<FrameBounds>)
    requires
        bounds.len() == log.frames.len(),
    ensures
        replay_verdict(log, bounds) is Ok <==> replay_acceptable(log, bounds),
        replay_acceptable(log, bounds) ==> !tick_overflow_reached(log, bounds),
{
    let frames = log.frames;
    if replay_acceptable(log, bounds) {
        assert forall|i: int| 0 <= i < frames.len() - 1 implies #[trigger] frames[i].tick != u64::MAX by {
            assert(frames[i + 1].tick == frames[i].tick + 1);
        }
    }
    if log.header.protocol_version == REPLAY_PROTOCOL_VERSION && frames.len() > 0 {
        lemma_no_rejection_from(frames, bounds, 0);
        if replay_verdict(log, bounds) is Ok {
            assert forall|i: int| 0 < i < frames.len() implies #[trigger] frames[i].tick == frames[i - 1].tick + 1 by {
                assert(frame_rejection(frames, bounds, i) is None);
            }
            assert forall|i: int| 0 <= i < frames.len() implies (#[trigger] bounds[i]).throttle_in_range
                && bounds[i].pitch_in_range && bounds[i].roll_in_range by {
                assert(frame_rejection(frames, bounds, i) is None);
            }
            assert forall|i: int| 0 < i < frames.len() implies (#[trigger] bounds[i]).steady by {
                assert(frame_rejection(frames, bounds, i) is None);
            }
        }
        if replay_acceptable(log, bounds) {
            assert forall|j: int| 0 <= j < frames.len() implies #[trigger] frame_rejection(frames, bounds, j) is None by {
                assert(bounds[j].throttle_in_range);
                if j > 0 {
                    assert(frames[j].tick == frames[j - 1].tick + 1);
                    assert(bounds[j].steady);
                }
            }
        }
    }
}

/// Every check that the validator makes on the frame at `j`, stated over the
/// ticks and the bounds themselves: the tick follows the previous one, the three
/// inputs are in range, and (after the first frame) no lean jumped.
pub open spec fn frame_checks_pass(frames: Seq<InputFrame>, bounds: Seq<FrameBounds>, j: int) -> bool {
    &&& j > 0 ==> frames[j].tick == frames[j - 1].tick + 1
    &&& bounds[j].throttle_in_range
    &&& bounds[j].pitch_in_range
    &&& bounds[j].roll_in_range
    &&& j > 0 ==> bounds[j].steady
}

proof fn lemma_frame_rejection_none_iff_pass(frames: Seq<InputFrame>, bounds: Seq<FrameBounds>, j: int)
    requires
        0 <= j < frames.len(),
        bounds.len() == frames.len(),
    ensures
        frame_rejection(frames, bounds, j) is None <==> frame_checks_pass(frames, bounds, j),
{
}

/// With every frame before `i` passing, the scan from the start finds what the scan from `i` finds.
proof fn lemma_scan_skips_passing_prefix(frames: Seq<InputFrame>, bounds: Seq<FrameBounds>, i: int)
    requires
        0 <= i <= frames.len(),
        forall|j: int| 0 <= j < i ==> #[trigger] frame_rejection(frames, bounds, j) is None,
    ensures
        first_rejection_from(frames, bounds, 0) == first_rejection_from(frames, bounds, i),
    decreases i,
{
    if i > 0 {
        lemma_scan_skips_passing_prefix(frames, bounds, i - 1);
        assert(frame_rejection(frames, bounds, i - 1) is None);
    }
}

/// A failure found by the scan from `i` is the failure of a frame `k >= i`
/// with every frame from `i` up to `k` passing.
proof fn lemma_scan_finds_first_failure(frames: Seq<InputFrame>, bounds: Seq<FrameBounds>, i: int) -> (k: int)
    requires
        0 <= i <= frames.len(),
        first_rejection_from(frames, bounds, i) is Some,
    ensures
        i <= k < frames.len(),
        forall|j: int| i <= j < k ==> #[trigger] frame_rejection(frames, bounds, j) is None,
        frame_rejection(frames, bounds, k) == first_rejection_from(frames, bounds, i),
    decreases frames.len() - i,
{
    if frame_rejection(frames, bounds, i) is Some {
        i
    } else {
        let k = lemma_scan_finds_first_failure(frames, bounds, i + 1);
        assert forall|j: int| i <= j < k implies #[trigger] frame_rejection(frames, bounds, j) is None by {
            if j > i {
                assert(frame_rejection(frames, bounds, j) is None);
            }
        }
        k
    }
}

/// What each refusal says of the replay, and which refusal each fault brings.
///
/// A protocol mismatch is reported exactly for a replay of another version,
/// with that version; an empty stream exactly for a current replay without
/// frames. Any other refusal names a frame `index` such that every earlier frame
/// passes all checks, every earlier check of that frame passes, and the named
/// check fails there: a tick that does not follow the previous one, then the
/// throttle, then the pitch lean, then the roll lean, then a lean jump. And
/// conversely, the first frame that fails a check is refused for the first of
/// its checks that fails.
pub proof fn lemma_refusal_names_the_first_failed_check(log: LogModel, bounds: Seq<FrameBounds>)
    requires
        bounds.len() == log.frames.len(),
        log.frames.len() <= usize::MAX,
    ensures
        log.header.protocol_version != REPLAY_PROTOCOL_VERSION ==> replay_verdict(log, bounds) == Err::<(), Rejection>(
            Rejection::ProtocolMismatch { found: log.header.protocol_version, expected: REPLAY_PROTOCOL_VERSION },
        ),
        replay_verdict(log, bounds) matches Err(Rejection::ProtocolMismatch { found, expected }) ==> found
            == log.header.protocol_version && expected == REPLAY_PROTOCOL_VERSION && found != expected,
        replay_verdict(log, bounds) == Err::<(), Rejection>(Rejection::NoFrames) <==> (log.header.protocol_version
            == REPLAY_PROTOCOL_VERSION && log.frames.len() == 0),
        replay_verdict(log, bounds) matches Err(Rejection::TickDiscontinuity { index, expected, got }) ==> {
            &&& log.header.protocol_version == REPLAY_PROTOCOL_VERSION
            &&& 0 < index < log.frames.len()
            &&& forall|j: int| 0 <= j < index ==> #[trigger] frame_checks_pass(log.frames, bounds, j)
            &&& got == log.frames[index as int].tick
            &&& expected == (log.frames[index - 1].tick + 1) as u64
            &&& got != log.frames[index - 1].tick + 1
        },
        replay_verdict(log, bounds) matches Err(Rejection::ThrottleOutOfBounds { index, tick }) ==> {
            &&& log.header.protocol_version == REPLAY_PROTOCOL_VERSION
            &&& 0 <= index < log.frames.len()
            &&& forall|j: int| 0 <= j < index ==> #[trigger] frame_checks_pass(log.frames, bounds, j)
            &&& tick == log.frames[index as int].tick
            &&& index > 0 ==> log.frames[index as int].tick == log.frames[index - 1].tick + 1
            &&& !bounds[index as int].throttle_in_range
        },
        replay_verdict(log, bounds) matches Err(Rejection::PitchOutOfBounds { index, tick }) ==> {
            &&& log.header.protocol_version == REPLAY_PROTOCOL_VERSION
            &&& 0 <= index < log.frames.len()
            &&& forall|j: int| 0 <= j < index ==> #[trigger] frame_checks_pass(log.frames, bounds, j)
            &&& tick == log.frames[index as int].tick
            &&& index > 0 ==> log.frames[index as int].tick == log.frames[index - 1].tick + 1
            &&& bounds[index as int].throttle_in_range
            &&& !bounds[index as int].pitch_in_range
        },
        replay_verdict(log, bounds) matches Err(Rejection::RollOutOfBounds { index, tick }) ==> {
            &&& log.header.protocol_version == REPLAY_PROTOCOL_VERSION
            &&& 0 <= index < log.frames.len()
            &&& forall|j: int| 0 <= j < index ==> #[trigger] frame_checks_pass(log.frames, bounds, j)
            &&& tick == log.frames[index as int].tick
            &&& index > 0 ==> log.frames[index as int].tick == log.frames[index - 1].tick + 1
            &&& bounds[index as int].throttle_in_range
            &&& bounds[index as int].pitch_in_range
            &&& !bounds[index as int].roll_in_range
        },
        replay_verdict(log, bounds) matches Err(Rejection::UnnaturalDelta { index, tick }) ==> {
            &&& log.header.protocol_version == REPLAY_PROTOCOL_VERSION
            &&& 0 < index < log.frames.len()
            &&& forall|j: int| 0 <= j < index ==> #[trigger] frame_checks_pass(log.frames, bounds, j)
            &&& tick == log.frames[index as int].tick
            &&& log.frames[index as int].tick == log.frames[index - 1].tick + 1
            &&& bounds[index as int].throttle_in_range
            &&& bounds[index as int].pitch_in_range
            &&& bounds[index as int].roll_in_range
            &&& !bounds[index as int].steady
        },
        forall|i: int|
            log.header.protocol_version == REPLAY_PROTOCOL_VERSION && 0 <= i < log.frames.len() && (forall|j: int|
                0 <= j < i ==> #[trigger] frame_checks_pass(log.frames, bounds, j)) && !(#[trigger] frame_checks_pass(
                log.frames,
                bounds,
                i,
            )) ==> replay_verdict(log, bounds) == Err::<(), Rejection>(
                if i > 0 && log.frames[i].tick != log.frames[i - 1].tick + 1 {
                    Rejection::TickDiscontinuity {
                        index: i as usize,
                        expected: (log.frames[i - 1].tick + 1) as u64,
                        got: log.frames[i].tick,
                    }
                } else if !bounds[i].throttle_in_range {
                    Rejection::ThrottleOutOfBounds { index: i as usize, tick: log.frames[i].tick }
                } else if !bounds[i].pitch_in_range {
                    Rejection::PitchOutOfBounds { index: i as usize, tick: log.frames[i].tick }
                } else if !bounds[i].roll_in_range {
                    Rejection::RollOutOfBounds { index: i as usize, tick: log.frames[i].tick }
                } else {
                    Rejection::UnnaturalDelta { index: i as usize, tick: log.frames[i].tick }
                },
            ),
{
    let frames = log.frames;
    if log.header.protocol_version == REPLAY_PROTOCOL_VERSION && frames.len() > 0 {
        if first_rejection_from(frames, bounds, 0) is Some {
            let k = lemma_scan_finds_first_failure(frames, bounds, 0);
            assert forall|j: int| 0 <= j < k implies #[trigger] frame_checks_pass(frames, bounds, j) by {
                assert(frame_rejection(frames, bounds, j) is None);
                lemma_frame_rejection_none_iff_pass(frames, bounds, j);
            }
            assert(0 <= k < frames.len());
        }
        assert forall|i: int|
            0 <= i < frames.len() && (forall|j: int| 0 <= j < i ==> #[trigger] frame_checks_pass(frames, bounds, j))
                && !(#[trigger] frame_checks_pass(frames, bounds, i)) implies first_rejection_from(frames, bounds, 0)
            == frame_rejection(frames, bounds, i) by {
            assert forall|j: int| 0 <= j < i implies #[trigger] frame_rejection(frames, bounds, j) is None by {
                assert(frame_checks_pass(frames, bounds, j));
                lemma_frame_rejection_none_iff_pass(frames, bounds, j);
            }
            lemma_scan_skips_passing_prefix(frames, bounds, i);
            lemma_frame_rejection_none_iff_pass(frames, bounds, i);
        }
    }
}

/// The failure, if any, of the frame at `i` alone.
fn check_frame(replay: &InputLog, bounds: &Vec<FrameBounds>, i: usize) -> (r: Option<Rejection>)
    requires
        bounds@.len() == replay@.frames.len(),
        i < replay@.frames.len(),
        i > 0 ==> replay@.frames[i - 1].tick < u64::MAX,
    ensures
        r == frame_rejection(replay@.frames, bounds@, i as int),
{
    let f = replay.frames[i];
    let b = bounds[i];
    if i > 0 {
        let expected = replay.frames[i - 1].tick + 1;
        if f.tick != expected {
            return Some(Rejection::TickDiscontinuity { index: i, expected, got: f.tick });
        }
    }
    if !b.throttle_in_range {
        Some(Rejection::ThrottleOutOfBounds { index: i, tick: f.tick })
    } else if !b.pitch_in_range {
        Some(Rejection::PitchOutOfBounds { index: i, tick: f.tick })
    } else if !b.roll_in_range {
        Some(Rejection::RollOutOfBounds { index: i, tick: f.tick })
    } else if i > 0 && !b.steady {
        Some(Rejection::UnnaturalDelta { index: i, tick: f.tick })
    } else {
        None
    }
}

/// Certifies a replay's input stream, or says why it is refused.
///
/// `bounds[i]` holds the outcome of the floating-point checks on `replay.frames[i]`.
/// The replay is refused for the first of these that fails: a protocol version
/// other than [`REPLAY_PROTOCOL_VERSION`], an empty frame stream, then, frame by
/// frame, a tick that does not follow the previous one, a throttle, pitch or
/// roll out of range, or a lean that jumped since the previous frame.
pub fn validate_replay(replay: &InputLog, bounds: &Vec<FrameBounds>) -> (r: Result<(), Rejection>)
    requires
        bounds@.len() == replay@.frames.len(),
        !tick_overflow_reached(replay@, bounds@),
    ensures
        r == replay_verdict(replay@, bounds@),
{
    if replay.header.protocol_version != REPLAY_PROTOCOL_VERSION {
        return Err(Rejection::ProtocolMismatch {
            found: replay.header.protocol_version,
            expected: REPLAY_PROTOCOL_VERSION,
        });
    }
    if replay.frames.len() == 0 {
        return Err(Rejection::NoFrames);
    }
    let ghost frames = replay@.frames;
    let mut i: usize = 0;
    while i < replay.frames.len()
        invariant
            bounds@.len() == frames.len(),
            frames == replay@.frames,
            replay@.header.protocol_version == REPLAY_PROTOCOL_VERSION,
            frames.len() > 0,
            !tick_overflow_reached(replay@, bounds@),
            i <= frames.len(),
            forall|j: int| 0 <= j < i ==> #[trigger] frame_rejection(frames, bounds@, j) is None,
            first_rejection_from(frames, bounds@, 0) == first_rejection_from(frames, bounds@, i as int),
        decreases frames.len() - i,
    {
        proof {
            if i > 0 && frames[i - 1].tick == u64::MAX {
                let k = (i - 1) as int;
                assert(forall|j: int| 0 <= j <= k ==> #[trigger] frame_rejection(frames, bounds@, j) is None);
                assert(tick_overflow_reached(replay@, bounds@));
            }
        }
        match check_frame(replay, bounds, i) {
            Some(rejection) => {
                return Err(rejection);
            },
            None => {},
        }
        i = i + 1;
    }
    Ok(())
}

/// Tells whether validating this replay reaches a tick increment past
/// `u64::MAX`, which [`validate_replay`] leaves out: a frame with tick
/// `u64::MAX`, not the last, with every frame up to it passing its checks.
pub fn reaches_tick_overflow(replay: &InputLog, bounds: &Vec<FrameBounds>) -> (r: bool)
    requires
        bounds@.len() == replay@.frames.len(),
    ensures
        r == tick_overflow_reached(replay@, bounds@),
{
    if replay.header.protocol_version != REPLAY_PROTOCOL_VERSION {
        return false;
    }
    let ghost frames = replay@.frames;
    let n = replay.frames.len();
    let mut i: usize = 0;
    while i < n
        invariant
            n == frames.len(),
            bounds@.len() == frames.len(),
            frames == replay@.frames,
            replay@.header.protocol_version == REPLAY_PROTOCOL_VERSION,
            i <= n,
            forall|j: int| 0 <= j < i ==> #[trigger] frame_rejection(frames, bounds@, j) is None,
            forall|k: int| 0 <= k < i && k < n - 1 ==> #[trigger] frames[k].tick != u64::MAX,
        decreases n - i,
    {
        match check_frame(replay, bounds, i) {
            Some(_) => {
                proof {
                    assert forall|k: int|
                        0 <= k < frames.len() - 1 && frames[k].tick == u64::MAX implies !(forall|j: int|
                        0 <= j <= k ==> #[trigger] frame_rejection(frames, bounds@, j) is None) by {
                        if k >= i {
                            assert(frame_rejection(frames, bounds@, i as int) is Some);
                        }
                    }
                }
                return false;
            },
            None => {},
        }
        if replay.frames[i].tick == u64::MAX && i + 1 < n {
            proof {
                assert(forall|j: int| 0 <= j <= i ==> #[trigger] frame_rejection(frames, bounds@, j) is None);
            }
            return true;
        }
        i = i + 1;
    }
    false
}

} // verus!
