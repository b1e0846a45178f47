//! The recorded input stream of one run: its header and its per-tick frames.

use vstd::prelude::*;

use crate::wire::{
    bincode_deserialize_record, bincode_record_bytes,
    bincode_record_from_bytes, bincode_serialize_record, FrameRecord, ReplayRecord,
};

verus! {

/// Current replay protocol format version.
pub const REPLAY_PROTOCOL_VERSION: u32 = 1;

/// A single discrete tick of recorded player input.
///
/// The three inputs are `f32` values in the game; they are kept here as their
/// bit patterns (`f32::to_bits`).
#[derive(Clone, Copy, Debug, PartialEq, Eq, Structural)]
pub struct InputFrame {
    /// Sequential physics tick index.
    pub tick: u64,
    /// Bit pattern of the motor throttle command.
    pub throttle_bits: u32,
    /// Bit pattern of the rider pitch weight shift.
    pub pitch_lean_bits: u32,
    /// Bit pattern of the rider roll weight shift.
    pub roll_lean_bits: u32,
}

/// Metadata header for a run replay.
#[derive(Clone, Debug, PartialEq)]
pub struct ReplayHeader {
    /// Protocol version for forwards/backwards compatibility.
    pub protocol_version: u32,
    /// Game build semver string (e.g. "0.1.0").
    pub game_version: String,
    /// Identifier for the course/level.
    pub course_id: String,
    /// Player identifier / public key hash.
    pub player_id: String,
    /// Deterministic PRNG seed used for wave spectrum and spawn conditions.
    pub seed: u64,
    /// Component configuration ID or serialized setup.
    pub efoil_setup_id: String,
    /// Bit pattern (`f64::to_bits`) of the reported finish time in seconds.
    pub reported_time_bits: u64,
    /// Reported game mode (e.g. "slalom").
    pub game_mode: String,
}

/// A complete recording of a player's run.
#[derive(Clone, Debug, PartialEq)]
pub struct InputLog {
    /// Replay metadata.
    pub header: ReplayHeader,
    /// Chronological stream of physics inputs.
    pub frames: Vec<InputFrame>,
}

/// Mathematical model of a [`ReplayHeader`]: its fields, strings as character sequences.
pub struct HeaderModel {
    pub protocol_version: u32,
    pub game_version: Seq<char>,
    pub course_id: Seq<char>,
    pub player_id: Seq<char>,
    pub seed: u64,
    pub efoil_setup_id: Seq<char>,
    pub reported_time_bits: u64,
    pub game_mode: Seq<char>,
}

/// Mathematical model of an [`InputLog`]: its header model and its frame sequence.
pub struct LogModel {
    pub header: HeaderModel,
    pub frames: Seq<InputFrame>,
}

impl View for ReplayHeader {
    type V = HeaderModel;

    open spec fn view(&self) -> HeaderModel {
        HeaderModel {
            protocol_version: self.protocol_version,
            game_version: self.game_version@,
            course_id: self.course_id@,
            player_id: self.player_id@,
            seed: self.seed,
            efoil_setup_id: self.efoil_setup_id@,
            reported_time_bits: self.reported_time_bits,
            game_mode: self.game_mode@,
        }
    }
}

impl View for InputLog {
    type V = LogModel;

    open spec fn view(&self) -> LogModel {
        LogModel { header: self.header@, frames: self.frames@ }
    }
}

/// Why a replay could not be turned into bytes or read back from them.
#[derive(Debug)]
pub enum ReplayCodecError {
    /// bincode refused the bytes; its error, kind and all, is carried as it came.
    Bincode(bincode::Error),
}

/// A header's fields as the tuple in which they are written.
pub open spec fn header_record(h: HeaderModel) -> (u32, Seq<char>, Seq<char>, Seq<char>, u64, Seq<char>, u64, Seq<char>) {
    (h.protocol_version, h.game_version, h.course_id, h.player_id, h.seed, h.efoil_setup_id, h.reported_time_bits, h.game_mode)
}

/// A frame as the tuple in which it is written.
pub open spec fn frame_record(f: InputFrame) -> (u64, u32, u32, u32) {
    (f.tick, f.throttle_bits, f.pitch_lean_bits, f.roll_lean_bits)
}

/// A whole log as the record in which it is written.
pub open spec fn log_record(m: LogModel) -> ((u32, Seq<char>, Seq<char>, Seq<char>, u64, Seq<char>, u64, Seq<char>), Seq<(u64, u32, u32, u32)>) {
    (header_record(m.header), m.frames.map_values(|f: InputFrame| frame_record(f)))
}

/// The header whose written tuple is `t`.
pub open spec fn header_of_record(t: (u32, Seq<char>, Seq<char>, Seq<char>, u64, Seq<char>, u64, Seq<char>)) -> HeaderModel {
    HeaderModel {
        protocol_version: t.0,
        game_version: t.1,
        course_id: t.2,
        player_id: t.3,
        seed: t.4,
        efoil_setup_id: t.5,
        reported_time_bits: t.6,
        game_mode: t.7,
    }
}

/// The frame whose written tuple is `t`.
pub open spec fn frame_of_record(t: (u64, u32, u32, u32)) -> InputFrame {
    InputFrame { tick: t.0, throttle_bits: t.1, pitch_lean_bits: t.2, roll_lean_bits: t.3 }
}

/// The log whose written record is `r`.
pub open spec fn log_of_record(r: ((u32, Seq<char>, Seq<char>, Seq<char>, u64, Seq<char>, u64, Seq<char>), Seq<(u64, u32, u32, u32)>)) -> LogModel {
    LogModel {
        header: header_of_record(r.0),
        frames: r.1.map_values(|t: (u64, u32, u32, u32)| frame_of_record(t)),
    }
}

/// The bytes of a log.
pub open spec fn log_bytes(m: LogModel) -> Seq<u8> {
    bincode_record_bytes(log_record(m))
}

/// The log that a byte string holds, if it holds one.
pub open spec fn log_from_bytes(bytes: Seq<u8>) -> Option<LogModel> {
    match bincode_record_from_bytes(bytes) {
        Some(r) => Some(log_of_record(r)),
        None => None,
    }
}

/// Reading back a log's record gives the log.
proof fn lemma_record_inverse(m: LogModel)
    ensures
        log_of_record(log_record(m)) == m,
{
    let back = log_of_record(log_record(m));
    assert(back.frames =~= m.frames);
    assert(back.header == m.header);
}

/// The bytes of a log are bincode's bytes of its header's fields in their
/// declaration order (version, game version, course, player, seed, setup,
/// reported time, game mode), followed by its frames, each written as tick,
/// throttle, pitch lean and roll lean, in that order.
pub proof fn lemma_bytes_hold_fields_in_declaration_order(m: LogModel)
    ensures
        log_bytes(m) == bincode_record_bytes(
            (
                (
                    m.header.protocol_version,
                    m.header.game_version,
                    m.header.course_id,
                    m.header.player_id,
                    m.header.seed,
                    m.header.efoil_setup_id,
                    m.header.reported_time_bits,
                    m.header.game_mode,
                ),
                Seq::new(
                    m.frames.len(),
                    |i: int| (m.frames[i].tick, m.frames[i].throttle_bits, m.frames[i].pitch_lean_bits, m.frames[i].roll_lean_bits),
                ),
            ),
        ),
{
    let frames = Seq::new(
        m.frames.len(),
        |i: int| (m.frames[i].tick, m.frames[i].throttle_bits, m.frames[i].pitch_lean_bits, m.frames[i].roll_lean_bits),
    );
    assert(log_record(m).1 =~= frames);
}

/// Reading bytes gives, when bincode decodes them, the log whose header fields
/// are the decoded record's fields in declaration order and whose frames are
/// the decoded frames field by field (tick, throttle, pitch lean, roll lean);
/// when bincode refuses them, no log.
pub proof fn lemma_read_takes_fields_in_declaration_order(bytes: Seq<u8>)
    ensures
        log_from_bytes(bytes) is Some <==> bincode_record_from_bytes(bytes) is Some,
        log_from_bytes(bytes) matches Some(m) ==> (bincode_record_from_bytes(bytes) matches Some(rec) && {
            &&& m.header.protocol_version == rec.0.0
            &&& m.header.game_version == rec.0.1
            &&& m.header.course_id == rec.0.2
            &&& m.header.player_id == rec.0.3
            &&& m.header.seed == rec.0.4
            &&& m.header.efoil_setup_id == rec.0.5
            &&& m.header.reported_time_bits == rec.0.6
            &&& m.header.game_mode == rec.0.7
            &&& m.frames.len() == rec.1.len()
            &&& forall|i: int|
                0 <= i < rec.1.len() ==> (#[trigger] m.frames[i]).tick == rec.1[i].0 && m.frames[i].throttle_bits
                    == rec.1[i].1 && m.frames[i].pitch_lean_bits == rec.1[i].2 && m.frames[i].roll_lean_bits == rec.1[i].3
        }),
{
}

impl InputLog {
    /// Starts an empty log under the given header.
    pub fn new(header: ReplayHeader) -> (log: Self)
        ensures
            log@.header == header@,
            log@.frames == Seq::<InputFrame>::empty(),
    {
        InputLog { header, frames: Vec::new() }
    }

    /// Appends a new input frame to the log.
    pub fn push_frame(&mut self, frame: InputFrame)
        ensures
            final(self)@.header == old(self)@.header,
            final(self)@.frames == old(self)@.frames.push(frame),
    {
        self.frames.push(frame);
    }

    /// Serializes the replay to a compact binary format using bincode.
    ///
    /// The bytes read back, through [`InputLog::from_bytes`], as this very log,
    /// and are never empty: at least 68 bytes plus 20 per frame.
    pub fn to_bytes(&self) -> (r: Result<Vec<u8>, ReplayCodecError>)
        ensures
            r is Ok,
            r matches Ok(bytes) ==> bytes@ == log_bytes(self@),
            r matches Ok(bytes) ==> log_from_bytes(bytes@) == Some(self@),
            r matches Ok(bytes) ==> bytes@.len() >= 68 + 20 * self@.frames.len(),
            r matches Ok(bytes) ==> bytes@.len() > 0,
            r matches Ok(bytes) ==> bytes@ == bincode_record_bytes(
                (
                    (
                        self.header.protocol_version,
                        self.header.game_version@,
                        self.header.course_id@,
                        self.header.player_id@,
                        self.header.seed,
                        self.header.efoil_setup_id@,
                        self.header.reported_time_bits,
                        self.header.game_mode@,
                    ),
                    Seq::new(
                        self.frames@.len(),
                        |i: int| (self.frames@[i].tick, self.frames@[i].throttle_bits, self.frames@[i].pitch_lean_bits, self.frames@[i].roll_lean_bits),
                    ),
                ),
            ),
    {
        let h = &self.header;
        let header = (
            h.protocol_version,
            h.game_version.clone(),
            h.course_id.clone(),
            h.player_id.clone(),
            h.seed,
            h.efoil_setup_id.clone(),
            h.reported_time_bits,
            h.game_mode.clone(),
        );
        let mut frames: Vec<FrameRecord> = Vec::new();
        let mut i: usize = 0;
        while i < self.frames.len()
            invariant
                i <= self.frames@.len(),
                frames@.len() == i,
                forall|j: int| 0 <= j < i ==> frames@[j] == frame_record(#[trigger] self.frames@[j]),
            decreases self.frames@.len() - i,
        {
            let f = self.frames[i];
            frames.push((f.tick, f.throttle_bits, f.pitch_lean_bits, f.roll_lean_bits));
            i = i + 1;
        }
        let record: ReplayRecord = (header, frames);
        proof {
            assert(record@.1 =~= self@.frames.map_values(|f: InputFrame| frame_record(f)));
            assert(record@ == log_record(self@));
            lemma_record_inverse(self@);
            lemma_bytes_hold_fields_in_declaration_order(self@);
        }
        match bincode_serialize_record(&record) {
            Ok(bytes) => Ok(bytes),
            Err(e) => Err(ReplayCodecError::Bincode(e)),
        }
    }

    /// Deserializes an input log from compact binary bytes.
    ///
    /// A truncated replay (a strict prefix of some log's bytes, the empty input
    /// among them) is refused, never read as a shorter log.
    pub fn from_bytes(bytes: &[u8]) -> (r: Result<Self, ReplayCodecError>)
        ensures
            r is Ok <==> log_from_bytes(bytes@) is Some,
            r matches Ok(log) ==> log_from_bytes(bytes@) == Some(log@),
            forall|m: LogModel, k: int|
                0 <= k < log_bytes(m).len() && bytes@ == #[trigger] log_bytes(m).take(k) ==> r is Err,
            r matches Ok(log) ==> (bincode_record_from_bytes(bytes@) matches Some(rec) && {
                &&& log.header.protocol_version == rec.0.0
                &&& log.header.game_version@ == rec.0.1
                &&& log.header.course_id@ == rec.0.2
                &&& log.header.player_id@ == rec.0.3
                &&& log.header.seed == rec.0.4
                &&& log.header.efoil_setup_id@ == rec.0.5
                &&& log.header.reported_time_bits == rec.0.6
                &&& log.header.game_mode@ == rec.0.7
                &&& log.frames@.len() == rec.1.len()
                &&& forall|i: int|
                    0 <= i < rec.1.len() ==> (#[trigger] log.frames@[i]).tick == rec.1[i].0 && log.frames@[i].throttle_bits
                        == rec.1[i].1 && log.frames@[i].pitch_lean_bits == rec.1[i].2 && log.frames@[i].roll_lean_bits
                        == rec.1[i].3
            }),
    {
        let decoded = bincode_deserialize_record(bytes);
        proof {
            lemma_read_takes_fields_in_declaration_order(bytes@);
            assert forall|m: LogModel, k: int|
                0 <= k < log_bytes(m).len() && bytes@ == #[trigger] log_bytes(m).take(k) implies decoded is Err by {
                assert(bytes@ == bincode_record_bytes(log_record(m)).take(k));
            }
        }
        match decoded {
            Ok(record) => {
                let ghost rv = record@;
                let (h, records) = record;
                let (protocol_version, game_version, course_id, player_id, seed, efoil_setup_id, reported_time_bits, game_mode) = h;
                let header = ReplayHeader {
                    protocol_version,
                    game_version,
                    course_id,
                    player_id,
                    seed,
                    efoil_setup_id,
                    reported_time_bits,
                    game_mode,
                };
                let mut frames: Vec<InputFrame> = Vec::new();
                let mut i: usize = 0;
                while i < records.len()
                    invariant
                        i <= records@.len(),
                        frames@.len() == i,
                        forall|j: int| 0 <= j < i ==> frames@[j] == frame_of_record(#[trigger] records@[j]),
                    decreases records@.len() - i,
                {
                    let t = records[i];
                    frames.push(InputFrame { tick: t.0, throttle_bits: t.1, pitch_lean_bits: t.2, roll_lean_bits: t.3 });
                    i = i + 1;
                }
                let log = InputLog { header, frames };
                proof {
                    assert(log@.frames =~= log_of_record(rv).frames);
                    assert(log@.header == log_of_record(rv).header);
                }
                Ok(log)
            },
            Err(e) => Err(ReplayCodecError::Bincode(e)),
        }
    }
}

} // verus!
