//! The bincode calls through which a replay is turned into bytes and back.
//!
//! A replay travels as a plain record: a tuple of the header's fields followed
//! by the frames, each a tuple of its tick and three input bit patterns. bincode
//! writes a tuple and a struct alike, field after field, and an `f32`/`f64`
//! exactly as the `u32`/`u64` of its bits, so these bytes are those of the
//! game's own replay files.

use vstd::prelude::*;

verus! {

/// The header fields of a replay, in the order in which they are written.
pub type HeaderRecord = (u32, String, String, String, u64, String, u64, String);

/// One frame: tick, then the bit patterns of throttle, pitch lean and roll lean.
pub type FrameRecord = (u64, u32, u32, u32);

/// A whole replay as written by bincode.
pub type ReplayRecord = (HeaderRecord, Vec<FrameRecord>);

/// bincode's error type, carried opaque.
#[verifier::external_type_specification]
#[verifier::external_body]
pub struct ExBincodeErrorKind(bincode::ErrorKind);

/// The bytes that `bincode::serialize` gives for a replay record (taken by its view).
pub uninterp spec fn bincode_record_bytes(
    record: ((u32, Seq<char>, Seq<char>, Seq<char>, u64, Seq<char>, u64, Seq<char>), Seq<(u64, u32, u32, u32)>),
) -> Seq<u8>;

/// What `bincode::deserialize` gives for a byte string read as a replay record:
/// the record's view, or `None` where it returns an error.
pub uninterp spec fn bincode_record_from_bytes(
    bytes: Seq<u8>,
) -> Option<((u32, Seq<char>, Seq<char>, Seq<char>, u64, Seq<char>, u64, Seq<char>), Seq<(u64, u32, u32, u32)>)>;

/// Calls `bincode::serialize` on a replay record.
///
/// Trusted: the result is `Ok` and holds the bytes named by
/// `bincode_record_bytes`, and `bincode::deserialize` reads those bytes back as
/// the same record. The bytes are at least as many as the fixed-width parts
/// take: 4 for the version, an 8-byte length before each of the five strings,
/// 8 each for the seed and the time bits, 8 for the frame count and 20 per frame. bincode 1.3's `serialize` runs with no size limit and fails
/// only on sequences of unknown length or on a serializer error raised by a
/// type's own impl; integers, `String`s, tuples and a `Vec` raise none. Its
/// deserializer reads fields in the order that the serializer wrote them.
#[verifier::external_body]
pub(crate) fn bincode_serialize_record(record: &ReplayRecord) -> (r: Result<Vec<u8>, bincode::Error>)
    ensures
        r is Ok,
        r matches Ok(bytes) ==> bytes@ == bincode_record_bytes(record@),
        r matches Ok(bytes) ==> bincode_record_from_bytes(bytes@) == Some(record@),
        r matches Ok(bytes) ==> bytes@.len() >= 68 + 20 * record@.1.len(),
{
    bincode::serialize(record)
}

/// Calls `bincode::deserialize` to read a replay record from bytes.
///
/// Trusted: the call succeeds exactly when `bincode_record_from_bytes` names a
/// record, and then returns that record. A strict prefix of a record's bytes
/// (the empty input among them) is refused: the reader takes the fields in
/// order and the last one ends at the last byte, so a shorter input runs out.
/// Which other bytes are accepted is left to the name.
#[verifier::external_body]
pub(crate) fn bincode_deserialize_record(bytes: &[u8]) -> (r: Result<ReplayRecord, bincode::Error>)
    ensures
        r is Ok <==> bincode_record_from_bytes(bytes@) is Some,
        r matches Ok(record) ==> bincode_record_from_bytes(bytes@) == Some(record@),
        forall|record: ((u32, Seq<char>, Seq<char>, Seq<char>, u64, Seq<char>, u64, Seq<char>), Seq<(u64, u32, u32, u32)>), k: int|
            0 <= k < bincode_record_bytes(record).len() && bytes@ == #[trigger] bincode_record_bytes(record).take(k)
                ==> r is Err,
{
    bincode::deserialize(bytes)
}

} // verus!
