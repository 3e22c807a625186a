//! Fixed-layout records of the on-disk log format.
//!
//! Every record is packed and little-endian. Each `spec_*_at` function gives
//! the decoded value of a record as a pure function of the buffer bytes at a
//! given offset; the `decode_*` functions are proved to return exactly those
//! values. A decode consumes either the whole record or nothing.

use vstd::prelude::*;

use crate::decode::{le16_at, le32_at, le64_at, spec_align_up, Decoder};
use crate::error::StreamError;

verus! {

/// Bytes in one cache line; the segment header pads fields to multiples of
/// two cache lines.
pub const CACHE_LINE_LENGTH: usize = 64;

/// The log proper starts at the next multiple of this block size after the
/// segment header.
pub const BLOCK_SIZE: usize = 4 * 1024;

/// Every frame is followed by padding up to the next multiple of this.
pub const FRAME_ALIGNMENT: usize = 8;

/// The frame-type tag of a message frame; every other tag is skipped.
pub const FRAME_MESSAGE: u16 = 0;

/// Encoded size of a `FsLogSegment` header.
pub const SEGMENT_HEADER_BYTES: usize = 264;

/// Encoded size of a `DataFrame` header.
pub const DATA_FRAME_BYTES: usize = 12;

/// Encoded size of a `LogEntry` header.
pub const LOG_ENTRY_BYTES: usize = 44;

/// Encoded size of a `SbeHeader`.
pub const SBE_HEADER_BYTES: usize = 8;

/// Encoded size of a `Metadata` record.
pub const METADATA_BYTES: usize = 31;

/// Expected sub-header template id for the metadata record.
pub const SBE_TEMPLATE_ID: u16 = 200;

/// Expected sub-header schema id for the metadata record.
pub const SBE_SCHEMA_ID: u16 = 0;

/// Expected sub-header version for the metadata record.
pub const SBE_VERSION: u16 = 1;

/// One segment's header: wire layout
/// `u32 id, u16 version, u16 reserved, u32 capacity, pad[124], u32 size,
/// pad[124]`, 264 bytes in all. `size` is the segment's logical byte length
/// measured from the start of the buffer.
#[derive(Clone, Copy, Debug, PartialEq, Eq, Structural)]
pub struct FsLogSegment {
    pub id: u32,
    pub version: u16,
    pub capacity: u32,
    pub size: u32,
}

/// One frame's header: wire layout
/// `u32 length, u8 version, u8 flags, u16 frame_type, u32 stream_id`,
/// 12 bytes. `length` counts the whole frame, this header included.
#[derive(Clone, Copy, Debug, PartialEq, Eq, Structural)]
pub struct DataFrame {
    pub length: u32,
    pub version: u8,
    pub flags: u8,
    pub frame_type: u16,
    pub stream_id: u32,
}

/// One log entry's header: wire layout
/// `u16 version, u16 reserved, u64 position, u32 raft_term, u32 producer,
/// u32 source_event_stream_partition, u64 source_event_position, u64 key,
/// u16 metadata_length, u16 reserved`, 44 bytes.
#[derive(Clone, Copy, Debug, PartialEq, Eq, Structural)]
pub struct LogEntry {
    pub version: u16,
    pub position: u64,
    pub raft_term: u32,
    pub producer: u32,
    pub source_event_stream_partition: u32,
    pub source_event_position: u64,
    pub key: u64,
    pub metadata_length: u16,
}

/// The sub-header preceding the metadata record: wire layout
/// `u16 block_length, u16 template_id, u16 schema_id, u16 version`, 8 bytes.
#[derive(Clone, Copy, Debug, PartialEq, Eq, Structural)]
pub struct SbeHeader {
    pub block_length: u16,
    pub template_id: u16,
    pub schema_id: u16,
    pub version: u16,
}

/// The metadata record: wire layout
/// `i32 request_stream_id, u64 request_id, u64 subscription_id,
/// u16 protocol_version, u8 event_type, u64 incident_key`, 31 bytes packed.
#[derive(Clone, Copy, Debug, PartialEq, Eq, Structural)]
pub struct Metadata {
    pub request_stream_id: i32,
    pub request_id: u64,
    pub subscription_id: u64,
    pub protocol_version: u16,
    pub event_type: u8,
    pub incident_key: u64,
}

/// One decoded message entry: the fixed headers as owned values, the
/// variable-length payload as a borrowed view into the buffer.
#[derive(Clone, Copy, Debug)]
pub struct Entry<'d> {
    pub log_entry: LogEntry,
    pub metadata: Metadata,
    pub event: &'d [u8],
}

/// One decoded message frame: its frame header and its entry.
#[derive(Clone, Copy, Debug)]
pub struct Frame<'d> {
    pub data_frame: DataFrame,
    pub entry: Entry<'d>,
}

impl LogEntry {
    /// The optional source-event position; `u64::MAX` is the wire sentinel
    /// for "absent".
    pub fn source_event_position(&self) -> (r: Option<u64>)
        ensures
            r == (if self.source_event_position == u64::MAX {
                Option::<u64>::None
            } else {
                Option::<u64>::Some(self.source_event_position)
            }),
    {
        if self.source_event_position < u64::MAX {
            Some(self.source_event_position)
        } else {
            None
        }
    }
}

impl Metadata {
    /// The sub-header every metadata record must be preceded by.
    pub fn sbe_header() -> (r: SbeHeader)
        ensures
            r == (SbeHeader {
                block_length: METADATA_BYTES as u16,
                template_id: SBE_TEMPLATE_ID,
                schema_id: SBE_SCHEMA_ID,
                version: SBE_VERSION,
            }),
    {
        SbeHeader {
            block_length: METADATA_BYTES as u16,
            template_id: SBE_TEMPLATE_ID,
            schema_id: SBE_SCHEMA_ID,
            version: SBE_VERSION,
        }
    }
}

/// Whether a sub-header carries the expected signature
/// (template id, schema id, version); any other signature means the payload
/// encoding is not the one this decoder understands.
pub open spec fn sbe_signature_matches(h: SbeHeader) -> bool {
    h.template_id == SBE_TEMPLATE_ID && h.schema_id == SBE_SCHEMA_ID && h.version == SBE_VERSION
}

/// The segment header encoded at offset `i` of `s`.
pub open spec fn spec_segment_at(s: Seq<u8>, i: int) -> FsLogSegment
    recommends
        0 <= i,
        i + SEGMENT_HEADER_BYTES <= s.len(),
{
    FsLogSegment {
        id: le32_at(s, i) as u32,
        version: le16_at(s, i + 4) as u16,
        capacity: le32_at(s, i + 8) as u32,
        size: le32_at(s, i + 136) as u32,
    }
}

/// The frame header encoded at offset `i` of `s`.
pub open spec fn spec_data_frame_at(s: Seq<u8>, i: int) -> DataFrame
    recommends
        0 <= i,
        i + DATA_FRAME_BYTES <= s.len(),
{
    DataFrame {
        length: le32_at(s, i) as u32,
        version: s[i + 4],
        flags: s[i + 5],
        frame_type: le16_at(s, i + 6) as u16,
        stream_id: le32_at(s, i + 8) as u32,
    }
}

/// The log entry header encoded at offset `i` of `s`.
pub open spec fn spec_log_entry_at(s: Seq<u8>, i: int) -> LogEntry
    recommends
        0 <= i,
        i + LOG_ENTRY_BYTES <= s.len(),
{
    LogEntry {
        version: le16_at(s, i) as u16,
        position: le64_at(s, i + 4) as u64,
        raft_term: le32_at(s, i + 12) as u32,
        producer: le32_at(s, i + 16) as u32,
        source_event_stream_partition: le32_at(s, i + 20) as u32,
        source_event_position: le64_at(s, i + 24) as u64,
        key: le64_at(s, i + 32) as u64,
        metadata_length: le16_at(s, i + 40) as u16,
    }
}

/// The sub-header encoded at offset `i` of `s`.
pub open spec fn spec_sbe_header_at(s: Seq<u8>, i: int) -> SbeHeader
    recommends
        0 <= i,
        i + SBE_HEADER_BYTES <= s.len(),
{
    SbeHeader {
        block_length: le16_at(s, i) as u16,
        template_id: le16_at(s, i + 2) as u16,
        schema_id: le16_at(s, i + 4) as u16,
        version: le16_at(s, i + 6) as u16,
    }
}

/// The metadata record encoded at offset `i` of `s`.
pub open spec fn spec_metadata_at(s: Seq<u8>, i: int) -> Metadata
    recommends
        0 <= i,
        i + METADATA_BYTES <= s.len(),
{
    Metadata {
        request_stream_id: le32_at(s, i) as u32 as i32,
        request_id: le64_at(s, i + 4) as u64,
        subscription_id: le64_at(s, i + 12) as u64,
        protocol_version: le16_at(s, i + 20) as u16,
        event_type: s[i + 22],
        incident_key: le64_at(s, i + 23) as u64,
    }
}

/// Reads one frame header; consumes its 12 bytes, or nothing on failure.
pub fn decode_data_frame(d: &mut Decoder) -> (r: Result<DataFrame, StreamError>)
    requires
        old(d).wf(),
    ensures
        final(d).wf(),
        final(d).data == old(d).data,
        final(d).limit == old(d).limit,
        old(d).spec_remaining() >= DATA_FRAME_BYTES ==> (r matches Ok(f) && f
            == spec_data_frame_at(old(d).data@, old(d).position as int) && final(d).position
            == old(d).position + DATA_FRAME_BYTES),
        old(d).spec_remaining() < DATA_FRAME_BYTES ==> (r matches Err(e) && e
            == StreamError::OutOfBounds && final(d).position == old(d).position),
{
    if d.limit - d.position < DATA_FRAME_BYTES {
        return Err(StreamError::OutOfBounds);
    }
    let length = d.read_u32()?;
    let version = d.read_u8()?;
    let flags = d.read_u8()?;
    let frame_type = d.read_u16()?;
    let stream_id = d.read_u32()?;
    Ok(DataFrame { length, version, flags, frame_type, stream_id })
}

/// Reads one log entry header; consumes its 44 bytes, or nothing on failure.
pub fn decode_log_entry(d: &mut Decoder) -> (r: Result<LogEntry, StreamError>)
    requires
        old(d).wf(),
    ensures
        final(d).wf(),
        final(d).data == old(d).data,
        final(d).limit == old(d).limit,
        old(d).spec_remaining() >= LOG_ENTRY_BYTES ==> (r matches Ok(f) && f == spec_log_entry_at(
            old(d).data@,
            old(d).position as int,
        ) && final(d).position == old(d).position + LOG_ENTRY_BYTES),
        old(d).spec_remaining() < LOG_ENTRY_BYTES ==> (r matches Err(e) && e
            == StreamError::OutOfBounds && final(d).position == old(d).position),
{
    if d.limit - d.position < LOG_ENTRY_BYTES {
        return Err(StreamError::OutOfBounds);
    }
    let version = d.read_u16()?;
    let _reserved = d.read_u16()?;
    let position = d.read_u64()?;
    let raft_term = d.read_u32()?;
    let producer = d.read_u32()?;
    let source_event_stream_partition = d.read_u32()?;
    let source_event_position = d.read_u64()?;
    let key = d.read_u64()?;
    let metadata_length = d.read_u16()?;
    let _unused = d.read_u16()?;
    Ok(
        LogEntry {
            version,
            position,
            raft_term,
            producer,
            source_event_stream_partition,
            source_event_position,
            key,
            metadata_length,
        },
    )
}

/// Reads one sub-header; consumes its 8 bytes, or nothing on failure.
pub fn decode_sbe_header(d: &mut Decoder) -> (r: Result<SbeHeader, StreamError>)
    requires
        old(d).wf(),
    ensures
        final(d).wf(),
        final(d).data == old(d).data,
        final(d).limit == old(d).limit,
        old(d).spec_remaining() >= SBE_HEADER_BYTES ==> (r matches Ok(f) && f
            == spec_sbe_header_at(old(d).data@, old(d).position as int) && final(d).position
            == old(d).position + SBE_HEADER_BYTES),
        old(d).spec_remaining() < SBE_HEADER_BYTES ==> (r matches Err(e) && e
            == StreamError::OutOfBounds && final(d).position == old(d).position),
{
    if d.limit - d.position < SBE_HEADER_BYTES {
        return Err(StreamError::OutOfBounds);
    }
    let block_length = d.read_u16()?;
    let template_id = d.read_u16()?;
    let schema_id = d.read_u16()?;
    let version = d.read_u16()?;
    Ok(SbeHeader { block_length, template_id, schema_id, version })
}

/// Reads one metadata record; consumes its 31 bytes, or nothing on failure.
pub fn decode_metadata(d: &mut Decoder) -> (r: Result<Metadata, StreamError>)
    requires
        old(d).wf(),
    ensures
        final(d).wf(),
        final(d).data == old(d).data,
        final(d).limit == old(d).limit,
        old(d).spec_remaining() >= METADATA_BYTES ==> (r matches Ok(f) && f == spec_metadata_at(
            old(d).data@,
            old(d).position as int,
        ) && final(d).position == old(d).position + METADATA_BYTES),
        old(d).spec_remaining() < METADATA_BYTES ==> (r matches Err(e) && e
            == StreamError::OutOfBounds && final(d).position == old(d).position),
{
    if d.limit - d.position < METADATA_BYTES {
        return Err(StreamError::OutOfBounds);
    }
    let raw_stream_id = d.read_u32()?;
    let request_stream_id = #[verifier::truncate] (raw_stream_id as i32);
    let request_id = d.read_u64()?;
    let subscription_id = d.read_u64()?;
    let protocol_version = d.read_u16()?;
    let event_type = d.read_u8()?;
    let incident_key = d.read_u64()?;
    Ok(
        Metadata {
            request_stream_id,
            request_id,
            subscription_id,
            protocol_version,
            event_type,
            incident_key,
        },
    )
}

/// What `decode_fs_log_segment` leaves behind and returns, as a function of
/// the cursor it was given.
pub open spec fn segment_read_ok(s: Seq<u8>, p: int, limit: int) -> bool
    recommends
        0 <= p <= limit <= s.len(),
{
    &&& p + SEGMENT_HEADER_BYTES <= limit
    &&& p + SEGMENT_HEADER_BYTES <= spec_segment_at(s, p).size <= limit
    &&& spec_align_up(p + SEGMENT_HEADER_BYTES, BLOCK_SIZE as int) <= spec_segment_at(s, p).size
}

/// Reads the segment header, truncates the cursor to the declared logical
/// size, and aligns the position to the next block boundary. Succeeds
/// exactly when the header fits, the declared size covers the header without
/// passing the limit, and the first block boundary lies inside the declared
/// size.
pub fn decode_fs_log_segment(d: &mut Decoder) -> (r: Result<FsLogSegment, StreamError>)
    requires
        old(d).wf(),
    ensures
        final(d).wf(),
        final(d).data == old(d).data,
        segment_read_ok(old(d).data@, old(d).position as int, old(d).limit as int) ==> (r matches
            Ok(h) && h == spec_segment_at(old(d).data@, old(d).position as int) && final(d).limit
            == h.size && final(d).position == spec_align_up(
            old(d).position + SEGMENT_HEADER_BYTES,
            BLOCK_SIZE as int,
        )),
        old(d).spec_remaining() < SEGMENT_HEADER_BYTES ==> (r matches Err(e) && e
            == StreamError::OutOfBounds),
        old(d).spec_remaining() >= SEGMENT_HEADER_BYTES && !(old(d).position + SEGMENT_HEADER_BYTES
            <= spec_segment_at(old(d).data@, old(d).position as int).size <= old(d).limit) ==> (r
            matches Err(e) && e == StreamError::TruncationError),
        old(d).spec_remaining() >= SEGMENT_HEADER_BYTES && (old(d).position + SEGMENT_HEADER_BYTES
            <= spec_segment_at(old(d).data@, old(d).position as int).size <= old(d).limit)
            && spec_align_up(old(d).position + SEGMENT_HEADER_BYTES, BLOCK_SIZE as int)
            > spec_segment_at(old(d).data@, old(d).position as int).size ==> (r matches Err(e) && e
            == StreamError::OutOfBounds),
{
    if d.limit - d.position < SEGMENT_HEADER_BYTES {
        return Err(StreamError::OutOfBounds);
    }
    let id = d.read_u32()?;
    let version = d.read_u16()?;
    let _reserved = d.read_u16()?;
    let capacity = d.read_u32()?;
    d.skip(2 * CACHE_LINE_LENGTH - 4)?;
    let size = d.read_u32()?;
    d.skip(2 * CACHE_LINE_LENGTH - 4)?;
    let segment = FsLogSegment { id, version, capacity, size };
    d.truncate(size as usize)?;
    d.align(BLOCK_SIZE)?;
    Ok(segment)
}

} // verus!
