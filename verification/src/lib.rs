//! Reader for an append-only, segmented binary log of workflow-engine events.
//!
//! The library decodes one in-memory byte buffer at a time: a segment header
//! establishes the logical buffer boundary, fixed-size frames are walked in
//! order, and each message frame carries an entry whose payload is a compact
//! binary envelope describing one domain event.

use vstd::prelude::*;

mod body;
mod data;
mod decode;
mod error;
mod msgpack;

pub use data::{
    decode_data_frame, decode_fs_log_segment, decode_log_entry, decode_metadata,
    decode_sbe_header, sbe_signature_matches, spec_data_frame_at, spec_log_entry_at,
    spec_metadata_at, spec_sbe_header_at, spec_segment_at, segment_read_ok, DataFrame, Entry,
    Frame, FsLogSegment, LogEntry, Metadata, SbeHeader, BLOCK_SIZE, DATA_FRAME_BYTES,
    FRAME_ALIGNMENT, FRAME_MESSAGE, LOG_ENTRY_BYTES, METADATA_BYTES, SBE_HEADER_BYTES,
    SBE_SCHEMA_ID, SBE_TEMPLATE_ID, SBE_VERSION, SEGMENT_HEADER_BYTES,
};
pub use body::{
    decode_body, spec_decode_body, spec_parse_task_event, spec_parse_workflow_event,
    spec_parse_workflow_instance_event, spec_task_state_of, spec_workflow_instance_state_of,
    task_state_of, workflow_instance_state_of, EventBody, EventBodyView, TaskEvent,
    TaskEventView, TaskHeaders, TaskHeadersView, TaskState, WorkflowEvent, WorkflowEventView,
    WorkflowInstanceEvent, WorkflowInstanceEventView, WorkflowInstanceState, EVENT_TYPE_TASK,
    EVENT_TYPE_WORKFLOW, EVENT_TYPE_WORKFLOW_INSTANCE,
};
pub use decode::{le16_at, le32_at, le64_at, spec_align_up, Decoder};
pub use error::StreamError;
pub use msgpack::BodyError;

verus! {

/// Everything one message frame determines: its headers, its payload bytes,
/// and where it starts and ends in the buffer (the end includes the trailing
/// alignment padding).
pub struct FrameRecord {
    pub data_frame: DataFrame,
    pub log_entry: LogEntry,
    pub metadata: Metadata,
    pub payload: Seq<u8>,
    pub start: int,
    pub end: int,
}

/// The outcome of walking forward from a position until the next message
/// frame: exhaustion (with the position where it was detected), a structural
/// error, or a record.
pub enum FrameStep {
    End { at: int },
    Fail { err: StreamError },
    Record { rec: FrameRecord },
}

/// The next message frame of the buffer `s` (limited to `limit`) at or after
/// position `p`, skipping any number of non-message frames. This is the
/// mathematical meaning of one step of the frame walker.
pub open spec fn spec_next_frame(s: Seq<u8>, limit: int, p: int) -> FrameStep
    decreases limit - p,
{
    if p >= limit {
        FrameStep::End { at: p }
    } else if limit - p < DATA_FRAME_BYTES {
        FrameStep::Fail { err: StreamError::OutOfBounds }
    } else {
        let df = spec_data_frame_at(s, p);
        if df.frame_type != FRAME_MESSAGE {
            let skip_to = spec_align_up(p + DATA_FRAME_BYTES, FRAME_ALIGNMENT as int);
            if skip_to > limit {
                FrameStep::Fail { err: StreamError::OutOfBounds }
            } else {
                spec_next_frame(s, limit, skip_to)
            }
        } else if limit - (p + DATA_FRAME_BYTES) < LOG_ENTRY_BYTES {
            FrameStep::Fail { err: StreamError::OutOfBounds }
        } else {
            let le = spec_log_entry_at(s, p + DATA_FRAME_BYTES);
            if limit - (p + DATA_FRAME_BYTES + LOG_ENTRY_BYTES) < SBE_HEADER_BYTES {
                FrameStep::Fail { err: StreamError::OutOfBounds }
            } else if !sbe_signature_matches(
                spec_sbe_header_at(s, p + DATA_FRAME_BYTES + LOG_ENTRY_BYTES),
            ) {
                FrameStep::Fail { err: StreamError::ProtocolMismatch }
            } else if limit - (p + DATA_FRAME_BYTES + LOG_ENTRY_BYTES + SBE_HEADER_BYTES)
                < METADATA_BYTES {
                FrameStep::Fail { err: StreamError::OutOfBounds }
            } else {
                let md = spec_metadata_at(s, p + DATA_FRAME_BYTES + LOG_ENTRY_BYTES
                    + SBE_HEADER_BYTES);
                let body_at = p + DATA_FRAME_BYTES + LOG_ENTRY_BYTES + SBE_HEADER_BYTES
                    + METADATA_BYTES;
                let payload_len = df.length - DATA_FRAME_BYTES - LOG_ENTRY_BYTES
                    - le.metadata_length;
                if payload_len < 0 {
                    FrameStep::Fail { err: StreamError::CorruptFrame }
                } else if body_at + payload_len > limit {
                    FrameStep::Fail { err: StreamError::OutOfBounds }
                } else if spec_align_up(body_at + payload_len, FRAME_ALIGNMENT as int) > limit {
                    FrameStep::Fail { err: StreamError::OutOfBounds }
                } else {
                    FrameStep::Record {
                        rec: FrameRecord {
                            data_frame: df,
                            log_entry: le,
                            metadata: md,
                            payload: s.subrange(body_at, body_at + payload_len),
                            start: p,
                            end: spec_align_up(body_at + payload_len, FRAME_ALIGNMENT as int),
                        },
                    }
                }
            }
        }
    }
}

/// Whether an executable `Frame` carries exactly the values of a frame
/// record of the model.
pub open spec fn frame_matches(f: Frame<'_>, rec: FrameRecord) -> bool {
    &&& f.data_frame == rec.data_frame
    &&& f.entry.log_entry == rec.log_entry
    &&& f.entry.metadata == rec.metadata
    &&& f.entry.event@ == rec.payload
}

/// The error that stream construction reports for a buffer whose segment
/// header cannot be read.
pub open spec fn spec_stream_new_error(s: Seq<u8>) -> StreamError {
    if s.len() < SEGMENT_HEADER_BYTES {
        StreamError::OutOfBounds
    } else if !(SEGMENT_HEADER_BYTES <= spec_segment_at(s, 0).size <= s.len()) {
        StreamError::TruncationError
    } else {
        StreamError::OutOfBounds
    }
}

/// The kind of domain event a record carries, named by the metadata
/// record's one-byte discriminant.
#[derive(Clone, Copy, Debug, PartialEq, Eq, Hash, Structural)]
pub enum EventType {
    Task,
    Raft,
    Subscription,
    Subscriber,
    Deployment,
    WorkflowInstance,
    Incident,
    Workflow,
    Noop,
    Topic,
    Partition,
    Unknown(u8),
}

/// The event type named by a discriminant byte.
pub open spec fn spec_event_type_from(event_type: u8) -> EventType {
    if event_type == 0 {
        EventType::Task
    } else if event_type == 1 {
        EventType::Raft
    } else if event_type == 2 {
        EventType::Subscription
    } else if event_type == 3 {
        EventType::Subscriber
    } else if event_type == 4 {
        EventType::Deployment
    } else if event_type == 5 {
        EventType::WorkflowInstance
    } else if event_type == 6 {
        EventType::Incident
    } else if event_type == 7 {
        EventType::Workflow
    } else if event_type == 8 {
        EventType::Noop
    } else if event_type == 9 {
        EventType::Topic
    } else if event_type == 10 {
        EventType::Partition
    } else {
        EventType::Unknown(event_type)
    }
}

impl core::convert::From<u8> for EventType {
    fn from(event_type: u8) -> (r: EventType) {
        match event_type {
            0 => EventType::Task,
            1 => EventType::Raft,
            2 => EventType::Subscription,
            3 => EventType::Subscriber,
            4 => EventType::Deployment,
            5 => EventType::WorkflowInstance,
            6 => EventType::Incident,
            7 => EventType::Workflow,
            8 => EventType::Noop,
            9 => EventType::Topic,
            10 => EventType::Partition,
            _ => EventType::Unknown(event_type),
        }
    }
}

impl vstd::std_specs::convert::FromSpecImpl<u8> for EventType {
    open spec fn obeys_from_spec() -> bool {
        true
    }

    open spec fn from_spec(event_type: u8) -> EventType {
        spec_event_type_from(event_type)
    }
}

/// The producing component of an entry, named by the entry header's
/// producer identifier.
#[derive(Clone, Copy, Debug, PartialEq, Eq, Hash, Structural)]
pub enum Producer {
    TaskQueue,
    TaskLock,
    TaskExpireLock,
    TopicSubscriptionPush,
    TopicSubscriptionManagement,
    Deployment,
    WorkflowInstance,
    Incident,
    SystemCreateTopic,
    SystemCollectPartition,
    Unknown(u32),
    Absent,
}

/// The producer named by a producer identifier; `u32::MAX` is the wire
/// sentinel for "absent".
pub open spec fn spec_producer_from(id: u32) -> Producer {
    if id == 10 {
        Producer::TaskQueue
    } else if id == 20 {
        Producer::TaskLock
    } else if id == 30 {
        Producer::TaskExpireLock
    } else if id == 40 {
        Producer::TopicSubscriptionPush
    } else if id == 50 {
        Producer::TopicSubscriptionManagement
    } else if id == 60 {
        Producer::Deployment
    } else if id == 70 {
        Producer::WorkflowInstance
    } else if id == 80 {
        Producer::Incident
    } else if id == 1000 {
        Producer::SystemCreateTopic
    } else if id == 1001 {
        Producer::SystemCollectPartition
    } else if id == u32::MAX {
        Producer::Absent
    } else {
        Producer::Unknown(id)
    }
}

impl core::convert::From<u32> for Producer {
    fn from(id: u32) -> (r: Producer) {
        match id {
            10 => Producer::TaskQueue,
            20 => Producer::TaskLock,
            30 => Producer::TaskExpireLock,
            40 => Producer::TopicSubscriptionPush,
            50 => Producer::TopicSubscriptionManagement,
            60 => Producer::Deployment,
            70 => Producer::WorkflowInstance,
            80 => Producer::Incident,
            1000 => Producer::SystemCreateTopic,
            1001 => Producer::SystemCollectPartition,
            0xffff_ffff => Producer::Absent,
            _ => Producer::Unknown(id),
        }
    }
}

impl vstd::std_specs::convert::FromSpecImpl<u32> for Producer {
    open spec fn obeys_from_spec() -> bool {
        true
    }

    open spec fn from_spec(id: u32) -> Producer {
        spec_producer_from(id)
    }
}

/// One fully decoded record: the provenance fields of its entry header and
/// its decoded body. Owned and independent of the buffer. A body-decode
/// failure is kept in `body` as this record's error; it never invalidates
/// the rest of the stream.
#[derive(Debug, PartialEq, Eq)]
pub struct LogEvent {
    pub position: u64,
    pub key: u64,
    pub raft_term: u32,
    pub producer: Producer,
    pub source_event_position: Option<u64>,
    pub event_type: EventType,
    pub body: Result<EventBody, BodyError>,
}

/// The mathematical value of a `LogEvent`.
pub struct LogEventView {
    pub position: u64,
    pub key: u64,
    pub raft_term: u32,
    pub producer: Producer,
    pub source_event_position: Option<u64>,
    pub event_type: EventType,
    pub body: Result<EventBodyView, BodyError>,
}

impl View for LogEvent {
    type V = LogEventView;

    open spec fn view(&self) -> LogEventView {
        LogEventView {
            position: self.position,
            key: self.key,
            raft_term: self.raft_term,
            producer: self.producer,
            source_event_position: self.source_event_position,
            event_type: self.event_type,
            body: match &self.body {
                Ok(b) => Ok(b@),
                Err(e) => Err(*e),
            },
        }
    }
}

/// The decoded event a frame record determines: provenance copied from the
/// entry header, the body decoded from the payload by the entry's declared
/// event type.
pub open spec fn spec_event_of(rec: FrameRecord) -> LogEventView {
    LogEventView {
        position: rec.log_entry.position,
        key: rec.log_entry.key,
        raft_term: rec.log_entry.raft_term,
        producer: spec_producer_from(rec.log_entry.producer),
        source_event_position: if rec.log_entry.source_event_position == u64::MAX {
            None
        } else {
            Some(rec.log_entry.source_event_position)
        },
        event_type: spec_event_type_from(rec.metadata.event_type),
        body: spec_decode_body(rec.metadata.event_type, rec.payload),
    }
}

/// Every message frame found by the walker lies between its start position
/// and the limit, ends past its start on a frame-alignment boundary, and
/// starts no earlier than where the walk began.
pub proof fn lemma_next_frame_advances(s: Seq<u8>, limit: int, p: int)
    ensures
        spec_next_frame(s, limit, p) matches FrameStep::Record { rec } ==> p <= rec.start
            < rec.end <= limit && rec.end % (FRAME_ALIGNMENT as int) == 0,
        spec_next_frame(s, limit, p) matches FrameStep::End { at } ==> at >= p,
    decreases limit - p,
{
    if p >= limit || limit - p < DATA_FRAME_BYTES {
    } else {
        let df = spec_data_frame_at(s, p);
        if df.frame_type != FRAME_MESSAGE {
            let skip_to = spec_align_up(p + DATA_FRAME_BYTES, FRAME_ALIGNMENT as int);
            if skip_to <= limit {
                lemma_next_frame_advances(s, limit, skip_to);
            }
        } else {
            let le = spec_log_entry_at(s, p + DATA_FRAME_BYTES);
            let body_at = p + DATA_FRAME_BYTES + LOG_ENTRY_BYTES + SBE_HEADER_BYTES
                + METADATA_BYTES;
            let payload_len = df.length - DATA_FRAME_BYTES - LOG_ENTRY_BYTES - le.metadata_length;
            if payload_len >= 0 {
                lemma_align_up_properties(body_at + payload_len, FRAME_ALIGNMENT as int);
            }
        }
    }
}

/// Rounding up to a multiple of `a` lands on a multiple of `a`, moving
/// forward by less than `a`.
pub proof fn lemma_align_up_properties(q: int, a: int)
    requires
        0 < a,
    ensures
        q <= spec_align_up(q, a) < q + a,
        spec_align_up(q, a) % a == 0,
{
    let r = q % a;
    let d = q / a;
    vstd::arithmetic::div_mod::lemma_fundamental_div_mod(q, a);
    if r == 0 {
        vstd::arithmetic::div_mod::lemma_mod_self_0(a);
    } else {
        vstd::arithmetic::div_mod::lemma_small_mod((a - r) as nat, a as nat);
        assert(spec_align_up(q, a) == a * d + a);
        assert(a * d + a == (d + 1) * a) by (nonlinear_arith);
        vstd::arithmetic::div_mod::lemma_mod_multiples_basic(d + 1, a);
    }
}

/// The outcome of walking forward from a position until the next record
/// that passes the event-type filter.
pub enum EventStep {
    End { at: int },
    Fail { err: StreamError },
    Event { ev: LogEventView, end: int },
}

/// The next decoded event of the buffer `s` (limited to `limit`) at or
/// after position `p`: the next message frame whose metadata event type
/// passes `filter`; filtered records are structurally decoded and passed
/// over without decoding their body.
pub open spec fn spec_next_event(s: Seq<u8>, limit: int, p: int, filter: Option<u8>) -> EventStep
    decreases limit - p,
    via spec_next_event_decreases
{
    match spec_next_frame(s, limit, p) {
        FrameStep::End { at } => EventStep::End { at },
        FrameStep::Fail { err } => EventStep::Fail { err },
        FrameStep::Record { rec } => match filter {
            Some(f) => if rec.metadata.event_type != f {
                spec_next_event(s, limit, rec.end, filter)
            } else {
                EventStep::Event { ev: spec_event_of(rec), end: rec.end }
            },
            None => EventStep::Event { ev: spec_event_of(rec), end: rec.end },
        },
    }
}

#[via_fn]
proof fn spec_next_event_decreases(s: Seq<u8>, limit: int, p: int, filter: Option<u8>) {
    lemma_next_frame_advances(s, limit, p);
}

/// The sequence of message-frame records of the whole walk from position
/// `p` to exhaustion; `None` when the walk hits a structural error.
pub open spec fn spec_records(s: Seq<u8>, limit: int, p: int) -> Option<Seq<FrameRecord>>
    decreases limit - p,
    via spec_records_decreases
{
    match spec_next_frame(s, limit, p) {
        FrameStep::End { at } => Some(Seq::empty()),
        FrameStep::Fail { err } => None,
        FrameStep::Record { rec } => match spec_records(s, limit, rec.end) {
            None => None,
            Some(rest) => Some(seq![rec] + rest),
        },
    }
}

#[via_fn]
proof fn spec_records_decreases(s: Seq<u8>, limit: int, p: int) {
    lemma_next_frame_advances(s, limit, p);
}

/// The type tags of every frame of the walk from position `p`, message or
/// not, in order; `None` when the walk hits a structural error.
pub open spec fn spec_walk_tags(s: Seq<u8>, limit: int, p: int) -> Option<Seq<u16>>
    decreases limit - p,
    via spec_walk_tags_decreases
{
    if p >= limit {
        Some(Seq::empty())
    } else if limit - p < DATA_FRAME_BYTES {
        None
    } else {
        let df = spec_data_frame_at(s, p);
        if df.frame_type != FRAME_MESSAGE {
            let skip_to = spec_align_up(p + DATA_FRAME_BYTES, FRAME_ALIGNMENT as int);
            if skip_to > limit {
                None
            } else {
                match spec_walk_tags(s, limit, skip_to) {
                    None => None,
                    Some(rest) => Some(seq![df.frame_type] + rest),
                }
            }
        } else {
            match spec_next_frame(s, limit, p) {
                FrameStep::Record { rec } => match spec_walk_tags(s, limit, rec.end) {
                    None => None,
                    Some(rest) => Some(seq![FRAME_MESSAGE] + rest),
                },
                _ => None,
            }
        }
    }
}

#[via_fn]
proof fn spec_walk_tags_decreases(s: Seq<u8>, limit: int, p: int) {
    lemma_next_frame_advances(s, limit, p);
}

/// How many tags of a walk equal the message marker.
pub open spec fn message_tag_count(tags: Seq<u16>) -> int
    decreases tags.len(),
{
    if tags.len() == 0 {
        0
    } else {
        (if tags.first() == FRAME_MESSAGE {
            1int
        } else {
            0int
        }) + message_tag_count(tags.drop_first())
    }
}

/// How many records of a walk have a body that decodes.
pub open spec fn body_ok_count(recs: Seq<FrameRecord>) -> int
    decreases recs.len(),
{
    if recs.len() == 0 {
        0
    } else {
        (if spec_decode_body(recs.first().metadata.event_type, recs.first().payload) is Ok {
            1int
        } else {
            0int
        }) + body_ok_count(recs.drop_first())
    }
}

/// How many records of a walk have a body that fails to decode.
pub open spec fn body_err_count(recs: Seq<FrameRecord>) -> int
    decreases recs.len(),
{
    if recs.len() == 0 {
        0
    } else {
        (if spec_decode_body(recs.first().metadata.event_type, recs.first().payload) is Err {
            1int
        } else {
            0int
        }) + body_err_count(recs.drop_first())
    }
}

/// Every record's body either decodes or fails, so the two counts split the
/// records.
pub proof fn lemma_body_counts_split(recs: Seq<FrameRecord>)
    ensures
        body_ok_count(recs) + body_err_count(recs) == recs.len(),
    decreases recs.len(),
{
    if recs.len() > 0 {
        lemma_body_counts_split(recs.drop_first());
    }
}

/// On a buffer that walks to exhaustion without a structural error, the
/// walk yields exactly one record per frame whose type tag equals the
/// message marker; the records whose body decodes are those message frames
/// less the ones whose body fails. A structural error on the tag walk and
/// on the record walk coincide.
pub proof fn lemma_records_match_message_frames(s: Seq<u8>, limit: int, p: int)
    ensures
        (spec_walk_tags(s, limit, p) is Some) == (spec_records(s, limit, p) is Some),
        spec_walk_tags(s, limit, p) matches Some(tags) ==> (spec_records(s, limit, p) matches
            Some(recs) && recs.len() == message_tag_count(tags) && body_ok_count(recs)
            == message_tag_count(tags) - body_err_count(recs)),
        spec_records(s, limit, p) matches Some(recs) ==> body_ok_count(recs) + body_err_count(
            recs,
        ) == recs.len(),
    decreases limit - p,
{
    lemma_next_frame_advances(s, limit, p);
    match spec_records(s, limit, p) {
        Some(recs) => lemma_body_counts_split(recs),
        None => {},
    }
    if p >= limit {
    } else if limit - p < DATA_FRAME_BYTES {
    } else {
        let df = spec_data_frame_at(s, p);
        if df.frame_type != FRAME_MESSAGE {
            let skip_to = spec_align_up(p + DATA_FRAME_BYTES, FRAME_ALIGNMENT as int);
            if skip_to <= limit {
                lemma_records_match_message_frames(s, limit, skip_to);
                assert(spec_records(s, limit, p) == spec_records(s, limit, skip_to));
                match spec_walk_tags(s, limit, skip_to) {
                    None => {},
                    Some(rest) => {
                        assert((seq![df.frame_type] + rest).first() == df.frame_type);
                        assert((seq![df.frame_type] + rest).drop_first() =~= rest);
                    },
                }
            }
        } else {
            match spec_next_frame(s, limit, p) {
                FrameStep::Record { rec } => {
                    lemma_records_match_message_frames(s, limit, rec.end);
                    match spec_walk_tags(s, limit, rec.end) {
                        None => {},
                        Some(rest) => {
                            assert((seq![FRAME_MESSAGE] + rest).first() == FRAME_MESSAGE);
                            assert((seq![FRAME_MESSAGE] + rest).drop_first() =~= rest);
                            match spec_records(s, limit, rec.end) {
                                None => {},
                                Some(recs_rest) => {
                                    assert((seq![rec] + recs_rest).first() == rec);
                                    assert((seq![rec] + recs_rest).drop_first() =~= recs_rest);
                                },
                            }
                        },
                    }
                },
                _ => {},
            }
        }
    }
}

/// Decoding is a pure function of the bytes: two stream states over equal
/// buffers, at equal positions, with equal filters, step to the same
/// outcome, so decoding the same immutable buffer twice yields identical
/// records.
pub proof fn lemma_decode_idempotent(a: LogStream<'_>, b: LogStream<'_>)
    requires
        a.decoder.data@ == b.decoder.data@,
        a.decoder.limit == b.decoder.limit,
        a.decoder.position == b.decoder.position,
        a.filter == b.filter,
    ensures
        spec_next_event(
            a.decoder.data@,
            a.decoder.limit as int,
            a.decoder.position as int,
            a.filter,
        ) == spec_next_event(
            b.decoder.data@,
            b.decoder.limit as int,
            b.decoder.position as int,
            b.filter,
        ),
        spec_records(a.decoder.data@, a.decoder.limit as int, a.decoder.position as int)
            == spec_records(b.decoder.data@, b.decoder.limit as int, b.decoder.position as int),
{
}

/// Reads the remainder of a message frame whose header `data_frame` was
/// just consumed: entry header, sub-header (checked against the expected
/// signature), metadata record and payload, then re-aligns the cursor.
/// Follows the message branch of `spec_next_frame` at the frame's start `p`.
fn read_message_frame<'d>(
    d: &mut Decoder<'d>,
    data_frame: DataFrame,
    Ghost(p): Ghost<int>,
) -> (r: Result<Frame<'d>, StreamError>)
    requires
        old(d).wf(),
        0 <= p,
        p + DATA_FRAME_BYTES == old(d).position,
        p + DATA_FRAME_BYTES <= old(d).limit,
        data_frame == spec_data_frame_at(old(d).data@, p),
        data_frame.frame_type == FRAME_MESSAGE,
    ensures
        final(d).wf(),
        final(d).data == old(d).data,
        final(d).limit == old(d).limit,
        match spec_next_frame(old(d).data@, old(d).limit as int, p) {
            FrameStep::End { at } => false,
            FrameStep::Fail { err } => (r matches Err(e) && e == err),
            FrameStep::Record { rec } => (r matches Ok(frame) && frame_matches(frame, rec)
                && final(d).position == rec.end),
        },
{
    let ghost buf = old(d).data@;
    let ghost limit = old(d).limit as int;
    let log_entry = match decode_log_entry(d) {
        Ok(v) => v,
        Err(e) => return Err(e),
    };
    let sbe_header = match decode_sbe_header(d) {
        Ok(v) => v,
        Err(e) => return Err(e),
    };
    if !(sbe_header.template_id == SBE_TEMPLATE_ID && sbe_header.schema_id == SBE_SCHEMA_ID
        && sbe_header.version == SBE_VERSION) {
        return Err(StreamError::ProtocolMismatch);
    }
    let metadata = match decode_metadata(d) {
        Ok(v) => v,
        Err(e) => return Err(e),
    };
    let overhead = DATA_FRAME_BYTES + LOG_ENTRY_BYTES + log_entry.metadata_length as usize;
    if (data_frame.length as usize) < overhead {
        return Err(StreamError::CorruptFrame);
    }
    let payload_len = data_frame.length as usize - overhead;
    let event = match d.read(payload_len) {
        Ok(v) => v,
        Err(e) => return Err(e),
    };
    match d.align(FRAME_ALIGNMENT) {
        Ok(_) => {},
        Err(e) => return Err(e),
    }
    Ok(Frame { data_frame, entry: Entry { log_entry, metadata, event } })
}

/// A lazy, forward-only walk over the message frames of one buffer.
pub struct LogStream<'d> {
    pub decoder: Decoder<'d>,
    pub filter: Option<u8>,
}

impl<'d> LogStream<'d> {
    /// Well-formedness: the underlying cursor is well-formed.
    pub open spec fn wf(self) -> bool {
        self.decoder.wf()
    }

    /// Reads the segment header of `data`, truncating the view to the
    /// declared logical size and aligning to the first block boundary.
    /// Succeeds exactly when the buffer declares a consistent segment.
    pub fn new(data: &'d [u8]) -> (r: Result<Self, StreamError>)
        ensures
            segment_read_ok(data@, 0, data@.len() as int) ==> (r matches Ok(stream)
                && stream.wf() && stream.decoder.data@ == data@ && stream.decoder.limit
                == spec_segment_at(data@, 0).size && stream.decoder.position == spec_align_up(
                SEGMENT_HEADER_BYTES as int,
                BLOCK_SIZE as int,
            ) && stream.filter is None),
            !segment_read_ok(data@, 0, data@.len() as int) ==> (r matches Err(e) && e
                == spec_stream_new_error(data@)),
    {
        let mut decoder = Decoder::new(data);
        match decode_fs_log_segment(&mut decoder) {
            Ok(_) => Ok(LogStream { decoder, filter: None }),
            Err(e) => Err(e),
        }
    }

    /// Restricts the event iteration to records whose metadata event-type
    /// byte equals `filter`.
    pub fn event_filter(&mut self, filter: u8)
        ensures
            final(self).decoder == old(self).decoder,
            final(self).filter == Some(filter),
    {
        self.filter = Some(filter);
    }

    /// Walks forward to the next message frame, skipping non-message frames,
    /// and returns its decoded headers and payload; `None` once the cursor
    /// is exhausted. The result and the cursor's movement follow
    /// `spec_next_frame` exactly.
    #[verifier::loop_isolation(false)]
    pub fn next_frame(&mut self) -> (r: Result<Option<Frame<'d>>, StreamError>)
        requires
            old(self).wf(),
        ensures
            final(self).wf(),
            final(self).decoder.data == old(self).decoder.data,
            final(self).decoder.limit == old(self).decoder.limit,
            final(self).filter == old(self).filter,
            match spec_next_frame(
                old(self).decoder.data@,
                old(self).decoder.limit as int,
                old(self).decoder.position as int,
            ) {
                FrameStep::End { at } => (r matches Ok(f) && f is None
                    && final(self).decoder.position == at),
                FrameStep::Fail { err } => (r matches Err(e) && e == err),
                FrameStep::Record { rec } => (r matches Ok(f) && f matches Some(frame)
                    && frame_matches(frame, rec) && final(self).decoder.position == rec.end),
            },
    {
        let ghost d0 = self.decoder.data;
        let ghost buf = self.decoder.data@;
        let ghost limit = self.decoder.limit as int;
        let ghost p0 = self.decoder.position as int;
        let ghost f0 = self.filter;
        while !self.decoder.is_empty()
            invariant
                self.decoder.wf(),
                self.decoder.data == d0,
                self.decoder.data@ == buf,
                self.decoder.limit == limit,
                self.filter == f0,
                spec_next_frame(buf, limit, self.decoder.position as int) == spec_next_frame(
                    buf,
                    limit,
                    p0,
                ),
            decreases limit - self.decoder.position,
        {
            let data_frame = match decode_data_frame(&mut self.decoder) {
                Ok(v) => v,
                Err(e) => return Err(e),
            };
            if data_frame.frame_type == FRAME_MESSAGE {
                let ghost p = self.decoder.position - DATA_FRAME_BYTES;
                match read_message_frame(&mut self.decoder, data_frame, Ghost(p)) {
                    Ok(frame) => return Ok(Some(frame)),
                    Err(e) => return Err(e),
                }
            } else {
                match self.decoder.align(FRAME_ALIGNMENT) {
                    Ok(_) => {},
                    Err(e) => return Err(e),
                }
            }
        }
        Ok(None)
    }

    /// Walks forward to the next message frame whose event type passes the
    /// filter, decodes its body by the declared event type, and returns one
    /// owned record with its provenance fields; `None` once the cursor is
    /// exhausted. Filtered records are structurally decoded and discarded
    /// without running the body decoder. A body-decode failure is carried
    /// inside the record; only structural errors end the walk.
    #[verifier::loop_isolation(false)]
    pub fn next(&mut self) -> (r: Result<Option<LogEvent>, StreamError>)
        requires
            old(self).wf(),
        ensures
            final(self).wf(),
            final(self).decoder.data == old(self).decoder.data,
            final(self).decoder.limit == old(self).decoder.limit,
            final(self).filter == old(self).filter,
            match spec_next_event(
                old(self).decoder.data@,
                old(self).decoder.limit as int,
                old(self).decoder.position as int,
                old(self).filter,
            ) {
                EventStep::End { at } => (r matches Ok(o) && o is None
                    && final(self).decoder.position == at),
                EventStep::Fail { err } => (r matches Err(e) && e == err),
                EventStep::Event { ev, end } => (r matches Ok(o) && o matches Some(event)
                    && event@ == ev && final(self).decoder.position == end),
            },
    {
        let ghost buf = self.decoder.data@;
        let ghost limit = self.decoder.limit as int;
        let ghost p0 = self.decoder.position as int;
        loop
            invariant
                self.decoder.wf(),
                self.decoder.data == old(self).decoder.data,
                self.decoder.data@ == buf,
                self.decoder.limit == limit,
                self.filter == old(self).filter,
                spec_next_event(buf, limit, self.decoder.position as int, self.filter)
                    == spec_next_event(buf, limit, p0, old(self).filter),
            decreases limit - self.decoder.position,
        {
            let ghost p_here = self.decoder.position as int;
            proof {
                lemma_next_frame_advances(buf, limit, p_here);
            }
            match self.next_frame() {
                Err(e) => {
                    return Err(e);
                },
                Ok(None) => {
                    return Ok(None);
                },
                Ok(Some(frame)) => {
                    let skip = match self.filter {
                        Some(f) => frame.entry.metadata.event_type != f,
                        None => false,
                    };
                    if !skip {
                        let body = decode_body(frame.entry.metadata.event_type, frame.entry.event);
                        let event = LogEvent {
                            position: frame.entry.log_entry.position,
                            key: frame.entry.log_entry.key,
                            raft_term: frame.entry.log_entry.raft_term,
                            producer: Producer::from(frame.entry.log_entry.producer),
                            source_event_position: frame.entry.log_entry.source_event_position(),
                            event_type: EventType::from(frame.entry.metadata.event_type),
                            body,
                        };
                        return Ok(Some(event));
                    }
                },
            }
        }
    }
}

} // verus!
