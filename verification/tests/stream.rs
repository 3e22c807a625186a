//! Scenario tests for the frame walker and the decoded-event stream.

use zeebe_log_reader::{
    EventBody, EventType, LogStream, Producer, StreamError, TaskState, FRAME_ALIGNMENT,
};

fn push_u16(buf: &mut Vec<u8>, v: u16) {
    buf.extend_from_slice(&v.to_le_bytes());
}

fn push_u32(buf: &mut Vec<u8>, v: u32) {
    buf.extend_from_slice(&v.to_le_bytes());
}

fn push_u64(buf: &mut Vec<u8>, v: u64) {
    buf.extend_from_slice(&v.to_le_bytes());
}

/// A buffer holding a valid segment header and zeros up to the first block
/// boundary; frames are appended after it.
fn segment_prefix() -> Vec<u8> {
    let mut buf = vec![0u8; 4096];
    let id = 7u32.to_le_bytes();
    buf[0..4].copy_from_slice(&id);
    let version = 1u16.to_le_bytes();
    buf[4..6].copy_from_slice(&version);
    buf
}

/// Declares the buffer's current length as the segment's logical size.
fn finish(buf: &mut Vec<u8>) {
    let size = (buf.len() as u32).to_le_bytes();
    buf[136..140].copy_from_slice(&size);
}

/// Appends one message frame: frame header, entry header, sub-header,
/// metadata record, payload, zero padding to the next 8-byte boundary.
fn push_frame_raw(
    buf: &mut Vec<u8>,
    length: u32,
    event_type: u8,
    template_id: u16,
    source_position: u64,
    entry_position: u64,
    payload: &[u8],
) {
    push_u32(buf, length);
    buf.push(1);
    buf.push(0);
    push_u16(buf, 0);
    push_u32(buf, 21);
    push_u16(buf, 1);
    push_u16(buf, 0);
    push_u64(buf, entry_position);
    push_u32(buf, 3);
    push_u32(buf, 10);
    push_u32(buf, 1);
    push_u64(buf, source_position);
    push_u64(buf, 900 + entry_position);
    push_u16(buf, 39);
    push_u16(buf, 0);
    push_u16(buf, 31);
    push_u16(buf, template_id);
    push_u16(buf, 0);
    push_u16(buf, 1);
    push_u32(buf, 5);
    push_u64(buf, 100);
    push_u64(buf, 200);
    push_u16(buf, 1);
    buf.push(event_type);
    push_u64(buf, 0);
    buf.extend_from_slice(payload);
    while buf.len() % 8 != 0 {
        buf.push(0);
    }
}

fn push_message_frame(buf: &mut Vec<u8>, event_type: u8, payload: &[u8]) {
    push_frame_raw(buf, (95 + payload.len()) as u32, event_type, 200, u64::MAX, 100, payload);
}

/// Appends one padding frame of declared length 16: its header and four
/// bytes absorbed by the re-alignment.
fn push_padding_frame(buf: &mut Vec<u8>) {
    push_u32(buf, 16);
    buf.push(1);
    buf.push(0);
    push_u16(buf, 1);
    push_u32(buf, 0);
    buf.extend_from_slice(&[0, 0, 0, 0]);
}

fn mp_map(out: &mut Vec<u8>, n: u8) {
    out.push(0x80 + n);
}

fn mp_str(out: &mut Vec<u8>, s: &str) {
    out.push(0xa0 + s.len() as u8);
    out.extend_from_slice(s.as_bytes());
}

fn mp_int(out: &mut Vec<u8>, v: i64) {
    out.push(0xd3);
    out.extend_from_slice(&v.to_be_bytes());
}

fn mp_bin(out: &mut Vec<u8>, b: &[u8]) {
    out.push(0xc4);
    out.push(b.len() as u8);
    out.extend_from_slice(b);
}

/// A well-formed task-event payload declaring the given state.
fn task_payload(state: &str) -> Vec<u8> {
    let mut p = Vec::new();
    mp_map(&mut p, 7);
    mp_str(&mut p, "state");
    mp_str(&mut p, state);
    mp_str(&mut p, "lockTime");
    mp_int(&mut p, 1000);
    mp_str(&mut p, "retries");
    mp_int(&mut p, 3);
    mp_str(&mut p, "type");
    mp_str(&mut p, "work");
    mp_str(&mut p, "headers");
    mp_map(&mut p, 6);
    mp_str(&mut p, "workflowInstanceKey");
    mp_int(&mut p, 11);
    mp_str(&mut p, "bpmnProcessId");
    mp_str(&mut p, "proc");
    mp_str(&mut p, "workflowDefinitionVersion");
    mp_int(&mut p, 2);
    mp_str(&mut p, "workflowKey");
    mp_int(&mut p, 12);
    mp_str(&mut p, "activityId");
    mp_str(&mut p, "act");
    mp_str(&mut p, "activityInstanceKey");
    mp_int(&mut p, 13);
    mp_str(&mut p, "customHeaders");
    mp_map(&mut p, 1);
    mp_str(&mut p, "k");
    mp_str(&mut p, "v");
    mp_str(&mut p, "payload");
    mp_bin(&mut p, &[1, 2, 3]);
    p
}

#[test]
fn padding_then_task_frame_yields_one_created_task() {
    let mut buf = segment_prefix();
    push_padding_frame(&mut buf);
    push_message_frame(&mut buf, 0, &task_payload("CREATED"));
    finish(&mut buf);

    let mut stream = LogStream::new(&buf).unwrap();
    let event = stream.next().unwrap().unwrap();
    assert_eq!(event.event_type, EventType::Task);
    let body = event.body.unwrap();
    match body {
        EventBody::Task(task) => {
            assert_eq!(task.state, TaskState::Created);
            assert_eq!(task.lock_time, 1000);
            assert_eq!(task.retries, 3);
            assert_eq!(task.task_type, b"work".to_vec());
            assert_eq!(task.headers.bpmn_process_id, b"proc".to_vec());
            assert_eq!(task.payload, vec![1, 2, 3]);
        },
        other => panic!("expected a task body, got {:?}", other),
    }
    assert!(stream.next().unwrap().is_none());
}

#[test]
fn mismatched_sub_header_is_a_protocol_mismatch() {
    let mut buf = segment_prefix();
    push_frame_raw(&mut buf, 95, 0, 999, u64::MAX, 100, &[]);
    finish(&mut buf);

    let mut stream = LogStream::new(&buf).unwrap();
    assert_eq!(stream.next(), Err(StreamError::ProtocolMismatch));
    // The walk stopped right after the sub-header: the metadata record and
    // the payload were never read.
    assert_eq!(stream.decoder.position, 4096 + 12 + 44 + 8);
}

#[test]
fn negative_payload_length_is_a_corrupt_frame() {
    let mut buf = segment_prefix();
    // 60 < 12 + 44 + 39: the declared length implies a negative payload.
    push_frame_raw(&mut buf, 60, 0, 200, u64::MAX, 100, &[0u8; 64]);
    finish(&mut buf);

    let mut stream = LogStream::new(&buf).unwrap();
    assert_eq!(stream.next(), Err(StreamError::CorruptFrame));
    // All fixed headers were consumed, but no payload byte was.
    assert_eq!(stream.decoder.position, 4096 + 12 + 44 + 8 + 31);
}

#[test]
fn unrecognized_frame_types_are_skipped_like_padding() {
    let mut buf = segment_prefix();
    // A control frame with an unassigned type tag carries no entry.
    push_u32(&mut buf, 16);
    buf.push(1);
    buf.push(0);
    push_u16(&mut buf, 0xBEEF);
    push_u32(&mut buf, 0);
    buf.extend_from_slice(&[0, 0, 0, 0]);
    push_message_frame(&mut buf, 8, &[]);
    finish(&mut buf);

    let mut stream = LogStream::new(&buf).unwrap();
    let event = stream.next().unwrap().unwrap();
    assert_eq!(event.event_type, EventType::Noop);
    assert!(stream.next().unwrap().is_none());
}

#[test]
fn record_count_equals_message_frame_count() {
    let mut buf = segment_prefix();
    push_padding_frame(&mut buf);
    push_message_frame(&mut buf, 8, &[]);
    push_padding_frame(&mut buf);
    push_message_frame(&mut buf, 9, &[]);
    push_message_frame(&mut buf, 10, &[]);
    finish(&mut buf);

    let mut stream = LogStream::new(&buf).unwrap();
    let mut count = 0;
    loop {
        match stream.next().unwrap() {
            Some(_) => count += 1,
            None => break,
        }
    }
    assert_eq!(count, 3);
}

#[test]
fn cursor_stays_frame_aligned_and_advances() {
    let mut buf = segment_prefix();
    push_message_frame(&mut buf, 8, &[1, 2, 3]);
    push_padding_frame(&mut buf);
    push_message_frame(&mut buf, 9, &[]);
    finish(&mut buf);

    let mut stream = LogStream::new(&buf).unwrap();
    let mut last = stream.decoder.position;
    loop {
        let step = stream.next().unwrap();
        assert_eq!(stream.decoder.position % FRAME_ALIGNMENT, 0);
        if step.is_none() {
            break;
        }
        assert!(stream.decoder.position > last);
        last = stream.decoder.position;
    }
}

#[test]
fn decoding_the_same_buffer_twice_yields_identical_records() {
    let mut buf = segment_prefix();
    push_message_frame(&mut buf, 0, &task_payload("LOCKED"));
    push_padding_frame(&mut buf);
    push_message_frame(&mut buf, 5, &[0xc1]);
    push_message_frame(&mut buf, 9, &[]);
    finish(&mut buf);

    let mut first = Vec::new();
    let mut stream_a = LogStream::new(&buf).unwrap();
    loop {
        match stream_a.next().unwrap() {
            Some(ev) => first.push(ev),
            None => break,
        }
    }
    let mut second = Vec::new();
    let mut stream_b = LogStream::new(&buf).unwrap();
    loop {
        match stream_b.next().unwrap() {
            Some(ev) => second.push(ev),
            None => break,
        }
    }
    assert_eq!(first, second);
    assert_eq!(first.len(), 3);
}

#[test]
fn provenance_fields_are_copied_from_the_entry_header() {
    let mut buf = segment_prefix();
    push_frame_raw(&mut buf, 95, 8, 200, 77, 4242, &[]);
    finish(&mut buf);

    let mut stream = LogStream::new(&buf).unwrap();
    let event = stream.next().unwrap().unwrap();
    assert_eq!(event.position, 4242);
    assert_eq!(event.key, 900 + 4242);
    assert_eq!(event.raft_term, 3);
    assert_eq!(event.producer, Producer::TaskQueue);
    assert_eq!(event.source_event_position, Some(77));
    assert_eq!(event.event_type, EventType::Noop);
    assert_eq!(event.body, Ok(EventBody::Other));
}

#[test]
fn sentinel_source_position_decodes_to_absent() {
    let mut buf = segment_prefix();
    push_frame_raw(&mut buf, 95, 8, 200, u64::MAX, 100, &[]);
    finish(&mut buf);

    let mut stream = LogStream::new(&buf).unwrap();
    let event = stream.next().unwrap().unwrap();
    assert_eq!(event.source_event_position, None);
}

#[test]
fn event_filter_discards_other_event_types() {
    let mut buf = segment_prefix();
    push_message_frame(&mut buf, 8, &[]);
    push_message_frame(&mut buf, 0, &task_payload("CREATE"));
    push_message_frame(&mut buf, 9, &[]);
    finish(&mut buf);

    let mut stream = LogStream::new(&buf).unwrap();
    stream.event_filter(0);
    let event = stream.next().unwrap().unwrap();
    assert_eq!(event.event_type, EventType::Task);
    assert!(stream.next().unwrap().is_none());

    let mut none_match = LogStream::new(&buf).unwrap();
    none_match.event_filter(42);
    assert!(none_match.next().unwrap().is_none());
}

#[test]
fn one_corrupt_body_does_not_stop_the_stream() {
    let mut buf = segment_prefix();
    // A task frame whose payload is not a well-formed record.
    push_message_frame(&mut buf, 0, &[0xc1]);
    push_message_frame(&mut buf, 9, &[]);
    finish(&mut buf);

    let mut stream = LogStream::new(&buf).unwrap();
    let bad = stream.next().unwrap().unwrap();
    assert!(bad.body.is_err());
    let good = stream.next().unwrap().unwrap();
    assert_eq!(good.event_type, EventType::Topic);
    assert!(stream.next().unwrap().is_none());
}

#[test]
fn payload_length_follows_the_declared_metadata_length() {
    let mut buf = segment_prefix();
    // Entry header declares 43 bytes of metadata while the fixed records
    // cover 39: the payload shrinks by the difference.
    push_u32(&mut buf, 95 + 8);
    buf.push(1);
    buf.push(0);
    push_u16(&mut buf, 0);
    push_u32(&mut buf, 21);
    push_u16(&mut buf, 1);
    push_u16(&mut buf, 0);
    push_u64(&mut buf, 100);
    push_u32(&mut buf, 3);
    push_u32(&mut buf, 10);
    push_u32(&mut buf, 1);
    push_u64(&mut buf, u64::MAX);
    push_u64(&mut buf, 1000);
    push_u16(&mut buf, 43);
    push_u16(&mut buf, 0);
    push_u16(&mut buf, 31);
    push_u16(&mut buf, 200);
    push_u16(&mut buf, 0);
    push_u16(&mut buf, 1);
    push_u32(&mut buf, 5);
    push_u64(&mut buf, 100);
    push_u64(&mut buf, 200);
    push_u16(&mut buf, 1);
    buf.push(8);
    push_u64(&mut buf, 0);
    buf.extend_from_slice(&[11, 22, 33, 44, 55, 66, 77, 88]);
    while buf.len() % 8 != 0 {
        buf.push(0);
    }
    finish(&mut buf);

    let mut stream = LogStream::new(&buf).unwrap();
    let frame = stream.next_frame().unwrap().unwrap();
    // length - 12 - 44 - 43 = 103 - 99 = 4 payload bytes.
    assert_eq!(frame.entry.event, &[11, 22, 33, 44]);
}

#[test]
fn next_frame_exposes_raw_headers_and_payload() {
    let mut buf = segment_prefix();
    push_message_frame(&mut buf, 4, &[9, 8, 7]);
    finish(&mut buf);

    let mut stream = LogStream::new(&buf).unwrap();
    let frame = stream.next_frame().unwrap().unwrap();
    assert_eq!(frame.data_frame.length, 98);
    assert_eq!(frame.data_frame.frame_type, 0);
    assert_eq!(frame.data_frame.stream_id, 21);
    assert_eq!(frame.entry.log_entry.metadata_length, 39);
    assert_eq!(frame.entry.metadata.event_type, 4);
    assert_eq!(frame.entry.event, &[9, 8, 7]);
    assert!(stream.next_frame().unwrap().is_none());
}
