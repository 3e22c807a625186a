//! Tests for segment-header reading and stream construction.

use zeebe_log_reader::{decode_fs_log_segment, Decoder, LogStream, StreamError};

fn put_u32(buf: &mut Vec<u8>, at: usize, v: u32) {
    let b = v.to_le_bytes();
    buf[at] = b[0];
    buf[at + 1] = b[1];
    buf[at + 2] = b[2];
    buf[at + 3] = b[3];
}

fn put_u16(buf: &mut Vec<u8>, at: usize, v: u16) {
    let b = v.to_le_bytes();
    buf[at] = b[0];
    buf[at + 1] = b[1];
}

/// A buffer of `total` zero bytes whose segment header declares `size`.
fn segment_buffer(size: u32, total: usize) -> Vec<u8> {
    let mut buf = vec![0u8; total];
    put_u32(&mut buf, 0, 7);
    put_u16(&mut buf, 4, 1);
    put_u32(&mut buf, 8, 1 << 20);
    put_u32(&mut buf, 136, size);
    buf
}

#[test]
fn segment_fields_decode_from_their_offsets() {
    let buf = segment_buffer(4096, 4096);
    let mut d = Decoder::new(&buf);
    let seg = decode_fs_log_segment(&mut d).unwrap();
    assert_eq!(seg.id, 7);
    assert_eq!(seg.version, 1);
    assert_eq!(seg.capacity, 1 << 20);
    assert_eq!(seg.size, 4096);
}

#[test]
fn truncation_leaves_limit_exactly_at_declared_size() {
    let buf = segment_buffer(5000, 6000);
    let mut d = Decoder::new(&buf);
    decode_fs_log_segment(&mut d).unwrap();
    assert_eq!(d.limit, 5000);
    assert_eq!(d.position, 4096);
}

#[test]
fn size_beyond_buffer_is_a_truncation_error() {
    let buf = segment_buffer(6001, 6000);
    let mut d = Decoder::new(&buf);
    assert_eq!(decode_fs_log_segment(&mut d), Err(StreamError::TruncationError));
}

#[test]
fn size_inside_header_is_a_truncation_error() {
    let buf = segment_buffer(100, 6000);
    let mut d = Decoder::new(&buf);
    assert_eq!(decode_fs_log_segment(&mut d), Err(StreamError::TruncationError));
}

#[test]
fn size_before_first_block_boundary_is_out_of_bounds() {
    let buf = segment_buffer(1000, 6000);
    let mut d = Decoder::new(&buf);
    assert_eq!(decode_fs_log_segment(&mut d), Err(StreamError::OutOfBounds));
}

#[test]
fn header_shorter_than_fixed_layout_is_out_of_bounds() {
    let buf = vec![0u8; 100];
    let mut d = Decoder::new(&buf);
    assert_eq!(decode_fs_log_segment(&mut d), Err(StreamError::OutOfBounds));
}

#[test]
fn stream_construction_mirrors_segment_reading() {
    let good = segment_buffer(4096, 4096);
    assert!(LogStream::new(&good).is_ok());

    let too_big = segment_buffer(9000, 4096);
    assert!(matches!(LogStream::new(&too_big), Err(StreamError::TruncationError)));

    let short = vec![0u8; 10];
    assert!(matches!(LogStream::new(&short), Err(StreamError::OutOfBounds)));
}

#[test]
fn empty_segment_yields_no_records() {
    let buf = segment_buffer(4096, 4096);
    let mut stream = LogStream::new(&buf).unwrap();
    assert!(stream.next_frame().unwrap().is_none());
    let mut stream2 = LogStream::new(&buf).unwrap();
    assert!(stream2.next().unwrap().is_none());
}
