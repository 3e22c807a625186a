//! Unit tests for the bounds-checked byte cursor.

use zeebe_log_reader::{Decoder, StreamError};

#[test]
fn new_cursor_spans_whole_buffer() {
    let data = [1u8, 2, 3, 4];
    let d = Decoder::new(&data);
    assert_eq!(d.position, 0);
    assert_eq!(d.limit, 4);
    assert!(!d.is_empty());
}

#[test]
fn read_returns_bytes_and_advances() {
    let data = [10u8, 20, 30, 40, 50];
    let mut d = Decoder::new(&data);
    let first = d.read(2).unwrap();
    assert_eq!(first, &[10, 20]);
    assert_eq!(d.position, 2);
    let second = d.read(3).unwrap();
    assert_eq!(second, &[30, 40, 50]);
    assert!(d.is_empty());
}

#[test]
fn read_past_limit_is_out_of_bounds() {
    let data = [1u8, 2, 3];
    let mut d = Decoder::new(&data);
    assert_eq!(d.read(4), Err(StreamError::OutOfBounds));
    assert_eq!(d.position, 0);
    assert_eq!(d.read(3).unwrap(), &[1, 2, 3]);
    assert_eq!(d.read(1), Err(StreamError::OutOfBounds));
}

#[test]
fn truncate_shrinks_limit() {
    let data = [0u8; 16];
    let mut d = Decoder::new(&data);
    d.truncate(10).unwrap();
    assert_eq!(d.limit, 10);
    assert_eq!(d.read(10).unwrap().len(), 10);
    assert!(d.is_empty());
}

#[test]
fn truncate_before_position_fails_with_truncation_error() {
    let data = [0u8; 16];
    let mut d = Decoder::new(&data);
    d.read(8).unwrap();
    assert_eq!(d.truncate(4), Err(StreamError::TruncationError));
    assert_eq!(d.limit, 16);
    assert_eq!(d.position, 8);
}

#[test]
fn truncate_past_buffer_fails_with_truncation_error() {
    let data = [0u8; 16];
    let mut d = Decoder::new(&data);
    assert_eq!(d.truncate(17), Err(StreamError::TruncationError));
    assert_eq!(d.limit, 16);
}

#[test]
fn align_advances_to_next_multiple() {
    let data = [0u8; 32];
    let mut d = Decoder::new(&data);
    d.read(3).unwrap();
    d.align(8).unwrap();
    assert_eq!(d.position, 8);
    d.align(8).unwrap();
    assert_eq!(d.position, 8);
    d.read(1).unwrap();
    d.align(16).unwrap();
    assert_eq!(d.position, 16);
}

#[test]
fn align_past_limit_is_out_of_bounds() {
    let data = [0u8; 10];
    let mut d = Decoder::new(&data);
    d.read(9).unwrap();
    assert_eq!(d.align(8), Err(StreamError::OutOfBounds));
    assert_eq!(d.position, 9);
}

#[test]
fn fixed_width_reads_are_little_endian() {
    let data = [
        0x2a, 0x34, 0x12, 0x78, 0x56, 0x34, 0x12, 0xf0, 0xde, 0xbc, 0x9a, 0x78, 0x56, 0x34, 0x12,
    ];
    let mut d = Decoder::new(&data);
    assert_eq!(d.read_u8().unwrap(), 0x2a);
    assert_eq!(d.read_u16().unwrap(), 0x1234);
    assert_eq!(d.read_u32().unwrap(), 0x12345678);
    assert_eq!(d.read_u64().unwrap(), 0x123456789abcdef0);
    assert!(d.is_empty());
}

#[test]
fn fixed_width_read_past_limit_is_out_of_bounds() {
    let data = [1u8, 2, 3];
    let mut d = Decoder::new(&data);
    assert_eq!(d.read_u32(), Err(StreamError::OutOfBounds));
    assert_eq!(d.position, 0);
    assert_eq!(d.read_u16().unwrap(), 0x0201);
}

#[test]
fn skip_advances_without_reading() {
    let data = [1u8, 2, 3, 4];
    let mut d = Decoder::new(&data);
    d.skip(3).unwrap();
    assert_eq!(d.position, 3);
    assert_eq!(d.skip(2), Err(StreamError::OutOfBounds));
    assert_eq!(d.position, 3);
}
