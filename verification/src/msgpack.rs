//! Decoder for the compact, self-describing binary envelope carried in
//! message payloads.
//!
//! The envelope encodes one value per payload; multi-byte lengths and
//! integers inside it are big-endian, and every value starts with a one-byte
//! marker that names its shape. Structured event bodies are maps from short
//! string keys to values. Each `spec_parse_*` function gives the parse
//! result as a pure function of the payload bytes; the executable parsers
//! are proved to return exactly those results. Parsing never reads outside
//! the payload slice it is given.

use vstd::prelude::*;

verus! {

/// Why a payload failed to decode into the structured body its event type
/// calls for. Such an error belongs to one record only; it never invalidates
/// the framing of the rest of the buffer.
#[derive(Clone, Copy, Debug, PartialEq, Eq, Structural)]
pub enum BodyError {
    /// The payload ended inside a value.
    Truncated,
    /// A value's marker does not fit the shape the field calls for.
    UnexpectedType,
    /// An integer does not fit the declared width of its field.
    IntOutOfRange,
    /// A key appeared twice in one record.
    DuplicateField,
    /// A required field is missing from a record.
    MissingField,
    /// A state string does not match any recognized state name.
    UnknownStateLiteral,
}

/// The value of the two big-endian bytes at offset `i` of `s`.
pub open spec fn be16_at(s: Seq<u8>, i: int) -> int
    recommends
        0 <= i,
        i + 2 <= s.len(),
{
    0x100 * s[i] + s[i + 1]
}

/// The value of the four big-endian bytes at offset `i` of `s`.
pub open spec fn be32_at(s: Seq<u8>, i: int) -> int
    recommends
        0 <= i,
        i + 4 <= s.len(),
{
    0x1_0000 * be16_at(s, i) + be16_at(s, i + 2)
}

/// The value of the eight big-endian bytes at offset `i` of `s`.
pub open spec fn be64_at(s: Seq<u8>, i: int) -> int
    recommends
        0 <= i,
        i + 8 <= s.len(),
{
    0x1_0000_0000 * be32_at(s, i) + be32_at(s, i + 4)
}

/// The signed reading of an unsigned 8-bit value.
pub open spec fn signed8(v: int) -> int {
    if v >= 0x80 {
        v - 0x100
    } else {
        v
    }
}

/// The signed reading of an unsigned 16-bit value.
pub open spec fn signed16(v: int) -> int {
    if v >= 0x8000 {
        v - 0x1_0000
    } else {
        v
    }
}

/// The signed reading of an unsigned 32-bit value.
pub open spec fn signed32(v: int) -> int {
    if v >= 0x8000_0000 {
        v - 0x1_0000_0000
    } else {
        v
    }
}

/// The signed reading of an unsigned 64-bit value.
pub open spec fn signed64(v: int) -> int {
    if v >= 0x8000_0000_0000_0000 {
        v - 0x1_0000_0000_0000_0000
    } else {
        v
    }
}

/// Reads two big-endian bytes.
fn be_u16(s: &[u8], p: usize) -> (r: u16)
    requires
        p + 2 <= s@.len(),
    ensures
        r == be16_at(s@, p as int),
{
    (s[p] as u16) * 0x100 + s[p + 1] as u16
}

/// Reads four big-endian bytes.
fn be_u32(s: &[u8], p: usize) -> (r: u32)
    requires
        p + 4 <= s@.len(),
    ensures
        r == be32_at(s@, p as int),
{
    let n = s.len();
    proof {
        assert(p + 4 <= n);
    }
    (be_u16(s, p) as u32) * 0x1_0000 + be_u16(s, p + 2) as u32
}

/// Reads eight big-endian bytes.
fn be_u64(s: &[u8], p: usize) -> (r: u64)
    requires
        p + 8 <= s@.len(),
    ensures
        r == be64_at(s@, p as int),
{
    let n = s.len();
    proof {
        assert(p + 8 <= n);
    }
    (be_u32(s, p) as u64) * 0x1_0000_0000 + be_u32(s, p + 4) as u64
}

/// Whether two byte slices hold the same bytes.
pub(crate) fn bytes_eq(a: &[u8], b: &[u8]) -> (r: bool)
    ensures
        r == (a@ == b@),
{
    if a.len() != b.len() {
        return false;
    }
    let n = a.len();
    let mut i: usize = 0;
    while i < n
        invariant
            0 <= i <= n,
            n == a@.len() == b@.len(),
            forall|j: int| 0 <= j < i ==> a@[j] == b@[j],
        decreases n - i,
    {
        if a[i] != b[i] {
            return false;
        }
        i = i + 1;
    }
    proof {
        assert(a@ =~= b@);
    }
    true
}

/// An integer value at offset `p` of `s`, read as a signed 64-bit number:
/// fixints, unsigned and signed widths up to 64 bits. An unsigned value
/// above `i64::MAX` is out of range.
pub open spec fn spec_parse_int(s: Seq<u8>, p: int) -> Result<(i64, int), BodyError> {
    if !(0 <= p < s.len()) {
        Err(BodyError::Truncated)
    } else {
        let m = s[p];
        if m < 0x80 {
            Ok((m as i64, p + 1))
        } else if m >= 0xe0 {
            Ok(((m - 0x100) as i64, p + 1))
        } else if m == 0xcc {
            if p + 2 <= s.len() {
                Ok((s[p + 1] as i64, p + 2))
            } else {
                Err(BodyError::Truncated)
            }
        } else if m == 0xcd {
            if p + 3 <= s.len() {
                Ok((be16_at(s, p + 1) as i64, p + 3))
            } else {
                Err(BodyError::Truncated)
            }
        } else if m == 0xce {
            if p + 5 <= s.len() {
                Ok((be32_at(s, p + 1) as i64, p + 5))
            } else {
                Err(BodyError::Truncated)
            }
        } else if m == 0xcf {
            if p + 9 <= s.len() {
                if be64_at(s, p + 1) > i64::MAX {
                    Err(BodyError::IntOutOfRange)
                } else {
                    Ok((be64_at(s, p + 1) as i64, p + 9))
                }
            } else {
                Err(BodyError::Truncated)
            }
        } else if m == 0xd0 {
            if p + 2 <= s.len() {
                Ok((signed8(s[p + 1] as int) as i64, p + 2))
            } else {
                Err(BodyError::Truncated)
            }
        } else if m == 0xd1 {
            if p + 3 <= s.len() {
                Ok((signed16(be16_at(s, p + 1)) as i64, p + 3))
            } else {
                Err(BodyError::Truncated)
            }
        } else if m == 0xd2 {
            if p + 5 <= s.len() {
                Ok((signed32(be32_at(s, p + 1)) as i64, p + 5))
            } else {
                Err(BodyError::Truncated)
            }
        } else if m == 0xd3 {
            if p + 9 <= s.len() {
                Ok((signed64(be64_at(s, p + 1)) as i64, p + 9))
            } else {
                Err(BodyError::Truncated)
            }
        } else {
            Err(BodyError::UnexpectedType)
        }
    }
}

/// Parses an integer value into an `i64`.
pub(crate) fn parse_int(s: &[u8], p: usize) -> (r: Result<(i64, usize), BodyError>)
    ensures
        spec_parse_int(s@, p as int) matches Ok(t) ==> (r matches Ok(e) && e.0 == t.0 && e.1
            == t.1),
        spec_parse_int(s@, p as int) matches Err(er) ==> (r matches Err(e2) && e2 == er),
        r matches Ok(e) ==> p < e.1 <= s@.len(),
{
    if p >= s.len() {
        return Err(BodyError::Truncated);
    }
    let m = s[p];
    if m < 0x80 {
        Ok((m as i64, p + 1))
    } else if m >= 0xe0 {
        Ok((m as i64 - 0x100, p + 1))
    } else if m == 0xcc {
        if s.len() - p >= 2 {
            Ok((s[p + 1] as i64, p + 2))
        } else {
            Err(BodyError::Truncated)
        }
    } else if m == 0xcd {
        if s.len() - p >= 3 {
            Ok((be_u16(s, p + 1) as i64, p + 3))
        } else {
            Err(BodyError::Truncated)
        }
    } else if m == 0xce {
        if s.len() - p >= 5 {
            Ok((be_u32(s, p + 1) as i64, p + 5))
        } else {
            Err(BodyError::Truncated)
        }
    } else if m == 0xcf {
        if s.len() - p >= 9 {
            let v = be_u64(s, p + 1);
            if v > i64::MAX as u64 {
                Err(BodyError::IntOutOfRange)
            } else {
                Ok((v as i64, p + 9))
            }
        } else {
            Err(BodyError::Truncated)
        }
    } else if m == 0xd0 {
        if s.len() - p >= 2 {
            let b = s[p + 1];
            let v: i64 = if b >= 0x80 {
                b as i64 - 0x100
            } else {
                b as i64
            };
            Ok((v, p + 2))
        } else {
            Err(BodyError::Truncated)
        }
    } else if m == 0xd1 {
        if s.len() - p >= 3 {
            let b = be_u16(s, p + 1);
            let v: i64 = if b >= 0x8000 {
                b as i64 - 0x1_0000
            } else {
                b as i64
            };
            Ok((v, p + 3))
        } else {
            Err(BodyError::Truncated)
        }
    } else if m == 0xd2 {
        if s.len() - p >= 5 {
            let b = be_u32(s, p + 1);
            let v: i64 = if b >= 0x8000_0000 {
                b as i64 - 0x1_0000_0000
            } else {
                b as i64
            };
            Ok((v, p + 5))
        } else {
            Err(BodyError::Truncated)
        }
    } else if m == 0xd3 {
        if s.len() - p >= 9 {
            let b = be_u64(s, p + 1);
            let v: i64 = if b >= 0x8000_0000_0000_0000 {
                -((u64::MAX - b) as i64) - 1
            } else {
                b as i64
            };
            Ok((v, p + 9))
        } else {
            Err(BodyError::Truncated)
        }
    } else {
        Err(BodyError::UnexpectedType)
    }
}


/// An integer value narrowed to 32 bits; a value outside the 32-bit signed
/// range is out of range for the field.
pub open spec fn spec_parse_i32(s: Seq<u8>, p: int) -> Result<(i32, int), BodyError> {
    match spec_parse_int(s, p) {
        Err(e) => Err(e),
        Ok((v, q)) => if i32::MIN <= v <= i32::MAX {
            Ok((v as i32, q))
        } else {
            Err(BodyError::IntOutOfRange)
        },
    }
}

/// Parses an integer value into an `i32`.
pub(crate) fn parse_i32(s: &[u8], p: usize) -> (r: Result<(i32, usize), BodyError>)
    ensures
        spec_parse_i32(s@, p as int) matches Ok(t) ==> (r matches Ok(e) && e.0 == t.0 && e.1
            == t.1),
        spec_parse_i32(s@, p as int) matches Err(er) ==> (r matches Err(e2) && e2 == er),
        r matches Ok(e) ==> p < e.1 <= s@.len(),
{
    match parse_int(s, p) {
        Err(e) => Err(e),
        Ok((v, q)) => if i32::MIN as i64 <= v && v <= i32::MAX as i64 {
            Ok((v as i32, q))
        } else {
            Err(BodyError::IntOutOfRange)
        },
    }
}

/// A string value's bytes at offset `p` of `s`: fixstr or one of the sized
/// string markers, followed by that many bytes.
pub open spec fn spec_parse_str(s: Seq<u8>, p: int) -> Result<(Seq<u8>, int), BodyError> {
    if !(0 <= p < s.len()) {
        Err(BodyError::Truncated)
    } else {
        let m = s[p];
        let header: Result<(int, int), BodyError> = if 0xa0 <= m < 0xc0 {
            Ok(((m - 0xa0) as int, p + 1))
        } else if m == 0xd9 {
            if p + 2 <= s.len() {
                Ok((s[p + 1] as int, p + 2))
            } else {
                Err(BodyError::Truncated)
            }
        } else if m == 0xda {
            if p + 3 <= s.len() {
                Ok((be16_at(s, p + 1), p + 3))
            } else {
                Err(BodyError::Truncated)
            }
        } else if m == 0xdb {
            if p + 5 <= s.len() {
                Ok((be32_at(s, p + 1), p + 5))
            } else {
                Err(BodyError::Truncated)
            }
        } else {
            Err(BodyError::UnexpectedType)
        };
        match header {
            Err(e) => Err(e),
            Ok((len, q)) => if q + len <= s.len() {
                Ok((s.subrange(q, q + len), q + len))
            } else {
                Err(BodyError::Truncated)
            },
        }
    }
}

/// Parses a string value, returning its bytes as a borrowed slice.
pub(crate) fn parse_str<'p>(s: &'p [u8], p: usize) -> (r: Result<(&'p [u8], usize), BodyError>)
    ensures
        spec_parse_str(s@, p as int) matches Ok(t) ==> (r matches Ok(e) && e.0@ == t.0 && e.1
            == t.1),
        spec_parse_str(s@, p as int) matches Err(er) ==> (r matches Err(e2) && e2 == er),
        r matches Ok(e) ==> p < e.1 <= s@.len(),
{
    if p >= s.len() {
        return Err(BodyError::Truncated);
    }
    let m = s[p];
    let (len, q): (usize, usize) = if 0xa0 <= m && m < 0xc0 {
        ((m - 0xa0) as usize, p + 1)
    } else if m == 0xd9 {
        if s.len() - p >= 2 {
            (s[p + 1] as usize, p + 2)
        } else {
            return Err(BodyError::Truncated);
        }
    } else if m == 0xda {
        if s.len() - p >= 3 {
            (be_u16(s, p + 1) as usize, p + 3)
        } else {
            return Err(BodyError::Truncated);
        }
    } else if m == 0xdb {
        if s.len() - p >= 5 {
            (be_u32(s, p + 1) as usize, p + 5)
        } else {
            return Err(BodyError::Truncated);
        }
    } else {
        return Err(BodyError::UnexpectedType);
    };
    if len <= s.len() - q {
        let bytes = vstd::slice::slice_subrange(s, q, q + len);
        Ok((bytes, q + len))
    } else {
        Err(BodyError::Truncated)
    }
}

/// A binary value's bytes at offset `p` of `s`: one of the sized binary
/// markers, or any string value (string-encoded byte fields are accepted).
pub open spec fn spec_parse_bin(s: Seq<u8>, p: int) -> Result<(Seq<u8>, int), BodyError> {
    if !(0 <= p < s.len()) {
        Err(BodyError::Truncated)
    } else {
        let m = s[p];
        if m == 0xc4 {
            if p + 2 <= s.len() {
                let len = s[p + 1] as int;
                if p + 2 + len <= s.len() {
                    Ok((s.subrange(p + 2, p + 2 + len), p + 2 + len))
                } else {
                    Err(BodyError::Truncated)
                }
            } else {
                Err(BodyError::Truncated)
            }
        } else if m == 0xc5 {
            if p + 3 <= s.len() {
                let len = be16_at(s, p + 1);
                if p + 3 + len <= s.len() {
                    Ok((s.subrange(p + 3, p + 3 + len), p + 3 + len))
                } else {
                    Err(BodyError::Truncated)
                }
            } else {
                Err(BodyError::Truncated)
            }
        } else if m == 0xc6 {
            if p + 5 <= s.len() {
                let len = be32_at(s, p + 1);
                if p + 5 + len <= s.len() {
                    Ok((s.subrange(p + 5, p + 5 + len), p + 5 + len))
                } else {
                    Err(BodyError::Truncated)
                }
            } else {
                Err(BodyError::Truncated)
            }
        } else {
            spec_parse_str(s, p)
        }
    }
}

/// Parses a binary value, returning its bytes as a borrowed slice.
pub(crate) fn parse_bin<'p>(s: &'p [u8], p: usize) -> (r: Result<(&'p [u8], usize), BodyError>)
    ensures
        spec_parse_bin(s@, p as int) matches Ok(t) ==> (r matches Ok(e) && e.0@ == t.0 && e.1
            == t.1),
        spec_parse_bin(s@, p as int) matches Err(er) ==> (r matches Err(e2) && e2 == er),
        r matches Ok(e) ==> p < e.1 <= s@.len(),
{
    if p >= s.len() {
        return Err(BodyError::Truncated);
    }
    let m = s[p];
    let (len, q): (usize, usize) = if m == 0xc4 {
        if s.len() - p >= 2 {
            (s[p + 1] as usize, p + 2)
        } else {
            return Err(BodyError::Truncated);
        }
    } else if m == 0xc5 {
        if s.len() - p >= 3 {
            (be_u16(s, p + 1) as usize, p + 3)
        } else {
            return Err(BodyError::Truncated);
        }
    } else if m == 0xc6 {
        if s.len() - p >= 5 {
            (be_u32(s, p + 1) as usize, p + 5)
        } else {
            return Err(BodyError::Truncated);
        }
    } else {
        return parse_str(s, p);
    };
    if len <= s.len() - q {
        let bytes = vstd::slice::slice_subrange(s, q, q + len);
        Ok((bytes, q + len))
    } else {
        Err(BodyError::Truncated)
    }
}

/// A map header at offset `p` of `s`: the number of key-value pairs and the
/// position of the first key.
pub open spec fn spec_parse_map_len(s: Seq<u8>, p: int) -> Result<(int, int), BodyError> {
    if !(0 <= p < s.len()) {
        Err(BodyError::Truncated)
    } else {
        let m = s[p];
        if 0x80 <= m < 0x90 {
            Ok(((m - 0x80) as int, p + 1))
        } else if m == 0xde {
            if p + 3 <= s.len() {
                Ok((be16_at(s, p + 1), p + 3))
            } else {
                Err(BodyError::Truncated)
            }
        } else if m == 0xdf {
            if p + 5 <= s.len() {
                Ok((be32_at(s, p + 1), p + 5))
            } else {
                Err(BodyError::Truncated)
            }
        } else {
            Err(BodyError::UnexpectedType)
        }
    }
}

/// Parses a map header.
pub(crate) fn parse_map_len(s: &[u8], p: usize) -> (r: Result<(usize, usize), BodyError>)
    ensures
        spec_parse_map_len(s@, p as int) matches Ok(t) ==> (r matches Ok(e) && e.0 == t.0 && e.1
            == t.1),
        spec_parse_map_len(s@, p as int) matches Err(er) ==> (r matches Err(e2) && e2 == er),
        r matches Ok(e) ==> p < e.1 <= s@.len(),
{
    if p >= s.len() {
        return Err(BodyError::Truncated);
    }
    let m = s[p];
    if 0x80 <= m && m < 0x90 {
        Ok(((m - 0x80) as usize, p + 1))
    } else if m == 0xde {
        if s.len() - p >= 3 {
            Ok((be_u16(s, p + 1) as usize, p + 3))
        } else {
            Err(BodyError::Truncated)
        }
    } else if m == 0xdf {
        if s.len() - p >= 5 {
            Ok((be_u32(s, p + 1) as usize, p + 5))
        } else {
            Err(BodyError::Truncated)
        }
    } else {
        Err(BodyError::UnexpectedType)
    }
}

/// The position just past the value at offset `p` of `s`, whatever its
/// shape; unknown record fields are passed over with this.
pub open spec fn spec_skip_value(s: Seq<u8>, p: int) -> Result<int, BodyError>
    decreases s.len() - p, 0int,
{
    if !(0 <= p < s.len()) {
        Err(BodyError::Truncated)
    } else {
        let m = s[p];
        if m < 0x80 || m >= 0xe0 {
            Ok(p + 1)
        } else if m < 0x90 {
            spec_skip_n(s, p + 1, 2 * (m - 0x80))
        } else if m < 0xa0 {
            spec_skip_n(s, p + 1, m - 0x90)
        } else if m < 0xc0 {
            if p + 1 + (m - 0xa0) <= s.len() {
                Ok(p + 1 + (m - 0xa0))
            } else {
                Err(BodyError::Truncated)
            }
        } else if m == 0xc0 || m == 0xc2 || m == 0xc3 {
            Ok(p + 1)
        } else if m == 0xc4 || m == 0xd9 {
            if p + 2 <= s.len() {
                if p + 2 + s[p + 1] <= s.len() {
                    Ok(p + 2 + s[p + 1])
                } else {
                    Err(BodyError::Truncated)
                }
            } else {
                Err(BodyError::Truncated)
            }
        } else if m == 0xc5 || m == 0xda {
            if p + 3 <= s.len() {
                if p + 3 + be16_at(s, p + 1) <= s.len() {
                    Ok(p + 3 + be16_at(s, p + 1))
                } else {
                    Err(BodyError::Truncated)
                }
            } else {
                Err(BodyError::Truncated)
            }
        } else if m == 0xc6 || m == 0xdb {
            if p + 5 <= s.len() {
                if p + 5 + be32_at(s, p + 1) <= s.len() {
                    Ok(p + 5 + be32_at(s, p + 1))
                } else {
                    Err(BodyError::Truncated)
                }
            } else {
                Err(BodyError::Truncated)
            }
        } else if m == 0xc7 {
            if p + 2 <= s.len() {
                if p + 3 + s[p + 1] <= s.len() {
                    Ok(p + 3 + s[p + 1])
                } else {
                    Err(BodyError::Truncated)
                }
            } else {
                Err(BodyError::Truncated)
            }
        } else if m == 0xc8 {
            if p + 3 <= s.len() {
                if p + 4 + be16_at(s, p + 1) <= s.len() {
                    Ok(p + 4 + be16_at(s, p + 1))
                } else {
                    Err(BodyError::Truncated)
                }
            } else {
                Err(BodyError::Truncated)
            }
        } else if m == 0xc9 {
            if p + 5 <= s.len() {
                if p + 6 + be32_at(s, p + 1) <= s.len() {
                    Ok(p + 6 + be32_at(s, p + 1))
                } else {
                    Err(BodyError::Truncated)
                }
            } else {
                Err(BodyError::Truncated)
            }
        } else if m == 0xca || m == 0xce || m == 0xd2 {
            if p + 5 <= s.len() {
                Ok(p + 5)
            } else {
                Err(BodyError::Truncated)
            }
        } else if m == 0xcb || m == 0xcf || m == 0xd3 {
            if p + 9 <= s.len() {
                Ok(p + 9)
            } else {
                Err(BodyError::Truncated)
            }
        } else if m == 0xcc || m == 0xd0 {
            if p + 2 <= s.len() {
                Ok(p + 2)
            } else {
                Err(BodyError::Truncated)
            }
        } else if m == 0xcd || m == 0xd1 {
            if p + 3 <= s.len() {
                Ok(p + 3)
            } else {
                Err(BodyError::Truncated)
            }
        } else if m == 0xd4 {
            if p + 3 <= s.len() {
                Ok(p + 3)
            } else {
                Err(BodyError::Truncated)
            }
        } else if m == 0xd5 {
            if p + 4 <= s.len() {
                Ok(p + 4)
            } else {
                Err(BodyError::Truncated)
            }
        } else if m == 0xd6 {
            if p + 6 <= s.len() {
                Ok(p + 6)
            } else {
                Err(BodyError::Truncated)
            }
        } else if m == 0xd7 {
            if p + 10 <= s.len() {
                Ok(p + 10)
            } else {
                Err(BodyError::Truncated)
            }
        } else if m == 0xd8 {
            if p + 18 <= s.len() {
                Ok(p + 18)
            } else {
                Err(BodyError::Truncated)
            }
        } else if m == 0xdc {
            if p + 3 <= s.len() {
                spec_skip_n(s, p + 3, be16_at(s, p + 1))
            } else {
                Err(BodyError::Truncated)
            }
        } else if m == 0xdd {
            if p + 5 <= s.len() {
                spec_skip_n(s, p + 5, be32_at(s, p + 1))
            } else {
                Err(BodyError::Truncated)
            }
        } else if m == 0xde {
            if p + 3 <= s.len() {
                spec_skip_n(s, p + 3, 2 * be16_at(s, p + 1))
            } else {
                Err(BodyError::Truncated)
            }
        } else if m == 0xdf {
            if p + 5 <= s.len() {
                spec_skip_n(s, p + 5, 2 * be32_at(s, p + 1))
            } else {
                Err(BodyError::Truncated)
            }
        } else {
            Err(BodyError::UnexpectedType)
        }
    }
}

/// The position just past `n` consecutive values starting at offset `p`.
pub open spec fn spec_skip_n(s: Seq<u8>, p: int, n: int) -> Result<int, BodyError>
    decreases s.len() - p, n,
{
    if n <= 0 {
        Ok(p)
    } else if !(0 <= p <= s.len()) {
        Err(BodyError::Truncated)
    } else {
        match spec_skip_value(s, p) {
            Err(e) => Err(e),
            Ok(q) => if p < q <= s.len() {
                spec_skip_n(s, q, n - 1)
            } else {
                Err(BodyError::Truncated)
            },
        }
    }
}

/// Skips `n` consecutive values starting at `start`.
#[verifier::loop_isolation(false)]
fn skip_n(s: &[u8], start: usize, n: u64) -> (r: Result<usize, BodyError>)
    requires
        start <= s@.len(),
    ensures
        spec_skip_n(s@, start as int, n as int) matches Ok(q) ==> (r matches Ok(e) && e == q
            && start <= e <= s@.len()),
        spec_skip_n(s@, start as int, n as int) matches Err(er) ==> (r matches Err(e2) && e2
            == er),
    decreases s@.len() - start, n as int,
{
    let mut cur = start;
    let mut i: u64 = 0;
    while i < n
        invariant
            0 <= i <= n,
            start <= cur <= s@.len(),
            i > 0 ==> start < cur,
            spec_skip_n(s@, start as int, n as int) == spec_skip_n(
                s@,
                cur as int,
                n - i,
            ),
        decreases n - i,
    {
        match skip_value(s, cur) {
            Ok(q) => {
                cur = q;
            },
            Err(e) => {
                return Err(e);
            },
        }
        i = i + 1;
    }
    Ok(cur)
}

/// Skips one value of any shape, returning the position just past it.
#[verifier::loop_isolation(false)]
#[verifier::rlimit(100)]
pub(crate) fn skip_value(s: &[u8], p: usize) -> (r: Result<usize, BodyError>)
    ensures
        spec_skip_value(s@, p as int) matches Ok(q) ==> (r matches Ok(e) && e == q && p < e
            <= s@.len()),
        spec_skip_value(s@, p as int) matches Err(er) ==> (r matches Err(e2) && e2 == er),
    decreases s@.len() - p, 0int,
{
    let n = s.len();
    if p >= n {
        return Err(BodyError::Truncated);
    }
    let m = s[p];
    if m < 0x80 || m >= 0xe0 {
        Ok(p + 1)
    } else if m < 0x90 {
        let count = (m - 0x80) as u64;
        skip_n(s, p + 1, 2 * count)
    } else if m < 0xa0 {
        skip_n(s, p + 1, (m - 0x90) as u64)
    } else if m < 0xc0 {
        let len = (m - 0xa0) as usize;
        if len <= n - (p + 1) {
            Ok(p + 1 + len)
        } else {
            Err(BodyError::Truncated)
        }
    } else if m == 0xc0 || m == 0xc2 || m == 0xc3 {
        Ok(p + 1)
    } else if m == 0xc4 || m == 0xd9 {
        if n - p >= 2 {
            let len = s[p + 1] as usize;
            if len <= n - (p + 2) {
                Ok(p + 2 + len)
            } else {
                Err(BodyError::Truncated)
            }
        } else {
            Err(BodyError::Truncated)
        }
    } else if m == 0xc5 || m == 0xda {
        if n - p >= 3 {
            let len = be_u16(s, p + 1) as usize;
            if len <= n - (p + 3) {
                Ok(p + 3 + len)
            } else {
                Err(BodyError::Truncated)
            }
        } else {
            Err(BodyError::Truncated)
        }
    } else if m == 0xc6 || m == 0xdb {
        if n - p >= 5 {
            let len = be_u32(s, p + 1) as usize;
            if len <= n - (p + 5) {
                Ok(p + 5 + len)
            } else {
                Err(BodyError::Truncated)
            }
        } else {
            Err(BodyError::Truncated)
        }
    } else if m == 0xc7 {
        if n - p >= 2 {
            let len = s[p + 1] as usize;
            if n - p >= 3 && len <= n - (p + 3) {
                Ok(p + 3 + len)
            } else {
                Err(BodyError::Truncated)
            }
        } else {
            Err(BodyError::Truncated)
        }
    } else if m == 0xc8 {
        if n - p >= 3 {
            let len = be_u16(s, p + 1) as usize;
            if n - p >= 4 && len <= n - (p + 4) {
                Ok(p + 4 + len)
            } else {
                Err(BodyError::Truncated)
            }
        } else {
            Err(BodyError::Truncated)
        }
    } else if m == 0xc9 {
        if n - p >= 5 {
            let len = be_u32(s, p + 1) as usize;
            if n - p >= 6 && len <= n - (p + 6) {
                Ok(p + 6 + len)
            } else {
                Err(BodyError::Truncated)
            }
        } else {
            Err(BodyError::Truncated)
        }
    } else if m == 0xca || m == 0xce || m == 0xd2 {
        if n - p >= 5 {
            Ok(p + 5)
        } else {
            Err(BodyError::Truncated)
        }
    } else if m == 0xcb || m == 0xcf || m == 0xd3 {
        if n - p >= 9 {
            Ok(p + 9)
        } else {
            Err(BodyError::Truncated)
        }
    } else if m == 0xcc || m == 0xd0 {
        if n - p >= 2 {
            Ok(p + 2)
        } else {
            Err(BodyError::Truncated)
        }
    } else if m == 0xcd || m == 0xd1 {
        if n - p >= 3 {
            Ok(p + 3)
        } else {
            Err(BodyError::Truncated)
        }
    } else if m == 0xd4 {
        if n - p >= 3 {
            Ok(p + 3)
        } else {
            Err(BodyError::Truncated)
        }
    } else if m == 0xd5 {
        if n - p >= 4 {
            Ok(p + 4)
        } else {
            Err(BodyError::Truncated)
        }
    } else if m == 0xd6 {
        if n - p >= 6 {
            Ok(p + 6)
        } else {
            Err(BodyError::Truncated)
        }
    } else if m == 0xd7 {
        if n - p >= 10 {
            Ok(p + 10)
        } else {
            Err(BodyError::Truncated)
        }
    } else if m == 0xd8 {
        if n - p >= 18 {
            Ok(p + 18)
        } else {
            Err(BodyError::Truncated)
        }
    } else if m == 0xdc {
        if n - p >= 3 {
            let count = be_u16(s, p + 1) as u64;
            skip_n(s, p + 3, count)
        } else {
            Err(BodyError::Truncated)
        }
    } else if m == 0xdd {
        if n - p >= 5 {
            let count = be_u32(s, p + 1) as u64;
            skip_n(s, p + 5, count)
        } else {
            Err(BodyError::Truncated)
        }
    } else if m == 0xde {
        if n - p >= 3 {
            let count = be_u16(s, p + 1) as u64;
            skip_n(s, p + 3, 2 * count)
        } else {
            Err(BodyError::Truncated)
        }
    } else if m == 0xdf {
        if n - p >= 5 {
            let count = be_u32(s, p + 1) as u64;
            skip_n(s, p + 5, 2 * count)
        } else {
            Err(BodyError::Truncated)
        }
    } else {
        Err(BodyError::UnexpectedType)
    }
}

} // verus!
