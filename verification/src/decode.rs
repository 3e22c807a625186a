//! Bounds-checked, forward-only byte cursor.
//!
//! All multi-byte integers in the wire format are little-endian; the
//! `le*_at` spec functions give the mathematical value of the bytes at a
//! given offset, and the `read_*` methods are proved to return exactly that
//! value while advancing the position.

use vstd::prelude::*;
use vstd::slice::slice_subrange;

use crate::error::StreamError;

verus! {

/// The smallest multiple of `alignment` that is at least `value`.
pub open spec fn spec_align_up(value: int, alignment: int) -> int
    recommends
        0 <= value,
        0 < alignment,
{
    value + ((alignment - value % alignment) % alignment)
}

/// Rounds `value` up to the next multiple of `alignment`.
fn align(value: usize, alignment: usize) -> (r: usize)
    requires
        0 < alignment,
        spec_align_up(value as int, alignment as int) <= usize::MAX,
    ensures
        r == spec_align_up(value as int, alignment as int),
{
    let rem = value % alignment;
    proof {
        if rem == 0 {
            vstd::arithmetic::div_mod::lemma_mod_self_0(alignment as int);
        } else {
            vstd::arithmetic::div_mod::lemma_small_mod(
                (alignment - rem) as nat,
                alignment as nat,
            );
        }
    }
    if rem == 0 {
        value
    } else {
        value + (alignment - rem)
    }
}

/// The value of the two little-endian bytes at offset `i` of `s`.
pub open spec fn le16_at(s: Seq<u8>, i: int) -> int
    recommends
        0 <= i,
        i + 2 <= s.len(),
{
    s[i] + 0x100 * s[i + 1]
}

/// The value of the four little-endian bytes at offset `i` of `s`.
pub open spec fn le32_at(s: Seq<u8>, i: int) -> int
    recommends
        0 <= i,
        i + 4 <= s.len(),
{
    le16_at(s, i) + 0x1_0000 * le16_at(s, i + 2)
}

/// The value of the eight little-endian bytes at offset `i` of `s`.
pub open spec fn le64_at(s: Seq<u8>, i: int) -> int
    recommends
        0 <= i,
        i + 8 <= s.len(),
{
    le32_at(s, i) + 0x1_0000_0000 * le32_at(s, i + 4)
}

/// Bounds-checked reader over a borrowed byte buffer.
///
/// Invariant (`wf`): `position <= limit <= data.len()`. The limit only ever
/// shrinks (`truncate`) and the position only ever grows (reads, `align`);
/// the underlying bytes are never mutated.
pub struct Decoder<'d> {
    pub data: &'d [u8],
    pub position: usize,
    pub limit: usize,
}

impl<'d> Decoder<'d> {
    /// Well-formedness: the position never passes the limit, and the limit
    /// never passes the end of the buffer.
    pub open spec fn wf(self) -> bool {
        self.position <= self.limit <= self.data@.len()
    }

    /// Bytes still readable before the limit.
    pub open spec fn spec_remaining(self) -> int {
        self.limit - self.position
    }

    /// A fresh cursor over the whole of `data`.
    pub fn new(data: &'d [u8]) -> (r: Self)
        ensures
            r.wf(),
            r.data@ == data@,
            r.position == 0,
            r.limit == data@.len(),
    {
        Decoder { data, position: 0, limit: data.len() }
    }

    /// The position `bytes` past the current one, if it stays within the
    /// limit.
    fn new_position(&self, bytes: usize) -> (r: Result<usize, StreamError>)
        requires
            self.wf(),
        ensures
            self.position + bytes <= self.limit ==> (r matches Ok(p) && p
                == self.position + bytes),
            self.position + bytes > self.limit ==> (r matches Err(e) && e
                == StreamError::OutOfBounds),
    {
        if bytes <= self.limit - self.position {
            Ok(self.position + bytes)
        } else {
            Err(StreamError::OutOfBounds)
        }
    }

    /// Checks that `position` is reachable by moving forward without passing
    /// the limit.
    fn ensure_position(&self, position: usize) -> (r: Result<usize, StreamError>)
        requires
            self.wf(),
        ensures
            r == (if position < self.position {
                Err::<usize, StreamError>(StreamError::BackwardMove)
            } else if position <= self.limit {
                Ok::<usize, StreamError>(position)
            } else {
                Err::<usize, StreamError>(StreamError::OutOfBounds)
            }),
    {
        if position < self.position {
            Err(StreamError::BackwardMove)
        } else if position <= self.limit {
            Ok(position)
        } else {
            Err(StreamError::OutOfBounds)
        }
    }

    /// Reads `bytes` bytes as a borrowed slice, advancing the position.
    /// Succeeds exactly when `bytes` bytes remain before the limit; on
    /// failure the cursor is unchanged.
    pub fn read(&mut self, bytes: usize) -> (r: Result<&'d [u8], StreamError>)
        requires
            old(self).wf(),
        ensures
            final(self).wf(),
            final(self).data == old(self).data,
            final(self).limit == old(self).limit,
            old(self).position + bytes <= old(self).limit ==> (r matches Ok(s) && s@ == old(
                self,
            ).data@.subrange(
                old(self).position as int,
                old(self).position + bytes,
            ) && final(self).position == old(self).position + bytes),
            old(self).position + bytes > old(self).limit ==> (r matches Err(e) && e
                == StreamError::OutOfBounds && final(self).position == old(self).position),
    {
        match self.new_position(bytes) {
            Ok(end) => {
                let s = slice_subrange(self.data, self.position, end);
                self.position = end;
                Ok(s)
            },
            Err(e) => Err(e),
        }
    }

    /// Shrinks the limit to `length`. Fails with `TruncationError` when
    /// `length` lies before the current position or past the current limit;
    /// truncation never clamps silently.
    pub fn truncate(&mut self, length: usize) -> (r: Result<(), StreamError>)
        requires
            old(self).wf(),
        ensures
            final(self).wf(),
            final(self).data == old(self).data,
            final(self).position == old(self).position,
            old(self).position <= length <= old(self).limit ==> (r matches Ok(u) && u == ()
                && final(self).limit == length),
            !(old(self).position <= length <= old(self).limit) ==> (r matches Err(e) && e
                == StreamError::TruncationError && final(self).limit == old(self).limit),
    {
        match self.ensure_position(length) {
            Ok(new_limit) => {
                self.limit = new_limit;
                Ok(())
            },
            Err(_) => Err(StreamError::TruncationError),
        }
    }

    /// Advances the position to the next multiple of `alignment`. Fails with
    /// `OutOfBounds` when that position lies past the limit; on failure the
    /// cursor is unchanged.
    pub fn align(&mut self, alignment: usize) -> (r: Result<(), StreamError>)
        requires
            old(self).wf(),
            0 < alignment,
        ensures
            final(self).wf(),
            final(self).data == old(self).data,
            final(self).limit == old(self).limit,
            spec_align_up(old(self).position as int, alignment as int) <= old(self).limit ==> (r matches Ok(u) && u == () && final(self).position == spec_align_up(
                old(self).position as int,
                alignment as int,
            )),
            spec_align_up(old(self).position as int, alignment as int) > old(self).limit ==> (r matches Err(e) && e == StreamError::OutOfBounds && final(self).position == old(
                self,
            ).position),
    {
        let rem = self.position % alignment;
        proof {
            if rem == 0 {
                vstd::arithmetic::div_mod::lemma_mod_self_0(alignment as int);
            } else {
                vstd::arithmetic::div_mod::lemma_small_mod(
                    (alignment - rem) as nat,
                    alignment as nat,
                );
            }
        }
        if rem == 0 {
            return Ok(());
        }
        let pad = alignment - rem;
        if pad <= self.limit - self.position {
            self.position = align(self.position, alignment);
            Ok(())
        } else {
            Err(StreamError::OutOfBounds)
        }
    }

    /// True when the position has reached the limit.
    pub fn is_empty(&self) -> (r: bool)
        requires
            self.wf(),
        ensures
            r == (self.position >= self.limit),
    {
        self.position >= self.limit
    }

    /// Reads one byte.
    pub fn read_u8(&mut self) -> (r: Result<u8, StreamError>)
        requires
            old(self).wf(),
        ensures
            final(self).wf(),
            final(self).data == old(self).data,
            final(self).limit == old(self).limit,
            old(self).position + 1 <= old(self).limit ==> (r matches Ok(v) && v == old(
                self,
            ).data@[old(self).position as int] && final(self).position == old(self).position + 1),
            old(self).position + 1 > old(self).limit ==> (r matches Err(e) && e
                == StreamError::OutOfBounds && final(self).position == old(self).position),
    {
        if 1 <= self.limit - self.position {
            let v = self.data[self.position];
            self.position = self.position + 1;
            Ok(v)
        } else {
            Err(StreamError::OutOfBounds)
        }
    }

    /// Reads a little-endian `u16`.
    pub fn read_u16(&mut self) -> (r: Result<u16, StreamError>)
        requires
            old(self).wf(),
        ensures
            final(self).wf(),
            final(self).data == old(self).data,
            final(self).limit == old(self).limit,
            old(self).position + 2 <= old(self).limit ==> (r matches Ok(v) && v == le16_at(
                old(self).data@,
                old(self).position as int,
            ) && final(self).position == old(self).position + 2),
            old(self).position + 2 > old(self).limit ==> (r matches Err(e) && e
                == StreamError::OutOfBounds && final(self).position == old(self).position),
    {
        if 2 <= self.limit - self.position {
            let b0 = self.data[self.position];
            let b1 = self.data[self.position + 1];
            self.position = self.position + 2;
            Ok(b0 as u16 + (b1 as u16) * 0x100)
        } else {
            Err(StreamError::OutOfBounds)
        }
    }

    /// Reads a little-endian `u32`.
    pub fn read_u32(&mut self) -> (r: Result<u32, StreamError>)
        requires
            old(self).wf(),
        ensures
            final(self).wf(),
            final(self).data == old(self).data,
            final(self).limit == old(self).limit,
            old(self).position + 4 <= old(self).limit ==> (r matches Ok(v) && v == le32_at(
                old(self).data@,
                old(self).position as int,
            ) && final(self).position == old(self).position + 4),
            old(self).position + 4 > old(self).limit ==> (r matches Err(e) && e
                == StreamError::OutOfBounds && final(self).position == old(self).position),
    {
        if 4 <= self.limit - self.position {
            let b0 = self.data[self.position];
            let b1 = self.data[self.position + 1];
            let b2 = self.data[self.position + 2];
            let b3 = self.data[self.position + 3];
            self.position = self.position + 4;
            Ok(b0 as u32 + (b1 as u32) * 0x100 + (b2 as u32) * 0x1_0000 + (b3 as u32) * 0x100_0000)
        } else {
            Err(StreamError::OutOfBounds)
        }
    }

    /// Reads a little-endian `u64`.
    pub fn read_u64(&mut self) -> (r: Result<u64, StreamError>)
        requires
            old(self).wf(),
        ensures
            final(self).wf(),
            final(self).data == old(self).data,
            final(self).limit == old(self).limit,
            old(self).position + 8 <= old(self).limit ==> (r matches Ok(v) && v == le64_at(
                old(self).data@,
                old(self).position as int,
            ) && final(self).position == old(self).position + 8),
            old(self).position + 8 > old(self).limit ==> (r matches Err(e) && e
                == StreamError::OutOfBounds && final(self).position == old(self).position),
    {
        if 8 <= self.limit - self.position {
            let b0 = self.data[self.position];
            let b1 = self.data[self.position + 1];
            let b2 = self.data[self.position + 2];
            let b3 = self.data[self.position + 3];
            let b4 = self.data[self.position + 4];
            let b5 = self.data[self.position + 5];
            let b6 = self.data[self.position + 6];
            let b7 = self.data[self.position + 7];
            self.position = self.position + 8;
            Ok(
                b0 as u64 + (b1 as u64) * 0x100 + (b2 as u64) * 0x1_0000 + (b3 as u64) * 0x100_0000
                    + (b4 as u64) * 0x1_0000_0000 + (b5 as u64) * 0x100_0000_0000 + (b6 as u64)
                    * 0x1_0000_0000_0000 + (b7 as u64) * 0x100_0000_0000_0000,
            )
        } else {
            Err(StreamError::OutOfBounds)
        }
    }

    /// Skips `bytes` bytes without handing them out.
    pub fn skip(&mut self, bytes: usize) -> (r: Result<(), StreamError>)
        requires
            old(self).wf(),
        ensures
            final(self).wf(),
            final(self).data == old(self).data,
            final(self).limit == old(self).limit,
            old(self).position + bytes <= old(self).limit ==> (r matches Ok(u) && u == ()
                && final(self).position == old(self).position + bytes),
            old(self).position + bytes > old(self).limit ==> (r matches Err(e) && e
                == StreamError::OutOfBounds && final(self).position == old(self).position),
    {
        match self.new_position(bytes) {
            Ok(end) => {
                self.position = end;
                Ok(())
            },
            Err(e) => Err(e),
        }
    }
}

} // verus!
