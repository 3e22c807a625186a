//! Error taxonomy for structural decoding.

use vstd::prelude::*;

verus! {

/// A structural decoding error. Any of these is fatal to the current decode
/// pass: once the framing of the buffer cannot be trusted, no further frame
/// boundary can be trusted either.
#[derive(Debug, Clone, Copy, PartialEq, Eq, Structural)]
pub enum StreamError {
    /// A fixed or variable read would exceed the current limit.
    OutOfBounds,
    /// A computed end position lies before the current position. Defensive:
    /// the cursor's forward-only operations never produce such a position.
    BackwardMove,
    /// The segment's declared size is inconsistent with the buffer.
    TruncationError,
    /// The sub-header signature does not match the expected encoding.
    ProtocolMismatch,
    /// A frame's declared length implies a negative payload size.
    CorruptFrame,
}

} // verus!
