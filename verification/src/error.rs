use vstd::prelude::*;

verus! {

/// The ways a decode can fail. Decoding is deterministic, so none of these is
/// retryable: the same input always produces the same outcome.
#[derive(Debug, Clone, Copy, PartialEq, Eq, Structural)]
pub enum ExtabDecodeError {
    /// The input is shorter than the fixed 8-byte header; carries the input's
    /// exact length.
    ArrayTooSmall(u32),
    /// An action record's type tag is outside the known range; carries the tag
    /// and the absolute buffer offset of the record.
    InvalidActionValue(u32, u32),
    /// An exactly-8-byte table has a nonzero value where the mandatory
    /// PC-range terminator must be.
    InvalidSmallTableTerminator,
    /// A read (header, PC-range record, or action payload) would run past the
    /// end of the buffer.
    TruncatedBuffer,
    /// Defensive only: a destructor-bearing record type reports no known field
    /// offset. Indicates a mapping-table bug, not bad input; the verified
    /// decoder never returns it.
    Internal,
}

} // verus!
