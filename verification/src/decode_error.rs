//! The closed set of decode failures.

use vstd::prelude::*;

verus! {

/// Why a decode attempt failed.
///
/// Every failure of [`crate::decode`] is one of these; decoding never panics
/// and never reads outside the given buffer.
#[derive(Copy, Clone, Debug, PartialEq, Eq, Structural)]
pub enum DecodeError {
    /// The buffer is shorter than the bytes required at the point of failure.
    OutOfBuffer,
    /// The prefix bytes form a sequence the ISA forbids, such as REX
    /// followed by a VEX, XOP or EVEX prefix.
    InvalidPrefixSequence,
    /// No opcode-table entry matches the opcode bytes in the current mode.
    UnknownOpcode,
    /// The table entry is an explicit undefined-instruction marker.
    UdInstruction,
    /// A reserved ModRM encoding was hit, such as a register form of a
    /// memory-only instruction.
    InvalidModRm,
    /// The instruction would run past the 15-byte architectural limit.
    InstructionTooLong,
    /// An invariant violation: a numeric code that no table row maps.
    InternalError(u64),
}

} // verus!
