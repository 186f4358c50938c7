//! An x86/x64 instruction decoder.
//!
//! Given a byte buffer and a machine mode, [`decode`] produces a structured
//! [`DecodedInstruction`] record or a precise [`DecodeError`]. The decoder
//! consumes legacy, REX, VEX, XOP and EVEX prefixes, walks the one-byte and
//! two-byte opcode maps (plus a selection of VEX-encoded entries), decodes
//! ModRM/SIB/displacement/immediate bytes into concrete operands, and caps
//! every instruction at 15 bytes.
//!
//! The whole decode pipeline is specified by the pure function
//! [`decoder::spec_decode`]; the executable entry point is proved to return
//! exactly what that function describes.

pub mod category;
pub mod context;
pub mod coverage;
pub mod cursor;
pub mod decode_error;
pub mod decoder;
pub mod isa_set;
pub mod laws;
pub mod mnemonic;
pub mod opcode_table;
pub mod operand;
pub mod prefix;
pub mod walker;

pub use category::Category;
pub use context::MachineMode;
pub use decode_error::DecodeError;
pub use decoder::decode;
pub use decoder::DecodedInstruction;
pub use isa_set::IsaSet;
pub use mnemonic::Mnemonic;
pub use operand::Operand;
