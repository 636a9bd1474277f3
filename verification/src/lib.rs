//! Decoder for a small subset of the 8086 instruction encoding.
//!
//! A 16-bit instruction word is split into its bit-fields, the fields are
//! resolved against the opcode and register tables, and the result is
//! rendered as assembly text such as `mov cx, bx`.  Only the
//! register-to-register `mov` form is supported; every other word is
//! rejected with a typed error.

pub mod bit;
pub mod errors;
pub mod instruction;
pub mod laws;
pub mod listing;
pub mod opcodes;
pub mod registers;
pub mod utils;

pub use bit::Bit;
pub use errors::X86InstructionError;
pub use instruction::X86Instruction;
pub use listing::disassemble;
pub use opcodes::X86Opcode;
pub use registers::X86Register;
