//! The decode error taxonomy.

use vstd::prelude::*;

verus! {

/// The two ways a decode can fail.
///
/// `InvalidInstruction` covers an opcode other than the supported
/// register-move pattern and an addressing mode other than register-direct.
/// `InvalidRegister` covers a register-selecting field outside the 3-bit
/// domain; the normal extraction path can never produce one, so it exists
/// only as a defensive contract.
#[derive(Debug, Clone, Copy, PartialEq, Eq, Structural)]
pub enum X86InstructionError {
    InvalidInstruction,
    InvalidRegister,
}

/// The text an error renders as: its variant name.
pub open spec fn error_text(e: X86InstructionError) -> Seq<char> {
    match e {
        X86InstructionError::InvalidInstruction => seq![
            'I', 'n', 'v', 'a', 'l', 'i', 'd', 'I', 'n', 's', 't', 'r', 'u', 'c', 't', 'i', 'o',
            'n',
        ],
        X86InstructionError::InvalidRegister => seq![
            'I', 'n', 'v', 'a', 'l', 'i', 'd', 'R', 'e', 'g', 'i', 's', 't', 'e', 'r',
        ],
    }
}

impl X86InstructionError {
    /// Human-readable rendering of the error.
    pub fn text(&self) -> (r: &'static str)
        ensures
            r@ == error_text(*self),
    {
        proof {
            reveal_strlit("InvalidInstruction");
            reveal_strlit("InvalidRegister");
        }
        match self {
            X86InstructionError::InvalidInstruction => "InvalidInstruction",
            X86InstructionError::InvalidRegister => "InvalidRegister",
        }
    }
}

} // verus!
