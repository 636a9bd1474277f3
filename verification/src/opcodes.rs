//! The opcode table: 6-bit patterns to symbolic operations.

use vstd::prelude::*;

verus! {

/// The 6-bit pattern of the register-move operation.
pub const MOV_OPCODE: u8 = 0b100010;

/// The operations this decoder understands.  Every 6-bit pattern other
/// than the register-move one resolves to `InvalidInstruction`, and any
/// attempt to format such a word fails instead of printing the
/// placeholder text.
#[derive(Debug, Clone, Copy, PartialEq, Eq, Structural)]
pub enum X86Opcode {
    Mov,
    InvalidInstruction,
}

/// The operation a 6-bit opcode value resolves to.
pub open spec fn opcode_of(value: u8) -> X86Opcode {
    if value == MOV_OPCODE {
        X86Opcode::Mov
    } else {
        X86Opcode::InvalidInstruction
    }
}

/// The text an operation renders as: its lowercase mnemonic, or a
/// placeholder for the unrecognized case (display only; never part of a
/// formatted instruction).
pub open spec fn opcode_text(op: X86Opcode) -> Seq<char> {
    match op {
        X86Opcode::Mov => seq!['m', 'o', 'v'],
        X86Opcode::InvalidInstruction => seq![
            'i', 'n', 'v', 'a', 'l', 'i', 'd', ' ', 'i', 'n', 's', 't', 'r', 'u', 'c', 't', 'i',
            'o', 'n',
        ],
    }
}

impl X86Opcode {
    /// Resolve a 6-bit opcode value against the table.
    pub fn from_u8(value: u8) -> (r: Self)
        ensures
            r == opcode_of(value),
    {
        match value {
            0b100010 => X86Opcode::Mov,
            _ => X86Opcode::InvalidInstruction,
        }
    }

    /// Mnemonic rendering of the operation.
    pub fn text(&self) -> (r: &'static str)
        ensures
            r@ == opcode_text(*self),
    {
        proof {
            reveal_strlit("mov");
            reveal_strlit("invalid instruction");
        }
        match self {
            X86Opcode::Mov => "mov",
            X86Opcode::InvalidInstruction => "invalid instruction",
        }
    }
}

} // verus!
