//! The register table: (width flag, 3-bit field) to symbolic register names.

use vstd::prelude::*;

use crate::bit::Bit;
use crate::errors::X86InstructionError;

verus! {

/// The sixteen register names an instruction can select, plus a sentinel
/// for a field outside the 3-bit domain.  With the width flag clear the
/// eight byte-width aliases are selected; with it set, the eight
/// word-width registers.
#[derive(Debug, Clone, Copy, PartialEq, Eq, Structural)]
pub enum X86Register {
    AL,
    CL,
    DL,
    BL,
    AH,
    CH,
    DH,
    BH,
    AX,
    CX,
    DX,
    BX,
    SP,
    BP,
    SI,
    DI,
    InvalidRegister,
}

/// The register a (width flag, field) pair selects, for fields in the
/// 3-bit domain.  Total over w and field in [0, 7]: no overlap, no gap.
pub open spec fn register_of(w: bool, field: u8) -> X86Register {
    if !w {
        match field {
            0 => X86Register::AL,
            1 => X86Register::CL,
            2 => X86Register::DL,
            3 => X86Register::BL,
            4 => X86Register::AH,
            5 => X86Register::CH,
            6 => X86Register::DH,
            _ => X86Register::BH,
        }
    } else {
        match field {
            0 => X86Register::AX,
            1 => X86Register::CX,
            2 => X86Register::DX,
            3 => X86Register::BX,
            4 => X86Register::SP,
            5 => X86Register::BP,
            6 => X86Register::SI,
            _ => X86Register::DI,
        }
    }
}

/// The text a register renders as: its canonical two-letter lowercase
/// mnemonic, or `"invalid"` for the sentinel (display only; resolution
/// never returns the sentinel).
pub open spec fn register_text(r: X86Register) -> Seq<char> {
    match r {
        X86Register::AL => seq!['a', 'l'],
        X86Register::CL => seq!['c', 'l'],
        X86Register::DL => seq!['d', 'l'],
        X86Register::BL => seq!['b', 'l'],
        X86Register::AH => seq!['a', 'h'],
        X86Register::CH => seq!['c', 'h'],
        X86Register::DH => seq!['d', 'h'],
        X86Register::BH => seq!['b', 'h'],
        X86Register::AX => seq!['a', 'x'],
        X86Register::CX => seq!['c', 'x'],
        X86Register::DX => seq!['d', 'x'],
        X86Register::BX => seq!['b', 'x'],
        X86Register::SP => seq!['s', 'p'],
        X86Register::BP => seq!['b', 'p'],
        X86Register::SI => seq!['s', 'i'],
        X86Register::DI => seq!['d', 'i'],
        X86Register::InvalidRegister => seq!['i', 'n', 'v', 'a', 'l', 'i', 'd'],
    }
}

impl X86Register {
    /// Resolve a width flag and a register-selecting field against the
    /// table.  Succeeds exactly on the 3-bit domain; a wider field is a
    /// caller contract violation and yields `InvalidRegister` (defensive:
    /// unreachable through normal field extraction).
    pub fn from_w_and_field(w: Bit, field: u8) -> (r: Result<Self, X86InstructionError>)
        ensures
            field < 8 ==> r == Ok::<X86Register, X86InstructionError>(register_of(w.0, field)),
            field >= 8 ==> r == Err::<X86Register, X86InstructionError>(
                X86InstructionError::InvalidRegister,
            ),
    {
        match (w, field) {
            (Bit(false), 0b000) => Ok(X86Register::AL),
            (Bit(false), 0b001) => Ok(X86Register::CL),
            (Bit(false), 0b010) => Ok(X86Register::DL),
            (Bit(false), 0b011) => Ok(X86Register::BL),
            (Bit(false), 0b100) => Ok(X86Register::AH),
            (Bit(false), 0b101) => Ok(X86Register::CH),
            (Bit(false), 0b110) => Ok(X86Register::DH),
            (Bit(false), 0b111) => Ok(X86Register::BH),
            (Bit(true), 0b000) => Ok(X86Register::AX),
            (Bit(true), 0b001) => Ok(X86Register::CX),
            (Bit(true), 0b010) => Ok(X86Register::DX),
            (Bit(true), 0b011) => Ok(X86Register::BX),
            (Bit(true), 0b100) => Ok(X86Register::SP),
            (Bit(true), 0b101) => Ok(X86Register::BP),
            (Bit(true), 0b110) => Ok(X86Register::SI),
            (Bit(true), 0b111) => Ok(X86Register::DI),
            (_, _) => Err(X86InstructionError::InvalidRegister),
        }
    }

    /// Mnemonic rendering of the register.
    pub fn text(&self) -> (r: &'static str)
        ensures
            r@ == register_text(*self),
    {
        proof {
            reveal_strlit("al");
            reveal_strlit("cl");
            reveal_strlit("dl");
            reveal_strlit("bl");
            reveal_strlit("ah");
            reveal_strlit("ch");
            reveal_strlit("dh");
            reveal_strlit("bh");
            reveal_strlit("ax");
            reveal_strlit("cx");
            reveal_strlit("dx");
            reveal_strlit("bx");
            reveal_strlit("sp");
            reveal_strlit("bp");
            reveal_strlit("si");
            reveal_strlit("di");
            reveal_strlit("invalid");
        }
        match self {
            X86Register::AL => "al",
            X86Register::CL => "cl",
            X86Register::DL => "dl",
            X86Register::BL => "bl",
            X86Register::AH => "ah",
            X86Register::CH => "ch",
            X86Register::DH => "dh",
            X86Register::BH => "bh",
            X86Register::AX => "ax",
            X86Register::CX => "cx",
            X86Register::DX => "dx",
            X86Register::BX => "bx",
            X86Register::SP => "sp",
            X86Register::BP => "bp",
            X86Register::SI => "si",
            X86Register::DI => "di",
            X86Register::InvalidRegister => "invalid",
        }
    }
}

} // verus!
