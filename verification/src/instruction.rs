//! The instruction decoder: bit-field extraction, validity checks, and
//! rendering of a 16-bit word as assembly text.

use vstd::prelude::*;

use crate::bit::Bit;
use crate::errors::X86InstructionError;
use crate::opcodes::{opcode_of, opcode_text, X86Opcode};
use crate::registers::{register_of, register_text, X86Register};

verus! {

/// The 16-bit word two input bytes form, most-significant byte first.
pub open spec fn word_of_bytes(hi: u8, lo: u8) -> u16 {
    (256 * (hi as int) + (lo as int)) as u16
}

/// The 6-bit opcode field: bits 0-5, counted from the most significant bit.
pub open spec fn opcode_bits(raw: u16) -> u8 {
    ((raw as int / 1024) % 64) as u8
}

/// The 1-bit D field (bit 6): set means the REG field is the destination.
pub open spec fn d_flag(raw: u16) -> bool {
    (raw as int / 512) % 2 == 1
}

/// The 1-bit W field (bit 7): set selects the 16-bit register set.
pub open spec fn w_flag(raw: u16) -> bool {
    (raw as int / 256) % 2 == 1
}

/// The 2-bit MOD field (bits 8-9): the addressing mode.
pub open spec fn mod_bits(raw: u16) -> u8 {
    ((raw as int / 64) % 4) as u8
}

/// The 3-bit REG field (bits 10-12).
pub open spec fn reg_bits(raw: u16) -> u8 {
    ((raw as int / 8) % 8) as u8
}

/// The 3-bit R/M field (bits 13-15).
pub open spec fn rm_bits(raw: u16) -> u8 {
    (raw as int % 8) as u8
}

/// The register-direct addressing mode: the only MOD pattern supported.
pub const MOD_REGISTER_DIRECT: u8 = 0b11;

/// Whether a word decodes successfully: the opcode field must resolve to
/// the register-move operation and the MOD field must be register-direct.
pub open spec fn decode_ok(raw: u16) -> bool {
    &&& opcode_of(opcode_bits(raw)) is Mov
    &&& mod_bits(raw) == MOD_REGISTER_DIRECT
}

/// The destination register of a word: the REG field if D is set, else
/// the R/M field, resolved through the register table under W.
pub open spec fn dst_register(raw: u16) -> X86Register {
    if d_flag(raw) {
        register_of(w_flag(raw), reg_bits(raw))
    } else {
        register_of(w_flag(raw), rm_bits(raw))
    }
}

/// The source register of a word: the field the destination does not use.
pub open spec fn src_register(raw: u16) -> X86Register {
    if d_flag(raw) {
        register_of(w_flag(raw), rm_bits(raw))
    } else {
        register_of(w_flag(raw), reg_bits(raw))
    }
}

/// The text a successfully decoded word renders as:
/// `<mnemonic> <dst>, <src>`.
pub open spec fn instruction_text(raw: u16) -> Seq<char> {
    opcode_text(opcode_of(opcode_bits(raw))) + seq![' '] + register_text(dst_register(raw))
        + seq![',', ' '] + register_text(src_register(raw))
}

/// A 16-bit instruction word.  Immutable once constructed; every accessor
/// is a pure function of the word.
#[derive(Debug, Clone, Copy)]
pub struct X86Instruction {
    raw: u16,
}

impl View for X86Instruction {
    type V = u16;

    closed spec fn view(&self) -> u16 {
        self.raw
    }
}

impl X86Instruction {
    /// Build the instruction word from exactly two input bytes,
    /// most-significant byte first.
    pub fn new(buffer: [u8; 2]) -> (r: Self)
        ensures
            r@ == word_of_bytes(buffer[0], buffer[1]),
    {
        let hi = buffer[0];
        let lo = buffer[1];
        proof {
            assert(((hi as u16) << 8 | (lo as u16)) == (256 * (hi as int) + (lo as int)) as u16)
                by (bit_vector);
        }
        X86Instruction { raw: (hi as u16) << 8 | (lo as u16) }
    }

    /// Resolve the 6-bit opcode field against the opcode table.
    pub fn opcode(&self) -> (r: X86Opcode)
        ensures
            r == opcode_of(opcode_bits(self@)),
    {
        let raw = self.raw;
        proof {
            assert(((raw & 0b11111100_00000000) >> 10) as u8 == ((raw as int / 1024) % 64) as u8)
                by (bit_vector);
        }
        X86Opcode::from_u8(((self.raw & 0b11111100_00000000) >> 10) as u8)
    }

    /// Extract the 1-bit D field.
    pub fn d_bit(&self) -> (r: Bit)
        ensures
            r == Bit(d_flag(self@)),
    {
        let raw = self.raw;
        proof {
            assert((((raw & 0b00000010_00000000) >> 9) == 1) == ((raw as int / 512) % 2 == 1))
                by (bit_vector);
        }
        Bit(((self.raw & 0b00000010_00000000) >> 9) == 1)
    }

    /// Extract the 1-bit W field.
    pub fn w_bit(&self) -> (r: Bit)
        ensures
            r == Bit(w_flag(self@)),
    {
        let raw = self.raw;
        proof {
            assert((((raw & 0b00000001_00000000) >> 8) == 1) == ((raw as int / 256) % 2 == 1))
                by (bit_vector);
        }
        Bit(((self.raw & 0b00000001_00000000) >> 8) == 1)
    }

    /// Extract the 2-bit MOD field.
    pub fn mod_field(&self) -> (r: u8)
        ensures
            r == mod_bits(self@),
            r < 4,
    {
        let raw = self.raw;
        proof {
            assert(((raw & 0b00000000_11000000) >> 6) as u8 == ((raw as int / 64) % 4) as u8)
                by (bit_vector);
            assert((((raw as int / 64) % 4) as u8) < 4) by (bit_vector);
        }
        ((self.raw & 0b00000000_11000000) >> 6) as u8
    }

    /// Extract the 3-bit REG field.
    pub fn reg_field(&self) -> (r: u8)
        ensures
            r == reg_bits(self@),
            r < 8,
    {
        let raw = self.raw;
        proof {
            assert(((raw & 0b00000000_00111000) >> 3) as u8 == ((raw as int / 8) % 8) as u8)
                by (bit_vector);
            assert((((raw as int / 8) % 8) as u8) < 8) by (bit_vector);
        }
        ((self.raw & 0b00000000_00111000) >> 3) as u8
    }

    /// Extract the 3-bit R/M field.
    pub fn rm_field(&self) -> (r: u8)
        ensures
            r == rm_bits(self@),
            r < 8,
    {
        let raw = self.raw;
        proof {
            assert((raw & 0b00000000_00000111) as u8 == (raw as int % 8) as u8) by (bit_vector);
            assert(((raw as int % 8) as u8) < 8) by (bit_vector);
        }
        (self.raw & 0b00000000_00000111) as u8
    }

    /// Decode the word to its textual form.
    ///
    /// Succeeds exactly when the opcode field is the register-move pattern
    /// and the MOD field is register-direct; every failure is
    /// `InvalidInstruction`.  The register-resolution error is propagated
    /// unchanged, but the 3-bit extracted fields make it unreachable.
    pub fn format_instruction(&self) -> (r: Result<String, X86InstructionError>)
        ensures
            r is Ok <==> decode_ok(self@),
            r matches Ok(s) ==> s@ == instruction_text(self@),
            r matches Err(e) ==> e == X86InstructionError::InvalidInstruction,
    {
        let opcode = self.opcode();
        let op = match opcode {
            X86Opcode::Mov => opcode.text(),
            X86Opcode::InvalidInstruction => {
                return Err(X86InstructionError::InvalidInstruction);
            },
        };
        let w = self.w_bit();
        let d = self.d_bit();
        let mod_field = self.mod_field();
        let reg_field = self.reg_field();
        let rm_field = self.rm_field();

        let reg = match X86Register::from_w_and_field(w, reg_field) {
            Ok(register) => register,
            Err(e) => {
                return Err(e);
            },
        };
        let rm = match X86Register::from_w_and_field(w, rm_field) {
            Ok(register) => register,
            Err(e) => {
                return Err(e);
            },
        };
        if mod_field != MOD_REGISTER_DIRECT {
            return Err(X86InstructionError::InvalidInstruction);
        }
        let (dst, src) = if d == Bit(true) {
            (reg, rm)
        } else {
            (rm, reg)
        };
        let mut text = String::new();
        text.append(op);
        text.append(" ");
        text.append(dst.text());
        text.append(", ");
        text.append(src.text());
        proof {
            reveal_strlit(" ");
            reveal_strlit(", ");
            assert(text@ =~= instruction_text(self@));
        }
        Ok(text)
    }
}

} // verus!
