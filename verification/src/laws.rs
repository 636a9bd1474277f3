//! Laws of the decoder, stated and proved over its specification
//! functions.

use vstd::prelude::*;

use crate::instruction::{
    d_flag, decode_ok, dst_register, instruction_text, mod_bits, opcode_bits, reg_bits,
    rm_bits, src_register, w_flag, MOD_REGISTER_DIRECT,
};
use crate::opcodes::{opcode_text, X86Opcode, MOV_OPCODE};
use crate::registers::{register_of, register_text};

verus! {

/// Every successful decode renders as `<mnemonic> <reg>, <reg>`: the
/// recognized mnemonic, one space, a register name, a comma and a single
/// space, and a second register name — and neither operand is the
/// invalid-register sentinel.  Together with the decoder's contract,
/// which pins every failure to a typed error, this covers the whole
/// 16-bit word domain.
pub proof fn lemma_decode_text_shape(raw: u16)
    requires
        decode_ok(raw),
    ensures
        instruction_text(raw) == opcode_text(X86Opcode::Mov) + seq![' '] + register_text(
            dst_register(raw),
        ) + seq![',', ' '] + register_text(src_register(raw)),
        dst_register(raw) !is InvalidRegister,
        src_register(raw) !is InvalidRegister,
{
}

/// The word that encodes a register-direct move with the given D and W
/// flags and 3-bit REG and R/M fields.
pub open spec fn mov_word(d: bool, w: bool, reg: u8, rm: u8) -> u16 {
    (MOV_OPCODE as u16) << 10 | (if d {
        1u16
    } else {
        0u16
    }) << 9 | (if w {
        1u16
    } else {
        0u16
    }) << 8 | (MOD_REGISTER_DIRECT as u16) << 6 | (reg as u16) << 3 | (rm as u16)
}

/// Round trip: for every D and W flag and every pair of 3-bit fields,
/// the encoded register-direct move decodes, its fields read back
/// unchanged, and its text names the REG-selected register as the
/// destination exactly when D is set.
pub proof fn lemma_mov_round_trip(d: bool, w: bool, reg: u8, rm: u8)
    requires
        reg < 8,
        rm < 8,
    ensures
        decode_ok(mov_word(d, w, reg, rm)),
        d_flag(mov_word(d, w, reg, rm)) == d,
        w_flag(mov_word(d, w, reg, rm)) == w,
        reg_bits(mov_word(d, w, reg, rm)) == reg,
        rm_bits(mov_word(d, w, reg, rm)) == rm,
        dst_register(mov_word(d, w, reg, rm)) == register_of(
            w,
            if d {
                reg
            } else {
                rm
            },
        ),
        src_register(mov_word(d, w, reg, rm)) == register_of(
            w,
            if d {
                rm
            } else {
                reg
            },
        ),
        instruction_text(mov_word(d, w, reg, rm)) == opcode_text(X86Opcode::Mov) + seq![' ']
            + register_text(
            register_of(
                w,
                if d {
                    reg
                } else {
                    rm
                },
            ),
        ) + seq![',', ' '] + register_text(
            register_of(
                w,
                if d {
                    rm
                } else {
                    reg
                },
            ),
        ),
{
    let word = mov_word(d, w, reg, rm);
    assert(opcode_bits(word) == MOV_OPCODE && mod_bits(word) == MOD_REGISTER_DIRECT && d_flag(
        word,
    ) == d && w_flag(word) == w && reg_bits(word) == reg && rm_bits(word) == rm)
        by (bit_vector)
        requires
            reg < 8,
            rm < 8,
            word == (MOV_OPCODE as u16) << 10 | (if d {
                1u16
            } else {
                0u16
            }) << 9 | (if w {
                1u16
            } else {
                0u16
            }) << 8 | (MOD_REGISTER_DIRECT as u16) << 6 | (reg as u16) << 3 | (rm as u16),
    ;
}

/// An opcode field other than the register-move pattern makes the decode
/// fail — and the decoder's contract then pins the error to
/// `InvalidInstruction`.  With `lemma_mov_round_trip` this covers all 64
/// 6-bit opcode values: exactly one decodes.
pub proof fn lemma_unrecognized_opcode_fails(raw: u16)
    requires
        opcode_bits(raw) != MOV_OPCODE,
    ensures
        !decode_ok(raw),
{
}

/// A MOD field other than register-direct makes the decode fail — the
/// decoder has no operand-addressing support — and the decoder's
/// contract then pins the error to `InvalidInstruction`.
pub proof fn lemma_unsupported_mode_fails(raw: u16)
    requires
        mod_bits(raw) != MOD_REGISTER_DIRECT,
    ensures
        !decode_ok(raw),
{
}

/// Decoding is a pure function of the raw word: any two texts the
/// decoder's contract ties to the same word — two calls on one word —
/// are identical.
pub proof fn lemma_decode_deterministic(raw: u16, first: Seq<char>, second: Seq<char>)
    requires
        first == instruction_text(raw),
        second == instruction_text(raw),
    ensures
        first == second,
{
}

} // verus!
