//! Disassembling a whole byte sequence into a listing.

use vstd::prelude::*;

use crate::errors::X86InstructionError;
use crate::instruction::{decode_ok, instruction_text, word_of_bytes, X86Instruction};

verus! {

/// The header line every listing starts with.
pub open spec fn listing_header() -> Seq<char> {
    seq!['b', 'i', 't', 's', ' ', '1', '6']
}

/// Whether every consecutive 2-byte chunk of the sequence decodes
/// successfully.  A dangling final byte counts as a failure: the format
/// has no instruction shorter than two bytes.
pub open spec fn chunks_ok(bytes: Seq<u8>) -> bool
    decreases bytes.len(),
{
    if bytes.len() == 0 {
        true
    } else if bytes.len() == 1 {
        false
    } else {
        decode_ok(word_of_bytes(bytes[0], bytes[1])) && chunks_ok(bytes.skip(2))
    }
}

/// The instruction lines of a listing: one line-break-prefixed
/// instruction text per 2-byte chunk, in input order.
pub open spec fn listing_body(bytes: Seq<u8>) -> Seq<char>
    decreases bytes.len(),
{
    if bytes.len() < 2 {
        Seq::empty()
    } else {
        seq!['\n'] + instruction_text(word_of_bytes(bytes[0], bytes[1])) + listing_body(
            bytes.skip(2),
        )
    }
}

/// The full listing text of a byte sequence: the header line followed by
/// one instruction line per chunk, with no trailing line break.
pub open spec fn listing_text(bytes: Seq<u8>) -> Seq<char> {
    listing_header() + listing_body(bytes)
}

/// A chunk that fails to decode makes the whole sequence fail.
proof fn lemma_chunks_ok_at(bytes: Seq<u8>, i: int)
    requires
        0 <= i,
        i % 2 == 0,
        i + 1 < bytes.len(),
        chunks_ok(bytes),
    ensures
        decode_ok(word_of_bytes(bytes[i], bytes[i + 1])),
    decreases i,
{
    if i > 0 {
        lemma_chunks_ok_at(bytes.skip(2), i - 2);
    }
}

/// A sequence of odd length has a dangling final byte and never decodes.
proof fn lemma_chunks_odd_fails(bytes: Seq<u8>)
    requires
        bytes.len() % 2 == 1,
    ensures
        !chunks_ok(bytes),
    decreases bytes.len(),
{
    if bytes.len() > 1 {
        lemma_chunks_odd_fails(bytes.skip(2));
    }
}

/// Extending an even-length prefix by one chunk extends its body by one
/// instruction line, and keeps it decodable exactly when the new chunk
/// decodes.
proof fn lemma_listing_extend(bytes: Seq<u8>, i: int)
    requires
        0 <= i,
        i % 2 == 0,
        i + 2 <= bytes.len(),
    ensures
        listing_body(bytes.take(i + 2)) == listing_body(bytes.take(i)) + seq!['\n']
            + instruction_text(word_of_bytes(bytes[i], bytes[i + 1])),
        chunks_ok(bytes.take(i + 2)) == (chunks_ok(bytes.take(i)) && decode_ok(
            word_of_bytes(bytes[i], bytes[i + 1]),
        )),
    decreases i,
{
    if i == 0 {
        assert(bytes.take(2).skip(2) =~= Seq::<u8>::empty());
        assert(bytes.take(0) =~= Seq::<u8>::empty());
        assert(listing_body(bytes.take(2)) =~= seq!['\n'] + instruction_text(
            word_of_bytes(bytes[0], bytes[1]),
        ));
    } else {
        lemma_listing_extend(bytes.skip(2), i - 2);
        assert(bytes.take(i + 2).skip(2) =~= bytes.skip(2).take(i));
        assert(bytes.take(i).skip(2) =~= bytes.skip(2).take(i - 2));
        assert(listing_body(bytes.take(i + 2)) =~= listing_body(bytes.take(i)) + seq!['\n']
            + instruction_text(word_of_bytes(bytes[i], bytes[i + 1])));
    }
}

/// Disassemble a byte sequence into a listing.
///
/// Partitions the bytes into consecutive 2-byte chunks and decodes each
/// in order.  Succeeds exactly when the length is even and every chunk
/// decodes; the result then starts with the header line and carries one
/// instruction line per chunk, in input order, with no trailing line
/// break.  The first failure aborts the whole operation: no partial
/// listing is returned, and a dangling final byte is rejected as
/// malformed input.
pub fn disassemble(bytes: &[u8]) -> (r: Result<String, X86InstructionError>)
    ensures
        r is Ok <==> chunks_ok(bytes@),
        r matches Ok(s) ==> s@ == listing_text(bytes@),
        r matches Err(e) ==> e == X86InstructionError::InvalidInstruction,
{
    let n = bytes.len();
    if n % 2 != 0 {
        proof {
            lemma_chunks_odd_fails(bytes@);
        }
        return Err(X86InstructionError::InvalidInstruction);
    }
    let mut listing = String::new();
    listing.append("bits 16");
    proof {
        reveal_strlit("bits 16");
        assert(bytes@.take(0) =~= Seq::<u8>::empty());
        assert(listing@ =~= listing_header());
    }
    let mut i: usize = 0;
    while i < n
        invariant
            n == bytes@.len(),
            n % 2 == 0,
            i % 2 == 0,
            i <= n,
            chunks_ok(bytes@.take(i as int)),
            listing@ == listing_header() + listing_body(bytes@.take(i as int)),
        decreases n - i,
    {
        let instruction = X86Instruction::new([bytes[i], bytes[i + 1]]);
        proof {
            lemma_listing_extend(bytes@, i as int);
        }
        match instruction.format_instruction() {
            Ok(formatted_instruction) => {
                listing.append("\n");
                listing.append(formatted_instruction.as_str());
                proof {
                    reveal_strlit("\n");
                    assert(listing@ =~= listing_header() + listing_body(
                        bytes@.take(i as int + 2),
                    ));
                }
            },
            Err(_) => {
                proof {
                    if chunks_ok(bytes@) {
                        lemma_chunks_ok_at(bytes@, i as int);
                    }
                }
                return Err(X86InstructionError::InvalidInstruction);
            },
        }
        i = i + 2;
    }
    proof {
        assert(bytes@.take(n as int) =~= bytes@);
    }
    Ok(listing)
}

} // verus!
