use inst_decoding_8086::{disassemble, X86Instruction, X86InstructionError};

#[test]
fn lib_test_invalid_instruction() {
    let result = disassemble(&[0xFF, 0xFF]);
    assert!(result.is_err());
    assert!(matches!(
        result,
        Err(X86InstructionError::InvalidInstruction)
    ));
}

#[test]
fn test_listing_single_mov() {
    let listing = disassemble(&[0x89, 0xD9]).unwrap();
    assert_eq!(listing, "bits 16\nmov cx, bx");
}

#[test]
fn test_listing_byte_width_mov() {
    let listing = disassemble(&[0x88, 0xC0]).unwrap();
    assert_eq!(listing, "bits 16\nmov al, al");
}

#[test]
fn test_listing_direction_masked_by_equal_operands() {
    let with_d_clear = disassemble(&[0x88, 0xC0]).unwrap();
    let with_d_set = disassemble(&[0x8A, 0xC0]).unwrap();
    assert_eq!(with_d_set, "bits 16\nmov al, al");
    assert_eq!(with_d_clear, with_d_set);
}

#[test]
fn test_listing_empty_input() {
    let listing = disassemble(&[]).unwrap();
    assert_eq!(listing, "bits 16");
}

#[test]
fn test_listing_many_instructions() {
    let listing = disassemble(&[0x89, 0xD9, 0x88, 0xC0, 0x8B, 0xCB]).unwrap();
    assert_eq!(listing, "bits 16\nmov cx, bx\nmov al, al\nmov cx, bx");
}

#[test]
fn test_listing_first_failure_aborts() {
    let result = disassemble(&[0x89, 0xD9, 0xFF, 0xFF, 0x89, 0xD9]);
    assert!(matches!(
        result,
        Err(X86InstructionError::InvalidInstruction)
    ));
}

#[test]
fn test_listing_dangling_byte_rejected() {
    let result = disassemble(&[0x89]);
    assert!(matches!(
        result,
        Err(X86InstructionError::InvalidInstruction)
    ));

    let result = disassemble(&[0x89, 0xD9, 0x89]);
    assert!(matches!(
        result,
        Err(X86InstructionError::InvalidInstruction)
    ));
}

#[test]
fn test_decode_is_idempotent() {
    for word in [[0x89u8, 0xD9u8], [0x88, 0xC0], [0x8A, 0xC0]] {
        let first = X86Instruction::new(word).format_instruction().unwrap();
        let second = X86Instruction::new(word).format_instruction().unwrap();
        assert_eq!(first, second);
    }
    let first = disassemble(&[0x89, 0xD9, 0x88, 0xC0]).unwrap();
    let second = disassemble(&[0x89, 0xD9, 0x88, 0xC0]).unwrap();
    assert_eq!(first, second);
}

#[test]
fn test_every_other_opcode_fails() {
    for opcode in 0u8..64u8 {
        // D = 0, W = 1, MOD = 11, REG = 001, R/M = 011
        let first_byte: u8 = (opcode << 2) | 0b01;
        let inst = X86Instruction::new([first_byte, 0b11001011]);
        let result = inst.format_instruction();
        if opcode == 0b100010 {
            assert_eq!(result.unwrap(), "mov bx, cx");
        } else {
            assert_eq!(result, Err(X86InstructionError::InvalidInstruction));
        }
    }
}

#[test]
fn test_every_other_mode_fails() {
    for mod_bits in 0u8..=0b10u8 {
        let second_byte: u8 = (mod_bits << 6) | 0b001011;
        let inst = X86Instruction::new([0b10001001, second_byte]);
        let result = inst.format_instruction();
        assert_eq!(result, Err(X86InstructionError::InvalidInstruction));
    }
}

#[test]
fn test_decode_never_panics_on_any_word() {
    for raw in 0u32..=0xFFFFu32 {
        let bytes = [(raw >> 8) as u8, (raw & 0xFF) as u8];
        let result = X86Instruction::new(bytes).format_instruction();
        match result {
            Ok(text) => {
                let mut parts = text.split(' ');
                assert_eq!(parts.next(), Some("mov"));
                let dst = parts.next().unwrap();
                let src = parts.next().unwrap();
                assert!(parts.next().is_none());
                assert!(dst.ends_with(','));
                assert_eq!(dst.len(), 3);
                assert_eq!(src.len(), 2);
            }
            Err(e) => {
                assert_eq!(e, X86InstructionError::InvalidInstruction);
            }
        }
    }
}
