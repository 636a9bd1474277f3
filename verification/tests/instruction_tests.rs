use inst_decoding_8086::{Bit, X86Instruction, X86InstructionError, X86Opcode, X86Register};

#[test]
fn test_opcode_extraction() {
    let inst = X86Instruction::new([0b10001011, 0b11111111]);
    assert_eq!(inst.opcode(), X86Opcode::Mov);
}

#[test]
fn test_d_bit_extraction() {
    let inst = X86Instruction::new([0b00000010, 0b00000000]);
    assert_eq!(inst.d_bit(), Bit(true));
}

#[test]
fn test_w_bit_extraction() {
    let inst = X86Instruction::new([0b00000001, 0b00000000]);
    assert_eq!(inst.w_bit(), Bit(true));
}

#[test]
fn test_mod_field_extraction() {
    let inst = X86Instruction::new([0b00000000, 0b11000000]);
    assert_eq!(inst.mod_field(), 0b11);
}

#[test]
fn test_reg_field_extraction() {
    let inst = X86Instruction::new([0b00000000, 0b00111000]);
    assert_eq!(inst.reg_field(), 0b111);
}

#[test]
fn test_rm_field_extraction() {
    let inst = X86Instruction::new([0b00000000, 0b00000111]);
    assert_eq!(inst.rm_field(), 0b111);
}

#[test]
fn instruction_test_invalid_instruction() {
    let inst = X86Instruction::new([0b10000000, 0b00000000]);
    assert_eq!(
        inst.format_instruction(),
        Err(X86InstructionError::InvalidInstruction)
    );
}

#[test]
fn test_format_instruction_invalid_mod_field() {
    let src: u8 = 0b000;
    let dest: u8 = 0b000;
    let mod_bits: u8 = 0b01;
    let opcode: u8 = 0b100010;
    let first_byte: u8 = opcode << 2;
    let second_byte: u8 = (mod_bits << 6) | (src << 3) | dest;
    let instruction = X86Instruction::new([first_byte, second_byte]);
    let result = instruction.format_instruction();
    assert_eq!(result, Err(X86InstructionError::InvalidInstruction));
}

#[test]
fn test_instruction_mov_all_combinations() {
    let mut count: u32 = 0;
    for src in 0b000u8..=0b111u8 {
        for dest in 0b000u8..=0b111u8 {
            for d in 0u8..=1u8 {
                for w_msb in 0u8..=1u8 {
                    count += 1;
                    let w = Bit(w_msb == 1);
                    let mod_bits: u8 = 0b11;
                    let opcode: u8 = 0b100010;

                    let first_byte: u8 = (opcode << 2) | (d << 1) | w.0 as u8;
                    let second_byte: u8 = (mod_bits << 6) | (src << 3) | dest;

                    let inst = X86Instruction::new([first_byte, second_byte]);

                    let src_register = X86Register::from_w_and_field(w, src).unwrap();
                    let dest_register = X86Register::from_w_and_field(w, dest).unwrap();
                    let mnemonic = inst.format_instruction().unwrap();
                    if d == 0 {
                        assert_eq!(
                            mnemonic,
                            format!("mov {}, {}", dest_register.text(), src_register.text())
                        );
                    } else {
                        assert_eq!(
                            mnemonic,
                            format!("mov {}, {}", src_register.text(), dest_register.text())
                        );
                    }
                }
            }
        }
    }
    assert_eq!(count, 8 * 8 * 2 * 2);
}
