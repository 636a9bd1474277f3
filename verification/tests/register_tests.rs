use inst_decoding_8086::{Bit, X86InstructionError, X86Register};

#[test]
fn test_from_w_and_field_w0() {
    for field in 0b000u8..=0b111u8 {
        let w = Bit(false);
        let register = X86Register::from_w_and_field(w, field).unwrap();

        let expected = match field {
            0b000 => X86Register::AL,
            0b001 => X86Register::CL,
            0b010 => X86Register::DL,
            0b011 => X86Register::BL,
            0b100 => X86Register::AH,
            0b101 => X86Register::CH,
            0b110 => X86Register::DH,
            0b111 => X86Register::BH,
            _ => X86Register::InvalidRegister,
        };

        assert_eq!(register, expected);
    }
}

#[test]
fn test_from_w_and_field_w1() {
    for field in 0b000u8..=0b111u8 {
        let w = Bit(true);
        let register = X86Register::from_w_and_field(w, field).unwrap();

        let expected = match field {
            0b000 => X86Register::AX,
            0b001 => X86Register::CX,
            0b010 => X86Register::DX,
            0b011 => X86Register::BX,
            0b100 => X86Register::SP,
            0b101 => X86Register::BP,
            0b110 => X86Register::SI,
            0b111 => X86Register::DI,
            _ => panic!("Invalid field value!"),
        };

        assert_eq!(register, expected);
    }
}

#[test]
fn test_invalid_register() {
    let invalid_result = X86Register::from_w_and_field(Bit(false), 0b10101);
    assert!(matches!(
        invalid_result,
        Err(X86InstructionError::InvalidRegister)
    ));

    let invalid_result = X86Register::from_w_and_field(Bit(true), 0b11000);
    assert!(matches!(
        invalid_result,
        Err(X86InstructionError::InvalidRegister)
    ));
}

#[test]
fn test_invalid_register_display() {
    let register = X86Register::InvalidRegister;
    let display_string = register.text();
    assert_eq!(display_string, "invalid");
}
