use inst_decoding_8086::X86InstructionError;

#[test]
fn errors_test_fmt() {
    assert_eq!(X86InstructionError::InvalidInstruction.text(), "InvalidInstruction");
    assert_eq!(X86InstructionError::InvalidRegister.text(), "InvalidRegister");
}

#[test]
fn errors_test_debug_trait() {
    let err = X86InstructionError::InvalidInstruction;
    assert_eq!(format!("{:?}", err), "InvalidInstruction");

    let err = X86InstructionError::InvalidRegister;
    assert_eq!(format!("{:?}", err), "InvalidRegister");
}

#[test]
fn test_partial_eq_trait() {
    assert_eq!(
        X86InstructionError::InvalidInstruction,
        X86InstructionError::InvalidInstruction
    );
    assert_eq!(
        X86InstructionError::InvalidRegister,
        X86InstructionError::InvalidRegister
    );
    assert_ne!(
        X86InstructionError::InvalidInstruction,
        X86InstructionError::InvalidRegister
    );
}
