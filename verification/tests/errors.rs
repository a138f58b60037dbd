use chip8_lib::errors::{decimal_string, Chip8Error};

#[test]
fn decimal_numerals() {
    assert_eq!(decimal_string(0), "0");
    assert_eq!(decimal_string(7), "7");
    assert_eq!(decimal_string(10), "10");
    assert_eq!(decimal_string(4096), "4096");
    assert_eq!(decimal_string(1234567890), "1234567890");
    assert_eq!(decimal_string(u64::MAX), "18446744073709551615");
}

#[test]
fn error_messages() {
    assert_eq!(Chip8Error::StackUnderflow.message(), "Stack Underflow");
    assert_eq!(Chip8Error::StackOverflow.message(), "Stack Overflow");
    assert_eq!(Chip8Error::InvalidRegister(16).message(), "Invalid Register: 16");
    assert_eq!(Chip8Error::InvalidNibble(200).message(), "Invalid Nibble: 200");
    assert_eq!(
        Chip8Error::DisplayError(String::from("no window")).message(),
        "Display Error: no window"
    );
    assert_eq!(
        Chip8Error::InvalidInstruction(0x5001, 0x200).message(),
        "Invalid Instruction: 20481 @ PC: 512"
    );
}
