//! The faults that stop a machine step, and their messages.

use vstd::prelude::*;
use vstd::string::StringExecFns;

verus! {

/// A fault of the machine or of one of the parts that serve it.
#[derive(Debug, PartialEq, Eq)]
pub enum Chip8Error {
    /// A return was executed while the call stack was empty.
    StackUnderflow,
    /// A call was executed while the call stack was full.
    StackOverflow,
    /// An instruction names a register index that is not below 16.
    InvalidRegister(usize),
    /// A value that should fit in four bits does not.
    InvalidNibble(u8),
    /// The presentation surface reported a failure.
    DisplayError(String),
    /// The word that was fetched is no instruction: the word itself, then the
    /// program counter it was fetched from.
    InvalidInstruction(u16, u16),
}

/// The character that stands for a decimal digit.
pub open spec fn digit_char(d: nat) -> char {
    if d == 0 {
        '0'
    } else if d == 1 {
        '1'
    } else if d == 2 {
        '2'
    } else if d == 3 {
        '3'
    } else if d == 4 {
        '4'
    } else if d == 5 {
        '5'
    } else if d == 6 {
        '6'
    } else if d == 7 {
        '7'
    } else if d == 8 {
        '8'
    } else {
        '9'
    }
}

/// The decimal numeral of `n`, most significant digit first, without
/// leading zeros.
pub open spec fn decimal(n: nat) -> Seq<char>
    decreases n,
{
    if n < 10 {
        seq![digit_char(n)]
    } else {
        decimal(n / 10).push(digit_char(n % 10))
    }
}

fn digit_str(d: u64) -> (s: &'static str)
    requires
        d < 10,
    ensures
        s@ == seq![digit_char(d as nat)],
{
    proof {
        reveal_strlit("0");
        reveal_strlit("1");
        reveal_strlit("2");
        reveal_strlit("3");
        reveal_strlit("4");
        reveal_strlit("5");
        reveal_strlit("6");
        reveal_strlit("7");
        reveal_strlit("8");
        reveal_strlit("9");
    }
    let s = if d == 0 {
        "0"
    } else if d == 1 {
        "1"
    } else if d == 2 {
        "2"
    } else if d == 3 {
        "3"
    } else if d == 4 {
        "4"
    } else if d == 5 {
        "5"
    } else if d == 6 {
        "6"
    } else if d == 7 {
        "7"
    } else if d == 8 {
        "8"
    } else {
        "9"
    };
    assert(s@ =~= seq![digit_char(d as nat)]);
    s
}

/// Writes `n` as a decimal numeral.
pub fn decimal_string(n: u64) -> (s: String)
    ensures
        s@ == decimal(n as nat),
    decreases n,
{
    if n < 10 {
        String::from_str(digit_str(n))
    } else {
        let head = decimal_string(n / 10);
        let s = head.concat(digit_str(n % 10));
        assert(s@ =~= decimal(n as nat));
        s
    }
}

impl Chip8Error {
    /// The text of the message that describes this fault.
    pub open spec fn message_spec(self) -> Seq<char> {
        match self {
            Chip8Error::StackUnderflow => "Stack Underflow"@,
            Chip8Error::StackOverflow => "Stack Overflow"@,
            Chip8Error::InvalidRegister(register) => "Invalid Register: "@ + decimal(
                register as nat,
            ),
            Chip8Error::InvalidNibble(nibble) => "Invalid Nibble: "@ + decimal(nibble as nat),
            Chip8Error::DisplayError(e) => "Display Error: "@ + e@,
            Chip8Error::InvalidInstruction(word, pc) => "Invalid Instruction: "@ + decimal(
                word as nat,
            ) + " @ PC: "@ + decimal(pc as nat),
        }
    }

    /// Describes the fault in words, numbers in decimal.
    pub fn message(&self) -> (s: String)
        ensures
            s@ == self.message_spec(),
    {
        match self {
            Chip8Error::StackUnderflow => String::from_str("Stack Underflow"),
            Chip8Error::StackOverflow => String::from_str("Stack Overflow"),
            Chip8Error::InvalidRegister(register) => {
                let number = decimal_string(*register as u64);
                String::from_str("Invalid Register: ").concat(number.as_str())
            },
            Chip8Error::InvalidNibble(nibble) => {
                let number = decimal_string(*nibble as u64);
                String::from_str("Invalid Nibble: ").concat(number.as_str())
            },
            Chip8Error::DisplayError(e) => String::from_str("Display Error: ").concat(e.as_str()),
            Chip8Error::InvalidInstruction(word, pc) => {
                let word_number = decimal_string(*word as u64);
                let pc_number = decimal_string(*pc as u64);
                String::from_str("Invalid Instruction: ").concat(word_number.as_str()).concat(
                    " @ PC: ",
                ).concat(pc_number.as_str())
            },
        }
    }
}

} // verus!
