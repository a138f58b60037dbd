//! The interpreter: the opcode view, the instruction decoder and the machine
//! that executes instructions.
//!
//! An opcode is a 16-bit word. Its fields are named as usual:
//! `nnn` is the lowest 12 bits, `nn` the lowest 8 bits, `n` the lowest 4 bits,
//! `x` the lower 4 bits of the high byte and `y` the upper 4 bits of the low
//! byte.

use rand::Rng;
use vstd::prelude::*;
use vstd::std_specs::convert::IntoSpec;
use crate::drivers::keyboard_driver::Keyboard;
use crate::drivers::rom_driver::ROM;
use crate::errors::Chip8Error;
use crate::machine::{
    Machine, initial_machine, load_image, word_at_pc, advance, timer_step, sounding, sound_ends,
    store_bcd,
    store_registers, load_registers, apply, execute_step, cycle, cell_of, lemma_cell_unique,
    set_register, set_register_and_flag, wrap8, wrap16, sprite_at,
};
use crate::sprite::{
    xor_row, row_collides, draw_rows, draw_collides, lemma_row_start, lemma_row_step,
};

verus! {

/// The number of bytes of the built-in font.
pub const FONT_SET_SIZE: usize = 80;

/// The built-in font: five bytes for each of the hexadecimal digits `0` to `F`.
pub const FONT_SET: [u8; 80] = [
    0xF0, 0x90, 0x90, 0x90, 0xF0,
    0x20, 0x60, 0x20, 0x20, 0x70,
    0xF0, 0x10, 0xF0, 0x80, 0xF0,
    0xF0, 0x10, 0xF0, 0x10, 0xF0,
    0x90, 0x90, 0xF0, 0x10, 0x10,
    0xF0, 0x80, 0xF0, 0x10, 0xF0,
    0xF0, 0x80, 0xF0, 0x90, 0xF0,
    0xF0, 0x10, 0x20, 0x40, 0x40,
    0xF0, 0x90, 0xF0, 0x90, 0xF0,
    0xF0, 0x90, 0xF0, 0x10, 0xF0,
    0xF0, 0x90, 0xF0, 0x90, 0x90,
    0xE0, 0x90, 0xE0, 0x90, 0xE0,
    0xF0, 0x80, 0x80, 0x80, 0xF0,
    0xE0, 0x90, 0x90, 0x90, 0xE0,
    0xF0, 0x80, 0xF0, 0x80, 0xF0,
    0xF0, 0x80, 0xF0, 0x80, 0x80,
];

/// The number of return addresses that the call stack holds.
pub const STACK_SIZE: usize = 16;

/// The address at which a program is loaded and starts.
pub const ROM_START: u16 = 0x200;

/// The number of bytes of memory.
pub const MEMORY_SIZE: usize = 4096;

/// The number of bytes of the longest program that fits in memory.
pub const MAX_ROM_SIZE: usize = 3584;

/// The number of general-purpose registers.
pub const NUM_REGISTERS: usize = 16;

/// The number of pixels in a row of the display.
pub const DISPLAY_WIDTH: usize = 64;

/// The number of rows of the display.
pub const DISPLAY_HEIGHT: usize = 32;

/// The number of pixels of the display.
pub const DISPLAY_SIZE: usize = 2048;

/// The colour of a pixel that is off, as `0xRRGGBB`.
pub const BACK_COLOR: u32 = 0x0E0F12;

/// The colour of a pixel that is on, as `0xRRGGBB`.
pub const FORE_COLOR: u32 = 0x35D62F;

/// The index of a register.
pub type Register = usize;

/// A memory address. Twelve bits are meaningful; sixteen are stored.
pub type Address = u16;

/// Bits 12 to 15 of an opcode: the family of the instruction.
pub open spec fn field_family(raw: u16) -> int {
    raw as int / 4096
}

/// Bits 8 to 11 of an opcode.
pub open spec fn field_x(raw: u16) -> int {
    (raw as int / 256) % 16
}

/// Bits 4 to 7 of an opcode.
pub open spec fn field_y(raw: u16) -> int {
    (raw as int / 16) % 16
}

/// Bits 0 to 3 of an opcode.
pub open spec fn field_n(raw: u16) -> int {
    raw as int % 16
}

/// Bits 0 to 7 of an opcode.
pub open spec fn field_nn(raw: u16) -> int {
    raw as int % 256
}

/// Bits 0 to 11 of an opcode.
pub open spec fn field_nnn(raw: u16) -> int {
    raw as int % 4096
}

/// A raw 16-bit instruction word, read as named bit-fields.
pub struct OpCode(pub u16);

impl View for OpCode {
    type V = u16;

    open spec fn view(&self) -> u16 {
        self.0
    }
}

impl OpCode {
    /// Wraps a raw word.
    pub fn new(op: u16) -> (opcode: OpCode)
        ensures
            opcode@ == op,
    {
        OpCode(op)
    }

    /// The raw word.
    pub fn raw(&self) -> (word: u16)
        ensures
            word == self@,
    {
        self.0
    }

    /// The family of the instruction: `0xF000`, as a number below 16.
    pub fn family(&self) -> (family: u8)
        ensures
            family == field_family(self@),
    {
        let word: u16 = self.0;
        assert(word >> 12 == word / 4096) by (bit_vector);
        (word >> 12) as u8
    }

    /// The X register of the opcode: `0x0X00`.
    pub fn x(&self) -> (x: usize)
        ensures
            x == field_x(self@),
    {
        let word: u16 = self.0;
        assert((word & 0x0F00) >> 8 == (word / 256) % 16) by (bit_vector);
        ((word & 0x0F00) >> 8) as usize
    }

    /// The Y register of the opcode: `0x00Y0`.
    pub fn y(&self) -> (y: usize)
        ensures
            y == field_y(self@),
    {
        let word: u16 = self.0;
        assert((word & 0x00F0) >> 4 == (word / 16) % 16) by (bit_vector);
        ((word & 0x00F0) >> 4) as usize
    }

    /// The last nibble of the opcode: `0x000N`.
    pub fn n(&self) -> (n: u8)
        ensures
            n == field_n(self@),
    {
        let word: u16 = self.0;
        assert(word & 0x000F == word % 16) by (bit_vector);
        (word & 0x000F) as u8
    }

    /// The last two nibbles of the opcode: `0x00NN`.
    pub fn nn(&self) -> (nn: u8)
        ensures
            nn == field_nn(self@),
    {
        let word: u16 = self.0;
        assert(word & 0x00FF == word % 256) by (bit_vector);
        (word & 0x00FF) as u8
    }

    /// The last three nibbles of the opcode: `0x0NNN`.
    pub fn nnn(&self) -> (nnn: u16)
        ensures
            nnn == field_nnn(self@),
    {
        let word: u16 = self.0;
        assert(word & 0x0FFF == word % 4096) by (bit_vector);
        word & 0x0FFF
    }
}

impl From<u16> for OpCode {
    fn from(op: u16) -> (opcode: OpCode)
    {
        OpCode(op)
    }
}

impl vstd::std_specs::convert::FromSpecImpl<u16> for OpCode {
    open spec fn obeys_from_spec() -> bool {
        true
    }

    open spec fn from_spec(op: u16) -> OpCode {
        OpCode(op)
    }
}

/// The instructions of the machine.
#[derive(Debug, Clone, Copy, PartialEq, Eq, Structural)]
pub enum Instruction {
    /// `00E0`: clear the display.
    ClearDisplay,
    /// `00EE`: return from a subroutine.
    Return,
    /// `1NNN`: jump to an address.
    Jump(Address),
    /// `2NNN`: call the subroutine at an address.
    Call(Address),
    /// `3XNN`: skip the next instruction if `Vx` equals a byte.
    SkipEqual(Register, u8),
    /// `4XNN`: skip the next instruction if `Vx` differs from a byte.
    SkipNotEqual(Register, u8),
    /// `5XY0`: skip the next instruction if `Vx` equals `Vy`.
    SkipEqualXY(Register, Register),
    /// `6XNN`: set `Vx` to a byte.
    Load(Register, u8),
    /// `7XNN`: add a byte to `Vx`.
    Add(Register, u8),
    /// `8XY0`: set `Vx` to `Vy`.
    Move(Register, Register),
    /// `8XY1`: set `Vx` to `Vx` or `Vy`.
    Or(Register, Register),
    /// `8XY2`: set `Vx` to `Vx` and `Vy`.
    And(Register, Register),
    /// `8XY3`: set `Vx` to `Vx` xor `Vy`.
    Xor(Register, Register),
    /// `8XY4`: add `Vy` to `Vx`; `VF` is the carry.
    AddXY(Register, Register),
    /// `8XY5`: subtract `Vy` from `Vx`; `VF` is 1 unless there is a borrow.
    SubXY(Register, Register),
    /// `8XY6`: shift `Vx` right by one; `VF` is the bit shifted out.
    ShiftRight(Register),
    /// `8XY7`: set `Vx` to `Vy` minus `Vx`; `VF` is 1 unless there is a borrow.
    SubYX(Register, Register),
    /// `8XYE`: shift `Vx` left by one; `VF` is the bit shifted out.
    ShiftLeft(Register),
    /// `9XY0`: skip the next instruction if `Vx` differs from `Vy`.
    SkipNotEqualXY(Register, Register),
    /// `ANNN`: set `I` to an address.
    LoadI(Address),
    /// `BNNN`: jump to an address plus `V0`.
    JumpV0(Address),
    /// `CXNN`: set `Vx` to a random byte masked with a byte.
    Random(Register, u8),
    /// `DXYN`: draw the sprite of `N` rows at `I` at column `Vx`, row `Vy`;
    /// `VF` tells whether a pixel was switched off.
    Draw(Register, Register, u8),
    /// `EX9E`: skip the next instruction if the key `Vx` is pressed.
    SkipKeyPressed(Register),
    /// `EXA1`: skip the next instruction unless the key `Vx` is pressed.
    SkipKeyNotPressed(Register),
    /// `FX07`: set `Vx` to the delay timer.
    LoadDelay(Register),
    /// `FX0A`: wait for a key and store it in `Vx`.
    WaitKeyPress(Register),
    /// `FX15`: set the delay timer to `Vx`.
    SetDelay(Register),
    /// `FX18`: set the sound timer to `Vx`.
    SetSound(Register),
    /// `FX1E`: add `Vx` to `I`.
    AddI(Register),
    /// `FX29`: set `I` to the address of the glyph for the digit `Vx`.
    LoadFont(Register),
    /// `FX33`: store the decimal digits of `Vx` at `I`, `I + 1` and `I + 2`.
    StoreBCD(Register),
    /// `FX55`: store `V0` to `Vx` in memory from `I` on.
    StoreRegisters(Register),
    /// `FX65`: load `V0` to `Vx` from memory from `I` on.
    LoadMemory(Register),
}

/// The instruction that a raw word stands for, if it stands for one.
///
/// The family (the highest nibble) is looked at first. In the families `0`,
/// `E` and `F` the low byte tells the instructions apart, in the family `8`
/// the low nibble does, and in the families `5` and `9` the low nibble must
/// be zero. A word that fits no pattern stands for no instruction.
#[verifier::opaque]
pub open spec fn decode(raw: u16) -> Option<Instruction> {
    let family = field_family(raw);
    let x = field_x(raw) as usize;
    let y = field_y(raw) as usize;
    let n = field_n(raw) as u8;
    let nn = field_nn(raw) as u8;
    let nnn = field_nnn(raw) as u16;
    if family == 0x0 {
        if nn == 0xE0 {
            Some(Instruction::ClearDisplay)
        } else if nn == 0xEE {
            Some(Instruction::Return)
        } else {
            None
        }
    } else if family == 0x1 {
        Some(Instruction::Jump(nnn))
    } else if family == 0x2 {
        Some(Instruction::Call(nnn))
    } else if family == 0x3 {
        Some(Instruction::SkipEqual(x, nn))
    } else if family == 0x4 {
        Some(Instruction::SkipNotEqual(x, nn))
    } else if family == 0x5 {
        if n == 0 {
            Some(Instruction::SkipEqualXY(x, y))
        } else {
            None
        }
    } else if family == 0x6 {
        Some(Instruction::Load(x, nn))
    } else if family == 0x7 {
        Some(Instruction::Add(x, nn))
    } else if family == 0x8 {
        if n == 0x0 {
            Some(Instruction::Move(x, y))
        } else if n == 0x1 {
            Some(Instruction::Or(x, y))
        } else if n == 0x2 {
            Some(Instruction::And(x, y))
        } else if n == 0x3 {
            Some(Instruction::Xor(x, y))
        } else if n == 0x4 {
            Some(Instruction::AddXY(x, y))
        } else if n == 0x5 {
            Some(Instruction::SubXY(x, y))
        } else if n == 0x6 {
            Some(Instruction::ShiftRight(x))
        } else if n == 0x7 {
            Some(Instruction::SubYX(x, y))
        } else if n == 0xE {
            Some(Instruction::ShiftLeft(x))
        } else {
            None
        }
    } else if family == 0x9 {
        if n == 0 {
            Some(Instruction::SkipNotEqualXY(x, y))
        } else {
            None
        }
    } else if family == 0xA {
        Some(Instruction::LoadI(nnn))
    } else if family == 0xB {
        Some(Instruction::JumpV0(nnn))
    } else if family == 0xC {
        Some(Instruction::Random(x, nn))
    } else if family == 0xD {
        Some(Instruction::Draw(x, y, n))
    } else if family == 0xE {
        if nn == 0x9E {
            Some(Instruction::SkipKeyPressed(x))
        } else if nn == 0xA1 {
            Some(Instruction::SkipKeyNotPressed(x))
        } else {
            None
        }
    } else {
        if nn == 0x07 {
            Some(Instruction::LoadDelay(x))
        } else if nn == 0x0A {
            Some(Instruction::WaitKeyPress(x))
        } else if nn == 0x15 {
            Some(Instruction::SetDelay(x))
        } else if nn == 0x18 {
            Some(Instruction::SetSound(x))
        } else if nn == 0x1E {
            Some(Instruction::AddI(x))
        } else if nn == 0x29 {
            Some(Instruction::LoadFont(x))
        } else if nn == 0x33 {
            Some(Instruction::StoreBCD(x))
        } else if nn == 0x55 {
            Some(Instruction::StoreRegisters(x))
        } else if nn == 0x65 {
            Some(Instruction::LoadMemory(x))
        } else {
            None
        }
    }
}

impl Instruction {
    /// The first register operand of the instruction, if it has one.
    pub open spec fn first_register(self) -> Option<Register> {
        match self {
            Instruction::ClearDisplay => None,
            Instruction::Return => None,
            Instruction::Jump(_) => None,
            Instruction::Call(_) => None,
            Instruction::SkipEqual(x, _) => Some(x),
            Instruction::SkipNotEqual(x, _) => Some(x),
            Instruction::SkipEqualXY(x, _) => Some(x),
            Instruction::Load(x, _) => Some(x),
            Instruction::Add(x, _) => Some(x),
            Instruction::Move(x, _) => Some(x),
            Instruction::Or(x, _) => Some(x),
            Instruction::And(x, _) => Some(x),
            Instruction::Xor(x, _) => Some(x),
            Instruction::AddXY(x, _) => Some(x),
            Instruction::SubXY(x, _) => Some(x),
            Instruction::ShiftRight(x) => Some(x),
            Instruction::SubYX(x, _) => Some(x),
            Instruction::ShiftLeft(x) => Some(x),
            Instruction::SkipNotEqualXY(x, _) => Some(x),
            Instruction::LoadI(_) => None,
            Instruction::JumpV0(_) => None,
            Instruction::Random(x, _) => Some(x),
            Instruction::Draw(x, _, _) => Some(x),
            Instruction::SkipKeyPressed(x) => Some(x),
            Instruction::SkipKeyNotPressed(x) => Some(x),
            Instruction::LoadDelay(x) => Some(x),
            Instruction::WaitKeyPress(x) => Some(x),
            Instruction::SetDelay(x) => Some(x),
            Instruction::SetSound(x) => Some(x),
            Instruction::AddI(x) => Some(x),
            Instruction::LoadFont(x) => Some(x),
            Instruction::StoreBCD(x) => Some(x),
            Instruction::StoreRegisters(x) => Some(x),
            Instruction::LoadMemory(x) => Some(x),
        }
    }

    /// The second register operand of the instruction, if it has one.
    pub open spec fn second_register(self) -> Option<Register> {
        match self {
            Instruction::SkipEqualXY(_, y) => Some(y),
            Instruction::Move(_, y) => Some(y),
            Instruction::Or(_, y) => Some(y),
            Instruction::And(_, y) => Some(y),
            Instruction::Xor(_, y) => Some(y),
            Instruction::AddXY(_, y) => Some(y),
            Instruction::SubXY(_, y) => Some(y),
            Instruction::SubYX(_, y) => Some(y),
            Instruction::SkipNotEqualXY(_, y) => Some(y),
            Instruction::Draw(_, y, _) => Some(y),
            _ => None,
        }
    }

    /// The first register operand that names no register, if there is one.
    pub open spec fn invalid_register(self) -> Option<Register> {
        match self.first_register() {
            Some(x) if x >= NUM_REGISTERS => Some(x),
            _ => match self.second_register() {
                Some(y) if y >= NUM_REGISTERS => Some(y),
                _ => None,
            },
        }
    }

    /// Whether the operands are those of a decoded word: registers below 16,
    /// addresses below 4096 and a sprite height below 16.
    pub open spec fn wf(self) -> bool {
        &&& self.invalid_register() is None
        &&& match self {
            Instruction::Jump(addr) => addr < 4096,
            Instruction::Call(addr) => addr < 4096,
            Instruction::LoadI(addr) => addr < 4096,
            Instruction::JumpV0(addr) => addr < 4096,
            Instruction::Draw(_, _, height) => height < 16,
            _ => true,
        }
    }

    /// Decodes an opcode.
    pub fn decode(opcode: OpCode) -> (result: Option<Instruction>)
        ensures
            result == decode(opcode@),
            result matches Some(instruction) ==> instruction.wf(),
    {
        reveal(decode);
        let family = opcode.family();
        let x = opcode.x();
        let y = opcode.y();
        let n = opcode.n();
        let nn = opcode.nn();
        let nnn = opcode.nnn();
        match family {
            0x0 => match nn {
                0xE0 => Some(Instruction::ClearDisplay),
                0xEE => Some(Instruction::Return),
                _ => None,
            },
            0x1 => Some(Instruction::Jump(nnn)),
            0x2 => Some(Instruction::Call(nnn)),
            0x3 => Some(Instruction::SkipEqual(x, nn)),
            0x4 => Some(Instruction::SkipNotEqual(x, nn)),
            0x5 => match n {
                0x0 => Some(Instruction::SkipEqualXY(x, y)),
                _ => None,
            },
            0x6 => Some(Instruction::Load(x, nn)),
            0x7 => Some(Instruction::Add(x, nn)),
            0x8 => match n {
                0x0 => Some(Instruction::Move(x, y)),
                0x1 => Some(Instruction::Or(x, y)),
                0x2 => Some(Instruction::And(x, y)),
                0x3 => Some(Instruction::Xor(x, y)),
                0x4 => Some(Instruction::AddXY(x, y)),
                0x5 => Some(Instruction::SubXY(x, y)),
                0x6 => Some(Instruction::ShiftRight(x)),
                0x7 => Some(Instruction::SubYX(x, y)),
                0xE => Some(Instruction::ShiftLeft(x)),
                _ => None,
            },
            0x9 => match n {
                0x0 => Some(Instruction::SkipNotEqualXY(x, y)),
                _ => None,
            },
            0xA => Some(Instruction::LoadI(nnn)),
            0xB => Some(Instruction::JumpV0(nnn)),
            0xC => Some(Instruction::Random(x, nn)),
            0xD => Some(Instruction::Draw(x, y, n)),
            0xE => match nn {
                0x9E => Some(Instruction::SkipKeyPressed(x)),
                0xA1 => Some(Instruction::SkipKeyNotPressed(x)),
                _ => None,
            },
            _ => match nn {
                0x07 => Some(Instruction::LoadDelay(x)),
                0x0A => Some(Instruction::WaitKeyPress(x)),
                0x15 => Some(Instruction::SetDelay(x)),
                0x18 => Some(Instruction::SetSound(x)),
                0x1E => Some(Instruction::AddI(x)),
                0x29 => Some(Instruction::LoadFont(x)),
                0x33 => Some(Instruction::StoreBCD(x)),
                0x55 => Some(Instruction::StoreRegisters(x)),
                0x65 => Some(Instruction::LoadMemory(x)),
                _ => None,
            },
        }
    }

    /// Decodes whatever converts into an opcode.
    ///
    /// The result is fixed for an argument whose conversion has a stated
    /// meaning, as that of a `u16` has. The conversion of an `OpCode` into
    /// itself has none: with an `OpCode` in hand, call
    /// [`Instruction::decode`], which says what comes back for every opcode.
    pub fn from<I: Into<OpCode>>(opcode: I) -> (result: Option<Instruction>)
        ensures
            I::obeys_into_spec() ==> result == decode(opcode.into_spec()@),
            result matches Some(instruction) ==> instruction.wf(),
    {
        let opcode: OpCode = opcode.into();
        Instruction::decode(opcode)
    }

    /// The first register operand that names no register, if there is one.
    pub fn check_registers(&self) -> (result: Option<Register>)
        ensures
            result == self.invalid_register(),
    {
        match *self {
            Instruction::ClearDisplay
            | Instruction::Return
            | Instruction::Jump(_)
            | Instruction::Call(_)
            | Instruction::LoadI(_)
            | Instruction::JumpV0(_) => None,
            Instruction::SkipEqual(x, _)
            | Instruction::SkipNotEqual(x, _)
            | Instruction::Load(x, _)
            | Instruction::Add(x, _)
            | Instruction::ShiftRight(x)
            | Instruction::ShiftLeft(x)
            | Instruction::Random(x, _)
            | Instruction::SkipKeyPressed(x)
            | Instruction::SkipKeyNotPressed(x)
            | Instruction::LoadDelay(x)
            | Instruction::WaitKeyPress(x)
            | Instruction::SetDelay(x)
            | Instruction::SetSound(x)
            | Instruction::AddI(x)
            | Instruction::LoadFont(x)
            | Instruction::StoreBCD(x)
            | Instruction::StoreRegisters(x)
            | Instruction::LoadMemory(x) => if x >= NUM_REGISTERS {
                Some(x)
            } else {
                None
            },
            Instruction::SkipEqualXY(x, y)
            | Instruction::Move(x, y)
            | Instruction::Or(x, y)
            | Instruction::And(x, y)
            | Instruction::Xor(x, y)
            | Instruction::AddXY(x, y)
            | Instruction::SubXY(x, y)
            | Instruction::SubYX(x, y)
            | Instruction::SkipNotEqualXY(x, y)
            | Instruction::Draw(x, y, _) => if x >= NUM_REGISTERS {
                Some(x)
            } else if y >= NUM_REGISTERS {
                Some(y)
            } else {
                None
            },
        }
    }

    /// Whether the instruction changes the flow of control: a clear, a
    /// return, a jump, a call, a skip or a wait.
    pub open spec fn is_control(self) -> bool {
        match self {
            Instruction::ClearDisplay => true,
            Instruction::Return => true,
            Instruction::Jump(_) => true,
            Instruction::Call(_) => true,
            Instruction::JumpV0(_) => true,
            Instruction::SkipEqual(_, _) => true,
            Instruction::SkipNotEqual(_, _) => true,
            Instruction::SkipEqualXY(_, _) => true,
            Instruction::SkipNotEqualXY(_, _) => true,
            Instruction::SkipKeyPressed(_) => true,
            Instruction::SkipKeyNotPressed(_) => true,
            Instruction::WaitKeyPress(_) => true,
            _ => false,
        }
    }

    /// Whether the instruction computes a register from registers, an
    /// immediate byte, the delay timer or the random byte.
    pub open spec fn is_arithmetic(self) -> bool {
        match self {
            Instruction::Load(_, _) => true,
            Instruction::Add(_, _) => true,
            Instruction::Move(_, _) => true,
            Instruction::Or(_, _) => true,
            Instruction::And(_, _) => true,
            Instruction::Xor(_, _) => true,
            Instruction::AddXY(_, _) => true,
            Instruction::SubXY(_, _) => true,
            Instruction::ShiftRight(_) => true,
            Instruction::SubYX(_, _) => true,
            Instruction::ShiftLeft(_) => true,
            Instruction::Random(_, _) => true,
            Instruction::LoadDelay(_) => true,
            _ => false,
        }
    }

    /// Whether the instruction works on `I`, the timers, memory or the frame
    /// buffer.
    pub open spec fn is_storage(self) -> bool {
        !self.is_control() && !self.is_arithmetic()
    }

    fn in_control(&self) -> (result: bool)
        ensures
            result == self.is_control(),
    {
        match *self {
            Instruction::ClearDisplay
            | Instruction::Return
            | Instruction::Jump(_)
            | Instruction::Call(_)
            | Instruction::JumpV0(_)
            | Instruction::SkipEqual(_, _)
            | Instruction::SkipNotEqual(_, _)
            | Instruction::SkipEqualXY(_, _)
            | Instruction::SkipNotEqualXY(_, _)
            | Instruction::SkipKeyPressed(_)
            | Instruction::SkipKeyNotPressed(_)
            | Instruction::WaitKeyPress(_) => true,
            _ => false,
        }
    }

    fn in_arithmetic(&self) -> (result: bool)
        ensures
            result == self.is_arithmetic(),
    {
        match *self {
            Instruction::Load(_, _)
            | Instruction::Add(_, _)
            | Instruction::Move(_, _)
            | Instruction::Or(_, _)
            | Instruction::And(_, _)
            | Instruction::Xor(_, _)
            | Instruction::AddXY(_, _)
            | Instruction::SubXY(_, _)
            | Instruction::ShiftRight(_)
            | Instruction::SubYX(_, _)
            | Instruction::ShiftLeft(_)
            | Instruction::Random(_, _)
            | Instruction::LoadDelay(_) => true,
            _ => false,
        }
    }

    /// Whether the instruction has a register operand: true for every
    /// instruction but a clear, a return, a jump, a call and a load of `I`.
    pub fn has_register(&self) -> (result: bool)
        ensures
            result == (self.first_register() is Some),
    {
        match *self {
            Instruction::ClearDisplay => false,
            Instruction::Return => false,
            Instruction::Jump(_) => false,
            Instruction::Call(_) => false,
            Instruction::LoadI(_) => false,
            Instruction::JumpV0(_) => false,
            _ => true,
        }
    }
}

/// The sum of two bytes, wrapping, and whether it wrapped.
fn overflowing_add(a: u8, b: u8) -> (result: (u8, bool))
    ensures
        result.0 == wrap8(a + b),
        result.1 == (a + b > 255),
{
    (a.wrapping_add(b), a as u16 + b as u16 > 255)
}

/// The difference of two bytes, wrapping, and whether it wrapped.
fn overflowing_sub(a: u8, b: u8) -> (result: (u8, bool))
    ensures
        result.0 == wrap8(a - b),
        result.1 == (a < b),
{
    (a.wrapping_sub(b), a < b)
}

/// A byte shifted right by one bit, and the bit that is shifted out.
fn shift_right(a: u8) -> (result: (u8, u8))
    ensures
        result.0 == a / 2,
        result.1 == a % 2,
{
    assert(a >> 1 == a / 2) by (bit_vector);
    assert(a & 0x1 == a % 2) by (bit_vector);
    (a >> 1, a & 0x1)
}

/// A byte shifted left by one bit, and the bit that is shifted out.
fn shift_left(a: u8) -> (result: (u8, u8))
    ensures
        result.0 == wrap8(a * 2),
        result.1 == a / 128,
{
    assert((a >> 7) & 0x1 == a / 128) by (bit_vector);
    (a.wrapping_mul(2), (a >> 7) & 0x1)
}

/// The sum of two 16-bit values, wrapping.
fn wrapping_add16(a: u16, b: u16) -> (result: u16)
    ensures
        result == wrap16(a + b),
{
    a.wrapping_add(b)
}

/// The difference of two 16-bit values, wrapping.
fn wrapping_sub16(a: u16, b: u16) -> (result: u16)
    ensures
        result == wrap16(a - b),
{
    a.wrapping_sub(b)
}

/// Draws a byte from the random number generator of the current thread.
///
/// This calls `rand::thread_rng` and `Rng::gen::<u8>`, which are not
/// verified. Nothing is claimed of the byte: any value may come back, and two
/// calls may differ. The generator is seeded by the operating system, and the
/// call panics where the system gives it no entropy.
#[verifier::external_body]
fn random_byte() -> (byte: u8) {
    let mut rng = rand::thread_rng();
    rng.gen::<u8>()
}

/// What a tick of the timers tells the speaker.
#[derive(Debug, Clone, Copy, PartialEq, Eq, Structural)]
pub struct TimerCue {
    /// Whether the tone sounds during this tick.
    pub tone: bool,
    /// Whether the tone ends with this tick.
    pub ends: bool,
}

/// The machine: memory, registers, call stack, timers, keyboard and frame
/// buffer.
///
/// Memory holds the font from address 0 on and the program from `0x200` on.
/// The cell in column `x` of row `y` of the display is `screen[x + 64 * y]`.
pub struct Emulator {
    /// The 4096 bytes of memory.
    pub memory: [u8; 4096],
    /// The 16 registers `V0` to `VF`.
    pub v: [u8; 16],
    /// The index register.
    pub i: u16,
    /// The program counter.
    pub pc: u16,
    /// The slots of the call stack. The first `sp` of them hold the return
    /// addresses; each of the others holds what was last written there.
    pub stack: [u16; 16],
    /// The number of return addresses on the call stack.
    pub sp: u8,
    /// The delay timer.
    pub dt: u8,
    /// The sound timer.
    pub st: u8,
    /// The keyboard.
    pub keyboard: Keyboard,
    /// Whether the frame buffer changed since it was last presented. Whoever
    /// presents the frame buffer clears the flag.
    pub draw_flag: bool,
    /// The frame buffer.
    pub screen: [bool; 2048],
}

impl View for Emulator {
    type V = Machine;

    open spec fn view(&self) -> Machine {
        Machine {
            memory: self.memory@,
            v: self.v@,
            i: self.i,
            pc: self.pc,
            stack: self.stack@,
            sp: self.sp,
            dt: self.dt,
            st: self.st,
            key: self.keyboard@,
            draw_flag: self.draw_flag,
            screen: self.screen@,
        }
    }
}

impl Emulator {
    /// The call stack holds at most as many return addresses as it has slots.
    pub open spec fn wf(&self) -> bool {
        self.sp <= 16
    }

    /// The model of a well-formed emulator is a well-formed machine.
    pub proof fn lemma_view_wf(&self)
        requires
            self.wf(),
        ensures
            self@.wf(),
    {
    }

    /// A machine with the font in memory, the program counter at the load
    /// address and everything else zero, off or empty.
    pub fn new() -> (emulator: Emulator)
        ensures
            emulator.wf(),
            emulator@ == initial_machine(),
    {
        let mut emulator = Emulator {
            memory: [0u8; 4096],
            v: [0u8; 16],
            i: 0,
            pc: ROM_START,
            stack: [0u16; 16],
            sp: 0,
            dt: 0,
            st: 0,
            keyboard: Keyboard::new(),
            draw_flag: false,
            screen: [false; 2048],
        };
        for a in 0..FONT_SET_SIZE
            invariant
                forall|k: int| 0 <= k < a ==> emulator.memory@[k] == FONT_SET@[k],
                forall|k: int| a <= k < 4096 ==> emulator.memory@[k] == 0,
                emulator.v@ == Seq::new(16, |r: int| 0u8),
                emulator.stack@ == Seq::new(16, |slot: int| 0u16),
                emulator.screen@ == Seq::new(2048, |cell: int| false),
                emulator.i == 0,
                emulator.pc == 0x200,
                emulator.sp == 0,
                emulator.dt == 0,
                emulator.st == 0,
                emulator.keyboard@ is None,
                !emulator.draw_flag,
        {
            emulator.memory[a] = FONT_SET[a];
        }
        assert(emulator@.memory =~= initial_machine().memory);
        emulator
    }

    /// Whether the call stack holds at most as many return addresses as it
    /// has slots.
    pub fn is_well_formed(&self) -> (result: bool)
        ensures
            result == self.wf(),
    {
        self.sp <= 16
    }

    /// Loads a program into memory, from address `0x200` on.
    pub fn load_rom(&mut self, rom: ROM)
        requires
            rom.data@.len() <= MAX_ROM_SIZE,
        ensures
            final(self)@ == (Machine {
                memory: load_image(old(self)@.memory, rom.data@),
                ..old(self)@
            }),
    {
        let len = rom.data.len();
        for k in 0..len
            invariant
                len == rom.data@.len(),
                len <= MAX_ROM_SIZE,
                forall|a: int|
                    0 <= a < 4096 ==> self.memory@[a] == if 0x200 <= a < 0x200 + k {
                        rom.data@[a - 0x200]
                    } else {
                        old(self).memory@[a]
                    },
                self.v == old(self).v,
                self.i == old(self).i,
                self.pc == old(self).pc,
                self.stack == old(self).stack,
                self.sp == old(self).sp,
                self.dt == old(self).dt,
                self.st == old(self).st,
                self.keyboard == old(self).keyboard,
                self.draw_flag == old(self).draw_flag,
                self.screen == old(self).screen,
        {
            self.memory[0x200 + k] = rom.data[k];
        }
        assert(self@.memory =~= load_image(old(self)@.memory, rom.data@));
    }

    /// Puts a return address on the call stack.
    fn push(&mut self, val: u16)
        requires
            old(self).sp < 16,
        ensures
            final(self)@ == (Machine {
                stack: old(self)@.stack.update(old(self).sp as int, val),
                sp: (old(self).sp + 1) as u8,
                ..old(self)@
            }),
    {
        self.stack[self.sp as usize] = val;
        self.sp += 1;
    }

    /// Takes the newest return address off the call stack.
    fn pop(&mut self) -> (val: u16)
        requires
            0 < old(self).sp <= 16,
        ensures
            val == old(self)@.stack[old(self).sp - 1],
            final(self)@ == (Machine { sp: (old(self).sp - 1) as u8, ..old(self)@ }),
    {
        self.sp -= 1;
        self.stack[self.sp as usize]
    }

    /// Switches every cell of the frame buffer off.
    fn clear_screen(&mut self)
        ensures
            final(self)@ == (Machine {
                screen: Seq::new(2048, |cell: int| false),
                ..old(self)@
            }),
    {
        self.screen = [false; 2048];
        assert(self@.screen =~= Seq::new(2048, |cell: int| false));
    }

    /// The word at the program counter, high byte first. Addresses wrap at
    /// the end of memory.
    pub fn opcode_at_pc(&self) -> (opcode: OpCode)
        ensures
            opcode@ == word_at_pc(self@),
    {
        let hb = self.memory[self.pc as usize % MEMORY_SIZE] as u16;
        let lb = self.memory[(self.pc as usize + 1) % MEMORY_SIZE] as u16;
        OpCode(hb * 256 + lb)
    }

    /// Fetches the next instruction: decodes the word at the program counter
    /// and moves the program counter past it.
    pub fn fetch(&mut self) -> (result: Option<Instruction>)
        ensures
            result == decode(word_at_pc(old(self)@)),
            result matches Some(instruction) ==> instruction.wf(),
            final(self)@ == advance(old(self)@),
    {
        let op = self.opcode_at_pc();
        self.pc = wrapping_add16(self.pc, 2);
        Instruction::decode(op)
    }

    /// One tick of the 60 Hz clock: each timer that is not zero goes down by
    /// one. Returns what the speaker is to do: whether the tone sounds during
    /// this tick, which is whether the sound timer was not zero when the tick
    /// began, and whether the tone ends with this tick, which is whether the
    /// sound timer went from one to zero.
    pub fn timer_tick(&mut self) -> (cue: TimerCue)
        ensures
            final(self)@ == timer_step(old(self)@),
            cue.tone == sounding(old(self)@),
            cue.ends == sound_ends(old(self)@),
    {
        if self.dt > 0 {
            self.dt -= 1;
        }
        let cue = TimerCue { tone: self.st > 0, ends: self.st == 1 };
        if self.st > 0 {
            self.st -= 1;
        }
        cue
    }

    /// Records that the key `key` of the machine went down: it is now the
    /// pressed key. A code that is not below 16 names no key and changes
    /// nothing.
    pub fn key_down(&mut self, key: u8)
        ensures
            final(self)@ == (Machine {
                key: if key < 16 {
                    Some(key)
                } else {
                    old(self)@.key
                },
                ..old(self)@
            }),
    {
        self.keyboard.press_code(key);
    }

    /// Records that the key `key` of the machine went up: if it was the
    /// pressed key, no key is pressed now.
    pub fn key_up(&mut self, key: u8)
        ensures
            final(self)@ == (Machine {
                key: if old(self)@.key == Some(key) {
                    None
                } else {
                    old(self)@.key
                },
                ..old(self)@
            }),
    {
        if self.keyboard.pressed_key() == Some(key) {
            self.keyboard.release_key();
        }
    }

    /// Sets every byte of memory to zero, the font included.
    pub fn reset_memory(&mut self)
        ensures
            final(self)@ == (Machine { memory: Seq::new(4096, |a: int| 0u8), ..old(self)@ }),
    {
        self.memory = [0u8; 4096];
        assert(self@.memory =~= Seq::new(4096, |a: int| 0u8));
    }

    /// Sets the registers and `I` to zero and the program counter to the
    /// load address.
    pub fn reset_registers(&mut self)
        ensures
            final(self)@ == (Machine {
                v: Seq::new(16, |r: int| 0u8),
                i: 0,
                pc: 0x200,
                ..old(self)@
            }),
    {
        self.v = [0u8; 16];
        self.i = 0;
        self.pc = ROM_START;
        assert(self@.v =~= Seq::new(16, |r: int| 0u8));
    }

    /// Sets both timers to zero.
    pub fn reset_timers(&mut self)
        ensures
            final(self)@ == (Machine { dt: 0, st: 0, ..old(self)@ }),
    {
        self.dt = 0;
        self.st = 0;
    }

    /// Empties the call stack and sets its slots to zero.
    pub fn reset_stack(&mut self)
        ensures
            final(self)@ == (Machine {
                stack: Seq::new(16, |slot: int| 0u16),
                sp: 0,
                ..old(self)@
            }),
            final(self).wf(),
    {
        self.stack = [0u16; 16];
        self.sp = 0;
        assert(self@.stack =~= Seq::new(16, |slot: int| 0u16));
    }

    /// Draws the sprite of `height` rows at `I` with its top left corner at
    /// column `left`, row `top`: the cells under the set pixels of the sprite
    /// are flipped, and columns and rows wrap around the edges of the display.
    /// Returns whether a cell that was on was switched off.
    pub fn draw_sprite(&mut self, left: u8, top: u8, height: u8) -> (collision: bool)
        ensures
            final(self)@ == (Machine {
                screen: draw_rows(
                    old(self)@.screen,
                    sprite_at(old(self)@.memory, old(self)@.i, height as nat),
                    left as int,
                    top as int,
                    height as nat,
                ),
                ..old(self)@
            }),
            collision == draw_collides(
                old(self)@.screen,
                sprite_at(old(self)@.memory, old(self)@.i, height as nat),
                left as int,
                top as int,
                height as nat,
            ),
    {
        let mut collision = false;
        let ghost sprite = sprite_at(self.memory@, self.i, height as nat);
        for row in 0..height
            invariant
                sprite == sprite_at(self.memory@, self.i, height as nat),
                self.screen@ == draw_rows(
                    old(self).screen@,
                    sprite,
                    left as int,
                    top as int,
                    row as nat,
                ),
                collision == draw_collides(
                    old(self).screen@,
                    sprite,
                    left as int,
                    top as int,
                    row as nat,
                ),
                self.memory == old(self).memory,
                self.v == old(self).v,
                self.i == old(self).i,
                self.pc == old(self).pc,
                self.stack == old(self).stack,
                self.sp == old(self).sp,
                self.dt == old(self).dt,
                self.st == old(self).st,
                self.keyboard == old(self).keyboard,
                self.draw_flag == old(self).draw_flag,
        {
            let byte = self.memory[(self.i as usize + row as usize) % MEMORY_SIZE];
            let y = (top as usize + row as usize) % DISPLAY_HEIGHT;
            assert(byte == sprite[row as int]);
            let hit = self.draw_row(byte, left, y);
            collision = collision || hit;
        }
        collision
    }

    /// Draws one row of a sprite on the display row `y`, with its leftmost
    /// pixel in column `left`. Returns whether a cell that was on was
    /// switched off.
    fn draw_row(&mut self, byte: u8, left: u8, y: usize) -> (collision: bool)
        requires
            y < 32,
        ensures
            final(self).screen@ == xor_row(old(self).screen@, byte, left as int, y as int, 8),
            collision == row_collides(old(self).screen@, byte, left as int, y as int, 8),
            final(self).memory == old(self).memory,
            final(self).v == old(self).v,
            final(self).i == old(self).i,
            final(self).pc == old(self).pc,
            final(self).stack == old(self).stack,
            final(self).sp == old(self).sp,
            final(self).dt == old(self).dt,
            final(self).st == old(self).st,
            final(self).keyboard == old(self).keyboard,
            final(self).draw_flag == old(self).draw_flag,
    {
        let mut collision = false;
        let ghost before = self.screen@;
        proof {
            lemma_row_start(before, byte, left as int, y as int);
        }
        for col in 0..8u8
            invariant
                y < 32,
                before == old(self).screen@,
                self.screen@ == xor_row(before, byte, left as int, y as int, col as int),
                collision == row_collides(before, byte, left as int, y as int, col as int),
                self.memory == old(self).memory,
                self.v == old(self).v,
                self.i == old(self).i,
                self.pc == old(self).pc,
                self.stack == old(self).stack,
                self.sp == old(self).sp,
                self.dt == old(self).dt,
                self.st == old(self).st,
                self.keyboard == old(self).keyboard,
                self.draw_flag == old(self).draw_flag,
        {
            let x = (left as usize + col as usize) % DISPLAY_WIDTH;
            let idx = x + DISPLAY_WIDTH * y;
            proof {
                lemma_row_step(before, byte, left as int, y as int, col);
            }
            if byte & (0x80u8 >> col) != 0 {
                if self.screen[idx] {
                    collision = true;
                }
                self.screen[idx] = !self.screen[idx];
            }
        }
        collision
    }

    /// Stores the decimal digits of `value` at `I`, `I + 1` and `I + 2`:
    /// hundreds, tens, ones. Addresses wrap at the end of memory.
    fn store_bcd(&mut self, value: u8)
        ensures
            final(self)@ == (Machine {
                memory: store_bcd(old(self)@.memory, old(self)@.i, value),
                ..old(self)@
            }),
    {
        let start = self.i as usize;
        self.memory[start % MEMORY_SIZE] = value / 100;
        self.memory[(start + 1) % MEMORY_SIZE] = (value / 10) % 10;
        self.memory[(start + 2) % MEMORY_SIZE] = value % 10;
    }

    /// Stores the registers `V0` to `Vx` in memory from `I` on. Addresses
    /// wrap at the end of memory.
    fn store_registers(&mut self, x: usize)
        requires
            x < 16,
        ensures
            final(self)@ == (Machine {
                memory: store_registers(
                    old(self)@.memory,
                    old(self)@.i,
                    old(self)@.v,
                    x as int,
                ),
                ..old(self)@
            }),
    {
        let start = self.i as usize;
        for idx in 0..x + 1
            invariant
                x < 16,
                start == self.i,
                forall|a: int|
                    0 <= a < 4096 ==> self.memory@[a] == if cell_of(a - start) < idx {
                        self.v@[cell_of(a - start)]
                    } else {
                        old(self).memory@[a]
                    },
                self.v == old(self).v,
                self.i == old(self).i,
                self.pc == old(self).pc,
                self.stack == old(self).stack,
                self.sp == old(self).sp,
                self.dt == old(self).dt,
                self.st == old(self).st,
                self.keyboard == old(self).keyboard,
                self.draw_flag == old(self).draw_flag,
                self.screen == old(self).screen,
        {
            let ghost before = self.memory@;
            self.memory[(start + idx) % MEMORY_SIZE] = self.v[idx];
            assert forall|a: int| 0 <= a < 4096 implies self.memory@[a] == if cell_of(a - start)
                < idx + 1 {
                self.v@[cell_of(a - start)]
            } else {
                old(self).memory@[a]
            } by {
                lemma_cell_unique(start as int, idx as int, a);
                assert(self.memory@[a] == if a == cell_of(start + idx) {
                    self.v@[idx as int]
                } else {
                    before[a]
                });
            }
        }
        assert(self@.memory =~= store_registers(
            old(self)@.memory,
            old(self)@.i,
            old(self)@.v,
            x as int,
        ));
    }

    /// Loads the registers `V0` to `Vx` from memory from `I` on. Addresses
    /// wrap at the end of memory.
    fn load_memory(&mut self, x: usize)
        requires
            x < 16,
        ensures
            final(self)@ == (Machine {
                v: load_registers(old(self)@.memory, old(self)@.i, old(self)@.v, x as int),
                ..old(self)@
            }),
    {
        let start = self.i as usize;
        for idx in 0..x + 1
            invariant
                x < 16,
                start == self.i,
                forall|r: int|
                    0 <= r < 16 ==> self.v@[r] == if r < idx {
                        self.memory@[cell_of(start + r)]
                    } else {
                        old(self).v@[r]
                    },
                self.memory == old(self).memory,
                self.i == old(self).i,
                self.pc == old(self).pc,
                self.stack == old(self).stack,
                self.sp == old(self).sp,
                self.dt == old(self).dt,
                self.st == old(self).st,
                self.keyboard == old(self).keyboard,
                self.draw_flag == old(self).draw_flag,
                self.screen == old(self).screen,
        {
            self.v[idx] = self.memory[(start + idx) % MEMORY_SIZE];
        }
        assert(self@.v =~= load_registers(
            old(self)@.memory,
            old(self)@.i,
            old(self)@.v,
            x as int,
        ));
    }

    /// Sets the register `x` to `value`.
    fn set_register(&mut self, x: usize, value: u8)
        requires
            x < 16,
        ensures
            final(self)@ == set_register(old(self)@, x as int, value),
    {
        self.v[x] = value;
    }

    /// Sets the register `x` to `value` and then the flag register `VF` to
    /// one if `flag` holds and to zero if not.
    fn set_register_and_flag(&mut self, x: usize, value: u8, flag: bool)
        requires
            x < 16,
        ensures
            final(self)@ == set_register_and_flag(old(self)@, x as int, value, flag),
    {
        self.v[x] = value;
        self.v[0xF] = if flag {
            1
        } else {
            0
        };
    }

    /// Moves the program counter to the next instruction if `condition`
    /// holds.
    fn skip_if(&mut self, condition: bool)
        ensures
            final(self)@ == crate::machine::skip_if(old(self)@, condition),
    {
        if condition {
            self.pc = wrapping_add16(self.pc, 2);
        }
    }

    /// Executes an instruction that changes the flow of control: a clear, a
    /// return, a jump, a call, a skip or a wait.
    fn execute_control(&mut self, instruction: Instruction) -> (result: Result<(), Chip8Error>)
        requires
            old(self).wf(),
            instruction.invalid_register() is None,
            instruction.is_control(),
        ensures
            final(self).wf(),
            forall|random: u8|
                (final(self)@, result) == #[trigger] execute_step(old(self)@, instruction, random),
            !(instruction is Call) ==> final(self)@.stack == old(self)@.stack,
            result is Err ==> final(self)@ == old(self)@,
    {
        match instruction {
            Instruction::ClearDisplay => {
                self.clear_screen();
                self.draw_flag = true;
            },
            Instruction::Return => {
                if self.sp == 0 {
                    return Err(Chip8Error::StackUnderflow);
                }
                let return_addr = self.pop();
                self.pc = return_addr;
            },
            Instruction::Jump(addr) => {
                self.pc = addr;
            },
            Instruction::Call(addr) => {
                if self.sp == STACK_SIZE as u8 {
                    return Err(Chip8Error::StackOverflow);
                }
                self.push(self.pc);
                self.pc = addr;
            },
            Instruction::JumpV0(addr) => {
                self.pc = wrapping_add16(addr, self.v[0] as u16);
            },
            Instruction::SkipEqual(x, byte) => {
                self.skip_if(self.v[x] == byte);
            },
            Instruction::SkipNotEqual(x, byte) => {
                self.skip_if(self.v[x] != byte);
            },
            Instruction::SkipEqualXY(x, y) => {
                self.skip_if(self.v[x] == self.v[y]);
            },
            Instruction::SkipNotEqualXY(x, y) => {
                self.skip_if(self.v[x] != self.v[y]);
            },
            Instruction::SkipKeyPressed(x) => {
                let key = self.v[x];
                self.skip_if(self.keyboard.pressed_key() == Some(key));
            },
            Instruction::SkipKeyNotPressed(x) => {
                let key = self.v[x];
                self.skip_if(self.keyboard.pressed_key() != Some(key));
            },
            Instruction::WaitKeyPress(x) => {
                if let Some(key) = self.keyboard.pressed_key() {
                    self.set_register(x, key);
                } else {
                    self.pc = wrapping_sub16(self.pc, 2);
                }
            },
            _ => {},
        }
        Ok(())
    }

    /// Executes an instruction that computes a register from registers, an
    /// immediate byte, the delay timer or the random byte.
    fn execute_arithmetic(&mut self, instruction: Instruction, random: u8)
        requires
            instruction.invalid_register() is None,
            instruction.is_arithmetic(),
        ensures
            final(self)@ == apply(old(self)@, instruction, random),
            final(self)@.stack == old(self)@.stack,
            final(self).sp == old(self).sp,
    {
        match instruction {
            Instruction::Load(x, byte) => {
                self.set_register(x, byte);
            },
            Instruction::Add(x, byte) => {
                let (sum, _) = overflowing_add(self.v[x], byte);
                self.set_register(x, sum);
            },
            Instruction::Move(x, y) => {
                self.set_register(x, self.v[y]);
            },
            Instruction::Or(x, y) => {
                self.set_register(x, self.v[x] | self.v[y]);
            },
            Instruction::And(x, y) => {
                self.set_register(x, self.v[x] & self.v[y]);
            },
            Instruction::Xor(x, y) => {
                self.set_register(x, self.v[x] ^ self.v[y]);
            },
            Instruction::AddXY(x, y) => {
                let (val, carry) = overflowing_add(self.v[x], self.v[y]);
                self.set_register_and_flag(x, val, carry);
            },
            Instruction::SubXY(x, y) => {
                let (val, borrow) = overflowing_sub(self.v[x], self.v[y]);
                self.set_register_and_flag(x, val, !borrow);
            },
            Instruction::ShiftRight(x) => {
                let (_, bit) = shift_right(self.v[x]);
                self.set_register(0xF, bit);
                let (val, _) = shift_right(self.v[x]);
                self.set_register(x, val);
            },
            Instruction::SubYX(x, y) => {
                let (val, borrow) = overflowing_sub(self.v[y], self.v[x]);
                self.set_register_and_flag(x, val, !borrow);
            },
            Instruction::ShiftLeft(x) => {
                let (_, bit) = shift_left(self.v[x]);
                self.set_register(0xF, bit);
                let (val, _) = shift_left(self.v[x]);
                self.set_register(x, val);
            },
            Instruction::Random(x, byte) => {
                self.set_register(x, random & byte);
            },
            Instruction::LoadDelay(x) => {
                self.set_register(x, self.dt);
            },
            _ => {},
        }
    }

    /// Executes an instruction that works on `I`, the timers, memory or the
    /// frame buffer.
    fn execute_storage(&mut self, instruction: Instruction)
        requires
            instruction.invalid_register() is None,
            instruction.is_storage(),
        ensures
            forall|random: u8| final(self)@ == #[trigger] apply(old(self)@, instruction, random),
            final(self)@.stack == old(self)@.stack,
            final(self).sp == old(self).sp,
    {
        match instruction {
            Instruction::LoadI(addr) => {
                self.i = addr;
            },
            Instruction::Draw(x, y, height) => {
                let collision = self.draw_sprite(self.v[x], self.v[y], height);
                self.set_register(0xF, if collision { 1 } else { 0 });
                self.draw_flag = true;
            },
            Instruction::SetDelay(x) => {
                self.dt = self.v[x];
            },
            Instruction::SetSound(x) => {
                self.st = self.v[x];
            },
            Instruction::AddI(x) => {
                self.i = wrapping_add16(self.i, self.v[x] as u16);
            },
            Instruction::LoadFont(x) => {
                self.i = (self.v[x] as u16) * 5;
            },
            Instruction::StoreBCD(x) => {
                self.store_bcd(self.v[x]);
            },
            Instruction::StoreRegisters(x) => {
                self.store_registers(x);
            },
            Instruction::LoadMemory(x) => {
                self.load_memory(x);
            },
            _ => {},
        }
    }

    /// Executes one instruction, with `random` as the byte that a `Random`
    /// instruction draws. The program counter is taken to point past the
    /// instruction already. A fault leaves the machine as it is.
    pub fn execute_with(&mut self, instruction: Instruction, random: u8) -> (result: Result<
        (),
        Chip8Error,
    >)
        requires
            old(self).wf(),
        ensures
            final(self).wf(),
            (final(self)@, result) == execute_step(old(self)@, instruction, random),
            !(instruction is Call) ==> final(self)@.stack == old(self)@.stack,
            result is Err ==> final(self)@ == old(self)@,
    {
        if let Some(register) = instruction.check_registers() {
            return Err(Chip8Error::InvalidRegister(register));
        }
        if instruction.in_control() {
            self.execute_control(instruction)
        } else if instruction.in_arithmetic() {
            self.execute_arithmetic(instruction, random);
            Ok(())
        } else {
            self.execute_storage(instruction);
            Ok(())
        }
    }

    /// Executes one instruction. The program counter is taken to point past
    /// the instruction already. A fault leaves the machine as it is.
    ///
    /// A `Random` instruction draws its byte from the random number generator
    /// of the current thread, so of its outcome only this is known: it is the
    /// outcome for some byte. Every other instruction has one outcome.
    pub fn execute(&mut self, instruction: Instruction) -> (result: Result<(), Chip8Error>)
        requires
            old(self).wf(),
        ensures
            final(self).wf(),
            exists|random: u8|
                (final(self)@, result) == #[trigger] execute_step(
                    old(self)@,
                    instruction,
                    random,
                ),
            !(instruction is Random) ==> (final(self)@, result) == execute_step(
                old(self)@,
                instruction,
                0,
            ),
            !(instruction is Call) ==> final(self)@.stack == old(self)@.stack,
            result is Err ==> final(self)@ == old(self)@,
    {
        let random = match instruction {
            Instruction::Random(_, _) => random_byte(),
            _ => 0,
        };
        self.execute_with(instruction, random)
    }

    /// One cycle of the machine: fetches the instruction at the program
    /// counter and executes it. A fault leaves the program counter past the
    /// word that was fetched and the rest of the machine as it was. Only a
    /// call writes to the call stack.
    ///
    /// A `Random` instruction draws its byte from the random number generator
    /// of the current thread, so of its outcome only this is known: it is the
    /// outcome for some byte. Every other word has one outcome.
    pub fn tick(&mut self) -> (result: Result<(), Chip8Error>)
        requires
            old(self).wf(),
        ensures
            final(self).wf(),
            exists|random: u8| (final(self)@, result) == #[trigger] cycle(old(self)@, random),
            !(decode(word_at_pc(old(self)@)) matches Some(Instruction::Random(_, _))) ==> (
            final(self)@, result) == cycle(old(self)@, 0),
            !(decode(word_at_pc(old(self)@)) matches Some(Instruction::Call(_)))
                ==> final(self)@.stack == old(self)@.stack,
            result is Err ==> final(self)@ == advance(old(self)@),
    {
        let pc = self.pc;
        let word = self.opcode_at_pc().raw();
        match self.fetch() {
            Some(instruction) => {
                let ghost fetched = self@;
                let result = self.execute(instruction);
                proof {
                    let random = choose|random: u8|
                        (self@, result) == #[trigger] execute_step(fetched, instruction, random);
                    assert((self@, result) == cycle(old(self)@, random));
                }
                result
            },
            None => {
                let result = Err(Chip8Error::InvalidInstruction(word, pc));
                assert((self@, result) == cycle(old(self)@, 0));
                result
            },
        }
    }
}

} // verus!
