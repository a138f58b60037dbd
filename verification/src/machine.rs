//! The mathematical model of the machine and the meaning of its
//! instructions.
//!
//! A [`Machine`] is what an emulator stands for. The functions here say, for
//! every machine and instruction, what the machine is after the instruction;
//! the executable code is proved to compute them.
//!
//! No instruction reaches past the end of memory: an address names the cell
//! whose number is the address modulo 4096, so a sprite, a block of registers
//! or an instruction word that starts near the end goes on at address 0. The
//! program counter and `I` are 16-bit values and wrap at 65536.

use vstd::prelude::*;
use crate::cpu::{Instruction, decode, FONT_SET};
use crate::errors::Chip8Error;
use crate::sprite::{draw_rows, draw_collides};

verus! {

/// The state of a machine.
pub struct Machine {
    /// The 4096 bytes of memory.
    pub memory: Seq<u8>,
    /// The 16 registers `V0` to `VF`.
    pub v: Seq<u8>,
    /// The index register.
    pub i: u16,
    /// The program counter.
    pub pc: u16,
    /// The 16 slots of the call stack. The first `sp` of them hold the return
    /// addresses, the oldest first; each of the others holds what was last
    /// written there.
    pub stack: Seq<u16>,
    /// The number of return addresses on the call stack.
    pub sp: u8,
    /// The delay timer.
    pub dt: u8,
    /// The sound timer.
    pub st: u8,
    /// The key that is pressed, if one is.
    pub key: Option<u8>,
    /// Whether the frame buffer changed since it was last presented.
    pub draw_flag: bool,
    /// The 64 x 32 cells of the frame buffer, row after row.
    pub screen: Seq<bool>,
}

impl Machine {
    /// The sizes of the parts: 4096 bytes, 16 registers, 16 stack slots and
    /// 2048 cells; and the call stack holds at most 16 return addresses.
    pub open spec fn wf(self) -> bool {
        &&& self.memory.len() == 4096
        &&& self.v.len() == 16
        &&& self.stack.len() == 16
        &&& self.sp <= 16
        &&& self.screen.len() == 2048
    }

    /// The return addresses on the call stack, the oldest first.
    pub open spec fn return_addresses(self) -> Seq<u16> {
        self.stack.take(self.sp as int)
    }
}

/// The machine as it is created: the font at the start of memory, the
/// program counter at the load address, everything else zero, off or empty.
pub open spec fn initial_machine() -> Machine {
    Machine {
        memory: Seq::new(4096, |a: int| if a < 80 { FONT_SET@[a] } else { 0u8 }),
        v: Seq::new(16, |r: int| 0u8),
        i: 0,
        pc: 0x200,
        stack: Seq::new(16, |slot: int| 0u16),
        sp: 0,
        dt: 0,
        st: 0,
        key: None,
        draw_flag: false,
        screen: Seq::new(2048, |cell: int| false),
    }
}

/// The number `n` as a 16-bit value, wrapping.
pub open spec fn wrap16(n: int) -> u16 {
    (n % 0x1_0000) as u16
}

/// The number `n` as an 8-bit value, wrapping.
pub open spec fn wrap8(n: int) -> u8 {
    (n % 0x100) as u8
}

/// The memory cell that the address `n` names: addresses wrap at 4096.
pub open spec fn cell_of(n: int) -> int {
    n % 4096
}

/// Memory after a program is loaded: the bytes of `image` lie from address
/// `0x200` on, and the rest is as it was.
pub open spec fn load_image(memory: Seq<u8>, image: Seq<u8>) -> Seq<u8> {
    Seq::new(
        memory.len(),
        |a: int|
            if 0x200 <= a < 0x200 + image.len() {
                image[a - 0x200]
            } else {
                memory[a]
            },
    )
}

/// The sprite of `height` rows at `start`: one byte of memory for each row.
/// Addresses wrap at the end of memory.
pub open spec fn sprite_at(memory: Seq<u8>, start: u16, height: nat) -> Seq<u8> {
    Seq::new(height, |row: int| memory[cell_of(start + row)])
}

/// The 16-bit word at the program counter, high byte first.
pub open spec fn word_at_pc(s: Machine) -> u16 {
    (s.memory[cell_of(s.pc as int)] * 256 + s.memory[cell_of(s.pc + 1)]) as u16
}

/// The machine with the program counter moved to the next instruction.
pub open spec fn advance(s: Machine) -> Machine {
    Machine { pc: wrap16(s.pc + 2), ..s }
}

/// The machine with the program counter moved to the next instruction if
/// `condition` holds.
pub open spec fn skip_if(s: Machine, condition: bool) -> Machine {
    if condition {
        advance(s)
    } else {
        s
    }
}

/// The machine with the register `x` set to `value`.
pub open spec fn set_register(s: Machine, x: int, value: u8) -> Machine {
    Machine { v: s.v.update(x, value), ..s }
}

/// The machine with the register `x` set to `value` and then the flag
/// register `VF` set to `flag`.
pub open spec fn set_register_and_flag(s: Machine, x: int, value: u8, flag: bool) -> Machine {
    Machine { v: s.v.update(x, value).update(0xF, if flag { 1u8 } else { 0u8 }), ..s }
}

/// Memory after the decimal digits of `value` are stored at `start`:
/// hundreds, tens, ones.
pub open spec fn store_bcd(memory: Seq<u8>, start: u16, value: u8) -> Seq<u8> {
    memory.update(cell_of(start as int), value / 100).update(
        cell_of(start + 1),
        (value / 10) % 10,
    ).update(cell_of(start + 2), value % 10)
}

/// Memory after the registers `V0` to `Vx` are stored from `start` on.
pub open spec fn store_registers(memory: Seq<u8>, start: u16, v: Seq<u8>, x: int) -> Seq<u8> {
    Seq::new(
        memory.len(),
        |a: int|
            if cell_of(a - start) <= x {
                v[cell_of(a - start)]
            } else {
                memory[a]
            },
    )
}

/// The registers after `V0` to `Vx` are loaded from memory from `start` on.
pub open spec fn load_registers(memory: Seq<u8>, start: u16, v: Seq<u8>, x: int) -> Seq<u8> {
    Seq::new(
        v.len(),
        |r: int|
            if r <= x {
                memory[cell_of(start + r)]
            } else {
                v[r]
            },
    )
}

/// Of the addresses below 4096, exactly one names the cell that lies `k`
/// cells after `start`.
pub proof fn lemma_cell_unique(start: int, k: int, a: int)
    requires
        0 <= a < 4096,
        0 <= k < 4096,
    ensures
        cell_of(a - start) == k <==> a == cell_of(start + k),
{
}

/// The fault with which `instruction` stops on the machine `s`, if it does:
/// an operand that names no register, a return with an empty stack or a call
/// with a full one.
pub open spec fn fault(s: Machine, instruction: Instruction) -> Option<Chip8Error> {
    match instruction.invalid_register() {
        Some(register) => Some(Chip8Error::InvalidRegister(register)),
        None => match instruction {
            Instruction::Return => if s.sp == 0 {
                Some(Chip8Error::StackUnderflow)
            } else {
                None
            },
            Instruction::Call(_) => if s.sp >= 16 {
                Some(Chip8Error::StackOverflow)
            } else {
                None
            },
            _ => None,
        },
    }
}

/// The machine after `instruction`, where it does not stop with a fault.
///
/// The program counter of `s` already points past the instruction, so a
/// skip moves it by two once more and a wait without a key moves it back by
/// two. A call writes the return address into the first free slot of the
/// stack, and a return leaves the slots as they are. `random` is the byte
/// that a `Random` instruction draws. A shift
/// writes the flag first and shifts what the register then holds, so a shift
/// of `VF` itself shifts the flag; the other instructions with a flag write
/// the flag last, so there `VF` as a target holds the flag. Block transfers leave `I` as it is.
pub open spec fn apply(s: Machine, instruction: Instruction, random: u8) -> Machine {
    match instruction {
        Instruction::ClearDisplay => Machine {
            screen: Seq::new(2048, |cell: int| false),
            draw_flag: true,
            ..s
        },
        Instruction::Return => Machine { pc: s.stack[s.sp - 1], sp: (s.sp - 1) as u8, ..s },
        Instruction::Jump(addr) => Machine { pc: addr, ..s },
        Instruction::Call(addr) => Machine {
            pc: addr,
            stack: s.stack.update(s.sp as int, s.pc),
            sp: (s.sp + 1) as u8,
            ..s
        },
        Instruction::SkipEqual(x, byte) => skip_if(s, s.v[x as int] == byte),
        Instruction::SkipNotEqual(x, byte) => skip_if(s, s.v[x as int] != byte),
        Instruction::SkipEqualXY(x, y) => skip_if(s, s.v[x as int] == s.v[y as int]),
        Instruction::Load(x, byte) => set_register(s, x as int, byte),
        Instruction::Add(x, byte) => set_register(s, x as int, wrap8(s.v[x as int] + byte)),
        Instruction::Move(x, y) => set_register(s, x as int, s.v[y as int]),
        Instruction::Or(x, y) => set_register(s, x as int, s.v[x as int] | s.v[y as int]),
        Instruction::And(x, y) => set_register(s, x as int, s.v[x as int] & s.v[y as int]),
        Instruction::Xor(x, y) => set_register(s, x as int, s.v[x as int] ^ s.v[y as int]),
        Instruction::AddXY(x, y) => set_register_and_flag(
            s,
            x as int,
            wrap8(s.v[x as int] + s.v[y as int]),
            s.v[x as int] + s.v[y as int] > 255,
        ),
        Instruction::SubXY(x, y) => set_register_and_flag(
            s,
            x as int,
            wrap8(s.v[x as int] - s.v[y as int]),
            s.v[x as int] >= s.v[y as int],
        ),
        Instruction::ShiftRight(x) => {
            let flagged = set_register(s, 0xF, s.v[x as int] % 2);
            set_register(flagged, x as int, flagged.v[x as int] / 2)
        },
        Instruction::SubYX(x, y) => set_register_and_flag(
            s,
            x as int,
            wrap8(s.v[y as int] - s.v[x as int]),
            s.v[y as int] >= s.v[x as int],
        ),
        Instruction::ShiftLeft(x) => {
            let flagged = set_register(s, 0xF, s.v[x as int] / 128);
            set_register(flagged, x as int, wrap8(flagged.v[x as int] * 2))
        },
        Instruction::SkipNotEqualXY(x, y) => skip_if(s, s.v[x as int] != s.v[y as int]),
        Instruction::LoadI(addr) => Machine { i: addr, ..s },
        Instruction::JumpV0(addr) => Machine { pc: wrap16(addr + s.v[0]), ..s },
        Instruction::Random(x, byte) => set_register(s, x as int, random & byte),
        Instruction::Draw(x, y, height) => {
            let sprite = sprite_at(s.memory, s.i, height as nat);
            let left = s.v[x as int] as int;
            let top = s.v[y as int] as int;
            Machine {
                v: s.v.update(
                    0xF,
                    if draw_collides(s.screen, sprite, left, top, height as nat) {
                        1u8
                    } else {
                        0u8
                    },
                ),
                screen: draw_rows(s.screen, sprite, left, top, height as nat),
                draw_flag: true,
                ..s
            }
        },
        Instruction::SkipKeyPressed(x) => skip_if(s, s.key == Some(s.v[x as int])),
        Instruction::SkipKeyNotPressed(x) => skip_if(s, s.key != Some(s.v[x as int])),
        Instruction::LoadDelay(x) => set_register(s, x as int, s.dt),
        Instruction::WaitKeyPress(x) => match s.key {
            Some(key) => set_register(s, x as int, key),
            None => Machine { pc: wrap16(s.pc - 2), ..s },
        },
        Instruction::SetDelay(x) => Machine { dt: s.v[x as int], ..s },
        Instruction::SetSound(x) => Machine { st: s.v[x as int], ..s },
        Instruction::AddI(x) => Machine { i: wrap16(s.i + s.v[x as int]), ..s },
        Instruction::LoadFont(x) => Machine { i: (s.v[x as int] * 5) as u16, ..s },
        Instruction::StoreBCD(x) => Machine {
            memory: store_bcd(s.memory, s.i, s.v[x as int]),
            ..s
        },
        Instruction::StoreRegisters(x) => Machine {
            memory: store_registers(s.memory, s.i, s.v, x as int),
            ..s
        },
        Instruction::LoadMemory(x) => Machine {
            v: load_registers(s.memory, s.i, s.v, x as int),
            ..s
        },
    }
}

/// The machine after `instruction` is executed, and what the execution
/// reports: a fault leaves the machine as it is.
pub open spec fn execute_step(s: Machine, instruction: Instruction, random: u8) -> (
    Machine,
    Result<(), Chip8Error>,
) {
    match fault(s, instruction) {
        Some(error) => (s, Err(error)),
        None => (apply(s, instruction, random), Ok(())),
    }
}

/// The machine after one cycle, and what the cycle reports: the word at the
/// program counter is fetched, the program counter moves past it, and the
/// instruction that the word stands for is executed. A word that stands for
/// no instruction is reported with the address it was fetched from.
pub open spec fn cycle(s: Machine, random: u8) -> (Machine, Result<(), Chip8Error>) {
    match decode(word_at_pc(s)) {
        Some(instruction) => execute_step(advance(s), instruction, random),
        None => (advance(s), Err(Chip8Error::InvalidInstruction(word_at_pc(s), s.pc))),
    }
}

/// A timer after one tick: one less, and never below zero.
pub open spec fn decay(timer: u8) -> u8 {
    if timer > 0 {
        (timer - 1) as u8
    } else {
        0
    }
}

/// Whether the tone sounds: whether the sound timer is not zero.
pub open spec fn sounding(s: Machine) -> bool {
    s.st > 0
}

/// Whether the tone ends with the next tick of the clock: whether the sound
/// timer is one.
pub open spec fn sound_ends(s: Machine) -> bool {
    s.st == 1
}

/// The machine after one tick of the 60 Hz clock.
pub open spec fn timer_step(s: Machine) -> Machine {
    Machine { dt: decay(s.dt), st: decay(s.st), ..s }
}

} // verus!
