//! What holds of the machine whatever its state: the arithmetic flags, the
//! call stack, drawing, waiting for a key and the timers.

use vstd::prelude::*;
use crate::cpu::{Instruction, decode};
use crate::errors::Chip8Error;
use crate::machine::{
    Machine, advance, apply, cycle, execute_step, fault, set_register, sprite_at, timer_step,
    word_at_pc, wrap16, wrap8,
};
use crate::sprite::{
    lemma_draw_collides_cells, lemma_draw_rows_cells, lemma_draw_rows_len, lemma_draw_rows_twice,
    sprite_collides, sprite_covers,
};

verus! {

/// `AddXY` sets `VF` to 1 if the sum of the two registers is above 255 and
/// to 0 if not, and leaves the sum modulo 256 in `Vx`, unless `Vx` is `VF`
/// itself, which then holds the flag.
pub proof fn law_add_xy(s: Machine, x: usize, y: usize, random: u8)
    requires
        s.wf(),
        x < 16,
        y < 16,
    ensures
        apply(s, Instruction::AddXY(x, y), random).v[0xF] == (if s.v[x as int] + s.v[y as int]
            > 255 {
            1u8
        } else {
            0u8
        }),
        x != 0xF ==> apply(s, Instruction::AddXY(x, y), random).v[x as int] == (s.v[x as int]
            + s.v[y as int]) % 256,
        forall|r: int|
            0 <= r < 16 && r != x && r != 0xF ==> apply(s, Instruction::AddXY(x, y), random).v[r]
                == s.v[r],
{
}

/// `SubXY` sets `VF` to 1 if `Vx` is at least `Vy` and to 0 if not, and
/// leaves the difference modulo 256 in `Vx`, unless `Vx` is `VF` itself,
/// which then holds the flag.
pub proof fn law_sub_xy(s: Machine, x: usize, y: usize, random: u8)
    requires
        s.wf(),
        x < 16,
        y < 16,
    ensures
        apply(s, Instruction::SubXY(x, y), random).v[0xF] == (if s.v[x as int] >= s.v[y as int] {
            1u8
        } else {
            0u8
        }),
        x != 0xF ==> apply(s, Instruction::SubXY(x, y), random).v[x as int] == (s.v[x as int]
            - s.v[y as int]) % 256,
        forall|r: int|
            0 <= r < 16 && r != x && r != 0xF ==> apply(s, Instruction::SubXY(x, y), random).v[r]
                == s.v[r],
{
}

/// `SubYX` sets `VF` to 1 if `Vy` is at least `Vx` and to 0 if not, and
/// leaves `Vy - Vx` modulo 256 in `Vx`, unless `Vx` is `VF` itself, which
/// then holds the flag.
pub proof fn law_sub_yx(s: Machine, x: usize, y: usize, random: u8)
    requires
        s.wf(),
        x < 16,
        y < 16,
    ensures
        apply(s, Instruction::SubYX(x, y), random).v[0xF] == (if s.v[y as int] >= s.v[x as int] {
            1u8
        } else {
            0u8
        }),
        x != 0xF ==> apply(s, Instruction::SubYX(x, y), random).v[x as int] == (s.v[y as int]
            - s.v[x as int]) % 256,
{
}

/// A shift of a register other than `VF` leaves in `VF` the bit that is
/// shifted out, as it was before the shift: the lowest bit for a shift to
/// the right, the highest for a shift to the left. The register holds its
/// old value halved, or doubled modulo 256.
pub proof fn law_shift_flag(s: Machine, x: usize, random: u8)
    requires
        s.wf(),
        x < 16,
        x != 0xF,
    ensures
        apply(s, Instruction::ShiftRight(x), random).v[0xF] == s.v[x as int] % 2,
        apply(s, Instruction::ShiftRight(x), random).v[x as int] == s.v[x as int] / 2,
        apply(s, Instruction::ShiftLeft(x), random).v[0xF] == s.v[x as int] / 128,
        apply(s, Instruction::ShiftLeft(x), random).v[x as int] == (s.v[x as int] * 2) % 256,
{
}

/// A shift of `VF` itself writes the flag first and then shifts it: a shift
/// to the right leaves zero in `VF`, a shift to the left twice the bit that
/// was shifted out.
pub proof fn law_shift_of_flag_register(s: Machine, random: u8)
    requires
        s.wf(),
    ensures
        apply(s, Instruction::ShiftRight(0xF), random).v[0xF] == 0,
        apply(s, Instruction::ShiftLeft(0xF), random).v[0xF] == 2 * (s.v[0xF] / 128),
{
    let right = set_register(s, 0xF, s.v[0xF] % 2);
    assert(right.v[0xF] == s.v[0xF] % 2);
    assert(apply(s, Instruction::ShiftRight(0xF), random) == set_register(
        right,
        0xF,
        right.v[0xF] / 2,
    ));
    let left = set_register(s, 0xF, s.v[0xF] / 128);
    assert(left.v[0xF] == s.v[0xF] / 128);
    assert(apply(s, Instruction::ShiftLeft(0xF), random) == set_register(
        left,
        0xF,
        wrap8(left.v[0xF] * 2),
    ));
}

/// A draw of at most 32 rows, which every decoded draw is, flips exactly the
/// cells under the set pixels of the sprite, with columns taken modulo 64
/// and rows modulo 32, and sets `VF` to 1 if one of those cells was on and
/// to 0 if none was.
pub proof fn law_draw(s: Machine, x: usize, y: usize, height: u8, random: u8)
    requires
        s.wf(),
        x < 16,
        y < 16,
        height <= 32,
    ensures
        apply(s, Instruction::Draw(x, y, height), random).screen == Seq::new(
            2048,
            |cell: int|
                s.screen[cell] != sprite_covers(
                    sprite_at(s.memory, s.i, height as nat),
                    s.v[x as int] as int,
                    s.v[y as int] as int,
                    height as nat,
                    cell,
                ),
        ),
        apply(s, Instruction::Draw(x, y, height), random).v[0xF] == (if sprite_collides(
            s.screen,
            sprite_at(s.memory, s.i, height as nat),
            s.v[x as int] as int,
            s.v[y as int] as int,
            height as nat,
        ) {
            1u8
        } else {
            0u8
        }),
        apply(s, Instruction::Draw(x, y, height), random).draw_flag,
{
    let sprite = sprite_at(s.memory, s.i, height as nat);
    lemma_draw_rows_cells(
        s.screen,
        sprite,
        s.v[x as int] as int,
        s.v[y as int] as int,
        height as nat,
    );
    lemma_draw_collides_cells(
        s.screen,
        sprite,
        s.v[x as int] as int,
        s.v[y as int] as int,
        height as nat,
    );
}

/// Drawing the same sprite at the same coordinates twice in succession
/// restores the frame buffer. The coordinate registers must not be `VF`,
/// which the first draw overwrites with the collision flag.
pub proof fn law_draw_twice(s: Machine, x: usize, y: usize, height: u8, random: u8)
    requires
        s.wf(),
        x < 16,
        y < 16,
        x != 0xF,
        y != 0xF,
    ensures
        apply(
            apply(s, Instruction::Draw(x, y, height), random),
            Instruction::Draw(x, y, height),
            random,
        ).screen == s.screen,
{
    lemma_draw_rows_twice(
        s.screen,
        sprite_at(s.memory, s.i, height as nat),
        s.v[x as int] as int,
        s.v[y as int] as int,
        height as nat,
    );
}

/// A call followed by a return restores the program counter, which points
/// to the instruction after the call again, and the number of return
/// addresses on the stack. Nothing else changes but the slot of the stack
/// that held the return address meanwhile.
pub proof fn law_call_return(s: Machine, addr: u16, random: u8)
    requires
        s.wf(),
        s.sp < 16,
    ensures
        execute_step(s, Instruction::Call(addr), random).1 is Ok,
        execute_step(
            execute_step(s, Instruction::Call(addr), random).0,
            Instruction::Return,
            random,
        ) == (Machine { stack: s.stack.update(s.sp as int, s.pc), ..s }, Ok::<(), Chip8Error>(())),
        execute_step(
            execute_step(s, Instruction::Call(addr), random).0,
            Instruction::Return,
            random,
        ).0.return_addresses() == s.return_addresses(),
{
    let called = execute_step(s, Instruction::Call(addr), random).0;
    let returned = execute_step(called, Instruction::Return, random).0;
    assert(returned.return_addresses() =~= s.return_addresses());
}

/// A cycle that fetches a call, followed by a cycle that fetches a return,
/// leaves the program counter at the instruction after the call and the
/// number of return addresses as it was. Nothing else changes but the slot
/// of the stack that held the return address meanwhile.
pub proof fn law_call_return_cycles(s: Machine, addr: u16, random: u8)
    requires
        s.wf(),
        s.sp < 16,
        decode(word_at_pc(s)) == Some(Instruction::Call(addr)),
        decode(word_at_pc(cycle(s, random).0)) == Some(Instruction::Return),
    ensures
        cycle(s, random).1 is Ok,
        cycle(cycle(s, random).0, random) == (
            Machine { stack: s.stack.update(s.sp as int, advance(s).pc), ..advance(s) },
            Ok::<(), Chip8Error>(()),
        ),
{
    let called = cycle(s, random).0;
    assert(called == execute_step(advance(s), Instruction::Call(addr), random).0);
    let fetched = advance(called);
    assert(fault(fetched, Instruction::Return) is None);
    assert(fetched.stack[fetched.sp - 1] == advance(s).pc);
}

/// A call succeeds exactly when the stack holds fewer than 16 return
/// addresses, and fails with `StackOverflow` when it holds 16. A return
/// succeeds exactly when the stack is not empty, and fails with
/// `StackUnderflow` when it is.
pub proof fn law_stack_faults(s: Machine, addr: u16)
    requires
        s.wf(),
    ensures
        fault(s, Instruction::Call(addr)) == (if s.sp == 16 {
            Some(Chip8Error::StackOverflow)
        } else {
            None
        }),
        fault(s, Instruction::Return) == (if s.sp == 0 {
            Some(Chip8Error::StackUnderflow)
        } else {
            None
        }),
{
}

/// Only a call writes to the call stack, and only a call or a return moves
/// the stack pointer: after every other instruction, and after every fault,
/// the 16 slots and the stack pointer are as they were.
pub proof fn law_stack_untouched(s: Machine, instruction: Instruction, random: u8)
    requires
        s.wf(),
    ensures
        !(instruction is Call) ==> execute_step(s, instruction, random).0.stack == s.stack,
        !(instruction is Call) && !(instruction is Return) ==> execute_step(
            s,
            instruction,
            random,
        ).0.sp == s.sp,
        execute_step(s, instruction, random).1 is Err ==> execute_step(s, instruction, random).0
            == s,
{
}

/// No instruction brings the call stack beyond 16 return addresses or
/// changes the size of memory, of the register file or of the frame buffer.
pub proof fn law_step_keeps_wf(s: Machine, instruction: Instruction, random: u8)
    requires
        s.wf(),
    ensures
        execute_step(s, instruction, random).0.wf(),
        cycle(s, random).0.wf(),
{
    lemma_apply_keeps_wf(s, instruction, random);
    match decode(word_at_pc(s)) {
        Some(fetched) => lemma_apply_keeps_wf(advance(s), fetched, random),
        None => {},
    }
}

proof fn lemma_apply_keeps_wf(s: Machine, instruction: Instruction, random: u8)
    requires
        s.wf(),
    ensures
        execute_step(s, instruction, random).0.wf(),
{
    if let Instruction::Draw(x, y, height) = instruction {
        lemma_draw_rows_len(
            s.screen,
            sprite_at(s.memory, s.i, height as nat),
            s.v[x as int] as int,
            s.v[y as int] as int,
            height as nat,
        );
    }
}

/// Moving the program counter back by one instruction undoes moving it
/// forward by one.
proof fn lemma_rewind(pc: u16)
    ensures
        wrap16(wrap16(pc + 2) - 2) == pc,
{
}

/// While no key is pressed, a cycle that fetches a wait for a key leaves the
/// machine exactly as it is: the program counter does not advance, and the
/// same instruction is fetched again.
pub proof fn law_wait_blocks(s: Machine, x: usize, random: u8)
    requires
        s.wf(),
        decode(word_at_pc(s)) == Some(Instruction::WaitKeyPress(x)),
        s.key is None,
    ensures
        cycle(s, random) == (s, Ok::<(), Chip8Error>(())),
{
    law_decoded_is_wf(word_at_pc(s));
    lemma_rewind(s.pc);
    let fetched = advance(s);
    let waited = apply(fetched, Instruction::WaitKeyPress(x), random);
    assert(waited == Machine { pc: wrap16(fetched.pc - 2), ..fetched });
    assert(waited == s);
}

/// Once a key is pressed, a cycle that fetches a wait for a key stores the
/// code of the key in the register and advances the program counter by one
/// instruction.
pub proof fn law_wait_resumes(s: Machine, x: usize, key: u8, random: u8)
    requires
        s.wf(),
        decode(word_at_pc(s)) == Some(Instruction::WaitKeyPress(x)),
        s.key == Some(key),
    ensures
        x < 16,
        cycle(s, random) == (
            Machine { v: s.v.update(x as int, key), ..advance(s) },
            Ok::<(), Chip8Error>(()),
        ),
{
    law_decoded_is_wf(word_at_pc(s));
}

/// The machine after `n` ticks of the 60 Hz clock.
pub open spec fn timer_steps(s: Machine, n: nat) -> Machine
    decreases n,
{
    if n == 0 {
        s
    } else {
        timer_step(timer_steps(s, (n - 1) as nat))
    }
}

/// A timer after `n` ticks: `n` less, and zero where it held less than `n`.
pub open spec fn decay_by(timer: u8, n: nat) -> u8 {
    if timer >= n {
        (timer - n) as u8
    } else {
        0
    }
}

/// After `n` ticks each timer is `n` less than it was, or zero if it held
/// less than `n`: a timer reaches zero and stays there. Nothing else changes.
pub proof fn law_timer_decay(s: Machine, n: nat)
    ensures
        timer_steps(s, n) == (Machine { dt: decay_by(s.dt, n), st: decay_by(s.st, n), ..s }),
    decreases n,
{
    if n > 0 {
        law_timer_decay(s, (n - 1) as nat);
    }
}

/// Executing an instruction never changes the timers, unless it is the
/// instruction that sets one: the timers run on the clock alone.
pub proof fn law_execute_keeps_timers(s: Machine, instruction: Instruction, random: u8)
    requires
        s.wf(),
    ensures
        !(instruction is SetDelay) ==> execute_step(s, instruction, random).0.dt == s.dt,
        !(instruction is SetSound) ==> execute_step(s, instruction, random).0.st == s.st,
{
}

/// Only a `Random` instruction depends on the random byte.
pub proof fn law_random_only(s: Machine, instruction: Instruction, r1: u8, r2: u8)
    requires
        !(instruction is Random),
    ensures
        execute_step(s, instruction, r1) == execute_step(s, instruction, r2),
{
}

/// A word of the family `5` or `9` whose lowest nibble is not zero stands
/// for no instruction, and neither does a word of the family `0` other than
/// a clear or a return.
pub proof fn law_undefined_words(raw: u16)
    ensures
        (raw / 4096 == 5 || raw / 4096 == 9) && raw % 16 != 0 ==> decode(raw) is None,
        raw / 4096 == 0 && raw % 256 != 0xE0 && raw % 256 != 0xEE ==> decode(raw) is None,
{
    reveal(decode);
}

/// A word that stands for no instruction makes the cycle fail with
/// `InvalidInstruction`, which carries the word and the address it was
/// fetched from; the program counter moves past the word and nothing else
/// changes.
pub proof fn law_decode_failure(s: Machine, random: u8)
    requires
        decode(word_at_pc(s)) is None,
    ensures
        cycle(s, random) == (
            advance(s),
            Err::<(), Chip8Error>(Chip8Error::InvalidInstruction(word_at_pc(s), s.pc)),
        ),
{
}

/// Every instruction that a word stands for has registers below 16,
/// addresses below 4096 and a sprite height below 16.
pub proof fn law_decoded_is_wf(raw: u16)
    ensures
        decode(raw) matches Some(instruction) ==> instruction.wf(),
{
    reveal(decode);
}

/// `LoadFont` sets `I` to five times the digit in the register: the address
/// of the glyph of that digit in the font.
pub proof fn law_load_font(s: Machine, x: usize, random: u8)
    requires
        s.wf(),
        x < 16,
    ensures
        apply(s, Instruction::LoadFont(x), random).i == 5 * s.v[x as int],
{
}

} // verus!
