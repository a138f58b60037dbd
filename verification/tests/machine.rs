use chip8_lib::cpu::{Emulator, Instruction, TimerCue, FONT_SET, MAX_ROM_SIZE, ROM_START};
use chip8_lib::drivers::rom_driver::ROM;
use chip8_lib::errors::Chip8Error;

fn machine_with(program: &[u8]) -> Emulator {
    let mut emulator = Emulator::new();
    emulator.load_rom(ROM::new(program.to_vec(), String::from("test")));
    emulator
}

#[test]
fn new_machine_is_reset() {
    let emulator = Emulator::new();
    assert!(emulator.is_well_formed());
    assert_eq!(emulator.pc, 0x200);
    assert_eq!(emulator.pc, ROM_START);
    assert_eq!(emulator.i, 0);
    assert_eq!(emulator.sp, 0);
    assert_eq!(emulator.dt, 0);
    assert_eq!(emulator.st, 0);
    assert_eq!(emulator.v, [0u8; 16]);
    assert_eq!(emulator.stack, [0u16; 16]);
    assert!(!emulator.draw_flag);
    assert!(emulator.screen.iter().all(|pixel| !*pixel));
    assert_eq!(emulator.keyboard.pressed_key(), None);
    assert_eq!(&emulator.memory[..80], &FONT_SET[..]);
    assert!(emulator.memory[80..].iter().all(|byte| *byte == 0));
}

#[test]
fn font_glyphs_are_five_bytes_each() {
    let emulator = Emulator::new();
    assert_eq!(&emulator.memory[0..5], &[0xF0, 0x90, 0x90, 0x90, 0xF0]);
    assert_eq!(&emulator.memory[50..55], &[0xF0, 0x90, 0xF0, 0x90, 0x90]);
    assert_eq!(&emulator.memory[75..80], &[0xF0, 0x80, 0xF0, 0x80, 0x80]);
}

#[test]
fn load_rom_places_bytes_at_0x200() {
    let emulator = machine_with(&[0x12, 0x34, 0x56]);
    assert_eq!(emulator.memory[0x1FF], 0);
    assert_eq!(&emulator.memory[0x200..0x204], &[0x12, 0x34, 0x56, 0x00]);
    assert_eq!(&emulator.memory[..80], &FONT_SET[..]);
    assert_eq!(emulator.pc, 0x200);
}

#[test]
fn load_rom_of_the_largest_size() {
    let mut image = vec![0xAAu8; MAX_ROM_SIZE];
    image[MAX_ROM_SIZE - 1] = 0x55;
    let emulator = machine_with(&image);
    assert_eq!(emulator.memory[0x200], 0xAA);
    assert_eq!(emulator.memory[0xFFF], 0x55);
    assert_eq!(emulator.memory[0x1FF], 0);
}

#[test]
fn load_empty_rom_changes_nothing() {
    let emulator = machine_with(&[]);
    assert!(emulator.memory[80..].iter().all(|byte| *byte == 0));
}

#[test]
fn fetch_decodes_and_advances() {
    let mut emulator = machine_with(&[0x6A, 0x12, 0x50, 0x01]);
    assert_eq!(emulator.opcode_at_pc().raw(), 0x6A12);
    assert_eq!(emulator.fetch(), Some(Instruction::Load(0xA, 0x12)));
    assert_eq!(emulator.pc, 0x202);
    assert_eq!(emulator.fetch(), None);
    assert_eq!(emulator.pc, 0x204);
    assert_eq!(emulator.v[0xA], 0);
}

#[test]
fn fetch_wraps_at_the_end_of_memory() {
    let mut emulator = Emulator::new();
    emulator.memory[0xFFF] = 0x1A;
    emulator.memory[0x000] = 0xBC;
    emulator.pc = 0xFFF;
    assert_eq!(emulator.opcode_at_pc().raw(), 0x1ABC);
    assert_eq!(emulator.fetch(), Some(Instruction::Jump(0xABC)));
    assert_eq!(emulator.pc, 0x1001);
    emulator.pc = 0xFFFF;
    emulator.memory[0xFFF] = 0x60;
    emulator.memory[0x000] = 0x07;
    assert_eq!(emulator.fetch(), Some(Instruction::Load(0, 7)));
    assert_eq!(emulator.pc, 0x0001);
}

#[test]
fn tick_runs_a_small_program() {
    // V1 := 0x0A; V2 := 0x05; V1 += V2; I := font glyph of V1; jump to self.
    let mut emulator = machine_with(&[0x61, 0x0A, 0x62, 0x05, 0x81, 0x24, 0xF1, 0x29, 0x12, 0x08]);
    for _ in 0..6 {
        assert_eq!(emulator.tick(), Ok(()));
    }
    assert_eq!(emulator.v[1], 0x0F);
    assert_eq!(emulator.v[2], 0x05);
    assert_eq!(emulator.v[0xF], 0);
    assert_eq!(emulator.i, 75);
    assert_eq!(emulator.pc, 0x208);
}

#[test]
fn decode_failure_carries_word_and_pc() {
    let mut emulator = machine_with(&[0x50, 0x01]);
    assert_eq!(emulator.tick(), Err(Chip8Error::InvalidInstruction(0x5001, 0x200)));
    assert_eq!(emulator.pc, 0x202);
    assert_eq!(emulator.v, [0u8; 16]);
    assert_eq!(emulator.sp, 0);
}

#[test]
fn empty_memory_is_no_instruction() {
    let mut emulator = Emulator::new();
    assert_eq!(emulator.tick(), Err(Chip8Error::InvalidInstruction(0x0000, 0x200)));
}

#[test]
fn invalid_register_is_reported() {
    let mut emulator = Emulator::new();
    assert_eq!(emulator.execute(Instruction::Load(16, 1)), Err(Chip8Error::InvalidRegister(16)));
    assert_eq!(emulator.execute(Instruction::Move(1, 20)), Err(Chip8Error::InvalidRegister(20)));
    assert_eq!(
        emulator.execute(Instruction::AddXY(30, 20)),
        Err(Chip8Error::InvalidRegister(30))
    );
    assert_eq!(
        emulator.execute(Instruction::Random(16, 0xFF)),
        Err(Chip8Error::InvalidRegister(16))
    );
    assert_eq!(emulator.v, [0u8; 16]);
    assert_eq!(emulator.pc, 0x200);
}

#[test]
fn call_then_return_restores_pc() {
    // 0x200: call 0x206; 0x206: return.
    let mut emulator = machine_with(&[0x22, 0x06, 0x00, 0x00, 0x00, 0x00, 0x00, 0xEE]);
    assert_eq!(emulator.tick(), Ok(()));
    assert_eq!(emulator.pc, 0x206);
    assert_eq!(emulator.sp, 1);
    assert_eq!(emulator.stack[0], 0x202);
    assert_eq!(emulator.tick(), Ok(()));
    assert_eq!(emulator.pc, 0x202);
    assert_eq!(emulator.sp, 0);
}

#[test]
fn sixteen_calls_fit_and_the_next_overflows() {
    let mut emulator = Emulator::new();
    for depth in 0..16u16 {
        emulator.pc = 0x300 + depth;
        assert_eq!(emulator.execute(Instruction::Call(0x400 + depth)), Ok(()));
        assert_eq!(emulator.sp as u16, depth + 1);
        assert_eq!(emulator.pc, 0x400 + depth);
    }
    assert_eq!(emulator.execute(Instruction::Call(0x500)), Err(Chip8Error::StackOverflow));
    assert_eq!(emulator.sp, 16);
    assert_eq!(emulator.pc, 0x40F);
    for depth in (0..16u16).rev() {
        assert_eq!(emulator.execute(Instruction::Return), Ok(()));
        assert_eq!(emulator.pc, 0x300 + depth);
    }
    assert_eq!(emulator.sp, 0);
}

#[test]
fn return_on_empty_stack_underflows() {
    let mut emulator = Emulator::new();
    assert_eq!(emulator.execute(Instruction::Return), Err(Chip8Error::StackUnderflow));
    assert_eq!(emulator.pc, 0x200);
    assert_eq!(emulator.sp, 0);
}

#[test]
fn return_underflows_through_tick() {
    let mut emulator = machine_with(&[0x00, 0xEE]);
    assert_eq!(emulator.tick(), Err(Chip8Error::StackUnderflow));
    assert_eq!(emulator.pc, 0x202);
    assert_eq!(emulator.sp, 0);
    assert_eq!(emulator.stack, [0u16; 16]);
}

#[test]
fn a_return_leaves_the_slots_as_they_are() {
    let mut emulator = Emulator::new();
    emulator.pc = 0x300;
    assert_eq!(emulator.execute(Instruction::Call(0x400)), Ok(()));
    emulator.pc = 0x402;
    assert_eq!(emulator.execute(Instruction::Call(0x500)), Ok(()));
    assert_eq!(emulator.execute(Instruction::Return), Ok(()));
    assert_eq!(emulator.execute(Instruction::Return), Ok(()));
    assert_eq!(emulator.sp, 0);
    assert_eq!(emulator.pc, 0x300);
    let mut slots = [0u16; 16];
    slots[0] = 0x300;
    slots[1] = 0x402;
    assert_eq!(emulator.stack, slots);
}

#[test]
fn a_fault_leaves_the_stack_as_it_is() {
    let mut emulator = machine_with(&[0x50, 0x01]);
    emulator.stack[3] = 0x777;
    let stack = emulator.stack;
    assert_eq!(emulator.tick(), Err(Chip8Error::InvalidInstruction(0x5001, 0x200)));
    assert_eq!(emulator.stack, stack);
    assert_eq!(emulator.sp, 0);
    assert_eq!(emulator.execute(Instruction::Load(16, 0)), Err(Chip8Error::InvalidRegister(16)));
    assert_eq!(emulator.stack, stack);
    for _ in 0..16 {
        assert_eq!(emulator.execute(Instruction::Call(0x600)), Ok(()));
    }
    let full = emulator.stack;
    assert_eq!(emulator.execute(Instruction::Call(0x700)), Err(Chip8Error::StackOverflow));
    assert_eq!(emulator.stack, full);
    assert_eq!(emulator.sp, 16);
}

#[test]
fn only_a_call_writes_to_the_stack() {
    let mut emulator = machine_with(&[0x30, 0x00, 0x00, 0x00, 0x61, 0x07, 0xF1, 0x55, 0x00, 0xE0]);
    emulator.stack[0] = 0xAAA;
    emulator.stack[15] = 0xBBB;
    let stack = emulator.stack;
    for _ in 0..4 {
        assert_eq!(emulator.tick(), Ok(()));
        assert_eq!(emulator.stack, stack);
        assert_eq!(emulator.sp, 0);
    }
    assert_eq!(emulator.fetch(), None);
    assert_eq!(emulator.stack, stack);
    emulator.reset_memory();
    emulator.reset_registers();
    emulator.reset_timers();
    emulator.key_down(1);
    emulator.key_up(1);
    emulator.load_rom(ROM::new(vec![1, 2, 3], String::from("test")));
    assert_eq!(emulator.stack, stack);
    assert_eq!(emulator.sp, 0);
}

#[test]
fn jumps() {
    let mut emulator = Emulator::new();
    assert_eq!(emulator.execute(Instruction::Jump(0x345)), Ok(()));
    assert_eq!(emulator.pc, 0x345);
    emulator.v[0] = 0x10;
    assert_eq!(emulator.execute(Instruction::JumpV0(0x300)), Ok(()));
    assert_eq!(emulator.pc, 0x310);
    emulator.v[0] = 0xFF;
    assert_eq!(emulator.execute(Instruction::JumpV0(0xFFF)), Ok(()));
    assert_eq!(emulator.pc, 0x10FE);
    assert_eq!(emulator.execute(Instruction::JumpV0(0xFFFF)), Ok(()));
    assert_eq!(emulator.pc, 0x00FE);
}

#[test]
fn skips() {
    let mut emulator = Emulator::new();
    emulator.v[1] = 7;
    emulator.v[2] = 7;
    emulator.v[3] = 9;
    let mut pc = 0x200u16;
    let cases = [
        (Instruction::SkipEqual(1, 7), true),
        (Instruction::SkipEqual(1, 8), false),
        (Instruction::SkipNotEqual(1, 7), false),
        (Instruction::SkipNotEqual(1, 8), true),
        (Instruction::SkipEqualXY(1, 2), true),
        (Instruction::SkipEqualXY(1, 3), false),
        (Instruction::SkipNotEqualXY(1, 2), false),
        (Instruction::SkipNotEqualXY(1, 3), true),
    ];
    for (instruction, skipped) in cases {
        assert_eq!(emulator.execute(instruction), Ok(()));
        if skipped {
            pc += 2;
        }
        assert_eq!(emulator.pc, pc, "{:?}", instruction);
    }
}

#[test]
fn skip_through_tick_adds_four() {
    let mut emulator = machine_with(&[0x30, 0x00]);
    assert_eq!(emulator.tick(), Ok(()));
    assert_eq!(emulator.pc, 0x204);
    let mut emulator = machine_with(&[0x30, 0x01]);
    assert_eq!(emulator.tick(), Ok(()));
    assert_eq!(emulator.pc, 0x202);
}

#[test]
fn key_skips() {
    let mut emulator = Emulator::new();
    emulator.v[4] = 0xB;
    assert_eq!(emulator.execute(Instruction::SkipKeyPressed(4)), Ok(()));
    assert_eq!(emulator.pc, 0x200);
    assert_eq!(emulator.execute(Instruction::SkipKeyNotPressed(4)), Ok(()));
    assert_eq!(emulator.pc, 0x202);
    emulator.key_down(0xB);
    assert_eq!(emulator.execute(Instruction::SkipKeyPressed(4)), Ok(()));
    assert_eq!(emulator.pc, 0x204);
    assert_eq!(emulator.execute(Instruction::SkipKeyNotPressed(4)), Ok(()));
    assert_eq!(emulator.pc, 0x204);
    emulator.key_down(0x1);
    assert_eq!(emulator.execute(Instruction::SkipKeyPressed(4)), Ok(()));
    assert_eq!(emulator.pc, 0x204);
    assert_eq!(emulator.execute(Instruction::SkipKeyNotPressed(4)), Ok(()));
    assert_eq!(emulator.pc, 0x206);
}

#[test]
fn wait_key_press_blocks_until_a_key_is_pressed() {
    let mut emulator = machine_with(&[0xF3, 0x0A, 0x63, 0x00]);
    for _ in 0..5 {
        assert_eq!(emulator.tick(), Ok(()));
        assert_eq!(emulator.pc, 0x200);
        assert_eq!(emulator.v, [0u8; 16]);
    }
    emulator.key_down(0xC);
    assert_eq!(emulator.tick(), Ok(()));
    assert_eq!(emulator.pc, 0x202);
    assert_eq!(emulator.v[3], 0xC);
}

#[test]
fn wait_key_press_rewinds_in_execute() {
    let mut emulator = Emulator::new();
    emulator.pc = 0x202;
    assert_eq!(emulator.execute(Instruction::WaitKeyPress(0)), Ok(()));
    assert_eq!(emulator.pc, 0x200);
    emulator.pc = 0x0000;
    assert_eq!(emulator.execute(Instruction::WaitKeyPress(0)), Ok(()));
    assert_eq!(emulator.pc, 0xFFFE);
}

#[test]
fn key_down_and_key_up() {
    let mut emulator = Emulator::new();
    emulator.key_down(0x3);
    assert_eq!(emulator.keyboard.pressed_key(), Some(0x3));
    emulator.key_down(0x10);
    assert_eq!(emulator.keyboard.pressed_key(), Some(0x3));
    emulator.key_down(0xF);
    assert_eq!(emulator.keyboard.pressed_key(), Some(0xF));
    emulator.key_up(0x3);
    assert_eq!(emulator.keyboard.pressed_key(), Some(0xF));
    emulator.key_up(0xF);
    assert_eq!(emulator.keyboard.pressed_key(), None);
    emulator.key_up(0xF);
    assert_eq!(emulator.keyboard.pressed_key(), None);
}

#[test]
fn timer_decay_from_five() {
    let mut emulator = Emulator::new();
    emulator.dt = 5;
    for left in (0..5u8).rev() {
        emulator.timer_tick();
        assert_eq!(emulator.dt, left);
    }
    for _ in 0..300 {
        emulator.timer_tick();
        assert_eq!(emulator.dt, 0);
    }
}

#[test]
fn sound_timer_reports_the_tone() {
    let mut emulator = Emulator::new();
    assert_eq!(emulator.timer_tick(), TimerCue { tone: false, ends: false });
    emulator.st = 3;
    emulator.dt = 1;
    assert_eq!(emulator.timer_tick(), TimerCue { tone: true, ends: false });
    assert_eq!((emulator.dt, emulator.st), (0, 2));
    assert_eq!(emulator.timer_tick(), TimerCue { tone: true, ends: false });
    assert_eq!((emulator.dt, emulator.st), (0, 1));
    assert_eq!(emulator.timer_tick(), TimerCue { tone: true, ends: true });
    assert_eq!((emulator.dt, emulator.st), (0, 0));
    assert_eq!(emulator.timer_tick(), TimerCue { tone: false, ends: false });
    assert_eq!((emulator.dt, emulator.st), (0, 0));
}

#[test]
fn timer_tick_changes_only_the_timers() {
    let mut emulator = machine_with(&[0x22, 0x06, 0x00, 0x00, 0x00, 0x00, 0xD0, 0x05]);
    assert_eq!(emulator.tick(), Ok(()));
    assert_eq!(emulator.tick(), Ok(()));
    emulator.dt = 7;
    emulator.st = 9;
    emulator.stack[5] = 0x123;
    emulator.key_down(4);
    let (memory, v, i, pc, stack, sp, screen, draw_flag) = (
        emulator.memory,
        emulator.v,
        emulator.i,
        emulator.pc,
        emulator.stack,
        emulator.sp,
        emulator.screen,
        emulator.draw_flag,
    );
    emulator.timer_tick();
    assert_eq!((emulator.dt, emulator.st), (6, 8));
    assert_eq!(emulator.memory, memory);
    assert_eq!(emulator.v, v);
    assert_eq!(emulator.i, i);
    assert_eq!(emulator.pc, pc);
    assert_eq!(emulator.stack, stack);
    assert_eq!(emulator.sp, sp);
    assert_eq!(emulator.screen, screen);
    assert_eq!(emulator.draw_flag, draw_flag);
    assert_eq!(emulator.keyboard.pressed_key(), Some(4));
}

#[test]
fn timers_do_not_move_with_instructions() {
    let mut emulator = machine_with(&[0x61, 0x01, 0x12, 0x00]);
    emulator.dt = 9;
    emulator.st = 4;
    for _ in 0..50 {
        assert_eq!(emulator.tick(), Ok(()));
    }
    assert_eq!((emulator.dt, emulator.st), (9, 4));
}

#[test]
fn timer_instructions() {
    let mut emulator = Emulator::new();
    emulator.v[1] = 0x33;
    assert_eq!(emulator.execute(Instruction::SetDelay(1)), Ok(()));
    assert_eq!(emulator.dt, 0x33);
    emulator.v[1] = 0x44;
    assert_eq!(emulator.execute(Instruction::SetSound(1)), Ok(()));
    assert_eq!(emulator.st, 0x44);
    assert_eq!(emulator.execute(Instruction::LoadDelay(2)), Ok(()));
    assert_eq!(emulator.v[2], 0x33);
}

#[test]
fn resets() {
    let mut emulator = machine_with(&[1, 2, 3]);
    emulator.v[3] = 9;
    emulator.i = 77;
    emulator.pc = 0x300;
    emulator.dt = 5;
    emulator.st = 6;
    assert_eq!(emulator.execute(Instruction::Call(0x400)), Ok(()));

    emulator.reset_stack();
    assert_eq!(emulator.sp, 0);
    assert_eq!(emulator.stack, [0u16; 16]);
    assert_eq!(emulator.dt, 5);

    emulator.reset_timers();
    assert_eq!((emulator.dt, emulator.st), (0, 0));
    assert_eq!(emulator.v[3], 9);

    emulator.reset_registers();
    assert_eq!(emulator.v, [0u8; 16]);
    assert_eq!(emulator.i, 0);
    assert_eq!(emulator.pc, 0x200);
    assert_eq!(emulator.memory[0x200], 1);

    emulator.reset_memory();
    assert!(emulator.memory.iter().all(|byte| *byte == 0));
}
