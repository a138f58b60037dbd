use chip8_lib::cpu::{Instruction, OpCode};

#[test]
fn opcode_fields() {
    let op = OpCode::new(0xD12F);
    assert_eq!(op.raw(), 0xD12F);
    assert_eq!(op.family(), 0xD);
    assert_eq!(op.x(), 0x1);
    assert_eq!(op.y(), 0x2);
    assert_eq!(op.n(), 0xF);
    assert_eq!(op.nn(), 0x2F);
    assert_eq!(op.nnn(), 0x12F);
}

#[test]
fn opcode_fields_extremes() {
    let zero = OpCode::new(0x0000);
    assert_eq!((zero.family(), zero.x(), zero.y(), zero.n(), zero.nn(), zero.nnn()), (0, 0, 0, 0, 0, 0));
    let ones = OpCode::new(0xFFFF);
    assert_eq!(
        (ones.family(), ones.x(), ones.y(), ones.n(), ones.nn(), ones.nnn()),
        (0xF, 0xF, 0xF, 0xF, 0xFF, 0xFFF)
    );
}

#[test]
fn opcode_from_word() {
    let op: OpCode = OpCode::from(0xABCD);
    assert_eq!(op.raw(), 0xABCD);
}

#[test]
fn decode_every_instruction() {
    let cases: Vec<(u16, Instruction)> = vec![
        (0x00E0, Instruction::ClearDisplay),
        (0x00EE, Instruction::Return),
        (0x1ABC, Instruction::Jump(0xABC)),
        (0x2ABC, Instruction::Call(0xABC)),
        (0x3A12, Instruction::SkipEqual(0xA, 0x12)),
        (0x4A12, Instruction::SkipNotEqual(0xA, 0x12)),
        (0x5AB0, Instruction::SkipEqualXY(0xA, 0xB)),
        (0x6A12, Instruction::Load(0xA, 0x12)),
        (0x7A12, Instruction::Add(0xA, 0x12)),
        (0x8AB0, Instruction::Move(0xA, 0xB)),
        (0x8AB1, Instruction::Or(0xA, 0xB)),
        (0x8AB2, Instruction::And(0xA, 0xB)),
        (0x8AB3, Instruction::Xor(0xA, 0xB)),
        (0x8AB4, Instruction::AddXY(0xA, 0xB)),
        (0x8AB5, Instruction::SubXY(0xA, 0xB)),
        (0x8AB6, Instruction::ShiftRight(0xA)),
        (0x8AB7, Instruction::SubYX(0xA, 0xB)),
        (0x8ABE, Instruction::ShiftLeft(0xA)),
        (0x9AB0, Instruction::SkipNotEqualXY(0xA, 0xB)),
        (0xAABC, Instruction::LoadI(0xABC)),
        (0xBABC, Instruction::JumpV0(0xABC)),
        (0xCA12, Instruction::Random(0xA, 0x12)),
        (0xDAB5, Instruction::Draw(0xA, 0xB, 5)),
        (0xEA9E, Instruction::SkipKeyPressed(0xA)),
        (0xEAA1, Instruction::SkipKeyNotPressed(0xA)),
        (0xFA07, Instruction::LoadDelay(0xA)),
        (0xFA0A, Instruction::WaitKeyPress(0xA)),
        (0xFA15, Instruction::SetDelay(0xA)),
        (0xFA18, Instruction::SetSound(0xA)),
        (0xFA1E, Instruction::AddI(0xA)),
        (0xFA29, Instruction::LoadFont(0xA)),
        (0xFA33, Instruction::StoreBCD(0xA)),
        (0xFA55, Instruction::StoreRegisters(0xA)),
        (0xFA65, Instruction::LoadMemory(0xA)),
    ];
    assert_eq!(cases.len(), 34);
    for (word, expected) in cases {
        assert_eq!(Instruction::from(word), Some(expected), "word {:#06x}", word);
        assert_eq!(Instruction::decode(OpCode::new(word)), Some(expected));
        assert_eq!(Instruction::from(OpCode::new(word)), Some(expected));
    }
}

#[test]
fn decode_failure_on_5001() {
    assert_eq!(Instruction::from(0x5001u16), None);
}

#[test]
fn decode_rejects_undefined_words() {
    for word in [
        0x0000u16, 0x00E1, 0x00EF, 0x0123, 0x5AB1, 0x5ABF, 0x8AB8, 0x8AB9, 0x8ABA, 0x8ABD, 0x8ABF,
        0x9AB1, 0x9ABF, 0xE000, 0xEA9F, 0xEAA0, 0xF000, 0xFA08, 0xFA66, 0xFAFF,
    ] {
        assert_eq!(Instruction::from(word), None, "word {:#06x}", word);
    }
}

#[test]
fn decode_is_total_and_operands_are_in_range() {
    let mut decoded = 0u32;
    for word in 0..=0xFFFFu16 {
        if let Some(instruction) = Instruction::from(word) {
            decoded += 1;
            assert_eq!(instruction.check_registers(), None);
            match instruction {
                Instruction::Jump(a)
                | Instruction::Call(a)
                | Instruction::LoadI(a)
                | Instruction::JumpV0(a) => assert!(a < 4096),
                Instruction::Draw(_, _, n) => assert!(n < 16),
                _ => {}
            }
        }
    }
    // 0x0: 16 * 2; 0x1-0x4, 0x6, 0x7, 0xA-0xD: 10 * 4096; 0x5, 0x9: 2 * 256;
    // 0x8: 9 * 256; 0xE: 2 * 16; 0xF: 9 * 16.
    assert_eq!(decoded, 32 + 10 * 4096 + 2 * 256 + 9 * 256 + 32 + 144);
}

#[test]
fn has_register_by_variant() {
    assert!(!Instruction::ClearDisplay.has_register());
    assert!(!Instruction::Return.has_register());
    assert!(!Instruction::Jump(0x200).has_register());
    assert!(!Instruction::Call(0x200).has_register());
    assert!(!Instruction::LoadI(0x200).has_register());
    assert!(!Instruction::JumpV0(0x200).has_register());
    assert!(Instruction::SkipEqual(1, 2).has_register());
    assert!(Instruction::Load(1, 2).has_register());
    assert!(Instruction::AddXY(1, 2).has_register());
    assert!(Instruction::ShiftLeft(1).has_register());
    assert!(Instruction::Random(1, 2).has_register());
    assert!(Instruction::Draw(1, 2, 3).has_register());
    assert!(Instruction::WaitKeyPress(1).has_register());
    assert!(Instruction::LoadMemory(1).has_register());
}

#[test]
fn check_registers_reports_the_first_bad_operand() {
    assert_eq!(Instruction::Load(15, 0).check_registers(), None);
    assert_eq!(Instruction::Load(16, 0).check_registers(), Some(16));
    assert_eq!(Instruction::Move(3, 99).check_registers(), Some(99));
    assert_eq!(Instruction::Move(42, 99).check_registers(), Some(42));
    assert_eq!(Instruction::Draw(1, 16, 0).check_registers(), Some(16));
    assert_eq!(Instruction::Jump(0xFFFF).check_registers(), None);
}

#[test]
fn has_register_for_every_decoded_instruction() {
    for word in 0..=0xFFFFu16 {
        if let Some(instruction) = Instruction::from(word) {
            let family = word >> 12;
            let without = family == 0x0 || family == 0x1 || family == 0x2 || family == 0xA || family == 0xB;
            assert_eq!(instruction.has_register(), !without, "word {:#06x}", word);
        }
    }
}
