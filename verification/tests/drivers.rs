use chip8_lib::drivers::audio_driver::Sounds;
use chip8_lib::drivers::keyboard_driver::{Key, Keyboard};
use chip8_lib::drivers::rom_driver::ROM;

#[test]
fn keyboard_starts_released() {
    let keyboard = Keyboard::new();
    assert_eq!(keyboard.pressed_key(), None);
}

#[test]
fn keyboard_layout() {
    let keyboard = Keyboard::new();
    let layout = [
        (Key::Key1, 0x1u8),
        (Key::Key2, 0x2),
        (Key::Key3, 0x3),
        (Key::Key4, 0xC),
        (Key::Q, 0x4),
        (Key::W, 0x5),
        (Key::E, 0x6),
        (Key::R, 0xD),
        (Key::A, 0x7),
        (Key::S, 0x8),
        (Key::D, 0x9),
        (Key::F, 0xE),
        (Key::Z, 0xA),
        (Key::X, 0x0),
        (Key::C, 0xB),
        (Key::V, 0xF),
    ];
    let mut seen = [false; 16];
    for (key, code) in layout {
        assert_eq!(keyboard.into_chip8_key(key), Some(code));
        seen[code as usize] = true;
    }
    assert!(seen.iter().all(|s| *s));
    assert_eq!(keyboard.into_chip8_key(Key::Other), None);
}

#[test]
fn press_and_release() {
    let mut keyboard = Keyboard::new();
    keyboard.press_key(Key::R);
    assert_eq!(keyboard.pressed_key(), Some(0xD));
    keyboard.press_key(Key::X);
    assert_eq!(keyboard.pressed_key(), Some(0x0));
    keyboard.release_key();
    assert_eq!(keyboard.pressed_key(), None);
    keyboard.press_key(Key::V);
    keyboard.press_key(Key::Other);
    assert_eq!(keyboard.pressed_key(), None);
}

#[test]
fn press_code() {
    let mut keyboard = Keyboard::new();
    keyboard.press_code(0xF);
    assert_eq!(keyboard.pressed_key(), Some(0xF));
    keyboard.press_code(16);
    assert_eq!(keyboard.pressed_key(), Some(0xF));
    keyboard.press_code(0);
    assert_eq!(keyboard.pressed_key(), Some(0));
}

#[test]
fn rom_holds_data_and_name() {
    let rom = ROM::new(vec![1, 2, 3], String::from("Tetris"));
    assert_eq!(rom.data, vec![1, 2, 3]);
    assert_eq!(rom.name, "Tetris");
}

#[test]
fn rom_name_is_the_file_name_up_to_the_first_dot() {
    assert_eq!(ROM::name_of("Tetris.ch8"), "Tetris");
    assert_eq!(ROM::name_of("Tetris"), "Tetris");
    assert_eq!(ROM::name_of("a.b.c"), "a");
    assert_eq!(ROM::name_of(".hidden"), "");
    assert_eq!(ROM::name_of(""), "");
    assert_eq!(ROM::name_of("pong."), "pong");
    assert_eq!(ROM::name_of("jeu\u{e9}t\u{e9}.ch8"), "jeu\u{e9}t\u{e9}");
}

#[test]
fn sound_paths() {
    assert_eq!(Sounds::Beep.path(), "./assets/beep.wav");
    assert_eq!(Sounds::Error.path(), "./assets/error.wav");
    assert_eq!(Sounds::Opening.path(), "./assets/opening.wav");
    assert_eq!(Sounds::Closing.path(), "./assets/close.wav");
}

#[test]
fn cadence_ticks_once_in_every_ratio_cycles() {
    let mut cadence = chip8_lib::cadence::Cadence::new(10);
    let mut ticks = 0;
    for cycle in 1..=1000u32 {
        let due = cadence.advance();
        assert_eq!(due, cycle % 10 == 0);
        if due {
            ticks += 1;
        }
        assert_eq!(cadence.count, cycle % 10);
    }
    assert_eq!(ticks, 100);
}

#[test]
fn cadence_of_ratio_one_ticks_every_cycle() {
    let mut cadence = chip8_lib::cadence::Cadence::new(1);
    for _ in 0..5 {
        assert!(cadence.advance());
        assert_eq!(cadence.count, 0);
    }
}
