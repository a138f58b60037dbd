//! The input state: the one key that is pressed, or none.

use vstd::prelude::*;

verus! {

/// A key of the host keyboard: the sixteen keys that stand for the keys of
/// the machine, and `Other` for every other key.
#[derive(Debug, Clone, Copy, PartialEq, Eq, Structural)]
pub enum Key {
    Key1,
    Key2,
    Key3,
    Key4,
    Q,
    W,
    E,
    R,
    A,
    S,
    D,
    F,
    Z,
    X,
    C,
    V,
    Other,
}

/// The key of the machine that a key of the host keyboard stands for. The
/// block `1234 / QWER / ASDF / ZXCV` is laid out as the keypad
/// `123C / 456D / 789E / A0BF`.
pub open spec fn chip8_key(key: Key) -> Option<u8> {
    match key {
        Key::Key1 => Some(0x1u8),
        Key::Key2 => Some(0x2u8),
        Key::Key3 => Some(0x3u8),
        Key::Key4 => Some(0xCu8),
        Key::Q => Some(0x4u8),
        Key::W => Some(0x5u8),
        Key::E => Some(0x6u8),
        Key::R => Some(0xDu8),
        Key::A => Some(0x7u8),
        Key::S => Some(0x8u8),
        Key::D => Some(0x9u8),
        Key::F => Some(0xEu8),
        Key::Z => Some(0xAu8),
        Key::X => Some(0x0u8),
        Key::C => Some(0xBu8),
        Key::V => Some(0xFu8),
        Key::Other => None,
    }
}

/// The keyboard of the machine. It knows of one pressed key at a time.
pub struct Keyboard(Option<u8>);

impl View for Keyboard {
    type V = Option<u8>;

    closed spec fn view(&self) -> Option<u8> {
        self.0
    }
}

impl Keyboard {
    /// A keyboard with no key pressed.
    pub fn new() -> (keyboard: Keyboard)
        ensures
            keyboard@ is None,
    {
        Keyboard(None)
    }

    /// Records that a key of the host keyboard went down. A key that stands
    /// for no key of the machine leaves no key pressed.
    pub fn press_key(&mut self, key: Key)
        ensures
            final(self)@ == chip8_key(key),
    {
        self.0 = self.into_chip8_key(key);
    }

    /// Records that the key `code` of the machine went down. A code that is
    /// not below 16 names no key and changes nothing.
    pub fn press_code(&mut self, code: u8)
        ensures
            final(self)@ == if code < 16 {
                Some(code)
            } else {
                old(self)@
            },
    {
        if code < 16 {
            self.0 = Some(code);
        }
    }

    /// Records that no key is pressed.
    pub fn release_key(&mut self)
        ensures
            final(self)@ is None,
    {
        self.0 = None;
    }

    /// The key that is pressed, if one is.
    pub fn pressed_key(&self) -> (key: Option<u8>)
        ensures
            key == self@,
    {
        self.0
    }

    /// The key of the machine that a key of the host keyboard stands for.
    pub fn into_chip8_key(&self, key: Key) -> (code: Option<u8>)
        ensures
            code == chip8_key(key),
            code matches Some(c) ==> c < 16,
    {
        match key {
            Key::Key1 => Some(0x1),
            Key::Key2 => Some(0x2),
            Key::Key3 => Some(0x3),
            Key::Key4 => Some(0xC),
            Key::Q => Some(0x4),
            Key::W => Some(0x5),
            Key::E => Some(0x6),
            Key::R => Some(0xD),
            Key::A => Some(0x7),
            Key::S => Some(0x8),
            Key::D => Some(0x9),
            Key::F => Some(0xE),
            Key::Z => Some(0xA),
            Key::X => Some(0x0),
            Key::C => Some(0xB),
            Key::V => Some(0xF),
            Key::Other => None,
        }
    }
}

} // verus!
