//! The parts that stand between the machine and the host: the keyboard, the
//! program image, and what a display or a speaker of the host is handed.

pub mod audio_driver;
pub mod graphics_driver;
pub mod keyboard_driver;
pub mod rom_driver;
pub mod screen_driver;
