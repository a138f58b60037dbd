//! A CHIP-8 interpreter: opcode decoding, the machine state, the execution
//! of single instructions and the timers, each with a verified contract.

pub mod cadence;
pub mod cpu;
pub mod drivers;
pub mod errors;
pub mod laws;
pub mod machine;
pub mod sprite;
