//! The sounds that a host can play, and the files that hold them.

use vstd::prelude::*;

verus! {

/// A sound that a host can play.
#[derive(Debug, Clone, Copy, PartialEq, Eq, Structural)]
pub enum Sounds {
    Beep,
    Error,
    Opening,
    Closing,
}

/// The path of the file that holds a sound.
pub open spec fn sound_path(sound: Sounds) -> Seq<char> {
    match sound {
        Sounds::Beep => "./assets/beep.wav"@,
        Sounds::Error => "./assets/error.wav"@,
        Sounds::Opening => "./assets/opening.wav"@,
        Sounds::Closing => "./assets/close.wav"@,
    }
}

impl Sounds {
    /// The path of the file that holds this sound.
    pub fn path(&self) -> (path: &'static str)
        ensures
            path@ == sound_path(*self),
    {
        match self {
            Sounds::Beep => "./assets/beep.wav",
            Sounds::Error => "./assets/error.wav",
            Sounds::Opening => "./assets/opening.wav",
            Sounds::Closing => "./assets/close.wav",
        }
    }
}

} // verus!
