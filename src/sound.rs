//! The sounds that acknowledge actions.
use vstd::prelude::*;

verus! {

/// A sound that acknowledges an action.
#[derive(Clone, Copy, Debug, PartialEq, Eq, Hash, Structural)]
pub enum Sound {
    Next,
    Previous,
    Pause,
    Resume,
}

/// Directory of the sound files, among the application's resources.
pub const AUDIO_DIR: &'static str = "assets/audio";

/// The file name of each sound.
pub open spec fn sound_file_of(sound: Sound) -> Seq<char> {
    match sound {
        Sound::Next => "SFX_UI_Button_Organic_Plastic_Thin_Select_1.wav"@,
        Sound::Previous => "SFX_UI_Button_Organic_Plastic_Thin_Negative_Back_2.wav"@,
        Sound::Pause => "stop.wav"@,
        Sound::Resume => "resume.wav"@,
    }
}

impl Sound {
    /// The file that holds the sound, under `AUDIO_DIR`.
    pub fn file_name(&self) -> (r: &'static str)
        ensures
            r@ == sound_file_of(*self),
    {
        match self {
            Sound::Next => "SFX_UI_Button_Organic_Plastic_Thin_Select_1.wav",
            Sound::Previous => "SFX_UI_Button_Organic_Plastic_Thin_Negative_Back_2.wav",
            Sound::Pause => "stop.wav",
            Sound::Resume => "resume.wav",
        }
    }

    /// The sound that acknowledges a toggle of pausing.
    pub fn for_pause_toggle(paused: bool) -> (r: Sound)
        ensures
            r == if paused {
                Sound::Pause
            } else {
                Sound::Resume
            },
    {
        if paused {
            Sound::Pause
        } else {
            Sound::Resume
        }
    }

    /// The sound that acknowledges a move through the presets.
    pub fn for_move(forward: bool) -> (r: Sound)
        ensures
            r == if forward {
                Sound::Next
            } else {
                Sound::Previous
            },
    {
        if forward {
            Sound::Next
        } else {
            Sound::Previous
        }
    }
}

} // verus!
