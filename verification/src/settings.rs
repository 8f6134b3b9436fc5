//! The few persisted user settings the player consults.
use vstd::prelude::*;

verus! {

/// Which seek bar the playback bar renders.
#[derive(Debug, Clone, Copy, PartialEq, Eq, Structural)]
pub enum SeekbarType {
    Waveform,
    Slider,
}

impl Default for SeekbarType {
    /// The waveform seek bar is the default.
    fn default() -> (r: Self)
        ensures
            r is Waveform,
    {
        SeekbarType::Waveform
    }
}

/// The application settings record.
#[derive(Debug, Clone, Copy, PartialEq, Eq, Structural)]
pub struct AppSettings {
    pub seekbar_type: SeekbarType,
}

impl Default for AppSettings {
    /// Default settings: the waveform seek bar.
    fn default() -> (r: Self)
        ensures
            r.seekbar_type is Waveform,
    {
        AppSettings { seekbar_type: SeekbarType::Waveform }
    }
}

} // verus!
