//! Domain events flowing from the engine to observers.

use vstd::prelude::*;
use crate::song::Song;
use crate::state::PlaybackState;

verus! {

/// Number of spectrum bins the engine emits per sample. Fixed by the
/// engine's configured window; every `SpectrumDataUpdated` event carries
/// exactly this many magnitudes.
pub const SPECTRUM_BINS: usize = 32;

/// Event types for reactive observers.
///
/// Spectrum magnitudes are fixed-point integers (thousandths of full
/// scale); times are in milliseconds.
#[derive(Clone, Debug, PartialEq)]
pub enum AudioEvent {
    PlaybackStateChanged { state: PlaybackState, song: Option<Song> },
    SpectrumDataUpdated { frequencies: Vec<u32> },
    ProgressUpdated { current_time: u64, total_time: u64 },
}

impl AudioEvent {
    /// Well-formedness of a single event as observers may rely on it:
    /// a state-change event names a song exactly when the state implies an
    /// active track; progress is clamped to the track length; spectrum
    /// samples have the fixed bin count.
    pub open spec fn wf(self) -> bool {
        match self {
            AudioEvent::PlaybackStateChanged { state, song } => {
                song is Some <==> state != PlaybackState::Stopped
            },
            AudioEvent::SpectrumDataUpdated { frequencies } => {
                frequencies@.len() == SPECTRUM_BINS
            },
            AudioEvent::ProgressUpdated { current_time, total_time } => {
                current_time <= total_time
            },
        }
    }
}

} // verus!
