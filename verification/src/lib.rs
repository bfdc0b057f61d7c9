//! Core of an embeddable audio engine: a playback state machine, an engine
//! that executes transport commands and emits domain events, an ordered
//! event channel toward observers, and a monotonic identity allocator.
//!
//! Time unit convention: `Song::duration`, `current_time` and `total_time`
//! are all expressed in milliseconds.

pub mod channel;
pub mod engine;
pub mod event;
pub mod ids;
pub mod laws;
pub mod song;
pub mod state;
