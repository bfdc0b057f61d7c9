//! The playback state machine's state space.

use vstd::prelude::*;

verus! {

/// Audio playback state: a closed enumeration of the four transport states.
/// `Stopped` is the initial and rest state; the machine is fully cyclic.
#[derive(Clone, Copy, Debug, PartialEq, Eq, Structural)]
pub enum PlaybackState {
    Stopped,
    Playing,
    Paused,
    Loading,
}

} // verus!
