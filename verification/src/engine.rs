//! The audio engine: it owns the playback state machine and the event
//! channel, executes transport commands, and — while playing — produces
//! the periodic progress and spectrum samples.
//!
//! Policy choices, fixed here: `load` auto-plays (a successful load passes
//! through `Loading` straight to `Playing`); commands that are illegal in
//! the current state are rejected with `InvalidStateError`, never silently
//! ignored (the one exception the transition table itself makes: `play`
//! while already `Playing` is an accepted no-op). Every transition emits
//! exactly one `PlaybackStateChanged` event after it is committed.

use vstd::prelude::*;
use crate::channel::EventChannel;
use crate::event::AudioEvent;
use crate::event::SPECTRUM_BINS;
use crate::song::Song;
use crate::state::PlaybackState;

verus! {

/// Default sample rate of a freshly created engine, in Hz.
pub const DEFAULT_SAMPLE_RATE: u32 = 44100;

/// Cadence of the periodic sampler, in milliseconds: each tick advances
/// the playback position by this much, clamped to the track length.
pub const TICK_INTERVAL_MS: u64 = 100;

/// What a command can fail with. `ChannelClosedError` exists to name the
/// one internal failure mode (an event produced after the channel closed);
/// it is never surfaced to callers — such events are dropped silently.
#[derive(Clone, Copy, Debug, PartialEq, Eq, Structural)]
pub enum EngineError {
    ResourceError,
    InvalidStateError,
    ChannelClosedError,
}

/// A transport command, as issued by an external caller. `Load` carries
/// the outcome of the caller's attempt to open the song's resource
/// (`ready`): opening the file is I/O the caller performs, and the engine
/// decides the transition from that outcome.
#[derive(Debug)]
pub enum Command {
    Load { song: Song, ready: bool },
    Play,
    Pause,
    Stop,
}

/// Core audio engine: one transport per instance — a playback state, the
/// optional current song, the playback position (milliseconds), and the
/// outgoing event channel.
#[derive(Debug)]
pub struct AudioEngine {
    pub sample_rate: u32,
    pub state: PlaybackState,
    pub current_song: Option<Song>,
    pub elapsed: u64,
    pub channel: EventChannel,
}

/// The state-change event announcing a committed transition.
pub open spec fn state_change_event(s: PlaybackState, song: Option<Song>) -> AudioEvent {
    AudioEvent::PlaybackStateChanged { state: s, song }
}

/// Whether the observable pair (state, current song) is consistent: a song
/// is associated exactly while the transport is active.
pub open spec fn obs_wf(s: PlaybackState, song: Option<Song>) -> bool {
    song is Some <==> s != PlaybackState::Stopped
}

/// Whether a command is legal in the given observable state, per the
/// transition table. `load` and `stop` are legal from every state; `play`
/// needs a paused transport, an already playing one (no-op), or a stopped
/// one that still has a song; `pause` needs a playing transport.
pub open spec fn command_accepted(s: PlaybackState, song: Option<Song>, c: Command) -> bool {
    match c {
        Command::Load { .. } => true,
        Command::Play => s == PlaybackState::Paused || s == PlaybackState::Playing
            || (s == PlaybackState::Stopped && song is Some),
        Command::Pause => s == PlaybackState::Playing,
        Command::Stop => true,
    }
}

/// The transition table: the observable (state, current song) after one
/// command. A rejected command leaves the observable state unchanged.
pub open spec fn step_obs(s: PlaybackState, song: Option<Song>, c: Command) -> (
    PlaybackState,
    Option<Song>,
) {
    match c {
        Command::Load { song: sg, ready } => if ready {
            (PlaybackState::Playing, Some(sg))
        } else {
            (PlaybackState::Stopped, None)
        },
        Command::Play => if s == PlaybackState::Paused || (s == PlaybackState::Stopped
            && song is Some) {
            (PlaybackState::Playing, song)
        } else {
            (s, song)
        },
        Command::Pause => if s == PlaybackState::Playing {
            (PlaybackState::Paused, song)
        } else {
            (s, song)
        },
        Command::Stop => (PlaybackState::Stopped, None),
    }
}

/// The exact events one command emits, in order. Each committed transition
/// yields one `PlaybackStateChanged`; `load` passes through `Loading` and
/// so yields two; a rejected command and the `play` no-op yield none;
/// `stop` always yields exactly one.
pub open spec fn step_events(s: PlaybackState, song: Option<Song>, c: Command) -> Seq<
    AudioEvent,
> {
    match c {
        Command::Load { song: sg, ready } => {
            let settled = if ready {
                state_change_event(PlaybackState::Playing, Some(sg))
            } else {
                state_change_event(PlaybackState::Stopped, None)
            };
            seq![state_change_event(PlaybackState::Loading, Some(sg)), settled]
        },
        Command::Play => if s == PlaybackState::Paused || (s == PlaybackState::Stopped
            && song is Some) {
            seq![state_change_event(PlaybackState::Playing, song)]
        } else {
            Seq::empty()
        },
        Command::Pause => if s == PlaybackState::Playing {
            seq![state_change_event(PlaybackState::Paused, song)]
        } else {
            Seq::empty()
        },
        Command::Stop => seq![state_change_event(PlaybackState::Stopped, None)],
    }
}

/// What one command returns: `load` fails with `ResourceError` exactly
/// when the resource did not open; every other command fails with
/// `InvalidStateError` exactly when the table rejects it.
pub open spec fn step_result(s: PlaybackState, song: Option<Song>, c: Command) -> Result<
    (),
    EngineError,
> {
    match c {
        Command::Load { ready, .. } => if ready {
            Ok(())
        } else {
            Err(EngineError::ResourceError)
        },
        _ => if command_accepted(s, song, c) {
            Ok(())
        } else {
            Err(EngineError::InvalidStateError)
        },
    }
}

/// The playback position after one command: `load` and `stop` rewind to
/// zero, `play` and `pause` keep the position.
pub open spec fn step_elapsed(elapsed: u64, c: Command) -> u64 {
    match c {
        Command::Load { .. } => 0,
        Command::Stop => 0,
        _ => elapsed,
    }
}

/// The playback position after one sampler tick: advanced by the tick
/// interval, clamped to the track length.
pub open spec fn advanced_position(elapsed: u64, duration: u64) -> u64 {
    if elapsed + TICK_INTERVAL_MS <= duration {
        (elapsed + TICK_INTERVAL_MS) as u64
    } else {
        duration
    }
}

/// The spectrum sample the engine emits each tick: the fixed bin count,
/// all magnitudes zero (no spectral analysis is prescribed for the core;
/// the bin count and flat content are the engine's fixed convention).
pub open spec fn flat_spectrum() -> Seq<u32> {
    Seq::new(SPECTRUM_BINS as nat, |i: int| 0u32)
}

impl AudioEngine {
    /// Engine validity: the observable pair is consistent, the position
    /// never exceeds the current track's length (and is zero without a
    /// track), and every buffered event is well-formed.
    pub open spec fn wf(self) -> bool {
        &&& obs_wf(self.state, self.current_song)
        &&& match self.current_song {
            Some(s) => self.elapsed <= s.duration,
            None => self.elapsed == 0,
        }
        &&& self.channel.wf()
    }

    /// The observable pair this engine presents.
    pub open spec fn obs(self) -> (PlaybackState, Option<Song>) {
        (self.state, self.current_song)
    }

    /// A copy of the current song, for announcing it in an event.
    fn clone_current_song(&self) -> (s: Option<Song>)
        ensures
            s == self.current_song,
    {
        match &self.current_song {
            Some(sg) => Some(sg.clone()),
            None => None,
        }
    }

    /// Load a song. `ready` is the outcome of the caller's attempt to open
    /// the song's resource. The transport passes through `Loading` and
    /// settles in `Playing` (resource open) or `Stopped` (failure, with
    /// `ResourceError`); both paths announce `Loading` first, then the
    /// settled state, each as one event.
    pub fn load(&mut self, song: Song, ready: bool) -> (r: Result<(), EngineError>)
        requires
            old(self).wf(),
        ensures
            final(self).wf(),
            final(self).obs() == step_obs(old(self).state, old(self).current_song, Command::Load { song, ready }),
            final(self).elapsed == 0,
            r == step_result(old(self).state, old(self).current_song, Command::Load { song, ready }),
            final(self).sample_rate == old(self).sample_rate,
            final(self).channel.closed == old(self).channel.closed,
            !old(self).channel.closed ==> final(self).channel.queue@ == old(self).channel.queue@
                + step_events(old(self).state, old(self).current_song, Command::Load { song, ready }),
            old(self).channel.closed ==> final(self).channel.queue@ == old(self).channel.queue@,
    {
        self.elapsed = 0;
        self.state = PlaybackState::Loading;
        self.channel.send(
            AudioEvent::PlaybackStateChanged {
                state: PlaybackState::Loading,
                song: Some(song.clone()),
            },
        );
        let r: Result<(), EngineError> = if ready {
            self.state = PlaybackState::Playing;
            self.channel.send(
                AudioEvent::PlaybackStateChanged {
                    state: PlaybackState::Playing,
                    song: Some(song.clone()),
                },
            );
            self.current_song = Some(song);
            Ok(())
        } else {
            self.state = PlaybackState::Stopped;
            self.current_song = None;
            self.channel.send(
                AudioEvent::PlaybackStateChanged { state: PlaybackState::Stopped, song: None },
            );
            Err(EngineError::ResourceError)
        };
        proof {
            if !old(self).channel.closed {
                assert(self.channel.queue@ =~= old(self).channel.queue@ + step_events(
                    old(self).state,
                    old(self).current_song,
                    Command::Load { song, ready },
                ));
            }
        }
        r
    }

    /// Resume or start playback: legal from `Paused`, from `Stopped` with
    /// a song still associated, and as a no-op while already `Playing`;
    /// rejected with `InvalidStateError` otherwise. A committed transition
    /// announces `Playing` with the current song in exactly one event; the
    /// no-op and a rejection emit nothing.
    pub fn play(&mut self) -> (r: Result<(), EngineError>)
        requires
            old(self).wf(),
        ensures
            final(self).wf(),
            final(self).obs() == step_obs(old(self).state, old(self).current_song, Command::Play),
            final(self).elapsed == old(self).elapsed,
            r == step_result(old(self).state, old(self).current_song, Command::Play),
            final(self).sample_rate == old(self).sample_rate,
            final(self).channel.closed == old(self).channel.closed,
            !old(self).channel.closed ==> final(self).channel.queue@ == old(self).channel.queue@
                + step_events(old(self).state, old(self).current_song, Command::Play),
            old(self).channel.closed ==> final(self).channel.queue@ == old(self).channel.queue@,
    {
        let r: Result<(), EngineError> = match self.state {
            PlaybackState::Paused => {
                self.state = PlaybackState::Playing;
                let announced = self.clone_current_song();
                self.channel.send(
                    AudioEvent::PlaybackStateChanged {
                        state: PlaybackState::Playing,
                        song: announced,
                    },
                );
                Ok(())
            },
            PlaybackState::Playing => Ok(()),
            PlaybackState::Stopped => {
                if self.current_song.is_some() {
                    self.state = PlaybackState::Playing;
                    let announced = self.clone_current_song();
                    self.channel.send(
                        AudioEvent::PlaybackStateChanged {
                            state: PlaybackState::Playing,
                            song: announced,
                        },
                    );
                    Ok(())
                } else {
                    Err(EngineError::InvalidStateError)
                }
            },
            PlaybackState::Loading => Err(EngineError::InvalidStateError),
        };
        proof {
            if !old(self).channel.closed {
                assert(self.channel.queue@ =~= old(self).channel.queue@ + step_events(
                    old(self).state,
                    old(self).current_song,
                    Command::Play,
                ));
            }
        }
        r
    }

    /// Pause playback: legal only from `Playing`, rejected with
    /// `InvalidStateError` otherwise. The committed transition announces
    /// `Paused` with the current song in exactly one event.
    pub fn pause(&mut self) -> (r: Result<(), EngineError>)
        requires
            old(self).wf(),
        ensures
            final(self).wf(),
            final(self).obs() == step_obs(old(self).state, old(self).current_song, Command::Pause),
            final(self).elapsed == old(self).elapsed,
            r == step_result(old(self).state, old(self).current_song, Command::Pause),
            final(self).sample_rate == old(self).sample_rate,
            final(self).channel.closed == old(self).channel.closed,
            !old(self).channel.closed ==> final(self).channel.queue@ == old(self).channel.queue@
                + step_events(old(self).state, old(self).current_song, Command::Pause),
            old(self).channel.closed ==> final(self).channel.queue@ == old(self).channel.queue@,
    {
        let r: Result<(), EngineError> = match self.state {
            PlaybackState::Playing => {
                self.state = PlaybackState::Paused;
                let announced = self.clone_current_song();
                self.channel.send(
                    AudioEvent::PlaybackStateChanged {
                        state: PlaybackState::Paused,
                        song: announced,
                    },
                );
                Ok(())
            },
            _ => Err(EngineError::InvalidStateError),
        };
        proof {
            if !old(self).channel.closed {
                assert(self.channel.queue@ =~= old(self).channel.queue@ + step_events(
                    old(self).state,
                    old(self).current_song,
                    Command::Pause,
                ));
            }
        }
        r
    }

    /// Stop the transport: legal from every state. The engine lands in
    /// `Stopped` with no current song and position zero, and announces it
    /// in exactly one event, even when already stopped.
    pub fn stop(&mut self)
        requires
            old(self).wf(),
        ensures
            final(self).wf(),
            final(self).obs() == step_obs(old(self).state, old(self).current_song, Command::Stop),
            final(self).state == PlaybackState::Stopped,
            final(self).current_song is None,
            final(self).elapsed == 0,
            final(self).sample_rate == old(self).sample_rate,
            final(self).channel.closed == old(self).channel.closed,
            !old(self).channel.closed ==> final(self).channel.queue@ == old(self).channel.queue@
                + step_events(old(self).state, old(self).current_song, Command::Stop),
            old(self).channel.closed ==> final(self).channel.queue@ == old(self).channel.queue@,
    {
        self.state = PlaybackState::Stopped;
        self.current_song = None;
        self.elapsed = 0;
        self.channel.send(
            AudioEvent::PlaybackStateChanged { state: PlaybackState::Stopped, song: None },
        );
        proof {
            if !old(self).channel.closed {
                assert(self.channel.queue@ =~= old(self).channel.queue@ + step_events(
                    old(self).state,
                    old(self).current_song,
                    Command::Stop,
                ));
            }
        }
    }

    /// Execute one transport command: the observable state steps by the
    /// transition table, exactly the table's events are appended (in order,
    /// dropped only if the channel is closed), and the result is the
    /// table's verdict.
    pub fn handle_command(&mut self, c: Command) -> (r: Result<(), EngineError>)
        requires
            old(self).wf(),
        ensures
            final(self).wf(),
            final(self).obs() == step_obs(old(self).state, old(self).current_song, c),
            final(self).elapsed == step_elapsed(old(self).elapsed, c),
            r == step_result(old(self).state, old(self).current_song, c),
            final(self).sample_rate == old(self).sample_rate,
            final(self).channel.closed == old(self).channel.closed,
            !old(self).channel.closed ==> final(self).channel.queue@ == old(self).channel.queue@
                + step_events(old(self).state, old(self).current_song, c),
            old(self).channel.closed ==> final(self).channel.queue@ == old(self).channel.queue@,
    {
        match c {
            Command::Load { song, ready } => self.load(song, ready),
            Command::Play => self.play(),
            Command::Pause => self.pause(),
            Command::Stop => {
                self.stop();
                Ok(())
            },
        }
    }

    /// One sampler step, to be driven at the tick cadence while the
    /// transport is `Playing`: the position advances by the tick interval
    /// (clamped to the track length) and one `ProgressUpdated` followed by
    /// one `SpectrumDataUpdated` are emitted. In any other state the tick
    /// is a no-op — the sampler halts with the transport.
    pub fn tick(&mut self)
        requires
            old(self).wf(),
        ensures
            final(self).wf(),
            final(self).state == old(self).state,
            final(self).current_song == old(self).current_song,
            final(self).sample_rate == old(self).sample_rate,
            final(self).channel.closed == old(self).channel.closed,
            old(self).state != PlaybackState::Playing ==> final(self).elapsed == old(self).elapsed
                && final(self).channel.queue@ == old(self).channel.queue@,
            old(self).state == PlaybackState::Playing && old(self).channel.closed
                ==> final(self).channel.queue@ == old(self).channel.queue@,
            old(self).state == PlaybackState::Playing ==> {
                let dur = old(self).current_song->Some_0.duration;
                &&& final(self).elapsed == advanced_position(old(self).elapsed, dur)
                &&& !old(self).channel.closed ==> {
                    let q0 = old(self).channel.queue@;
                    &&& final(self).channel.queue@.len() == q0.len() + 2
                    &&& final(self).channel.queue@.subrange(0, q0.len() as int) == q0
                    &&& final(self).channel.queue@[q0.len() as int] == (AudioEvent::ProgressUpdated {
                        current_time: advanced_position(old(self).elapsed, dur),
                        total_time: dur,
                    })
                    &&& final(self).channel.queue@[q0.len() as int + 1] is SpectrumDataUpdated
                    &&& final(self).channel.queue@[q0.len() as int + 1]->frequencies@ == flat_spectrum()
                }
            },
    {
        match self.state {
            PlaybackState::Playing => {
                let dur: u64 = match &self.current_song {
                    Some(s) => s.duration,
                    None => 0,
                };
                let new_elapsed: u64 = if dur - self.elapsed >= TICK_INTERVAL_MS {
                    self.elapsed + TICK_INTERVAL_MS
                } else {
                    dur
                };
                self.elapsed = new_elapsed;
                self.channel.send(
                    AudioEvent::ProgressUpdated { current_time: new_elapsed, total_time: dur },
                );
                let frequencies = flat_spectrum_vec();
                self.channel.send(AudioEvent::SpectrumDataUpdated { frequencies });
                proof {
                    if !old(self).channel.closed {
                        let q0 = old(self).channel.queue@;
                        assert(self.channel.queue@.subrange(0, q0.len() as int) =~= q0);
                    }
                }
            },
            _ => {},
        }
    }

    /// Tear the engine down: the transport stops and the event channel is
    /// closed with everything pending discarded. Closure is not itself an
    /// observable transition, so nothing is emitted; an observer arriving
    /// afterwards finds a closed, empty stream, never an error.
    pub fn shutdown(&mut self)
        requires
            old(self).wf(),
        ensures
            final(self).wf(),
            final(self).state == PlaybackState::Stopped,
            final(self).current_song is None,
            final(self).elapsed == 0,
            final(self).sample_rate == old(self).sample_rate,
            final(self).channel.closed,
            final(self).channel.queue@ == Seq::<AudioEvent>::empty(),
    {
        self.state = PlaybackState::Stopped;
        self.current_song = None;
        self.elapsed = 0;
        self.channel.close();
    }

    /// Observe the oldest pending event, in production order; `None` on an
    /// empty (or closed and drained) stream — never an error.
    pub fn poll_event(&mut self) -> (r: Option<AudioEvent>)
        requires
            old(self).wf(),
        ensures
            final(self).wf(),
            final(self).state == old(self).state,
            final(self).current_song == old(self).current_song,
            final(self).elapsed == old(self).elapsed,
            final(self).sample_rate == old(self).sample_rate,
            final(self).channel.closed == old(self).channel.closed,
            old(self).channel.queue@.len() == 0 ==> r is None && final(self).channel.queue@
                == old(self).channel.queue@,
            old(self).channel.queue@.len() > 0 ==> r == Some(old(self).channel.queue@[0])
                && final(self).channel.queue@ == old(self).channel.queue@.remove(0),
    {
        self.channel.poll()
    }

    /// The current transport state.
    pub fn current_state(&self) -> (s: PlaybackState)
        ensures
            s == self.state,
    {
        self.state
    }

    /// Number of events pending for observers.
    pub fn pending_events(&self) -> (n: usize)
        ensures
            n == self.channel.queue@.len(),
    {
        self.channel.len()
    }

    /// Whether the event stream has been closed.
    pub fn is_stream_closed(&self) -> (b: bool)
        ensures
            b == self.channel.closed,
    {
        self.channel.is_closed()
    }
}

/// Build the flat spectrum sample.
fn flat_spectrum_vec() -> (v: Vec<u32>)
    ensures
        v@ == flat_spectrum(),
{
    let mut v: Vec<u32> = Vec::new();
    let mut i: usize = 0;
    while i < SPECTRUM_BINS
        invariant
            i <= SPECTRUM_BINS,
            v@.len() == i,
            forall|j: int| 0 <= j < i ==> v@[j] == 0,
        decreases SPECTRUM_BINS - i,
    {
        v.push(0);
        i = i + 1;
    }
    proof {
        assert(v@ =~= flat_spectrum());
    }
    v
}

/// Create a new engine: stopped transport, no song, position zero, an
/// open empty event channel and the default sample rate. Synchronous,
/// always succeeds; each call yields an independent engine.
pub fn create_audio_engine() -> (e: AudioEngine)
    ensures
        e.wf(),
        e.sample_rate == DEFAULT_SAMPLE_RATE,
        e.state == PlaybackState::Stopped,
        e.current_song is None,
        e.elapsed == 0,
        !e.channel.closed,
        e.channel.queue@ == Seq::<AudioEvent>::empty(),
{
    AudioEngine {
        sample_rate: DEFAULT_SAMPLE_RATE,
        state: PlaybackState::Stopped,
        current_song: None,
        elapsed: 0,
        channel: EventChannel::new(),
    }
}

} // verus!
