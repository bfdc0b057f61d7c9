use tunes4r::channel::EventChannel;
use tunes4r::engine::create_audio_engine;
use tunes4r::engine::AudioEngine;
use tunes4r::engine::EngineError;
use tunes4r::event::AudioEvent;
use tunes4r::song::Song;
use tunes4r::state::PlaybackState;

fn sample_song(id: &str, duration: u64) -> Song {
    Song {
        id: String::from(id),
        title: String::from("A Title"),
        artist: String::from("An Artist"),
        album: String::from("An Album"),
        duration,
        file_path: String::from("/music/a.ogg"),
    }
}

fn state_changed(state: PlaybackState, song: Option<Song>) -> AudioEvent {
    AudioEvent::PlaybackStateChanged { state, song }
}

fn engine_in(state: PlaybackState, song: Option<Song>) -> AudioEngine {
    AudioEngine {
        sample_rate: 44100,
        state,
        current_song: song,
        elapsed: 0,
        channel: EventChannel::new(),
    }
}

#[test]
fn create_gives_fresh_stopped_engine() {
    let mut e = create_audio_engine();
    assert_eq!(e.sample_rate, 44100);
    assert_eq!(e.current_state(), PlaybackState::Stopped);
    assert!(e.current_song.is_none());
    assert_eq!(e.pending_events(), 0);
    assert!(!e.is_stream_closed());
    assert_eq!(e.poll_event(), None);
}

#[test]
fn load_success_announces_loading_then_playing() {
    let mut e = create_audio_engine();
    let song = sample_song("1", 180);
    let r = e.load(sample_song("1", 180), true);
    assert_eq!(r, Ok(()));
    assert_eq!(e.current_state(), PlaybackState::Playing);
    assert_eq!(e.current_song, Some(sample_song("1", 180)));
    assert_eq!(
        e.poll_event(),
        Some(state_changed(PlaybackState::Loading, Some(sample_song("1", 180))))
    );
    assert_eq!(
        e.poll_event(),
        Some(state_changed(PlaybackState::Playing, Some(song)))
    );
    assert_eq!(e.poll_event(), None);
}

#[test]
fn load_failure_announces_loading_then_stopped() {
    let mut e = create_audio_engine();
    let r = e.load(sample_song("broken", 90), false);
    assert_eq!(r, Err(EngineError::ResourceError));
    assert_eq!(e.current_state(), PlaybackState::Stopped);
    assert!(e.current_song.is_none());
    assert_eq!(
        e.poll_event(),
        Some(state_changed(PlaybackState::Loading, Some(sample_song("broken", 90))))
    );
    assert_eq!(e.poll_event(), Some(state_changed(PlaybackState::Stopped, None)));
    assert_eq!(e.poll_event(), None);
}

#[test]
fn play_from_fresh_engine_is_invalid() {
    let mut e = create_audio_engine();
    assert_eq!(e.play(), Err(EngineError::InvalidStateError));
    assert_eq!(e.current_state(), PlaybackState::Stopped);
    assert_eq!(e.pending_events(), 0);
}

#[test]
fn play_while_playing_is_accepted_noop() {
    let mut e = create_audio_engine();
    e.load(sample_song("1", 180), true).unwrap();
    let pending = e.pending_events();
    assert_eq!(e.play(), Ok(()));
    assert_eq!(e.current_state(), PlaybackState::Playing);
    assert_eq!(e.pending_events(), pending);
}

#[test]
fn play_resumes_from_paused() {
    let mut e = create_audio_engine();
    e.load(sample_song("1", 180), true).unwrap();
    e.pause().unwrap();
    assert_eq!(e.play(), Ok(()));
    assert_eq!(e.current_state(), PlaybackState::Playing);
    // The last event announces Playing with the current song.
    let mut last = None;
    while let Some(ev) = e.poll_event() {
        last = Some(ev);
    }
    assert_eq!(last, Some(state_changed(PlaybackState::Playing, Some(sample_song("1", 180)))));
}

#[test]
fn play_from_stopped_with_song_starts_playing() {
    // The transition table row for a stopped transport that still has a
    // song: exercised on a directly built engine, since `stop` clears the
    // association.
    let mut e = engine_in(PlaybackState::Stopped, Some(sample_song("kept", 60)));
    assert_eq!(e.play(), Ok(()));
    assert_eq!(e.current_state(), PlaybackState::Playing);
    assert_eq!(
        e.poll_event(),
        Some(state_changed(PlaybackState::Playing, Some(sample_song("kept", 60))))
    );
}

#[test]
fn pause_only_legal_while_playing() {
    let mut e = create_audio_engine();
    assert_eq!(e.pause(), Err(EngineError::InvalidStateError));

    let mut loading = engine_in(PlaybackState::Loading, Some(sample_song("l", 10)));
    assert_eq!(loading.pause(), Err(EngineError::InvalidStateError));
    assert_eq!(loading.pending_events(), 0);

    let mut paused = engine_in(PlaybackState::Paused, Some(sample_song("p", 10)));
    assert_eq!(paused.pause(), Err(EngineError::InvalidStateError));

    let mut playing = engine_in(PlaybackState::Playing, Some(sample_song("s", 10)));
    assert_eq!(playing.pause(), Ok(()));
    assert_eq!(playing.current_state(), PlaybackState::Paused);
    assert_eq!(
        playing.poll_event(),
        Some(state_changed(PlaybackState::Paused, Some(sample_song("s", 10))))
    );
}

#[test]
fn stop_from_every_state_emits_exactly_one_event() {
    let engines = vec![
        engine_in(PlaybackState::Stopped, None),
        engine_in(PlaybackState::Loading, Some(sample_song("a", 5))),
        engine_in(PlaybackState::Playing, Some(sample_song("b", 5))),
        engine_in(PlaybackState::Paused, Some(sample_song("c", 5))),
    ];
    for mut e in engines {
        e.stop();
        assert_eq!(e.current_state(), PlaybackState::Stopped);
        assert!(e.current_song.is_none());
        assert_eq!(e.elapsed, 0);
        assert_eq!(e.pending_events(), 1);
        assert_eq!(e.poll_event(), Some(state_changed(PlaybackState::Stopped, None)));
    }
}

#[test]
fn tick_advances_and_clamps_progress() {
    let mut e = create_audio_engine();
    e.load(sample_song("1", 180), true).unwrap();
    while e.poll_event().is_some() {}

    e.tick();
    assert_eq!(e.elapsed, 100);
    assert_eq!(
        e.poll_event(),
        Some(AudioEvent::ProgressUpdated { current_time: 100, total_time: 180 })
    );
    match e.poll_event() {
        Some(AudioEvent::SpectrumDataUpdated { frequencies }) => {
            assert_eq!(frequencies.len(), 32);
            assert!(frequencies.iter().all(|&m| m == 0));
        }
        other => panic!("expected a spectrum event, got {:?}", other),
    }

    // The next tick would pass the end of the track: clamped there.
    e.tick();
    assert_eq!(e.elapsed, 180);
    assert_eq!(
        e.poll_event(),
        Some(AudioEvent::ProgressUpdated { current_time: 180, total_time: 180 })
    );
    e.poll_event();

    // And it stays clamped afterwards.
    e.tick();
    assert_eq!(e.elapsed, 180);
    assert_eq!(
        e.poll_event(),
        Some(AudioEvent::ProgressUpdated { current_time: 180, total_time: 180 })
    );
}

#[test]
fn tick_is_noop_unless_playing() {
    let mut e = create_audio_engine();
    e.load(sample_song("1", 180), true).unwrap();
    e.pause().unwrap();
    let pending = e.pending_events();
    let elapsed = e.elapsed;
    e.tick();
    assert_eq!(e.pending_events(), pending);
    assert_eq!(e.elapsed, elapsed);

    let mut stopped = create_audio_engine();
    stopped.tick();
    assert_eq!(stopped.pending_events(), 0);
}

#[test]
fn pause_and_resume_keep_position() {
    let mut e = create_audio_engine();
    e.load(sample_song("1", 1000), true).unwrap();
    e.tick();
    e.tick();
    assert_eq!(e.elapsed, 200);
    e.pause().unwrap();
    assert_eq!(e.elapsed, 200);
    e.play().unwrap();
    e.tick();
    assert_eq!(e.elapsed, 300);
}

#[test]
fn events_come_out_in_production_order() {
    let mut e = create_audio_engine();
    e.load(sample_song("1", 500), true).unwrap();
    e.tick();
    e.pause().unwrap();
    let song = Some(sample_song("1", 500));
    assert_eq!(e.poll_event(), Some(state_changed(PlaybackState::Loading, song.clone())));
    assert_eq!(e.poll_event(), Some(state_changed(PlaybackState::Playing, song.clone())));
    assert_eq!(
        e.poll_event(),
        Some(AudioEvent::ProgressUpdated { current_time: 100, total_time: 500 })
    );
    assert!(matches!(e.poll_event(), Some(AudioEvent::SpectrumDataUpdated { .. })));
    assert_eq!(e.poll_event(), Some(state_changed(PlaybackState::Paused, song)));
    assert_eq!(e.poll_event(), None);
}

#[test]
fn scenario_load_pause_play_stop() {
    let mut e = create_audio_engine();
    let r = e.load(sample_song("1", 180), true);
    assert_eq!(r, Ok(()));
    let song = Some(sample_song("1", 180));
    assert_eq!(e.poll_event(), Some(state_changed(PlaybackState::Loading, song.clone())));
    assert_eq!(e.poll_event(), Some(state_changed(PlaybackState::Playing, song.clone())));

    e.pause().unwrap();
    assert_eq!(e.poll_event(), Some(state_changed(PlaybackState::Paused, song.clone())));
    // Sampler halted: a tick while paused emits nothing.
    e.tick();
    assert_eq!(e.poll_event(), None);

    e.play().unwrap();
    assert_eq!(e.poll_event(), Some(state_changed(PlaybackState::Playing, song)));
    // Resumed: each tick emits a progress update at the fixed interval.
    e.tick();
    assert_eq!(
        e.poll_event(),
        Some(AudioEvent::ProgressUpdated { current_time: 100, total_time: 180 })
    );
    assert!(matches!(e.poll_event(), Some(AudioEvent::SpectrumDataUpdated { .. })));

    e.stop();
    assert_eq!(e.poll_event(), Some(state_changed(PlaybackState::Stopped, None)));
    assert_eq!(e.poll_event(), None);
    // Sampler fully halted.
    e.tick();
    assert_eq!(e.poll_event(), None);
}

#[test]
fn shutdown_leaves_closed_empty_stream() {
    let mut e = create_audio_engine();
    e.load(sample_song("1", 180), true).unwrap();
    e.shutdown();
    // A subscriber arriving now finds a closed, empty stream — no error.
    assert!(e.is_stream_closed());
    assert_eq!(e.pending_events(), 0);
    assert_eq!(e.poll_event(), None);
    // Production after closure is dropped silently, never a failure.
    e.stop();
    e.tick();
    assert_eq!(e.pending_events(), 0);
    assert_eq!(e.poll_event(), None);
}

#[test]
fn channel_send_and_poll_are_fifo() {
    let mut ch = EventChannel::new();
    ch.send(AudioEvent::ProgressUpdated { current_time: 1, total_time: 2 });
    ch.send(AudioEvent::ProgressUpdated { current_time: 2, total_time: 2 });
    assert_eq!(ch.len(), 2);
    assert_eq!(ch.poll(), Some(AudioEvent::ProgressUpdated { current_time: 1, total_time: 2 }));
    assert_eq!(ch.poll(), Some(AudioEvent::ProgressUpdated { current_time: 2, total_time: 2 }));
    assert_eq!(ch.poll(), None);
}

#[test]
fn closed_channel_drops_sends() {
    let mut ch = EventChannel::new();
    ch.send(AudioEvent::ProgressUpdated { current_time: 1, total_time: 2 });
    ch.close();
    assert!(ch.is_closed());
    assert_eq!(ch.len(), 0);
    ch.send(AudioEvent::ProgressUpdated { current_time: 2, total_time: 2 });
    assert_eq!(ch.len(), 0);
    assert_eq!(ch.poll(), None);
}

#[test]
fn song_clone_preserves_every_field() {
    let song = sample_song("42", 123);
    let copy = song.clone();
    assert_eq!(copy, song);
    assert_eq!(copy.id, "42");
    assert_eq!(copy.duration, 123);
}
