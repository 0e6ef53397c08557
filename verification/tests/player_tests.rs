use local_music_player::{AppError, PlayAttempt, PlaybackEvent, PlayerCore, Track};

fn create_test_track() -> Track {
    Track {
        id: "test-track".to_string(),
        file_path: "test_assets/sample.mp3".to_string(),
        title: "Test Song".to_string(),
        artist: "Test Artist".to_string(),
        album: "Test Album".to_string(),
        track_number: Some(1),
        year: Some(2023),
        genre: Some("Rock".to_string()),
        duration: 180_000,
        cover_art: None,
    }
}

fn good_attempt() -> PlayAttempt {
    PlayAttempt {
        sink_ok: true,
        sink_detail: String::new(),
        file_exists: true,
        file_size: 1000,
        decode_ok: true,
    }
}

#[test]
fn test_player_core_initial_state() {
    let core = PlayerCore::new();
    assert!(!core.is_playing());
    assert!(core.current_track().is_none());
    assert!(core.is_finished());

    let state = core.get_playback_state();
    assert!(state.current_track.is_none());
    assert!(!state.is_playing);
    assert_eq!(state.current_time, 0);
    assert_eq!(state.duration, 0);
    assert_eq!(state.volume, 1000);
}

#[test]
fn test_volume_control() {
    let mut core = PlayerCore::new();

    let (r, events) = core.handle_set_volume(500);
    assert!(r.is_ok());
    assert_eq!(core.get_playback_state().volume, 500);
    assert_eq!(events, vec![PlaybackEvent::VolumeChanged(500)]);

    let (r, _) = core.handle_set_volume(1500);
    assert!(r.is_ok());
    assert_eq!(core.get_playback_state().volume, 1000);

    let (r, _) = core.handle_set_volume(-500);
    assert!(r.is_ok());
    assert_eq!(core.get_playback_state().volume, 0);
}

#[test]
fn test_pause_resume_without_track() {
    let mut core = PlayerCore::new();
    core.handle_set_volume(700);

    let (r, events) = core.handle_pause();
    assert!(r.is_ok());
    assert!(events.is_empty());

    let (r, events) = core.handle_resume();
    assert!(r.is_ok());
    assert!(events.is_empty());

    let (r, events) = core.handle_stop();
    assert!(r.is_ok());
    assert!(events.is_empty());

    let state = core.get_playback_state();
    assert_eq!(state.volume, 700);
    assert!(state.current_track.is_none());
    assert!(!state.is_playing);
}

#[test]
fn test_seek_limitation() {
    let core = PlayerCore::new();
    let result = core.handle_seek(30_000);
    assert!(result.is_err());
    match result.unwrap_err() {
        AppError::Playback(m) => assert!(m.contains("Seeking is not supported")),
        other => panic!("unexpected error {:?}", other),
    }
}

#[test]
fn test_play_track_success() {
    let mut core = PlayerCore::new();
    let track = create_test_track();

    let (r, events) = core.handle_play_track(track.clone(), good_attempt());
    assert!(r.is_ok());
    assert_eq!(events.len(), 1);
    match &events[0] {
        PlaybackEvent::TrackStarted(t) => assert_eq!(t.id, "test-track"),
        other => panic!("unexpected event {:?}", other),
    }

    let state = core.get_playback_state();
    assert!(state.is_playing);
    assert_eq!(state.current_time, 0);
    assert_eq!(state.duration, 180_000);
    assert_eq!(state.current_track.unwrap().title, "Test Song");
}

#[test]
fn test_play_track_missing_file() {
    let mut core = PlayerCore::new();
    let track = Track {
        file_path: "nonexistent.mp3".to_string(),
        ..create_test_track()
    };
    let io = PlayAttempt {
        file_exists: false,
        ..good_attempt()
    };

    let (r, events) = core.handle_play_track(track, io);
    assert!(events.is_empty());
    match r.unwrap_err() {
        AppError::Playback(m) => {
            assert_eq!(m, "Audio file not found: nonexistent.mp3");
        }
        other => panic!("unexpected error {:?}", other),
    }
    assert!(!core.is_playing());
}

#[test]
fn test_play_track_empty_file() {
    let mut core = PlayerCore::new();
    let io = PlayAttempt {
        file_size: 0,
        ..good_attempt()
    };

    let (r, _) = core.handle_play_track(create_test_track(), io);
    match r.unwrap_err() {
        AppError::Playback(m) => {
            assert_eq!(m, "Audio file is empty: test_assets/sample.mp3");
        }
        other => panic!("unexpected error {:?}", other),
    }
}

#[test]
fn test_play_track_decode_failure_names_extension() {
    let mut core = PlayerCore::new();
    let io = PlayAttempt {
        decode_ok: false,
        ..good_attempt()
    };

    let (r, _) = core.handle_play_track(create_test_track(), io);
    match r.unwrap_err() {
        AppError::Playback(m) => {
            assert!(m.contains("(format: mp3)"));
            assert!(m.contains("All decoding strategies failed"));
            assert!(m.contains("cannot be played"));
        }
        other => panic!("unexpected error {:?}", other),
    }
}

#[test]
fn test_play_track_sink_failure() {
    let mut core = PlayerCore::new();
    let io = PlayAttempt {
        sink_ok: false,
        sink_detail: "no output device".to_string(),
        ..good_attempt()
    };

    let (r, _) = core.handle_play_track(create_test_track(), io);
    match r.unwrap_err() {
        AppError::Playback(m) => {
            assert_eq!(m, "Failed to create sink: no output device");
        }
        other => panic!("unexpected error {:?}", other),
    }
}

#[test]
fn test_failed_play_drops_existing_playback() {
    let mut core = PlayerCore::new();
    core.handle_play_track(create_test_track(), good_attempt());
    assert!(core.is_playing());

    // The existing sink is dropped before the new attempt, so a failed
    // attempt leaves the engine stopped with nothing loaded.
    let bad = Track {
        file_path: "broken.mp3".to_string(),
        ..create_test_track()
    };
    let io = PlayAttempt {
        decode_ok: false,
        ..good_attempt()
    };
    let (r, events) = core.handle_play_track(bad, io);
    assert!(r.is_err());
    assert!(events.is_empty());
    assert!(!core.is_playing());
    assert!(core.is_finished());
    let state = core.get_playback_state();
    assert!(state.current_track.is_none());
    assert_eq!(state.current_time, 0);
    assert_eq!(state.duration, 0);
}

#[test]
fn test_play_uses_stored_volume() {
    let mut core = PlayerCore::new();
    core.handle_set_volume(250);
    let (r, _) = core.handle_play_track(create_test_track(), good_attempt());
    assert!(r.is_ok());
    assert_eq!(core.get_playback_state().volume, 250);
}

#[test]
fn test_pause_and_resume_events() {
    let mut core = PlayerCore::new();
    core.handle_play_track(create_test_track(), good_attempt());

    let (r, events) = core.handle_pause();
    assert!(r.is_ok());
    assert_eq!(events, vec![PlaybackEvent::TrackPaused]);
    assert!(!core.is_playing());

    // Pausing again is a silent no-op.
    let (_, events) = core.handle_pause();
    assert!(events.is_empty());

    let (r, events) = core.handle_resume();
    assert!(r.is_ok());
    assert_eq!(events, vec![PlaybackEvent::TrackResumed]);
    assert!(core.is_playing());
}

#[test]
fn test_stop_resets_state() {
    let mut core = PlayerCore::new();
    core.handle_set_volume(300);
    core.handle_play_track(create_test_track(), good_attempt());

    let (r, events) = core.handle_stop();
    assert!(r.is_ok());
    assert_eq!(events, vec![PlaybackEvent::TrackStopped]);

    let state = core.get_playback_state();
    assert!(state.current_track.is_none());
    assert!(!state.is_playing);
    assert_eq!(state.current_time, 0);
    assert_eq!(state.duration, 0);
    assert_eq!(state.volume, 300);
    assert!(core.is_finished());
}

#[test]
fn test_position_debounce() {
    let mut core = PlayerCore::new();
    core.handle_play_track(create_test_track(), good_attempt());

    // 100 ms elapsed: moved less than half a second, nothing reported.
    let events = core.handle_tick(100, false);
    assert!(events.is_empty());
    assert_eq!(core.get_playback_state().current_time, 100);

    // Crossing the half-second threshold reports exactly once.
    let events = core.handle_tick(400, false);
    assert_eq!(events, vec![PlaybackEvent::PositionChanged(500)]);

    // Sub-threshold movement after a report stays silent.
    let events = core.handle_tick(100, false);
    assert!(events.is_empty());
    assert_eq!(core.get_playback_state().current_time, 600);

    // The next crossing reports again, once.
    let events = core.handle_tick(400, false);
    assert_eq!(events, vec![PlaybackEvent::PositionChanged(1000)]);
}

#[test]
fn test_tick_ignored_while_paused() {
    let mut core = PlayerCore::new();
    core.handle_play_track(create_test_track(), good_attempt());
    core.handle_pause();

    let events = core.handle_tick(10_000, false);
    assert!(events.is_empty());
    assert_eq!(core.get_playback_state().current_time, 0);

    core.handle_resume();
    let events = core.handle_tick(700, true);
    assert!(events.is_empty());
    assert_eq!(core.get_playback_state().current_time, 0);
}

#[test]
fn test_track_finished_fires_once() {
    let mut core = PlayerCore::new();
    let track = Track {
        duration: 1000,
        ..create_test_track()
    };
    core.handle_play_track(track, good_attempt());

    let events = core.handle_tick(600, false);
    assert_eq!(events, vec![PlaybackEvent::PositionChanged(600)]);

    // Overshooting the duration finishes the track, exactly once.
    let events = core.handle_tick(600, false);
    assert_eq!(events, vec![PlaybackEvent::TrackFinished]);
    let state = core.get_playback_state();
    assert!(!state.is_playing);
    assert_eq!(state.current_time, 1000);

    // Further ticks change nothing and emit nothing.
    let events = core.handle_tick(600, false);
    assert!(events.is_empty());
    let state = core.get_playback_state();
    assert!(!state.is_playing);
    assert_eq!(state.current_time, 1000);
    assert!(state.current_track.is_some());
}

#[test]
fn test_tick_saturates_past_duration() {
    let mut core = PlayerCore::new();
    let track = Track {
        duration: 1000,
        ..create_test_track()
    };
    core.handle_play_track(track, good_attempt());

    // A pathological elapsed time cannot wrap the position; the track
    // just finishes.
    let events = core.handle_tick(u64::MAX, false);
    assert_eq!(events, vec![PlaybackEvent::TrackFinished]);
    assert_eq!(core.get_playback_state().current_time, 1000);
}

#[test]
fn test_replacing_track_resets_position() {
    let mut core = PlayerCore::new();
    core.handle_play_track(create_test_track(), good_attempt());
    core.handle_tick(700, false);
    assert_eq!(core.get_playback_state().current_time, 700);

    let other = Track {
        id: "other".to_string(),
        duration: 60_000,
        ..create_test_track()
    };
    let (r, _) = core.handle_play_track(other, good_attempt());
    assert!(r.is_ok());
    let state = core.get_playback_state();
    assert_eq!(state.current_time, 0);
    assert_eq!(state.duration, 60_000);
    assert_eq!(state.current_track.unwrap().id, "other");
}

#[test]
fn test_interleaved_commands_keep_volume_in_range() {
    let mut core = PlayerCore::new();
    let volumes: [i64; 7] = [-50, 2000, 350, 1000, 0, 999, 1001];
    for (i, v) in volumes.iter().enumerate() {
        core.handle_set_volume(*v);
        if i % 2 == 0 {
            core.handle_pause();
        } else {
            core.handle_resume();
        }
        let state = core.get_playback_state();
        assert!(state.volume <= 1000);
    }
    assert_eq!(core.get_playback_state().volume, 1000);
}
