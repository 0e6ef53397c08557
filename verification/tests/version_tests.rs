use local_music_player::{PlaybackState, StateVersion, WindowGeometry};

#[test]
fn persistence_test_state_version_compatibility() {
    let current = StateVersion::current();
    assert!(current.is_compatible());

    let incompatible = StateVersion {
        major: 2,
        minor: 0,
        patch: 0,
    };
    assert!(!incompatible.is_compatible());
}

#[test]
fn persistence_test_test_state_version_compatibility() {
    let current = StateVersion::current();
    assert!(current.is_compatible());

    let incompatible = StateVersion {
        major: 2,
        minor: 0,
        patch: 0,
    };
    assert!(!incompatible.is_compatible());
}

#[test]
fn models_test_playback_state_default() {
    let state = PlaybackState::default();

    assert!(state.current_track.is_none());
    assert!(!state.is_playing);
    assert_eq!(state.current_time, 0);
    assert_eq!(state.volume, 1000);
}

#[test]
fn test_window_geometry_default() {
    let g = WindowGeometry::default();
    assert_eq!(g.x, 100);
    assert_eq!(g.y, 100);
    assert_eq!(g.width, 1200);
    assert_eq!(g.height, 800);
}
