use base64::Engine;
use local_music_player::Track;

#[test]
fn test_track_creation() {
    let path = "/test/song.mp3".to_string();
    let track = Track::new(path.clone());

    assert_eq!(track.file_path, path);
    assert_eq!(track.title, "song");
    assert_eq!(track.artist, "Unknown");
    assert!(!track.id.is_empty());
}

#[test]
fn test_track_cover_art_base64() {
    let mut track = Track::new("/test/song.mp3".to_string());
    track.cover_art = Some(vec![1, 2, 3, 4]);

    let base64_result = track.cover_art_base64();
    assert!(base64_result.is_some());
    assert_eq!(
        base64_result.unwrap(),
        base64::engine::general_purpose::STANDARD.encode([1, 2, 3, 4])
    );
}

#[test]
fn test_track_without_cover_art() {
    let track = Track::new("/test/song.mp3".to_string());
    assert!(track.cover_art_base64().is_none());
}

#[test]
fn test_track_defaults() {
    let track = Track::new("/music/Some Song.flac".to_string());
    assert_eq!(track.title, "Some Song");
    assert_eq!(track.album, "Unknown");
    assert!(track.track_number.is_none());
    assert!(track.year.is_none());
    assert!(track.genre.is_none());
    assert_eq!(track.duration, 0);
    assert_eq!(track.id.len(), 36);
}

#[test]
fn test_track_title_unknown_without_stem() {
    let track = Track::new("/".to_string());
    assert_eq!(track.title, "Unknown");
}

#[test]
fn test_track_title_ignores_trailing_separator() {
    let track = Track::new("/music/albums/".to_string());
    assert_eq!(track.title, "albums");
}
