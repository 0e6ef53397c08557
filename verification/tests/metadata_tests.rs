use local_music_player::paths::{extension, file_name, file_stem};
use local_music_player::MetadataParser;

#[test]
fn test_supported_extensions() {
    assert_eq!(
        MetadataParser::supported_extensions(),
        vec!["mp3", "flac", "ogg", "m4a", "wav"]
    );
}

#[test]
fn test_is_supported_audio_file() {
    let parser = MetadataParser::new();
    assert!(parser.is_supported_audio_file("/music/song.mp3"));
    assert!(parser.is_supported_audio_file("/music/UPPERCASE.MP3"));
    assert!(parser.is_supported_audio_file("album cover.m4a"));
    assert!(parser.is_supported_audio_file("track.FlAc"));
    assert!(!parser.is_supported_audio_file("/music/README.txt"));
    assert!(!parser.is_supported_audio_file("/music/noextension"));
    assert!(!parser.is_supported_audio_file("/music/.hidden"));
}

#[test]
fn test_path_components() {
    assert_eq!(file_name("/a/b/song.mp3"), "song.mp3");
    assert_eq!(file_stem("/a/b/song.mp3"), "song");
    assert_eq!(extension("/a/b/song.mp3"), Some("mp3"));

    assert_eq!(file_stem("file.with.dots.mp3"), "file.with.dots");
    assert_eq!(extension("file.with.dots.mp3"), Some("mp3"));

    assert_eq!(file_stem(".bashrc"), ".bashrc");
    assert_eq!(extension(".bashrc"), None);

    assert_eq!(file_name("plain"), "plain");
    assert_eq!(extension("plain"), None);
}
