//! Value objects of the player: tracks, the playback snapshot, the
//! events the engine emits, and window geometry kept for persistence.
//!
//! Times are carried in milliseconds and the volume in thousandths of
//! full scale, so every field is a plain integer with exact contracts.

use vstd::prelude::*;
use vstd::string::*;
use crate::paths::{file_stem, spec_file_stem};
use base64::Engine;

verus! {

/// A music track with its metadata, produced by an external scanner and
/// consumed by the engine. The engine never mutates a track.
#[derive(Debug, PartialEq)]
pub struct Track {
    pub id: String,
    pub file_path: String,
    pub title: String,
    pub artist: String,
    pub album: String,
    pub track_number: Option<u32>,
    pub year: Option<u32>,
    pub genre: Option<String>,
    /// Track length in milliseconds.
    pub duration: u64,
    /// Raw image data of the cover, if any.
    pub cover_art: Option<Vec<u8>>,
}

/// Whether two tracks carry the same data, comparing cover art by its
/// bytes.
pub open spec fn track_like(a: Track, b: Track) -> bool {
    &&& a.id == b.id
    &&& a.file_path == b.file_path
    &&& a.title == b.title
    &&& a.artist == b.artist
    &&& a.album == b.album
    &&& a.track_number == b.track_number
    &&& a.year == b.year
    &&& a.genre == b.genre
    &&& a.duration == b.duration
    &&& match (a.cover_art, b.cover_art) {
        (Some(x), Some(y)) => x@ == y@,
        (None, None) => true,
        _ => false,
    }
}

/// The characters that the standard base64 alphabet assigns to a byte
/// sequence, padded to a multiple of four characters.
pub uninterp spec fn base64_chars(bytes: Seq<u8>) -> Seq<char>;

/// Length of a padded base64 encoding of `n` bytes.
pub open spec fn base64_len(n: nat) -> nat {
    if n % 3 == 0 {
        n / 3 * 4
    } else {
        n / 3 * 4 + 4
    }
}

/// Relies on base64's `Engine::encode` with the `STANDARD` engine: the
/// encoding depends on the input bytes alone, and a padded encoding has
/// four characters for every started group of three bytes.
#[verifier::external_body]
fn encode_base64(data: &Vec<u8>) -> (r: String)
    requires
        data@.len() / 3 * 4 + 4 <= usize::MAX as nat,
    ensures
        r@ == base64_chars(data@),
        r@.len() == base64_len(data@.len()),
{
    base64::engine::general_purpose::STANDARD.encode(data)
}

/// Relies on uuid's `Uuid::new_v4` and its `Display` form: a random
/// identifier rendered as 36 hyphenated hexadecimal characters. The
/// result is random; nothing beyond its shape is promised.
#[verifier::external_body]
fn fresh_id() -> (r: String)
    ensures
        r@.len() == 36,
{
    uuid::Uuid::new_v4().to_string()
}

impl Track {
    /// A fresh track for a file, titled after the file's stem, with all
    /// metadata fields at their unknown defaults.
    pub fn new(file_path: String) -> (t: Track)
        ensures
            t.id@.len() == 36,
            t.file_path == file_path,
            t.title@ == if spec_file_stem(file_path@).len() == 0 {
                "Unknown"@
            } else {
                spec_file_stem(file_path@)
            },
            t.artist@ == "Unknown"@,
            t.album@ == "Unknown"@,
            t.track_number is None,
            t.year is None,
            t.genre is None,
            t.duration == 0,
            t.cover_art is None,
    {
        let stem = file_stem(file_path.as_str());
        let title = if stem.unicode_len() == 0 {
            String::from_str("Unknown")
        } else {
            stem.to_owned()
        };
        Track {
            id: fresh_id(),
            file_path,
            title,
            artist: String::from_str("Unknown"),
            album: String::from_str("Unknown"),
            track_number: None,
            year: None,
            genre: None,
            duration: 0,
            cover_art: None,
        }
    }

    /// The cover art encoded as base64 for the frontend, when present.
    pub fn cover_art_base64(&self) -> (r: Option<String>)
        requires
            match self.cover_art {
                Some(d) => d@.len() / 3 * 4 + 4 <= usize::MAX as nat,
                None => true,
            },
        ensures
            match self.cover_art {
                Some(d) => r matches Some(s) && s@ == base64_chars(d@) && s@.len() == base64_len(
                    d@.len(),
                ),
                None => r is None,
            },
    {
        match &self.cover_art {
            Some(data) => Some(encode_base64(data)),
            None => None,
        }
    }
}

impl Clone for Track {
    /// A copy of the track; cover art is compared by its bytes.
    fn clone(&self) -> (r: Self)
        ensures
            track_like(*self, r),
    {
        Track {
            id: self.id.clone(),
            file_path: self.file_path.clone(),
            title: self.title.clone(),
            artist: self.artist.clone(),
            album: self.album.clone(),
            track_number: self.track_number,
            year: self.year,
            genre: match &self.genre {
                Some(g) => Some(g.clone()),
                None => None,
            },
            duration: self.duration,
            cover_art: match &self.cover_art {
                Some(d) => {
                    let c = d.clone();
                    proof {
                        assert(c@ =~= d@);
                    }
                    Some(c)
                },
                None => None,
            },
        }
    }
}

/// The playback snapshot read by callers without routing through the
/// engine's actor.
#[derive(Debug, PartialEq)]
pub struct PlaybackState {
    pub current_track: Option<Track>,
    pub is_playing: bool,
    /// Elapsed position of the current track in milliseconds.
    pub current_time: u64,
    /// Length of the current track in milliseconds.
    pub duration: u64,
    /// Output volume in thousandths of full scale, always in `0..=1000`.
    pub volume: u32,
}

/// Whether two snapshots carry the same data, comparing tracks with
/// [`track_like`].
pub open spec fn state_like(a: PlaybackState, b: PlaybackState) -> bool {
    &&& match (a.current_track, b.current_track) {
        (Some(x), Some(y)) => track_like(x, y),
        (None, None) => true,
        _ => false,
    }
    &&& a.is_playing == b.is_playing
    &&& a.current_time == b.current_time
    &&& a.duration == b.duration
    &&& a.volume == b.volume
}

/// The snapshot before any track has been loaded: stopped, at position
/// zero, at full volume.
pub open spec fn initial_playback_state() -> PlaybackState {
    PlaybackState {
        current_track: None,
        is_playing: false,
        current_time: 0,
        duration: 0,
        volume: 1000,
    }
}

impl Default for PlaybackState {
    fn default() -> (s: Self)
        ensures
            s == initial_playback_state(),
    {
        PlaybackState {
            current_track: None,
            is_playing: false,
            current_time: 0,
            duration: 0,
            volume: 1000,
        }
    }
}

impl Clone for PlaybackState {
    /// A copy of the snapshot; the track is compared by its data.
    fn clone(&self) -> (r: Self)
        ensures
            state_like(*self, r),
    {
        PlaybackState {
            current_track: match &self.current_track {
                Some(t) => Some(t.clone()),
                None => None,
            },
            is_playing: self.is_playing,
            current_time: self.current_time,
            duration: self.duration,
            volume: self.volume,
        }
    }
}

/// Events emitted by the engine, delivered best-effort to external
/// consumers.
#[derive(Debug, PartialEq)]
pub enum PlaybackEvent {
    TrackStarted(Track),
    TrackPaused,
    TrackResumed,
    TrackStopped,
    TrackFinished,
    /// New position in milliseconds.
    PositionChanged(u64),
    /// New volume in thousandths of full scale.
    VolumeChanged(u32),
    Error(String),
}

/// Window geometry kept in the persisted application state.
#[derive(Debug, Clone, PartialEq, Eq, Structural)]
pub struct WindowGeometry {
    pub x: i32,
    pub y: i32,
    pub width: u32,
    pub height: u32,
}

impl Default for WindowGeometry {
    fn default() -> (g: Self)
        ensures
            g == (WindowGeometry { x: 100, y: 100, width: 1200, height: 800 }),
    {
        WindowGeometry { x: 100, y: 100, width: 1200, height: 800 }
    }
}

} // verus!
