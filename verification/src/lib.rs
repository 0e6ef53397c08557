//! Verified core of a local music player: the playback engine's command
//! handling and position tracking, the decoder fallback chain, and a
//! bitstream-level analyzer for compressed audio files.
//!
//! The engine itself runs as a single-owner actor around an audio device;
//! everything the actor decides (command transitions, tick handling, the
//! order of decode attempts, validation) is modeled and proved here on
//! plain values. The unverified shell only moves bytes and owns the device.

pub mod analyzer;
pub mod chain;
pub mod decimal;
pub mod errors;
pub mod metadata;
pub mod models;
pub mod paths;
pub mod player;
pub mod version;

pub use analyzer::{ChannelMode, Mp3FileInfo, Mp3FrameHeader, Mp3Layer, Mp3Version};
pub use chain::DecodeStrategy;
pub use errors::{AppError, AppResult, IntoTauriResult};
pub use metadata::MetadataParser;
pub use models::{PlaybackEvent, PlaybackState, Track, WindowGeometry};
pub use player::{Command, PlayAttempt, PlayerCore};
pub use version::StateVersion;
