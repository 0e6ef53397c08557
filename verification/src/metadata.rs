//! The metadata collaborator's decision helpers that the engine relies
//! on for pre-flight validation: which files count as supported audio.
//! Tag reading itself is I/O and lives outside the library.

use vstd::prelude::*;
use crate::paths::{extension, lower_chars, spec_extension, str_eq, to_lowercase};

verus! {

/// Metadata parser for audio files; the reading of tags is done by the
/// shell, the decisions live here.
#[derive(Debug)]
pub struct MetadataParser;

/// Whether a path names a supported audio file: its extension,
/// case-insensitively, is one of the supported set.
pub open spec fn spec_supported_audio(path: Seq<char>) -> bool {
    match spec_extension(path) {
        Some(e) => {
            let l = lower_chars(e);
            l == "mp3"@ || l == "flac"@ || l == "ogg"@ || l == "m4a"@ || l == "wav"@
        },
        None => false,
    }
}

impl MetadataParser {
    /// A new metadata parser instance.
    pub fn new() -> (p: MetadataParser)
        ensures
            p == MetadataParser,
    {
        MetadataParser
    }

    /// Whether a file is supported audio, decided by its extension
    /// alone.
    pub fn is_supported_audio_file(&self, path: &str) -> (r: bool)
        ensures
            r == spec_supported_audio(path@),
    {
        match extension(path) {
            Some(e) => {
                let low = to_lowercase(e);
                str_eq(low.as_str(), "mp3") || str_eq(low.as_str(), "flac") || str_eq(
                    low.as_str(),
                    "ogg",
                ) || str_eq(low.as_str(), "m4a") || str_eq(low.as_str(), "wav")
            },
            None => false,
        }
    }

    /// The supported audio file extensions.
    pub fn supported_extensions() -> (r: Vec<&'static str>)
        ensures
            r@.len() == 5,
            r@[0]@ == "mp3"@,
            r@[1]@ == "flac"@,
            r@[2]@ == "ogg"@,
            r@[3]@ == "m4a"@,
            r@[4]@ == "wav"@,
    {
        let mut r: Vec<&'static str> = Vec::new();
        r.push("mp3");
        r.push("flac");
        r.push("ogg");
        r.push("m4a");
        r.push("wav");
        r
    }
}

impl Default for MetadataParser {
    fn default() -> (p: Self)
        ensures
            p == MetadataParser,
    {
        MetadataParser::new()
    }
}

} // verus!
