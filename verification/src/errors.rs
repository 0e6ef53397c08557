//! Error taxonomy of the player, and its rendering for the UI layer.
//!
//! Every failure carries a human-readable message; `message` renders the
//! variant prefix followed by the detail, exactly as callers display it.

use vstd::prelude::*;
use vstd::string::*;

verus! {

/// Application-specific error variants. The detail string of each variant
/// is the text produced at the failure site.
#[derive(Debug, Clone, PartialEq, Eq)]
pub enum AppError {
    FileSystem(String),
    Metadata(String),
    Playback(String),
    Serialization(String),
    Database(String),
    InvalidPath(String),
    TrackNotFound(String),
    DirectoryNotFound(String),
    UnsupportedFormat(String),
    PermissionDenied(String),
}

/// Result type alias used by every fallible operation of the player.
pub type AppResult<T> = Result<T, AppError>;

impl AppError {
    /// The rendered message of an error: a fixed prefix naming the
    /// category, then the detail text.
    pub open spec fn spec_message(self) -> Seq<char> {
        match self {
            AppError::FileSystem(s) => "File system error: "@ + s@,
            AppError::Metadata(s) => "Audio metadata error: "@ + s@,
            AppError::Playback(s) => "Audio playback error: "@ + s@,
            AppError::Serialization(s) => "Serialization error: "@ + s@,
            AppError::Database(s) => "Database error: "@ + s@,
            AppError::InvalidPath(s) => "Invalid directory path: "@ + s@,
            AppError::TrackNotFound(s) => "Track not found: "@ + s@,
            AppError::DirectoryNotFound(s) => "Directory not found: "@ + s@,
            AppError::UnsupportedFormat(s) => "Unsupported audio format: "@ + s@,
            AppError::PermissionDenied(s) => "Permission denied: "@ + s@,
        }
    }

    /// Render the error as the text shown to users.
    pub fn message(&self) -> (m: String)
        ensures
            m@ == self.spec_message(),
    {
        match self {
            AppError::FileSystem(s) => String::from_str("File system error: ").concat(s.as_str()),
            AppError::Metadata(s) => String::from_str("Audio metadata error: ").concat(s.as_str()),
            AppError::Playback(s) => String::from_str("Audio playback error: ").concat(s.as_str()),
            AppError::Serialization(s) => String::from_str("Serialization error: ").concat(
                s.as_str(),
            ),
            AppError::Database(s) => String::from_str("Database error: ").concat(s.as_str()),
            AppError::InvalidPath(s) => String::from_str("Invalid directory path: ").concat(
                s.as_str(),
            ),
            AppError::TrackNotFound(s) => String::from_str("Track not found: ").concat(s.as_str()),
            AppError::DirectoryNotFound(s) => String::from_str("Directory not found: ").concat(
                s.as_str(),
            ),
            AppError::UnsupportedFormat(s) => String::from_str("Unsupported audio format: ").concat(
                s.as_str(),
            ),
            AppError::PermissionDenied(s) => String::from_str("Permission denied: ").concat(
                s.as_str(),
            ),
        }
    }
}

/// Conversion of results into the message-typed form handed to the UI
/// command layer.
pub trait IntoTauriResult<T>: Sized {
    /// What the conversion is expected to produce, with error text as a
    /// sequence of characters.
    spec fn spec_tauri_result(self) -> Result<T, Seq<char>>;

    fn into_tauri_result(self) -> (r: Result<T, String>)
        ensures
            match self.spec_tauri_result() {
                Ok(v) => r == Ok::<T, String>(v),
                Err(m) => r matches Err(s) && s@ == m,
            },
    ;
}

impl<T> IntoTauriResult<T> for Result<T, AppError> {
    open spec fn spec_tauri_result(self) -> Result<T, Seq<char>> {
        match self {
            Ok(v) => Ok(v),
            Err(e) => Err(e.spec_message()),
        }
    }

    /// Keep the value; replace an error by its rendered message.
    fn into_tauri_result(self) -> (r: Result<T, String>) {
        match self {
            Ok(v) => Ok(v),
            Err(e) => Err(e.message()),
        }
    }
}

} // verus!
