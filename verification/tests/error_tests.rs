use local_music_player::{AppError, AppResult, IntoTauriResult};

#[test]
fn test_error_conversion() {
    let app_error = AppError::FileSystem("File not found".to_string());
    let error_string: String = app_error.message();

    assert!(error_string.contains("File system error"));
    assert!(error_string.contains("File not found"));
}

#[test]
fn test_metadata_error() {
    let error = AppError::Metadata("Invalid MP3 format".to_string());
    assert_eq!(error.message(), "Audio metadata error: Invalid MP3 format");
}

#[test]
fn test_into_tauri_result() {
    let success: AppResult<i32> = Ok(42);
    let tauri_result = success.into_tauri_result();
    assert_eq!(tauri_result, Ok(42));

    let error: AppResult<i32> = Err(AppError::TrackNotFound("test".to_string()));
    let tauri_result = error.into_tauri_result();
    assert!(tauri_result.is_err());
    assert!(tauri_result.unwrap_err().contains("Track not found"));
}

#[test]
fn test_error_message_prefixes() {
    let d = "x".to_string();
    assert_eq!(
        AppError::Playback(d.clone()).message(),
        "Audio playback error: x"
    );
    assert_eq!(
        AppError::Serialization(d.clone()).message(),
        "Serialization error: x"
    );
    assert_eq!(AppError::Database(d.clone()).message(), "Database error: x");
    assert_eq!(
        AppError::InvalidPath(d.clone()).message(),
        "Invalid directory path: x"
    );
    assert_eq!(
        AppError::DirectoryNotFound(d.clone()).message(),
        "Directory not found: x"
    );
    assert_eq!(
        AppError::UnsupportedFormat(d.clone()).message(),
        "Unsupported audio format: x"
    );
    assert_eq!(
        AppError::PermissionDenied(d.clone()).message(),
        "Permission denied: x"
    );
}
