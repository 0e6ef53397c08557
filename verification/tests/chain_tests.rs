use local_music_player::chain::{create_robust_decoder, plan_decode_attempts, resolve_with_outcomes};
use local_music_player::player::validate_audio_file;
use local_music_player::{AppError, DecodeStrategy};

/// A file whose frame-sync pattern sits at byte offset `offset`.
fn synthetic_file(len: usize, offset: usize) -> Vec<u8> {
    let mut data = vec![0u8; len];
    data[offset] = 0xFF;
    data[offset + 1] = 0xFB;
    data[offset + 2] = 0x90;
    data
}

/// A minimal PCM wave file that a real decoder accepts.
fn wav_file() -> Vec<u8> {
    let mut data = Vec::new();
    let samples = [128u8; 64];
    data.extend_from_slice(b"RIFF");
    data.extend_from_slice(&(36u32 + samples.len() as u32).to_le_bytes());
    data.extend_from_slice(b"WAVE");
    data.extend_from_slice(b"fmt ");
    data.extend_from_slice(&16u32.to_le_bytes());
    data.extend_from_slice(&1u16.to_le_bytes());
    data.extend_from_slice(&1u16.to_le_bytes());
    data.extend_from_slice(&8000u32.to_le_bytes());
    data.extend_from_slice(&8000u32.to_le_bytes());
    data.extend_from_slice(&1u16.to_le_bytes());
    data.extend_from_slice(&8u16.to_le_bytes());
    data.extend_from_slice(b"data");
    data.extend_from_slice(&(samples.len() as u32).to_le_bytes());
    data.extend_from_slice(&samples);
    data
}

#[test]
fn test_plan_for_clean_header() {
    let data = synthetic_file(1024, 0);
    let plan = plan_decode_attempts(&data);
    assert_eq!(
        plan,
        vec![
            DecodeStrategy::Standard,
            DecodeStrategy::LargeBuffer,
            DecodeStrategy::Validated,
            DecodeStrategy::SkipHeader(0),
        ]
    );
}

#[test]
fn test_plan_for_junk_prefixed_header() {
    let data = synthetic_file(1024, 100);
    let plan = plan_decode_attempts(&data);
    assert_eq!(
        plan,
        vec![
            DecodeStrategy::Standard,
            DecodeStrategy::LargeBuffer,
            DecodeStrategy::SkipHeader(100),
        ]
    );
}

#[test]
fn test_plan_for_header_found_by_full_scan() {
    let data = synthetic_file(1024, 1015);
    let plan = plan_decode_attempts(&data);
    assert_eq!(
        plan,
        vec![
            DecodeStrategy::Standard,
            DecodeStrategy::LargeBuffer,
            DecodeStrategy::SkipHeader(1015),
        ]
    );
}

#[test]
fn test_plan_without_sync_pattern() {
    let data = vec![0u8; 1024];
    let plan = plan_decode_attempts(&data);
    assert_eq!(
        plan,
        vec![DecodeStrategy::Standard, DecodeStrategy::LargeBuffer]
    );
}

#[test]
fn test_resolution_picks_matching_strategy() {
    // Clean header at offset zero, standard decode succeeds.
    let plan = plan_decode_attempts(&synthetic_file(1024, 0));
    let chosen = resolve_with_outcomes(&plan, &vec![true, true, true, true]);
    assert_eq!(chosen, Some(DecodeStrategy::Standard));

    // Same header, but only the large read-ahead buffer works.
    let chosen = resolve_with_outcomes(&plan, &vec![false, true, true, false]);
    assert_eq!(chosen, Some(DecodeStrategy::LargeBuffer));

    // Clean header where only the pre-validated decode works.
    let chosen = resolve_with_outcomes(&plan, &vec![false, false, true, false]);
    assert_eq!(chosen, Some(DecodeStrategy::Validated));

    // Header preceded by junk: only decoding from its offset works.
    let plan = plan_decode_attempts(&synthetic_file(1024, 100));
    let chosen = resolve_with_outcomes(&plan, &vec![false, false, true]);
    assert_eq!(chosen, Some(DecodeStrategy::SkipHeader(100)));

    // Header discoverable only by scanning the whole window.
    let plan = plan_decode_attempts(&synthetic_file(1024, 1015));
    let chosen = resolve_with_outcomes(&plan, &vec![false, false, true]);
    assert_eq!(chosen, Some(DecodeStrategy::SkipHeader(1015)));

    // No strategy matches.
    let plan = plan_decode_attempts(&vec![0u8; 1024]);
    let chosen = resolve_with_outcomes(&plan, &vec![false, false]);
    assert_eq!(chosen, None);
}

#[test]
fn test_robust_decoder_rejects_garbage() {
    let data = vec![0u8; 2048];
    let result = create_robust_decoder(&data);
    let message = result.unwrap_err();
    assert!(message.contains("All decoding strategies failed"));
}

#[test]
fn test_robust_decoder_accepts_wave_audio() {
    let data = wav_file();
    let result = create_robust_decoder(&data);
    assert_eq!(result.unwrap(), DecodeStrategy::Standard);
}

#[test]
fn test_validate_audio_file_with_invalid_file() {
    let data = b"not an audio file".to_vec();
    let result = validate_audio_file("sample.mp3", true, data.len() as u64, &data);
    assert!(result.is_err());
    match result.unwrap_err() {
        AppError::Playback(m) => {
            assert!(m.contains("Cannot decode audio file"));
            assert!(m.contains("(format: mp3)"));
        }
        other => panic!("unexpected error {:?}", other),
    }
}

#[test]
fn test_validate_audio_file_missing() {
    let result = validate_audio_file("gone.mp3", false, 0, &Vec::new());
    match result.unwrap_err() {
        AppError::Playback(m) => assert_eq!(m, "Audio file not found: gone.mp3"),
        other => panic!("unexpected error {:?}", other),
    }
}

#[test]
fn test_validate_audio_file_empty() {
    let result = validate_audio_file("empty.mp3", true, 0, &Vec::new());
    match result.unwrap_err() {
        AppError::Playback(m) => assert_eq!(m, "Audio file is empty: empty.mp3"),
        other => panic!("unexpected error {:?}", other),
    }
}

#[test]
fn test_validate_audio_file_unsupported_extension() {
    let data = vec![1u8; 16];
    let result = validate_audio_file("notes.TXT", true, 16, &data);
    match result.unwrap_err() {
        AppError::Playback(m) => {
            assert_eq!(
                m,
                "Unsupported audio format: .txt (supported: mp3, flac, wav, ogg, m4a)"
            );
        }
        other => panic!("unexpected error {:?}", other),
    }
}

#[test]
fn test_validate_audio_file_without_extension() {
    // A recognized extension is required; a path without one has no
    // recognized format, even if its bytes would decode.
    let data = wav_file();
    let result = validate_audio_file("soundfile", true, data.len() as u64, &data);
    match result.unwrap_err() {
        AppError::Playback(m) => {
            assert_eq!(
                m,
                "Unsupported audio format: .unknown (supported: mp3, flac, wav, ogg, m4a)"
            );
        }
        other => panic!("unexpected error {:?}", other),
    }
}

#[test]
fn test_validate_audio_file_accepts_wave() {
    let data = wav_file();
    let result = validate_audio_file("sound.wav", true, data.len() as u64, &data);
    assert!(result.is_ok());
}
