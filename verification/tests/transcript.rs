//! Transcript assembly from engine segments.

use dictation_core::errors::DictationError;
use dictation_core::transcript::assemble_transcription;

#[test]
fn test_assemble_joins_segments_with_spaces() {
    let segments = vec!["Hello".to_string(), "world".to_string()];
    assert_eq!(assemble_transcription(&segments), "Hello world");
}

#[test]
fn test_assemble_trims_segment_padding() {
    // Engines usually emit segments with leading spaces; the outer ones are
    // trimmed, inner spacing is kept as produced.
    let segments = vec![" Hello,".to_string(), " world.".to_string()];
    assert_eq!(assemble_transcription(&segments), "Hello,  world.");
}

#[test]
fn test_assemble_empty_input_means_no_speech() {
    // No segments, or only blank segments, give the empty transcript that
    // signifies "no speech detected".
    assert_eq!(assemble_transcription(&vec![]), "");
    assert_eq!(assemble_transcription(&vec!["".to_string()]), "");
    assert_eq!(assemble_transcription(&vec!["   ".to_string(), "\t".to_string()]), "");
}

#[test]
fn test_assemble_single_segment() {
    let segments = vec!["Just one sentence.".to_string()];
    assert_eq!(assemble_transcription(&segments), "Just one sentence.");
}

#[test]
fn test_dictation_error_messages() {
    assert_eq!(
        DictationError::CapacityExceeded.message(),
        "audio buffer would exceed maximum capacity"
    );
    assert_eq!(
        DictationError::DeviceUnavailable.message(),
        "audio input device unavailable"
    );
    assert_eq!(
        DictationError::UnsupportedFormat.message(),
        "unsupported audio stream format"
    );
    assert_eq!(
        DictationError::TranscriptionFailed.message(),
        "transcription failed"
    );
}
