use dictation_core::dictation::{AudioBuffer, DictationState};
use dictation_core::meter::LEVEL_SCALE;

#[test]
fn test_state_transitions() {
    let state = DictationState::Idle;
    assert!(state.can_start_recording());
    assert!(!state.is_recording());

    let state = DictationState::start_recording(None, 0);
    assert!(!state.can_start_recording());
    assert!(state.is_recording());

    let state = DictationState::start_processing(vec![0; 1000], 1000);
    assert!(!state.can_start_recording());
    assert!(state.is_processing());

    let state = DictationState::error("Test error".to_string());
    assert!(state.can_start_recording()); // Can restart after error

    let state = DictationState::idle();
    assert!(state.can_start_recording());
}

#[test]
fn test_recording_duration() {
    let state = DictationState::start_recording(None, 5_000);

    if let Some(duration) = state.recording_duration(5_100) {
        assert!(duration >= 100);
    } else {
        panic!("Expected recording duration");
    }
}

#[test]
fn test_max_duration_check() {
    let state = DictationState::Idle;
    assert!(!state.has_exceeded_max_duration(0));

    // A recording is over the limit exactly from five minutes on.
    let state = DictationState::start_recording(None, 0);
    assert!(!state.has_exceeded_max_duration(299_999));
    assert!(state.has_exceeded_max_duration(300_000));
}

#[test]
fn dictation_test_audio_buffer_append() {
    let mut buffer = AudioBuffer::new(1000);
    let samples = vec![100i16; 500];

    buffer.append(&samples).unwrap();
    assert_eq!(buffer.len(), 500);

    buffer.append(&samples).unwrap();
    assert_eq!(buffer.len(), 1000);

    // Should fail to exceed max size
    assert!(buffer.append(&[1i16]).is_err());
}

#[test]
fn test_audio_buffer_rms_calculation() {
    let mut buffer = AudioBuffer::new(1000);

    // Empty buffer should return the zero level
    assert_eq!(buffer.calculate_rms_level(100), 0);

    // Add some samples
    let samples = vec![1000i16; 100];
    buffer.append(&samples).unwrap();

    let rms = buffer.calculate_rms_level(100);
    assert!(rms > 0 && rms <= LEVEL_SCALE);
    let level = rms as f64 / LEVEL_SCALE as f64;
    assert!(level > 0.0 && level <= 1.0);
}

#[test]
fn test_audio_buffer_duration() {
    let mut buffer = AudioBuffer::new(100000);

    // 16000 samples = 1 second at 16kHz
    let samples = vec![0i16; 16000];
    buffer.append(&samples).unwrap();

    let duration = buffer.duration_millis() as f64 / 1000.0;
    assert!((duration - 1.0).abs() < 0.01);
}

#[test]
fn test_audio_buffer_clear() {
    let mut buffer = AudioBuffer::new(1000);
    buffer.append(&vec![1i16; 500]).unwrap();
    assert_eq!(buffer.len(), 500);

    buffer.clear();
    assert_eq!(buffer.len(), 0);
    assert!(buffer.is_empty());
}

#[test]
fn test_state_machine_prevents_invalid_transitions() {
    let state = DictationState::start_recording(None, 0);
    assert!(!state.can_start_recording()); // Cannot start while already recording

    let state = DictationState::start_processing(vec![], 0);
    assert!(!state.can_start_recording()); // Cannot start while processing
}

#[test]
fn test_default_state_is_idle() {
    let state = DictationState::default();
    assert!(matches!(state, DictationState::Idle));
    assert!(state.can_start_recording());
}
