//! End-to-end session flows through the state machine and the buffers.

use dictation_core::audio_capture::AudioCaptureBuffer;
use dictation_core::dictation::{AudioBuffer, DictationState, SessionCommand};
use dictation_core::keyboard_hooks::KeyboardEvent;

#[test]
fn test_audio_buffer_memory_limit() {
    let max_samples = 1000;
    let mut buffer = AudioBuffer::new(max_samples);

    // Try to add more samples than capacity
    let samples = vec![100i16; 800];
    buffer.append(&samples).unwrap();
    assert_eq!(buffer.len(), 800);

    // Add more samples - should fail when exceeding capacity
    let more_samples = vec![200i16; 300];
    let result = buffer.append(&more_samples);

    // Should return error when exceeding capacity
    assert!(result.is_err());
    assert_eq!(buffer.len(), 800); // Unchanged
}

#[test]
fn test_settings_affect_recording() {
    // Test that microphone selection is properly stored in state
    let state = DictationState::start_recording(Some("built-in-microphone".to_string()), 0);

    if let DictationState::Recording { microphone_device_id, .. } = state {
        assert_eq!(microphone_device_id, Some("built-in-microphone".to_string()));
    } else {
        panic!("Expected Recording state");
    }

    // Test that None is acceptable (default microphone)
    let state = DictationState::start_recording(None, 0);
    if let DictationState::Recording { microphone_device_id, .. } = state {
        assert_eq!(microphone_device_id, None);
    } else {
        panic!("Expected Recording state");
    }
}

#[test]
fn test_microphone_disconnect_handling() {
    // Start recording with specific microphone
    let state = DictationState::start_recording(Some("external-mic".to_string()), 0);
    assert!(state.is_recording());

    // Collect partial audio
    let mut buffer = AudioBuffer::new(16000 * 5);
    buffer.append(&vec![100; 8000]).unwrap(); // 0.5 seconds

    // Microphone disconnect detected - transition to error state
    let error_msg = "Microphone disconnected";
    let state = DictationState::error(error_msg.to_string());

    if let DictationState::Error { message } = state {
        assert_eq!(message, error_msg);
    } else {
        panic!("Expected Error state");
    }

    // Can recover by returning to idle
    let state = DictationState::idle();
    assert!(matches!(state, DictationState::Idle));
    assert!(state.can_start_recording());
}

#[test]
fn test_rapid_press_debouncing() {
    // First press - start recording
    let state = DictationState::start_recording(None, 0);
    assert!(state.is_recording());
    assert!(!state.can_start_recording()); // Cannot start again

    // Rapid second press - should be ignored
    // State machine prevents transition
    assert!(!state.can_start_recording());

    // Third press while still recording - still blocked
    assert!(!state.can_start_recording());

    // Only after returning to idle can we start again
    let state = DictationState::idle();
    assert!(state.can_start_recording());
}

#[test]
fn test_session_decisions_follow_the_state() {
    let idle = DictationState::idle();
    assert_eq!(
        idle.session_decision(KeyboardEvent::HotkeyDown),
        SessionCommand::BeginRecording
    );
    assert_eq!(idle.session_decision(KeyboardEvent::HotkeyUp), SessionCommand::Ignore);

    let recording = DictationState::start_recording(None, 0);
    assert_eq!(
        recording.session_decision(KeyboardEvent::HotkeyDown),
        SessionCommand::Ignore
    );
    assert_eq!(
        recording.session_decision(KeyboardEvent::HotkeyUp),
        SessionCommand::StopAndProcess
    );
    assert_eq!(
        recording.session_decision(KeyboardEvent::CancelPressed),
        SessionCommand::CancelToIdle
    );

    let processing = DictationState::start_processing(vec![], 0);
    assert_eq!(
        processing.session_decision(KeyboardEvent::HotkeyDown),
        SessionCommand::Ignore
    );
    assert_eq!(
        processing.session_decision(KeyboardEvent::CancelPressed),
        SessionCommand::CancelToIdle
    );

    // After an error, the hotkey may start a fresh session.
    let failed = DictationState::error("device lost".to_string());
    assert_eq!(
        failed.session_decision(KeyboardEvent::HotkeyDown),
        SessionCommand::BeginRecording
    );
}

#[test]
fn test_full_session_snapshots_audio() {
    // Start a session with no device selector and feed one second of audio.
    let state = DictationState::start_recording(None, 0);
    assert!(state.is_recording());

    let mut buffer = AudioCaptureBuffer::new();
    buffer.start_recording(0);
    buffer.append_samples(&vec![100i16; 16000]).unwrap();

    assert_eq!(buffer.len(), 16000);
    let duration_millis = buffer.duration_millis();
    assert!((duration_millis as f64 / 1000.0 - 1.0).abs() < 0.01);

    // Stop: snapshot the audio and hand it to processing.
    let snapshot = buffer.get_samples();
    let state = DictationState::start_processing(snapshot, duration_millis);

    if let DictationState::Processing { audio_data, duration_millis } = state {
        assert_eq!(audio_data.len(), 16000);
        assert!(audio_data.iter().all(|&s| s == 100));
        assert_eq!(duration_millis, 1000);
    } else {
        panic!("Expected Processing state");
    }
}

#[test]
fn test_cancel_never_reaches_processing() {
    // Cancel while recording: straight back to Idle, never through
    // Processing, so nothing is handed downstream.
    let state = DictationState::start_recording(None, 0);
    assert!(state.is_recording());

    let mut buffer = AudioCaptureBuffer::new();
    buffer.start_recording(0);
    buffer.append_samples(&vec![100i16; 8000]).unwrap();

    let state = DictationState::idle();
    assert!(matches!(state, DictationState::Idle));
    assert!(!state.is_processing());
    assert!(state.can_start_recording());

    // The cancelled session's buffer is cleared, not snapshotted.
    buffer.clear();
    assert!(buffer.is_empty());
}
