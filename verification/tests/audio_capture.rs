use dictation_core::audio_capture::{
    AudioCaptureBuffer, MAX_RECORDING_DURATION_MILLIS, RING_BUFFER_CAPACITY,
};
use dictation_core::errors::DictationError;
use dictation_core::meter::LEVEL_SCALE;

#[test]
fn test_audio_buffer_creation() {
    let buffer = AudioCaptureBuffer::new();
    assert_eq!(buffer.len(), 0);
    assert!(buffer.is_empty());
}

#[test]
fn audio_capture_test_audio_buffer_append() {
    let mut buffer = AudioCaptureBuffer::new();
    buffer.start_recording(0);

    let samples = vec![100i16; 1000];
    buffer.append_samples(&samples).unwrap();

    assert_eq!(buffer.len(), 1000);
    assert!(!buffer.is_empty());
}

#[test]
fn test_audio_buffer_max_capacity() {
    let mut buffer = AudioCaptureBuffer::new();
    buffer.start_recording(0);

    // Fill to capacity
    let chunk_size = 10000;
    let num_chunks = RING_BUFFER_CAPACITY / chunk_size;

    for _ in 0..num_chunks {
        let samples = vec![100i16; chunk_size];
        buffer.append_samples(&samples).unwrap();
    }

    assert_eq!(buffer.len(), num_chunks * chunk_size);

    // Try to exceed capacity
    let extra = vec![100i16; 1];
    assert!(buffer.append_samples(&extra).is_err());
}

#[test]
fn test_rms_calculation() {
    let mut buffer = AudioCaptureBuffer::new();
    buffer.start_recording(0);

    // Empty buffer
    assert_eq!(buffer.calculate_rms_level(), 0);

    // Add samples
    let samples = vec![1000i16; 5000];
    buffer.append_samples(&samples).unwrap();

    let rms = buffer.calculate_rms_level();
    assert!(rms > 0 && rms <= LEVEL_SCALE);
    // A constant signal of 1000 has an RMS of exactly 1000.
    assert_eq!(rms, 1000);
    // Normalised to [0.0, 1.0] the level stays in range.
    let level = rms as f64 / LEVEL_SCALE as f64;
    assert!(level > 0.0 && level <= 1.0);
}

#[test]
fn test_duration_calculation() {
    let mut buffer = AudioCaptureBuffer::new();
    buffer.start_recording(0);

    // 16000 samples = 1 second at 16kHz
    let samples = vec![0i16; 16000];
    buffer.append_samples(&samples).unwrap();

    let duration = buffer.duration_millis() as f64 / 1000.0;
    assert!((duration - 1.0).abs() < 0.01);
    assert_eq!(buffer.duration_millis(), 1000);
}

#[test]
fn test_timeout_detection() {
    let mut buffer = AudioCaptureBuffer::new();

    // Not started
    assert!(!buffer.has_exceeded_max_duration(0));

    buffer.start_recording(1_000);

    // Just started
    assert!(!buffer.has_exceeded_max_duration(1_000));

    // Still under the limit just before it
    assert!(!buffer.has_exceeded_max_duration(1_000 + MAX_RECORDING_DURATION_MILLIS - 1));

    // At the limit the timeout fires
    assert!(buffer.has_exceeded_max_duration(1_000 + MAX_RECORDING_DURATION_MILLIS));
}

#[test]
fn test_buffer_clear() {
    let mut buffer = AudioCaptureBuffer::new();
    buffer.start_recording(0);

    let samples = vec![100i16; 1000];
    buffer.append_samples(&samples).unwrap();

    assert_eq!(buffer.len(), 1000);

    buffer.clear();

    assert_eq!(buffer.len(), 0);
    assert!(buffer.is_empty());
}

#[test]
fn test_get_samples() {
    let mut buffer = AudioCaptureBuffer::new();
    buffer.start_recording(0);

    let original_samples = vec![100i16, 200, 300, 400, 500];
    buffer.append_samples(&original_samples).unwrap();

    let retrieved = buffer.get_samples();
    assert_eq!(retrieved, original_samples);
}

#[test]
fn test_failed_append_reports_capacity_exceeded() {
    let mut buffer = AudioCaptureBuffer::new();
    let too_much = vec![1i16; RING_BUFFER_CAPACITY + 1];
    assert_eq!(
        buffer.append_samples(&too_much),
        Err(DictationError::CapacityExceeded)
    );
    assert!(buffer.is_empty());
}

#[test]
fn test_append_totals_accumulate() {
    // A run of appends within capacity stores exactly the sum of the
    // appended lengths, in order.
    let mut buffer = AudioCaptureBuffer::new();
    buffer.start_recording(0);
    let mut total = 0;
    for chunk_len in [1usize, 9, 90, 900] {
        buffer.append_samples(&vec![7i16; chunk_len]).unwrap();
        total += chunk_len;
        assert_eq!(buffer.len(), total);
    }
}

#[test]
fn test_recording_duration_is_elapsed_wall_clock() {
    let mut buffer = AudioCaptureBuffer::new();
    assert_eq!(buffer.recording_duration(12345), 0);
    buffer.start_recording(2_000);
    assert_eq!(buffer.recording_duration(2_000), 0);
    assert_eq!(buffer.recording_duration(2_750), 750);
    // A reading taken before the start clamps at zero.
    assert_eq!(buffer.recording_duration(1_999), 0);
}
