//! The ingest path: downmixing, decimation, and format rejection.

use dictation_core::errors::DictationError;
use dictation_core::resampler::{MonoResampler, StreamSampleFormat};

#[test]
fn test_stereo_48k_block_decimates_three_to_one() {
    // 48000 Hz stereo down to 16000 Hz mono: 3000 channel-identical frames
    // come out as exactly 1000 samples of the same value.
    let mut resampler = MonoResampler::new(StreamSampleFormat::Int16, 48000, 2).unwrap();
    let block = vec![100i16; 3000 * 2];
    let out = resampler.process_block(&block);
    assert_eq!(out.len(), 1000);
    assert!(out.iter().all(|&s| s == 100));
}

#[test]
fn test_fractional_ratio_emits_exact_share() {
    // 44100 -> 16000 is not an integer ratio; over a whole second the
    // fractional accumulator still emits exactly 16000 samples.
    let mut resampler = MonoResampler::new(StreamSampleFormat::Float32, 44100, 1).unwrap();
    let mut emitted = 0;
    for _ in 0..49 {
        emitted += resampler.process_block(&vec![7i16; 900]).len();
    }
    assert_eq!(emitted, 44100 * 16000 / 44100);
}

#[test]
fn test_downmix_averages_channels() {
    // Equal source and target rates keep every frame; stereo frames are
    // averaged with truncation toward zero.
    let mut resampler = MonoResampler::new(StreamSampleFormat::Int32, 16000, 2).unwrap();
    let out = resampler.process_block(&[100, 200, -3, -4, 5, 6]);
    assert_eq!(out, vec![150, -3, 5]);
}

#[test]
fn test_unsupported_format_is_rejected() {
    assert!(matches!(
        MonoResampler::new(StreamSampleFormat::Other, 48000, 2),
        Err(DictationError::UnsupportedFormat)
    ));
    // Zero channels and upsampling configurations are refused the same way.
    assert!(matches!(
        MonoResampler::new(StreamSampleFormat::Int16, 48000, 0),
        Err(DictationError::UnsupportedFormat)
    ));
    assert!(matches!(
        MonoResampler::new(StreamSampleFormat::Int16, 8000, 1),
        Err(DictationError::UnsupportedFormat)
    ));
}

#[test]
fn test_accumulator_carries_across_blocks() {
    // Feeding one frame at a time gives the same emission count as one
    // large block: the accumulator carries between calls.
    let mut resampler = MonoResampler::new(StreamSampleFormat::Int16, 48000, 1).unwrap();
    let mut emitted = 0;
    for i in 0..3000 {
        emitted += resampler.process_block(&[i as i16]).len();
    }
    assert_eq!(emitted, 1000);
}
