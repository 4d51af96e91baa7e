//! The loudness meter's fixed-point levels and edge cases.

use dictation_core::meter::{level_of, LEVEL_SCALE};

#[test]
fn test_level_of_empty_and_zero_window() {
    // An empty buffer or an empty window meters as exactly 0 — the
    // fixed-point image of 0.0.
    assert_eq!(level_of(&vec![], 4000), 0);
    assert_eq!(level_of(&vec![1000i16; 100], 0), 0);
}

#[test]
fn test_level_is_always_in_range() {
    // For any nonempty window, the level lies in [0, LEVEL_SCALE] — the
    // fixed-point image of [0.0, 1.0] — even for full-scale input.
    let loud = vec![i16::MIN; 5000];
    let level = level_of(&loud, 4000);
    assert!(level <= LEVEL_SCALE);
    let normalised = level as f64 / LEVEL_SCALE as f64;
    assert!((0.0..=1.0).contains(&normalised));
    // Full negative scale has RMS 32768, which clamps to the scale.
    assert_eq!(level, LEVEL_SCALE);
}

#[test]
fn test_level_of_constant_signal_is_its_magnitude() {
    // A constant signal's RMS is its magnitude.
    assert_eq!(level_of(&vec![1000i16; 4000], 4000), 1000);
    assert_eq!(level_of(&vec![-1000i16; 4000], 4000), 1000);
    assert_eq!(level_of(&vec![0i16; 4000], 4000), 0);
    assert_eq!(level_of(&vec![i16::MAX; 4000], 4000), LEVEL_SCALE);
}

#[test]
fn test_level_reads_only_the_window_tail() {
    // Loud history outside the window does not affect the level.
    let mut samples = vec![i16::MAX; 100];
    samples.extend(std::iter::repeat(10i16).take(50));
    assert_eq!(level_of(&samples, 50), 10);
}

#[test]
fn test_level_rounds_down_mixed_window() {
    // Window [3, 4]: mean square (9 + 16) / 2 = 12 (integer division),
    // isqrt(12) = 3.
    assert_eq!(level_of(&vec![3i16, 4i16], 2), 3);
}
