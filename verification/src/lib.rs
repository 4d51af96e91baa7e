//! Core of a push-to-talk dictation feature: a bounded sample buffer fed by a
//! rate-converting ingest path, a loudness meter for UI feedback, and a session
//! state machine that governs one recording/processing cycle, together with the
//! pure decision logic of the surrounding shell (shortcut parsing, permission
//! reporting, settings defaults).
//!
//! Everything effectful — audio drivers, speech inference, persistent history,
//! OS input injection — lives outside this crate and talks to it through plain
//! values.

pub mod audio_capture;
pub mod dictation;
pub mod errors;
pub mod keyboard_hooks;
pub mod meter;
pub mod permissions;
pub mod platform;
pub mod resampler;
pub mod settings;
pub mod strutil;
pub mod text_input;
pub mod transcript;
