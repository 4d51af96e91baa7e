//! The error kinds of the dictation core.
//!
//! Every failure of the core is one of these kinds, each of them recoverable:
//! the session returns to `Idle` after the caller has reported the failure.

use vstd::prelude::*;

verus! {

#[derive(Debug, Clone, Copy, PartialEq, Eq, Structural)]
pub enum DictationError {
    /// An append would have pushed the sample buffer past its capacity.
    /// The samples are dropped and recording continues.
    CapacityExceeded,
    /// No input device was found, or opening the device failed.
    DeviceUnavailable,
    /// The device's native sample format or stream configuration is not
    /// one this core can ingest. Raised before a recording begins.
    UnsupportedFormat,
    /// The external transcription collaborator reported a failure.
    TranscriptionFailed,
}

impl DictationError {
    /// A short human-readable description, for surfacing in the `Error` state.
    pub fn message(&self) -> (text: String)
        ensures
            text@ == self.message_spec(),
    {
        match self {
            DictationError::CapacityExceeded => {
                String::from_str("audio buffer would exceed maximum capacity")
            },
            DictationError::DeviceUnavailable => String::from_str("audio input device unavailable"),
            DictationError::UnsupportedFormat => String::from_str("unsupported audio stream format"),
            DictationError::TranscriptionFailed => String::from_str("transcription failed"),
        }
    }

    pub open spec fn message_spec(&self) -> Seq<char> {
        match self {
            DictationError::CapacityExceeded => "audio buffer would exceed maximum capacity"@,
            DictationError::DeviceUnavailable => "audio input device unavailable"@,
            DictationError::UnsupportedFormat => "unsupported audio stream format"@,
            DictationError::TranscriptionFailed => "transcription failed"@,
        }
    }
}

} // verus!
