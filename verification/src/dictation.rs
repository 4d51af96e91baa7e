//! The dictation session state machine and the per-session audio buffer.
//!
//! A session is always in exactly one of four states — `Idle`, `Recording`,
//! `Processing`, `Error` — and only the transition constructors build a new
//! state; no field is mutated in place. A new recording may begin only from
//! `Idle` or `Error`, which is what makes rapid repeated start requests safe:
//! while one session records or processes, `can_start_recording` stays false.

use vstd::prelude::*;

use crate::audio_capture::{
    duration_millis_spec, elapsed_millis_spec, MAX_RECORDING_DURATION_MILLIS,
};
use crate::errors::DictationError;
use crate::meter;

verus! {

/// Maximum recording duration in seconds (5 minutes).
pub const MAX_RECORDING_DURATION_SECS: u64 = 300;

/// Maximum audio buffer size: 5 minutes at 16 kHz mono.
pub const MAX_AUDIO_BUFFER_SIZE: usize = 4_800_000;

#[derive(Debug)]
pub enum DictationState {
    /// No session: ready to record.
    Idle,
    /// A live session: samples are flowing into the session's buffer.
    Recording {
        /// Monotonic reading taken when the session started, in milliseconds.
        start_time_millis: u64,
        /// The session's own sample storage, fresh and empty at the start.
        audio_buffer: Vec<i16>,
        /// The chosen capture device, or `None` for the system default.
        microphone_device_id: Option<String>,
    },
    /// A finished recording handed to the transcription collaborator:
    /// an immutable snapshot of the captured audio and its length.
    Processing { audio_data: Vec<i16>, duration_millis: u64 },
    /// A failure was reported; recoverable by returning to `Idle`.
    Error { message: String },
}

impl DictationState {
    /// Whether a new recording may begin: true exactly in `Idle` and `Error`.
    pub open spec fn can_start_recording_spec(&self) -> bool {
        self is Idle || self is Error
    }

    /// Whether a new recording may begin. True only in `Idle` and `Error`;
    /// false while `Recording` or `Processing`, so a second start request is
    /// rejected until the running session ends.
    pub fn can_start_recording(&self) -> (allowed: bool)
        ensures
            allowed == self.can_start_recording_spec(),
    {
        matches!(self, DictationState::Idle | DictationState::Error { .. })
    }

    /// Whether a recording session is live.
    pub fn is_recording(&self) -> (recording: bool)
        ensures
            recording == (self is Recording),
    {
        matches!(self, DictationState::Recording { .. })
    }

    /// Whether a finished recording is being transcribed.
    pub fn is_processing(&self) -> (processing: bool)
        ensures
            processing == (self is Processing),
    {
        matches!(self, DictationState::Processing { .. })
    }

    /// Wall-clock milliseconds recorded so far, given the current monotonic
    /// reading; `None` outside `Recording`.
    pub fn recording_duration(&self, now_millis: u64) -> (elapsed: Option<u64>)
        ensures
            self is Recording ==> (elapsed matches Some(e) && e as int == elapsed_millis_spec(
                Some(self->Recording_start_time_millis),
                now_millis,
            )),
            !(self is Recording) ==> elapsed is None,
    {
        if let DictationState::Recording { start_time_millis, .. } = self {
            if now_millis >= *start_time_millis {
                Some(now_millis - *start_time_millis)
            } else {
                Some(0)
            }
        } else {
            None
        }
    }

    /// Whether a live recording has run past the maximum session duration.
    /// False in every state but `Recording`.
    pub fn has_exceeded_max_duration(&self, now_millis: u64) -> (exceeded: bool)
        ensures
            exceeded == (self is Recording && elapsed_millis_spec(
                Some(self->Recording_start_time_millis),
                now_millis,
            ) >= MAX_RECORDING_DURATION_MILLIS),
    {
        match self.recording_duration(now_millis) {
            Some(elapsed) => elapsed >= MAX_RECORDING_DURATION_MILLIS,
            None => false,
        }
    }

    /// Transition to `Recording`: stamp the start instant, remember the
    /// chosen device, and allocate a fresh, empty sample buffer. From the new
    /// state no further recording can start until the session ends.
    pub fn start_recording(microphone_device_id: Option<String>, now_millis: u64) -> (state:
        DictationState)
        ensures
            state matches DictationState::Recording {
                start_time_millis,
                audio_buffer,
                microphone_device_id: device,
            } && start_time_millis == now_millis && audio_buffer@ == Seq::<i16>::empty() && device
                == microphone_device_id,
            !state.can_start_recording_spec(),
    {
        DictationState::Recording {
            start_time_millis: now_millis,
            audio_buffer: Vec::new(),
            microphone_device_id,
        }
    }

    /// Transition to `Processing`: hand an immutable snapshot of the captured
    /// audio and its duration to the transcription collaborator.
    pub fn start_processing(audio_data: Vec<i16>, duration_millis: u64) -> (state: DictationState)
        ensures
            state matches DictationState::Processing { audio_data: audio, duration_millis: d }
                && audio@ == audio_data@ && d == duration_millis,
            !state.can_start_recording_spec(),
    {
        DictationState::Processing { audio_data, duration_millis }
    }

    /// Transition to `Error` with a human-readable message; the session is
    /// recoverable from here by `idle`.
    pub fn error(message: String) -> (state: DictationState)
        ensures
            state matches DictationState::Error { message: m } && m@ == message@,
            state.can_start_recording_spec(),
    {
        DictationState::Error { message }
    }

    /// Transition to `Idle`, from any state. Used for user cancellation: it
    /// never passes through `Processing`, so a cancelled recording hands
    /// nothing downstream.
    pub fn idle() -> (state: DictationState)
        ensures
            state is Idle,
            state.can_start_recording_spec(),
    {
        DictationState::Idle
    }
}

impl Default for DictationState {
    /// A session begins `Idle`.
    fn default() -> (state: Self)
        ensures
            state is Idle,
    {
        DictationState::Idle
    }
}

/// Bounded audio buffer owned by a single session, with a caller-chosen
/// capacity.
pub struct AudioBuffer {
    samples: Vec<i16>,
    max_size: usize,
}

impl AudioBuffer {
    /// The stored samples, oldest first.
    pub closed spec fn sample_seq(&self) -> Seq<i16> {
        self.samples@
    }

    /// The capacity this buffer was created with.
    pub closed spec fn capacity(&self) -> usize {
        self.max_size
    }

    /// An empty buffer that will hold at most `max_size` samples.
    pub fn new(max_size: usize) -> (buffer: Self)
        ensures
            buffer.sample_seq() == Seq::<i16>::empty(),
            buffer.capacity() == max_size,
    {
        AudioBuffer { samples: Vec::new(), max_size }
    }

    /// Append samples in order. Fails whole with `CapacityExceeded` — storing
    /// nothing — exactly when the appended length would push the buffer past
    /// its capacity; there are no partial writes.
    pub fn append(&mut self, new_samples: &[i16]) -> (result: Result<(), DictationError>)
        ensures
            result is Ok <==> old(self).sample_seq().len() + new_samples@.len() <= old(
                self,
            ).capacity(),
            result is Ok ==> final(self).sample_seq() == old(self).sample_seq() + new_samples@,
            result is Err ==> result == Err::<(), DictationError>(
                DictationError::CapacityExceeded,
            ) && final(self).sample_seq() == old(self).sample_seq(),
            final(self).capacity() == old(self).capacity(),
    {
        if new_samples.len() > self.max_size || self.samples.len() > self.max_size
            - new_samples.len() {
            return Err(DictationError::CapacityExceeded);
        }
        self.samples.extend_from_slice(new_samples);
        proof {
            assert(self.samples@ =~= old(self).samples@ + new_samples@);
        }
        Ok(())
    }

    /// The stored samples, as a borrowed slice.
    pub fn get_samples(&self) -> (all: &[i16])
        ensures
            all@ == self.sample_seq(),
    {
        self.samples.as_slice()
    }

    /// Number of samples stored.
    pub fn len(&self) -> (n: usize)
        ensures
            n == self.sample_seq().len(),
    {
        self.samples.len()
    }

    /// Whether no samples are stored.
    pub fn is_empty(&self) -> (empty: bool)
        ensures
            empty == (self.sample_seq().len() == 0),
    {
        self.samples.is_empty()
    }

    /// Drop all samples; the capacity is unchanged.
    pub fn clear(&mut self)
        ensures
            final(self).sample_seq() == Seq::<i16>::empty(),
            final(self).capacity() == old(self).capacity(),
    {
        self.samples.clear();
    }

    /// Loudness level over the last `window_size` samples, in fixed point:
    /// `meter::LEVEL_SCALE` stands for full scale 1.0, and the result always
    /// lies in `[0, LEVEL_SCALE]`; 0 when the buffer or window is empty.
    pub fn calculate_rms_level(&self, window_size: usize) -> (level: u16)
        ensures
            level as int == meter::level_spec(self.sample_seq(), window_size as int),
            level <= meter::LEVEL_SCALE,
            self.sample_seq().len() == 0 || window_size == 0 ==> level == 0,
    {
        meter::level_of(&self.samples, window_size)
    }

    /// Milliseconds of audio stored, assuming the 16 kHz dictation rate.
    pub fn duration_millis(&self) -> (millis: u64)
        ensures
            millis as int == duration_millis_spec(self.sample_seq().len() as int),
    {
        let wide: u128 = (self.samples.len() as u128) * 1000 / 16000;
        proof {
            vstd::arithmetic::div_mod::lemma_div_is_ordered(
                self.samples@.len() as int * 1000,
                u64::MAX as int * 16000,
                16000,
            );
            vstd::arithmetic::div_mod::lemma_div_multiples_vanish(u64::MAX as int, 16000);
        }
        wide as u64
    }
}

/// One full second of samples at the dictation rate measures exactly one
/// second: a buffer holding `DICTATION_SAMPLE_RATE` samples reports a
/// duration of exactly 1000 milliseconds.
pub proof fn lemma_one_second_of_samples()
    ensures
        duration_millis_spec(crate::audio_capture::DICTATION_SAMPLE_RATE as int) == 1000,
{
}

/// What the control thread should do with the current session in response
/// to one keyboard event.
#[derive(Debug, Clone, Copy, PartialEq, Eq, Structural)]
pub enum SessionCommand {
    /// Open the device and transition to `Recording`.
    BeginRecording,
    /// Stop the stream, snapshot the buffer, transition to `Processing`.
    StopAndProcess,
    /// Abandon the session: back to `Idle`, handing nothing downstream.
    CancelToIdle,
    /// The event is not legal in this state; leave the session alone.
    Ignore,
}

impl DictationState {
    /// Map one keyboard event onto the session's next command: pressing the
    /// hotkey starts a recording only from `Idle` or `Error` (a repeated
    /// press while recording or processing is ignored, which debounces
    /// rapid presses), releasing it stops only a live recording, and the
    /// cancel key resets from any state without ever reaching `Processing`.
    pub fn session_decision(&self, event: crate::keyboard_hooks::KeyboardEvent) -> (command:
        SessionCommand)
        ensures
            command == match event {
                crate::keyboard_hooks::KeyboardEvent::HotkeyDown => if self
                    .can_start_recording_spec() {
                    SessionCommand::BeginRecording
                } else {
                    SessionCommand::Ignore
                },
                crate::keyboard_hooks::KeyboardEvent::HotkeyUp => if self is Recording {
                    SessionCommand::StopAndProcess
                } else {
                    SessionCommand::Ignore
                },
                crate::keyboard_hooks::KeyboardEvent::CancelPressed => SessionCommand::CancelToIdle,
            },
    {
        match event {
            crate::keyboard_hooks::KeyboardEvent::HotkeyDown => {
                if self.can_start_recording() {
                    SessionCommand::BeginRecording
                } else {
                    SessionCommand::Ignore
                }
            },
            crate::keyboard_hooks::KeyboardEvent::HotkeyUp => {
                if self.is_recording() {
                    SessionCommand::StopAndProcess
                } else {
                    SessionCommand::Ignore
                }
            },
            crate::keyboard_hooks::KeyboardEvent::CancelPressed => SessionCommand::CancelToIdle,
        }
    }
}

} // verus!
