//! The shared capture buffer: a bounded accumulator of mono samples at the
//! fixed dictation rate, with the session's wall-clock bookkeeping.
//!
//! The buffer never exceeds its capacity: an append that would overflow it
//! fails whole, leaving the stored samples untouched. Time is handed in as an
//! explicit monotonic reading in milliseconds, so every clock-dependent answer
//! is a pure function of the reading; the shell supplies the real clock.

use vstd::prelude::*;

use crate::errors::DictationError;
use crate::meter;

verus! {

/// Sample rate of dictation audio: 16 kHz mono.
pub const DICTATION_SAMPLE_RATE: u32 = 16000;

/// Maximum recording duration: 5 minutes.
pub const MAX_RECORDING_DURATION_SECS: u64 = 300;

/// Maximum recording duration in milliseconds.
pub const MAX_RECORDING_DURATION_MILLIS: u64 = 300 * 1000;

/// Capacity for 5 minutes at 16 kHz: 16000 samples/s * 300 s.
pub const RING_BUFFER_CAPACITY: usize = 4_800_000;

/// Window for the live loudness level: 250 ms at 16 kHz.
pub const RMS_WINDOW_SIZE: usize = 4000;

/// Milliseconds of audio that `len` samples hold at the dictation rate.
pub open spec fn duration_millis_spec(len: int) -> int {
    len * 1000 / (DICTATION_SAMPLE_RATE as int)
}

/// Milliseconds elapsed from an optional starting instant to `now`, both as
/// monotonic readings; 0 before the start or when no start was recorded.
pub open spec fn elapsed_millis_spec(start: Option<u64>, now: u64) -> int {
    match start {
        Option::Some(s) => if now >= s {
            now - s
        } else {
            0
        },
        Option::None => 0,
    }
}

/// Bounded accumulator of mono 16-bit samples for one recording session.
pub struct AudioCaptureBuffer {
    samples: Vec<i16>,
    start_time_millis: Option<u64>,
}

impl AudioCaptureBuffer {
    /// The stored samples, oldest first.
    pub closed spec fn sample_seq(&self) -> Seq<i16> {
        self.samples@
    }

    /// The monotonic reading recorded when the session started, if any.
    pub closed spec fn start_time(&self) -> Option<u64> {
        self.start_time_millis
    }

    /// A fresh, empty buffer with no session start recorded.
    pub fn new() -> (buffer: Self)
        ensures
            buffer.sample_seq() == Seq::<i16>::empty(),
            buffer.start_time() is None,
    {
        AudioCaptureBuffer { samples: Vec::new(), start_time_millis: None }
    }

    /// Begin a recording session: drop any stored samples and stamp the
    /// session start with the given monotonic reading.
    pub fn start_recording(&mut self, now_millis: u64)
        ensures
            final(self).sample_seq() == Seq::<i16>::empty(),
            final(self).start_time() == Some(now_millis),
    {
        self.samples.clear();
        self.start_time_millis = Some(now_millis);
    }

    /// Append samples in order. Fails whole with `CapacityExceeded` — storing
    /// nothing — exactly when the appended length would push the buffer past
    /// `RING_BUFFER_CAPACITY`.
    pub fn append_samples(&mut self, new_samples: &[i16]) -> (result: Result<
        (),
        DictationError,
    >)
        ensures
            result is Ok <==> old(self).sample_seq().len() + new_samples@.len()
                <= RING_BUFFER_CAPACITY,
            result is Ok ==> final(self).sample_seq() == old(self).sample_seq() + new_samples@,
            result is Err ==> result == Err::<(), DictationError>(
                DictationError::CapacityExceeded,
            ) && final(self).sample_seq() == old(self).sample_seq(),
            final(self).start_time() == old(self).start_time(),
    {
        if new_samples.len() > RING_BUFFER_CAPACITY || self.samples.len() > RING_BUFFER_CAPACITY
            - new_samples.len() {
            return Err(DictationError::CapacityExceeded);
        }
        self.samples.extend_from_slice(new_samples);
        proof {
            assert(self.samples@ =~= old(self).samples@ + new_samples@);
        }
        Ok(())
    }

    /// A copy of everything stored so far, for handing to transcription.
    pub fn get_samples(&self) -> (copy: Vec<i16>)
        ensures
            copy@ == self.sample_seq(),
    {
        let copy = self.samples.clone();
        proof {
            assert forall|i: int| 0 <= i < self.samples@.len() implies copy@[i]
                == self.samples@[i] by {
                assert(cloned::<i16>(self.samples@[i], copy@[i]));
            }
            assert(copy@ =~= self.samples@);
        }
        copy
    }

    /// Number of samples stored.
    pub fn len(&self) -> (n: usize)
        ensures
            n == self.sample_seq().len(),
    {
        self.samples.len()
    }

    /// Whether no samples are stored.
    pub fn is_empty(&self) -> (empty: bool)
        ensures
            empty == (self.sample_seq().len() == 0),
    {
        self.samples.is_empty()
    }

    /// Live loudness level over the last `RMS_WINDOW_SIZE` samples, in fixed
    /// point: `meter::LEVEL_SCALE` stands for full scale 1.0, and the result
    /// always lies in `[0, LEVEL_SCALE]`; 0 when the buffer is empty.
    pub fn calculate_rms_level(&self) -> (level: u16)
        ensures
            level as int == meter::level_spec(self.sample_seq(), RMS_WINDOW_SIZE as int),
            level <= meter::LEVEL_SCALE,
            self.sample_seq().len() == 0 ==> level == 0,
    {
        meter::level_of(&self.samples, RMS_WINDOW_SIZE)
    }

    /// Wall-clock milliseconds since the session start, given the current
    /// monotonic reading; 0 when no session was started.
    pub fn recording_duration(&self, now_millis: u64) -> (elapsed: u64)
        ensures
            elapsed as int == elapsed_millis_spec(self.start_time(), now_millis),
    {
        match self.start_time_millis {
            Some(start) => if now_millis >= start {
                now_millis - start
            } else {
                0
            },
            None => 0,
        }
    }

    /// Whether the session has run for `MAX_RECORDING_DURATION_MILLIS` or
    /// longer of wall-clock time. This is deliberately a wall-clock check,
    /// distinct from `duration_millis`: a stalled ingest path keeps consuming
    /// wall-clock time without producing samples, and must still time out.
    pub fn has_exceeded_max_duration(&self, now_millis: u64) -> (exceeded: bool)
        ensures
            exceeded == (elapsed_millis_spec(self.start_time(), now_millis)
                >= MAX_RECORDING_DURATION_MILLIS),
    {
        self.recording_duration(now_millis) >= MAX_RECORDING_DURATION_MILLIS
    }

    /// Milliseconds of audio stored, derived from the sample count alone.
    /// This is the authoritative recording length: unlike the wall clock it
    /// is robust to scheduling jitter.
    pub fn duration_millis(&self) -> (millis: u64)
        ensures
            millis as int == duration_millis_spec(self.sample_seq().len() as int),
    {
        let wide: u128 = (self.samples.len() as u128) * 1000 / (DICTATION_SAMPLE_RATE as u128);
        proof {
            vstd::arithmetic::div_mod::lemma_div_is_ordered(
                self.samples@.len() as int * 1000,
                u64::MAX as int * 1000,
                16000,
            );
            vstd::arithmetic::div_mod::lemma_div_is_ordered(
                u64::MAX as int * 1000,
                u64::MAX as int * 16000,
                16000,
            );
            vstd::arithmetic::div_mod::lemma_div_multiples_vanish(
                u64::MAX as int,
                16000,
            );
        }
        wide as u64
    }

    /// Drop all samples and clear the session start.
    pub fn clear(&mut self)
        ensures
            final(self).sample_seq() == Seq::<i16>::empty(),
            final(self).start_time() is None,
    {
        self.samples.clear();
        self.start_time_millis = None;
    }
}

} // verus!
