//! The ingest path: downmix interleaved multi-channel blocks to mono and
//! decimate them from the device's source rate to the fixed dictation rate.
//!
//! The decimator keeps a fractional accumulator across blocks, scaled so all
//! arithmetic is exact: the accumulator gains `target_rate` per source frame,
//! and whenever it reaches `source_rate` — that is, whenever a whole multiple
//! of the ratio `source_rate / target_rate` has passed — it is reduced by
//! `source_rate` and the current mono frame is emitted. This is the plain
//! nearest-sample decimator, chosen for its constant per-frame cost inside
//! the audio driver's real-time callback; it applies no anti-aliasing filter.

use vstd::prelude::*;

use crate::audio_capture::DICTATION_SAMPLE_RATE;
use crate::errors::DictationError;

verus! {

/// The native sample encodings the ingest path accepts. The shell maps the
/// device's reported format onto this; anything else is `Other` and is
/// rejected before a stream is built.
#[derive(Debug, Clone, Copy, PartialEq, Eq, Structural)]
pub enum StreamSampleFormat {
    Int16,
    Int32,
    Float32,
    Other,
}

/// Truncating division, the machine semantics of averaging a signed sum.
pub open spec fn tdiv(a: int, b: int) -> int {
    if a >= 0 {
        a / b
    } else {
        -((-a) / b)
    }
}

/// Sum of the samples of one interleaved frame.
pub open spec fn frame_sum(frame: Seq<i16>) -> int
    decreases frame.len(),
{
    if frame.len() == 0 {
        0
    } else {
        frame_sum(frame.drop_last()) + frame.last()
    }
}

/// Mono value of one frame: the truncated average of its channel samples.
pub open spec fn frame_avg(frame: Seq<i16>) -> int {
    tdiv(frame_sum(frame), frame.len() as int)
}

/// The mono stream of an interleaved block: one averaged value per group of
/// `ch` consecutive samples.
pub open spec fn downmix_spec(data: Seq<i16>, ch: int) -> Seq<int> {
    Seq::new(
        (data.len() as int / ch) as nat,
        |i: int| frame_avg(data.subrange(i * ch, (i + 1) * ch)),
    )
}

/// Feed `mono` through the fractional decimator: starting from accumulator
/// `acc`, each frame adds `tgt`; when the accumulator reaches `src` it is
/// reduced by `src` and that frame is emitted. Returns the emitted frames
/// and the final accumulator.
pub open spec fn decimate_spec(mono: Seq<int>, acc: int, src: int, tgt: int) -> (Seq<int>, int)
    decreases mono.len(),
{
    if mono.len() == 0 {
        (Seq::<int>::empty(), acc)
    } else {
        let gained = acc + tgt;
        if gained >= src {
            let rest = decimate_spec(mono.drop_first(), gained - src, src, tgt);
            (seq![mono[0]] + rest.0, rest.1)
        } else {
            decimate_spec(mono.drop_first(), gained, src, tgt)
        }
    }
}

/// One step of the decimator, written out: a single mono frame either crosses
/// the source rate and is emitted, or only advances the accumulator.
pub proof fn lemma_decimate_single(x: int, acc: int, src: int, tgt: int)
    ensures
        decimate_spec(seq![x], acc, src, tgt) == if acc + tgt >= src {
            (seq![x], acc + tgt - src)
        } else {
            (Seq::<int>::empty(), acc + tgt)
        },
{
    let s = seq![x];
    assert(s.drop_first() =~= Seq::<int>::empty());
    if acc + tgt >= src {
        assert(decimate_spec(Seq::<int>::empty(), acc + tgt - src, src, tgt) == (
            Seq::<int>::empty(),
            acc + tgt - src,
        ));
        assert(seq![s[0]] + Seq::<int>::empty() =~= seq![x]);
    } else {
        assert(decimate_spec(Seq::<int>::empty(), acc + tgt, src, tgt) == (
            Seq::<int>::empty(),
            acc + tgt,
        ));
    }
}

/// Decimation distributes over concatenation of the mono stream, threading
/// the accumulator through the first part.
pub proof fn lemma_decimate_append(m1: Seq<int>, m2: Seq<int>, acc: int, src: int, tgt: int)
    ensures
        ({
            let first = decimate_spec(m1, acc, src, tgt);
            let second = decimate_spec(m2, first.1, src, tgt);
            decimate_spec(m1 + m2, acc, src, tgt) == (first.0 + second.0, second.1)
        }),
    decreases m1.len(),
{
    let first = decimate_spec(m1, acc, src, tgt);
    let second = decimate_spec(m2, first.1, src, tgt);
    if m1.len() == 0 {
        assert(m1 + m2 =~= m2);
        assert(first.0 + second.0 =~= second.0);
    } else {
        let rest1 = m1.drop_first();
        assert((m1 + m2).drop_first() =~= rest1 + m2);
        assert((m1 + m2)[0] == m1[0]);
        let gained = acc + tgt;
        if gained >= src {
            lemma_decimate_append(rest1, m2, gained - src, src, tgt);
            let restd = decimate_spec(rest1, gained - src, src, tgt);
            assert(seq![m1[0]] + (restd.0 + decimate_spec(m2, restd.1, src, tgt).0) =~= (seq![
                m1[0],
            ] + restd.0) + decimate_spec(m2, restd.1, src, tgt).0);
        } else {
            lemma_decimate_append(rest1, m2, gained, src, tgt);
        }
    }
}

/// How many frames the decimator emits: starting from a reduced accumulator,
/// feeding `n` mono frames emits exactly `(acc + n * tgt) / src` of them, and
/// leaves the accumulator at the matching remainder. The fractional
/// accumulator therefore never drifts: over any span the emission count is
/// the exact rational share of the frames.
pub proof fn lemma_decimate_count(mono: Seq<int>, acc: int, src: int, tgt: int)
    requires
        0 <= acc < src,
        0 < tgt <= src,
    ensures
        ({
            let run = decimate_spec(mono, acc, src, tgt);
            &&& run.0.len() == (acc + mono.len() * tgt) / src
            &&& run.1 == (acc + mono.len() * tgt) % src
            &&& 0 <= run.1 < src
        }),
    decreases mono.len(),
{
    let n = mono.len() as int;
    let total = acc + n * tgt;
    if mono.len() == 0 {
        vstd::arithmetic::div_mod::lemma_basic_div(acc, src);
        vstd::arithmetic::div_mod::lemma_small_mod(acc as nat, src as nat);
    } else {
        let gained = acc + tgt;
        assert(n * tgt == (n - 1) * tgt + tgt) by (nonlinear_arith);
        if gained >= src {
            lemma_decimate_count(mono.drop_first(), gained - src, src, tgt);
            let rest_total = (gained - src) + (n - 1) * tgt;
            assert(rest_total == total - src);
            vstd::arithmetic::div_mod::lemma_div_minus_one(total, src);
            vstd::arithmetic::div_mod::lemma_mod_multiples_vanish(1, total - src, src);
            assert(src * 1 + (total - src) == total);
        } else {
            lemma_decimate_count(mono.drop_first(), gained, src, tgt);
            assert(gained + (n - 1) * tgt == total);
        }
    }
}

/// Every frame the decimator emits is one of the frames it was fed: feeding
/// frames that all carry one value emits only that value.
pub proof fn lemma_decimate_constant(mono: Seq<int>, acc: int, src: int, tgt: int, value: int)
    requires
        forall|i: int| 0 <= i < mono.len() ==> mono[i] == value,
    ensures
        forall|i: int|
            0 <= i < decimate_spec(mono, acc, src, tgt).0.len() ==> #[trigger] decimate_spec(
                mono,
                acc,
                src,
                tgt,
            ).0[i] == value,
    decreases mono.len(),
{
    let run = decimate_spec(mono, acc, src, tgt);
    if mono.len() > 0 {
        let rest = mono.drop_first();
        assert(forall|i: int| 0 <= i < rest.len() ==> #[trigger] rest[i] == value);
        let gained = acc + tgt;
        if gained >= src {
            lemma_decimate_constant(rest, gained - src, src, tgt, value);
            let run_rest = decimate_spec(rest, gained - src, src, tgt);
            assert(run.0 == seq![mono[0]] + run_rest.0);
            assert forall|i: int| 0 <= i < run.0.len() implies #[trigger] run.0[i] == value by {
                if i > 0 {
                    assert(run.0[i] == run_rest.0[i - 1]);
                } else {
                    assert(run.0[0] == mono[0]);
                }
            }
        } else {
            lemma_decimate_constant(rest, gained, src, tgt, value);
            assert(run == decimate_spec(rest, gained, src, tgt));
        }
    } else {
        assert(run.0.len() == 0);
    }
}

/// Summing a frame whose samples all carry one value gives that value times
/// the channel count.
pub proof fn lemma_frame_sum_constant(value: i16, k: nat)
    ensures
        frame_sum(Seq::new(k, |i: int| value)) == k * value,
    decreases k,
{
    let s = Seq::new(k, |i: int| value);
    if k == 0 {
        assert(k * value == 0) by (nonlinear_arith)
            requires
                k == 0,
        ;
    } else {
        lemma_frame_sum_constant(value, (k - 1) as nat);
        assert(s.drop_last() =~= Seq::new((k - 1) as nat, |i: int| value));
        assert(k * value == (k - 1) * value + value) by (nonlinear_arith);
    }
}

/// Averaging a channel-identical frame returns exactly the shared value.
pub proof fn lemma_frame_avg_constant(value: i16, ch: nat)
    requires
        ch >= 1,
    ensures
        frame_avg(Seq::new(ch, |i: int| value)) == value,
{
    lemma_frame_sum_constant(value, ch);
    let sum = ch * value as int;
    if value >= 0 {
        assert(sum >= 0) by (nonlinear_arith)
            requires
                ch >= 1,
                value >= 0,
                sum == ch * value,
        ;
        vstd::arithmetic::div_mod::lemma_div_multiples_vanish(value as int, ch as int);
        assert(ch as int * value == sum);
    } else {
        assert(sum < 0) by (nonlinear_arith)
            requires
                ch >= 1,
                value < 0,
                sum == ch * value,
        ;
        assert(-sum == ch as int * (-value)) by (nonlinear_arith)
            requires
                sum == ch * value,
        ;
        vstd::arithmetic::div_mod::lemma_div_multiples_vanish(-value as int, ch as int);
    }
}

/// Downmixing a block whose samples all carry one value yields the constant
/// mono stream of that value, one frame per `ch` samples.
pub proof fn lemma_downmix_constant(value: i16, n: nat, ch: nat)
    requires
        ch >= 1,
    ensures
        downmix_spec(Seq::new(n * ch, |i: int| value), ch as int) =~= Seq::new(
            n,
            |i: int| value as int,
        ),
{
    let data = Seq::new(n * ch, |i: int| value);
    let mono = downmix_spec(data, ch as int);
    assert(n * ch as int == ch as int * n as int) by (nonlinear_arith);
    vstd::arithmetic::div_mod::lemma_div_multiples_vanish(n as int, ch as int);
    assert(mono.len() == n);
    assert forall|i: int| 0 <= i < n implies mono[i] == value as int by {
        assert(0 <= i * ch && (i + 1) * ch <= n * ch) by (nonlinear_arith)
            requires
                0 <= i < n,
                ch >= 1,
        ;
        assert((i + 1) * ch == i * ch + ch) by (nonlinear_arith);
        let frame = data.subrange(i * ch, (i + 1) * ch);
        assert(frame =~= Seq::new(ch, |j: int| value));
        lemma_frame_avg_constant(value, ch);
    }
}

/// Law: a block of `n` frames that all carry one channel-identical value,
/// fed through downmixing and decimation from a fresh accumulator, emits
/// exactly `n * tgt / src` samples, every one equal to that value. For a
/// 48 kHz stereo stream decimated to 16 kHz this keeps one frame in three,
/// unchanged.
pub proof fn lemma_constant_block_resamples_exactly(
    value: i16,
    n: nat,
    ch: nat,
    src: int,
    tgt: int,
)
    requires
        ch >= 1,
        0 < tgt <= src,
    ensures
        ({
            let run = decimate_spec(
                downmix_spec(Seq::new(n * ch, |i: int| value), ch as int),
                0,
                src,
                tgt,
            );
            &&& run.0.len() == n * tgt / src
            &&& forall|i: int| 0 <= i < run.0.len() ==> run.0[i] == value as int
        }),
{
    let mono = downmix_spec(Seq::new(n * ch, |i: int| value), ch as int);
    lemma_downmix_constant(value, n, ch);
    lemma_decimate_count(mono, 0, src, tgt);
    lemma_decimate_constant(mono, 0, src, tgt, value as int);
}

/// Stateful downmixing decimator carried across driver callbacks.
pub struct MonoResampler {
    channels: u16,
    source_rate: u32,
    acc: u64,
}

impl MonoResampler {
    /// The channel count of the incoming interleaved stream.
    pub closed spec fn channels_spec(&self) -> u16 {
        self.channels
    }

    /// The source sample rate of the incoming stream, in Hz.
    pub closed spec fn source_rate_spec(&self) -> u32 {
        self.source_rate
    }

    /// The fractional accumulator, scaled by the target rate.
    pub closed spec fn acc_spec(&self) -> u64 {
        self.acc
    }

    /// The resampler's invariant: a real channel count, a source rate no
    /// slower than the target (this is a decimator), and a reduced
    /// accumulator.
    pub open spec fn wf(&self) -> bool {
        &&& self.channels_spec() > 0
        &&& self.source_rate_spec() >= DICTATION_SAMPLE_RATE
        &&& self.acc_spec() < self.source_rate_spec()
    }

    /// Plan the ingest conversion for a stream opened with the given native
    /// format, rate and channel count. Fails with `UnsupportedFormat` exactly
    /// when the format is not one of the supported encodings, the channel
    /// count is zero, or the source rate is below the dictation rate (this
    /// decimator never upsamples).
    pub fn new(format: StreamSampleFormat, source_rate: u32, channels: u16) -> (result: Result<
        MonoResampler,
        DictationError,
    >)
        ensures
            result is Ok <==> !(format is Other) && channels > 0 && source_rate
                >= DICTATION_SAMPLE_RATE,
            result matches Ok(r) ==> r.wf() && r.channels_spec() == channels
                && r.source_rate_spec() == source_rate && r.acc_spec() == 0,
            result is Err ==> result == Err::<MonoResampler, DictationError>(
                DictationError::UnsupportedFormat,
            ),
    {
        if matches!(format, StreamSampleFormat::Other) || channels == 0 || source_rate
            < DICTATION_SAMPLE_RATE {
            return Err(DictationError::UnsupportedFormat);
        }
        Ok(MonoResampler { channels, source_rate, acc: 0 })
    }

    /// Convert one interleaved block: downmix each frame of `channels`
    /// samples to mono by truncated averaging, then keep exactly those mono
    /// frames at which the fractional accumulator crosses the source rate.
    /// The emitted samples are ready to append to the capture buffer in one
    /// call.
    pub fn process_block(&mut self, data: &[i16]) -> (out: Vec<i16>)
        requires
            old(self).wf(),
            data@.len() as int % (old(self).channels_spec() as int) == 0,
        ensures
            final(self).wf(),
            final(self).channels_spec() == old(self).channels_spec(),
            final(self).source_rate_spec() == old(self).source_rate_spec(),
            ({
                let run = decimate_spec(
                    downmix_spec(data@, old(self).channels_spec() as int),
                    old(self).acc_spec() as int,
                    old(self).source_rate_spec() as int,
                    DICTATION_SAMPLE_RATE as int,
                );
                out@.map_values(|s: i16| s as int) == run.0 && final(self).acc_spec() as int
                    == run.1
            }),
    {
        let ch: usize = self.channels as usize;
        let src: u64 = self.source_rate as u64;
        let tgt: u64 = DICTATION_SAMPLE_RATE as u64;
        let ghost acc0 = self.acc as int;
        let ghost mono = downmix_spec(data@, ch as int);

        let data_len: usize = data.len();
        let n_frames: usize = data_len / ch;
        proof {
            vstd::arithmetic::div_mod::lemma_fundamental_div_mod(data@.len() as int, ch as int);
            assert(data@.len() == ch * n_frames);
            assert(mono.len() == n_frames);
        }

        let mut acc: u64 = self.acc;
        let mut out: Vec<i16> = Vec::new();
        let mut f: usize = 0;
        while f < n_frames
            invariant
                0 < ch <= u16::MAX,
                tgt == DICTATION_SAMPLE_RATE,
                tgt <= src <= u32::MAX,
                acc < src,
                0 <= acc0 < src,
                f <= n_frames,
                data_len == data@.len(),
                data@.len() == ch * n_frames,
                mono == downmix_spec(data@, ch as int),
                mono.len() == n_frames,
                ({
                    let run = decimate_spec(
                        mono.subrange(0, f as int),
                        acc0,
                        src as int,
                        tgt as int,
                    );
                    out@.map_values(|s: i16| s as int) == run.0 && acc as int == run.1
                }),
            decreases n_frames - f,
        {
            proof {
                assert((f + 1) * ch <= n_frames * ch) by (nonlinear_arith)
                    requires
                        f + 1 <= n_frames,
                        ch > 0,
                ;
                assert(n_frames * ch == ch * n_frames) by (nonlinear_arith);
                assert((f + 1) * ch == f * ch + ch) by (nonlinear_arith);
            }
            proof {
                assert(f * ch + ch <= data_len);
            }
            let base: usize = f * ch;
            assert(base + ch <= data_len);

            // Downmix one frame: truncated average of its channel samples.
            let mut sum: i64 = 0;
            let mut c: usize = 0;
            while c < ch
                invariant
                    0 < ch <= 0x1_0000,
                    c <= ch,
                    data_len == data@.len(),
                    base + ch <= data_len,
                    sum == frame_sum(data@.subrange(base as int, base + c as int)),
                    -0x8000 * c <= sum <= 0x7fff * c,
                decreases ch - c,
            {
                proof {
                    let pre = data@.subrange(base as int, base + c as int);
                    let post = data@.subrange(base as int, base + (c + 1) as int);
                    assert(post.drop_last() =~= pre);
                    assert(post.last() == data@[base + c as int]);
                }
                sum = sum + data[base + c] as i64;
                c = c + 1;
            }

            let ghost frame = data@.subrange(base as int, base + ch as int);
            let avg: i64 = if sum >= 0 {
                proof {
                    vstd::arithmetic::div_mod::lemma_div_is_ordered(
                        sum as int,
                        0x7fff * ch as int,
                        ch as int,
                    );
                    vstd::arithmetic::div_mod::lemma_div_multiples_vanish(0x7fff, ch as int);
                }
                ((sum as u64) / (ch as u64)) as i64
            } else {
                proof {
                    vstd::arithmetic::div_mod::lemma_div_is_ordered(
                        -sum as int,
                        0x8000 * ch as int,
                        ch as int,
                    );
                    vstd::arithmetic::div_mod::lemma_div_multiples_vanish(0x8000, ch as int);
                }
                -((((-sum) as u64) / (ch as u64)) as i64)
            };
            proof {
                assert(avg == frame_avg(frame));
                assert(-0x8000 <= avg <= 0x7fff);
                assert(mono[f as int] == frame_avg(frame));
            }

            // Advance the fractional accumulator and emit on crossing.
            let ghost acc_before = acc as int;
            let ghost out_before = out@;
            acc = acc + tgt;
            let emitted: bool = acc >= src;
            if emitted {
                acc = acc - src;
                out.push(avg as i16);
            }

            proof {
                let pre = mono.subrange(0, f as int);
                let step = seq![mono[f as int]];
                assert(mono.subrange(0, f + 1 as int) =~= pre + step);
                lemma_decimate_append(pre, step, acc0, src as int, tgt as int);
                let run_pre = decimate_spec(pre, acc0, src as int, tgt as int);
                assert(run_pre.1 == acc_before);
                lemma_decimate_single(mono[f as int], acc_before, src as int, tgt as int);
                let run_step = decimate_spec(step, run_pre.1, src as int, tgt as int);
                if emitted {
                    assert(out@ == out_before.push(avg as i16));
                    assert((avg as i16) as int == mono[f as int]);
                    assert(out@.map_values(|s: i16| s as int) =~= run_pre.0 + run_step.0);
                } else {
                    assert(out@.map_values(|s: i16| s as int) =~= run_pre.0 + run_step.0);
                }
                assert(decimate_spec(mono.subrange(0, f + 1 as int), acc0, src as int, tgt as int)
                    == (run_pre.0 + run_step.0, run_step.1));
            }
            f = f + 1;
        }
        proof {
            assert(mono.subrange(0, n_frames as int) =~= mono);
        }
        self.acc = acc;
        out
    }
}

} // verus!
