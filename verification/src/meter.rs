//! Loudness metering over a window of 16-bit samples.
//!
//! The level is the root-mean-square of the window's samples in fixed point:
//! a result of `LEVEL_SCALE` stands for the full-scale amplitude 1.0, so the
//! level always lies in `[0, LEVEL_SCALE]`, the fixed-point image of
//! `[0.0, 1.0]`. An empty buffer or an empty window meters as exactly 0.

use vstd::prelude::*;

verus! {

/// Fixed-point scale of a loudness level: `LEVEL_SCALE` stands for 1.0,
/// the largest representable amplitude (`i16::MAX`).
pub const LEVEL_SCALE: u16 = 32767;

/// Sum of the squares of the samples in `s`.
pub open spec fn sum_squares(s: Seq<i16>) -> int
    decreases s.len(),
{
    if s.len() == 0 {
        0
    } else {
        sum_squares(s.drop_last()) + s.last() * s.last()
    }
}

pub proof fn lemma_sum_squares_bounds(s: Seq<i16>)
    ensures
        0 <= sum_squares(s) <= s.len() * 0x4000_0000,
    decreases s.len(),
{
    if s.len() > 0 {
        lemma_sum_squares_bounds(s.drop_last());
        let v = s.last() as int;
        assert(0 <= v * v <= 0x4000_0000) by (nonlinear_arith)
            requires
                -0x8000 <= v <= 0x7fff,
        ;
        assert(s.len() * 0x4000_0000 == (s.len() - 1) * 0x4000_0000 + 0x4000_0000)
            by (nonlinear_arith);
    }
}

/// The largest `r` with `r * r <= x` (0 when `x < 0`, which never arises here).
pub open spec fn isqrt_spec(x: int) -> int
    decreases x,
{
    if x < 1 {
        0
    } else {
        let r = isqrt_spec(x - 1);
        if (r + 1) * (r + 1) <= x {
            r + 1
        } else {
            r
        }
    }
}

pub proof fn lemma_isqrt_bracket(x: int)
    requires
        x >= 0,
    ensures
        0 <= isqrt_spec(x),
        isqrt_spec(x) * isqrt_spec(x) <= x,
        x < (isqrt_spec(x) + 1) * (isqrt_spec(x) + 1),
    decreases x,
{
    if x >= 1 {
        lemma_isqrt_bracket(x - 1);
        let r = isqrt_spec(x - 1);
        if (r + 1) * (r + 1) <= x {
            assert(x < ((r + 1) + 1) * ((r + 1) + 1)) by (nonlinear_arith)
                requires
                    r >= 0,
                    x - 1 < (r + 1) * (r + 1),
                    (r + 1) * (r + 1) <= x,
            ;
        }
    }
}

/// Any two nonnegative integers that both bracket `x` as its square root floor
/// are equal.
pub proof fn lemma_isqrt_unique(x: int, a: int, b: int)
    requires
        0 <= a,
        0 <= b,
        a * a <= x < (a + 1) * (a + 1),
        b * b <= x < (b + 1) * (b + 1),
    ensures
        a == b,
{
    assert(a == b) by (nonlinear_arith)
        requires
            0 <= a,
            0 <= b,
            a * a <= x < (a + 1) * (a + 1),
            b * b <= x < (b + 1) * (b + 1),
    ;
}

/// Integer square root: the floor of the square root of `x`.
pub fn isqrt(x: u64) -> (r: u64)
    ensures
        r as int == isqrt_spec(x as int),
        r * r <= x,
{
    let mut lo: u64 = 0;
    let mut hi: u64 = 0x1_0000_0000;
    proof {
        assert((0x1_0000_0000 as int) * (0x1_0000_0000 as int) > u64::MAX as int)
            by (nonlinear_arith);
    }
    while lo + 1 < hi
        invariant
            0 <= lo < hi <= 0x1_0000_0000,
            (lo as int) * (lo as int) <= x as int,
            (x as int) < (hi as int) * (hi as int),
        decreases hi - lo,
    {
        let mid = lo + (hi - lo) / 2;
        assert(lo < mid < hi);
        assert(mid * mid <= u64::MAX) by (nonlinear_arith)
            requires
                0 <= mid < 0x1_0000_0000,
        ;
        if mid * mid <= x {
            lo = mid;
        } else {
            hi = mid;
        }
    }
    proof {
        lemma_isqrt_bracket(x as int);
        lemma_isqrt_unique(x as int, lo as int, isqrt_spec(x as int));
    }
    lo
}

/// The tail window of `s` that the meter reads: the last `window` samples,
/// or all of `s` when fewer exist.
pub open spec fn level_window(s: Seq<i16>, window: int) -> Seq<i16> {
    if window >= s.len() {
        s
    } else {
        s.subrange(s.len() - window, s.len() as int)
    }
}

/// The loudness level of `s` metered over its last `window` samples, in
/// fixed point with scale `LEVEL_SCALE`: the integer square root of the
/// window's mean square, clamped to the scale. 0 for an empty window.
pub open spec fn level_spec(s: Seq<i16>, window: int) -> int {
    let w = level_window(s, window);
    if w.len() == 0 {
        0
    } else {
        let rms = isqrt_spec(sum_squares(w) / w.len() as int);
        if rms > LEVEL_SCALE as int {
            LEVEL_SCALE as int
        } else {
            rms
        }
    }
}

/// Meter the loudness of `samples` over its last `window_size` samples.
///
/// Deterministic and free of side effects; returns 0 on an empty buffer or
/// empty window, and otherwise a level in `[0, LEVEL_SCALE]`, the fixed-point
/// image of `[0.0, 1.0]`.
pub fn level_of(samples: &Vec<i16>, window_size: usize) -> (level: u16)
    ensures
        level as int == level_spec(samples@, window_size as int),
        level <= LEVEL_SCALE,
        samples@.len() == 0 || window_size == 0 ==> level == 0,
{
    let len = samples.len();
    if len == 0 || window_size == 0 {
        return 0;
    }
    let start: usize = if window_size >= len {
        0
    } else {
        len - window_size
    };
    let ghost w = level_window(samples@, window_size as int);
    proof {
        assert(w =~= samples@.subrange(start as int, len as int));
    }

    let mut sum: u128 = 0;
    let mut i: usize = start;
    while i < len
        invariant
            start <= i <= len == samples@.len(),
            sum == sum_squares(samples@.subrange(start as int, i as int)),
            sum <= (i - start) * 0x4000_0000,
        decreases len - i,
    {
        let v: i64 = samples[i] as i64;
        assert(0 <= v * v <= 0x4000_0000) by (nonlinear_arith)
            requires
                -0x8000 <= v <= 0x7fff,
        ;
        proof {
            let pre = samples@.subrange(start as int, i as int);
            let post = samples@.subrange(start as int, i + 1 as int);
            assert(post.drop_last() =~= pre);
            assert(post.last() == samples@[i as int]);
            assert((i + 1 - start) * 0x4000_0000 == (i - start) * 0x4000_0000 + 0x4000_0000)
                by (nonlinear_arith);
        }
        sum = sum + (v * v) as u128;
        i = i + 1;
    }

    let n = len - start;
    proof {
        lemma_sum_squares_bounds(w);
        assert(sum == sum_squares(w));
        // mean square is at most the largest sample square
        vstd::arithmetic::div_mod::lemma_div_is_ordered(
            sum as int,
            n as int * 0x4000_0000,
            n as int,
        );
        vstd::arithmetic::div_mod::lemma_div_multiples_vanish(0x4000_0000, n as int);
        assert(sum as int / n as int <= 0x4000_0000);
    }
    let mean: u64 = (sum / n as u128) as u64;
    assert(mean as int == sum_squares(w) / (w.len() as int));
    let rms = isqrt(mean);
    if rms > LEVEL_SCALE as u64 {
        LEVEL_SCALE
    } else {
        rms as u16
    }
}

} // verus!
