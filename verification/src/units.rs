//! Fixed-point units and the scaling arithmetic shared by every stage.
//!
//! Amplitudes, gains and envelope levels are Q16 fixed-point values: the
//! integer [`ONE_Q16`] stands for 1.0. All per-sample arithmetic is exact
//! integer arithmetic, so a voice's behaviour is a pure function of its
//! state.

use vstd::prelude::*;

verus! {

/// One full amplitude in Q16 fixed point.
pub const ONE_Q16: i64 = 65536;

/// Largest per-source gain magnitude the bank represents: sixteen times
/// full amplitude. A supplied gain is clamped into `±MAX_GAIN_Q16`; a
/// negative gain inverts the source's phase.
pub const MAX_GAIN_Q16: i64 = 1048576;

/// Maximum number of sources an oscillator bank may hold.
pub const MAX_SOURCES: usize = 16;

/// Largest magnitude any sample can reach anywhere in the pipeline:
/// `MAX_SOURCES * MAX_GAIN_Q16`.
pub const MIX_BOUND: i64 = 16777216;

/// Largest magnitude a sample can reach after the filter stage, which may
/// double the mixed amplitude: `2 * MIX_BOUND`.
pub const PIPE_BOUND: i64 = 33554432;

/// Largest delay-line length the vibrato stage may allocate.
pub const MAX_DELAY_LEN: usize = 4096;

/// Longest attack or decay segment an envelope accepts, in samples.
pub const ENV_MAX_SAMPLES: u64 = 0x1_0000_0000;

/// Smallest sample rate a voice accepts (the Nyquist limit must be positive).
pub const MIN_SAMPLE_RATE: u32 = 2;

/// Largest sample rate a voice accepts.
pub const MAX_SAMPLE_RATE: u32 = 192000;

/// Smallest wavetable length.
pub const MIN_TABLE_LEN: usize = 2;

/// Largest wavetable length.
pub const MAX_TABLE_LEN: usize = 262144;

/// Scaling of a signed sample by a non-negative rational `num / den`,
/// rounding the magnitude down (truncation toward zero).
pub open spec fn spec_scale(x: int, num: int, den: int) -> int
    recommends
        num >= 0,
        den > 0,
{
    if x >= 0 {
        (x * num) / den
    } else {
        -(((-x) * num) / den)
    }
}

/// Truncating magnitudes keeps a scaling by `num <= den` below the input:
/// the result lies between 0 and `x`.
pub proof fn lemma_scale_le(x: int, num: int, den: int)
    requires
        0 <= num <= den,
        0 < den,
    ensures
        x >= 0 ==> 0 <= spec_scale(x, num, den) <= x,
        x < 0 ==> x <= spec_scale(x, num, den) <= 0,
{
    if x >= 0 {
        assert(x * num <= x * den) by (nonlinear_arith)
            requires 0 <= num <= den, x >= 0;
        assert(x * num >= 0) by (nonlinear_arith)
            requires x >= 0, num >= 0;
        assert((x * num) / den <= (x * den) / den) by (nonlinear_arith)
            requires x * num <= x * den, den > 0;
        assert((x * den) / den == x) by (nonlinear_arith)
            requires den > 0;
        assert((x * num) / den >= 0) by (nonlinear_arith)
            requires x * num >= 0, den > 0;
    } else {
        let y = -x;
        assert(y * num <= y * den) by (nonlinear_arith)
            requires 0 <= num <= den, y >= 0;
        assert(y * num >= 0) by (nonlinear_arith)
            requires y >= 0, num >= 0;
        assert((y * num) / den <= (y * den) / den) by (nonlinear_arith)
            requires y * num <= y * den, den > 0;
        assert((y * den) / den == y) by (nonlinear_arith)
            requires den > 0;
        assert((y * num) / den >= 0) by (nonlinear_arith)
            requires y * num >= 0, den > 0;
    }
}

/// The Q16 product of two signed values, truncating the magnitude toward
/// zero: `a * b / 65536`.
pub open spec fn spec_mul_q16(a: int, b: int) -> int {
    let p = a * b;
    if p >= 0 {
        p / 65536
    } else {
        -((-p) / 65536)
    }
}

/// A Q16 product of bounded factors is bounded: one factor within one
/// full amplitude keeps the product within the other factor's bound.
pub proof fn lemma_mul_q16_bound(a: int, b: int, bb: int)
    requires
        -65536 <= a <= 65536,
        -bb <= b <= bb,
        0 <= bb,
    ensures
        -bb <= spec_mul_q16(a, b) <= bb,
{
    let p = a * b;
    assert(-(65536 * bb) <= a * b <= 65536 * bb) by (nonlinear_arith)
        requires -65536 <= a <= 65536, -bb <= b <= bb, 0 <= bb;
    assert((65536 * bb) / 65536 == bb) by (nonlinear_arith);
    if p >= 0 {
        assert(p / 65536 <= (65536 * bb) / 65536) by (nonlinear_arith)
            requires 0 <= p <= 65536 * bb;
        assert(p / 65536 >= 0) by (nonlinear_arith)
            requires p >= 0;
    } else {
        assert((-p) / 65536 <= (65536 * bb) / 65536) by (nonlinear_arith)
            requires 0 <= -p <= 65536 * bb;
        assert((-p) / 65536 >= 0) by (nonlinear_arith)
            requires -p >= 0;
    }
}

/// Multiplies two signed Q16 values in exact integer arithmetic,
/// truncating the magnitude toward zero.
pub fn mul_q16(a: i64, b: i64) -> (r: i64)
    requires
        -0x100_0000_0000 <= a <= 0x100_0000_0000,
        -0x10_0000 <= b <= 0x10_0000,
    ensures
        r == spec_mul_q16(a as int, b as int),
{
    let am: u64 = if a >= 0 {
        a as u64
    } else {
        (-a) as u64
    };
    let bm: u64 = if b >= 0 {
        b as u64
    } else {
        (-b) as u64
    };
    proof {
        assert((am as int) * (bm as int) <= 0x100_0000_0000 * 0x10_0000) by (nonlinear_arith)
            requires 0 <= am <= 0x100_0000_0000, 0 <= bm <= 0x10_0000;
        assert((am as int) * (bm as int) >= 0) by (nonlinear_arith)
            requires am >= 0, bm >= 0;
        assert(((am as int) * (bm as int)) / 65536 <= (am as int) * (bm as int))
            by (nonlinear_arith)
            requires (am as int) * (bm as int) >= 0;
        assert((a as int) * (b as int) == (if (a < 0) != (b < 0) {
            -((am as int) * (bm as int))
        } else {
            (am as int) * (bm as int)
        })) by (nonlinear_arith)
            requires
                am == (if a >= 0 { a as int } else { -(a as int) }),
                bm == (if b >= 0 { b as int } else { -(b as int) });
    }
    let q: u64 = (am * bm) / 65536;
    if (a < 0) != (b < 0) {
        -(q as i64)
    } else {
        q as i64
    }
}

/// Scales `x` by the non-negative rational `num / den` in exact integer
/// arithmetic, truncating the magnitude toward zero.
pub fn scale_q16(x: i64, num: i64, den: i64) -> (r: i64)
    requires
        -0x100_0000_0000 <= x <= 0x100_0000_0000,
        0 <= num <= 0x10_0000,
        0 < den <= 0x20000,
    ensures
        r == spec_scale(x as int, num as int, den as int),
{
    if x >= 0 {
        proof {
            assert(x * num <= 0x100_0000_0000 * 0x10_0000) by (nonlinear_arith)
                requires 0 <= x <= 0x100_0000_0000, 0 <= num <= 0x10_0000;
            assert(x * num >= 0) by (nonlinear_arith)
                requires x >= 0, num >= 0;
            assert((x * num) / (den as int) <= x * num) by (nonlinear_arith)
                requires x * num >= 0, den >= 1;
        }
        let m: u64 = (x as u64) * (num as u64);
        let q: u64 = m / (den as u64);
        q as i64
    } else {
        let y: i64 = -x;
        proof {
            assert(y * num <= 0x100_0000_0000 * 0x10_0000) by (nonlinear_arith)
                requires 0 <= y <= 0x100_0000_0000, 0 <= num <= 0x10_0000;
            assert(y * num >= 0) by (nonlinear_arith)
                requires y >= 0, num >= 0;
            assert((y * num) / (den as int) <= y * num) by (nonlinear_arith)
                requires y * num >= 0, den >= 1;
        }
        let m: u64 = (y as u64) * (num as u64);
        let q: u64 = m / (den as u64);
        -(q as i64)
    }
}

/// Clamps `x` into the inclusive range `[lo, hi]`.
pub fn clamp_i64(x: i64, lo: i64, hi: i64) -> (r: i64)
    requires
        lo <= hi,
    ensures
        r == spec_clamp(x as int, lo as int, hi as int),
{
    if x < lo {
        lo
    } else if x > hi {
        hi
    } else {
        x
    }
}

/// The value of `x` clamped into `[lo, hi]`.
pub open spec fn spec_clamp(x: int, lo: int, hi: int) -> int {
    if x < lo {
        lo
    } else if x > hi {
        hi
    } else {
        x
    }
}

} // verus!
