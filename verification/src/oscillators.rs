//! Wavetable oscillator sources and the oscillator bank that mixes them.
//!
//! A [`WaveTableOscillator`] walks a fixed-point phase through a wavetable
//! whose contents are determined by its [`Oscillator`] waveform kind. A
//! [`MultiOscillator`] owns an ordered bank of such sources, mixes one
//! sample from each per pull, and supports index-addressed mutation.

use vstd::prelude::*;

use crate::errors::SynthError;
use crate::units::{
    clamp_i64, mul_q16, spec_clamp, spec_mul_q16, MAX_GAIN_Q16, MAX_SAMPLE_RATE, MAX_SOURCES,
    MAX_TABLE_LEN, MIN_SAMPLE_RATE, MIN_TABLE_LEN, MIX_BOUND, ONE_Q16,
};

verus! {

/// Periodic waveform kinds a source can generate.
#[derive(Clone, Copy, PartialEq, Eq, Structural, Debug)]
pub enum Oscillator {
    /// Smooth wave built from two parabolic arcs (a sine approximation).
    Sine,
    /// Full amplitude for the first half period, negative for the second.
    Square,
    /// Ramp from negative to positive full amplitude over one period.
    Sawtooth,
    /// Linear rise for the first half period, linear fall for the second.
    Triangle,
}

/// Value of the Q16 ratio `2^(b/12)` for one octave of semitone steps.
pub open spec fn spec_semi_ratio_q16(b: int) -> int {
    if b == 0 {
        65536
    } else if b == 1 {
        69433
    } else if b == 2 {
        73562
    } else if b == 3 {
        77936
    } else if b == 4 {
        82570
    } else if b == 5 {
        87480
    } else if b == 6 {
        92682
    } else if b == 7 {
        98193
    } else if b == 8 {
        104032
    } else if b == 9 {
        110218
    } else if b == 10 {
        116772
    } else {
        123715
    }
}

/// Two to the power `a`, for the small octave counts detune can reach.
pub open spec fn spec_pow2(a: int) -> int {
    if a <= 0 {
        1
    } else if a == 1 {
        2
    } else if a == 2 {
        4
    } else if a == 3 {
        8
    } else if a == 4 {
        16
    } else if a == 5 {
        32
    } else if a == 6 {
        64
    } else if a == 7 {
        128
    } else if a == 8 {
        256
    } else if a == 9 {
        512
    } else {
        1024
    }
}

/// The sample a wavetable of length `len` holds at index `i` for waveform
/// `kind`, clamped into one full amplitude either way.
pub open spec fn spec_table_value(kind: Oscillator, i: int, len: int) -> int
    recommends
        0 <= i < len,
        2 <= len,
{
    let raw = match kind {
        Oscillator::Square => if 2 * i < len {
            65536
        } else {
            -65536
        },
        Oscillator::Sawtooth => -65536 + (131072 * i) / len,
        Oscillator::Triangle => if 2 * i < len {
            -65536 + (262144 * i) / len
        } else {
            196608 - (262144 * i) / len
        },
        Oscillator::Sine => {
            let half = len / 2;
            if i < half {
                ((262144 * i) * (half - i)) / (half * half)
            } else {
                let j = i - half;
                let half2 = len - half;
                -(((262144 * j) * (half2 - j)) / (half2 * half2))
            }
        },
    };
    spec_clamp(raw, -65536, 65536)
}

/// The whole wavetable for waveform `kind` at length `len`.
pub open spec fn spec_wave_table(kind: Oscillator, len: int) -> Seq<i64> {
    Seq::new(len as nat, |i: int| spec_table_value(kind, i, len) as i64)
}

/// Computes one wavetable entry in exact integer arithmetic.
fn table_value_at(kind: Oscillator, i: usize, len: usize) -> (v: i64)
    requires
        i < len,
        MIN_TABLE_LEN <= len <= MAX_TABLE_LEN,
    ensures
        v == spec_table_value(kind, i as int, len as int),
        -65536 <= v <= 65536,
{
    let iu: u64 = i as u64;
    let lenu: u64 = len as u64;
    let raw: i64 = match kind {
        Oscillator::Square => {
            if 2 * iu < lenu {
                65536
            } else {
                -65536
            }
        },
        Oscillator::Sawtooth => {
            proof {
                assert(131072 * (i as int) <= 131072 * (len as int)) by (nonlinear_arith)
                    requires i <= len;
                assert((131072 * (i as int)) / (len as int) <= (131072 * (len as int)) / (len as int))
                    by (nonlinear_arith)
                    requires 131072 * (i as int) <= 131072 * (len as int), len > 0;
                assert((131072 * (len as int)) / (len as int) == 131072) by (nonlinear_arith)
                    requires len > 0;
                assert(131072 * (i as int) >= 0) by (nonlinear_arith)
                    requires i >= 0;
                assert((131072 * (i as int)) / (len as int) >= 0) by (nonlinear_arith)
                    requires 131072 * (i as int) >= 0, len > 0;
            }
            let q: u64 = (131072 * iu) / lenu;
            -65536 + (q as i64)
        },
        Oscillator::Triangle => {
            proof {
                assert(262144 * (i as int) <= 262144 * (len as int)) by (nonlinear_arith)
                    requires i <= len;
                assert((262144 * (i as int)) / (len as int) <= (262144 * (len as int)) / (len as int))
                    by (nonlinear_arith)
                    requires 262144 * (i as int) <= 262144 * (len as int), len > 0;
                assert((262144 * (len as int)) / (len as int) == 262144) by (nonlinear_arith)
                    requires len > 0;
                assert(262144 * (i as int) >= 0) by (nonlinear_arith)
                    requires i >= 0;
                assert((262144 * (i as int)) / (len as int) >= 0) by (nonlinear_arith)
                    requires 262144 * (i as int) >= 0, len > 0;
            }
            let q: u64 = (262144 * iu) / lenu;
            if 2 * iu < lenu {
                -65536 + (q as i64)
            } else {
                196608 - (q as i64)
            }
        },
        Oscillator::Sine => {
            let half: u64 = lenu / 2;
            if iu < half {
                proof {
                    assert(262144 * (i as int) <= 262144 * 0x40000) by (nonlinear_arith)
                        requires i <= 0x40000;
                    assert((262144 * (i as int)) * (half as int - i) <= (262144 * 0x40000) * 0x40000)
                        by (nonlinear_arith)
                        requires
                            0 <= 262144 * (i as int) <= 262144 * 0x40000,
                            0 <= half as int - i <= 0x40000;
                    assert((half as int) * (half as int) <= 0x40000 * 0x40000) by (nonlinear_arith)
                        requires 0 <= half <= 0x40000;
                    assert((262144 * (i as int)) * (half as int - i) >= 0) by (nonlinear_arith)
                        requires 262144 * (i as int) >= 0, half as int - i >= 0;
                    assert((half as int) * (half as int) >= 1) by (nonlinear_arith)
                        requires half >= 1;
                    assert(((262144 * (i as int)) * (half as int - i)) / ((half as int) * (half as int))
                        <= (262144 * (i as int)) * (half as int - i)) by (nonlinear_arith)
                        requires
                            (262144 * (i as int)) * (half as int - i) >= 0,
                            (half as int) * (half as int) >= 1;
                    assert(((262144 * (i as int)) * (half as int - i)) / ((half as int) * (half as int)) >= 0)
                        by (nonlinear_arith)
                        requires
                            (262144 * (i as int)) * (half as int - i) >= 0,
                            (half as int) * (half as int) >= 1;
                }
                let q: u64 = ((262144 * iu) * (half - iu)) / (half * half);
                q as i64
            } else {
                let j: u64 = iu - half;
                let half2: u64 = lenu - half;
                proof {
                    assert(262144 * (j as int) <= 262144 * 0x40000) by (nonlinear_arith)
                        requires j <= 0x40000;
                    assert((262144 * (j as int)) * (half2 as int - j) <= (262144 * 0x40000) * 0x40000)
                        by (nonlinear_arith)
                        requires
                            0 <= 262144 * (j as int) <= 262144 * 0x40000,
                            0 <= half2 as int - j <= 0x40000;
                    assert((half2 as int) * (half2 as int) <= 0x40000 * 0x40000) by (nonlinear_arith)
                        requires 0 <= half2 <= 0x40000;
                    assert((262144 * (j as int)) * (half2 as int - j) >= 0) by (nonlinear_arith)
                        requires 262144 * (j as int) >= 0, half2 as int - j >= 0;
                    assert((half2 as int) * (half2 as int) >= 1) by (nonlinear_arith)
                        requires half2 >= 1;
                    assert(((262144 * (j as int)) * (half2 as int - j)) / ((half2 as int) * (half2 as int))
                        <= (262144 * (j as int)) * (half2 as int - j)) by (nonlinear_arith)
                        requires
                            (262144 * (j as int)) * (half2 as int - j) >= 0,
                            (half2 as int) * (half2 as int) >= 1;
                    assert(((262144 * (j as int)) * (half2 as int - j)) / ((half2 as int) * (half2 as int)) >= 0)
                        by (nonlinear_arith)
                        requires
                            (262144 * (j as int)) * (half2 as int - j) >= 0,
                            (half2 as int) * (half2 as int) >= 1;
                }
                let q: u64 = ((262144 * j) * (half2 - j)) / (half2 * half2);
                -(q as i64)
            }
        },
    };
    clamp_i64(raw, -65536, 65536)
}

/// Builds the whole wavetable for waveform `kind` at length `len`.
fn build_wave_table(kind: Oscillator, len: usize) -> (table: Vec<i64>)
    requires
        MIN_TABLE_LEN <= len <= MAX_TABLE_LEN,
    ensures
        table@ == spec_wave_table(kind, len as int),
        table@.len() == len,
{
    let mut table: Vec<i64> = Vec::new();
    let mut i: usize = 0;
    while i < len
        invariant
            i <= len,
            MIN_TABLE_LEN <= len <= MAX_TABLE_LEN,
            table@.len() == i,
            forall|j: int| 0 <= j < i ==> table@[j] == spec_table_value(kind, j, len as int),
        decreases len - i,
    {
        let v: i64 = table_value_at(kind, i, len);
        table.push(v);
        i = i + 1;
    }
    proof {
        assert(table@ =~= spec_wave_table(kind, len as int));
    }
    table
}

/// One periodic waveform source: a wavetable, a fixed-point phase into it,
/// a gain, a frequency and a per-source detune.
#[derive(Clone, Debug)]
pub struct WaveTableOscillator {
    /// The waveform kind the wavetable was built for.
    pub waveform: Oscillator,
    /// Samples per second; shared with every stage of the owning voice.
    pub sample_rate: u32,
    /// The waveform, one full period, in Q16 amplitudes.
    pub table: Vec<i64>,
    /// Current position in the table, in Q16 table indices.
    pub phase_q16: u64,
    /// Output gain in Q16.
    pub gain_q16: i64,
    /// Current frequency in whole hertz.
    pub frequency_hz: u32,
    /// Detune applied by a bank-wide retune, in semitones.
    pub detune_semitones: i8,
}

impl WaveTableOscillator {
    /// Structural soundness: bounded rates and gain, a phase inside the
    /// table, and a table that matches the waveform kind.
    pub open spec fn wf(self) -> bool {
        &&& MIN_SAMPLE_RATE <= self.sample_rate <= MAX_SAMPLE_RATE
        &&& MIN_TABLE_LEN <= self.table@.len() <= MAX_TABLE_LEN
        &&& self.table@ == spec_wave_table(self.waveform, self.table@.len() as int)
        &&& self.phase_q16 < self.table@.len() * 65536
        &&& -MAX_GAIN_Q16 <= self.gain_q16 <= MAX_GAIN_Q16
        &&& 1 <= self.frequency_hz <= self.sample_rate / 2
    }

    /// The sample this source yields at its current phase: the table entry
    /// under the phase, scaled by the gain (a negative gain inverts the
    /// phase).
    pub open spec fn spec_output(self) -> int {
        spec_mul_q16(
            self.table@[(self.phase_q16 as int) / 65536] as int,
            self.gain_q16 as int,
        )
    }

    /// How far the phase moves per sample, in Q16 table indices.
    pub open spec fn spec_phase_inc(self) -> int {
        ((self.table@.len() * self.frequency_hz) * 65536) / (self.sample_rate as int)
    }

    /// The phase after one sample, wrapped around the table.
    pub open spec fn spec_next_phase(self) -> int {
        (self.phase_q16 + self.spec_phase_inc()) % (self.table@.len() as int * 65536)
    }

    /// Everything but the phase agrees between `pre` and `post`.
    pub open spec fn same_config(pre: Self, post: Self) -> bool {
        &&& post.waveform == pre.waveform
        &&& post.sample_rate == pre.sample_rate
        &&& post.table@ == pre.table@
        &&& post.gain_q16 == pre.gain_q16
        &&& post.frequency_hz == pre.frequency_hz
        &&& post.detune_semitones == pre.detune_semitones
    }

    /// `post` is `pre` advanced by exactly one sample pull.
    pub open spec fn is_step_of(post: Self, pre: Self) -> bool {
        &&& Self::same_config(pre, post)
        &&& post.phase_q16 == pre.spec_next_phase()
    }

    /// Creates a source at phase zero with a freshly built wavetable.
    pub fn new(
        sample_rate: u32,
        table_size: usize,
        waveform: Oscillator,
        gain_q16: i64,
        frequency_hz: u32,
    ) -> (r: Self)
        requires
            MIN_SAMPLE_RATE <= sample_rate <= MAX_SAMPLE_RATE,
            MIN_TABLE_LEN <= table_size <= MAX_TABLE_LEN,
            -MAX_GAIN_Q16 <= gain_q16 <= MAX_GAIN_Q16,
            1 <= frequency_hz <= sample_rate / 2,
        ensures
            r.wf(),
            r.waveform == waveform,
            r.sample_rate == sample_rate,
            r.table@.len() == table_size,
            r.phase_q16 == 0,
            r.gain_q16 == gain_q16,
            r.frequency_hz == frequency_hz,
            r.detune_semitones == 0i8,
    {
        let table: Vec<i64> = build_wave_table(waveform, table_size);
        WaveTableOscillator {
            waveform,
            sample_rate,
            table,
            phase_q16: 0,
            gain_q16,
            frequency_hz,
            detune_semitones: 0,
        }
    }

    /// Yields the sample at the current phase and advances the phase by one
    /// sample's worth of the current frequency.
    pub fn get_sample(&mut self) -> (r: i64)
        requires
            old(self).wf(),
        ensures
            final(self).wf(),
            r == old(self).spec_output(),
            -MAX_GAIN_Q16 <= r <= MAX_GAIN_Q16,
            Self::is_step_of(*final(self), *old(self)),
    {
        proof {
            assert((self.phase_q16 as int) / 65536 < self.table@.len() as int) by (nonlinear_arith)
                requires self.phase_q16 < self.table@.len() * 65536;
            assert(self.table@ == spec_wave_table(self.waveform, self.table@.len() as int));
            assert(self.table@[(self.phase_q16 as int) / 65536]
                == spec_table_value(self.waveform, (self.phase_q16 as int) / 65536, self.table@.len() as int) as i64);
            crate::units::lemma_mul_q16_bound(
                self.table@[(self.phase_q16 as int) / 65536] as int,
                self.gain_q16 as int,
                MAX_GAIN_Q16 as int,
            );
        }
        let idx: usize = (self.phase_q16 / 65536) as usize;
        let raw: i64 = self.table[idx];
        let r: i64 = mul_q16(raw, self.gain_q16);
        let lenu: u64 = self.table.len() as u64;
        proof {
            assert((lenu as int) * (self.frequency_hz as int) <= 0x40000 * 96000) by (nonlinear_arith)
                requires lenu <= 0x40000, self.frequency_hz <= 96000;
            assert((lenu as int) * (self.frequency_hz as int) >= 0) by (nonlinear_arith)
                requires lenu >= 0, self.frequency_hz >= 0;
            assert(((lenu as int) * (self.frequency_hz as int) * 65536) / (self.sample_rate as int)
                <= (lenu as int) * (self.frequency_hz as int) * 65536) by (nonlinear_arith)
                requires
                    (lenu as int) * (self.frequency_hz as int) * 65536 >= 0,
                    self.sample_rate >= 1;
            assert((lenu as int) * 65536 <= 0x40000 * 65536) by (nonlinear_arith)
                requires lenu <= 0x40000;
        }
        let inc: u64 = ((lenu * (self.frequency_hz as u64)) * 65536) / (self.sample_rate as u64);
        let modulus: u64 = lenu * 65536;
        self.phase_q16 = (self.phase_q16 + inc) % modulus;
        r
    }

    /// Retunes this source. Fails with `ValidationError` exactly when the
    /// frequency is zero or above the Nyquist limit; on failure nothing
    /// changes.
    pub fn set_frequency(&mut self, frequency_hz: u32) -> (r: Result<(), SynthError>)
        requires
            old(self).wf(),
        ensures
            final(self).wf(),
            (frequency_hz == 0 || frequency_hz > old(self).sample_rate / 2)
                <==> (r is Err && r == Result::<(), SynthError>::Err(SynthError::ValidationError)),
            (1 <= frequency_hz <= old(self).sample_rate / 2) <==> r is Ok,
            r is Err ==> *final(self) == *old(self),
            r is Ok ==> final(self).frequency_hz == frequency_hz,
            r is Ok ==> final(self).phase_q16 == old(self).phase_q16,
            r is Ok ==> final(self).waveform == old(self).waveform,
            r is Ok ==> final(self).table@ == old(self).table@,
            r is Ok ==> final(self).gain_q16 == old(self).gain_q16,
            r is Ok ==> final(self).sample_rate == old(self).sample_rate,
            r is Ok ==> final(self).detune_semitones == old(self).detune_semitones,
    {
        if frequency_hz == 0 || frequency_hz > self.sample_rate / 2 {
            Err(SynthError::ValidationError)
        } else {
            self.frequency_hz = frequency_hz;
            Ok(())
        }
    }

    /// Swaps the waveform generator, rebuilding the table at the same
    /// length while preserving phase, gain, frequency and detune.
    pub fn set_waveform(&mut self, waveform: Oscillator)
        requires
            old(self).wf(),
        ensures
            final(self).wf(),
            final(self).waveform == waveform,
            final(self).table@ == spec_wave_table(waveform, old(self).table@.len() as int),
            final(self).table@.len() == old(self).table@.len(),
            final(self).phase_q16 == old(self).phase_q16,
            final(self).gain_q16 == old(self).gain_q16,
            final(self).frequency_hz == old(self).frequency_hz,
            final(self).sample_rate == old(self).sample_rate,
            final(self).detune_semitones == old(self).detune_semitones,
    {
        let len: usize = self.table.len();
        self.table = build_wave_table(waveform, len);
        self.waveform = waveform;
    }

    /// Retunes without validation; the caller guarantees the range.
    fn retune(&mut self, frequency_hz: u32)
        requires
            old(self).wf(),
            1 <= frequency_hz <= old(self).sample_rate / 2,
        ensures
            final(self).wf(),
            Self::is_retune_of(*final(self), *old(self), frequency_hz as int),
    {
        self.frequency_hz = frequency_hz;
    }

    /// `post` is `pre` with only the frequency changed to `hz`.
    pub open spec fn is_retune_of(post: Self, pre: Self, hz: int) -> bool {
        &&& post.waveform == pre.waveform
        &&& post.sample_rate == pre.sample_rate
        &&& post.table@ == pre.table@
        &&& post.phase_q16 == pre.phase_q16
        &&& post.gain_q16 == pre.gain_q16
        &&& post.detune_semitones == pre.detune_semitones
        &&& post.frequency_hz == hz
    }

    /// A well-formed source's sample never exceeds its gain in magnitude.
    pub proof fn lemma_output_bound(self)
        requires
            self.wf(),
        ensures
            -MAX_GAIN_Q16 <= self.spec_output() <= MAX_GAIN_Q16,
    {
        assert((self.phase_q16 as int) / 65536 < self.table@.len() as int) by (nonlinear_arith)
            requires self.phase_q16 < self.table@.len() * 65536;
        assert(self.table@[(self.phase_q16 as int) / 65536]
            == spec_table_value(self.waveform, (self.phase_q16 as int) / 65536, self.table@.len() as int) as i64);
        crate::units::lemma_mul_q16_bound(
            self.table@[(self.phase_q16 as int) / 65536] as int,
            self.gain_q16 as int,
            MAX_GAIN_Q16 as int,
        );
    }
}

/// The base frequency `base` detuned by `st` semitones in Q16 arithmetic
/// and clamped into `[1, nyquist]`: the frequency a bank-wide retune gives
/// a source whose detune is `st`.
pub open spec fn spec_detuned_hz(base: int, st: int, nyquist: int) -> int {
    let raw = if st >= 0 {
        ((base * spec_semi_ratio_q16(st % 12)) * spec_pow2(st / 12)) / 65536
    } else {
        let n = -st;
        if n % 12 == 0 {
            base / spec_pow2(n / 12)
        } else {
            (base * spec_semi_ratio_q16(12 - n % 12)) / (131072 * spec_pow2(n / 12))
        }
    };
    spec_clamp(raw, 1, nyquist)
}

/// Two to the power `a` for octave shifts.
fn pow2_small(a: u32) -> (r: u64)
    requires
        a <= 10,
    ensures
        r == spec_pow2(a as int),
        1 <= r <= 1024,
{
    if a == 0 {
        1
    } else if a == 1 {
        2
    } else if a == 2 {
        4
    } else if a == 3 {
        8
    } else if a == 4 {
        16
    } else if a == 5 {
        32
    } else if a == 6 {
        64
    } else if a == 7 {
        128
    } else if a == 8 {
        256
    } else if a == 9 {
        512
    } else {
        1024
    }
}

/// The Q16 ratio `2^(b/12)` for one octave of semitone steps.
fn semi_ratio_q16(b: u32) -> (r: u64)
    requires
        b < 12,
    ensures
        r == spec_semi_ratio_q16(b as int),
        65536 <= r <= 123715,
{
    if b == 0 {
        65536
    } else if b == 1 {
        69433
    } else if b == 2 {
        73562
    } else if b == 3 {
        77936
    } else if b == 4 {
        82570
    } else if b == 5 {
        87480
    } else if b == 6 {
        92682
    } else if b == 7 {
        98193
    } else if b == 8 {
        104032
    } else if b == 9 {
        110218
    } else if b == 10 {
        116772
    } else {
        123715
    }
}

/// Applies a per-source detune to a base frequency, clamping the result
/// into the valid range `[1, nyquist]`.
pub fn detuned_hz(base: u32, detune_semitones: i8, nyquist: u32) -> (r: u32)
    requires
        1 <= base <= 96000,
        1 <= nyquist <= 96000,
    ensures
        r == spec_detuned_hz(base as int, detune_semitones as int, nyquist as int),
        1 <= r <= nyquist,
{
    let st: i32 = detune_semitones as i32;
    let raw: u64 = if st >= 0 {
        let a: u32 = (st as u32) / 12;
        let b: u32 = (st as u32) % 12;
        let p: u64 = pow2_small(a);
        let ratio: u64 = semi_ratio_q16(b);
        proof {
            assert((base as int) * (ratio as int) <= 96000 * 123715) by (nonlinear_arith)
                requires 1 <= base <= 96000, 0 <= ratio <= 123715;
            assert((base as int) * (ratio as int) >= 0) by (nonlinear_arith)
                requires base >= 0, ratio >= 0;
            assert(((base as int) * (ratio as int)) * (p as int) <= (96000 * 123715) * 1024)
                by (nonlinear_arith)
                requires 0 <= (base as int) * (ratio as int) <= 96000 * 123715, 0 <= p <= 1024;
        }
        let m: u64 = ((base as u64) * ratio) * p;
        m / 65536
    } else {
        let n: u32 = (-st) as u32;
        let a: u32 = n / 12;
        let b: u32 = n % 12;
        let p: u64 = pow2_small(a);
        if b == 0 {
            (base as u64) / p
        } else {
            let ratio: u64 = semi_ratio_q16(12 - b);
            proof {
                assert((base as int) * (ratio as int) <= 96000 * 123715) by (nonlinear_arith)
                    requires 1 <= base <= 96000, 0 <= ratio <= 123715;
                assert((base as int) * (ratio as int) >= 0) by (nonlinear_arith)
                    requires base >= 0, ratio >= 0;
            }
            let m: u64 = (base as u64) * ratio;
            m / (131072 * p)
        }
    };
    let clamped: u64 = if raw < 1 {
        1
    } else if raw > nyquist as u64 {
        nyquist as u64
    } else {
        raw
    };
    clamped as u32
}

/// An ordered bank of oscillator sources sharing one sample rate.
/// Insertion order is mix order; mixing sums every source's sample.
#[derive(Clone, Debug)]
pub struct MultiOscillator {
    /// Samples per second, shared by every source in the bank.
    pub sample_rate: u32,
    /// The sources, addressed by index for mutation.
    pub sources: Vec<WaveTableOscillator>,
}

impl MultiOscillator {
    /// Structural soundness: a bounded bank of well-formed sources, all on
    /// this bank's sample rate.
    pub open spec fn wf(self) -> bool {
        &&& MIN_SAMPLE_RATE <= self.sample_rate <= MAX_SAMPLE_RATE
        &&& self.sources@.len() <= MAX_SOURCES
        &&& forall|j: int|
            0 <= j < self.sources@.len() ==> (#[trigger] self.sources@[j]).wf()
        &&& forall|j: int|
            0 <= j < self.sources@.len() ==> (#[trigger] self.sources@[j]).sample_rate
                == self.sample_rate
    }

    /// The mixed sample of a bank state: the sum of every source's sample.
    /// An empty bank mixes to silence.
    pub open spec fn spec_mix(s: Seq<WaveTableOscillator>) -> int
        decreases s.len(),
    {
        if s.len() == 0 {
            0
        } else {
            Self::spec_mix(s.drop_last()) + s.last().spec_output()
        }
    }

    /// An empty bank at the given sample rate.
    pub fn new(sample_rate: u32) -> (r: Self)
        requires
            MIN_SAMPLE_RATE <= sample_rate <= MAX_SAMPLE_RATE,
        ensures
            r.wf(),
            r.sample_rate == sample_rate,
            r.sources@.len() == 0,
    {
        MultiOscillator { sample_rate, sources: Vec::new() }
    }

    /// How many sources the bank currently holds.
    pub fn num_sources(&self) -> (r: usize)
        ensures
            r == self.sources@.len(),
    {
        self.sources.len()
    }

    /// Pulls one sample from every source in order and returns their sum.
    /// Defined for zero sources: the mix is then silence.
    pub fn get_sample(&mut self) -> (r: i64)
        requires
            old(self).wf(),
        ensures
            final(self).wf(),
            r == Self::spec_mix(old(self).sources@),
            -MIX_BOUND <= r <= MIX_BOUND,
            final(self).sample_rate == old(self).sample_rate,
            final(self).sources@.len() == old(self).sources@.len(),
            forall|j: int|
                0 <= j < old(self).sources@.len() ==> WaveTableOscillator::is_step_of(
                    #[trigger] final(self).sources@[j],
                    old(self).sources@[j],
                ),
    {
        let ghost orig = *self;
        let n: usize = self.sources.len();
        let mut acc: i64 = 0;
        let mut i: usize = 0;
        while i < n
            invariant
                i <= n,
                n == self.sources@.len(),
                n <= MAX_SOURCES,
                orig.wf(),
                n == orig.sources@.len(),
                self.sample_rate == orig.sample_rate,
                forall|j: int|
                    i <= j < n ==> #[trigger] self.sources@[j] == orig.sources@[j],
                forall|j: int|
                    0 <= j < i ==> WaveTableOscillator::is_step_of(
                        #[trigger] self.sources@[j],
                        orig.sources@[j],
                    ),
                forall|j: int| 0 <= j < i ==> (#[trigger] self.sources@[j]).wf(),
                acc == Self::spec_mix(orig.sources@.take(i as int)),
                -(i * MAX_GAIN_Q16) <= acc <= i * MAX_GAIN_Q16,
            decreases n - i,
        {
            proof {
                orig.sources@[i as int].lemma_output_bound();
            }
            let s: i64 = self.sources[i].get_sample();
            proof {
                assert(orig.sources@.take(i + 1).drop_last() =~= orig.sources@.take(i as int));
                assert(orig.sources@.take(i + 1).last() == orig.sources@[i as int]);
            }
            acc = acc + s;
            i = i + 1;
        }
        proof {
            assert(orig.sources@.take(n as int) =~= orig.sources@);
        }
        acc
    }

    /// Appends a source at the end of the mix order. Fails with
    /// `CapacityError` exactly when the bank is full; nothing changes then.
    pub fn push(&mut self, oscillator: WaveTableOscillator) -> (r: Result<(), SynthError>)
        requires
            old(self).wf(),
            oscillator.wf(),
            oscillator.sample_rate == old(self).sample_rate,
        ensures
            final(self).wf(),
            final(self).sample_rate == old(self).sample_rate,
            (old(self).sources@.len() == MAX_SOURCES) <==> (r == Result::<(), SynthError>::Err(
                SynthError::CapacityError,
            )),
            (old(self).sources@.len() < MAX_SOURCES) <==> r is Ok,
            r is Err ==> final(self).sources@ == old(self).sources@,
            r is Ok ==> final(self).sources@ == old(self).sources@.push(oscillator),
    {
        if self.sources.len() == MAX_SOURCES {
            Err(SynthError::CapacityError)
        } else {
            self.sources.push(oscillator);
            Ok(())
        }
    }

    /// Removes the source at `index` and returns ownership of it to the
    /// caller; later sources shift down by one. Fails with `IndexError`
    /// exactly when `index` is out of bounds; the bank may become empty.
    pub fn remove(&mut self, index: usize) -> (r: Result<WaveTableOscillator, SynthError>)
        requires
            old(self).wf(),
        ensures
            final(self).wf(),
            final(self).sample_rate == old(self).sample_rate,
            (index >= old(self).sources@.len()) <==> (r is Err),
            r is Err ==> r == Result::<WaveTableOscillator, SynthError>::Err(
                SynthError::IndexError,
            ) && final(self).sources@ == old(self).sources@,
            r is Ok ==> r == Result::<WaveTableOscillator, SynthError>::Ok(
                old(self).sources@[index as int],
            ),
            r is Ok ==> final(self).sources@ == old(self).sources@.remove(index as int),
            r is Ok ==> final(self).sources@.len() == old(self).sources@.len() - 1,
            r is Ok ==> forall|j: int|
                0 <= j < index ==> #[trigger] final(self).sources@[j] == old(self).sources@[j],
            r is Ok ==> forall|j: int|
                index <= j < final(self).sources@.len() ==> #[trigger] final(self).sources@[j]
                    == old(self).sources@[j + 1],
    {
        if index >= self.sources.len() {
            Err(SynthError::IndexError)
        } else {
            let removed: WaveTableOscillator = self.sources.remove(index);
            Ok(removed)
        }
    }

    /// Replaces the waveform of the source at `index` in place, keeping its
    /// phase, gain, frequency and detune. Fails with `IndexError` exactly
    /// when `index` is out of bounds.
    pub fn set_oscillator(&mut self, index: usize, oscillator: Oscillator) -> (r: Result<
        (),
        SynthError,
    >)
        requires
            old(self).wf(),
        ensures
            final(self).wf(),
            final(self).sample_rate == old(self).sample_rate,
            final(self).sources@.len() == old(self).sources@.len(),
            (index >= old(self).sources@.len()) <==> (r == Result::<(), SynthError>::Err(
                SynthError::IndexError,
            )),
            (index < old(self).sources@.len()) <==> r is Ok,
            r is Err ==> final(self).sources@ == old(self).sources@,
            r is Ok ==> forall|j: int|
                0 <= j < old(self).sources@.len() && j != index
                    ==> #[trigger] final(self).sources@[j] == old(self).sources@[j],
            r is Ok ==> {
                let pre = old(self).sources@[index as int];
                let post = final(self).sources@[index as int];
                &&& post.waveform == oscillator
                &&& post.table@ == spec_wave_table(oscillator, pre.table@.len() as int)
                &&& post.phase_q16 == pre.phase_q16
                &&& post.gain_q16 == pre.gain_q16
                &&& post.frequency_hz == pre.frequency_hz
                &&& post.sample_rate == pre.sample_rate
                &&& post.detune_semitones == pre.detune_semitones
            },
    {
        if index >= self.sources.len() {
            Err(SynthError::IndexError)
        } else {
            self.sources[index].set_waveform(oscillator);
            Ok(())
        }
    }

    /// Sets the gain of the source at `index`, clamped into the
    /// representable range `±MAX_GAIN_Q16` (a negative gain inverts the
    /// source's phase). Fails with `IndexError` exactly when `index` is
    /// out of bounds; nothing changes then.
    pub fn set_gain(&mut self, gain_q16: i64, index: usize) -> (r: Result<(), SynthError>)
        requires
            old(self).wf(),
        ensures
            final(self).wf(),
            final(self).sample_rate == old(self).sample_rate,
            final(self).sources@.len() == old(self).sources@.len(),
            (index >= old(self).sources@.len()) <==> (r == Result::<(), SynthError>::Err(
                SynthError::IndexError,
            )),
            (index < old(self).sources@.len()) <==> r is Ok,
            r is Err ==> final(self).sources@ == old(self).sources@,
            r is Ok ==> forall|j: int|
                0 <= j < old(self).sources@.len() && j != index
                    ==> #[trigger] final(self).sources@[j] == old(self).sources@[j],
            r is Ok ==> {
                let pre = old(self).sources@[index as int];
                let post = final(self).sources@[index as int];
                &&& post.gain_q16 == spec_clamp(
                    gain_q16 as int,
                    -MAX_GAIN_Q16 as int,
                    MAX_GAIN_Q16 as int,
                )
                &&& post.waveform == pre.waveform
                &&& post.table@ == pre.table@
                &&& post.phase_q16 == pre.phase_q16
                &&& post.frequency_hz == pre.frequency_hz
                &&& post.sample_rate == pre.sample_rate
                &&& post.detune_semitones == pre.detune_semitones
            },
    {
        if index >= self.sources.len() {
            Err(SynthError::IndexError)
        } else {
            self.sources[index].gain_q16 = clamp_i64(gain_q16, -MAX_GAIN_Q16, MAX_GAIN_Q16);
            Ok(())
        }
    }

    /// Sets the detune of the source at `index`, to take effect at the next
    /// bank-wide retune. Fails with `IndexError` exactly when `index` is
    /// out of bounds.
    pub fn set_detune_semitones(&mut self, detune_semitones: i8, index: usize) -> (r: Result<
        (),
        SynthError,
    >)
        requires
            old(self).wf(),
        ensures
            final(self).wf(),
            final(self).sample_rate == old(self).sample_rate,
            final(self).sources@.len() == old(self).sources@.len(),
            (index >= old(self).sources@.len()) <==> (r == Result::<(), SynthError>::Err(
                SynthError::IndexError,
            )),
            (index < old(self).sources@.len()) <==> r is Ok,
            r is Err ==> final(self).sources@ == old(self).sources@,
            r is Ok ==> forall|j: int|
                0 <= j < old(self).sources@.len() && j != index
                    ==> #[trigger] final(self).sources@[j] == old(self).sources@[j],
            r is Ok ==> {
                let pre = old(self).sources@[index as int];
                let post = final(self).sources@[index as int];
                &&& post.detune_semitones == detune_semitones
                &&& post.waveform == pre.waveform
                &&& post.table@ == pre.table@
                &&& post.phase_q16 == pre.phase_q16
                &&& post.gain_q16 == pre.gain_q16
                &&& post.frequency_hz == pre.frequency_hz
                &&& post.sample_rate == pre.sample_rate
            },
    {
        if index >= self.sources.len() {
            Err(SynthError::IndexError)
        } else {
            self.sources[index].detune_semitones = detune_semitones;
            Ok(())
        }
    }

    /// Applies one base frequency to every source at once, modulated by
    /// each source's own detune. Fails with `ValidationError` exactly when
    /// the base frequency is zero or above the Nyquist limit; the bank is
    /// unchanged on failure.
    pub fn global_set_frequency(&mut self, frequency: u32) -> (r: Result<(), SynthError>)
        requires
            old(self).wf(),
        ensures
            final(self).wf(),
            final(self).sample_rate == old(self).sample_rate,
            final(self).sources@.len() == old(self).sources@.len(),
            (frequency == 0 || frequency > old(self).sample_rate / 2) <==> (r == Result::<
                (),
                SynthError,
            >::Err(SynthError::ValidationError)),
            (1 <= frequency <= old(self).sample_rate / 2) <==> r is Ok,
            r is Err ==> final(self).sources@ == old(self).sources@,
            r is Ok ==> forall|j: int|
                0 <= j < old(self).sources@.len() ==> WaveTableOscillator::is_retune_of(
                    #[trigger] final(self).sources@[j],
                    old(self).sources@[j],
                    spec_detuned_hz(
                        frequency as int,
                        old(self).sources@[j].detune_semitones as int,
                        (old(self).sample_rate / 2) as int,
                    ),
                ),
    {
        if frequency == 0 || frequency > self.sample_rate / 2 {
            return Err(SynthError::ValidationError);
        }
        let ghost orig = *self;
        let nyquist: u32 = self.sample_rate / 2;
        let n: usize = self.sources.len();
        let mut i: usize = 0;
        while i < n
            invariant
                i <= n,
                n == self.sources@.len(),
                orig.wf(),
                n == orig.sources@.len(),
                self.sample_rate == orig.sample_rate,
                nyquist == orig.sample_rate / 2,
                1 <= frequency <= nyquist,
                MIN_SAMPLE_RATE <= orig.sample_rate <= MAX_SAMPLE_RATE,
                forall|j: int|
                    i <= j < n ==> #[trigger] self.sources@[j] == orig.sources@[j],
                forall|j: int|
                    0 <= j < i ==> WaveTableOscillator::is_retune_of(
                        #[trigger] self.sources@[j],
                        orig.sources@[j],
                        spec_detuned_hz(
                            frequency as int,
                            orig.sources@[j].detune_semitones as int,
                            (orig.sample_rate / 2) as int,
                        ),
                    ),
                forall|j: int| 0 <= j < i ==> (#[trigger] self.sources@[j]).wf(),
            decreases n - i,
        {
            let st: i8 = self.sources[i].detune_semitones;
            let f: u32 = detuned_hz(frequency, st, nyquist);
            self.sources[i].retune(f);
            i = i + 1;
        }
        Ok(())
    }
}

} // verus!
