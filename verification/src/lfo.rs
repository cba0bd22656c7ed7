//! The optional modulation stage: one selector over two modulation
//! families sharing a single sub-oscillator.
//!
//! Amplitude mode scales the stage input by the sub-oscillator's unipolar
//! gain `(1 + a) / 2`; vibrato mode feeds the input through a delay line
//! whose read offset the sub-oscillator modulates. Switching the family
//! never touches the sub-oscillator: only the consumption of its sample
//! changes.

use vstd::prelude::*;

use crate::errors::SynthError;
use crate::oscillators::{Oscillator, WaveTableOscillator};
use crate::units::{
    clamp_i64, scale_q16, spec_clamp, spec_scale, MAX_DELAY_LEN, MAX_SAMPLE_RATE,
    MIN_SAMPLE_RATE, PIPE_BOUND,
};

verus! {

/// The two modulation families.
#[derive(Clone, Copy, PartialEq, Eq, Structural, Debug)]
pub enum LFOType {
    /// Tremolo-style: the output is scaled by the sub-oscillator.
    Amplitude,
    /// Pitch-style: the output passes through a modulated delay line.
    Vibrato,
}

/// The modulation stage: a family tag, the shared sub-oscillator, and the
/// delay line vibrato reads from.
#[derive(Clone, Debug)]
pub struct LFO {
    /// Which modulation family currently consumes the sub-oscillator.
    pub lfo_type: LFOType,
    /// Samples per second; shared with the owning voice.
    pub sample_rate: u32,
    /// The sub-oscillator owned exclusively by this stage.
    pub oscillator: WaveTableOscillator,
    /// The vibrato delay line.
    pub buffer: Vec<i64>,
    /// Where the next sample is written into the delay line.
    pub head: usize,
}

impl LFO {
    /// Structural soundness: a well-formed sub-oscillator on the shared
    /// rate and a bounded, in-range delay line.
    pub open spec fn wf(self) -> bool {
        &&& MIN_SAMPLE_RATE <= self.sample_rate <= MAX_SAMPLE_RATE
        &&& self.oscillator.wf()
        &&& self.oscillator.sample_rate == self.sample_rate
        &&& 1 <= self.buffer@.len() <= MAX_DELAY_LEN
        &&& self.head < self.buffer@.len()
        &&& forall|j: int|
            0 <= j < self.buffer@.len() ==> -PIPE_BOUND <= #[trigger] self.buffer@[j]
                <= PIPE_BOUND
    }

    /// The sub-oscillator's sample clamped into one full amplitude.
    pub open spec fn spec_sub_sample(self) -> int {
        spec_clamp(self.oscillator.spec_output(), -65536, 65536)
    }

    /// How far behind the write head vibrato reads, driven by the
    /// sub-oscillator: zero at the lowest swing, the whole line at the
    /// highest.
    pub open spec fn spec_offset(self) -> int {
        ((self.spec_sub_sample() + 65536) * (self.buffer@.len() - 1)) / 131072
    }

    /// The delay-line position vibrato reads from.
    pub open spec fn spec_read_pos(self) -> int {
        (self.head + self.buffer@.len() - self.spec_offset()) % (self.buffer@.len() as int)
    }

    /// The sample this stage yields for input `x` in its current state.
    pub open spec fn spec_output(self, x: int) -> int {
        match self.lfo_type {
            LFOType::Amplitude => spec_scale(x, self.spec_sub_sample() + 65536, 131072),
            LFOType::Vibrato => if self.spec_offset() == 0 {
                x
            } else {
                self.buffer@[self.spec_read_pos()] as int
            },
        }
    }

    /// A fresh modulation stage around a caller-supplied sub-oscillator,
    /// with a silent delay line of a hundredth of a second.
    pub fn new(lfo_type: LFOType, sample_rate: u32, oscillator: WaveTableOscillator) -> (r:
        Self)
        requires
            MIN_SAMPLE_RATE <= sample_rate <= MAX_SAMPLE_RATE,
            oscillator.wf(),
            oscillator.sample_rate == sample_rate,
        ensures
            r.wf(),
            r.lfo_type == lfo_type,
            r.sample_rate == sample_rate,
            r.oscillator == oscillator,
            r.head == 0usize,
            r.buffer@.len() == sample_rate / 100 + 1,
            forall|j: int| 0 <= j < r.buffer@.len() ==> #[trigger] r.buffer@[j] == 0i64,
    {
        let delay_len: usize = (sample_rate / 100 + 1) as usize;
        let mut buffer: Vec<i64> = Vec::new();
        let mut i: usize = 0;
        while i < delay_len
            invariant
                i <= delay_len,
                1 <= delay_len <= MAX_DELAY_LEN,
                buffer@.len() == i,
                forall|j: int| 0 <= j < i ==> #[trigger] buffer@[j] == 0i64,
            decreases delay_len - i,
        {
            buffer.push(0);
            i = i + 1;
        }
        LFO { lfo_type, sample_rate, oscillator, buffer, head: 0 }
    }

    /// Runs one sample through the active family, advancing the
    /// sub-oscillator, and for vibrato the delay line too.
    pub fn process(&mut self, x: i64) -> (r: i64)
        requires
            old(self).wf(),
            -PIPE_BOUND <= x <= PIPE_BOUND,
        ensures
            final(self).wf(),
            r == old(self).spec_output(x as int),
            -PIPE_BOUND <= r <= PIPE_BOUND,
            WaveTableOscillator::is_step_of(final(self).oscillator, old(self).oscillator),
            final(self).lfo_type == old(self).lfo_type,
            final(self).sample_rate == old(self).sample_rate,
            old(self).lfo_type is Amplitude ==> final(self).buffer@ == old(self).buffer@
                && final(self).head == old(self).head,
            old(self).lfo_type is Vibrato ==> final(self).buffer@ == old(self).buffer@.update(
                old(self).head as int,
                x,
            ) && final(self).head == (old(self).head + 1) % (old(self).buffer@.len() as int),
    {
        let a: i64 = self.oscillator.get_sample();
        let a_cl: i64 = clamp_i64(a, -65536, 65536);
        match self.lfo_type {
            LFOType::Amplitude => {
                proof {
                    crate::units::lemma_scale_le(x as int, (a_cl + 65536) as int, 131072);
                }
                scale_q16(x, a_cl + 65536, 131072)
            },
            LFOType::Vibrato => {
                let len: usize = self.buffer.len();
                let h: usize = self.head;
                self.buffer[h] = x;
                proof {
                    assert(((a_cl + 65536) as int) * ((len - 1) as int) <= 131072 * (
                    MAX_DELAY_LEN - 1)) by (nonlinear_arith)
                        requires 0 <= a_cl + 65536 <= 131072, 0 <= len - 1 <= MAX_DELAY_LEN - 1;
                    assert(((a_cl + 65536) as int) * ((len - 1) as int) >= 0) by (nonlinear_arith)
                        requires a_cl + 65536 >= 0, len >= 1;
                    assert(((a_cl + 65536) as int) * ((len - 1) as int) <= (131072 as int) * ((len
                        - 1) as int)) by (nonlinear_arith)
                        requires 0 <= a_cl + 65536 <= 131072, len >= 1;
                    assert((((a_cl + 65536) as int) * ((len - 1) as int)) / 131072 <= ((131072
                        as int) * ((len - 1) as int)) / 131072) by (nonlinear_arith)
                        requires
                            ((a_cl + 65536) as int) * ((len - 1) as int) <= (131072 as int) * ((
                            len - 1) as int),
                            131072 > 0;
                    assert(((131072 as int) * ((len - 1) as int)) / 131072 == len - 1)
                        by (nonlinear_arith);
                }
                let num: u64 = ((a_cl + 65536) as u64) * ((len - 1) as u64);
                let offset: usize = (num / 131072) as usize;
                let base: usize = h + len - offset;
                let read_pos: usize = if base >= len {
                    base - len
                } else {
                    base
                };
                proof {
                    if base >= len {
                        assert((base as int) % (len as int) == base - len) by (nonlinear_arith)
                            requires len <= base < 2 * len, len >= 1;
                    } else {
                        assert((base as int) % (len as int) == base as int) by (nonlinear_arith)
                            requires 0 <= base < len, len >= 1;
                    }
                    assert(read_pos == old(self).spec_read_pos());
                }
                let r: i64 = self.buffer[read_pos];
                proof {
                    assert(((h + 1) as int) % (len as int) == (if h + 1 == len {
                        0int
                    } else {
                        (h + 1) as int
                    })) by (nonlinear_arith)
                        requires 0 <= h < len;
                }
                let new_head: usize = if h + 1 == len {
                    0
                } else {
                    h + 1
                };
                self.head = new_head;
                r
            },
        }
    }

    /// Switches the modulation family. The sub-oscillator — waveform,
    /// phase, frequency, gain — and the delay line are untouched.
    pub fn set_type(&mut self, lfo_type: LFOType)
        requires
            old(self).wf(),
        ensures
            final(self).wf(),
            final(self).lfo_type == lfo_type,
            final(self).oscillator == old(self).oscillator,
            final(self).sample_rate == old(self).sample_rate,
            final(self).buffer@ == old(self).buffer@,
            final(self).head == old(self).head,
    {
        self.lfo_type = lfo_type;
    }

    /// Retunes the sub-oscillator. Fails with `ValidationError` exactly
    /// when the frequency is zero or above the Nyquist limit.
    pub fn set_frequency(&mut self, frequency_hz: u32) -> (r: Result<(), SynthError>)
        requires
            old(self).wf(),
        ensures
            final(self).wf(),
            (frequency_hz == 0 || frequency_hz > old(self).sample_rate / 2) <==> (r
                == Result::<(), SynthError>::Err(SynthError::ValidationError)),
            (1 <= frequency_hz <= old(self).sample_rate / 2) <==> r is Ok,
            r is Err ==> *final(self) == *old(self),
            r is Ok ==> final(self).oscillator.frequency_hz == frequency_hz,
            r is Ok ==> final(self).oscillator.phase_q16 == old(self).oscillator.phase_q16,
            r is Ok ==> final(self).oscillator.waveform == old(self).oscillator.waveform,
            r is Ok ==> final(self).oscillator.gain_q16 == old(self).oscillator.gain_q16,
            final(self).lfo_type == old(self).lfo_type,
            final(self).sample_rate == old(self).sample_rate,
            final(self).buffer@ == old(self).buffer@,
            final(self).head == old(self).head,
    {
        self.oscillator.set_frequency(frequency_hz)
    }

    /// Replaces only the sub-oscillator's waveform generator, preserving
    /// its current phase, frequency and gain.
    pub fn set_oscillator(&mut self, waveform: Oscillator)
        requires
            old(self).wf(),
        ensures
            final(self).wf(),
            final(self).oscillator.waveform == waveform,
            final(self).oscillator.phase_q16 == old(self).oscillator.phase_q16,
            final(self).oscillator.frequency_hz == old(self).oscillator.frequency_hz,
            final(self).oscillator.gain_q16 == old(self).oscillator.gain_q16,
            final(self).oscillator.sample_rate == old(self).oscillator.sample_rate,
            final(self).lfo_type == old(self).lfo_type,
            final(self).sample_rate == old(self).sample_rate,
            final(self).buffer@ == old(self).buffer@,
            final(self).head == old(self).head,
    {
        self.oscillator.set_waveform(waveform);
    }

    /// The waveform kind currently installed in the sub-oscillator.
    pub fn get_oscillator(&self) -> (r: Oscillator)
        ensures
            r == self.oscillator.waveform,
    {
        self.oscillator.waveform
    }
}

} // verus!
