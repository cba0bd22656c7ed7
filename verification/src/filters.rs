//! The optional filter stage: per-sample frequency shaping with internal
//! memory.
//!
//! The filter is built from one-pole smoothing sections in exact Q16
//! arithmetic. Its accumulated memory is part of its observable state: the
//! reconfiguration protocol promises when that memory survives a change.

use vstd::prelude::*;

use crate::errors::SynthError;
use crate::units::{
    scale_q16, spec_scale, MAX_SAMPLE_RATE, MIN_SAMPLE_RATE, MIX_BOUND, PIPE_BOUND,
};

verus! {

/// The filter variants a voice can install.
#[derive(Clone, Copy, PartialEq, Eq, Structural, Debug)]
pub enum FilterType {
    /// Keeps the low end: one smoothing section.
    LowPass,
    /// Keeps the high end: the input minus the smoothed input.
    HighPass,
    /// Keeps a band: a smoothed input minus a second, narrower smoothing.
    BandPass,
}

/// The tunable filter parameters.
#[derive(Clone, Copy, PartialEq, Eq, Structural, Debug)]
pub enum FilterParam {
    /// The corner frequency, in whole hertz.
    CutoffHz,
    /// The bandwidth of the band-pass variant, in whole hertz.
    BandwidthHz,
}

/// The smoothing coefficient in Q16 for a corner frequency at a sample
/// rate: `2 * freq / rate`, which never exceeds one at valid frequencies.
pub open spec fn spec_alpha_q16(freq_hz: int, sample_rate: int) -> int {
    (131072 * freq_hz) / sample_rate
}

/// One step of a one-pole smoothing section: the memory moves toward the
/// input by the fraction `alpha`.
pub open spec fn spec_low_next(mem: int, x: int, alpha: int) -> int {
    mem + spec_scale(x - mem, alpha, 65536)
}

/// One filter stage: a variant tag, its tuning, and two smoothing memories.
#[derive(Clone, Debug)]
pub struct Filter {
    /// Which variant currently runs.
    pub kind: FilterType,
    /// Samples per second; shared with the owning voice.
    pub sample_rate: u32,
    /// Corner frequency in whole hertz.
    pub cutoff_hz: u32,
    /// Bandwidth in whole hertz, used by the band-pass variant.
    pub bandwidth_hz: u32,
    /// Memory of the first smoothing section.
    pub mem: i64,
    /// Memory of the second smoothing section.
    pub mem2: i64,
}

impl Filter {
    /// Structural soundness: frequencies within Nyquist and memories within
    /// the mixed-sample range.
    pub open spec fn wf(self) -> bool {
        &&& MIN_SAMPLE_RATE <= self.sample_rate <= MAX_SAMPLE_RATE
        &&& 1 <= self.cutoff_hz <= self.sample_rate / 2
        &&& 1 <= self.bandwidth_hz <= self.sample_rate / 2
        &&& -MIX_BOUND <= self.mem <= MIX_BOUND
        &&& -MIX_BOUND <= self.mem2 <= MIX_BOUND
    }

    /// The first memory after processing `x`.
    pub open spec fn spec_next_mem(self, x: int) -> int {
        spec_low_next(
            self.mem as int,
            x,
            spec_alpha_q16(self.cutoff_hz as int, self.sample_rate as int),
        )
    }

    /// The second memory after processing `x`: the band-pass variant runs
    /// its second section; the others leave it alone.
    pub open spec fn spec_next_mem2(self, x: int) -> int {
        if self.kind is BandPass {
            spec_low_next(
                self.mem2 as int,
                self.spec_next_mem(x),
                spec_alpha_q16(self.bandwidth_hz as int, self.sample_rate as int),
            )
        } else {
            self.mem2 as int
        }
    }

    /// The sample the filter yields for input `x` in its current state.
    pub open spec fn spec_output(self, x: int) -> int {
        match self.kind {
            FilterType::LowPass => self.spec_next_mem(x),
            FilterType::HighPass => x - self.spec_next_mem(x),
            FilterType::BandPass => self.spec_next_mem(x) - self.spec_next_mem2(x),
        }
    }

    /// A fresh filter with cleared memory.
    pub fn new(kind: FilterType, sample_rate: u32, cutoff_hz: u32, bandwidth_hz: u32) -> (r:
        Self)
        requires
            MIN_SAMPLE_RATE <= sample_rate <= MAX_SAMPLE_RATE,
            1 <= cutoff_hz <= sample_rate / 2,
            1 <= bandwidth_hz <= sample_rate / 2,
        ensures
            r.wf(),
            r.kind == kind,
            r.sample_rate == sample_rate,
            r.cutoff_hz == cutoff_hz,
            r.bandwidth_hz == bandwidth_hz,
            r.mem == 0i64,
            r.mem2 == 0i64,
    {
        Filter { kind, sample_rate, cutoff_hz, bandwidth_hz, mem: 0, mem2: 0 }
    }

    /// The smoothing coefficient for `freq_hz` at this filter's rate.
    fn alpha_q16(&self, freq_hz: u32) -> (r: i64)
        requires
            self.wf(),
            1 <= freq_hz <= self.sample_rate / 2,
        ensures
            r == spec_alpha_q16(freq_hz as int, self.sample_rate as int),
            0 <= r <= 65536,
    {
        proof {
            assert(2 * (freq_hz as int) <= self.sample_rate as int);
            assert(131072 * (freq_hz as int) <= 65536 * (self.sample_rate as int))
                by (nonlinear_arith)
                requires 2 * (freq_hz as int) <= self.sample_rate as int;
            assert((131072 * (freq_hz as int)) / (self.sample_rate as int) <= (65536 * (
            self.sample_rate as int)) / (self.sample_rate as int)) by (nonlinear_arith)
                requires
                    131072 * (freq_hz as int) <= 65536 * (self.sample_rate as int),
                    self.sample_rate >= 1;
            assert((65536 * (self.sample_rate as int)) / (self.sample_rate as int) == 65536)
                by (nonlinear_arith)
                requires self.sample_rate >= 1;
            assert((131072 * (freq_hz as int)) / (self.sample_rate as int) >= 0)
                by (nonlinear_arith)
                requires freq_hz >= 0, self.sample_rate >= 1;
        }
        let m: u64 = 131072 * (freq_hz as u64);
        (m / (self.sample_rate as u64)) as i64
    }

    /// One smoothing step toward `x`; the result stays between the memory
    /// and the input, so it stays within the mixed-sample range.
    fn low_step(mem: i64, x: i64, alpha: i64) -> (r: i64)
        requires
            -MIX_BOUND <= mem <= MIX_BOUND,
            -MIX_BOUND <= x <= MIX_BOUND,
            0 <= alpha <= 65536,
        ensures
            r == spec_low_next(mem as int, x as int, alpha as int),
            -MIX_BOUND <= r <= MIX_BOUND,
    {
        proof {
            crate::units::lemma_scale_le((x - mem) as int, alpha as int, 65536);
        }
        let delta: i64 = scale_q16(x - mem, alpha, 65536);
        mem + delta
    }

    /// Runs one sample through the installed variant, advancing the
    /// internal memories.
    pub fn process(&mut self, sample: i64) -> (r: i64)
        requires
            old(self).wf(),
            -MIX_BOUND <= sample <= MIX_BOUND,
        ensures
            final(self).wf(),
            r == old(self).spec_output(sample as int),
            -PIPE_BOUND <= r <= PIPE_BOUND,
            final(self).mem == old(self).spec_next_mem(sample as int),
            final(self).mem2 == old(self).spec_next_mem2(sample as int),
            final(self).kind == old(self).kind,
            final(self).sample_rate == old(self).sample_rate,
            final(self).cutoff_hz == old(self).cutoff_hz,
            final(self).bandwidth_hz == old(self).bandwidth_hz,
    {
        let alpha: i64 = self.alpha_q16(self.cutoff_hz);
        let low: i64 = Self::low_step(self.mem, sample, alpha);
        self.mem = low;
        match self.kind {
            FilterType::LowPass => low,
            FilterType::HighPass => sample - low,
            FilterType::BandPass => {
                let alpha2: i64 = self.alpha_q16(self.bandwidth_hz);
                let low2: i64 = Self::low_step(self.mem2, low, alpha2);
                self.mem2 = low2;
                low - low2
            },
        }
    }

    /// Reconfigures the variant in place. A change of variant recomputes
    /// from cleared memory; asking for the variant already installed keeps
    /// the accumulated memory untouched.
    pub fn change_filter_type(&mut self, kind: FilterType)
        requires
            old(self).wf(),
        ensures
            final(self).wf(),
            final(self).kind == kind,
            final(self).sample_rate == old(self).sample_rate,
            final(self).cutoff_hz == old(self).cutoff_hz,
            final(self).bandwidth_hz == old(self).bandwidth_hz,
            kind == old(self).kind ==> *final(self) == *old(self),
            kind != old(self).kind ==> final(self).mem == 0i64 && final(self).mem2 == 0i64,
    {
        if !(kind == self.kind) {
            self.kind = kind;
            self.mem = 0;
            self.mem2 = 0;
        }
    }

    /// Tunes one parameter in place, keeping the accumulated memory. Fails
    /// with `ValidationError` exactly when the value is zero or above the
    /// Nyquist limit; nothing changes then.
    pub fn set_param(&mut self, param: FilterParam, value: u32) -> (r: Result<(), SynthError>)
        requires
            old(self).wf(),
        ensures
            final(self).wf(),
            (value == 0 || value > old(self).sample_rate / 2) <==> (r == Result::<
                (),
                SynthError,
            >::Err(SynthError::ValidationError)),
            (1 <= value <= old(self).sample_rate / 2) <==> r is Ok,
            r is Err ==> *final(self) == *old(self),
            r is Ok && param is CutoffHz ==> final(self).cutoff_hz == value
                && final(self).bandwidth_hz == old(self).bandwidth_hz,
            r is Ok && param is BandwidthHz ==> final(self).bandwidth_hz == value
                && final(self).cutoff_hz == old(self).cutoff_hz,
            final(self).kind == old(self).kind,
            final(self).sample_rate == old(self).sample_rate,
            final(self).mem == old(self).mem,
            final(self).mem2 == old(self).mem2,
    {
        if value == 0 || value > self.sample_rate / 2 {
            Err(SynthError::ValidationError)
        } else {
            match param {
                FilterParam::CutoffHz => self.cutoff_hz = value,
                FilterParam::BandwidthHz => self.bandwidth_hz = value,
            }
            Ok(())
        }
    }
}

} // verus!
