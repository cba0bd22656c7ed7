//! The optional envelope stage: a time-varying amplitude multiplier.
//!
//! The envelope ramps from silence to full amplitude over its attack,
//! decays to its sustain level, and then holds it. Its time position is
//! part of its observable state: parameter changes mutate the segments in
//! place and never restart the clock.

use vstd::prelude::*;

use crate::errors::SynthError;
use crate::units::ENV_MAX_SAMPLES;

verus! {

/// The tunable envelope parameters.
#[derive(Clone, Copy, PartialEq, Eq, Structural, Debug)]
pub enum EnvelopeParam {
    /// Length of the attack ramp, in samples.
    AttackSamples,
    /// Length of the decay ramp, in samples.
    DecaySamples,
    /// The level held after the decay, in Q16.
    SustainLevel,
}

/// One envelope stage: segment lengths, a sustain level, and the number of
/// samples already produced.
#[derive(Clone, Debug)]
pub struct Envelope {
    /// Length of the attack ramp, in samples.
    pub attack_samples: u64,
    /// Length of the decay ramp, in samples.
    pub decay_samples: u64,
    /// Level held after the decay, in Q16.
    pub sustain_q16: i64,
    /// Samples already produced; the clock never runs past the ramps.
    pub elapsed: u64,
}

impl Envelope {
    /// Structural soundness: bounded segments, a sustain level within one
    /// full amplitude, and a clock inside the ramps.
    pub open spec fn wf(self) -> bool {
        &&& self.attack_samples <= ENV_MAX_SAMPLES
        &&& self.decay_samples <= ENV_MAX_SAMPLES
        &&& 0 <= self.sustain_q16 <= 65536
        &&& self.elapsed <= self.attack_samples + self.decay_samples
    }

    /// The amplitude at the current time position, in Q16: rising through
    /// the attack, falling through the decay, then the sustain level.
    pub open spec fn spec_amplitude(self) -> int {
        if self.elapsed < self.attack_samples {
            (65536 * self.elapsed) / (self.attack_samples as int)
        } else if self.elapsed < self.attack_samples + self.decay_samples {
            65536 - ((65536 - self.sustain_q16) * (self.elapsed - self.attack_samples)) / (
            self.decay_samples as int)
        } else {
            self.sustain_q16 as int
        }
    }

    /// The clock after one sample: it advances until both ramps are done.
    pub open spec fn spec_next_elapsed(self) -> int {
        if self.elapsed < self.attack_samples + self.decay_samples {
            self.elapsed + 1
        } else {
            self.elapsed as int
        }
    }

    /// A fresh envelope with its clock at zero.
    pub fn new(attack_samples: u64, decay_samples: u64, sustain_q16: i64) -> (r: Self)
        requires
            attack_samples <= ENV_MAX_SAMPLES,
            decay_samples <= ENV_MAX_SAMPLES,
            0 <= sustain_q16 <= 65536,
        ensures
            r.wf(),
            r.attack_samples == attack_samples,
            r.decay_samples == decay_samples,
            r.sustain_q16 == sustain_q16,
            r.elapsed == 0u64,
    {
        Envelope { attack_samples, decay_samples, sustain_q16, elapsed: 0 }
    }

    /// Yields the amplitude for the current sample and advances the clock.
    pub fn get_amplitude(&mut self) -> (r: i64)
        requires
            old(self).wf(),
        ensures
            final(self).wf(),
            r == old(self).spec_amplitude(),
            0 <= r <= 65536,
            final(self).elapsed == old(self).spec_next_elapsed(),
            final(self).attack_samples == old(self).attack_samples,
            final(self).decay_samples == old(self).decay_samples,
            final(self).sustain_q16 == old(self).sustain_q16,
    {
        let r: i64 = if self.elapsed < self.attack_samples {
            proof {
                assert(65536 * (self.elapsed as int) <= 65536 * (self.attack_samples as int))
                    by (nonlinear_arith)
                    requires self.elapsed <= self.attack_samples;
                assert(65536 * (self.elapsed as int) >= 0) by (nonlinear_arith)
                    requires self.elapsed >= 0;
                assert((65536 * (self.elapsed as int)) / (self.attack_samples as int) <= (65536
                    * (self.attack_samples as int)) / (self.attack_samples as int))
                    by (nonlinear_arith)
                    requires
                        65536 * (self.elapsed as int) <= 65536 * (self.attack_samples as int),
                        self.attack_samples >= 1;
                assert((65536 * (self.attack_samples as int)) / (self.attack_samples as int)
                    == 65536) by (nonlinear_arith)
                    requires self.attack_samples >= 1;
                assert((65536 * (self.elapsed as int)) / (self.attack_samples as int) >= 0)
                    by (nonlinear_arith)
                    requires 65536 * (self.elapsed as int) >= 0, self.attack_samples >= 1;
            }
            ((65536 * self.elapsed) / self.attack_samples) as i64
        } else if self.elapsed < self.attack_samples + self.decay_samples {
            let span: u64 = 65536 - (self.sustain_q16 as u64);
            let t: u64 = self.elapsed - self.attack_samples;
            proof {
                assert((span as int) * (t as int) <= (span as int) * (self.decay_samples as int))
                    by (nonlinear_arith)
                    requires t <= self.decay_samples, span >= 0;
                assert((span as int) * (t as int) >= 0) by (nonlinear_arith)
                    requires t >= 0, span >= 0;
                assert((span as int) * (self.decay_samples as int) <= 65536 * 0x1_0000_0000)
                    by (nonlinear_arith)
                    requires span <= 65536, self.decay_samples <= 0x1_0000_0000;
                assert(((span as int) * (t as int)) / (self.decay_samples as int) <= ((span as int)
                    * (self.decay_samples as int)) / (self.decay_samples as int))
                    by (nonlinear_arith)
                    requires
                        (span as int) * (t as int) <= (span as int) * (self.decay_samples as int),
                        self.decay_samples >= 1;
                assert(((span as int) * (self.decay_samples as int)) / (self.decay_samples as int)
                    == span) by (nonlinear_arith)
                    requires self.decay_samples >= 1;
                assert(((span as int) * (t as int)) / (self.decay_samples as int) >= 0)
                    by (nonlinear_arith)
                    requires (span as int) * (t as int) >= 0, self.decay_samples >= 1;
            }
            let q: u64 = (span * t) / self.decay_samples;
            65536 - (q as i64)
        } else {
            self.sustain_q16
        };
        if self.elapsed < self.attack_samples + self.decay_samples {
            self.elapsed = self.elapsed + 1;
        }
        r
    }

    /// Tunes one parameter in place. The clock is preserved, only clipped
    /// back when the ramps shrink past it. Fails with `ValidationError`
    /// exactly when a segment exceeds the supported length or the sustain
    /// level exceeds one full amplitude; nothing changes then.
    pub fn set_param(&mut self, param: EnvelopeParam, value: u64) -> (r: Result<(), SynthError>)
        requires
            old(self).wf(),
        ensures
            final(self).wf(),
            (match param {
                EnvelopeParam::AttackSamples => value > ENV_MAX_SAMPLES,
                EnvelopeParam::DecaySamples => value > ENV_MAX_SAMPLES,
                EnvelopeParam::SustainLevel => value > 65536,
            }) <==> (r == Result::<(), SynthError>::Err(SynthError::ValidationError)),
            (match param {
                EnvelopeParam::AttackSamples => value <= ENV_MAX_SAMPLES,
                EnvelopeParam::DecaySamples => value <= ENV_MAX_SAMPLES,
                EnvelopeParam::SustainLevel => value <= 65536,
            }) <==> r is Ok,
            r is Err ==> *final(self) == *old(self),
            r is Ok ==> final(self).attack_samples == (if param is AttackSamples {
                value as int
            } else {
                old(self).attack_samples as int
            }),
            r is Ok ==> final(self).decay_samples == (if param is DecaySamples {
                value as int
            } else {
                old(self).decay_samples as int
            }),
            r is Ok ==> final(self).sustain_q16 == (if param is SustainLevel {
                value as int
            } else {
                old(self).sustain_q16 as int
            }),
            r is Ok ==> final(self).elapsed == (if old(self).elapsed <= final(self).attack_samples
                + final(self).decay_samples {
                old(self).elapsed as int
            } else {
                final(self).attack_samples + final(self).decay_samples
            }),
    {
        match param {
            EnvelopeParam::AttackSamples => {
                if value > ENV_MAX_SAMPLES {
                    return Err(SynthError::ValidationError);
                }
                self.attack_samples = value;
            },
            EnvelopeParam::DecaySamples => {
                if value > ENV_MAX_SAMPLES {
                    return Err(SynthError::ValidationError);
                }
                self.decay_samples = value;
            },
            EnvelopeParam::SustainLevel => {
                if value > 65536 {
                    return Err(SynthError::ValidationError);
                }
                self.sustain_q16 = value as i64;
            },
        }
        let total: u64 = self.attack_samples + self.decay_samples;
        if self.elapsed > total {
            self.elapsed = total;
        }
        Ok(())
    }
}

} // verus!
