//! The synthesis orchestrator: one voice's signal chain and its live
//! reconfiguration surface.
//!
//! A [`Synth`] owns an oscillator bank and three optional stage slots and
//! runs them in a fixed order on every sample pull: bank, then filter,
//! then envelope, then modulation. Every reconfiguration call follows one
//! policy — an "off" selector tears the slot down, an "on" selector on an
//! empty slot builds a fresh stage, an "on" selector on a populated slot
//! reconfigures it in place — and parameter setters on an empty slot are
//! no-ops, never errors. An invalid mutation leaves the voice exactly as
//! it was.

use vstd::prelude::*;

use crate::envelopes::{Envelope, EnvelopeParam};
use crate::errors::SynthError;
use crate::filters::{Filter, FilterParam, FilterType};
use crate::lfo::{LFOType, LFO};
use crate::oscillators::{spec_detuned_hz, spec_wave_table, MultiOscillator, Oscillator,
    WaveTableOscillator};
use crate::units::{scale_q16, spec_scale, MAX_GAIN_Q16, ONE_Q16, PIPE_BOUND};

verus! {

/// One voice: an oscillator bank, three optional stages, and the sample
/// rate every time-based stage shares.
#[derive(Clone, Debug)]
pub struct Synth {
    /// The oscillator bank the voice pulls from.
    pub osc: MultiOscillator,
    /// Samples per second, immutable after construction and identical
    /// across every stage that needs a time base.
    pub sample_rate: u32,
    /// The optional filter stage.
    pub filter: Option<Filter>,
    /// The optional envelope stage.
    pub envelope: Option<Envelope>,
    /// The optional modulation stage.
    pub lfo: Option<LFO>,
    /// The modulation family tag, mirrored into the stage while one is
    /// installed.
    pub lfo_type: LFOType,
}

impl Synth {
    /// Structural soundness: every stage well-formed, every time base the
    /// voice's own, and the family tag consistent with the installed
    /// modulation stage.
    pub open spec fn wf(self) -> bool {
        &&& self.osc.wf()
        &&& self.osc.sample_rate == self.sample_rate
        &&& match self.filter {
            Option::Some(f) => f.wf() && f.sample_rate == self.sample_rate,
            Option::None => true,
        }
        &&& match self.envelope {
            Option::Some(e) => e.wf(),
            Option::None => true,
        }
        &&& match self.lfo {
            Option::Some(l) => l.wf() && l.sample_rate == self.sample_rate && l.lfo_type
                == self.lfo_type,
            Option::None => true,
        }
    }

    /// The mixed bank sample the pipeline starts from.
    pub open spec fn spec_mix_out(self) -> int {
        MultiOscillator::spec_mix(self.osc.sources@)
    }

    /// The sample after the filter slot: filtered if present, passed
    /// through if absent.
    pub open spec fn spec_after_filter(self) -> int {
        match self.filter {
            Option::Some(f) => f.spec_output(self.spec_mix_out()),
            Option::None => self.spec_mix_out(),
        }
    }

    /// The sample after the envelope slot: scaled by the envelope's
    /// amplitude if present, passed through if absent.
    pub open spec fn spec_after_envelope(self) -> int {
        match self.envelope {
            Option::Some(e) => spec_scale(self.spec_after_filter(), e.spec_amplitude(), 65536),
            Option::None => self.spec_after_filter(),
        }
    }

    /// The sample one pull yields: the fixed order bank, filter, envelope,
    /// modulation, each optional stage skipped when absent.
    pub open spec fn spec_output(self) -> int {
        match self.lfo {
            Option::Some(l) => l.spec_output(self.spec_after_envelope()),
            Option::None => self.spec_after_envelope(),
        }
    }

    /// The bank of `post` is the bank of `pre` advanced by one pull.
    pub open spec fn bank_stepped(pre: Self, post: Self) -> bool {
        &&& post.osc.sample_rate == pre.osc.sample_rate
        &&& post.osc.sources@.len() == pre.osc.sources@.len()
        &&& forall|j: int|
            0 <= j < pre.osc.sources@.len() ==> WaveTableOscillator::is_step_of(
                #[trigger] post.osc.sources@[j],
                pre.osc.sources@[j],
            )
    }

    /// The filter slot of `post` is that of `pre` after one pull: same
    /// presence and tuning, memories advanced by the mixed sample.
    pub open spec fn filter_stepped(pre: Self, post: Self) -> bool {
        match (pre.filter, post.filter) {
            (Option::Some(f0), Option::Some(f1)) => {
                &&& f1.kind == f0.kind
                &&& f1.sample_rate == f0.sample_rate
                &&& f1.cutoff_hz == f0.cutoff_hz
                &&& f1.bandwidth_hz == f0.bandwidth_hz
                &&& f1.mem == f0.spec_next_mem(pre.spec_mix_out())
                &&& f1.mem2 == f0.spec_next_mem2(pre.spec_mix_out())
            },
            (Option::None, Option::None) => true,
            _ => false,
        }
    }

    /// The envelope slot of `post` is that of `pre` after one pull: same
    /// presence and segments, clock advanced.
    pub open spec fn envelope_stepped(pre: Self, post: Self) -> bool {
        match (pre.envelope, post.envelope) {
            (Option::Some(e0), Option::Some(e1)) => {
                &&& e1.attack_samples == e0.attack_samples
                &&& e1.decay_samples == e0.decay_samples
                &&& e1.sustain_q16 == e0.sustain_q16
                &&& e1.elapsed == e0.spec_next_elapsed()
            },
            (Option::None, Option::None) => true,
            _ => false,
        }
    }

    /// The modulation slot of `post` is that of `pre` after one pull: same
    /// presence and family, sub-oscillator advanced, and for vibrato the
    /// delay line advanced by the enveloped sample.
    pub open spec fn lfo_stepped(pre: Self, post: Self) -> bool {
        match (pre.lfo, post.lfo) {
            (Option::Some(l0), Option::Some(l1)) => {
                &&& l1.lfo_type == l0.lfo_type
                &&& l1.sample_rate == l0.sample_rate
                &&& WaveTableOscillator::is_step_of(l1.oscillator, l0.oscillator)
                &&& (l0.lfo_type is Amplitude ==> l1.buffer@ == l0.buffer@ && l1.head == l0.head)
                &&& (l0.lfo_type is Vibrato ==> l1.buffer@ == l0.buffer@.update(
                    l0.head as int,
                    pre.spec_after_envelope() as i64,
                ) && l1.head == (l0.head + 1) % (l0.buffer@.len() as int))
            },
            (Option::None, Option::None) => true,
            _ => false,
        }
    }

    /// `s` with its filter slot torn down and everything else untouched.
    pub open spec fn spec_with_filter_cleared(s: Self) -> Self {
        Synth {
            osc: s.osc,
            sample_rate: s.sample_rate,
            filter: Option::None,
            envelope: s.envelope,
            lfo: s.lfo,
            lfo_type: s.lfo_type,
        }
    }

    /// Assembles a voice from its bank and initial stage slots.
    pub fn new(
        osc: MultiOscillator,
        sample_rate: u32,
        filter: Option<Filter>,
        envelope: Option<Envelope>,
        lfo: Option<LFO>,
        lfo_type: LFOType,
    ) -> (r: Self)
        requires
            osc.wf(),
            osc.sample_rate == sample_rate,
            match filter {
                Option::Some(f) => f.wf() && f.sample_rate == sample_rate,
                Option::None => true,
            },
            match envelope {
                Option::Some(e) => e.wf(),
                Option::None => true,
            },
            match lfo {
                Option::Some(l) => l.wf() && l.sample_rate == sample_rate && l.lfo_type
                    == lfo_type,
                Option::None => true,
            },
        ensures
            r.wf(),
            r.osc == osc,
            r.sample_rate == sample_rate,
            r.filter == filter,
            r.envelope == envelope,
            r.lfo == lfo,
            r.lfo_type == lfo_type,
    {
        Synth { osc, sample_rate, filter, envelope, lfo, lfo_type }
    }

    /// Produces the next audio sample: pulls the bank's mix, then threads
    /// it through filter, envelope and modulation in the fixed order, each
    /// stage skipped when its slot is empty. Never fails; an empty bank
    /// with no stages yields silence.
    pub fn get_sample(&mut self) -> (r: i64)
        requires
            old(self).wf(),
        ensures
            final(self).wf(),
            r == old(self).spec_output(),
            -PIPE_BOUND <= r <= PIPE_BOUND,
            final(self).sample_rate == old(self).sample_rate,
            final(self).lfo_type == old(self).lfo_type,
            Self::bank_stepped(*old(self), *final(self)),
            Self::filter_stepped(*old(self), *final(self)),
            Self::envelope_stepped(*old(self), *final(self)),
            Self::lfo_stepped(*old(self), *final(self)),
    {
        let sample: i64 = self.osc.get_sample();
        let mut output_sample: i64 = sample;
        let filt: Option<Filter> = self.filter.take();
        match filt {
            Option::Some(mut f) => {
                output_sample = f.process(sample);
                self.filter = Some(f);
            },
            Option::None => {},
        }
        let env: Option<Envelope> = self.envelope.take();
        match env {
            Option::Some(mut e) => {
                let amp: i64 = e.get_amplitude();
                proof {
                    crate::units::lemma_scale_le(output_sample as int, amp as int, 65536);
                }
                output_sample = scale_q16(output_sample, amp, 65536);
                self.envelope = Some(e);
            },
            Option::None => {},
        }
        let low: Option<LFO> = self.lfo.take();
        match low {
            Option::Some(mut l) => {
                output_sample = l.process(output_sample);
                self.lfo = Some(l);
            },
            Option::None => {},
        }
        output_sample
    }

    /// Sets the gain of the bank source at `index`, clamped into the
    /// representable range `±MAX_GAIN_Q16` (a negative gain inverts the
    /// source's phase). Fails with `IndexError` exactly when `index` is
    /// out of bounds; the voice is unchanged then.
    pub fn set_gain(&mut self, index: usize, gain: i64) -> (r: Result<(), SynthError>)
        requires
            old(self).wf(),
        ensures
            final(self).wf(),
            final(self).sample_rate == old(self).sample_rate,
            final(self).filter == old(self).filter,
            final(self).envelope == old(self).envelope,
            final(self).lfo == old(self).lfo,
            final(self).lfo_type == old(self).lfo_type,
            final(self).osc.sources@.len() == old(self).osc.sources@.len(),
            (index >= old(self).osc.sources@.len()) <==> (r == Result::<(), SynthError>::Err(
                SynthError::IndexError,
            )),
            (index < old(self).osc.sources@.len()) <==> r is Ok,
            r is Err ==> final(self).osc.sources@ == old(self).osc.sources@,
            r is Ok ==> forall|j: int|
                0 <= j < old(self).osc.sources@.len() && j != index
                    ==> #[trigger] final(self).osc.sources@[j] == old(self).osc.sources@[j],
            r is Ok ==> final(self).osc.sources@[index as int].gain_q16 == crate::units::spec_clamp(
                gain as int,
                -MAX_GAIN_Q16 as int,
                MAX_GAIN_Q16 as int,
            ) && WaveTableOscillator::same_config(
                old(self).osc.sources@[index as int],
                WaveTableOscillator {
                    gain_q16: old(self).osc.sources@[index as int].gain_q16,
                    ..final(self).osc.sources@[index as int]
                },
            ),
    {
        self.osc.set_gain(gain, index)
    }

    /// Replaces the waveform of the bank source at `index` in place,
    /// keeping its phase, gain, frequency and detune; `IndexError` exactly
    /// on an out-of-bounds index.
    pub fn set_oscillator(&mut self, index: usize, oscillator: Oscillator) -> (r: Result<
        (),
        SynthError,
    >)
        requires
            old(self).wf(),
        ensures
            final(self).wf(),
            final(self).sample_rate == old(self).sample_rate,
            final(self).filter == old(self).filter,
            final(self).envelope == old(self).envelope,
            final(self).lfo == old(self).lfo,
            final(self).lfo_type == old(self).lfo_type,
            final(self).osc.sources@.len() == old(self).osc.sources@.len(),
            (index >= old(self).osc.sources@.len()) <==> (r == Result::<(), SynthError>::Err(
                SynthError::IndexError,
            )),
            (index < old(self).osc.sources@.len()) <==> r is Ok,
            r is Err ==> final(self).osc.sources@ == old(self).osc.sources@,
            r is Ok ==> forall|j: int|
                0 <= j < old(self).osc.sources@.len() && j != index
                    ==> #[trigger] final(self).osc.sources@[j] == old(self).osc.sources@[j],
            r is Ok ==> {
                let pre = old(self).osc.sources@[index as int];
                let post = final(self).osc.sources@[index as int];
                &&& post.waveform == oscillator
                &&& post.table@ == spec_wave_table(oscillator, pre.table@.len() as int)
                &&& post.phase_q16 == pre.phase_q16
                &&& post.gain_q16 == pre.gain_q16
                &&& post.frequency_hz == pre.frequency_hz
                &&& post.detune_semitones == pre.detune_semitones
            },
    {
        self.osc.set_oscillator(index, oscillator)
    }

    /// Sets the detune of the bank source at `index`, effective at the
    /// next bank-wide retune; `IndexError` exactly on an out-of-bounds
    /// index.
    pub fn set_detune_semitones(&mut self, index: usize, detune_semitones: i8) -> (r: Result<
        (),
        SynthError,
    >)
        requires
            old(self).wf(),
        ensures
            final(self).wf(),
            final(self).sample_rate == old(self).sample_rate,
            final(self).filter == old(self).filter,
            final(self).envelope == old(self).envelope,
            final(self).lfo == old(self).lfo,
            final(self).lfo_type == old(self).lfo_type,
            final(self).osc.sources@.len() == old(self).osc.sources@.len(),
            (index >= old(self).osc.sources@.len()) <==> (r == Result::<(), SynthError>::Err(
                SynthError::IndexError,
            )),
            (index < old(self).osc.sources@.len()) <==> r is Ok,
            r is Err ==> final(self).osc.sources@ == old(self).osc.sources@,
            r is Ok ==> forall|j: int|
                0 <= j < old(self).osc.sources@.len() && j != index
                    ==> #[trigger] final(self).osc.sources@[j] == old(self).osc.sources@[j],
            r is Ok ==> final(self).osc.sources@[index as int].detune_semitones
                == detune_semitones,
    {
        self.osc.set_detune_semitones(detune_semitones, index)
    }

    /// Switches the modulation family. With a modulation stage installed,
    /// only its family tag changes — the sub-oscillator keeps its
    /// waveform, phase, frequency and gain, and the delay line survives.
    /// With no stage installed this is a no-op, not an error.
    pub fn set_lfo_type(&mut self, lfo_type: LFOType)
        requires
            old(self).wf(),
        ensures
            final(self).wf(),
            old(self).lfo is None ==> *final(self) == *old(self),
            old(self).lfo is Some ==> {
                &&& final(self).lfo is Some
                &&& final(self).lfo->0.lfo_type == lfo_type
                &&& final(self).lfo->0.oscillator == old(self).lfo->0.oscillator
                &&& final(self).lfo->0.buffer@ == old(self).lfo->0.buffer@
                &&& final(self).lfo->0.head == old(self).lfo->0.head
                &&& final(self).lfo->0.sample_rate == old(self).lfo->0.sample_rate
                &&& final(self).lfo_type == lfo_type
            },
            final(self).osc == old(self).osc,
            final(self).sample_rate == old(self).sample_rate,
            final(self).filter == old(self).filter,
            final(self).envelope == old(self).envelope,
    {
        let low: Option<LFO> = self.lfo.take();
        match low {
            Option::Some(mut l) => {
                l.set_type(lfo_type);
                self.lfo = Some(l);
                self.lfo_type = lfo_type;
            },
            Option::None => {},
        }
    }

    /// Removes the bank source at `index` and transfers its ownership to
    /// the caller; later sources shift down by one and the bank may become
    /// empty. `IndexError` exactly on an out-of-bounds index.
    pub fn remove(&mut self, index: usize) -> (r: Result<WaveTableOscillator, SynthError>)
        requires
            old(self).wf(),
        ensures
            final(self).wf(),
            final(self).sample_rate == old(self).sample_rate,
            final(self).filter == old(self).filter,
            final(self).envelope == old(self).envelope,
            final(self).lfo == old(self).lfo,
            final(self).lfo_type == old(self).lfo_type,
            (index >= old(self).osc.sources@.len()) <==> (r is Err),
            r is Err ==> r == Result::<WaveTableOscillator, SynthError>::Err(
                SynthError::IndexError,
            ) && final(self).osc.sources@ == old(self).osc.sources@,
            r is Ok ==> r == Result::<WaveTableOscillator, SynthError>::Ok(
                old(self).osc.sources@[index as int],
            ),
            r is Ok ==> final(self).osc.sources@.len() == old(self).osc.sources@.len() - 1,
            r is Ok ==> forall|j: int|
                0 <= j < index ==> #[trigger] final(self).osc.sources@[j] == old(self).osc.sources@[j],
            r is Ok ==> forall|j: int|
                index <= j < final(self).osc.sources@.len() ==> #[trigger] final(self).osc.sources@[j] == old(self).osc.sources@[j + 1],
            r is Ok ==> r->Ok_0.wf(),
    {
        self.osc.remove(index)
    }

    /// Appends a source at the end of the bank's mix order;
    /// `CapacityError` exactly when the bank is already full.
    pub fn push(&mut self, oscillator: WaveTableOscillator) -> (r: Result<(), SynthError>)
        requires
            old(self).wf(),
            oscillator.wf(),
            oscillator.sample_rate == old(self).sample_rate,
        ensures
            final(self).wf(),
            final(self).sample_rate == old(self).sample_rate,
            final(self).filter == old(self).filter,
            final(self).envelope == old(self).envelope,
            final(self).lfo == old(self).lfo,
            final(self).lfo_type == old(self).lfo_type,
            (old(self).osc.sources@.len() == crate::units::MAX_SOURCES) <==> (r == Result::<
                (),
                SynthError,
            >::Err(SynthError::CapacityError)),
            (old(self).osc.sources@.len() < crate::units::MAX_SOURCES) <==> r is Ok,
            r is Err ==> final(self).osc.sources@ == old(self).osc.sources@,
            r is Ok ==> final(self).osc.sources@ == old(self).osc.sources@.push(oscillator),
    {
        self.osc.push(oscillator)
    }

    /// Applies one base frequency to every bank source at once, modulated
    /// by each source's own detune; `ValidationError` exactly when the
    /// frequency is zero or above the Nyquist limit, leaving the voice
    /// unchanged.
    pub fn global_set_frequency(&mut self, frequency: u32) -> (r: Result<(), SynthError>)
        requires
            old(self).wf(),
        ensures
            final(self).wf(),
            final(self).sample_rate == old(self).sample_rate,
            final(self).filter == old(self).filter,
            final(self).envelope == old(self).envelope,
            final(self).lfo == old(self).lfo,
            final(self).lfo_type == old(self).lfo_type,
            final(self).osc.sources@.len() == old(self).osc.sources@.len(),
            (frequency == 0 || frequency > old(self).sample_rate / 2) <==> (r == Result::<
                (),
                SynthError,
            >::Err(SynthError::ValidationError)),
            (1 <= frequency <= old(self).sample_rate / 2) <==> r is Ok,
            r is Err ==> final(self).osc.sources@ == old(self).osc.sources@,
            r is Ok ==> forall|j: int|
                0 <= j < old(self).osc.sources@.len() ==> WaveTableOscillator::is_retune_of(
                    #[trigger] final(self).osc.sources@[j],
                    old(self).osc.sources@[j],
                    spec_detuned_hz(
                        frequency as int,
                        old(self).osc.sources@[j].detune_semitones as int,
                        (old(self).sample_rate / 2) as int,
                    ),
                ),
    {
        self.osc.global_set_frequency(frequency)
    }

    /// How many sources the bank currently holds.
    pub fn num_sources(&self) -> (r: usize)
        ensures
            r == self.osc.sources@.len(),
    {
        self.osc.num_sources()
    }

    /// The voice's sample rate, immutable after construction.
    pub fn sample_rate(&self) -> (r: u32)
        ensures
            r == self.sample_rate,
    {
        self.sample_rate
    }

    /// Reconfigures the filter slot under the toggle-or-reconfigure
    /// policy. `None` always tears the slot down. `Some(kind)` on an empty
    /// slot builds a fresh filter from the given tuning — `ValidationError`
    /// exactly when a frequency is zero or above Nyquist. `Some(kind)` on a
    /// populated slot reconfigures in place, keeping the accumulated
    /// memory when the kind is unchanged and ignoring the tuning
    /// arguments.
    pub fn set_filter(
        &mut self,
        filter: Option<FilterType>,
        freq_filter: u32,
        bandwidth_hz_filter: u32,
    ) -> (r: Result<(), SynthError>)
        requires
            old(self).wf(),
        ensures
            final(self).wf(),
            final(self).osc == old(self).osc,
            final(self).sample_rate == old(self).sample_rate,
            final(self).envelope == old(self).envelope,
            final(self).lfo == old(self).lfo,
            final(self).lfo_type == old(self).lfo_type,
            filter is None ==> r is Ok && *final(self) == Self::spec_with_filter_cleared(
                *old(self),
            ),
            filter is Some && old(self).filter is None ==> {
                let invalid = freq_filter == 0 || freq_filter > old(self).sample_rate / 2
                    || bandwidth_hz_filter == 0 || bandwidth_hz_filter > old(self).sample_rate
                    / 2;
                &&& (invalid <==> r == Result::<(), SynthError>::Err(SynthError::ValidationError))
                &&& (!invalid <==> r is Ok)
                &&& (r is Err ==> *final(self) == *old(self))
                &&& (r is Ok ==> final(self).filter == Option::Some(
                    Filter {
                        kind: filter->0,
                        sample_rate: old(self).sample_rate,
                        cutoff_hz: freq_filter,
                        bandwidth_hz: bandwidth_hz_filter,
                        mem: 0i64,
                        mem2: 0i64,
                    },
                ))
            },
            filter is Some && old(self).filter is Some ==> r is Ok && {
                let f0 = old(self).filter->0;
                &&& final(self).filter is Some
                &&& final(self).filter->0.kind == filter->0
                &&& final(self).filter->0.sample_rate == f0.sample_rate
                &&& final(self).filter->0.cutoff_hz == f0.cutoff_hz
                &&& final(self).filter->0.bandwidth_hz == f0.bandwidth_hz
                &&& (filter->0 == f0.kind ==> final(self).filter == old(self).filter)
                &&& (filter->0 != f0.kind ==> final(self).filter->0.mem == 0i64 && final(self).filter->0.mem2 == 0i64)
            },
    {
        match filter {
            Option::None => {
                self.filter = None;
                Ok(())
            },
            Option::Some(filter_type) => {
                let existing: Option<Filter> = self.filter.take();
                match existing {
                    Option::None => {
                        if freq_filter == 0 || freq_filter > self.sample_rate / 2
                            || bandwidth_hz_filter == 0 || bandwidth_hz_filter
                            > self.sample_rate / 2 {
                            Err(SynthError::ValidationError)
                        } else {
                            self.filter = Some(
                                Filter::new(
                                    filter_type,
                                    self.sample_rate,
                                    freq_filter,
                                    bandwidth_hz_filter,
                                ),
                            );
                            Ok(())
                        }
                    },
                    Option::Some(mut f) => {
                        f.change_filter_type(filter_type);
                        self.filter = Some(f);
                        Ok(())
                    },
                }
            },
        }
    }

    /// Tunes one filter parameter in place, keeping the accumulated
    /// memory. On an empty filter slot this is a no-op, not an error; on a
    /// populated slot `ValidationError` exactly when the value is zero or
    /// above Nyquist.
    pub fn set_filter_params(&mut self, filterparam: FilterParam, value: u32) -> (r: Result<
        (),
        SynthError,
    >)
        requires
            old(self).wf(),
        ensures
            final(self).wf(),
            final(self).osc == old(self).osc,
            final(self).sample_rate == old(self).sample_rate,
            final(self).envelope == old(self).envelope,
            final(self).lfo == old(self).lfo,
            final(self).lfo_type == old(self).lfo_type,
            old(self).filter is None ==> r is Ok && *final(self) == *old(self),
            old(self).filter is Some ==> {
                let f0 = old(self).filter->0;
                &&& ((value == 0 || value > old(self).sample_rate / 2) <==> r == Result::<
                    (),
                    SynthError,
                >::Err(SynthError::ValidationError))
                &&& ((1 <= value <= old(self).sample_rate / 2) <==> r is Ok)
                &&& (r is Err ==> *final(self) == *old(self))
                &&& final(self).filter is Some
                &&& final(self).filter->0.mem == f0.mem
                &&& final(self).filter->0.mem2 == f0.mem2
                &&& final(self).filter->0.kind == f0.kind
                &&& final(self).filter->0.sample_rate == f0.sample_rate
                &&& (r is Ok && filterparam is CutoffHz ==> final(self).filter->0.cutoff_hz
                    == value && final(self).filter->0.bandwidth_hz == f0.bandwidth_hz)
                &&& (r is Ok && filterparam is BandwidthHz ==> final(self).filter->0.bandwidth_hz
                    == value && final(self).filter->0.cutoff_hz == f0.cutoff_hz)
            },
    {
        let existing: Option<Filter> = self.filter.take();
        match existing {
            Option::None => Ok(()),
            Option::Some(mut f) => {
                let r: Result<(), SynthError> = f.set_param(filterparam, value);
                self.filter = Some(f);
                r
            },
        }
    }

    /// Tunes one envelope parameter in place; the envelope's time position
    /// is preserved, only clipped back when the ramps shrink past it. On
    /// an empty envelope slot this is a no-op, not an error.
    pub fn set_envelope_params(&mut self, envelope_param: EnvelopeParam, value: u64) -> (r:
        Result<(), SynthError>)
        requires
            old(self).wf(),
        ensures
            final(self).wf(),
            final(self).osc == old(self).osc,
            final(self).sample_rate == old(self).sample_rate,
            final(self).filter == old(self).filter,
            final(self).lfo == old(self).lfo,
            final(self).lfo_type == old(self).lfo_type,
            old(self).envelope is None ==> r is Ok && *final(self) == *old(self),
            old(self).envelope is Some ==> {
                let e0 = old(self).envelope->0;
                &&& ((match envelope_param {
                    EnvelopeParam::AttackSamples => value > crate::units::ENV_MAX_SAMPLES,
                    EnvelopeParam::DecaySamples => value > crate::units::ENV_MAX_SAMPLES,
                    EnvelopeParam::SustainLevel => value > 65536,
                }) <==> r == Result::<(), SynthError>::Err(SynthError::ValidationError))
                &&& ((match envelope_param {
                    EnvelopeParam::AttackSamples => value <= crate::units::ENV_MAX_SAMPLES,
                    EnvelopeParam::DecaySamples => value <= crate::units::ENV_MAX_SAMPLES,
                    EnvelopeParam::SustainLevel => value <= 65536,
                }) <==> r is Ok)
                &&& (r is Err ==> *final(self) == *old(self))
                &&& final(self).envelope is Some
                &&& (r is Ok ==> {
                    let e1 = final(self).envelope->0;
                    &&& e1.attack_samples == (if envelope_param is AttackSamples {
                        value as int
                    } else {
                        e0.attack_samples as int
                    })
                    &&& e1.decay_samples == (if envelope_param is DecaySamples {
                        value as int
                    } else {
                        e0.decay_samples as int
                    })
                    &&& e1.sustain_q16 == (if envelope_param is SustainLevel {
                        value as int
                    } else {
                        e0.sustain_q16 as int
                    })
                    &&& e1.elapsed == (if e0.elapsed <= e1.attack_samples + e1.decay_samples {
                        e0.elapsed as int
                    } else {
                        e1.attack_samples + e1.decay_samples
                    })
                })
            },
    {
        let existing: Option<Envelope> = self.envelope.take();
        match existing {
            Option::None => Ok(()),
            Option::Some(mut e) => {
                let r: Result<(), SynthError> = e.set_param(envelope_param, value);
                self.envelope = Some(e);
                r
            },
        }
    }

    /// Retunes the modulation sub-oscillator. On an empty modulation slot
    /// this is a no-op, not an error; on a populated slot
    /// `ValidationError` exactly when the frequency is zero or above
    /// Nyquist.
    pub fn set_lfo_frequency(&mut self, frequency: u32) -> (r: Result<(), SynthError>)
        requires
            old(self).wf(),
        ensures
            final(self).wf(),
            final(self).osc == old(self).osc,
            final(self).sample_rate == old(self).sample_rate,
            final(self).filter == old(self).filter,
            final(self).envelope == old(self).envelope,
            final(self).lfo_type == old(self).lfo_type,
            old(self).lfo is None ==> r is Ok && *final(self) == *old(self),
            old(self).lfo is Some ==> {
                let l0 = old(self).lfo->0;
                &&& ((frequency == 0 || frequency > old(self).sample_rate / 2) <==> r
                    == Result::<(), SynthError>::Err(SynthError::ValidationError))
                &&& ((1 <= frequency <= old(self).sample_rate / 2) <==> r is Ok)
                &&& (r is Err ==> *final(self) == *old(self))
                &&& final(self).lfo is Some
                &&& (r is Ok ==> {
                    let l1 = final(self).lfo->0;
                    &&& l1.oscillator.frequency_hz == frequency
                    &&& l1.oscillator.phase_q16 == l0.oscillator.phase_q16
                    &&& l1.oscillator.waveform == l0.oscillator.waveform
                    &&& l1.oscillator.gain_q16 == l0.oscillator.gain_q16
                    &&& l1.lfo_type == l0.lfo_type
                    &&& l1.buffer@ == l0.buffer@
                    &&& l1.head == l0.head
                })
            },
    {
        let existing: Option<LFO> = self.lfo.take();
        match existing {
            Option::None => Ok(()),
            Option::Some(mut l) => {
                let r: Result<(), SynthError> = l.set_frequency(frequency);
                self.lfo = Some(l);
                r
            },
        }
    }

    /// Reconfigures the modulation slot under the toggle-or-reconfigure
    /// policy. `None` clears the whole slot. `Some(waveform)` on an empty
    /// slot builds a fresh stage: a sub-oscillator at full gain and the
    /// given frequency under the given family — `ValidationError` exactly
    /// when that frequency is zero or above Nyquist. `Some(waveform)` on a
    /// populated slot swaps only the sub-oscillator's waveform, keeping
    /// its phase and frequency and ignoring the other arguments.
    pub fn set_lfo_osc(
        &mut self,
        oscillator: Option<Oscillator>,
        frequency: u32,
        lfo_type: LFOType,
    ) -> (r: Result<(), SynthError>)
        requires
            old(self).wf(),
        ensures
            final(self).wf(),
            final(self).osc == old(self).osc,
            final(self).sample_rate == old(self).sample_rate,
            final(self).filter == old(self).filter,
            final(self).envelope == old(self).envelope,
            oscillator is None ==> r is Ok && final(self).lfo is None && final(self).lfo_type
                == old(self).lfo_type,
            oscillator is Some && old(self).lfo is None ==> {
                let invalid = frequency == 0 || frequency > old(self).sample_rate / 2;
                &&& (invalid <==> r == Result::<(), SynthError>::Err(SynthError::ValidationError))
                &&& (!invalid <==> r is Ok)
                &&& (r is Err ==> *final(self) == *old(self))
                &&& (r is Ok ==> {
                    let l1 = final(self).lfo->0;
                    &&& final(self).lfo is Some
                    &&& l1.lfo_type == lfo_type
                    &&& final(self).lfo_type == lfo_type
                    &&& l1.oscillator.waveform == oscillator->0
                    &&& l1.oscillator.frequency_hz == frequency
                    &&& l1.oscillator.gain_q16 == ONE_Q16
                    &&& l1.oscillator.phase_q16 == 0
                    &&& l1.sample_rate == old(self).sample_rate
                    &&& l1.buffer@.len() == old(self).sample_rate / 100 + 1
                    &&& (forall|j: int|
                        0 <= j < l1.buffer@.len() ==> #[trigger] l1.buffer@[j] == 0i64)
                    &&& l1.head == 0usize
                })
            },
            oscillator is Some && old(self).lfo is Some ==> r is Ok && {
                let l0 = old(self).lfo->0;
                let l1 = final(self).lfo->0;
                &&& final(self).lfo is Some
                &&& final(self).lfo_type == old(self).lfo_type
                &&& l1.lfo_type == l0.lfo_type
                &&& l1.oscillator.waveform == oscillator->0
                &&& l1.oscillator.phase_q16 == l0.oscillator.phase_q16
                &&& l1.oscillator.frequency_hz == l0.oscillator.frequency_hz
                &&& l1.oscillator.gain_q16 == l0.oscillator.gain_q16
                &&& l1.buffer@ == l0.buffer@
                &&& l1.head == l0.head
            },
    {
        match oscillator {
            Option::None => {
                self.lfo = None;
                Ok(())
            },
            Option::Some(waveform) => {
                let existing: Option<LFO> = self.lfo.take();
                match existing {
                    Option::None => {
                        if frequency == 0 || frequency > self.sample_rate / 2 {
                            Err(SynthError::ValidationError)
                        } else {
                            let sub: WaveTableOscillator = WaveTableOscillator::new(
                                self.sample_rate,
                                self.sample_rate as usize,
                                waveform,
                                ONE_Q16,
                                frequency,
                            );
                            self.lfo = Some(LFO::new(lfo_type, self.sample_rate, sub));
                            self.lfo_type = lfo_type;
                            Ok(())
                        }
                    },
                    Option::Some(mut l) => {
                        l.set_oscillator(waveform);
                        self.lfo = Some(l);
                        Ok(())
                    },
                }
            },
        }
    }

    /// The waveform kind installed in the modulation sub-oscillator, or
    /// `None` if no modulation stage exists.
    pub fn get_lfo_osc(&self) -> (r: Option<Oscillator>)
        ensures
            r == match self.lfo {
                Option::Some(l) => Option::Some(l.oscillator.waveform),
                Option::None => Option::<Oscillator>::None,
            },
    {
        match &self.lfo {
            Option::Some(l) => Some(l.get_oscillator()),
            Option::None => None,
        }
    }
}

/// A voice whose oscillator bank is empty and whose stage slots are all
/// absent yields exact silence on every pull.
pub proof fn lemma_empty_voice_silent(s: Synth)
    requires
        s.wf(),
        s.osc.sources@.len() == 0,
        s.filter is None,
        s.envelope is None,
        s.lfo is None,
    ensures
        s.spec_output() == 0,
{
}

/// Tearing the filter slot down is idempotent: on a voice with no filter
/// it changes nothing, and doing it twice leaves the same state as once.
pub proof fn lemma_clear_filter_idempotent(s: Synth)
    ensures
        s.filter is None ==> Synth::spec_with_filter_cleared(s) == s,
        Synth::spec_with_filter_cleared(Synth::spec_with_filter_cleared(s))
            == Synth::spec_with_filter_cleared(s),
{
}

/// On a voice with no filter and no envelope whose modulation slot runs in
/// amplitude mode, every pulled sample is the bank's mix scaled by the
/// unipolar modulation gain `(1 + a) / 2`, where `a` is the
/// sub-oscillator's sample clamped into one full amplitude. Over a full
/// modulation period this gain sweeps the sub-oscillator's waveform, so
/// the output's amplitude envelope rides at the modulation rate.
pub proof fn lemma_amplitude_modulation_law(s: Synth)
    requires
        s.wf(),
        s.filter is None,
        s.envelope is None,
        s.lfo is Some,
        s.lfo->0.lfo_type is Amplitude,
    ensures
        s.spec_output() == spec_scale(
            s.spec_mix_out(),
            s.lfo->0.spec_sub_sample() + 65536,
            131072,
        ),
{
}

} // verus!
