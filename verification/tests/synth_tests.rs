use synth_backend::envelopes::{Envelope, EnvelopeParam};
use synth_backend::errors::SynthError;
use synth_backend::filters::{Filter, FilterParam, FilterType};
use synth_backend::lfo::LFOType;
use synth_backend::oscillators::{MultiOscillator, Oscillator, WaveTableOscillator};
use synth_backend::units::ONE_Q16;
use synth_backend::wrapper::Synth;

const SR: u32 = 44100;

fn empty_voice() -> Synth {
    Synth::new(MultiOscillator::new(SR), SR, None, None, None, LFOType::Amplitude)
}

fn voice_with_square() -> Synth {
    let mut bank = MultiOscillator::new(SR);
    bank.push(WaveTableOscillator::new(SR, SR as usize, Oscillator::Square, ONE_Q16, 440))
        .unwrap();
    Synth::new(bank, SR, None, None, None, LFOType::Amplitude)
}

#[test]
fn empty_voice_yields_silence() {
    let mut v = empty_voice();
    assert_eq!(v.sample_rate(), SR);
    for _ in 0..32 {
        assert_eq!(v.get_sample(), 0);
    }
}

#[test]
fn clear_filter_on_empty_slot_is_idempotent() {
    let mut v = empty_voice();
    assert!(v.filter.is_none());
    assert!(v.set_filter(None, 0, 0).is_ok());
    assert!(v.filter.is_none());
    assert!(v.set_filter(None, 0, 0).is_ok());
    assert!(v.filter.is_none());
    assert!(v.envelope.is_none());
    assert!(v.lfo.is_none());
    assert_eq!(v.num_sources(), 0);
}

#[test]
fn filter_memory_survives_same_kind_reconfigure_and_param_change() {
    let mut v = voice_with_square();
    assert!(v.set_filter(Some(FilterType::LowPass), 1000, 500).is_ok());
    // Feed the square-wave impulse edge through the filter so it
    // accumulates a transient.
    for _ in 0..8 {
        v.get_sample();
    }
    let mem_before = v.filter.as_ref().unwrap().mem;
    assert!(mem_before != 0);
    // Asking for the kind already installed keeps the accumulated memory.
    assert!(v.set_filter(Some(FilterType::LowPass), 2000, 900).is_ok());
    assert_eq!(v.filter.as_ref().unwrap().mem, mem_before);
    // A parameter change keeps it too.
    assert!(v.set_filter_params(FilterParam::CutoffHz, 2000).is_ok());
    assert_eq!(v.filter.as_ref().unwrap().mem, mem_before);
    assert_eq!(v.filter.as_ref().unwrap().cutoff_hz, 2000);
    // The transient continues from the preserved memory rather than
    // restarting from zero: the next smoothed value moves on from it.
    v.get_sample();
    let mem_after = v.filter.as_ref().unwrap().mem;
    assert!(mem_after != 0);
    // A change of kind is the one reconfiguration that recomputes from
    // cleared memory.
    assert!(v.set_filter(Some(FilterType::HighPass), 0, 0).is_ok());
    assert_eq!(v.filter.as_ref().unwrap().mem, 0);
    assert_eq!(v.filter.as_ref().unwrap().cutoff_hz, 2000);
}

#[test]
fn modulation_type_switch_preserves_sub_oscillator() {
    let mut v = voice_with_square();
    assert!(v.set_lfo_osc(Some(Oscillator::Sine), 5, LFOType::Amplitude).is_ok());
    assert_eq!(v.get_lfo_osc(), Some(Oscillator::Sine));
    // Advance the sub-oscillator so its phase is interesting.
    for _ in 0..10 {
        v.get_sample();
    }
    let phase_before = v.lfo.as_ref().unwrap().oscillator.phase_q16;
    let freq_before = v.lfo.as_ref().unwrap().oscillator.frequency_hz;
    v.set_lfo_type(LFOType::Vibrato);
    assert_eq!(v.get_lfo_osc(), Some(Oscillator::Sine));
    assert_eq!(v.lfo.as_ref().unwrap().oscillator.phase_q16, phase_before);
    assert_eq!(v.lfo.as_ref().unwrap().oscillator.frequency_hz, freq_before);
    assert_eq!(v.lfo_type, LFOType::Vibrato);
    // And back again.
    v.set_lfo_type(LFOType::Amplitude);
    assert_eq!(v.get_lfo_osc(), Some(Oscillator::Sine));
    assert_eq!(v.lfo.as_ref().unwrap().oscillator.phase_q16, phase_before);
}

#[test]
fn modulation_type_switch_on_empty_slot_is_noop() {
    let mut v = empty_voice();
    v.set_lfo_type(LFOType::Vibrato);
    assert!(v.lfo.is_none());
    assert_eq!(v.lfo_type, LFOType::Amplitude);
}

#[test]
fn global_frequency_boundaries() {
    let mut v = voice_with_square();
    assert_eq!(v.global_set_frequency(0), Err(SynthError::ValidationError));
    assert_eq!(v.global_set_frequency(SR), Err(SynthError::ValidationError));
    assert_eq!(v.global_set_frequency(SR / 2 + 1), Err(SynthError::ValidationError));
    assert_eq!(v.global_set_frequency(SR / 2 - 1), Ok(()));
    assert_eq!(v.osc.sources[0].frequency_hz, SR / 2 - 1);
}

#[test]
fn removal_transfers_ownership_and_shifts_indices() {
    let mut bank = MultiOscillator::new(SR);
    bank.push(WaveTableOscillator::new(SR, 64, Oscillator::Sine, ONE_Q16, 100)).unwrap();
    bank.push(WaveTableOscillator::new(SR, 64, Oscillator::Square, ONE_Q16, 200)).unwrap();
    bank.push(WaveTableOscillator::new(SR, 64, Oscillator::Triangle, ONE_Q16, 300)).unwrap();
    let mut v = Synth::new(bank, SR, None, None, None, LFOType::Amplitude);
    assert_eq!(v.num_sources(), 3);

    let mut removed = v.remove(1).unwrap();
    assert_eq!(removed.waveform, Oscillator::Square);
    assert_eq!(removed.frequency_hz, 200);
    assert_eq!(v.num_sources(), 2);
    // Indices above the removed one shift down by one.
    assert_eq!(v.osc.sources[0].waveform, Oscillator::Sine);
    assert_eq!(v.osc.sources[1].waveform, Oscillator::Triangle);

    // Further mutation of the bank leaves the removed source untouched.
    v.set_gain(0, 0).unwrap();
    v.global_set_frequency(440).unwrap();
    assert_eq!(removed.waveform, Oscillator::Square);
    assert_eq!(removed.frequency_hz, 200);
    assert_eq!(removed.gain_q16, ONE_Q16);
    // It still produces samples on its own: a square wave at full gain
    // starts at full amplitude.
    assert_eq!(removed.get_sample(), ONE_Q16);
}

#[test]
fn remove_out_of_bounds_fails() {
    let mut v = voice_with_square();
    assert_eq!(v.remove(1).unwrap_err(), SynthError::IndexError);
    assert_eq!(v.num_sources(), 1);
    // The bank may become empty; the voice then mixes silence.
    assert!(v.remove(0).is_ok());
    assert_eq!(v.num_sources(), 0);
    assert_eq!(v.get_sample(), 0);
}

#[test]
fn amplitude_modulation_rides_at_the_lfo_rate() {
    // One sine carrier at 440 Hz, no filter, no envelope, amplitude
    // modulation at 5 Hz.
    let mut bank = MultiOscillator::new(SR);
    bank.push(WaveTableOscillator::new(SR, SR as usize, Oscillator::Sine, ONE_Q16, 440))
        .unwrap();
    let mut v = Synth::new(bank, SR, None, None, None, LFOType::Amplitude);
    assert!(v.set_lfo_osc(Some(Oscillator::Sine), 5, LFOType::Amplitude).is_ok());
    // One LFO period at 5 Hz is 8820 samples; sample two periods and
    // track the peak magnitude in 441-sample windows (20 per period).
    let period: usize = (SR / 5) as usize;
    let window: usize = period / 20;
    let mut peaks: Vec<i64> = Vec::new();
    for _ in 0..40 {
        let mut peak: i64 = 0;
        for _ in 0..window {
            let s = v.get_sample().abs();
            if s > peak {
                peak = s;
            }
        }
        peaks.push(peak);
    }
    // The amplitude envelope swings wide: near full amplitude at the
    // LFO's crest, near silence at its trough.
    let max_peak = *peaks.iter().max().unwrap();
    let min_peak = *peaks.iter().min().unwrap();
    assert!(max_peak > (ONE_Q16 * 9) / 10, "max peak {max_peak}");
    assert!(min_peak < ONE_Q16 / 5, "min peak {min_peak}");
    // The whole state is exactly periodic at the LFO rate, so the peak
    // pattern of the second period repeats the first exactly.
    for i in 0..20 {
        assert_eq!(peaks[i], peaks[i + 20]);
    }
}

#[test]
fn amplitude_modulation_first_sample_is_half_scale() {
    let mut v = voice_with_square();
    assert!(v.set_lfo_osc(Some(Oscillator::Sine), 5, LFOType::Amplitude).is_ok());
    // The sine sub-oscillator starts at zero, so the unipolar gain is
    // (1 + 0) / 2 and the full-amplitude square carrier comes out halved.
    assert_eq!(v.get_sample(), ONE_Q16 / 2);
}

#[test]
fn vibrato_delays_by_the_modulated_offset() {
    let mut v = voice_with_square();
    // A square sub-oscillator pins the modulation at its crest, so the
    // vibrato read offset stays at the whole delay line.
    assert!(v.set_lfo_osc(Some(Oscillator::Square), 5, LFOType::Vibrato).is_ok());
    let delay_len = v.lfo.as_ref().unwrap().buffer.len();
    assert_eq!(delay_len, (SR / 100 + 1) as usize);
    // Until the delay line has filled, the output is its initial silence.
    for _ in 0..delay_len - 1 {
        assert_eq!(v.get_sample(), 0);
    }
    // Then the first carrier sample emerges, one full line later.
    assert_eq!(v.get_sample(), ONE_Q16);
}

#[test]
fn capacity_boundary() {
    let mut v = empty_voice();
    for _ in 0..16 {
        assert!(v.push(WaveTableOscillator::new(SR, 64, Oscillator::Sine, ONE_Q16, 100)).is_ok());
    }
    assert_eq!(
        v.push(WaveTableOscillator::new(SR, 64, Oscillator::Sine, ONE_Q16, 100)),
        Err(SynthError::CapacityError)
    );
    assert_eq!(v.num_sources(), 16);
}

#[test]
fn per_source_setters_validate_indices() {
    let mut v = voice_with_square();
    assert_eq!(v.set_gain(1, ONE_Q16), Err(SynthError::IndexError));
    assert_eq!(v.set_gain(0, ONE_Q16 / 2), Ok(()));
    assert_eq!(v.osc.sources[0].gain_q16, ONE_Q16 / 2);
    assert_eq!(v.set_detune_semitones(3, 12), Err(SynthError::IndexError));
    assert_eq!(v.set_detune_semitones(0, 12), Ok(()));
    assert_eq!(v.set_oscillator(2, Oscillator::Triangle), Err(SynthError::IndexError));
    assert_eq!(v.set_oscillator(0, Oscillator::Triangle), Ok(()));
    assert_eq!(v.osc.sources[0].waveform, Oscillator::Triangle);
}

#[test]
fn gain_is_clamped_and_may_invert_phase() {
    let mut v = voice_with_square();
    // An in-bounds gain set always succeeds; values beyond the
    // representable range are clamped into it.
    assert_eq!(v.set_gain(0, ONE_Q16 * 17), Ok(()));
    assert_eq!(v.osc.sources[0].gain_q16, ONE_Q16 * 16);
    assert_eq!(v.set_gain(0, -ONE_Q16 * 20), Ok(()));
    assert_eq!(v.osc.sources[0].gain_q16, -ONE_Q16 * 16);
    // A negative gain inverts the source's phase: the square wave's full
    // positive first half comes out negative.
    assert_eq!(v.set_gain(0, -ONE_Q16), Ok(()));
    assert_eq!(v.get_sample(), -ONE_Q16);
}

#[test]
fn detune_shifts_the_retuned_frequency() {
    let mut bank = MultiOscillator::new(SR);
    bank.push(WaveTableOscillator::new(SR, 64, Oscillator::Sine, ONE_Q16, 100)).unwrap();
    bank.push(WaveTableOscillator::new(SR, 64, Oscillator::Sine, ONE_Q16, 100)).unwrap();
    bank.push(WaveTableOscillator::new(SR, 64, Oscillator::Sine, ONE_Q16, 100)).unwrap();
    bank.push(WaveTableOscillator::new(SR, 64, Oscillator::Sine, ONE_Q16, 100)).unwrap();
    let mut v = Synth::new(bank, SR, None, None, None, LFOType::Amplitude);
    v.set_detune_semitones(1, 12).unwrap();
    v.set_detune_semitones(2, -12).unwrap();
    v.set_detune_semitones(3, 7).unwrap();
    v.global_set_frequency(440).unwrap();
    assert_eq!(v.osc.sources[0].frequency_hz, 440);
    // One octave up doubles, one octave down halves.
    assert_eq!(v.osc.sources[1].frequency_hz, 880);
    assert_eq!(v.osc.sources[2].frequency_hz, 220);
    // A fifth up: 440 * 98193 / 65536, rounded down.
    assert_eq!(v.osc.sources[3].frequency_hz, (440u64 * 98193 / 65536) as u32);
}

#[test]
fn parameter_setters_on_empty_slots_are_noops() {
    let mut v = empty_voice();
    assert_eq!(v.set_filter_params(FilterParam::CutoffHz, 1000), Ok(()));
    assert_eq!(v.set_envelope_params(EnvelopeParam::SustainLevel, 100), Ok(()));
    assert_eq!(v.set_lfo_frequency(7), Ok(()));
    assert!(v.filter.is_none());
    assert!(v.envelope.is_none());
    assert!(v.lfo.is_none());
}

#[test]
fn set_filter_validates_a_fresh_construction() {
    let mut v = empty_voice();
    assert_eq!(
        v.set_filter(Some(FilterType::LowPass), 0, 500),
        Err(SynthError::ValidationError)
    );
    assert_eq!(
        v.set_filter(Some(FilterType::LowPass), 1000, SR),
        Err(SynthError::ValidationError)
    );
    assert!(v.filter.is_none());
    assert_eq!(v.set_filter(Some(FilterType::LowPass), 1000, 500), Ok(()));
    let f = v.filter.as_ref().unwrap();
    assert_eq!(f.kind, FilterType::LowPass);
    assert_eq!(f.cutoff_hz, 1000);
    assert_eq!(f.bandwidth_hz, 500);
    assert_eq!(f.mem, 0);
}

#[test]
fn set_lfo_osc_validates_and_clears() {
    let mut v = empty_voice();
    assert_eq!(
        v.set_lfo_osc(Some(Oscillator::Sine), 0, LFOType::Amplitude),
        Err(SynthError::ValidationError)
    );
    assert!(v.lfo.is_none());
    assert_eq!(v.set_lfo_osc(Some(Oscillator::Sine), 5, LFOType::Amplitude), Ok(()));
    assert!(v.lfo.is_some());
    // Swapping the waveform on a populated slot keeps phase and rate.
    assert_eq!(v.set_lfo_osc(Some(Oscillator::Triangle), 999, LFOType::Vibrato), Ok(()));
    assert_eq!(v.get_lfo_osc(), Some(Oscillator::Triangle));
    assert_eq!(v.lfo.as_ref().unwrap().oscillator.frequency_hz, 5);
    assert_eq!(v.lfo_type, LFOType::Amplitude);
    // The off selector clears the whole slot.
    assert_eq!(v.set_lfo_osc(None, 0, LFOType::Amplitude), Ok(()));
    assert!(v.lfo.is_none());
    assert_eq!(v.get_lfo_osc(), None);
}

#[test]
fn envelope_shapes_the_output() {
    let env = Envelope::new(4, 4, ONE_Q16 / 2);
    let mut v = Synth::new(
        {
            let mut b = MultiOscillator::new(SR);
            b.push(WaveTableOscillator::new(SR, SR as usize, Oscillator::Square, ONE_Q16, 440))
                .unwrap();
            b
        },
        SR,
        None,
        Some(env),
        None,
        LFOType::Amplitude,
    );
    // The square carrier holds full amplitude for its first half period,
    // so the output follows the envelope exactly: a four-sample attack,
    // a four-sample decay to half level, then sustain.
    let expected = [0, 16384, 32768, 49152, 65536, 57344, 49152, 40960, 32768, 32768];
    for e in expected {
        assert_eq!(v.get_sample(), e);
    }
}

#[test]
fn envelope_param_changes_preserve_the_clock() {
    let mut v = empty_voice();
    v.envelope = Some(Envelope::new(100, 100, ONE_Q16 / 2));
    for _ in 0..10 {
        v.get_sample();
    }
    assert_eq!(v.envelope.as_ref().unwrap().elapsed, 10);
    assert_eq!(v.set_envelope_params(EnvelopeParam::SustainLevel, 1000), Ok(()));
    assert_eq!(v.envelope.as_ref().unwrap().elapsed, 10);
    assert_eq!(v.envelope.as_ref().unwrap().sustain_q16, 1000);
    assert_eq!(
        v.set_envelope_params(EnvelopeParam::SustainLevel, 65537),
        Err(SynthError::ValidationError)
    );
    assert_eq!(v.envelope.as_ref().unwrap().sustain_q16, 1000);
    // Shrinking the ramps below the clock clips it back, no further.
    assert_eq!(v.set_envelope_params(EnvelopeParam::AttackSamples, 2), Ok(()));
    assert_eq!(v.set_envelope_params(EnvelopeParam::DecaySamples, 3), Ok(()));
    assert_eq!(v.envelope.as_ref().unwrap().elapsed, 5);
}

#[test]
fn filter_formulas_are_exact() {
    // With a sample rate of 100 and a cutoff of 25 the smoothing
    // coefficient is exactly one half.
    let mut f = Filter::new(FilterType::LowPass, 100, 25, 10);
    assert_eq!(f.process(1000), 500);
    assert_eq!(f.process(1000), 750);
    assert_eq!(f.mem, 750);
    let mut h = Filter::new(FilterType::HighPass, 100, 25, 10);
    assert_eq!(h.process(1000), 500);
    assert_eq!(h.process(1000), 250);
}
