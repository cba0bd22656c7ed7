use synth_backend::keys::KeyColor;
use synth_backend::oscillators::{detuned_hz, MultiOscillator, Oscillator, WaveTableOscillator};
use synth_backend::units::ONE_Q16;

#[test]
fn square_wave_shape() {
    // A square source at full gain alternates between full positive and
    // full negative amplitude. Table length 8, frequency chosen so the
    // phase advances one table slot per sample: 8 * 12 * 65536 / 96 is
    // exactly one slot in Q16.
    let mut o = WaveTableOscillator::new(96, 8, Oscillator::Square, ONE_Q16, 12);
    let expected = [
        ONE_Q16, ONE_Q16, ONE_Q16, ONE_Q16, -ONE_Q16, -ONE_Q16, -ONE_Q16, -ONE_Q16, ONE_Q16,
    ];
    for e in expected {
        assert_eq!(o.get_sample(), e);
    }
}

#[test]
fn sawtooth_wave_shape() {
    // A sawtooth over a table of length 8 ramps from -1 upward in steps
    // of a quarter amplitude.
    let mut o = WaveTableOscillator::new(96, 8, Oscillator::Sawtooth, ONE_Q16, 12);
    for i in 0..8i64 {
        assert_eq!(o.get_sample(), -ONE_Q16 + 131072 * i / 8);
    }
}

#[test]
fn triangle_wave_shape() {
    let mut o = WaveTableOscillator::new(96, 8, Oscillator::Triangle, ONE_Q16, 12);
    let expected = [
        -ONE_Q16,
        -ONE_Q16 / 2,
        0,
        ONE_Q16 / 2,
        ONE_Q16,
        ONE_Q16 / 2,
        0,
        -ONE_Q16 / 2,
    ];
    for e in expected {
        assert_eq!(o.get_sample(), e);
    }
}

#[test]
fn sine_wave_shape() {
    // The sine approximation starts at zero, peaks at a quarter period,
    // returns to zero at the half, and mirrors below.
    let mut o = WaveTableOscillator::new(96, 8, Oscillator::Sine, ONE_Q16, 12);
    let expected = [0, 49152, ONE_Q16, 49152, 0, -49152, -ONE_Q16, -49152];
    for e in expected {
        assert_eq!(o.get_sample(), e);
    }
}

#[test]
fn gain_scales_the_sample() {
    let mut o = WaveTableOscillator::new(96, 8, Oscillator::Square, ONE_Q16 / 4, 12);
    assert_eq!(o.get_sample(), ONE_Q16 / 4);
}

#[test]
fn mix_sums_the_sources() {
    let mut bank = MultiOscillator::new(96);
    bank.push(WaveTableOscillator::new(96, 8, Oscillator::Square, ONE_Q16, 12)).unwrap();
    bank.push(WaveTableOscillator::new(96, 8, Oscillator::Square, ONE_Q16 / 2, 12)).unwrap();
    assert_eq!(bank.get_sample(), ONE_Q16 + ONE_Q16 / 2);
    assert_eq!(bank.num_sources(), 2);
}

#[test]
fn empty_bank_mixes_to_silence() {
    let mut bank = MultiOscillator::new(96);
    assert_eq!(bank.get_sample(), 0);
}

#[test]
fn detune_ratios_are_exact() {
    assert_eq!(detuned_hz(440, 0, 22050), 440);
    assert_eq!(detuned_hz(440, 12, 22050), 880);
    assert_eq!(detuned_hz(440, 24, 22050), 1760);
    assert_eq!(detuned_hz(440, -12, 22050), 220);
    assert_eq!(detuned_hz(440, -24, 22050), 110);
    // A semitone up: 440 * 69433 / 65536, rounded down.
    assert_eq!(detuned_hz(440, 1, 22050), (440u64 * 69433 / 65536) as u32);
    // A semitone down: 440 * 123715 / (65536 * 2), rounded down.
    assert_eq!(detuned_hz(440, -1, 22050), (440u64 * 123715 / 131072) as u32);
    // The result is clamped into the valid range.
    assert_eq!(detuned_hz(20000, 12, 22050), 22050);
    assert_eq!(detuned_hz(1, -24, 22050), 1);
}

#[test]
fn waveform_swap_keeps_phase() {
    let mut o = WaveTableOscillator::new(96, 8, Oscillator::Square, ONE_Q16, 12);
    o.get_sample();
    o.get_sample();
    let phase = o.phase_q16;
    o.set_waveform(Oscillator::Sawtooth);
    assert_eq!(o.phase_q16, phase);
    assert_eq!(o.waveform, Oscillator::Sawtooth);
    assert_eq!(o.frequency_hz, 12);
}

#[test]
fn key_colors_name_their_style_classes() {
    assert_eq!(KeyColor::White.to_string(), "whitekey");
    assert_eq!(KeyColor::Black.to_string(), "blackkey");
}
