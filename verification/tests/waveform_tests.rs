use rust_dsp::fixed::UNIT;
use rust_dsp::lfo::Lfo;
use rust_dsp::oscillator::Oscillator;
use rust_dsp::waveform::{advance_phase, fraction_of, wave_sample, Waveform};

#[test]
fn waveform_codes_select_the_four_shapes() {
    assert_eq!(Waveform::from_code(0), Waveform::Sine);
    assert_eq!(Waveform::from_code(1), Waveform::Square);
    assert_eq!(Waveform::from_code(2), Waveform::Sawtooth);
    assert_eq!(Waveform::from_code(3), Waveform::Triangle);
}

#[test]
fn waveform_codes_above_three_count_as_three() {
    assert_eq!(Waveform::from_code(4), Waveform::Triangle);
    assert_eq!(Waveform::from_code(255), Waveform::Triangle);
}

#[test]
fn sine_hits_its_landmarks() {
    assert_eq!(wave_sample(Waveform::Sine, 0), 0);
    assert_eq!(wave_sample(Waveform::Sine, 250_000_000), UNIT);
    assert_eq!(wave_sample(Waveform::Sine, 500_000_000), 0);
    assert_eq!(wave_sample(Waveform::Sine, 750_000_000), -UNIT);
}

#[test]
fn sine_between_landmarks_follows_the_approximation() {
    assert_eq!(wave_sample(Waveform::Sine, 125_000_000), 705_882_352);
    assert_eq!(wave_sample(Waveform::Sine, 100_000_000), 587_155_963);
    assert_eq!(wave_sample(Waveform::Sine, 999_999_999), -3);
}

#[test]
fn sine_is_close_to_the_true_sine() {
    let mut phi: i64 = 0;
    while phi < UNIT {
        let exact = (2.0 * std::f64::consts::PI * (phi as f64) / (UNIT as f64)).sin();
        let got = wave_sample(Waveform::Sine, phi) as f64 / UNIT as f64;
        assert!((exact - got).abs() < 0.002);
        phi += 1_000_003;
    }
}

#[test]
fn square_is_high_then_low() {
    assert_eq!(wave_sample(Waveform::Square, 0), UNIT);
    assert_eq!(wave_sample(Waveform::Square, 499_999_999), UNIT);
    assert_eq!(wave_sample(Waveform::Square, 500_000_000), -UNIT);
    assert_eq!(wave_sample(Waveform::Square, 999_999_999), -UNIT);
}

#[test]
fn sawtooth_rises_over_the_cycle() {
    assert_eq!(wave_sample(Waveform::Sawtooth, 0), -UNIT);
    assert_eq!(wave_sample(Waveform::Sawtooth, 250_000_000), -UNIT / 2);
    assert_eq!(wave_sample(Waveform::Sawtooth, 500_000_000), 0);
    assert_eq!(wave_sample(Waveform::Sawtooth, 999_999_999), UNIT - 2);
}

#[test]
fn triangle_hits_its_landmarks() {
    assert_eq!(wave_sample(Waveform::Triangle, 0), 0);
    assert_eq!(wave_sample(Waveform::Triangle, 125_000_000), UNIT / 2);
    assert_eq!(wave_sample(Waveform::Triangle, 250_000_000), UNIT);
    assert_eq!(wave_sample(Waveform::Triangle, 500_000_000), 0);
    assert_eq!(wave_sample(Waveform::Triangle, 750_000_000), -UNIT);
    assert_eq!(wave_sample(Waveform::Triangle, 999_999_999), -4);
}

#[test]
fn every_waveform_stays_between_minus_one_and_one() {
    for code in 0u8..4 {
        let w = Waveform::from_code(code);
        let mut phi: i64 = 0;
        while phi < UNIT {
            let v = wave_sample(w, phi);
            assert!(-UNIT <= v && v <= UNIT);
            phi += 999_983;
        }
    }
}

#[test]
fn phase_advances_and_wraps() {
    assert_eq!(advance_phase(0, 440_000_000, 48_000_000_000), 440_000_000);
    assert_eq!(advance_phase(47_900_000_000, 440_000_000, 48_000_000_000), 340_000_000);
    assert_eq!(advance_phase(10, 96_000_000_000, 48_000_000_000), 10);
    assert_eq!(advance_phase(5, 0, 48_000_000_000), 5);
    assert_eq!(advance_phase(0, i64::MAX as i128, 48_000_000_000), 4_854_775_807);
    assert_eq!(advance_phase(7, 1i128 << 100, 1 << 40), 7);
}

#[test]
fn phase_fraction_is_in_billionths_of_a_cycle() {
    assert_eq!(fraction_of(0, 48_000_000_000), 0);
    assert_eq!(fraction_of(12_000_000_000, 48_000_000_000), 250_000_000);
    assert_eq!(fraction_of(24_000_000_000, 48_000_000_000), 500_000_000);
    assert_eq!(fraction_of(47_999_999_999, 48_000_000_000), 999_999_999);
    assert_eq!(fraction_of(i64::MAX - 1, i64::MAX), 999_999_999);
}

#[test]
fn oscillator_at_a_quarter_of_the_sample_rate_walks_the_sine() {
    let mut osc = Oscillator::new(48_000);
    osc.set_frequency(12_000_000_000);
    assert_eq!(osc.process(), UNIT);
    assert_eq!(osc.process(), 0);
    assert_eq!(osc.process(), -UNIT);
    assert_eq!(osc.process(), 0);
    assert_eq!(osc.process(), UNIT);
}

#[test]
fn oscillator_starts_at_concert_pitch() {
    let mut osc = Oscillator::new(48_000);
    osc.set_waveform(2);
    // 440 Hz at 48 kHz: 440 counts of 48000 per sample.
    assert_eq!(osc.process(), 2 * (440_000 * 1_000 / 48) - UNIT);
    assert_eq!(osc.process(), 2 * (880_000 * 1_000 / 48) - UNIT);
}

#[test]
fn oscillator_square_and_triangle_at_an_eighth_of_the_sample_rate() {
    let mut osc = Oscillator::new(48_000);
    osc.set_frequency(6_000_000_000);
    osc.set_waveform(1);
    let got: Vec<i64> = (0..8).map(|_| osc.process()).collect();
    assert_eq!(got, vec![UNIT, UNIT, UNIT, -UNIT, -UNIT, -UNIT, -UNIT, UNIT]);
    osc.reset_phase();
    osc.set_waveform(3);
    let got: Vec<i64> = (0..8).map(|_| osc.process()).collect();
    assert_eq!(
        got,
        vec![UNIT / 2, UNIT, UNIT / 2, 0, -UNIT / 2, -UNIT, -UNIT / 2, 0]
    );
}

#[test]
fn oscillator_detune_of_an_octave_doubles_the_frequency() {
    let mut plain = Oscillator::new(48_000);
    plain.set_frequency(12_000_000_000);
    let mut detuned = Oscillator::new(48_000);
    detuned.set_frequency(6_000_000_000);
    detuned.set_detune(1200);
    for _ in 0..16 {
        assert_eq!(plain.process(), detuned.process());
    }
    let mut lowered = Oscillator::new(48_000);
    lowered.set_frequency(24_000_000_000);
    lowered.set_detune(-1200);
    for _ in 0..16 {
        assert_eq!(lowered.process(), plain.process());
    }
}

#[test]
fn oscillator_detune_of_fifty_cents_follows_the_formula() {
    let mut detuned = Oscillator::new(48_000);
    detuned.set_waveform(2);
    detuned.set_frequency(1_000_000_000);
    detuned.set_detune(50);
    // 1 kHz times 1.029302237: 1029302237 counts of 48000000000 a sample
    assert_eq!(detuned.process(), 2 * (1_029_302_237i64 * 1_000 / 48_000) - UNIT);
    let mut far = Oscillator::new(48_000);
    far.set_waveform(2);
    far.set_frequency(24_000_000_000);
    far.set_detune(-5000);
    // 24 kHz times 0.05568117
    assert_eq!(far.process(), 2 * (1_336_348_080i64 * 1_000 / 48_000) - UNIT);
}

#[test]
fn oscillator_detune_is_limited_to_twelve_octaves() {
    let mut limit = Oscillator::new(48_000);
    limit.set_frequency(1_000_000);
    limit.set_detune(14_400);
    let mut over = Oscillator::new(48_000);
    over.set_frequency(1_000_000);
    over.set_detune(i64::MAX);
    let mut under = Oscillator::new(48_000);
    under.set_frequency(1_000_000);
    under.set_detune(i64::MIN);
    let mut floor = Oscillator::new(48_000);
    floor.set_frequency(1_000_000);
    floor.set_detune(-14_400);
    for _ in 0..64 {
        assert_eq!(limit.process(), over.process());
        assert_eq!(floor.process(), under.process());
    }
}

#[test]
fn oscillator_frequency_is_never_negative() {
    let mut osc = Oscillator::new(48_000);
    osc.set_waveform(2);
    osc.set_frequency(-5_000);
    assert_eq!(osc.process(), -UNIT);
    assert_eq!(osc.process(), -UNIT);
    osc.set_frequency(i64::MAX);
    // no frequency is too high: the phase advances by all of it and wraps
    assert_eq!(osc.process(), -797_717_676);
}

#[test]
fn oscillator_reset_returns_to_the_start_of_the_cycle() {
    let mut osc = Oscillator::new(48_000);
    osc.set_frequency(12_000_000_000);
    let first = osc.process();
    osc.process();
    osc.reset_phase();
    assert_eq!(osc.process(), first);
}

#[test]
fn oscillator_sample_rate_is_limited() {
    let mut low = Oscillator::new(0);
    low.set_frequency(250_000);
    // one sample a second: a quarter of the sample rate
    assert_eq!(low.process(), UNIT);
    assert_eq!(low.process(), 0);
    let mut high = Oscillator::new(u32::MAX);
    high.set_frequency(48_000_000_000);
    // 192 kHz: a quarter of the sample rate
    high.set_waveform(2);
    assert_eq!(high.process(), -UNIT / 2);
}

#[test]
fn lfo_output_is_scaled_by_the_depth() {
    let mut lfo = Lfo::new(8_000);
    lfo.set_rate(20_000_000);
    // 20 Hz: 20 counts of 8000 per sample
    lfo.set_waveform(2);
    lfo.set_depth(UNIT);
    assert_eq!(lfo.process(), 2 * 2_500_000 - UNIT);
    lfo.set_depth(UNIT / 2);
    assert_eq!(lfo.process(), (2 * 5_000_000 - UNIT) / 2);
    lfo.set_depth(0);
    assert_eq!(lfo.process(), 0);
}

#[test]
fn lfo_depth_is_limited_to_one() {
    let mut lfo = Lfo::new(48_000);
    lfo.set_waveform(1);
    lfo.set_depth(5 * UNIT);
    assert_eq!(lfo.process(), UNIT);
    lfo.set_depth(-UNIT);
    assert_eq!(lfo.process(), 0);
}

#[test]
fn lfo_default_is_one_hertz_at_half_depth() {
    let mut lfo = Lfo::new(48_000);
    lfo.set_waveform(1);
    assert_eq!(lfo.process(), UNIT / 2);
    // one cycle lasts 48000 samples; the square falls after half of it
    for _ in 1..23_999 {
        assert_eq!(lfo.process(), UNIT / 2);
    }
    assert_eq!(lfo.process(), -UNIT / 2);
}

#[test]
fn lfo_unipolar_runs_from_zero_to_one() {
    let mut lfo = Lfo::new(48_000);
    lfo.set_waveform(1);
    lfo.set_rate(20_000_000);
    lfo.set_depth(0);
    assert_eq!(lfo.process_unipolar(), UNIT);
    for _ in 1..1_199 {
        assert_eq!(lfo.process_unipolar(), UNIT);
    }
    assert_eq!(lfo.process_unipolar(), 0);
}

#[test]
fn lfo_rate_has_no_upper_limit() {
    let mut lfo = Lfo::new(8_000);
    lfo.set_waveform(2);
    lfo.set_depth(UNIT);
    lfo.set_rate(2_000_000_000);
    assert_eq!(lfo.process(), -UNIT / 2);
    assert_eq!(lfo.process(), 0);
    lfo.set_rate(i64::MAX);
    let value = lfo.process();
    assert!(-UNIT <= value && value <= UNIT);
}

#[test]
fn lfo_negative_rate_stands_still() {
    let mut lfo = Lfo::new(48_000);
    lfo.set_waveform(2);
    lfo.set_depth(UNIT);
    lfo.set_rate(-10);
    assert_eq!(lfo.process(), -UNIT);
    assert_eq!(lfo.process(), -UNIT);
}
