use rust_dsp::fixed::{
    accept_rate, add_sat, blend, clamp, clamp_wide, mul_sat, samples_for, saturate, wide_product,
    wide_scale, SAMPLE_LIMIT, UNIT,
};
use rust_dsp::midi_to_freq;
use rust_dsp::pitch::{cent, detune_factor, octave_multiplier, semitone};

#[test]
fn concert_pitch_is_440_hz() {
    assert_eq!(midi_to_freq(69), 440_000_000);
}

#[test]
fn octave_above_concert_pitch_is_880_hz() {
    assert_eq!(midi_to_freq(81), 880_000_000);
}

#[test]
fn octave_below_concert_pitch_is_220_hz() {
    assert_eq!(midi_to_freq(57), 220_000_000);
}

#[test]
fn note_frequencies_across_the_keyboard() {
    assert_eq!(midi_to_freq(0), 8_175_799);
    assert_eq!(midi_to_freq(21), 27_500_000);
    assert_eq!(midi_to_freq(60), 261_625_565);
    assert_eq!(midi_to_freq(108), 4_186_009_045);
    assert_eq!(midi_to_freq(127), 12_543_853_949);
}

#[test]
fn note_numbers_above_127_count_as_127() {
    assert_eq!(midi_to_freq(128), midi_to_freq(127));
    assert_eq!(midi_to_freq(200), 12_543_853_949);
    assert_eq!(midi_to_freq(255), 12_543_853_949);
}

#[test]
fn twelve_semitones_double_the_frequency_to_the_nearest_microhertz() {
    for note in 0u8..=115 {
        let gap = midi_to_freq(note + 12) - 2 * midi_to_freq(note);
        assert!(-1 <= gap && gap <= 1);
    }
    assert_eq!(midi_to_freq(83), 987_766_602);
    assert_eq!(midi_to_freq(71), 493_883_301);
}

#[test]
fn note_frequencies_follow_the_formula() {
    for note in 0u8..=127 {
        let exact = 440.0f64 * 2.0f64.powf((note as f64 - 69.0) / 12.0);
        let got = midi_to_freq(note) as f64 / 1_000_000.0;
        assert!((got / exact - 1.0).abs() < 1.0e-7);
    }
}

#[test]
fn note_frequencies_rise_with_the_note_number() {
    for note in 0u8..127 {
        assert!(midi_to_freq(note) < midi_to_freq(note + 1));
    }
}

#[test]
fn semitone_table_runs_from_one_to_two() {
    assert_eq!(semitone(0), UNIT);
    assert_eq!(semitone(1), 1_059_463_094);
    assert_eq!(semitone(7), 1_498_307_077);
    assert_eq!(semitone(12), 2 * UNIT);
    assert_eq!(semitone(-3), UNIT);
    assert_eq!(semitone(40), 2 * UNIT);
}

#[test]
fn octave_multiplier_is_a_power_of_two() {
    assert_eq!(octave_multiplier(-2), 1);
    assert_eq!(octave_multiplier(0), 1);
    assert_eq!(octave_multiplier(1), 2);
    assert_eq!(octave_multiplier(4), 16);
    assert_eq!(octave_multiplier(6), 64);
    assert_eq!(octave_multiplier(7), 128);
    assert_eq!(octave_multiplier(11), 2_048);
    assert_eq!(octave_multiplier(12), 4_096);
    assert_eq!(octave_multiplier(i64::MAX), 4_096);
}

#[test]
fn no_detune_leaves_the_frequency() {
    assert_eq!(detune_factor(0), UNIT);
}

#[test]
fn detune_at_whole_semitones_matches_the_table() {
    assert_eq!(detune_factor(100), 1_059_463_094);
    assert_eq!(detune_factor(700), 1_498_307_077);
    assert_eq!(detune_factor(-100), 943_874_313);
    assert_eq!(detune_factor(1200), 2 * UNIT);
    assert_eq!(detune_factor(-1200), UNIT / 2);
}

#[test]
fn detune_between_semitones_follows_the_formula() {
    assert_eq!(detune_factor(1), 1_000_577_790);
    assert_eq!(detune_factor(7), 1_004_051_544);
    assert_eq!(detune_factor(50), 1_029_302_237);
    assert_eq!(detune_factor(-50), 971_531_942);
    assert_eq!(detune_factor(1199), 1_998_845_088);
    for cents in -1200i64..=1200 {
        let exact = 2.0f64.powf(cents as f64 / 1200.0);
        let got = detune_factor(cents) as f64 / UNIT as f64;
        assert!((got / exact - 1.0).abs() < 3.0e-9);
    }
}

#[test]
fn detune_over_several_octaves() {
    assert_eq!(detune_factor(2400), 4 * UNIT);
    assert_eq!(detune_factor(5000), 17_959_392_768);
    assert_eq!(detune_factor(-5000), 55_681_170);
    assert_eq!(detune_factor(14_400), 4_096 * UNIT);
    assert_eq!(detune_factor(-14_400), 244_141);
}

#[test]
fn detune_beyond_twelve_octaves_counts_as_twelve_octaves() {
    assert_eq!(detune_factor(14_401), 4_096 * UNIT);
    assert_eq!(detune_factor(-14_401), 244_141);
    assert_eq!(detune_factor(i64::MAX), 4_096 * UNIT);
    assert_eq!(detune_factor(i64::MIN), 244_141);
}

#[test]
fn detune_factor_rises_with_the_cents() {
    for cents in -1200i64..1200 {
        assert!(detune_factor(cents) < detune_factor(cents + 1));
    }
    for cents in -14_400i64..14_400 {
        assert!(detune_factor(cents) <= detune_factor(cents + 1));
    }
}

#[test]
fn cent_table_runs_from_one_to_just_below_a_semitone() {
    assert_eq!(cent(0), UNIT);
    assert_eq!(cent(1), 1_000_577_790);
    assert_eq!(cent(50), 1_029_302_237);
    assert_eq!(cent(99), 1_058_851_301);
    assert_eq!(cent(-4), UNIT);
    assert_eq!(cent(100), 1_058_851_301);
    for k in 0i64..99 {
        assert!(cent(k) < cent(k + 1));
    }
    assert!(cent(99) < semitone(1));
}

#[test]
fn clamp_limits_to_the_interval() {
    assert_eq!(clamp(5, 0, 10), 5);
    assert_eq!(clamp(-5, 0, 10), 0);
    assert_eq!(clamp(15, 0, 10), 10);
    assert_eq!(clamp(7, 7, 7), 7);
    assert_eq!(clamp_wide(1i128 << 100, -3, 9), 9);
    assert_eq!(clamp_wide(-(1i128 << 100), -3, 9), -3);
    assert_eq!(clamp_wide(4, -3, 9), 4);
}

#[test]
fn saturate_holds_values_at_the_signal_limit() {
    assert_eq!(saturate(0), 0);
    assert_eq!(saturate(SAMPLE_LIMIT as i128 + 1), SAMPLE_LIMIT);
    assert_eq!(saturate(-(SAMPLE_LIMIT as i128) - 1), -SAMPLE_LIMIT);
    assert_eq!(saturate(123_456), 123_456);
    assert_eq!(saturate(i128::MAX), SAMPLE_LIMIT);
    assert_eq!(saturate(i128::MIN), -SAMPLE_LIMIT);
}

#[test]
fn products_round_toward_zero() {
    assert_eq!(mul_sat(UNIT / 2, UNIT / 2), UNIT / 4);
    assert_eq!(mul_sat(3, 500_000_000), 1);
    assert_eq!(mul_sat(-3, 500_000_000), -1);
    assert_eq!(mul_sat(3, -500_000_000), -1);
    assert_eq!(mul_sat(1, 1), 0);
    assert_eq!(mul_sat(-1, 1), 0);
    assert_eq!(mul_sat(UNIT, 777), 777);
    assert_eq!(mul_sat(0, 777), 0);
    assert_eq!(wide_scale(-7, 300_000_000), -2);
    assert_eq!(wide_scale(7, 300_000_000), 2);
}

#[test]
fn products_are_held_at_the_signal_limit() {
    assert_eq!(mul_sat(i64::MAX, i64::MAX), SAMPLE_LIMIT);
    assert_eq!(mul_sat(i64::MIN, i64::MAX), -SAMPLE_LIMIT);
    assert_eq!(mul_sat(i64::MIN, i64::MIN), SAMPLE_LIMIT);
    assert_eq!(mul_sat(2_000 * UNIT, UNIT), SAMPLE_LIMIT);
}

#[test]
fn wide_product_is_exact() {
    assert_eq!(wide_product(i64::MAX, i64::MAX), (i64::MAX as i128) * (i64::MAX as i128));
    assert_eq!(wide_product(i64::MIN, i64::MIN), (i64::MIN as i128) * (i64::MIN as i128));
    assert_eq!(wide_product(-3, 4), -12);
}

#[test]
fn sums_are_held_at_the_signal_limit() {
    assert_eq!(add_sat(1, 2), 3);
    assert_eq!(add_sat(SAMPLE_LIMIT, 1), SAMPLE_LIMIT);
    assert_eq!(add_sat(-SAMPLE_LIMIT, -1), -SAMPLE_LIMIT);
    assert_eq!(add_sat(i64::MAX, i64::MAX), SAMPLE_LIMIT);
    assert_eq!(add_sat(i64::MIN, i64::MIN), -SAMPLE_LIMIT);
    assert_eq!(add_sat(i64::MAX, i64::MIN), -1);
}

#[test]
fn blend_weighs_dry_and_wet() {
    assert_eq!(blend(0, 100, 900), 100);
    assert_eq!(blend(UNIT, 100, 900), 900);
    assert_eq!(blend(UNIT / 2, 100, 900), 500);
    assert_eq!(blend(250_000_000, 1_000, -1_000), 500);
    assert_eq!(blend(-5, 100, 900), 100);
    assert_eq!(blend(5 * UNIT, 100, 900), 900);
    assert_eq!(blend(UNIT / 2, i64::MAX, i64::MAX), SAMPLE_LIMIT);
}

#[test]
fn sample_rates_are_limited_to_the_supported_range() {
    assert_eq!(accept_rate(0), 1);
    assert_eq!(accept_rate(1), 1);
    assert_eq!(accept_rate(7_999), 7_999);
    assert_eq!(accept_rate(44_100), 44_100);
    assert_eq!(accept_rate(48_000), 48_000);
    assert_eq!(accept_rate(192_001), 192_000);
    assert_eq!(accept_rate(u32::MAX), 192_000);
}

#[test]
fn samples_for_counts_whole_samples() {
    assert_eq!(samples_for(0, 48_000), 0);
    assert_eq!(samples_for(1, 48_000), 48);
    assert_eq!(samples_for(10, 44_100), 441);
    assert_eq!(samples_for(1, 8_500), 8);
    assert_eq!(samples_for(2_000, 48_000), 96_000);
}
