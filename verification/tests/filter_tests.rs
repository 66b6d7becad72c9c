use rust_dsp::fixed::{SAMPLE_LIMIT, UNIT};
use rust_dsp::StateVariableFilter;

#[test]
fn new_filter_is_fully_open() {
    let filter = StateVariableFilter::new(48_000);
    assert_eq!(filter.cutoff(), 20_000_000_000);
    assert_eq!(filter.notch(), 0);
}

#[test]
fn cutoff_inside_the_range_is_kept() {
    let mut filter = StateVariableFilter::new(48_000);
    for cutoff in [20_000_000i64, 20_000_001, 440_000_000, 19_999_999_999, 20_000_000_000] {
        filter.set_cutoff(cutoff);
        assert_eq!(filter.cutoff(), cutoff);
    }
}

#[test]
fn cutoff_outside_the_range_is_limited() {
    let mut filter = StateVariableFilter::new(48_000);
    for cutoff in [19_999_999i64, 0, -1, -440_000_000, i64::MIN] {
        filter.set_cutoff(cutoff);
        assert_eq!(filter.cutoff(), 20_000_000);
    }
    for cutoff in [20_000_000_001i64, 1_000_000_000_000, i64::MAX] {
        filter.set_cutoff(cutoff);
        assert_eq!(filter.cutoff(), 20_000_000_000);
    }
}

#[test]
fn lowpass_at_1_khz_follows_the_recursion() {
    let mut filter = StateVariableFilter::new(48_000);
    filter.set_cutoff(1_000_000_000);
    let got: Vec<i64> = (0..4).map(|_| filter.process(UNIT)).collect();
    assert_eq!(got, vec![0, 1_736_111, 5_154_176, 10_198_713]);
    assert_eq!(filter.notch(), 914_404_289);
}

#[test]
fn highpass_at_1_khz_follows_the_recursion() {
    let mut filter = StateVariableFilter::new(48_000);
    filter.set_cutoff(1_000_000_000);
    let got: Vec<i64> = (0..4).map(|_| filter.process_highpass(UNIT)).collect();
    assert_eq!(got, vec![UNIT, 968_805_557, 936_848_095, 904_205_576]);
}

#[test]
fn bandpass_at_1_khz_follows_the_recursion() {
    let mut filter = StateVariableFilter::new(48_000);
    filter.set_cutoff(1_000_000_000);
    let got: Vec<i64> = (0..4).map(|_| filter.process_bandpass(UNIT)).collect();
    assert_eq!(got, vec![41_666_666, 82_033_563, 121_068_899, 158_744_130]);
}

#[test]
fn open_filter_uses_a_coefficient_of_one_half() {
    let mut filter = StateVariableFilter::new(48_000);
    assert_eq!(filter.process(UNIT), 0);
    assert_eq!(filter.notch(), UNIT);
    assert_eq!(filter.process(-UNIT), 250_000_000);
    assert_eq!(filter.notch(), -1_353_500_000);
    assert_eq!(filter.process(500_000_000), 99_125_000);
    assert_eq!(filter.process(0), 101_803_062);
    assert_eq!(filter.notch(), -3_786_780);
}

#[test]
fn the_three_outputs_share_one_state_update() {
    let inputs = [UNIT, -UNIT, 500_000_000, 0, 123_456_789, -987_654_321];
    let mut low = StateVariableFilter::new(48_000);
    let mut high = StateVariableFilter::new(48_000);
    let mut band = StateVariableFilter::new(48_000);
    for x in inputs {
        let l = low.process(x);
        let h = high.process_highpass(x);
        band.process_bandpass(x);
        assert_eq!(low.notch(), high.notch());
        assert_eq!(low.notch(), band.notch());
        assert_eq!(low.notch(), h + l);
    }
}

#[test]
fn two_runs_from_new_filters_agree() {
    let mut seed: u64 = 0x1234_5678_9abc_def0;
    let mut inputs: Vec<i64> = Vec::new();
    for _ in 0..2_000 {
        seed = seed.wrapping_mul(6364136223846793005).wrapping_add(1442695040888963407);
        inputs.push(((seed >> 33) as i64 % (2 * UNIT)) - UNIT);
    }
    let mut first = StateVariableFilter::new(48_000);
    first.set_cutoff(2_500_000_000);
    let mut second = StateVariableFilter::new(48_000);
    second.set_cutoff(2_500_000_000);
    let a: Vec<i64> = inputs.iter().map(|x| first.process(*x)).collect();
    let b: Vec<i64> = inputs.iter().map(|x| second.process(*x)).collect();
    assert_eq!(a, b);
    assert_eq!(first.notch(), second.notch());
    assert!(a.iter().any(|v| *v != 0));
}

#[test]
fn resonance_lowers_the_damping() {
    let mut filter = StateVariableFilter::new(48_000);
    filter.set_cutoff(1_000_000_000);
    filter.set_resonance(UNIT);
    let got: Vec<i64> = (0..3).map(|_| filter.process(UNIT)).collect();
    assert_eq!(got, vec![0, 1_736_111, 5_198_085]);
    let mut high = StateVariableFilter::new(48_000);
    high.set_cutoff(1_000_000_000);
    high.set_resonance(UNIT);
    high.process_highpass(UNIT);
    // damping 0.1: 1 - 0.001736111 - 0.1 * 0.041666666
    assert_eq!(high.process_highpass(UNIT), 994_097_223);
}

#[test]
fn resonance_outside_the_range_is_limited() {
    let mut full = StateVariableFilter::new(48_000);
    full.set_cutoff(1_000_000_000);
    full.set_resonance(UNIT);
    let mut over = StateVariableFilter::new(48_000);
    over.set_cutoff(1_000_000_000);
    over.set_resonance(i64::MAX);
    let mut none = StateVariableFilter::new(48_000);
    none.set_cutoff(1_000_000_000);
    let mut under = StateVariableFilter::new(48_000);
    under.set_cutoff(1_000_000_000);
    under.set_resonance(i64::MIN);
    for _ in 0..50 {
        assert_eq!(full.process(UNIT), over.process(UNIT));
        assert_eq!(none.process(UNIT), under.process(UNIT));
    }
}

#[test]
fn filter_state_is_held_inside_the_signal_range() {
    let mut filter = StateVariableFilter::new(48_000);
    let huge: i64 = 1_000_000_000_000_000_000;
    for i in 0..2_000 {
        let x = if i % 2 == 0 { huge } else { -huge };
        let low = filter.process(x);
        assert!(-SAMPLE_LIMIT <= low && low <= SAMPLE_LIMIT);
        assert!(-2 * SAMPLE_LIMIT <= filter.notch() && filter.notch() <= 2 * SAMPLE_LIMIT);
    }
    assert_eq!(filter.process(i64::MAX), SAMPLE_LIMIT);
    filter.process(i64::MIN);
}

#[test]
fn silence_in_gives_silence_out() {
    let mut filter = StateVariableFilter::new(44_100);
    filter.set_cutoff(500_000_000);
    for _ in 0..100 {
        assert_eq!(filter.process(0), 0);
        assert_eq!(filter.process_highpass(0), 0);
        assert_eq!(filter.process_bandpass(0), 0);
    }
}

#[test]
fn lowpass_settles_on_a_constant_input() {
    let mut filter = StateVariableFilter::new(48_000);
    filter.set_cutoff(1_000_000_000);
    let mut last = 0;
    for _ in 0..20_000 {
        last = filter.process(UNIT);
    }
    assert!((last - UNIT).abs() < 1_000);
}
