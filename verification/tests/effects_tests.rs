use rust_dsp::effects::delay::Delay;
use rust_dsp::effects::delay_line::DelayLine;
use rust_dsp::effects::flanger::Flanger;
use rust_dsp::effects::reverb::Reverb;
use rust_dsp::effects::tremolo::Tremolo;
use rust_dsp::fixed::{SAMPLE_LIMIT, UNIT};

#[test]
fn delay_line_hands_back_what_was_written() {
    let mut line = DelayLine::new(3);
    assert_eq!(line.len(), 3);
    assert_eq!(line.read(1), 0);
    assert_eq!(line.read(3), 0);
    line.write(1);
    line.write(2);
    line.write(3);
    assert_eq!(line.read(1), 3);
    assert_eq!(line.read(2), 2);
    assert_eq!(line.read(3), 1);
    line.write(4);
    assert_eq!(line.read(1), 4);
    assert_eq!(line.read(3), 2);
    assert_eq!(line.len(), 3);
}

#[test]
fn delay_line_of_one_sample_keeps_the_last_one() {
    let mut line = DelayLine::new(1);
    line.write(9);
    assert_eq!(line.read(1), 9);
    line.write(-4);
    assert_eq!(line.read(1), -4);
}

#[test]
fn delay_line_is_never_empty() {
    let mut line = DelayLine::new(0);
    assert_eq!(line.len(), 1);
    line.write(5);
    assert_eq!(line.read(1), 5);
}

#[test]
fn delay_line_limits_the_age_to_the_line() {
    let mut line = DelayLine::new(3);
    line.write(1);
    line.write(2);
    line.write(3);
    assert_eq!(line.read(0), 3);
    assert_eq!(line.read(4), 1);
    assert_eq!(line.read(usize::MAX), 1);
}

#[test]
fn effects_run_at_the_lowest_sample_rate() {
    let mut delay = Delay::new(0, 10);
    delay.set_feedback(0);
    delay.set_mix(UNIT);
    assert_eq!(delay.process(UNIT), 0);
    assert_eq!(delay.process(0), UNIT);
    assert_eq!(delay.process(0), 0);
    let mut flanger = Flanger::new(50);
    flanger.set_feedback(0);
    flanger.set_mix(UNIT);
    assert_eq!(flanger.process(UNIT), 0);
    assert_eq!(flanger.process(0), UNIT);
    let mut reverb = Reverb::new(1);
    assert_eq!(reverb.process(UNIT), UNIT);
    for _ in 0..10 {
        let out = reverb.process(0);
        assert!(-SAMPLE_LIMIT <= out && out <= SAMPLE_LIMIT);
    }
    let mut tremolo = Tremolo::new(0);
    tremolo.set_depth(0);
    assert_eq!(tremolo.process(9), 9);
}

#[test]
fn delay_echoes_an_impulse() {
    let mut delay = Delay::new(8_000, 10);
    delay.set_delay_time(1);
    delay.set_feedback(UNIT / 2);
    delay.set_mix(UNIT / 2);
    let mut got: Vec<i64> = vec![delay.process(UNIT)];
    for _ in 0..24 {
        got.push(delay.process(0));
    }
    let mut expected: Vec<i64> = vec![0; 25];
    expected[0] = 500_000_000;
    expected[8] = 500_000_000;
    expected[16] = 250_000_000;
    expected[24] = 125_000_000;
    assert_eq!(got, expected);
}

#[test]
fn delay_mix_of_zero_passes_the_input() {
    let mut delay = Delay::new(48_000, 2_000);
    delay.set_mix(0);
    for x in [UNIT, -UNIT, 5, 0, 123_456_789] {
        assert_eq!(delay.process(x), x);
    }
}

#[test]
fn delay_time_is_limited_to_the_line() {
    let mut delay = Delay::new(8_000, 10);
    delay.set_delay_time(5_000);
    delay.set_feedback(0);
    delay.set_mix(UNIT);
    let mut got: Vec<i64> = vec![delay.process(UNIT)];
    for _ in 0..80 {
        got.push(delay.process(0));
    }
    // the line holds 80 samples
    for (i, v) in got.iter().enumerate() {
        assert_eq!(*v, if i == 80 { UNIT } else { 0 });
    }
    let mut shortest = Delay::new(8_000, 10);
    shortest.set_delay_time(-3);
    shortest.set_feedback(0);
    shortest.set_mix(UNIT);
    assert_eq!(shortest.process(UNIT), 0);
    assert_eq!(shortest.process(0), UNIT);
    assert_eq!(shortest.process(0), 0);
}

#[test]
fn delay_feedback_is_limited_to_0_95() {
    let mut delay = Delay::new(8_000, 10);
    delay.set_delay_time(0);
    delay.set_feedback(5 * UNIT);
    delay.set_mix(UNIT);
    let got: Vec<i64> = vec![delay.process(UNIT), delay.process(0), delay.process(0)];
    assert_eq!(got, vec![0, UNIT, 950_000_000]);
    let mut none = Delay::new(8_000, 10);
    none.set_delay_time(0);
    none.set_feedback(-UNIT);
    none.set_mix(2 * UNIT);
    let got: Vec<i64> = vec![none.process(UNIT), none.process(0), none.process(0)];
    assert_eq!(got, vec![0, UNIT, 0]);
}

#[test]
fn delay_defaults_are_a_quarter_second_at_0_3() {
    let mut delay = Delay::new(8_000, 2_000);
    let mut got: Vec<i64> = vec![delay.process(UNIT)];
    for _ in 0..4_000 {
        got.push(delay.process(0));
    }
    assert_eq!(got[0], 700_000_000);
    assert_eq!(got[2_000], 300_000_000);
    assert_eq!(got[4_000], 90_000_000);
    assert_eq!(got.iter().filter(|v| **v != 0).count(), 3);
}

#[test]
fn delay_stays_inside_the_signal_range() {
    let mut delay = Delay::new(8_000, 1);
    delay.set_delay_time(0);
    delay.set_feedback(UNIT);
    delay.set_mix(UNIT / 2);
    for _ in 0..100 {
        let out = delay.process(i64::MAX);
        assert!(-SAMPLE_LIMIT <= out && out <= SAMPLE_LIMIT);
    }
    assert_eq!(delay.process(i64::MAX), SAMPLE_LIMIT);
    assert_eq!(delay.process(i64::MIN), -SAMPLE_LIMIT);
}

#[test]
fn tremolo_without_depth_passes_the_input() {
    let mut tremolo = Tremolo::new(48_000);
    tremolo.set_depth(0);
    for x in [UNIT, -UNIT, 17, 0, SAMPLE_LIMIT] {
        assert_eq!(tremolo.process(x), x);
    }
}

#[test]
fn tremolo_moves_the_gain_with_its_oscillator() {
    let mut tremolo = Tremolo::new(8_000);
    tremolo.set_rate(20_000_000);
    tremolo.set_depth(UNIT);
    assert_eq!(tremolo.process(UNIT), 492_008_193);
    assert_eq!(tremolo.process(UNIT), 484_033_546);
    assert_eq!(tremolo.process(-UNIT), -476_077_233);
    assert_eq!(tremolo.process(3), 1);
}

#[test]
fn tremolo_defaults_are_five_hertz_at_half_depth() {
    let mut tremolo = Tremolo::new(48_000);
    assert_eq!(tremolo.process(UNIT), 749_833_342);
    assert_eq!(tremolo.process(UNIT), 749_666_696);
}

#[test]
fn tremolo_never_amplifies() {
    let mut tremolo = Tremolo::new(44_100);
    tremolo.set_rate(20_000_000);
    tremolo.set_depth(i64::MAX);
    let mut lowest = UNIT;
    for _ in 0..5_000 {
        let out = tremolo.process(UNIT);
        assert!(0 <= out && out <= UNIT);
        lowest = lowest.min(out);
    }
    assert!(lowest < 1_000);
    let out = tremolo.process(i64::MAX);
    assert!(0 <= out && out <= SAMPLE_LIMIT);
}

#[test]
fn flanger_without_sweep_is_a_one_sample_echo() {
    let mut flanger = Flanger::new(48_000);
    flanger.set_delay_range(0);
    flanger.set_feedback(0);
    flanger.set_mix(UNIT / 2);
    assert_eq!(flanger.process(800), 400);
    assert_eq!(flanger.process(200), 500);
    assert_eq!(flanger.process(-600), -200);
    assert_eq!(flanger.process(0), -300);
    assert_eq!(flanger.process(0), 0);
}

#[test]
fn flanger_feeds_the_delayed_signal_back() {
    let mut flanger = Flanger::new(48_000);
    flanger.set_delay_range(0);
    flanger.set_feedback(UNIT / 2);
    flanger.set_mix(UNIT);
    let got: Vec<i64> = vec![
        flanger.process(1_000),
        flanger.process(0),
        flanger.process(0),
        flanger.process(0),
    ];
    assert_eq!(got, vec![0, 1_000, 500, 250]);
}

#[test]
fn flanger_mix_of_zero_passes_the_input() {
    let mut flanger = Flanger::new(48_000);
    flanger.set_mix(-7);
    flanger.set_lfo_rate(3_000_000);
    for x in [UNIT, -UNIT, 5, 0, 123_456_789] {
        assert_eq!(flanger.process(x), x);
    }
}

#[test]
fn flanger_sweeps_the_delay() {
    let mut flanger = Flanger::new(8_000);
    flanger.set_lfo_rate(20_000_000);
    flanger.set_delay_range(UNIT);
    flanger.set_feedback(0);
    flanger.set_mix(UNIT);
    // the line holds 80 samples; at the first sample the sweep stands at
    // 0.507991807 of 79 samples
    let mut got: Vec<i64> = vec![flanger.process(UNIT)];
    for _ in 0..80 {
        got.push(flanger.process(0));
    }
    assert_eq!(got[0], 0);
    let heard: Vec<usize> = (0..got.len()).filter(|i| got[*i] != 0).collect();
    assert!(!heard.is_empty());
    for i in heard.iter() {
        assert_eq!(got[*i], UNIT);
        assert!(40 <= *i && *i <= 80);
    }
}

#[test]
fn reverb_passes_the_input_and_adds_a_tail() {
    let mut reverb = Reverb::new(8_000);
    let mut got: Vec<i64> = vec![reverb.process(UNIT)];
    for _ in 0..370 {
        got.push(reverb.process(0));
    }
    let heard: Vec<(usize, i64)> =
        (0..got.len()).filter(|i| got[*i] != 0).map(|i| (i, got[i])).collect();
    assert_eq!(
        heard,
        vec![
            (0, UNIT),
            (202, 15_000_000),
            (215, 15_000_000),
            (231, 15_000_000),
            (245, 15_000_000),
            (282, -15_000_000),
            (295, -15_000_000),
            (302, -15_000_000),
            (311, -15_000_000),
            (315, -15_000_000),
            (325, -15_000_000),
            (331, -15_000_000),
            (345, -15_000_000),
            (362, -7_500_000)
        ]
    );
}

#[test]
fn reverb_room_size_and_damping_are_limited() {
    let mut large = Reverb::new(8_000);
    large.set_room_size(UNIT);
    large.set_damping(UNIT);
    let mut over = Reverb::new(8_000);
    over.set_room_size(i64::MAX);
    over.set_damping(i64::MAX);
    let mut small = Reverb::new(8_000);
    small.set_room_size(0);
    small.set_damping(0);
    let mut under = Reverb::new(8_000);
    under.set_room_size(-1);
    under.set_damping(i64::MIN);
    let mut differs = false;
    for i in 0..2_000 {
        let x = if i == 0 { UNIT } else { 0 };
        let a = large.process(x);
        assert_eq!(a, over.process(x));
        let b = small.process(x);
        assert_eq!(b, under.process(x));
        differs = differs || a != b;
    }
    assert!(differs);
}

#[test]
fn reverb_of_silence_is_silence() {
    let mut reverb = Reverb::new(48_000);
    for _ in 0..3_000 {
        assert_eq!(reverb.process(0), 0);
    }
}

#[test]
fn reverb_stays_inside_the_signal_range() {
    let mut reverb = Reverb::new(8_000);
    reverb.set_room_size(UNIT);
    for i in 0..3_000 {
        let out = reverb.process(if i % 2 == 0 { i64::MAX } else { i64::MIN });
        assert!(-SAMPLE_LIMIT <= out && out <= SAMPLE_LIMIT);
    }
}
