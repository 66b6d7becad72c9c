use rust_dsp::effects::glide::Glide;
use rust_dsp::envelope::{move_towards, Envelope};
use rust_dsp::fixed::UNIT;

#[test]
fn new_envelope_is_idle_and_silent() {
    let mut env = Envelope::new(48_000);
    assert!(!env.is_active());
    assert_eq!(env.process(), 0);
    assert_eq!(env.process(), 0);
    assert!(!env.is_active());
}

#[test]
fn envelope_walks_through_all_stages() {
    let mut env = Envelope::new(8_000);
    env.set_adsr(1, 1, UNIT / 2, 1);
    env.gate_on();
    assert!(env.is_active());
    let attack: Vec<i64> = (0..8).map(|_| env.process()).collect();
    assert_eq!(
        attack,
        vec![
            125_000_000,
            250_000_000,
            375_000_000,
            500_000_000,
            625_000_000,
            750_000_000,
            875_000_000,
            UNIT
        ]
    );
    let decay: Vec<i64> = (0..4).map(|_| env.process()).collect();
    assert_eq!(decay, vec![875_000_000, 750_000_000, 625_000_000, 500_000_000]);
    for _ in 0..100 {
        assert_eq!(env.process(), 500_000_000);
    }
    assert!(env.is_active());
    env.gate_off();
    let release: Vec<i64> = (0..4).map(|_| env.process()).collect();
    assert_eq!(release, vec![375_000_000, 250_000_000, 125_000_000, 0]);
    assert!(!env.is_active());
    assert_eq!(env.process(), 0);
}

#[test]
fn envelope_default_times_at_48_khz() {
    let mut env = Envelope::new(48_000);
    env.gate_on();
    assert_eq!(env.process(), 2_083_333);
    assert_eq!(env.process(), 4_166_666);
    let mut level = 0;
    for _ in 0..478 {
        level = env.process();
    }
    // 480 steps of 2083333 fall just short of 1; the next one arrives
    assert_eq!(level, 480 * 2_083_333);
    assert_eq!(env.process(), UNIT);
    // the decay of 100 ms falls by 208333 a sample
    assert_eq!(env.process(), UNIT - 208_333);
    let mut last = UNIT;
    for _ in 0..4_800 {
        last = env.process();
    }
    assert_eq!(last, 700_000_000);
    env.gate_off();
    assert_eq!(env.process(), 700_000_000 - 69_444);
}

#[test]
fn envelope_with_no_attack_time_opens_in_one_sample() {
    let mut env = Envelope::new(48_000);
    env.set_adsr(0, 0, UNIT, 0);
    env.gate_on();
    assert_eq!(env.process(), UNIT);
    assert_eq!(env.process(), UNIT);
    env.gate_off();
    assert_eq!(env.process(), 0);
    assert!(!env.is_active());
}

#[test]
fn long_ramps_move_slowly() {
    let mut env = Envelope::new(48_000);
    env.set_adsr(60_000, 0, UNIT, 3_600_000);
    env.gate_on();
    // 60 s at 48 kHz: 2880000 samples
    assert_eq!(env.process(), 347);
    assert_eq!(env.process(), 694);
    env.gate_off();
    // an hour at 48 kHz: 172800000 samples
    assert_eq!(env.process(), 694 - 5);
}

#[test]
fn negative_times_count_as_zero_and_the_sustain_level_is_limited() {
    let mut env = Envelope::new(48_000);
    env.set_adsr(-5, 1_000_000_000, 2 * UNIT, i64::MAX);
    env.gate_on();
    assert_eq!(env.process(), UNIT);
    // the sustain level is limited to 1: the decay ends at once
    assert_eq!(env.process(), UNIT);
    env.gate_off();
    // the slowest ramp moves by one billionth a sample
    assert_eq!(env.process(), UNIT - 1);
    let mut env = Envelope::new(48_000);
    env.set_adsr(0, 0, -UNIT, 0);
    env.gate_on();
    assert_eq!(env.process(), UNIT);
    assert_eq!(env.process(), 0);
    assert_eq!(env.process(), 0);
    assert!(env.is_active());
}

#[test]
fn gate_on_then_gate_off_brings_no_jump() {
    let mut env = Envelope::new(8_000);
    env.set_adsr(1, 1, UNIT / 2, 1);
    env.gate_on();
    env.gate_off();
    assert_eq!(env.process(), 0);
    assert!(!env.is_active());
    env.gate_on();
    let mut level = 0;
    for _ in 0..3 {
        level = env.process();
    }
    assert_eq!(level, 375_000_000);
    env.gate_on();
    env.gate_off();
    let next = env.process();
    assert_eq!(next, 250_000_000);
    assert!(level - next <= 125_000_000 && next <= level);
}

#[test]
fn retrigger_starts_from_the_current_level() {
    let mut env = Envelope::new(8_000);
    env.set_adsr(1, 1, UNIT / 2, 1);
    env.gate_on();
    for _ in 0..8 {
        env.process();
    }
    env.gate_off();
    assert_eq!(env.process(), 875_000_000);
    assert_eq!(env.process(), 750_000_000);
    env.gate_on();
    assert_eq!(env.process(), 875_000_000);
    assert_eq!(env.process(), UNIT);
}

#[test]
fn envelope_changes_by_at_most_one_step_a_sample() {
    let mut env = Envelope::new(48_000);
    env.set_adsr(3, 7, 300_000_000, 11);
    let step = UNIT / 144;
    let mut before = 0;
    env.gate_on();
    for i in 0..3_000 {
        if i == 100 || i == 1_700 {
            env.gate_off();
        }
        if i == 130 {
            env.gate_on();
        }
        let level = env.process();
        assert!((level - before).abs() <= step);
        assert!(0 <= level && level <= UNIT);
        before = level;
    }
    assert!(!env.is_active());
}

#[test]
fn decay_rises_to_a_sustain_level_above_the_level() {
    let mut env = Envelope::new(8_000);
    env.set_adsr(0, 1, UNIT / 2, 1);
    env.gate_on();
    assert_eq!(env.process(), UNIT);
    assert_eq!(env.process(), 875_000_000);
    env.set_adsr(0, 1, UNIT, 1);
    assert_eq!(env.process(), UNIT);
}

#[test]
fn move_towards_stops_on_the_target() {
    assert_eq!(move_towards(0, 10, 3), 3);
    assert_eq!(move_towards(9, 10, 3), 10);
    assert_eq!(move_towards(10, 10, 3), 10);
    assert_eq!(move_towards(12, 10, 3), 10);
    assert_eq!(move_towards(20, 10, 3), 17);
    assert_eq!(move_towards(-20, -10, 3), -17);
    assert_eq!(move_towards(5, 10, 0), 5);
}

#[test]
fn new_glide_rests_at_zero() {
    let mut glide = Glide::new(48_000);
    assert_eq!(glide.get_frequency(), 0);
    assert_eq!(glide.process(), 0);
}

#[test]
fn glide_without_time_jumps_to_the_target() {
    let mut glide = Glide::new(48_000);
    glide.set_target(440_000_000);
    assert_eq!(glide.get_frequency(), 440_000_000);
    assert_eq!(glide.process(), 440_000_000);
    glide.set_target(220_000_000);
    assert_eq!(glide.get_frequency(), 220_000_000);
}

#[test]
fn glide_from_220_to_440_hz_rises_and_arrives_in_time() {
    let mut glide = Glide::new(48_000);
    glide.set_target(220_000_000);
    glide.set_glide_time(100);
    glide.set_target(440_000_000);
    assert_eq!(glide.get_frequency(), 220_000_000);
    let mut before = 220_000_000;
    let mut arrived_at = 0;
    for n in 1..=4_800 {
        let f = glide.process();
        assert!(f >= before);
        assert!(f <= 440_000_000);
        if f == 440_000_000 && arrived_at == 0 {
            arrived_at = n;
        }
        if n == 1 {
            assert_eq!(f, 220_045_834);
        }
        if n == 4_799 {
            assert_eq!(f, 439_957_366);
        }
        before = f;
    }
    assert_eq!(arrived_at, 4_800);
    assert_eq!(glide.get_frequency(), 440_000_000);
    assert_eq!(glide.process(), 440_000_000);
}

#[test]
fn glide_downwards_falls_and_arrives_in_time() {
    let mut glide = Glide::new(48_000);
    glide.set_target(440_000_000);
    glide.set_glide_time(100);
    glide.set_target(220_000_000);
    let mut before = 440_000_000;
    for _ in 0..4_800 {
        let f = glide.process();
        assert!(f <= before);
        assert!(f >= 220_000_000);
        before = f;
    }
    assert_eq!(before, 220_000_000);
}

#[test]
fn new_target_keeps_the_progress_made() {
    let mut glide = Glide::new(48_000);
    glide.set_target(220_000_000);
    glide.set_glide_time(100);
    glide.set_target(440_000_000);
    for _ in 0..1_000 {
        glide.process();
    }
    assert_eq!(glide.get_frequency(), 265_834_000);
    glide.set_target(880_000_000);
    assert_eq!(glide.get_frequency(), 265_834_000);
    // 614.166 Hz in 4800 samples: 127952 microhertz a sample
    assert_eq!(glide.process(), 265_961_952);
}

#[test]
fn glide_time_of_zero_snaps_to_the_target() {
    let mut glide = Glide::new(48_000);
    glide.set_glide_time(100);
    glide.set_target(440_000_000);
    glide.process();
    assert!(glide.get_frequency() < 440_000_000);
    glide.set_glide_time(0);
    assert_eq!(glide.get_frequency(), 440_000_000);
    glide.set_glide_time(-50);
    glide.set_target(100_000_000);
    assert_eq!(glide.get_frequency(), 100_000_000);
}

#[test]
fn glide_target_is_taken_as_given() {
    let mut glide = Glide::new(48_000);
    glide.set_target(i64::MAX);
    assert_eq!(glide.get_frequency(), i64::MAX);
    glide.set_target(-1);
    assert_eq!(glide.get_frequency(), -1);
    glide.set_target(25_000_000_000);
    assert_eq!(glide.get_frequency(), 25_000_000_000);
    glide.set_target(i64::MIN);
    assert_eq!(glide.process(), i64::MIN);
}

#[test]
fn glide_time_has_no_upper_limit() {
    let mut glide = Glide::new(48_000);
    glide.set_glide_time(10_000);
    glide.set_target(20_000_000_000);
    // 10 s at 48 kHz: 480000 samples, 41667 microhertz a sample
    assert_eq!(glide.process(), 41_667);
    let mut glide = Glide::new(48_000);
    glide.set_glide_time(3_600_000);
    glide.set_target(20_000_000_000);
    // an hour at 48 kHz: 172800000 samples, 116 microhertz a sample
    assert_eq!(glide.process(), 116);
    let mut glide = Glide::new(48_000);
    glide.set_glide_time(i64::MAX);
    glide.set_target(i64::MAX);
    assert_eq!(glide.process(), 1);
    assert_eq!(glide.process(), 2);
}

#[test]
fn glide_across_the_whole_range_stays_on_its_way() {
    let mut glide = Glide::new(48_000);
    glide.set_target(i64::MIN);
    glide.set_glide_time(1);
    glide.set_target(i64::MAX);
    let mut before = i64::MIN;
    for n in 1..=48 {
        let f = glide.process();
        assert!(f > before);
        if n == 1 {
            assert_eq!(f as i128, i64::MIN as i128 + 384_307_168_202_282_326);
        }
        before = f;
    }
    assert_eq!(before, i64::MAX);
    glide.set_target(i64::MIN);
    for _ in 0..48 {
        let f = glide.process();
        assert!(f < before);
        before = f;
    }
    assert_eq!(before, i64::MIN);
}

#[test]
fn short_glide_moves_at_least_one_microhertz_a_sample() {
    let mut glide = Glide::new(48_000);
    glide.set_glide_time(1_000);
    glide.set_target(5);
    let got: Vec<i64> = (0..7).map(|_| glide.process()).collect();
    assert_eq!(got, vec![1, 2, 3, 4, 5, 5, 5]);
}
