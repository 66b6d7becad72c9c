use rust_dsp::fixed::{SAMPLE_LIMIT, UNIT};
use rust_dsp::Voice;

fn sharp_voice() -> Voice {
    let mut voice = Voice::new(8_000);
    voice.set_adsr(0, 0, UNIT, 0);
    voice
}

#[test]
fn new_voice_is_silent() {
    let voice = Voice::new(48_000);
    assert!(!voice.is_active());
    assert!(!voice.is_releasing());
    assert_eq!(voice.get_age(), 0);
    assert_eq!(voice.get_frequency(), 0);
}

#[test]
fn silent_voice_leaves_the_buffer_alone() {
    let mut voice = Voice::new(48_000);
    let mut buffer: Vec<i64> = vec![1, -2, 3, i64::MAX, i64::MIN];
    voice.process(&mut buffer);
    assert_eq!(buffer, vec![1, -2, 3, i64::MAX, i64::MIN]);
    assert_eq!(voice.get_age(), 0);
    assert!(!voice.is_active());
}

#[test]
fn note_on_makes_the_voice_sound() {
    let mut voice = Voice::new(48_000);
    voice.note_on(440_000_000, UNIT);
    assert!(voice.is_active());
    assert!(!voice.is_releasing());
    assert_eq!(voice.get_frequency(), 440_000_000);
    assert_eq!(voice.get_age(), 0);
}

#[test]
fn voice_adds_oscillator_times_envelope_times_velocity() {
    let mut voice = sharp_voice();
    voice.note_on(2_000_000_000, UNIT);
    let mut buffer: Vec<i64> = vec![10, 20, 30, 40];
    voice.process(&mut buffer);
    assert_eq!(buffer, vec![UNIT + 10, 20, -UNIT + 30, 40]);
    assert_eq!(voice.get_age(), 1);
}

#[test]
fn velocity_scales_the_voice() {
    let mut voice = sharp_voice();
    voice.note_on(2_000_000_000, UNIT / 4);
    let mut buffer: Vec<i64> = vec![0; 4];
    voice.process(&mut buffer);
    assert_eq!(buffer, vec![UNIT / 4, 0, -UNIT / 4, 0]);
}

#[test]
fn velocity_is_taken_as_given() {
    let mut loud = sharp_voice();
    loud.note_on(2_000_000_000, 7 * UNIT);
    let mut buffer: Vec<i64> = vec![0; 4];
    loud.process(&mut buffer);
    assert_eq!(buffer, vec![7 * UNIT, 0, -7 * UNIT, 0]);
    let mut half_again = sharp_voice();
    half_again.note_on(2_000_000_000, 1_500_000_000);
    let mut buffer: Vec<i64> = vec![0; 4];
    half_again.process(&mut buffer);
    assert_eq!(buffer, vec![1_500_000_000, 0, -1_500_000_000, 0]);
    let mut inverted = sharp_voice();
    inverted.note_on(2_000_000_000, -UNIT);
    let mut buffer: Vec<i64> = vec![5; 4];
    inverted.process(&mut buffer);
    assert_eq!(buffer, vec![-UNIT + 5, 5, UNIT + 5, 5]);
    assert!(inverted.is_active());
    let mut mute = sharp_voice();
    mute.note_on(2_000_000_000, 0);
    let mut buffer: Vec<i64> = vec![5; 4];
    mute.process(&mut buffer);
    assert_eq!(buffer, vec![5, 5, 5, 5]);
}

#[test]
fn a_huge_velocity_is_held_inside_the_signal_range() {
    let mut voice = sharp_voice();
    voice.note_on(2_000_000_000, i64::MAX);
    let mut buffer: Vec<i64> = vec![0; 4];
    voice.process(&mut buffer);
    assert_eq!(buffer, vec![SAMPLE_LIMIT, 0, -SAMPLE_LIMIT, 0]);
    let mut voice = sharp_voice();
    voice.note_on(2_000_000_000, i64::MIN);
    let mut buffer: Vec<i64> = vec![0; 4];
    voice.process(&mut buffer);
    assert_eq!(buffer, vec![-SAMPLE_LIMIT, 0, SAMPLE_LIMIT, 0]);
}

#[test]
fn frequency_is_taken_as_given() {
    let mut voice = sharp_voice();
    voice.note_on(25_000_000_000, UNIT);
    assert_eq!(voice.get_frequency(), 25_000_000_000);
    voice.note_on(i64::MAX, UNIT);
    assert_eq!(voice.get_frequency(), i64::MAX);
    voice.note_on(-3, UNIT);
    assert_eq!(voice.get_frequency(), -3);
    // the oscillator takes a negative frequency as 0 and stands still
    voice.set_waveform(2);
    let mut buffer: Vec<i64> = vec![0; 3];
    voice.process(&mut buffer);
    assert_eq!(buffer[1], buffer[0]);
    assert_eq!(buffer[2], buffer[0]);
}

#[test]
fn envelope_shapes_the_voice() {
    let mut voice = Voice::new(8_000);
    voice.set_adsr(1, 1, UNIT / 2, 1);
    voice.set_waveform(1);
    voice.note_on(1_000_000_000, UNIT);
    let mut buffer: Vec<i64> = vec![0; 8];
    voice.process(&mut buffer);
    // a square at an eighth of the sample rate: high for three samples, then low
    assert_eq!(
        buffer,
        vec![
            125_000_000,
            250_000_000,
            375_000_000,
            -500_000_000,
            -625_000_000,
            -750_000_000,
            -875_000_000,
            UNIT
        ]
    );
}

#[test]
fn sums_are_held_inside_the_signal_range() {
    let mut voice = sharp_voice();
    voice.note_on(2_000_000_000, UNIT);
    let mut buffer: Vec<i64> = vec![SAMPLE_LIMIT, i64::MAX, -SAMPLE_LIMIT, i64::MIN];
    voice.process(&mut buffer);
    assert_eq!(buffer, vec![SAMPLE_LIMIT, SAMPLE_LIMIT, -SAMPLE_LIMIT, -SAMPLE_LIMIT]);
}

#[test]
fn age_counts_blocks_while_the_voice_sounds() {
    let mut voice = sharp_voice();
    voice.note_on(440_000_000, UNIT);
    for block in 1..=5u64 {
        let mut buffer: Vec<i64> = vec![0; 3];
        voice.process(&mut buffer);
        assert_eq!(voice.get_age(), block);
    }
    let mut empty: Vec<i64> = Vec::new();
    voice.process(&mut empty);
    assert_eq!(voice.get_age(), 6);
    voice.note_on(880_000_000, UNIT);
    assert_eq!(voice.get_age(), 0);
}

#[test]
fn note_off_lets_the_release_run_out() {
    let mut voice = Voice::new(8_000);
    voice.set_adsr(0, 0, UNIT, 1);
    voice.set_waveform(1);
    voice.note_on(100_000_000, UNIT);
    let mut buffer: Vec<i64> = vec![0; 2];
    voice.process(&mut buffer);
    assert_eq!(buffer, vec![UNIT, UNIT]);
    voice.note_off();
    assert!(voice.is_active());
    assert!(!voice.is_releasing());
    let mut buffer: Vec<i64> = vec![0; 12];
    voice.process(&mut buffer);
    assert_eq!(
        buffer,
        vec![
            875_000_000,
            750_000_000,
            625_000_000,
            500_000_000,
            375_000_000,
            250_000_000,
            125_000_000,
            0,
            0,
            0,
            0,
            0
        ]
    );
    assert!(!voice.is_active());
    assert!(!voice.is_releasing());
    assert_eq!(voice.get_age(), 2);
    let mut buffer: Vec<i64> = vec![7; 4];
    voice.process(&mut buffer);
    assert_eq!(buffer, vec![7; 4]);
    assert_eq!(voice.get_age(), 2);
}

#[test]
fn note_off_on_a_silent_voice_makes_it_releasing_for_one_block() {
    let mut voice = Voice::new(48_000);
    voice.note_off();
    assert!(voice.is_active());
    assert!(voice.is_releasing());
    let mut buffer: Vec<i64> = vec![3; 4];
    voice.process(&mut buffer);
    assert_eq!(buffer, vec![3; 4]);
    assert!(!voice.is_active());
    assert!(!voice.is_releasing());
    assert_eq!(voice.get_age(), 1);
}

#[test]
fn phase_restarts_only_when_the_voice_was_silent() {
    let mut voice = sharp_voice();
    voice.note_on(1_000_000_000, UNIT);
    voice.set_waveform(2);
    let mut buffer: Vec<i64> = vec![0; 3];
    voice.process(&mut buffer);
    assert_eq!(buffer, vec![-750_000_000, -500_000_000, -250_000_000]);
    // a new note on the sounding voice goes on from the phase reached
    voice.note_on(1_000_000_000, UNIT);
    let mut buffer: Vec<i64> = vec![0; 2];
    voice.process(&mut buffer);
    assert_eq!(buffer, vec![0, 250_000_000]);
    voice.note_off();
    let mut buffer: Vec<i64> = vec![0; 2];
    voice.process(&mut buffer);
    assert!(!voice.is_active());
    // from silence the cycle starts anew
    voice.note_on(1_000_000_000, UNIT);
    let mut buffer: Vec<i64> = vec![0; 2];
    voice.process(&mut buffer);
    assert_eq!(buffer, vec![-750_000_000, -500_000_000]);
}

#[test]
fn voice_glides_to_the_new_note() {
    let mut voice = sharp_voice();
    voice.note_on(1_000_000_000, UNIT);
    voice.set_glide_time(1);
    voice.note_on(1_080_000_000, UNIT);
    assert_eq!(voice.get_frequency(), 1_000_000_000);
    let mut buffer: Vec<i64> = vec![0; 3];
    voice.process(&mut buffer);
    // 80 Hz in 8 samples
    assert_eq!(voice.get_frequency(), 1_030_000_000);
    let mut buffer: Vec<i64> = vec![0; 8];
    voice.process(&mut buffer);
    assert_eq!(voice.get_frequency(), 1_080_000_000);
}

#[test]
fn detune_of_an_octave_doubles_the_pitch_of_the_voice() {
    let mut plain = sharp_voice();
    plain.note_on(2_000_000_000, UNIT);
    let mut detuned = sharp_voice();
    detuned.set_detune(1200);
    detuned.note_on(1_000_000_000, UNIT);
    let mut a: Vec<i64> = vec![0; 16];
    let mut b: Vec<i64> = vec![0; 16];
    plain.process(&mut a);
    detuned.process(&mut b);
    assert_eq!(a, b);
    assert_eq!(detuned.get_frequency(), 1_000_000_000);
}
