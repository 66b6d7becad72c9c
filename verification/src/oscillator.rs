//! The audio-rate oscillator of a voice.

use vstd::prelude::*;
use crate::fixed::{
    accept_rate, accepted_rate, at_least_zero, clamp, clamp_int, positive_part, scale,
    wide_scale, SAMPLE_RATE_MAX, SAMPLE_RATE_MIN, UNIT,
};
use crate::pitch::{
    detune_factor, detune_ratio, lemma_detune_ratio_bounds, CONCERT_PITCH, DETUNE_MAX,
};
use crate::waveform::{
    advance, advance_phase, fraction_of, lemma_phase_bounds, period_of, phase_fraction,
    wave_sample, wave_value, Waveform,
};

verus! {

/// What an oscillator is, as plain numbers.
pub struct OscillatorModel {
    /// Samples per second.
    pub sample_rate: int,
    /// The shape of the cycle.
    pub waveform: Waveform,
    /// The phase accumulator, in microhertz-samples.
    pub phase: int,
    /// The frequency asked for, in microhertz, before detune.
    pub frequency: int,
    /// The detune in cents.
    pub detune: int,
}

impl OscillatorModel {
    /// The phase lies inside the cycle, the frequency is not negative, and
    /// every parameter is inside its range.
    pub open spec fn wf(self) -> bool {
        &&& SAMPLE_RATE_MIN <= self.sample_rate <= SAMPLE_RATE_MAX
        &&& 0 <= self.phase < period_of(self.sample_rate)
        &&& 0 <= self.frequency <= 0x7fff_ffff_ffff_ffff
        &&& -DETUNE_MAX <= self.detune <= DETUNE_MAX
    }

    /// A new oscillator: a sine at concert pitch, at the start of its cycle.
    pub open spec fn fresh(sample_rate: int) -> OscillatorModel {
        OscillatorModel {
            sample_rate: accepted_rate(sample_rate),
            waveform: Waveform::Sine,
            phase: 0,
            frequency: CONCERT_PITCH as int,
            detune: 0,
        }
    }

    /// The oscillator retuned to `frequency`; a frequency is never
    /// negative, so a negative one counts as 0.
    pub open spec fn with_frequency(self, frequency: int) -> OscillatorModel {
        OscillatorModel { frequency: positive_part(frequency), ..self }
    }

    /// The oscillator with the waveform that `code` selects.
    pub open spec fn with_waveform(self, code: int) -> OscillatorModel {
        OscillatorModel { waveform: Waveform::of_code(code), ..self }
    }

    /// The oscillator detuned by `cents`, limited to twelve octaves either way.
    pub open spec fn with_detune(self, cents: int) -> OscillatorModel {
        OscillatorModel { detune: clamp_int(cents, -DETUNE_MAX, DETUNE_MAX as int), ..self }
    }

    /// The oscillator back at the start of its cycle.
    pub open spec fn reset(self) -> OscillatorModel {
        OscillatorModel { phase: 0, ..self }
    }

    /// The frequency that sounds: the frequency asked for times the detune factor.
    pub open spec fn effective_frequency(self) -> int {
        scale(self.frequency, detune_ratio(self.detune))
    }

    /// The oscillator one sample later: the phase has advanced by the
    /// sounding frequency and wrapped into the cycle.
    pub open spec fn step(self) -> OscillatorModel {
        OscillatorModel {
            phase: advance(self.phase, self.effective_frequency(), period_of(self.sample_rate)),
            ..self
        }
    }

    /// The value of the waveform at the current phase.
    pub open spec fn output(self) -> int {
        wave_value(self.waveform, phase_fraction(self.phase, period_of(self.sample_rate)))
    }

    /// A step keeps an oscillator well formed, and its output stays between
    /// -1 and 1.
    pub proof fn lemma_step_wf(self)
        requires
            self.wf(),
        ensures
            self.step().wf(),
            0 <= self.effective_frequency() <= 0x1_0000_0000_0000_0000_0000_0000_0000,
            -UNIT <= self.step().output() <= UNIT,
    {
        lemma_detune_ratio_bounds(self.detune);
        assert(0 <= self.frequency * detune_ratio(self.detune) <= 0x8000_0000_0000_0000
            * 8_601_600_000_000) by (nonlinear_arith)
            requires
                0 <= self.frequency <= 0x8000_0000_0000_0000,
                0 <= detune_ratio(self.detune) <= 8_601_600_000_000,
        ;
        let period = period_of(self.sample_rate);
        lemma_phase_bounds(self.phase, self.effective_frequency(), period);
        lemma_phase_bounds(self.step().phase, 0, period);
        crate::waveform::lemma_wave_value_bounds(
            self.waveform,
            phase_fraction(self.step().phase, period),
        );
    }
}

/// An oscillator: a phase accumulator that is read through a waveform.
pub struct Oscillator {
    sample_rate: i64,
    waveform: Waveform,
    phase: i64,
    frequency: i64,
    detune: i64,
}

impl View for Oscillator {
    type V = OscillatorModel;

    closed spec fn view(&self) -> OscillatorModel {
        OscillatorModel {
            sample_rate: self.sample_rate as int,
            waveform: self.waveform,
            phase: self.phase as int,
            frequency: self.frequency as int,
            detune: self.detune as int,
        }
    }
}

impl Oscillator {
    /// A new oscillator for `sample_rate` samples per second. A rate outside
    /// the supported range is replaced by the nearest supported one.
    pub fn new(sample_rate: u32) -> (r: Oscillator)
        ensures
            r@ == OscillatorModel::fresh(sample_rate as int),
            r@.wf(),
    {
        Oscillator {
            sample_rate: accept_rate(sample_rate),
            waveform: Waveform::Sine,
            phase: 0,
            frequency: CONCERT_PITCH,
            detune: 0,
        }
    }

    /// Sets the frequency, in microhertz.
    pub fn set_frequency(&mut self, frequency: i64)
        requires
            old(self)@.wf(),
        ensures
            final(self)@ == old(self)@.with_frequency(frequency as int),
            final(self)@.wf(),
    {
        self.frequency = at_least_zero(frequency);
    }

    /// Selects the waveform by its code.
    pub fn set_waveform(&mut self, waveform: u8)
        requires
            old(self)@.wf(),
        ensures
            final(self)@ == old(self)@.with_waveform(waveform as int),
            final(self)@.wf(),
    {
        self.waveform = Waveform::from_code(waveform);
    }

    /// Sets the detune, in cents.
    pub fn set_detune(&mut self, cents: i64)
        requires
            old(self)@.wf(),
        ensures
            final(self)@ == old(self)@.with_detune(cents as int),
            final(self)@.wf(),
    {
        self.detune = clamp(cents, -DETUNE_MAX, DETUNE_MAX);
    }

    /// Moves the oscillator to the start of its cycle.
    pub fn reset_phase(&mut self)
        requires
            old(self)@.wf(),
        ensures
            final(self)@ == old(self)@.reset(),
            final(self)@.wf(),
    {
        self.phase = 0;
    }

    /// Advances the oscillator by one sample and returns the value of the
    /// waveform at the new phase.
    pub fn process(&mut self) -> (sample: i64)
        requires
            old(self)@.wf(),
        ensures
            final(self)@ == old(self)@.step(),
            final(self)@.wf(),
            sample == old(self)@.step().output(),
            -UNIT <= sample <= UNIT,
    {
        proof {
            self@.lemma_step_wf();
        }
        let ratio: i64 = detune_factor(self.detune);
        let increment: i128 = wide_scale(self.frequency, ratio);
        let period: i64 = self.sample_rate * 1_000_000;
        self.phase = advance_phase(self.phase, increment, period);
        let phi: i64 = fraction_of(self.phase, period);
        wave_sample(self.waveform, phi)
    }
}

} // verus!
