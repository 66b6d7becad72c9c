//! The low-frequency oscillator, a source of slow modulation.

use vstd::prelude::*;
use crate::fixed::{
    accept_rate, accepted_rate, at_least_zero, clamp, clamp_int, lemma_scale_fraction, mul_sat,
    positive_part, scale, SAMPLE_RATE_MAX, SAMPLE_RATE_MIN, UNIT,
};
use crate::waveform::{
    advance, advance_phase, fraction_of, lemma_phase_bounds, lemma_wave_value_bounds, period_of,
    phase_fraction, unipolar, wave_sample, wave_value, Waveform,
};

verus! {

/// What a low-frequency oscillator is, as plain numbers.
pub struct LfoModel {
    /// Samples per second.
    pub sample_rate: int,
    /// The shape of the cycle.
    pub waveform: Waveform,
    /// The phase accumulator, in microhertz-samples.
    pub phase: int,
    /// The rate in microhertz.
    pub rate: int,
    /// The modulation amount, from 0 to `UNIT`.
    pub depth: int,
}

impl LfoModel {
    /// The phase lies inside the cycle and every parameter is inside its range.
    pub open spec fn wf(self) -> bool {
        &&& SAMPLE_RATE_MIN <= self.sample_rate <= SAMPLE_RATE_MAX
        &&& 0 <= self.phase < period_of(self.sample_rate)
        &&& 0 <= self.rate <= 0x7fff_ffff_ffff_ffff
        &&& 0 <= self.depth <= UNIT
    }

    /// A new oscillator: a sine of one cycle per second at half depth.
    pub open spec fn fresh(sample_rate: int) -> LfoModel {
        LfoModel {
            sample_rate: accepted_rate(sample_rate),
            waveform: Waveform::Sine,
            phase: 0,
            rate: 1_000_000,
            depth: UNIT / 2,
        }
    }

    /// The oscillator at `rate` microhertz; a negative rate counts as 0.
    pub open spec fn with_rate(self, rate: int) -> LfoModel {
        LfoModel { rate: positive_part(rate), ..self }
    }

    /// The oscillator at modulation amount `depth`, limited to 0 to 1.
    pub open spec fn with_depth(self, depth: int) -> LfoModel {
        LfoModel { depth: clamp_int(depth, 0, UNIT as int), ..self }
    }

    /// The oscillator with the waveform that `code` selects.
    pub open spec fn with_waveform(self, code: int) -> LfoModel {
        LfoModel { waveform: Waveform::of_code(code), ..self }
    }

    /// The oscillator one sample later.
    pub open spec fn step(self) -> LfoModel {
        LfoModel { phase: advance(self.phase, self.rate, period_of(self.sample_rate)), ..self }
    }

    /// The waveform at the current phase, before the depth is applied.
    pub open spec fn wave(self) -> int {
        wave_value(self.waveform, phase_fraction(self.phase, period_of(self.sample_rate)))
    }

    /// The bipolar output: the waveform scaled by the depth.
    pub open spec fn output(self) -> int {
        scale(self.depth, self.wave())
    }

    /// The waveform moved into the range from 0 to 1, before the depth is applied.
    pub open spec fn unipolar_wave(self) -> int {
        unipolar(self.wave())
    }

    /// A step keeps the oscillator well formed; its waveform stays between
    /// -1 and 1 and its output between minus the depth and the depth.
    pub proof fn lemma_step_wf(self)
        requires
            self.wf(),
        ensures
            self.step().wf(),
            -UNIT <= self.step().wave() <= UNIT,
            0 <= self.step().unipolar_wave() <= UNIT,
            -self.depth <= self.step().output() <= self.depth,
    {
        let period = period_of(self.sample_rate);
        lemma_phase_bounds(self.phase, self.rate, period);
        lemma_phase_bounds(self.step().phase, 0, period);
        lemma_wave_value_bounds(self.waveform, phase_fraction(self.step().phase, period));
        let w = self.step().wave();
        lemma_scale_fraction(self.depth, w);
        crate::fixed::lemma_scale_bound(self.depth, w, self.depth, UNIT as int);
        assert(self.depth * UNIT / (UNIT as int) == self.depth) by (nonlinear_arith)
            requires
                UNIT == 1_000_000_000,
        ;
    }
}

/// A free-running low-frequency oscillator.
pub struct Lfo {
    sample_rate: i64,
    waveform: Waveform,
    phase: i64,
    rate: i64,
    depth: i64,
}

impl View for Lfo {
    type V = LfoModel;

    closed spec fn view(&self) -> LfoModel {
        LfoModel {
            sample_rate: self.sample_rate as int,
            waveform: self.waveform,
            phase: self.phase as int,
            rate: self.rate as int,
            depth: self.depth as int,
        }
    }
}

impl Lfo {
    /// A new oscillator for `sample_rate` samples per second. A rate outside
    /// the supported range is replaced by the nearest supported one.
    pub fn new(sample_rate: u32) -> (r: Lfo)
        ensures
            r@ == LfoModel::fresh(sample_rate as int),
            r@.wf(),
    {
        Lfo {
            sample_rate: accept_rate(sample_rate),
            waveform: Waveform::Sine,
            phase: 0,
            rate: 1_000_000,
            depth: UNIT / 2,
        }
    }

    /// Sets the rate, in microhertz.
    pub fn set_rate(&mut self, rate: i64)
        requires
            old(self)@.wf(),
        ensures
            final(self)@ == old(self)@.with_rate(rate as int),
            final(self)@.wf(),
    {
        self.rate = at_least_zero(rate);
    }

    /// Sets the modulation amount.
    pub fn set_depth(&mut self, depth: i64)
        requires
            old(self)@.wf(),
        ensures
            final(self)@ == old(self)@.with_depth(depth as int),
            final(self)@.wf(),
    {
        self.depth = clamp(depth, 0, UNIT);
    }

    /// Selects the waveform by its code.
    pub fn set_waveform(&mut self, waveform: u8)
        requires
            old(self)@.wf(),
        ensures
            final(self)@ == old(self)@.with_waveform(waveform as int),
            final(self)@.wf(),
    {
        self.waveform = Waveform::from_code(waveform);
    }

    /// Advances the accumulator by one sample and returns the waveform at
    /// the new phase, before the depth is applied.
    fn advance_wave(&mut self) -> (w: i64)
        requires
            old(self)@.wf(),
        ensures
            final(self)@ == old(self)@.step(),
            final(self)@.wf(),
            w == old(self)@.step().wave(),
            -UNIT <= w <= UNIT,
    {
        proof {
            self@.lemma_step_wf();
        }
        let period: i64 = self.sample_rate * 1_000_000;
        self.phase = advance_phase(self.phase, self.rate as i128, period);
        let phi: i64 = fraction_of(self.phase, period);
        wave_sample(self.waveform, phi)
    }

    /// Advances the oscillator by one sample and returns its bipolar output,
    /// between minus the depth and the depth.
    pub fn process(&mut self) -> (value: i64)
        requires
            old(self)@.wf(),
        ensures
            final(self)@ == old(self)@.step(),
            final(self)@.wf(),
            value == old(self)@.step().output(),
            -old(self)@.depth <= value <= old(self)@.depth,
    {
        proof {
            self@.lemma_step_wf();
        }
        let w: i64 = self.advance_wave();
        mul_sat(self.depth, w)
    }

    /// Advances the oscillator by one sample and returns its waveform moved
    /// into the range from 0 to 1; the depth plays no part.
    pub fn process_unipolar(&mut self) -> (value: i64)
        requires
            old(self)@.wf(),
        ensures
            final(self)@ == old(self)@.step(),
            final(self)@.wf(),
            value == old(self)@.step().unipolar_wave(),
            0 <= value <= UNIT,
    {
        let w: i64 = self.advance_wave();
        (w + UNIT) / 2
    }
}

} // verus!
