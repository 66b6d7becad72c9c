//! The flanger effect: a short delay whose length sweeps up and down.

use vstd::prelude::*;
use crate::effects::delay::FEEDBACK_MAX;
use crate::effects::delay_line::{line_size, pushed, silence, DelayLine};
use crate::fixed::{
    accept_rate, accepted_rate, blend, clamp, clamp_int, crossfade, lemma_scale_fraction, mul_sat,
    samples_for, samples_in, sat, saturate, scale, wide_scale, UNIT,
};
use crate::lfo::{Lfo, LfoModel};

verus! {

/// The longest delay of the sweep, in milliseconds.
pub const FLANGER_SWEEP_MS: i64 = 10;

/// What a flanger effect is, as plain numbers.
pub struct FlangerModel {
    /// The oscillator that moves the delay.
    pub lfo: LfoModel,
    /// The past of the line, newest sample first.
    pub line: Seq<int>,
    /// The share of the line that the sweep covers, from 0 to `UNIT`.
    pub depth: int,
    /// The share of the delayed signal that is fed back into the line.
    pub feedback: int,
    /// The share of the delayed signal in the output.
    pub mix: int,
}

impl FlangerModel {
    /// The oscillator is well formed, the line is not empty, and every
    /// parameter is inside its range.
    pub open spec fn wf(self) -> bool {
        &&& self.lfo.wf()
        &&& 1 <= self.line.len() <= 1_920
        &&& 0 <= self.depth <= UNIT
        &&& 0 <= self.feedback <= FEEDBACK_MAX
        &&& 0 <= self.mix <= UNIT
    }

    /// A new flanger: a silent line of 10 ms (of one sample at least), swept
    /// over half its length once in two seconds, with feedback 0.5 and mix
    /// 0.5.
    pub open spec fn fresh(sample_rate: int) -> FlangerModel {
        FlangerModel {
            lfo: LfoModel::fresh(sample_rate).with_rate(500_000),
            line: silence(
                line_size(samples_in(FLANGER_SWEEP_MS as int, accepted_rate(sample_rate))),
            ),
            depth: UNIT / 2,
            feedback: UNIT / 2,
            mix: UNIT / 2,
        }
    }

    /// The effect with a new sweep rate, in microhertz.
    pub open spec fn with_rate(self, rate: int) -> FlangerModel {
        FlangerModel { lfo: self.lfo.with_rate(rate), ..self }
    }

    /// The effect with a new sweep depth, limited to the range from 0 to 1.
    pub open spec fn with_depth(self, depth: int) -> FlangerModel {
        FlangerModel { depth: clamp_int(depth, 0, UNIT as int), ..self }
    }

    /// The effect with a new feedback, limited to the range from 0 to 0.95.
    pub open spec fn with_feedback(self, feedback: int) -> FlangerModel {
        FlangerModel { feedback: clamp_int(feedback, 0, FEEDBACK_MAX as int), ..self }
    }

    /// The effect with a new mix, limited to the range from 0 to 1.
    pub open spec fn with_mix(self, mix: int) -> FlangerModel {
        FlangerModel { mix: clamp_int(mix, 0, UNIT as int), ..self }
    }

    /// The delay, in samples, of the sample that is processed now: one
    /// sample at the bottom of the oscillator's cycle, and at its top one
    /// sample more than the swept share of the line.
    pub open spec fn delay(self) -> int {
        let sweep = scale(self.depth, self.lfo.step().unipolar_wave());
        1 + scale(sweep, self.line.len() - 1)
    }

    /// The sample that leaves the line now.
    pub open spec fn delayed(self) -> int {
        self.line[self.delay() - 1]
    }

    /// The effect after the input sample `x`.
    pub open spec fn step(self, x: int) -> FlangerModel {
        FlangerModel {
            lfo: self.lfo.step(),
            line: pushed(self.line, sat(x + scale(self.feedback, self.delayed()))),
            ..self
        }
    }

    /// The output for the input sample `x`: the blend of the input and the
    /// delayed sample.
    pub open spec fn output(self, x: int) -> int {
        crossfade(self.mix, x, self.delayed())
    }

    /// The delay lies inside the line.
    pub proof fn lemma_delay_bounds(self)
        requires
            self.wf(),
        ensures
            1 <= self.delay() <= self.line.len(),
            0 <= scale(self.depth, self.lfo.step().unipolar_wave()) <= UNIT,
    {
        self.lfo.lemma_step_wf();
        let wave = self.lfo.step().unipolar_wave();
        lemma_scale_fraction(self.depth, wave);
        let sweep = scale(self.depth, wave);
        lemma_scale_fraction(sweep, self.line.len() - 1);
    }
}

/// A flanger effect.
pub struct Flanger {
    lfo: Lfo,
    line: DelayLine,
    depth: i64,
    feedback: i64,
    mix: i64,
}

impl View for Flanger {
    type V = FlangerModel;

    closed spec fn view(&self) -> FlangerModel {
        FlangerModel {
            lfo: self.lfo@,
            line: self.line@,
            depth: self.depth as int,
            feedback: self.feedback as int,
            mix: self.mix as int,
        }
    }
}

impl Flanger {
    /// A new flanger for `sample_rate` samples per second. A rate outside
    /// the supported range is replaced by the nearest supported one.
    pub fn new(sample_rate: u32) -> (r: Flanger)
        ensures
            r@ == FlangerModel::fresh(sample_rate as int),
            r@.wf(),
    {
        let rate: i64 = accept_rate(sample_rate);
        let len: usize = samples_for(FLANGER_SWEEP_MS, rate) as usize;
        let mut lfo = Lfo::new(sample_rate);
        lfo.set_rate(500_000);
        Flanger {
            lfo,
            line: DelayLine::new(len),
            depth: UNIT / 2,
            feedback: UNIT / 2,
            mix: UNIT / 2,
        }
    }

    /// Sets the rate of the sweep, in microhertz.
    pub fn set_lfo_rate(&mut self, rate: i64)
        requires
            old(self)@.wf(),
        ensures
            final(self)@ == old(self)@.with_rate(rate as int),
            final(self)@.wf(),
    {
        self.lfo.set_rate(rate);
    }

    /// Sets the depth of the sweep.
    pub fn set_delay_range(&mut self, depth: i64)
        requires
            old(self)@.wf(),
        ensures
            final(self)@ == old(self)@.with_depth(depth as int),
            final(self)@.wf(),
    {
        self.depth = clamp(depth, 0, UNIT);
    }

    /// Sets the feedback.
    pub fn set_feedback(&mut self, feedback: i64)
        requires
            old(self)@.wf(),
        ensures
            final(self)@ == old(self)@.with_feedback(feedback as int),
            final(self)@.wf(),
    {
        self.feedback = clamp(feedback, 0, FEEDBACK_MAX);
    }

    /// Sets the mix.
    pub fn set_mix(&mut self, mix: i64)
        requires
            old(self)@.wf(),
        ensures
            final(self)@ == old(self)@.with_mix(mix as int),
            final(self)@.wf(),
    {
        self.mix = clamp(mix, 0, UNIT);
    }

    /// Feeds one sample through the effect.
    pub fn process(&mut self, input: i64) -> (output: i64)
        requires
            old(self)@.wf(),
        ensures
            final(self)@ == old(self)@.step(input as int),
            final(self)@.wf(),
            output == old(self)@.output(input as int),
    {
        proof {
            self@.lemma_delay_bounds();
        }
        let wave: i64 = self.lfo.process_unipolar();
        let sweep: i64 = mul_sat(self.depth, wave);
        let len: usize = self.line.len();
        let extra: i64 = mul_sat(sweep, (len - 1) as i64);
        let delayed: i64 = self.line.read(1 + extra as usize);
        proof {
            lemma_scale_fraction(self.feedback as int, delayed as int);
        }
        self.line.write(saturate(input as i128 + wide_scale(self.feedback, delayed)));
        blend(self.mix, input, delayed)
    }
}

} // verus!
