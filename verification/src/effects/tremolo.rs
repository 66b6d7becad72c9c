//! The tremolo effect: a slow, periodic change of loudness.

use vstd::prelude::*;
use crate::fixed::{clamp, clamp_int, lemma_scale_fraction, mul_sat, sat, scale, UNIT};
use crate::lfo::{Lfo, LfoModel};

verus! {

/// What a tremolo effect is, as plain numbers.
pub struct TremoloModel {
    /// The oscillator that moves the gain.
    pub lfo: LfoModel,
    /// How far the gain falls at the bottom of the cycle, from 0 to `UNIT`.
    pub depth: int,
}

impl TremoloModel {
    /// The oscillator is well formed and the depth lies between 0 and 1.
    pub open spec fn wf(self) -> bool {
        &&& self.lfo.wf()
        &&& 0 <= self.depth <= UNIT
    }

    /// A new tremolo: five cycles per second at half depth.
    pub open spec fn fresh(sample_rate: int) -> TremoloModel {
        TremoloModel { lfo: LfoModel::fresh(sample_rate).with_rate(5_000_000), depth: UNIT / 2 }
    }

    /// The effect at a new rate, in microhertz.
    pub open spec fn with_rate(self, rate: int) -> TremoloModel {
        TremoloModel { lfo: self.lfo.with_rate(rate), ..self }
    }

    /// The effect at a new depth, limited to the range from 0 to 1.
    pub open spec fn with_depth(self, depth: int) -> TremoloModel {
        TremoloModel { depth: clamp_int(depth, 0, UNIT as int), ..self }
    }

    /// The effect one sample later.
    pub open spec fn step(self) -> TremoloModel {
        TremoloModel { lfo: self.lfo.step(), ..self }
    }

    /// The gain of the sample that is processed now: 1 at the bottom of the
    /// oscillator's cycle, and 1 less the depth at its top.
    pub open spec fn gain(self) -> int {
        UNIT - scale(self.depth, self.lfo.step().unipolar_wave())
    }

    /// The output for the input sample `x`: the input times the gain.
    pub open spec fn output(self, x: int) -> int {
        sat(scale(self.gain(), x))
    }

    /// The gain lies between 0 and 1.
    pub proof fn lemma_gain_bounds(self)
        requires
            self.wf(),
        ensures
            0 <= self.gain() <= UNIT,
            self.depth == 0 ==> self.gain() == UNIT,
    {
        self.lfo.lemma_step_wf();
        lemma_scale_fraction(self.depth, self.lfo.step().unipolar_wave());
        crate::fixed::lemma_scale_bound(
            self.depth,
            self.lfo.step().unipolar_wave(),
            self.depth,
            UNIT as int,
        );
        assert(self.depth * UNIT / (UNIT as int) == self.depth) by (nonlinear_arith)
            requires
                UNIT == 1_000_000_000,
        ;
        if self.depth == 0 {
            crate::fixed::lemma_scale_identities(self.lfo.step().unipolar_wave());
        }
    }
}

/// A tremolo effect.
pub struct Tremolo {
    lfo: Lfo,
    depth: i64,
}

impl View for Tremolo {
    type V = TremoloModel;

    closed spec fn view(&self) -> TremoloModel {
        TremoloModel { lfo: self.lfo@, depth: self.depth as int }
    }
}

impl Tremolo {
    /// A new tremolo for `sample_rate` samples per second. A rate outside
    /// the supported range is replaced by the nearest supported one.
    pub fn new(sample_rate: u32) -> (r: Tremolo)
        ensures
            r@ == TremoloModel::fresh(sample_rate as int),
            r@.wf(),
    {
        let mut lfo = Lfo::new(sample_rate);
        lfo.set_rate(5_000_000);
        Tremolo { lfo, depth: UNIT / 2 }
    }

    /// Sets the rate, in microhertz.
    pub fn set_rate(&mut self, rate: i64)
        requires
            old(self)@.wf(),
        ensures
            final(self)@ == old(self)@.with_rate(rate as int),
            final(self)@.wf(),
    {
        self.lfo.set_rate(rate);
    }

    /// Sets the depth.
    pub fn set_depth(&mut self, depth: i64)
        requires
            old(self)@.wf(),
        ensures
            final(self)@ == old(self)@.with_depth(depth as int),
            final(self)@.wf(),
    {
        self.depth = clamp(depth, 0, UNIT);
    }

    /// Feeds one sample through the effect.
    pub fn process(&mut self, input: i64) -> (output: i64)
        requires
            old(self)@.wf(),
        ensures
            final(self)@ == old(self)@.step(),
            final(self)@.wf(),
            output == old(self)@.output(input as int),
    {
        proof {
            self@.lemma_gain_bounds();
        }
        let wave: i64 = self.lfo.process_unipolar();
        let cut: i64 = mul_sat(self.depth, wave);
        mul_sat(UNIT - cut, input)
    }
}

} // verus!
