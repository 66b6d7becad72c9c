//! The state-variable filter: one recursive update with a low-pass, a
//! high-pass and a band-pass output.

use vstd::prelude::*;
use crate::fixed::{
    accept_rate, accepted_rate, clamp, clamp_int, lemma_scale_fraction, sat, saturate, scale,
    wide_scale, SAMPLE_LIMIT, SAMPLE_RATE_MAX, SAMPLE_RATE_MIN, UNIT,
};

verus! {

/// The lowest cutoff, in microhertz: 20 Hz.
pub const CUTOFF_MIN: i64 = 20_000_000;

/// The highest cutoff, in microhertz: 20 kHz.
pub const CUTOFF_MAX: i64 = 20_000_000_000;

/// The damping of a filter without resonance (it stands for 0.707).
pub const DAMPING_MAX: i64 = 707_000_000;

/// The damping of a filter at full resonance (it stands for 0.1).
pub const DAMPING_MIN: i64 = 100_000_000;

/// The damping that belongs to a resonance setting. The setting is limited
/// to the range from 0 to 1; the damping falls in a straight line from
/// 0.707 at no resonance to 0.1 at full resonance.
pub open spec fn damping_for(resonance: int) -> int {
    DAMPING_MAX - scale(clamp_int(resonance, 0, UNIT as int), DAMPING_MAX - DAMPING_MIN)
}

/// The damping stays inside its range, and more resonance never means more damping.
pub proof fn lemma_damping_for(r1: int, r2: int)
    requires
        r1 <= r2,
    ensures
        DAMPING_MIN <= damping_for(r2) <= damping_for(r1) <= DAMPING_MAX,
        damping_for(0) == DAMPING_MAX,
        damping_for(UNIT as int) == DAMPING_MIN,
{
    let span = DAMPING_MAX - DAMPING_MIN;
    let c1 = clamp_int(r1, 0, UNIT as int);
    let c2 = clamp_int(r2, 0, UNIT as int);
    lemma_scale_fraction(c1, span);
    lemma_scale_fraction(c2, span);
    crate::fixed::lemma_scale_identities(span);
    assert(c1 * span <= c2 * span) by (nonlinear_arith)
        requires
            c1 <= c2,
            span >= 0,
    ;
    assert(0 <= c1 * span) by (nonlinear_arith)
        requires
            0 <= c1,
            0 <= span,
    ;
}

/// What a filter is, as plain numbers.
pub struct FilterModel {
    /// Samples per second.
    pub sample_rate: int,
    /// The cutoff in microhertz.
    pub cutoff: int,
    /// The damping, which falls as the resonance rises.
    pub damping: int,
    /// The low-pass state.
    pub low: int,
    /// The band-pass state.
    pub band: int,
    /// The high-pass state.
    pub high: int,
    /// The notch output: the sum of the high-pass and the low-pass state.
    pub notch: int,
}

impl FilterModel {
    /// The cutoff and the damping are inside their ranges, every state is
    /// inside the signal range, and the notch is the sum of high and low.
    pub open spec fn wf(self) -> bool {
        &&& SAMPLE_RATE_MIN <= self.sample_rate <= SAMPLE_RATE_MAX
        &&& CUTOFF_MIN <= self.cutoff <= CUTOFF_MAX
        &&& DAMPING_MIN <= self.damping <= DAMPING_MAX
        &&& -SAMPLE_LIMIT <= self.low <= SAMPLE_LIMIT
        &&& -SAMPLE_LIMIT <= self.band <= SAMPLE_LIMIT
        &&& -SAMPLE_LIMIT <= self.high <= SAMPLE_LIMIT
        &&& self.notch == self.high + self.low
    }

    /// A new filter: at rest, fully open, without resonance.
    pub open spec fn fresh(sample_rate: int) -> FilterModel {
        FilterModel {
            sample_rate: accepted_rate(sample_rate),
            cutoff: CUTOFF_MAX as int,
            damping: DAMPING_MAX as int,
            low: 0,
            band: 0,
            high: 0,
            notch: 0,
        }
    }

    /// The filter with a new cutoff, limited to the range from 20 Hz to 20 kHz.
    pub open spec fn with_cutoff(self, cutoff: int) -> FilterModel {
        FilterModel { cutoff: clamp_int(cutoff, CUTOFF_MIN as int, CUTOFF_MAX as int), ..self }
    }

    /// The filter with the damping that belongs to a resonance setting.
    pub open spec fn with_resonance(self, resonance: int) -> FilterModel {
        FilterModel { damping: damping_for(resonance), ..self }
    }

    /// The tuning coefficient: twice the cutoff over the sample rate,
    /// limited to the range from 0 to one half.
    pub open spec fn coefficient(self) -> int {
        clamp_int(2 * self.cutoff * 1_000 / self.sample_rate, 0, UNIT / 2)
    }

    /// The filter after one input sample. Every state is held inside the
    /// signal range.
    pub open spec fn step(self, input: int) -> FilterModel {
        let f = self.coefficient();
        let low = sat(self.low + scale(f, self.band));
        let high = sat(input - low - scale(self.damping, self.band));
        let band = sat(self.band + scale(f, high));
        FilterModel { low, band, high, notch: high + low, ..self }
    }

    /// The filter after the input samples `inputs`, one after the other.
    pub open spec fn run(self, inputs: Seq<int>) -> FilterModel
        decreases inputs.len(),
    {
        if inputs.len() == 0 {
            self
        } else {
            self.run(inputs.drop_last()).step(inputs.last())
        }
    }

    /// The low-pass outputs that the input samples `inputs` produce.
    pub open spec fn lowpass_outputs(self, inputs: Seq<int>) -> Seq<int> {
        Seq::new(inputs.len(), |i: int| self.run(inputs.take(i + 1)).low)
    }

    /// One sample keeps a filter well formed, whatever the input.
    pub proof fn lemma_step_wf(self, input: int)
        requires
            self.wf(),
        ensures
            self.step(input).wf(),
            self.step(input).cutoff == self.cutoff,
            self.step(input).damping == self.damping,
            self.step(input).sample_rate == self.sample_rate,
            0 <= self.coefficient() <= UNIT / 2,
    {
    }

    /// Any run of samples keeps a filter well formed, and leaves the cutoff
    /// inside the range from 20 Hz to 20 kHz.
    pub proof fn lemma_run_wf(self, inputs: Seq<int>)
        requires
            self.wf(),
        ensures
            self.run(inputs).wf(),
            self.run(inputs).cutoff == self.cutoff,
            CUTOFF_MIN <= self.run(inputs).cutoff <= CUTOFF_MAX,
        decreases inputs.len(),
    {
        if inputs.len() > 0 {
            self.lemma_run_wf(inputs.drop_last());
            self.run(inputs.drop_last()).lemma_step_wf(inputs.last());
        }
    }

    /// Two filters in the same state that are fed the same samples end in
    /// the same state and produce the same outputs.
    pub proof fn lemma_runs_agree(self, other: FilterModel, xs: Seq<int>, ys: Seq<int>)
        requires
            self == other,
            xs =~= ys,
        ensures
            self.run(xs) == other.run(ys),
            self.lowpass_outputs(xs) == other.lowpass_outputs(ys),
    {
    }
}

/// A state-variable filter.
pub struct StateVariableFilter {
    sample_rate: i64,
    cutoff: i64,
    damping: i64,
    low: i64,
    band: i64,
    high: i64,
    notch: i64,
}

impl View for StateVariableFilter {
    type V = FilterModel;

    closed spec fn view(&self) -> FilterModel {
        FilterModel {
            sample_rate: self.sample_rate as int,
            cutoff: self.cutoff as int,
            damping: self.damping as int,
            low: self.low as int,
            band: self.band as int,
            high: self.high as int,
            notch: self.notch as int,
        }
    }
}

impl StateVariableFilter {
    /// A new filter for `sample_rate` samples per second. A rate outside
    /// the supported range is replaced by the nearest supported one.
    pub fn new(sample_rate: u32) -> (r: StateVariableFilter)
        ensures
            r@ == FilterModel::fresh(sample_rate as int),
            r@.wf(),
    {
        StateVariableFilter {
            sample_rate: accept_rate(sample_rate),
            cutoff: CUTOFF_MAX,
            damping: DAMPING_MAX,
            low: 0,
            band: 0,
            high: 0,
            notch: 0,
        }
    }

    /// Sets the cutoff, in microhertz.
    pub fn set_cutoff(&mut self, cutoff: i64)
        requires
            old(self)@.wf(),
        ensures
            final(self)@ == old(self)@.with_cutoff(cutoff as int),
            final(self)@.wf(),
            CUTOFF_MIN <= final(self)@.cutoff <= CUTOFF_MAX,
    {
        self.cutoff = clamp(cutoff, CUTOFF_MIN, CUTOFF_MAX);
    }

    /// Sets the resonance, from 0 (none) to `UNIT` (full).
    pub fn set_resonance(&mut self, resonance: i64)
        requires
            old(self)@.wf(),
        ensures
            final(self)@ == old(self)@.with_resonance(resonance as int),
            final(self)@.wf(),
    {
        proof {
            lemma_damping_for(resonance as int, resonance as int);
            lemma_scale_fraction(
                clamp_int(resonance as int, 0, UNIT as int),
                DAMPING_MAX - DAMPING_MIN,
            );
        }
        let r: i64 = clamp(resonance, 0, UNIT);
        let cut: i64 = saturate(wide_scale(r, DAMPING_MAX - DAMPING_MIN));
        self.damping = DAMPING_MAX - cut;
    }

    /// The cutoff in microhertz.
    pub fn cutoff(&self) -> (c: i64)
        ensures
            c == self@.cutoff,
    {
        self.cutoff
    }

    /// The notch output of the last sample: high-pass plus low-pass.
    pub fn notch(&self) -> (n: i64)
        ensures
            n == self@.notch,
    {
        self.notch
    }

    /// Feeds one sample through the recursion.
    fn advance(&mut self, input: i64)
        requires
            old(self)@.wf(),
        ensures
            final(self)@ == old(self)@.step(input as int),
            final(self)@.wf(),
    {
        proof {
            self@.lemma_step_wf(input as int);
        }
        let doubled: i64 = 2 * self.cutoff * 1_000;
        let f: i64 = clamp(doubled / self.sample_rate, 0, UNIT / 2);
        proof {
            lemma_scale_fraction(f as int, self.band as int);
            lemma_scale_fraction(self.damping as int, self.band as int);
        }
        let low: i64 = saturate(self.low as i128 + wide_scale(f, self.band));
        let high: i64 = saturate(input as i128 - low as i128 - wide_scale(self.damping, self.band));
        proof {
            lemma_scale_fraction(f as int, high as int);
        }
        let band: i64 = saturate(self.band as i128 + wide_scale(f, high));
        self.low = low;
        self.high = high;
        self.band = band;
        self.notch = high + low;
    }

    /// Feeds one sample through the filter and returns the low-pass output.
    pub fn process(&mut self, input: i64) -> (output: i64)
        requires
            old(self)@.wf(),
        ensures
            final(self)@ == old(self)@.step(input as int),
            final(self)@.wf(),
            output == old(self)@.step(input as int).low,
    {
        self.advance(input);
        self.low
    }

    /// Feeds one sample through the filter and returns the high-pass output.
    pub fn process_highpass(&mut self, input: i64) -> (output: i64)
        requires
            old(self)@.wf(),
        ensures
            final(self)@ == old(self)@.step(input as int),
            final(self)@.wf(),
            output == old(self)@.step(input as int).high,
    {
        self.advance(input);
        self.high
    }

    /// Feeds one sample through the filter and returns the band-pass output.
    pub fn process_bandpass(&mut self, input: i64) -> (output: i64)
        requires
            old(self)@.wf(),
        ensures
            final(self)@ == old(self)@.step(input as int),
            final(self)@.wf(),
            output == old(self)@.step(input as int).band,
    {
        self.advance(input);
        self.band
    }
}

} // verus!
