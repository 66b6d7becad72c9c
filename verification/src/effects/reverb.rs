//! The reverb effect: four damped comb filters side by side, followed by
//! two all-pass filters in a row.

use vstd::prelude::*;
use crate::effects::delay_line::{line_size, pushed, silence, DelayLine};
use crate::fixed::{
    accept_rate, accepted_rate, clamp, clamp_int, lemma_scale_fraction, mul_sat, sat, saturate,
    scale, wide_scale, SAMPLE_RATE_MAX, SAMPLE_RATE_MIN, UNIT,
};

verus! {

/// The share of the input that enters the comb filters (it stands for 0.015).
pub const REVERB_INPUT_GAIN: i64 = 15_000_000;

/// The feedback of the comb filters in the smallest room (it stands for 0.7).
pub const ROOM_OFFSET: i64 = 700_000_000;

/// What the largest room adds to the feedback (it stands for 0.28).
pub const ROOM_SCALE: i64 = 280_000_000;

/// The damping of the comb filters at the highest setting (it stands for 0.4).
pub const DAMP_SCALE: i64 = 400_000_000;

/// The length of a filter line at `sample_rate` hertz whose length at
/// 44.1 kHz is `tuning` samples; a line holds at least one sample.
pub open spec fn tuned_length(tuning: int, sample_rate: int) -> int {
    line_size(tuning * sample_rate / 44_100)
}

/// A tuned line is neither empty nor longer than 8000 samples.
pub proof fn lemma_tuned_length_bounds(tuning: int, sample_rate: int)
    requires
        400 <= tuning <= 1_400,
        SAMPLE_RATE_MIN <= sample_rate <= SAMPLE_RATE_MAX,
    ensures
        1 <= tuned_length(tuning, sample_rate) <= 8_000,
{
    assert(0 <= tuning * sample_rate <= 1_400 * 192_000) by (nonlinear_arith)
        requires
            400 <= tuning <= 1_400,
            1 <= sample_rate <= 192_000,
    ;
}

/// What a damped comb filter is, as plain numbers.
pub struct CombModel {
    /// The past of the line, newest sample first.
    pub line: Seq<int>,
    /// The state of the low-pass filter in the feedback path.
    pub store: int,
}

impl CombModel {
    /// The line is not empty.
    pub open spec fn wf(self) -> bool {
        1 <= self.line.len() <= 8_000
    }

    /// A comb filter at rest with a line of `len` samples.
    pub open spec fn fresh(len: int) -> CombModel {
        CombModel { line: silence(len), store: 0 }
    }

    /// The output: the oldest sample of the line.
    pub open spec fn output(self) -> int {
        self.line.last()
    }

    /// The state of the low-pass filter after this sample: the blend of the
    /// output and the former state.
    pub open spec fn damped(self, damp: int) -> int {
        sat(scale(UNIT - damp, self.output()) + scale(damp, self.store))
    }

    /// The comb filter after the input sample `x`.
    pub open spec fn step(self, x: int, feedback: int, damp: int) -> CombModel {
        let store = self.damped(damp);
        CombModel { line: pushed(self.line, sat(x + scale(feedback, store))), store }
    }
}

/// The output of an all-pass filter with the line `line` for the input
/// sample `x`: the oldest sample of the line less the input.
pub open spec fn allpass_output(line: Seq<int>, x: int) -> int {
    sat(line.last() - x)
}

/// The line of an all-pass filter after the input sample `x`: the input
/// and half of the oldest sample have entered.
pub open spec fn allpass_step(line: Seq<int>, x: int) -> Seq<int> {
    pushed(line, sat(x + scale(UNIT / 2, line.last())))
}

/// What a reverb effect is, as plain numbers.
pub struct ReverbModel {
    /// Samples per second.
    pub sample_rate: int,
    /// The four comb filters.
    pub combs: Seq<CombModel>,
    /// The line of the first all-pass filter.
    pub first_allpass: Seq<int>,
    /// The line of the second all-pass filter.
    pub second_allpass: Seq<int>,
    /// The size of the room, from 0 to `UNIT`.
    pub room_size: int,
    /// The damping of the high frequencies in the tail, from 0 to `UNIT`.
    pub damping: int,
}

impl ReverbModel {
    /// There are four comb filters, no line is empty, and every parameter
    /// is inside its range.
    pub open spec fn wf(self) -> bool {
        &&& SAMPLE_RATE_MIN <= self.sample_rate <= SAMPLE_RATE_MAX
        &&& self.combs.len() == 4
        &&& forall|i: int| 0 <= i < 4 ==> (#[trigger] self.combs[i]).wf()
        &&& 1 <= self.first_allpass.len() <= 8_000
        &&& 1 <= self.second_allpass.len() <= 8_000
        &&& 0 <= self.room_size <= UNIT
        &&& 0 <= self.damping <= UNIT
    }

    /// A new reverb at rest: a room of half size with half damping. At
    /// 44.1 kHz the comb filters are 1116, 1188, 1277 and 1356 samples
    /// long and the all-pass filters 556 and 441; at other rates the
    /// lengths change in proportion.
    pub open spec fn fresh(sample_rate: int) -> ReverbModel {
        let rate = accepted_rate(sample_rate);
        ReverbModel {
            sample_rate: rate,
            combs: seq![
                CombModel::fresh(tuned_length(1_116, rate)),
                CombModel::fresh(tuned_length(1_188, rate)),
                CombModel::fresh(tuned_length(1_277, rate)),
                CombModel::fresh(tuned_length(1_356, rate)),
            ],
            first_allpass: silence(tuned_length(556, rate)),
            second_allpass: silence(tuned_length(441, rate)),
            room_size: UNIT / 2,
            damping: UNIT / 2,
        }
    }

    /// The effect in a room of a new size, limited to the range from 0 to 1.
    pub open spec fn with_room_size(self, room_size: int) -> ReverbModel {
        ReverbModel { room_size: clamp_int(room_size, 0, UNIT as int), ..self }
    }

    /// The effect with a new damping, limited to the range from 0 to 1.
    pub open spec fn with_damping(self, damping: int) -> ReverbModel {
        ReverbModel { damping: clamp_int(damping, 0, UNIT as int), ..self }
    }

    /// The feedback of the comb filters: 0.7 in the smallest room and 0.98
    /// in the largest.
    pub open spec fn feedback(self) -> int {
        ROOM_OFFSET + scale(self.room_size, ROOM_SCALE as int)
    }

    /// The damping of the comb filters: 0 at the lowest setting and 0.4 at
    /// the highest.
    pub open spec fn damp(self) -> int {
        scale(self.damping, DAMP_SCALE as int)
    }

    /// What enters each comb filter for the input sample `x`.
    pub open spec fn comb_input(x: int) -> int {
        sat(scale(REVERB_INPUT_GAIN as int, x))
    }

    /// The sum of the outputs of the four comb filters.
    pub open spec fn comb_sum(self) -> int {
        sat(
            self.combs[0].output() + self.combs[1].output() + self.combs[2].output()
                + self.combs[3].output(),
        )
    }

    /// The tail for the input sample `x`: the sum of the comb filters after
    /// both all-pass filters.
    pub open spec fn wet(self, x: int) -> int {
        allpass_output(self.second_allpass, allpass_output(self.first_allpass, self.comb_sum()))
    }

    /// The effect after the input sample `x`.
    pub open spec fn step(self, x: int) -> ReverbModel {
        let feed = Self::comb_input(x);
        let between = allpass_output(self.first_allpass, self.comb_sum());
        ReverbModel {
            combs: Seq::new(4, |i: int| self.combs[i].step(feed, self.feedback(), self.damp())),
            first_allpass: allpass_step(self.first_allpass, self.comb_sum()),
            second_allpass: allpass_step(self.second_allpass, between),
            ..self
        }
    }

    /// The output for the input sample `x`: the input with the tail added.
    pub open spec fn output(self, x: int) -> int {
        sat(x + self.wet(x))
    }

    /// The feedback and the damping of the comb filters are fractions.
    pub proof fn lemma_coefficients(self)
        requires
            self.wf(),
        ensures
            ROOM_OFFSET <= self.feedback() <= ROOM_OFFSET + ROOM_SCALE,
            0 <= self.damp() <= DAMP_SCALE,
    {
        lemma_scale_fraction(self.room_size, ROOM_SCALE as int);
        lemma_scale_fraction(self.damping, DAMP_SCALE as int);
    }
}

/// A damped comb filter.
struct Comb {
    line: DelayLine,
    store: i64,
}

impl View for Comb {
    type V = CombModel;

    closed spec fn view(&self) -> CombModel {
        CombModel { line: self.line@, store: self.store as int }
    }
}

/// The length of a filter line at `sample_rate` hertz.
fn tuned(tuning: i64, sample_rate: i64) -> (len: usize)
    requires
        400 <= tuning <= 1_400,
        SAMPLE_RATE_MIN <= sample_rate <= SAMPLE_RATE_MAX,
    ensures
        len == tuned_length(tuning as int, sample_rate as int),
        1 <= len <= 8_000,
{
    proof {
        lemma_tuned_length_bounds(tuning as int, sample_rate as int);
        assert(0 <= tuning * sample_rate <= 1_400 * 192_000) by (nonlinear_arith)
            requires
                400 <= tuning <= 1_400,
                1 <= sample_rate <= 192_000,
        ;
    }
    let len: usize = (tuning * sample_rate / 44_100) as usize;
    if len == 0 {
        1
    } else {
        len
    }
}

impl Comb {
    fn new(len: usize) -> (r: Comb)
        requires
            1 <= len <= 8_000,
        ensures
            r@ == CombModel::fresh(len as int),
            r@.wf(),
    {
        Comb { line: DelayLine::new(len), store: 0 }
    }

    /// Feeds one sample through the comb filter and returns its output.
    fn process(&mut self, input: i64, feedback: i64, damp: i64) -> (output: i64)
        requires
            old(self)@.wf(),
            0 <= feedback <= UNIT,
            0 <= damp <= UNIT,
        ensures
            final(self)@ == old(self)@.step(input as int, feedback as int, damp as int),
            final(self)@.wf(),
            output == old(self)@.output(),
    {
        let len: usize = self.line.len();
        let output: i64 = self.line.read(len);
        proof {
            lemma_scale_fraction(UNIT - damp, output as int);
            lemma_scale_fraction(damp as int, self.store as int);
        }
        let store: i64 = saturate(wide_scale(UNIT - damp, output) + wide_scale(damp, self.store));
        proof {
            lemma_scale_fraction(feedback as int, store as int);
        }
        self.store = store;
        self.line.write(saturate(input as i128 + wide_scale(feedback, store)));
        output
    }
}

/// Feeds one sample through an all-pass filter and returns its output.
fn allpass(line: &mut DelayLine, input: i64) -> (output: i64)
    ensures
        final(line)@ == allpass_step(old(line)@, input as int),
        output == allpass_output(old(line)@, input as int),
{
    let len: usize = line.len();
    let oldest: i64 = line.read(len);
    proof {
        lemma_scale_fraction(UNIT / 2, oldest as int);
    }
    line.write(saturate(input as i128 + wide_scale(UNIT / 2, oldest)));
    saturate(oldest as i128 - input as i128)
}

/// A reverb effect.
pub struct Reverb {
    sample_rate: i64,
    comb_a: Comb,
    comb_b: Comb,
    comb_c: Comb,
    comb_d: Comb,
    first_allpass: DelayLine,
    second_allpass: DelayLine,
    room_size: i64,
    damping: i64,
}

impl View for Reverb {
    type V = ReverbModel;

    closed spec fn view(&self) -> ReverbModel {
        ReverbModel {
            sample_rate: self.sample_rate as int,
            combs: seq![self.comb_a@, self.comb_b@, self.comb_c@, self.comb_d@],
            first_allpass: self.first_allpass@,
            second_allpass: self.second_allpass@,
            room_size: self.room_size as int,
            damping: self.damping as int,
        }
    }
}

impl Reverb {
    /// A new reverb for `sample_rate` samples per second. A rate outside
    /// the supported range is replaced by the nearest supported one.
    pub fn new(sample_rate: u32) -> (r: Reverb)
        ensures
            r@ == ReverbModel::fresh(sample_rate as int),
            r@.wf(),
    {
        let rate: i64 = accept_rate(sample_rate);
        let r = Reverb {
            sample_rate: rate,
            comb_a: Comb::new(tuned(1_116, rate)),
            comb_b: Comb::new(tuned(1_188, rate)),
            comb_c: Comb::new(tuned(1_277, rate)),
            comb_d: Comb::new(tuned(1_356, rate)),
            first_allpass: DelayLine::new(tuned(556, rate)),
            second_allpass: DelayLine::new(tuned(441, rate)),
            room_size: UNIT / 2,
            damping: UNIT / 2,
        };
        assert(r@.combs =~= ReverbModel::fresh(sample_rate as int).combs);
        r
    }

    /// Sets the size of the room.
    pub fn set_room_size(&mut self, room_size: i64)
        requires
            old(self)@.wf(),
        ensures
            final(self)@ == old(self)@.with_room_size(room_size as int),
            final(self)@.wf(),
    {
        self.room_size = clamp(room_size, 0, UNIT);
    }

    /// Sets the damping.
    pub fn set_damping(&mut self, damping: i64)
        requires
            old(self)@.wf(),
        ensures
            final(self)@ == old(self)@.with_damping(damping as int),
            final(self)@.wf(),
    {
        self.damping = clamp(damping, 0, UNIT);
    }

    /// Feeds one sample through the effect.
    pub fn process(&mut self, input: i64) -> (output: i64)
        requires
            old(self)@.wf(),
        ensures
            final(self)@ == old(self)@.step(input as int),
            final(self)@.wf(),
            output == old(self)@.output(input as int),
    {
        proof {
            self@.lemma_coefficients();
            assert(self@.combs[0].wf() && self@.combs[1].wf() && self@.combs[2].wf()
                && self@.combs[3].wf());
        }
        let feedback: i64 = ROOM_OFFSET + mul_sat(self.room_size, ROOM_SCALE);
        let damp: i64 = mul_sat(self.damping, DAMP_SCALE);
        let feed: i64 = mul_sat(REVERB_INPUT_GAIN, input);
        let a: i64 = self.comb_a.process(feed, feedback, damp);
        let b: i64 = self.comb_b.process(feed, feedback, damp);
        let c: i64 = self.comb_c.process(feed, feedback, damp);
        let d: i64 = self.comb_d.process(feed, feedback, damp);
        let sum: i64 = saturate(a as i128 + b as i128 + c as i128 + d as i128);
        let between: i64 = allpass(&mut self.first_allpass, sum);
        let wet: i64 = allpass(&mut self.second_allpass, between);
        assert(self@.combs =~= old(self)@.step(input as int).combs);
        saturate(input as i128 + wet as i128)
    }
}

} // verus!
