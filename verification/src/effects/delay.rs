//! The delay effect: an echo with feedback.

use vstd::prelude::*;
use crate::effects::delay_line::{line_size, pushed, silence, DelayLine};
use crate::fixed::{
    accept_rate, accepted_rate, blend, clamp, clamp_int, crossfade, lemma_scale_fraction,
    samples_for, samples_in, sat, saturate, scale, wide_scale, SAMPLE_RATE_MAX, SAMPLE_RATE_MIN,
    UNIT,
};

verus! {

/// The longest delay line, in milliseconds.
pub const DELAY_TIME_MAX: i64 = 10_000;

/// The strongest feedback of a delay line (it stands for 0.95).
pub const FEEDBACK_MAX: i64 = 950_000_000;

/// The number of samples in a delay line that holds `max_ms` milliseconds,
/// with `max_ms` limited to the range from 1 to `DELAY_TIME_MAX`; a line
/// holds at least one sample.
pub open spec fn line_length(max_ms: int, sample_rate: int) -> int {
    line_size(samples_in(clamp_int(max_ms, 1, DELAY_TIME_MAX as int), sample_rate))
}

/// The delay in samples that belongs to a delay time in milliseconds: at
/// least one sample and at most the whole line of `len` samples.
pub open spec fn delay_length(ms: int, sample_rate: int, len: int) -> int {
    clamp_int(samples_in(clamp_int(ms, 0, DELAY_TIME_MAX as int), sample_rate), 1, len)
}

/// A delay line holds at least 1 and at most 1,920,000 samples.
pub proof fn lemma_line_length_bounds(max_ms: int, sample_rate: int)
    requires
        SAMPLE_RATE_MIN <= sample_rate <= SAMPLE_RATE_MAX,
    ensures
        1 <= line_length(max_ms, sample_rate) <= 1_920_000,
{
    let t = clamp_int(max_ms, 1, DELAY_TIME_MAX as int);
    assert(0 <= t * sample_rate <= 10_000 * 192_000) by (nonlinear_arith)
        requires
            1 <= t <= 10_000,
            1 <= sample_rate <= 192_000,
    ;
}

/// What a delay effect is, as plain numbers.
pub struct DelayModel {
    /// Samples per second.
    pub sample_rate: int,
    /// The past of the line, newest sample first.
    pub line: Seq<int>,
    /// The delay in samples.
    pub delay: int,
    /// The share of the delayed signal that is fed back into the line.
    pub feedback: int,
    /// The share of the delayed signal in the output.
    pub mix: int,
}

impl DelayModel {
    /// The delay lies inside the line and every parameter inside its range.
    pub open spec fn wf(self) -> bool {
        &&& SAMPLE_RATE_MIN <= self.sample_rate <= SAMPLE_RATE_MAX
        &&& 1 <= self.delay <= self.line.len() <= 1_920_000
        &&& 0 <= self.feedback <= FEEDBACK_MAX
        &&& 0 <= self.mix <= UNIT
    }

    /// A new delay effect: a silent line of `max_ms` milliseconds, a delay
    /// of 250 ms (or the whole line, if that is shorter), feedback 0.3 and
    /// mix 0.3.
    pub open spec fn fresh(sample_rate: int, max_ms: int) -> DelayModel {
        let rate = accepted_rate(sample_rate);
        let len = line_length(max_ms, rate);
        DelayModel {
            sample_rate: rate,
            line: silence(len),
            delay: delay_length(250, rate, len),
            feedback: 300_000_000,
            mix: 300_000_000,
        }
    }

    /// The effect with a new delay time in milliseconds.
    pub open spec fn with_time(self, ms: int) -> DelayModel {
        DelayModel { delay: delay_length(ms, self.sample_rate, self.line.len() as int), ..self }
    }

    /// The effect with a new feedback, limited to the range from 0 to 0.95.
    pub open spec fn with_feedback(self, feedback: int) -> DelayModel {
        DelayModel { feedback: clamp_int(feedback, 0, FEEDBACK_MAX as int), ..self }
    }

    /// The effect with a new mix, limited to the range from 0 to 1.
    pub open spec fn with_mix(self, mix: int) -> DelayModel {
        DelayModel { mix: clamp_int(mix, 0, UNIT as int), ..self }
    }

    /// The sample that leaves the line now.
    pub open spec fn delayed(self) -> int {
        self.line[self.delay - 1]
    }

    /// The effect after the input sample `x`: the input and the fed-back
    /// share of the delayed sample have entered the line.
    pub open spec fn step(self, x: int) -> DelayModel {
        DelayModel {
            line: pushed(self.line, sat(x + scale(self.feedback, self.delayed()))),
            ..self
        }
    }

    /// The output for the input sample `x`: the blend of the input and the
    /// delayed sample.
    pub open spec fn output(self, x: int) -> int {
        crossfade(self.mix, x, self.delayed())
    }
}

/// A delay effect.
pub struct Delay {
    sample_rate: i64,
    line: DelayLine,
    delay: usize,
    feedback: i64,
    mix: i64,
}

impl View for Delay {
    type V = DelayModel;

    closed spec fn view(&self) -> DelayModel {
        DelayModel {
            sample_rate: self.sample_rate as int,
            line: self.line@,
            delay: self.delay as int,
            feedback: self.feedback as int,
            mix: self.mix as int,
        }
    }
}

/// The delay in samples that belongs to a delay time in milliseconds.
fn delay_for(ms: i64, sample_rate: i64, len: usize) -> (r: usize)
    requires
        SAMPLE_RATE_MIN <= sample_rate <= SAMPLE_RATE_MAX,
        1 <= len <= 1_920_000,
    ensures
        r == delay_length(ms as int, sample_rate as int, len as int),
        1 <= r <= len,
{
    let n: i64 = samples_for(clamp(ms, 0, DELAY_TIME_MAX), sample_rate);
    clamp(n, 1, len as i64) as usize
}

impl Delay {
    /// A new delay effect for `sample_rate` samples per second, with a line
    /// that holds `max_delay_ms` milliseconds. A rate outside the supported
    /// range is replaced by the nearest supported one, and so is a line
    /// time outside the range from 1 ms to 10 s.
    pub fn new(sample_rate: u32, max_delay_ms: i64) -> (r: Delay)
        ensures
            r@ == DelayModel::fresh(sample_rate as int, max_delay_ms as int),
            r@.wf(),
    {
        let rate: i64 = accept_rate(sample_rate);
        proof {
            lemma_line_length_bounds(max_delay_ms as int, rate as int);
        }
        let line = DelayLine::new(samples_for(clamp(max_delay_ms, 1, DELAY_TIME_MAX), rate) as usize);
        let len: usize = line.len();
        Delay {
            sample_rate: rate,
            line,
            delay: delay_for(250, rate, len),
            feedback: 300_000_000,
            mix: 300_000_000,
        }
    }

    /// Sets the delay time, in milliseconds.
    pub fn set_delay_time(&mut self, time_ms: i64)
        requires
            old(self)@.wf(),
        ensures
            final(self)@ == old(self)@.with_time(time_ms as int),
            final(self)@.wf(),
    {
        let len: usize = self.line.len();
        self.delay = delay_for(time_ms, self.sample_rate, len);
    }

    /// Sets the feedback.
    pub fn set_feedback(&mut self, feedback: i64)
        requires
            old(self)@.wf(),
        ensures
            final(self)@ == old(self)@.with_feedback(feedback as int),
            final(self)@.wf(),
    {
        self.feedback = clamp(feedback, 0, FEEDBACK_MAX);
    }

    /// Sets the mix.
    pub fn set_mix(&mut self, mix: i64)
        requires
            old(self)@.wf(),
        ensures
            final(self)@ == old(self)@.with_mix(mix as int),
            final(self)@.wf(),
    {
        self.mix = clamp(mix, 0, UNIT);
    }

    /// Feeds one sample through the effect.
    pub fn process(&mut self, input: i64) -> (output: i64)
        requires
            old(self)@.wf(),
        ensures
            final(self)@ == old(self)@.step(input as int),
            final(self)@.wf(),
            output == old(self)@.output(input as int),
    {
        let delayed: i64 = self.line.read(self.delay);
        proof {
            lemma_scale_fraction(self.feedback as int, delayed as int);
        }
        self.line.write(saturate(input as i128 + wide_scale(self.feedback, delayed)));
        blend(self.mix, input, delayed)
    }
}

} // verus!
