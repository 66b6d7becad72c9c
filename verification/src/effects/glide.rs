//! Glide: a frequency that moves to its target over a set time.

use vstd::prelude::*;
use crate::envelope::approach;
use crate::fixed::{
    accept_rate, accepted_rate, at_least_zero, positive_part, samples_in, wide_product,
    SAMPLE_RATE_MAX, SAMPLE_RATE_MIN,
};

verus! {

/// The distance between two frequencies.
pub open spec fn distance(a: int, b: int) -> int {
    if a <= b {
        b - a
    } else {
        a - b
    }
}

/// `x` raised by `way`, but not beyond `target`.
pub open spec fn upwards(x: int, target: int, way: int) -> int {
    if x + way < target {
        x + way
    } else {
        target
    }
}

/// `x` lowered by `way`, but not beyond `target`.
pub open spec fn downwards(x: int, target: int, way: int) -> int {
    if x - way > target {
        x - way
    } else {
        target
    }
}

/// The move per sample that covers `d` in at most `samples` samples: `d`
/// divided by `samples`, rounded up, and at least 1.
pub open spec fn glide_step(d: int, samples: int) -> int {
    if samples <= 0 || d <= samples {
        1
    } else {
        (d + samples - 1) / samples
    }
}

/// The step of a glide is positive, and `samples` such steps cover the distance.
pub proof fn lemma_glide_step_covers(d: int, samples: int)
    requires
        0 <= d,
        0 < samples,
    ensures
        1 <= glide_step(d, samples),
        glide_step(d, samples) == 1 || glide_step(d, samples) <= d,
        glide_step(d, samples) * samples >= d,
{
    if d <= samples {
        assert(1 * samples >= d);
    } else {
        let q = (d + samples - 1) / samples;
        let r = (d + samples - 1) % samples;
        assert(d + samples - 1 == samples * q + r && 0 <= r < samples) by (nonlinear_arith)
            requires
                q == (d + samples - 1) / samples,
                r == (d + samples - 1) % samples,
                0 < samples,
        ;
        assert(q * samples == samples * q) by (nonlinear_arith);
        assert(1 <= q <= d) by (nonlinear_arith)
            requires
                d + samples - 1 == samples * q + r,
                0 <= r < samples,
                0 < samples < d,
        ;
    }
}

/// What a glide is, as plain numbers.
pub struct GlideModel {
    /// Samples per second.
    pub sample_rate: int,
    /// The frequency now, in microhertz.
    pub current: int,
    /// The frequency the glide moves to, in microhertz.
    pub target: int,
    /// The glide time in samples; 0 means no glide.
    pub samples: int,
    /// The move per sample, in microhertz.
    pub step: int,
}

impl GlideModel {
    /// The step is positive and covers what is left of the way within the
    /// glide time, and without a glide time the frequency is at its target.
    pub open spec fn wf(self) -> bool {
        &&& SAMPLE_RATE_MIN <= self.sample_rate <= SAMPLE_RATE_MAX
        &&& -0x8000_0000_0000_0000 <= self.current <= 0x7fff_ffff_ffff_ffff
        &&& -0x8000_0000_0000_0000 <= self.target <= 0x7fff_ffff_ffff_ffff
        &&& 0 <= self.samples <= 0x1_0000_0000_0000_0000_0000_0000
        &&& 1 <= self.step <= 0xffff_ffff_ffff_ffff
        &&& (self.samples == 0 ==> self.current == self.target)
        &&& self.step * self.samples >= distance(self.current, self.target)
    }

    /// A new glide: at rest at 0 Hz, with no glide time.
    pub open spec fn fresh(sample_rate: int) -> GlideModel {
        GlideModel {
            sample_rate: accepted_rate(sample_rate),
            current: 0,
            target: 0,
            samples: 0,
            step: 1,
        }
    }

    /// The glide with the new target `frequency`. The frequency stays
    /// where it is and covers the rest of the way within the glide time;
    /// without a glide time it jumps to the target at once.
    pub open spec fn with_target(self, frequency: int) -> GlideModel {
        if self.samples == 0 {
            GlideModel { current: frequency, target: frequency, step: 1, ..self }
        } else {
            GlideModel {
                target: frequency,
                step: glide_step(distance(self.current, frequency), self.samples),
                ..self
            }
        }
    }

    /// The glide with a new glide time in milliseconds; a negative time
    /// counts as 0. What is left of the way is covered within the new
    /// time; with a time of less than one sample the frequency jumps to
    /// the target at once.
    pub open spec fn with_time(self, ms: int) -> GlideModel {
        let samples = samples_in(positive_part(ms), self.sample_rate);
        if samples == 0 {
            GlideModel { current: self.target, samples, step: 1, ..self }
        } else {
            GlideModel {
                samples,
                step: glide_step(distance(self.current, self.target), samples),
                ..self
            }
        }
    }

    /// The glide one sample later: one step nearer the target, or on it.
    pub open spec fn step(self) -> GlideModel {
        GlideModel { current: approach(self.current, self.target, self.step), ..self }
    }

    /// The glide `n` samples later.
    pub open spec fn after(self, n: nat) -> GlideModel
        decreases n,
    {
        if n == 0 {
            self
        } else {
            self.after((n - 1) as nat).step()
        }
    }

    /// A new target keeps a glide well formed, and is taken as it is given.
    pub proof fn lemma_with_target_wf(self, frequency: int)
        requires
            self.wf(),
            -0x8000_0000_0000_0000 <= frequency <= 0x7fff_ffff_ffff_ffff,
        ensures
            self.with_target(frequency).wf(),
            self.with_target(frequency).target == frequency,
    {
        if self.samples > 0 {
            lemma_glide_step_covers(distance(self.current, frequency), self.samples);
        } else {
            assert(1 * self.samples == 0);
        }
    }

    /// A new glide time keeps a glide well formed.
    pub proof fn lemma_with_time_wf(self, ms: int)
        requires
            self.wf(),
            ms <= 0x7fff_ffff_ffff_ffff,
        ensures
            self.with_time(ms).wf(),
    {
        let t = positive_part(ms);
        let samples = samples_in(t, self.sample_rate);
        assert(0 <= t * self.sample_rate <= 0x8000_0000_0000_0000 * 192_000) by (nonlinear_arith)
            requires
                0 <= t <= 0x8000_0000_0000_0000,
                0 <= self.sample_rate <= 192_000,
        ;
        if samples > 0 {
            lemma_glide_step_covers(distance(self.current, self.target), samples);
        } else {
            assert(1 * samples == 0);
        }
    }

    /// One sample keeps a glide well formed.
    pub proof fn lemma_step_wf(self)
        requires
            self.wf(),
        ensures
            self.step().wf(),
    {
    }

    /// Where a glide is after `n` samples: `n` steps nearer the target, or
    /// on it. Target, glide time and step are as they were.
    pub proof fn lemma_after(self, n: nat)
        requires
            self.wf(),
        ensures
            self.after(n).wf(),
            self.after(n).target == self.target,
            self.after(n).step == self.step,
            self.after(n).samples == self.samples,
            self.after(n).sample_rate == self.sample_rate,
            self.current <= self.target ==> self.after(n).current == upwards(
                self.current,
                self.target,
                n * self.step,
            ),
            self.current >= self.target ==> self.after(n).current == downwards(
                self.current,
                self.target,
                n * self.step,
            ),
        decreases n,
    {
        if n == 0 {
            assert(0 * self.step == 0);
        } else {
            let m = (n - 1) as nat;
            self.lemma_after(m);
            self.after(m).lemma_step_wf();
            assert(n * self.step == m * self.step + self.step) by (nonlinear_arith)
                requires
                    n == m + 1,
            ;
            assert(m * self.step >= 0) by (nonlinear_arith)
                requires
                    self.step >= 1,
            ;
        }
    }

    /// Towards a new target the frequency moves one way only and never past
    /// it, sample after sample, and it is on the target once the glide time
    /// has passed.
    pub proof fn lemma_glide_is_monotonic_and_arrives(self, frequency: int, n: nat)
        requires
            self.wf(),
            -0x8000_0000_0000_0000 <= frequency <= 0x7fff_ffff_ffff_ffff,
        ensures
            ({
                let g = self.with_target(frequency);
                &&& g.wf()
                &&& g.target == frequency
                &&& (g.current <= g.target ==> g.after(n).current <= g.after(n + 1).current
                    <= g.target)
                &&& (g.current >= g.target ==> g.after(n).current >= g.after(n + 1).current
                    >= g.target)
                &&& (n >= g.samples ==> g.after(n).current == g.target)
            }),
    {
        let g = self.with_target(frequency);
        self.lemma_with_target_wf(frequency);
        g.lemma_after(n);
        g.lemma_after(n + 1);
        assert((n + 1) * g.step == n * g.step + g.step) by (nonlinear_arith);
        if n >= g.samples {
            assert(n * g.step >= g.samples * g.step) by (nonlinear_arith)
                requires
                    n >= g.samples,
                    g.step >= 1,
            ;
            assert(g.samples * g.step == g.step * g.samples) by (nonlinear_arith);
        }
    }
}

/// A gliding frequency.
pub struct Glide {
    sample_rate: i64,
    current: i64,
    target: i64,
    samples: i128,
    step: u64,
}

impl View for Glide {
    type V = GlideModel;

    closed spec fn view(&self) -> GlideModel {
        GlideModel {
            sample_rate: self.sample_rate as int,
            current: self.current as int,
            target: self.target as int,
            samples: self.samples as int,
            step: self.step as int,
        }
    }
}

/// The move per sample that covers the way from `from` to `to` in `samples` samples.
fn step_between(from: i64, to: i64, samples: i128) -> (r: u64)
    requires
        0 < samples <= 0x1_0000_0000_0000_0000_0000_0000,
    ensures
        r == glide_step(distance(from as int, to as int), samples as int),
        1 <= r,
{
    proof {
        lemma_glide_step_covers(distance(from as int, to as int), samples as int);
    }
    let d: i128 = if from <= to {
        to as i128 - from as i128
    } else {
        from as i128 - to as i128
    };
    if d <= samples {
        1
    } else {
        ((d + samples - 1) / samples) as u64
    }
}

/// Moves `x` towards `target` by `step`, without passing it.
fn glide_move(x: i64, target: i64, step: u64) -> (r: i64)
    ensures
        r == approach(x as int, target as int, step as int),
{
    if x < target {
        let next: i128 = x as i128 + step as i128;
        if next < target as i128 {
            next as i64
        } else {
            target
        }
    } else {
        let next: i128 = x as i128 - step as i128;
        if next > target as i128 {
            next as i64
        } else {
            target
        }
    }
}

impl Glide {
    /// A new glide for `sample_rate` samples per second. A rate outside the
    /// supported range is replaced by the nearest supported one.
    pub fn new(sample_rate: u32) -> (r: Glide)
        ensures
            r@ == GlideModel::fresh(sample_rate as int),
            r@.wf(),
    {
        assert(1 * 0 == 0);
        Glide { sample_rate: accept_rate(sample_rate), current: 0, target: 0, samples: 0, step: 1 }
    }

    /// Sets the frequency to move to, in microhertz.
    pub fn set_target(&mut self, frequency: i64)
        requires
            old(self)@.wf(),
        ensures
            final(self)@ == old(self)@.with_target(frequency as int),
            final(self)@.wf(),
            final(self)@.target == frequency,
    {
        proof {
            self@.lemma_with_target_wf(frequency as int);
        }
        self.target = frequency;
        if self.samples == 0 {
            self.current = frequency;
            self.step = 1;
        } else {
            self.step = step_between(self.current, frequency, self.samples);
        }
    }

    /// Sets the glide time, in milliseconds.
    pub fn set_glide_time(&mut self, time_ms: i64)
        requires
            old(self)@.wf(),
        ensures
            final(self)@ == old(self)@.with_time(time_ms as int),
            final(self)@.wf(),
    {
        proof {
            self@.lemma_with_time_wf(time_ms as int);
        }
        let samples: i128 = wide_product(at_least_zero(time_ms), self.sample_rate) / 1000;
        self.samples = samples;
        if samples == 0 {
            self.current = self.target;
            self.step = 1;
        } else {
            self.step = step_between(self.current, self.target, samples);
        }
    }

    /// Advances the glide by one sample and returns the new frequency.
    pub fn process(&mut self) -> (frequency: i64)
        requires
            old(self)@.wf(),
        ensures
            final(self)@ == old(self)@.step(),
            final(self)@.wf(),
            frequency == old(self)@.step().current,
    {
        self.current = glide_move(self.current, self.target, self.step);
        self.current
    }

    /// The frequency now, which may still be on its way to the target.
    pub fn get_frequency(&self) -> (frequency: i64)
        ensures
            frequency == self@.current,
    {
        self.current
    }
}

} // verus!
