//! The attack-decay-sustain-release envelope of a voice.
//!
//! The level moves along straight ramps: up to 1 during the attack, to the
//! sustain level during the decay, and down to 0 during the release.

use vstd::prelude::*;
use crate::fixed::{
    accept_rate, accepted_rate, at_least_zero, clamp, clamp_int, positive_part, samples_in,
    wide_product, SAMPLE_RATE_MAX, SAMPLE_RATE_MIN, UNIT,
};

verus! {

/// The stage an envelope is in.
#[derive(Clone, Copy, PartialEq, Eq, Structural, Debug)]
pub enum Stage {
    Idle,
    Attack,
    Decay,
    Sustain,
    Release,
}

/// The amount by which a ramp of `ms` milliseconds moves the level in one
/// sample, so that it covers the whole range from 0 to 1 in that time. A
/// negative time counts as 0. A ramp shorter than two samples covers the
/// range in one step, and the slowest ramp moves by one billionth a
/// sample.
pub open spec fn ramp_step(ms: int, sample_rate: int) -> int {
    let n = samples_in(positive_part(ms), sample_rate);
    if n <= 1 {
        UNIT as int
    } else if n >= UNIT {
        1
    } else {
        (UNIT as int) / n
    }
}

/// `x` moved towards `target` by `step`, without passing it.
pub open spec fn approach(x: int, target: int, step: int) -> int {
    if x < target {
        if x + step < target {
            x + step
        } else {
            target
        }
    } else {
        if x - step > target {
            x - step
        } else {
            target
        }
    }
}

/// A ramp step is at least one billionth and at most the whole range.
pub proof fn lemma_ramp_step_bounds(ms: int, sample_rate: int)
    requires
        0 <= sample_rate <= SAMPLE_RATE_MAX,
    ensures
        1 <= ramp_step(ms, sample_rate) <= UNIT,
{
    let n = samples_in(positive_part(ms), sample_rate);
    if 1 < n < UNIT {
        assert(1 <= (UNIT as int) / n <= UNIT) by (nonlinear_arith)
            requires
                1 < n < 1_000_000_000,
                UNIT == 1_000_000_000,
        ;
    }
}

/// What an envelope is, as plain numbers.
pub struct EnvelopeModel {
    /// Samples per second.
    pub sample_rate: int,
    /// The current stage.
    pub stage: Stage,
    /// The current level, from 0 to `UNIT`.
    pub level: int,
    /// The rise of the level per sample during the attack.
    pub attack_step: int,
    /// The move of the level per sample during the decay.
    pub decay_step: int,
    /// The fall of the level per sample during the release.
    pub release_step: int,
    /// The level that the decay ends on.
    pub sustain: int,
}

impl EnvelopeModel {
    /// The level and the sustain level lie between 0 and 1, every step is
    /// positive, and an idle envelope is silent.
    pub open spec fn wf(self) -> bool {
        &&& SAMPLE_RATE_MIN <= self.sample_rate <= SAMPLE_RATE_MAX
        &&& 0 <= self.level <= UNIT
        &&& 1 <= self.attack_step <= UNIT
        &&& 1 <= self.decay_step <= UNIT
        &&& 1 <= self.release_step <= UNIT
        &&& 0 <= self.sustain <= UNIT
        &&& (self.stage is Idle ==> self.level == 0)
    }

    /// A new envelope: idle and silent, with an attack of 10 ms, a decay of
    /// 100 ms, a sustain level of 0.7 and a release of 300 ms.
    pub open spec fn fresh(sample_rate: int) -> EnvelopeModel {
        let rate = accepted_rate(sample_rate);
        EnvelopeModel {
            sample_rate: rate,
            stage: Stage::Idle,
            level: 0,
            attack_step: ramp_step(10, rate),
            decay_step: ramp_step(100, rate),
            release_step: ramp_step(300, rate),
            sustain: 700_000_000,
        }
    }

    /// The envelope with new ramp times, in milliseconds, and a new sustain
    /// level, which is limited to the range from 0 to 1. Stage and level
    /// stay.
    pub open spec fn with_adsr(self, attack: int, decay: int, sustain: int, release: int)
        -> EnvelopeModel {
        EnvelopeModel {
            attack_step: ramp_step(attack, self.sample_rate),
            decay_step: ramp_step(decay, self.sample_rate),
            release_step: ramp_step(release, self.sample_rate),
            sustain: clamp_int(sustain, 0, UNIT as int),
            ..self
        }
    }

    /// The envelope after its note has begun: the attack starts from the
    /// current level.
    pub open spec fn gate_on(self) -> EnvelopeModel {
        EnvelopeModel { stage: Stage::Attack, ..self }
    }

    /// The envelope after its note has ended: the release starts from the
    /// current level, whatever the stage was.
    pub open spec fn gate_off(self) -> EnvelopeModel {
        EnvelopeModel { stage: Stage::Release, ..self }
    }

    /// Whether the envelope is in any stage but idle.
    pub open spec fn is_active(self) -> bool {
        !(self.stage is Idle)
    }

    /// The envelope one sample later. The level moves along the ramp of the
    /// current stage; the attack ends on 1, the decay on the sustain level
    /// and the release on 0, and each then hands over to the next stage.
    pub open spec fn step(self) -> EnvelopeModel {
        match self.stage {
            Stage::Idle => self,
            Stage::Attack => {
                let level = approach(self.level, UNIT as int, self.attack_step);
                EnvelopeModel {
                    level,
                    stage: if level == UNIT {
                        Stage::Decay
                    } else {
                        Stage::Attack
                    },
                    ..self
                }
            },
            Stage::Decay => {
                let level = approach(self.level, self.sustain, self.decay_step);
                EnvelopeModel {
                    level,
                    stage: if level == self.sustain {
                        Stage::Sustain
                    } else {
                        Stage::Decay
                    },
                    ..self
                }
            },
            Stage::Sustain => self,
            Stage::Release => {
                let level = approach(self.level, 0, self.release_step);
                EnvelopeModel {
                    level,
                    stage: if level == 0 {
                        Stage::Idle
                    } else {
                        Stage::Release
                    },
                    ..self
                }
            },
        }
    }

    /// The largest change of the level that one sample can bring in the
    /// current stage.
    pub open spec fn stage_step(self) -> int {
        match self.stage {
            Stage::Idle => 0,
            Stage::Attack => self.attack_step,
            Stage::Decay => self.decay_step,
            Stage::Sustain => 0,
            Stage::Release => self.release_step,
        }
    }

    /// One sample keeps an envelope well formed and moves the level by no
    /// more than the step of the current stage: never down during the
    /// attack, never up during the release, and not at all while the
    /// envelope sustains or idles.
    pub proof fn lemma_step_is_continuous(self)
        requires
            self.wf(),
        ensures
            self.step().wf(),
            self.level - self.stage_step() <= self.step().level <= self.level + self.stage_step(),
            self.stage is Attack ==> self.level <= self.step().level,
            self.stage is Release ==> self.step().level <= self.level,
    {
    }

    /// A note that begins and ends at once leaves the level where it
    /// was, and the sample that follows lies at most one release step below
    /// it: the change from attack to release brings no jump.
    pub proof fn lemma_gate_on_off_is_continuous(self)
        requires
            self.wf(),
        ensures
            self.gate_on().level == self.level,
            self.gate_on().gate_off().level == self.level,
            self.gate_on().gate_off().stage is Release,
            self.gate_on().gate_off().wf(),
            self.level - self.release_step <= self.gate_on().gate_off().step().level <= self.level,
    {
    }
}

/// An envelope generator.
pub struct Envelope {
    sample_rate: i64,
    stage: Stage,
    level: i64,
    attack_step: i64,
    decay_step: i64,
    release_step: i64,
    sustain: i64,
}

impl View for Envelope {
    type V = EnvelopeModel;

    closed spec fn view(&self) -> EnvelopeModel {
        EnvelopeModel {
            sample_rate: self.sample_rate as int,
            stage: self.stage,
            level: self.level as int,
            attack_step: self.attack_step as int,
            decay_step: self.decay_step as int,
            release_step: self.release_step as int,
            sustain: self.sustain as int,
        }
    }
}

/// The step of a ramp of `ms` milliseconds.
fn step_for(ms: i64, sample_rate: i64) -> (r: i64)
    requires
        0 <= sample_rate <= SAMPLE_RATE_MAX,
    ensures
        r == ramp_step(ms as int, sample_rate as int),
        1 <= r <= UNIT,
{
    proof {
        lemma_ramp_step_bounds(ms as int, sample_rate as int);
    }
    let n: i128 = wide_product(at_least_zero(ms), sample_rate) / 1000;
    if n <= 1 {
        UNIT
    } else if n >= UNIT as i128 {
        1
    } else {
        (UNIT as i128 / n) as i64
    }
}

/// Moves `x` towards `target` by `step`, without passing it.
pub fn move_towards(x: i64, target: i64, step: i64) -> (r: i64)
    requires
        -1_000_000_000_000 <= x <= 1_000_000_000_000,
        -1_000_000_000_000 <= target <= 1_000_000_000_000,
        0 <= step <= 1_000_000_000_000,
    ensures
        r == approach(x as int, target as int, step as int),
{
    if x < target {
        if x + step < target {
            x + step
        } else {
            target
        }
    } else {
        if x - step > target {
            x - step
        } else {
            target
        }
    }
}

impl Envelope {
    /// A new envelope for `sample_rate` samples per second. A rate outside
    /// the supported range is replaced by the nearest supported one.
    pub fn new(sample_rate: u32) -> (r: Envelope)
        ensures
            r@ == EnvelopeModel::fresh(sample_rate as int),
            r@.wf(),
    {
        let rate: i64 = accept_rate(sample_rate);
        Envelope {
            sample_rate: rate,
            stage: Stage::Idle,
            level: 0,
            attack_step: step_for(10, rate),
            decay_step: step_for(100, rate),
            release_step: step_for(300, rate),
            sustain: 700_000_000,
        }
    }

    /// Sets the attack, decay and release times, in milliseconds, and the
    /// sustain level.
    pub fn set_adsr(&mut self, attack: i64, decay: i64, sustain: i64, release: i64)
        requires
            old(self)@.wf(),
        ensures
            final(self)@ == old(self)@.with_adsr(
                attack as int,
                decay as int,
                sustain as int,
                release as int,
            ),
            final(self)@.wf(),
    {
        self.attack_step = step_for(attack, self.sample_rate);
        self.decay_step = step_for(decay, self.sample_rate);
        self.release_step = step_for(release, self.sample_rate);
        self.sustain = clamp(sustain, 0, UNIT);
    }

    /// Begins the note: the attack starts from the current level.
    pub fn gate_on(&mut self)
        requires
            old(self)@.wf(),
        ensures
            final(self)@ == old(self)@.gate_on(),
            final(self)@.wf(),
    {
        self.stage = Stage::Attack;
    }

    /// Ends the note: the release starts from the current level.
    pub fn gate_off(&mut self)
        requires
            old(self)@.wf(),
        ensures
            final(self)@ == old(self)@.gate_off(),
            final(self)@.wf(),
    {
        self.stage = Stage::Release;
    }

    /// Whether the envelope is in any stage but idle.
    pub fn is_active(&self) -> (b: bool)
        ensures
            b == self@.is_active(),
    {
        match self.stage {
            Stage::Idle => false,
            _ => true,
        }
    }

    /// Advances the envelope by one sample and returns the new level.
    pub fn process(&mut self) -> (level: i64)
        requires
            old(self)@.wf(),
        ensures
            final(self)@ == old(self)@.step(),
            final(self)@.wf(),
            level == old(self)@.step().level,
            0 <= level <= UNIT,
    {
        match self.stage {
            Stage::Idle => {},
            Stage::Attack => {
                self.level = move_towards(self.level, UNIT, self.attack_step);
                if self.level == UNIT {
                    self.stage = Stage::Decay;
                }
            },
            Stage::Decay => {
                self.level = move_towards(self.level, self.sustain, self.decay_step);
                if self.level == self.sustain {
                    self.stage = Stage::Sustain;
                }
            },
            Stage::Sustain => {},
            Stage::Release => {
                self.level = move_towards(self.level, 0, self.release_step);
                if self.level == 0 {
                    self.stage = Stage::Idle;
                }
            },
        }
        self.level
    }
}

} // verus!
