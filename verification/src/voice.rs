//! A voice: one oscillator, one envelope and one glide that together
//! sound one note.

use vstd::prelude::*;
use crate::effects::glide::{Glide, GlideModel};
use crate::envelope::{Envelope, EnvelopeModel};
use crate::fixed::{
    in_range, lemma_scale_fraction, mul_sat, sat, saturate, scale, SAMPLE_LIMIT, UNIT,
};
use crate::oscillator::{Oscillator, OscillatorModel};

verus! {

/// The highest age a voice can reach; the count stops there.
pub const AGE_MAX: u64 = 0xffff_ffff_ffff_ffff;

/// What a voice is, as plain numbers.
pub struct VoiceModel {
    /// The oscillator.
    pub oscillator: OscillatorModel,
    /// The envelope.
    pub envelope: EnvelopeModel,
    /// The glide.
    pub glide: GlideModel,
    /// Whether the voice has been turned on and its envelope has not yet
    /// come to rest.
    pub active: bool,
    /// The number of blocks processed since the voice was last turned on.
    pub age: nat,
    /// The loudness of the note, as it was given when the note was turned
    /// on: a factor on the amplitude, with `UNIT` for 1.
    pub velocity: int,
}

impl VoiceModel {
    /// The three parts are well formed, and the age is one that the
    /// counter can hold.
    pub open spec fn wf(self) -> bool {
        &&& self.oscillator.wf()
        &&& self.envelope.wf()
        &&& self.glide.wf()
        &&& self.age <= AGE_MAX
    }

    /// A new voice: silent, at full velocity.
    pub open spec fn fresh(sample_rate: int) -> VoiceModel {
        VoiceModel {
            oscillator: OscillatorModel::fresh(sample_rate),
            envelope: EnvelopeModel::fresh(sample_rate),
            glide: GlideModel::fresh(sample_rate),
            active: false,
            age: 0,
            velocity: UNIT as int,
        }
    }

    /// Whether the voice sounds: it is turned on, or its envelope has not
    /// yet come to rest.
    pub open spec fn sounding(self) -> bool {
        self.active || self.envelope.is_active()
    }

    /// Whether the voice is off but still heard.
    pub open spec fn releasing(self) -> bool {
        !self.active && self.envelope.is_active()
    }

    /// The voice after a note has been turned on. The glide moves to the
    /// new frequency, the velocity is taken as it is given, the envelope
    /// opens from its current level, and the age starts again at 0. The
    /// oscillator starts its cycle anew only if the voice did not sound.
    pub open spec fn note_on(self, frequency: int, velocity: int) -> VoiceModel {
        VoiceModel {
            oscillator: if self.sounding() {
                self.oscillator
            } else {
                self.oscillator.reset()
            },
            envelope: self.envelope.gate_on(),
            glide: self.glide.with_target(frequency),
            active: true,
            age: 0,
            velocity,
        }
    }

    /// The voice after its note has been turned off: the envelope begins
    /// its release, and the voice stays on until the release has ended.
    pub open spec fn note_off(self) -> VoiceModel {
        VoiceModel { envelope: self.envelope.gate_off(), ..self }
    }

    /// The voice with the waveform that `code` selects.
    pub open spec fn with_waveform(self, code: int) -> VoiceModel {
        VoiceModel { oscillator: self.oscillator.with_waveform(code), ..self }
    }

    /// The voice with new envelope times and sustain level.
    pub open spec fn with_adsr(self, attack: int, decay: int, sustain: int, release: int)
        -> VoiceModel {
        VoiceModel { envelope: self.envelope.with_adsr(attack, decay, sustain, release), ..self }
    }

    /// The voice with a new glide time.
    pub open spec fn with_glide_time(self, ms: int) -> VoiceModel {
        VoiceModel { glide: self.glide.with_time(ms), ..self }
    }

    /// The voice with a new detune.
    pub open spec fn with_detune(self, cents: int) -> VoiceModel {
        VoiceModel { oscillator: self.oscillator.with_detune(cents), ..self }
    }

    /// The voice one sample later: the glide has moved, the oscillator has
    /// taken the glide's frequency and advanced, the envelope has advanced,
    /// and the voice has gone off if the envelope has come to rest.
    pub open spec fn tick(self) -> VoiceModel {
        let glide = self.glide.step();
        let envelope = self.envelope.step();
        VoiceModel {
            oscillator: self.oscillator.with_frequency(glide.current).step(),
            envelope,
            glide,
            active: self.active && envelope.is_active(),
            ..self
        }
    }

    /// What the voice adds to the sample that is processed now: the output
    /// of the oscillator times the level of the envelope times the
    /// velocity, held inside the signal range.
    pub open spec fn contribution(self) -> int {
        sat(
            scale(
                self.velocity,
                scale(self.tick().envelope.level, self.tick().oscillator.output()),
            ),
        )
    }

    /// The voice one block older.
    pub open spec fn aged(self) -> VoiceModel {
        VoiceModel {
            age: if self.age < AGE_MAX {
                self.age + 1
            } else {
                self.age
            },
            ..self
        }
    }

    /// The voice and the buffer after the first `n` samples of the buffer
    /// have been processed: the voice has added its contribution to each of
    /// them, and each sum is held inside the signal range.
    pub open spec fn run(self, buffer: Seq<i64>, n: nat) -> (VoiceModel, Seq<i64>)
        decreases n,
    {
        if n == 0 {
            (self, buffer)
        } else {
            let (voice, mixed) = self.run(buffer, (n - 1) as nat);
            (
                voice.tick(),
                mixed.update(n - 1, sat(mixed[n - 1] + voice.contribution()) as i64),
            )
        }
    }

    /// The voice and the buffer after the voice has processed the buffer.
    /// A voice that does not sound leaves the buffer and itself as they
    /// are; one that sounds grows one block older and adds itself to every
    /// sample.
    pub open spec fn render(self, buffer: Seq<i64>) -> (VoiceModel, Seq<i64>) {
        if self.sounding() {
            self.aged().run(buffer, buffer.len())
        } else {
            (self, buffer)
        }
    }

    /// One sample keeps a voice well formed. What the voice adds to it
    /// lies inside the signal range, and at a velocity between 0 and 1 it
    /// is the plain product, between -1 and 1.
    pub proof fn lemma_tick_wf(self)
        requires
            self.wf(),
        ensures
            self.tick().wf(),
            self.tick().age == self.age,
            self.tick().velocity == self.velocity,
            -SAMPLE_LIMIT <= self.contribution() <= SAMPLE_LIMIT,
            -UNIT <= scale(self.tick().envelope.level, self.tick().oscillator.output()) <= UNIT,
            0 <= self.velocity <= UNIT ==> -UNIT <= self.contribution() <= UNIT
                && self.contribution() == scale(
                self.velocity,
                scale(self.tick().envelope.level, self.tick().oscillator.output()),
            ),
    {
        self.glide.lemma_step_wf();
        self.envelope.lemma_step_is_continuous();
        self.oscillator.with_frequency(self.glide.step().current).lemma_step_wf();
        let level = self.tick().envelope.level;
        let wave = self.tick().oscillator.output();
        lemma_scale_fraction(level, wave);
        if 0 <= self.velocity <= UNIT {
            lemma_scale_fraction(self.velocity, scale(level, wave));
        }
    }

    /// A voice leaves a buffer whose samples lie inside the signal range
    /// with its samples inside the signal range, and as long as it was.
    pub proof fn lemma_run_in_range(self, buffer: Seq<i64>, n: nat)
        requires
            n <= buffer.len(),
            in_range(buffer),
        ensures
            in_range(self.run(buffer, n).1),
            self.run(buffer, n).1.len() == buffer.len(),
        decreases n,
    {
        if n > 0 {
            self.lemma_run_in_range(buffer, (n - 1) as nat);
        }
    }

    /// A note that is turned on takes over the voice: the glide heads for
    /// the note's frequency, the velocity is the note's, the envelope is in
    /// its attack from the level it had, the voice is on and its age is 0.
    /// The oscillator starts its cycle anew if the voice did not sound, and
    /// is left as it is if it did.
    pub proof fn lemma_note_on_takes_over(self, frequency: int, velocity: int)
        requires
            self.wf(),
            -0x8000_0000_0000_0000 <= frequency <= 0x7fff_ffff_ffff_ffff,
        ensures
            self.note_on(frequency, velocity).wf(),
            self.note_on(frequency, velocity).glide.target == frequency,
            self.note_on(frequency, velocity).velocity == velocity,
            self.note_on(frequency, velocity).envelope.stage is Attack,
            self.note_on(frequency, velocity).envelope.level == self.envelope.level,
            self.note_on(frequency, velocity).active,
            self.note_on(frequency, velocity).sounding(),
            !self.note_on(frequency, velocity).releasing(),
            self.note_on(frequency, velocity).age == 0,
            self.sounding() ==> self.note_on(frequency, velocity).oscillator == self.oscillator,
            !self.sounding() ==> self.note_on(frequency, velocity).oscillator
                == self.oscillator.reset() && self.note_on(frequency, velocity).oscillator.phase
                == 0,
    {
        self.glide.lemma_with_target_wf(frequency);
    }
}

/// A voice.
pub struct Voice {
    oscillator: Oscillator,
    envelope: Envelope,
    glide: Glide,
    active: bool,
    age: u64,
    velocity: i64,
}

impl View for Voice {
    type V = VoiceModel;

    closed spec fn view(&self) -> VoiceModel {
        VoiceModel {
            oscillator: self.oscillator@,
            envelope: self.envelope@,
            glide: self.glide@,
            active: self.active,
            age: self.age as nat,
            velocity: self.velocity as int,
        }
    }
}

impl Voice {
    /// A new voice for `sample_rate` samples per second. A rate outside the
    /// supported range is replaced by the nearest supported one.
    pub fn new(sample_rate: u32) -> (r: Voice)
        ensures
            r@ == VoiceModel::fresh(sample_rate as int),
            r@.wf(),
    {
        Voice {
            oscillator: Oscillator::new(sample_rate),
            envelope: Envelope::new(sample_rate),
            glide: Glide::new(sample_rate),
            active: false,
            age: 0,
            velocity: UNIT,
        }
    }

    /// Turns a note on: `frequency` in microhertz, `velocity` as a factor
    /// on the amplitude, with `UNIT` for 1.
    pub fn note_on(&mut self, frequency: i64, velocity: i64)
        requires
            old(self)@.wf(),
        ensures
            final(self)@ == old(self)@.note_on(frequency as int, velocity as int),
            final(self)@.wf(),
    {
        let sounding: bool = self.is_active();
        self.glide.set_target(frequency);
        if !sounding {
            self.oscillator.reset_phase();
        }
        self.velocity = velocity;
        self.envelope.gate_on();
        self.active = true;
        self.age = 0;
    }

    /// Turns the note off.
    pub fn note_off(&mut self)
        requires
            old(self)@.wf(),
        ensures
            final(self)@ == old(self)@.note_off(),
            final(self)@.wf(),
    {
        self.envelope.gate_off();
    }

    /// Adds the voice to every sample of `output`; a voice that does not
    /// sound does nothing.
    pub fn process(&mut self, output: &mut Vec<i64>)
        requires
            old(self)@.wf(),
        ensures
            final(self)@ == old(self)@.render(old(output)@).0,
            final(output)@ == old(self)@.render(old(output)@).1,
            final(self)@.wf(),
            final(output)@.len() == old(output)@.len(),
    {
        if !self.active && !self.envelope.is_active() {
            return ;
        }
        if self.age < AGE_MAX {
            self.age += 1;
        }
        let ghost start = self@;
        let ghost before = output@;
        let n: usize = output.len();
        let mut i: usize = 0;
        while i < n
            invariant
                i <= n,
                n == before.len(),
                output@.len() == n,
                self@.wf(),
                start.wf(),
                self@ == start.run(before, i as nat).0,
                output@ == start.run(before, i as nat).1,
            decreases n - i,
        {
            proof {
                self@.lemma_tick_wf();
                lemma_scale_fraction(
                    self@.tick().envelope.level,
                    self@.tick().oscillator.output(),
                );
            }
            let frequency: i64 = self.glide.process();
            self.oscillator.set_frequency(frequency);
            let wave: i64 = self.oscillator.process();
            let level: i64 = self.envelope.process();
            let voiced: i64 = mul_sat(self.velocity, mul_sat(level, wave));
            let mixed: i64 = saturate(output[i] as i128 + voiced as i128);
            output[i] = mixed;
            if !self.envelope.is_active() {
                self.active = false;
            }
            i += 1;
        }
    }

    /// Whether the voice sounds: it is turned on, or its envelope has not
    /// yet come to rest.
    pub fn is_active(&self) -> (b: bool)
        ensures
            b == self@.sounding(),
    {
        self.active || self.envelope.is_active()
    }

    /// Selects the waveform by its code.
    pub fn set_waveform(&mut self, waveform: u8)
        requires
            old(self)@.wf(),
        ensures
            final(self)@ == old(self)@.with_waveform(waveform as int),
            final(self)@.wf(),
    {
        self.oscillator.set_waveform(waveform);
    }

    /// Sets the envelope: times in milliseconds, sustain level from 0 to `UNIT`.
    pub fn set_adsr(&mut self, attack: i64, decay: i64, sustain: i64, release: i64)
        requires
            old(self)@.wf(),
        ensures
            final(self)@ == old(self)@.with_adsr(
                attack as int,
                decay as int,
                sustain as int,
                release as int,
            ),
            final(self)@.wf(),
    {
        self.envelope.set_adsr(attack, decay, sustain, release);
    }

    /// The frequency of the voice now, in microhertz, which may still be
    /// gliding.
    pub fn get_frequency(&self) -> (frequency: i64)
        ensures
            frequency == self@.glide.current,
    {
        self.glide.get_frequency()
    }

    /// The number of blocks processed since the voice was last turned on.
    pub fn get_age(&self) -> (age: u64)
        ensures
            age == self@.age,
    {
        self.age
    }

    /// Whether the voice is off but still heard.
    pub fn is_releasing(&self) -> (b: bool)
        ensures
            b == self@.releasing(),
    {
        !self.active && self.envelope.is_active()
    }

    /// Sets the glide time, in milliseconds.
    pub fn set_glide_time(&mut self, time_ms: i64)
        requires
            old(self)@.wf(),
        ensures
            final(self)@ == old(self)@.with_glide_time(time_ms as int),
            final(self)@.wf(),
    {
        self.glide.set_glide_time(time_ms);
    }

    /// Sets the detune, in cents.
    pub fn set_detune(&mut self, cents: i64)
        requires
            old(self)@.wf(),
        ensures
            final(self)@ == old(self)@.with_detune(cents as int),
            final(self)@.wf(),
    {
        self.oscillator.set_detune(cents);
    }
}

} // verus!
