//! One synthesis engine: a voice pool whose mix runs through the
//! modulation, the filter and the four effects.

use vstd::prelude::*;
use crate::effects::delay::{Delay, DelayModel};
use crate::effects::flanger::{Flanger, FlangerModel};
use crate::effects::reverb::{Reverb, ReverbModel};
use crate::effects::tremolo::{Tremolo, TremoloModel};
use crate::filter::{FilterModel, StateVariableFilter, CUTOFF_MAX, CUTOFF_MIN};
use crate::fixed::{clamp_int, clamp_wide, in_range, scale, wide_scale, SAMPLE_LIMIT, UNIT};
use crate::lfo::{Lfo, LfoModel};
use crate::pitch::{midi_freq, midi_to_freq};
use crate::pool::{
    all_wf, lemma_mixed_in_range, lemma_silent_voices_add_nothing, released, rendered, stopped,
    triggered, VoicePool, VOICE_COUNT,
};
use crate::voice::{Voice, VoiceModel};

verus! {

/// The longest line of the delay effect of an engine, in milliseconds.
pub const ENGINE_DELAY_MS: i64 = 2_000;

/// Which output of the filter an engine uses.
#[derive(Clone, Copy, PartialEq, Eq, Structural, Debug)]
pub enum FilterMode {
    Lowpass,
    Highpass,
    Bandpass,
}

impl FilterMode {
    /// The mode that a selector code stands for: 0 is the low-pass, 1 the
    /// high-pass and 2 the band-pass. A code above 2 counts as 2.
    pub open spec fn of_code(code: int) -> FilterMode {
        if code <= 0 {
            FilterMode::Lowpass
        } else if code == 1 {
            FilterMode::Highpass
        } else {
            FilterMode::Bandpass
        }
    }

    /// The mode that a selector code stands for.
    pub fn from_code(code: u8) -> (mode: FilterMode)
        ensures
            mode == FilterMode::of_code(code as int),
    {
        if code == 0 {
            FilterMode::Lowpass
        } else if code == 1 {
            FilterMode::Highpass
        } else {
            FilterMode::Bandpass
        }
    }
}

/// What an engine is, as plain values.
pub struct EngineModel {
    /// The voices of the pool.
    pub voices: Seq<VoiceModel>,
    /// The modulation oscillator.
    pub lfo: LfoModel,
    /// The filter.
    pub filter: FilterModel,
    /// The output of the filter that is used.
    pub filter_mode: FilterMode,
    /// Whether the filter is part of the chain.
    pub filter_enabled: bool,
    /// The delay effect.
    pub delay: DelayModel,
    /// The reverb effect.
    pub reverb: ReverbModel,
    /// The tremolo effect.
    pub tremolo: TremoloModel,
    /// The flanger effect.
    pub flanger: FlangerModel,
    /// Whether the delay is part of the chain.
    pub delay_enabled: bool,
    /// Whether the reverb is part of the chain.
    pub reverb_enabled: bool,
    /// Whether the tremolo is part of the chain.
    pub tremolo_enabled: bool,
    /// Whether the flanger is part of the chain.
    pub flanger_enabled: bool,
    /// Whether the modulation oscillator moves the cutoff of the filter.
    pub lfo_to_filter: bool,
    /// The cutoff as it was set, in microhertz, before any modulation.
    pub base_filter_cutoff: int,
    /// The detune as it was set, in cents.
    pub detune_cents: int,
}

impl EngineModel {
    /// The pool is complete and every part is well formed.
    pub open spec fn wf(self) -> bool {
        &&& self.voices.len() == VOICE_COUNT
        &&& all_wf(self.voices)
        &&& self.lfo.wf()
        &&& self.filter.wf()
        &&& self.delay.wf()
        &&& self.reverb.wf()
        &&& self.tremolo.wf()
        &&& self.flanger.wf()
    }

    /// A new engine: sixteen silent voices, and neither the filter nor any
    /// effect in the chain.
    pub open spec fn fresh(sample_rate: int) -> EngineModel {
        EngineModel {
            voices: Seq::new(VOICE_COUNT as nat, |i: int| VoiceModel::fresh(sample_rate)),
            lfo: LfoModel::fresh(sample_rate),
            filter: FilterModel::fresh(sample_rate),
            filter_mode: FilterMode::Lowpass,
            filter_enabled: false,
            delay: DelayModel::fresh(sample_rate, ENGINE_DELAY_MS as int),
            reverb: ReverbModel::fresh(sample_rate),
            tremolo: TremoloModel::fresh(sample_rate),
            flanger: FlangerModel::fresh(sample_rate),
            delay_enabled: false,
            reverb_enabled: false,
            tremolo_enabled: false,
            flanger_enabled: false,
            lfo_to_filter: false,
            base_filter_cutoff: CUTOFF_MAX as int,
            detune_cents: 0,
        }
    }

    /// The engine after a note has been turned on.
    pub open spec fn note_on(self, note: int, velocity: int) -> EngineModel {
        EngineModel { voices: triggered(self.voices, midi_freq(note), velocity), ..self }
    }

    /// The engine after a note has been turned off.
    pub open spec fn note_off(self, note: int) -> EngineModel {
        EngineModel { voices: released(self.voices, midi_freq(note)), ..self }
    }

    /// The engine after every sounding voice has been turned off.
    pub open spec fn stop_all(self) -> EngineModel {
        EngineModel { voices: stopped(self.voices), ..self }
    }

    /// The engine with the waveform that `code` selects in every voice.
    pub open spec fn with_waveform(self, code: int) -> EngineModel {
        EngineModel { voices: crate::pool::with_waveform(self.voices, code), ..self }
    }

    /// The engine with a new envelope in every voice.
    pub open spec fn with_adsr(self, attack: int, decay: int, sustain: int, release: int)
        -> EngineModel {
        EngineModel {
            voices: crate::pool::with_adsr(self.voices, attack, decay, sustain, release),
            ..self
        }
    }

    /// The engine with a new detune in every voice.
    pub open spec fn with_detune(self, cents: int) -> EngineModel {
        EngineModel {
            voices: crate::pool::with_detune(self.voices, cents),
            detune_cents: cents,
            ..self
        }
    }

    /// The engine with a new glide time in every voice.
    pub open spec fn with_glide_time(self, ms: int) -> EngineModel {
        EngineModel { voices: crate::pool::with_glide_time(self.voices, ms), ..self }
    }

    /// The engine with a new cutoff: the filter takes it, limited to its
    /// range, and the engine keeps it as it was given, as the base of the
    /// modulation.
    pub open spec fn with_filter_cutoff(self, cutoff: int) -> EngineModel {
        EngineModel {
            filter: self.filter.with_cutoff(cutoff),
            base_filter_cutoff: cutoff,
            ..self
        }
    }

    /// The engine with a new resonance of the filter.
    pub open spec fn with_filter_resonance(self, resonance: int) -> EngineModel {
        EngineModel { filter: self.filter.with_resonance(resonance), ..self }
    }

    /// The engine with the filter output that `code` selects.
    pub open spec fn with_filter_mode(self, code: int) -> EngineModel {
        EngineModel { filter_mode: FilterMode::of_code(code), ..self }
    }

    /// The engine with the filter in the chain or out of it.
    pub open spec fn with_filter_enabled(self, enabled: bool) -> EngineModel {
        EngineModel { filter_enabled: enabled, ..self }
    }

    /// The engine with a new rate of the modulation oscillator.
    pub open spec fn with_lfo_rate(self, rate: int) -> EngineModel {
        EngineModel { lfo: self.lfo.with_rate(rate), ..self }
    }

    /// The engine with a new depth of the modulation oscillator.
    pub open spec fn with_lfo_depth(self, depth: int) -> EngineModel {
        EngineModel { lfo: self.lfo.with_depth(depth), ..self }
    }

    /// The engine with a new waveform of the modulation oscillator.
    pub open spec fn with_lfo_waveform(self, code: int) -> EngineModel {
        EngineModel { lfo: self.lfo.with_waveform(code), ..self }
    }

    /// The engine with the modulation of the cutoff on or off.
    pub open spec fn with_lfo_to_filter(self, enabled: bool) -> EngineModel {
        EngineModel { lfo_to_filter: enabled, ..self }
    }

    /// The engine with the delay in the chain or out of it. The parameters
    /// are taken over only when the delay is put in.
    pub open spec fn with_delay(self, enabled: bool, time_ms: int, feedback: int, mix: int)
        -> EngineModel {
        EngineModel {
            delay_enabled: enabled,
            delay: if enabled {
                self.delay.with_time(time_ms).with_feedback(feedback).with_mix(mix)
            } else {
                self.delay
            },
            ..self
        }
    }

    /// The engine with the reverb in the chain or out of it. The parameters
    /// are taken over only when the reverb is put in.
    pub open spec fn with_reverb(self, enabled: bool, room_size: int, damping: int)
        -> EngineModel {
        EngineModel {
            reverb_enabled: enabled,
            reverb: if enabled {
                self.reverb.with_room_size(room_size).with_damping(damping)
            } else {
                self.reverb
            },
            ..self
        }
    }

    /// The engine with the tremolo in the chain or out of it. The
    /// parameters are taken over only when the tremolo is put in.
    pub open spec fn with_tremolo(self, enabled: bool, rate: int, depth: int) -> EngineModel {
        EngineModel {
            tremolo_enabled: enabled,
            tremolo: if enabled {
                self.tremolo.with_rate(rate).with_depth(depth)
            } else {
                self.tremolo
            },
            ..self
        }
    }

    /// The engine with the flanger in the chain or out of it. The
    /// parameters are taken over only when the flanger is put in.
    pub open spec fn with_flanger(
        self,
        enabled: bool,
        rate: int,
        depth: int,
        feedback: int,
        mix: int,
    ) -> EngineModel {
        EngineModel {
            flanger_enabled: enabled,
            flanger: if enabled {
                self.flanger.with_rate(rate).with_depth(depth).with_feedback(feedback).with_mix(
                    mix,
                )
            } else {
                self.flanger
            },
            ..self
        }
    }

    /// The engine and the buffer after every voice has added itself to the
    /// buffer.
    pub open spec fn render_voices(self, buffer: Seq<i64>) -> (EngineModel, Seq<i64>) {
        let (voices, sum) = rendered(self.voices, buffer);
        (EngineModel { voices, ..self }, sum)
    }

    /// The cutoff under modulation: the base cutoff times one plus the
    /// output of the modulation oscillator, limited to the range from
    /// 20 Hz to 20 kHz.
    pub open spec fn modulated_cutoff(self) -> int {
        clamp_int(
            scale(UNIT + self.lfo.step().output(), self.base_filter_cutoff),
            CUTOFF_MIN as int,
            CUTOFF_MAX as int,
        )
    }

    /// The filter as it is tuned for the sample that is processed now.
    pub open spec fn tuned_filter(self) -> FilterModel {
        if self.lfo_to_filter {
            self.filter.with_cutoff(self.modulated_cutoff())
        } else {
            self.filter
        }
    }

    /// The sample `x` after the filter, if the filter is in the chain.
    pub open spec fn filtered(self, x: int) -> int {
        if self.filter_enabled {
            let after = self.tuned_filter().step(x);
            match self.filter_mode {
                FilterMode::Lowpass => after.low,
                FilterMode::Highpass => after.high,
                FilterMode::Bandpass => after.band,
            }
        } else {
            x
        }
    }

    /// The sample `x` after the filter and the flanger.
    pub open spec fn flanged(self, x: int) -> int {
        if self.flanger_enabled {
            self.flanger.output(self.filtered(x))
        } else {
            self.filtered(x)
        }
    }

    /// The sample `x` after the filter, the flanger and the tremolo.
    pub open spec fn trembled(self, x: int) -> int {
        if self.tremolo_enabled {
            self.tremolo.output(self.flanged(x))
        } else {
            self.flanged(x)
        }
    }

    /// The sample `x` after the filter, the flanger, the tremolo and the delay.
    pub open spec fn echoed(self, x: int) -> int {
        if self.delay_enabled {
            self.delay.output(self.trembled(x))
        } else {
            self.trembled(x)
        }
    }

    /// The sample `x` after the whole chain: the filter, the flanger, the
    /// tremolo, the delay and the reverb, in this order, each only if it is
    /// in the chain.
    pub open spec fn effects_output(self, x: int) -> int {
        if self.reverb_enabled {
            self.reverb.output(self.echoed(x))
        } else {
            self.echoed(x)
        }
    }

    /// The engine after the sample `x` has run through the chain.
    pub open spec fn effects_tick(self, x: int) -> EngineModel {
        EngineModel {
            lfo: if self.lfo_to_filter {
                self.lfo.step()
            } else {
                self.lfo
            },
            filter: if self.filter_enabled {
                self.tuned_filter().step(x)
            } else {
                self.tuned_filter()
            },
            flanger: if self.flanger_enabled {
                self.flanger.step(self.filtered(x))
            } else {
                self.flanger
            },
            tremolo: if self.tremolo_enabled {
                self.tremolo.step()
            } else {
                self.tremolo
            },
            delay: if self.delay_enabled {
                self.delay.step(self.trembled(x))
            } else {
                self.delay
            },
            reverb: if self.reverb_enabled {
                self.reverb.step(self.echoed(x))
            } else {
                self.reverb
            },
            ..self
        }
    }

    /// The engine and the buffer after the first `n` samples of the buffer
    /// have run through the chain.
    pub open spec fn effects_run(self, buffer: Seq<i64>, n: nat) -> (EngineModel, Seq<i64>)
        decreases n,
    {
        if n == 0 {
            (self, buffer)
        } else {
            let (engine, done) = self.effects_run(buffer, (n - 1) as nat);
            (
                engine.effects_tick(done[n - 1] as int),
                done.update(n - 1, engine.effects_output(done[n - 1] as int) as i64),
            )
        }
    }

    /// The engine and the buffer after the whole buffer has run through
    /// the chain.
    pub open spec fn apply_effects(self, buffer: Seq<i64>) -> (EngineModel, Seq<i64>) {
        self.effects_run(buffer, buffer.len())
    }

    /// The engine and the buffer after one block: the voices have added
    /// themselves to the buffer, and the sum has run through the chain.
    pub open spec fn process(self, buffer: Seq<i64>) -> (EngineModel, Seq<i64>) {
        let (engine, sum) = self.render_voices(buffer);
        engine.apply_effects(sum)
    }

    /// The chain leaves a sample inside the signal range inside it.
    pub proof fn lemma_effects_output_in_range(self, x: int)
        requires
            -SAMPLE_LIMIT <= x <= SAMPLE_LIMIT,
        ensures
            -SAMPLE_LIMIT <= self.effects_output(x) <= SAMPLE_LIMIT,
    {
    }

    /// The chain leaves a buffer whose samples lie inside the signal range
    /// with its samples inside the signal range, and as long as it was.
    pub proof fn lemma_effects_run_in_range(self, buffer: Seq<i64>, n: nat)
        requires
            n <= buffer.len(),
            in_range(buffer),
        ensures
            in_range(self.effects_run(buffer, n).1),
            self.effects_run(buffer, n).1.len() == buffer.len(),
        decreases n,
    {
        if n > 0 {
            self.lemma_effects_run_in_range(buffer, (n - 1) as nat);
            let (engine, done) = self.effects_run(buffer, (n - 1) as nat);
            engine.lemma_effects_output_in_range(done[n - 1] as int);
        }
    }

    /// Every sample that an engine renders into a buffer whose samples lie
    /// inside the signal range lies inside the signal range; so does every
    /// sample rendered into a buffer of zeros.
    pub proof fn lemma_rendered_samples_are_in_range(self, buffer: Seq<i64>)
        requires
            in_range(buffer),
        ensures
            in_range(self.process(buffer).1),
            self.process(buffer).1.len() == buffer.len(),
    {
        lemma_mixed_in_range(self.voices, buffer, self.voices.len());
        let (engine, sum) = self.render_voices(buffer);
        engine.lemma_effects_run_in_range(sum, sum.len());
    }

    /// Whether no voice sounds.
    pub open spec fn silent(self) -> bool {
        forall|j: int| 0 <= j < self.voices.len() ==> !(#[trigger] self.voices[j]).sounding()
    }

    /// Whether neither the filter nor any effect is in the chain.
    pub open spec fn bypassed(self) -> bool {
        &&& !self.filter_enabled
        &&& !self.flanger_enabled
        &&& !self.tremolo_enabled
        &&& !self.delay_enabled
        &&& !self.reverb_enabled
    }

    /// A chain with nothing in it leaves every sample as it is.
    pub proof fn lemma_bypassed_chain_is_transparent(self, buffer: Seq<i64>, n: nat)
        requires
            self.bypassed(),
            n <= buffer.len(),
        ensures
            self.effects_run(buffer, n).1 == buffer,
            self.effects_run(buffer, n).0.bypassed(),
            self.effects_run(buffer, n).0.voices == self.voices,
        decreases n,
    {
        if n > 0 {
            self.lemma_bypassed_chain_is_transparent(buffer, (n - 1) as nat);
            let (engine, done) = self.effects_run(buffer, (n - 1) as nat);
            assert(engine.effects_output(done[n - 1] as int) == done[n - 1]);
            assert(done.update(n - 1, done[n - 1]) =~= done);
        }
    }

    /// An engine of which no voice sounds, and with nothing in its chain,
    /// leaves every buffer as it is through a block, and is silent and
    /// without a chain after it: a buffer of zeros stays a buffer of zeros,
    /// block after block.
    pub proof fn lemma_idle_engine_leaves_buffer(self, buffer: Seq<i64>)
        requires
            self.silent(),
            self.bypassed(),
        ensures
            self.process(buffer).1 == buffer,
            self.process(buffer).0.silent(),
            self.process(buffer).0.bypassed(),
    {
        lemma_silent_voices_add_nothing(self.voices, buffer, self.voices.len());
        let (engine, sum) = self.render_voices(buffer);
        assert(engine.voices == self.voices);
        engine.lemma_bypassed_chain_is_transparent(sum, sum.len());
    }
}

/// A synthesis engine.
pub struct Engine {
    pool: VoicePool,
    lfo: Lfo,
    filter: StateVariableFilter,
    filter_mode: FilterMode,
    filter_enabled: bool,
    delay: Delay,
    reverb: Reverb,
    tremolo: Tremolo,
    flanger: Flanger,
    delay_enabled: bool,
    reverb_enabled: bool,
    tremolo_enabled: bool,
    flanger_enabled: bool,
    lfo_to_filter: bool,
    base_filter_cutoff: i64,
    detune_cents: i64,
}

impl View for Engine {
    type V = EngineModel;

    closed spec fn view(&self) -> EngineModel {
        EngineModel {
            voices: self.pool@,
            lfo: self.lfo@,
            filter: self.filter@,
            filter_mode: self.filter_mode,
            filter_enabled: self.filter_enabled,
            delay: self.delay@,
            reverb: self.reverb@,
            tremolo: self.tremolo@,
            flanger: self.flanger@,
            delay_enabled: self.delay_enabled,
            reverb_enabled: self.reverb_enabled,
            tremolo_enabled: self.tremolo_enabled,
            flanger_enabled: self.flanger_enabled,
            lfo_to_filter: self.lfo_to_filter,
            base_filter_cutoff: self.base_filter_cutoff as int,
            detune_cents: self.detune_cents as int,
        }
    }
}

impl Engine {
    /// A new engine for `sample_rate` samples per second. A rate outside
    /// the supported range is replaced by the nearest supported one.
    pub fn new(sample_rate: u32) -> (r: Engine)
        ensures
            r@ == EngineModel::fresh(sample_rate as int),
            r@.wf(),
    {
        let r = Engine {
            pool: VoicePool::new(sample_rate),
            lfo: Lfo::new(sample_rate),
            filter: StateVariableFilter::new(sample_rate),
            filter_mode: FilterMode::Lowpass,
            filter_enabled: false,
            delay: Delay::new(sample_rate, ENGINE_DELAY_MS),
            reverb: Reverb::new(sample_rate),
            tremolo: Tremolo::new(sample_rate),
            flanger: Flanger::new(sample_rate),
            delay_enabled: false,
            reverb_enabled: false,
            tremolo_enabled: false,
            flanger_enabled: false,
            lfo_to_filter: false,
            base_filter_cutoff: CUTOFF_MAX,
            detune_cents: 0,
        };
        assert(r@.voices =~= EngineModel::fresh(sample_rate as int).voices);
        r
    }

    /// The voice at place `i` of the pool, if the pool has one there.
    pub fn voice(&self, i: usize) -> (r: Option<&Voice>)
        ensures
            match r {
                Some(voice) => i < self@.voices.len() && voice@ == self@.voices[i as int],
                None => i >= self@.voices.len(),
            },
    {
        self.pool.voice(i)
    }

    /// The filter.
    pub fn filter(&self) -> (r: &StateVariableFilter)
        ensures
            r@ == self@.filter,
    {
        &self.filter
    }

    /// Turns a note on, with `velocity` as a factor on the amplitude, in the voice that
    /// the rule of the pool picks.
    pub fn note_on(&mut self, midi_note: u8, velocity: i64)
        requires
            old(self)@.wf(),
        ensures
            final(self)@ == old(self)@.note_on(midi_note as int, velocity as int),
            final(self)@.wf(),
    {
        let frequency: i64 = midi_to_freq(midi_note);
        self.pool.note_on(frequency, velocity);
    }

    /// Turns a note off in every voice whose frequency now lies within a
    /// tenth of a hertz of the note.
    pub fn note_off(&mut self, midi_note: u8)
        requires
            old(self)@.wf(),
        ensures
            final(self)@ == old(self)@.note_off(midi_note as int),
            final(self)@.wf(),
    {
        let frequency: i64 = midi_to_freq(midi_note);
        self.pool.note_off(frequency);
    }

    /// Turns off every voice that sounds.
    pub fn stop_all_notes(&mut self)
        requires
            old(self)@.wf(),
        ensures
            final(self)@ == old(self)@.stop_all(),
            final(self)@.wf(),
    {
        self.pool.stop_all();
    }

    /// Selects the waveform of every voice by its code.
    pub fn set_waveform(&mut self, waveform: u8)
        requires
            old(self)@.wf(),
        ensures
            final(self)@ == old(self)@.with_waveform(waveform as int),
            final(self)@.wf(),
    {
        self.pool.set_waveform(waveform);
    }

    /// Sets the envelope of every voice: times in milliseconds, sustain
    /// level from 0 to `UNIT`.
    pub fn set_adsr(&mut self, attack: i64, decay: i64, sustain: i64, release: i64)
        requires
            old(self)@.wf(),
        ensures
            final(self)@ == old(self)@.with_adsr(
                attack as int,
                decay as int,
                sustain as int,
                release as int,
            ),
            final(self)@.wf(),
    {
        self.pool.set_adsr(attack, decay, sustain, release);
    }

    /// Sets the detune of every voice, in cents.
    pub fn set_detune(&mut self, cents: i64)
        requires
            old(self)@.wf(),
        ensures
            final(self)@ == old(self)@.with_detune(cents as int),
            final(self)@.wf(),
    {
        self.detune_cents = cents;
        self.pool.set_detune(cents);
    }

    /// Sets the glide time of every voice, in milliseconds.
    pub fn set_glide_time(&mut self, time_ms: i64)
        requires
            old(self)@.wf(),
        ensures
            final(self)@ == old(self)@.with_glide_time(time_ms as int),
            final(self)@.wf(),
    {
        self.pool.set_glide_time(time_ms);
    }

    /// Sets the cutoff of the filter, in microhertz.
    pub fn set_filter_cutoff(&mut self, cutoff: i64)
        requires
            old(self)@.wf(),
        ensures
            final(self)@ == old(self)@.with_filter_cutoff(cutoff as int),
            final(self)@.wf(),
    {
        self.base_filter_cutoff = cutoff;
        self.filter.set_cutoff(cutoff);
    }

    /// Sets the resonance of the filter, from 0 to `UNIT`.
    pub fn set_filter_resonance(&mut self, resonance: i64)
        requires
            old(self)@.wf(),
        ensures
            final(self)@ == old(self)@.with_filter_resonance(resonance as int),
            final(self)@.wf(),
    {
        self.filter.set_resonance(resonance);
    }

    /// Selects the output of the filter by its code.
    pub fn set_filter_mode(&mut self, mode: u8)
        requires
            old(self)@.wf(),
        ensures
            final(self)@ == old(self)@.with_filter_mode(mode as int),
            final(self)@.wf(),
    {
        self.filter_mode = FilterMode::from_code(mode);
    }

    /// Puts the filter in the chain or takes it out.
    pub fn set_filter_enabled(&mut self, enabled: bool)
        requires
            old(self)@.wf(),
        ensures
            final(self)@ == old(self)@.with_filter_enabled(enabled),
            final(self)@.wf(),
    {
        self.filter_enabled = enabled;
    }

    /// Sets the rate of the modulation oscillator, in microhertz.
    pub fn set_lfo_rate(&mut self, rate: i64)
        requires
            old(self)@.wf(),
        ensures
            final(self)@ == old(self)@.with_lfo_rate(rate as int),
            final(self)@.wf(),
    {
        self.lfo.set_rate(rate);
    }

    /// Sets the depth of the modulation oscillator, from 0 to `UNIT`.
    pub fn set_lfo_depth(&mut self, depth: i64)
        requires
            old(self)@.wf(),
        ensures
            final(self)@ == old(self)@.with_lfo_depth(depth as int),
            final(self)@.wf(),
    {
        self.lfo.set_depth(depth);
    }

    /// Selects the waveform of the modulation oscillator by its code.
    pub fn set_lfo_waveform(&mut self, waveform: u8)
        requires
            old(self)@.wf(),
        ensures
            final(self)@ == old(self)@.with_lfo_waveform(waveform as int),
            final(self)@.wf(),
    {
        self.lfo.set_waveform(waveform);
    }

    /// Turns the modulation of the cutoff on or off.
    pub fn set_lfo_to_filter(&mut self, enabled: bool)
        requires
            old(self)@.wf(),
        ensures
            final(self)@ == old(self)@.with_lfo_to_filter(enabled),
            final(self)@.wf(),
    {
        self.lfo_to_filter = enabled;
    }

    /// Puts the delay in the chain, with new parameters, or takes it out.
    pub fn set_delay(&mut self, enabled: bool, time_ms: i64, feedback: i64, mix: i64)
        requires
            old(self)@.wf(),
        ensures
            final(self)@ == old(self)@.with_delay(
                enabled,
                time_ms as int,
                feedback as int,
                mix as int,
            ),
            final(self)@.wf(),
    {
        self.delay_enabled = enabled;
        if enabled {
            self.delay.set_delay_time(time_ms);
            self.delay.set_feedback(feedback);
            self.delay.set_mix(mix);
        }
    }

    /// Puts the reverb in the chain, with new parameters, or takes it out.
    pub fn set_reverb(&mut self, enabled: bool, room_size: i64, damping: i64)
        requires
            old(self)@.wf(),
        ensures
            final(self)@ == old(self)@.with_reverb(enabled, room_size as int, damping as int),
            final(self)@.wf(),
    {
        self.reverb_enabled = enabled;
        if enabled {
            self.reverb.set_room_size(room_size);
            self.reverb.set_damping(damping);
        }
    }

    /// Puts the tremolo in the chain, with new parameters, or takes it out.
    pub fn set_tremolo(&mut self, enabled: bool, rate: i64, depth: i64)
        requires
            old(self)@.wf(),
        ensures
            final(self)@ == old(self)@.with_tremolo(enabled, rate as int, depth as int),
            final(self)@.wf(),
    {
        self.tremolo_enabled = enabled;
        if enabled {
            self.tremolo.set_rate(rate);
            self.tremolo.set_depth(depth);
        }
    }

    /// Puts the flanger in the chain, with new parameters, or takes it out.
    pub fn set_flanger(&mut self, enabled: bool, rate: i64, depth: i64, feedback: i64, mix: i64)
        requires
            old(self)@.wf(),
        ensures
            final(self)@ == old(self)@.with_flanger(
                enabled,
                rate as int,
                depth as int,
                feedback as int,
                mix as int,
            ),
            final(self)@.wf(),
    {
        self.flanger_enabled = enabled;
        if enabled {
            self.flanger.set_lfo_rate(rate);
            self.flanger.set_delay_range(depth);
            self.flanger.set_feedback(feedback);
            self.flanger.set_mix(mix);
        }
    }

    /// Lets every voice add itself to `output`.
    pub fn process_voices(&mut self, output: &mut Vec<i64>)
        requires
            old(self)@.wf(),
        ensures
            final(self)@ == old(self)@.render_voices(old(output)@).0,
            final(output)@ == old(self)@.render_voices(old(output)@).1,
            final(self)@.wf(),
            final(output)@.len() == old(output)@.len(),
    {
        self.pool.process(output);
    }

    /// Runs one sample through the chain.
    fn process_sample(&mut self, input: i64) -> (output: i64)
        requires
            old(self)@.wf(),
        ensures
            final(self)@ == old(self)@.effects_tick(input as int),
            final(self)@.wf(),
            output == old(self)@.effects_output(input as int),
    {
        let mut sample: i64 = input;
        if self.lfo_to_filter {
            let lfo_value: i64 = self.lfo.process();
            let modulated: i64 = clamp_wide(
                wide_scale(UNIT + lfo_value, self.base_filter_cutoff),
                CUTOFF_MIN,
                CUTOFF_MAX,
            );
            self.filter.set_cutoff(modulated);
        }
        if self.filter_enabled {
            sample = match self.filter_mode {
                FilterMode::Highpass => self.filter.process_highpass(sample),
                FilterMode::Bandpass => self.filter.process_bandpass(sample),
                FilterMode::Lowpass => self.filter.process(sample),
            };
        }
        if self.flanger_enabled {
            sample = self.flanger.process(sample);
        }
        if self.tremolo_enabled {
            sample = self.tremolo.process(sample);
        }
        if self.delay_enabled {
            sample = self.delay.process(sample);
        }
        if self.reverb_enabled {
            sample = self.reverb.process(sample);
        }
        sample
    }

    /// Runs every sample of `buffer` through the chain.
    pub fn process_effects(&mut self, buffer: &mut Vec<i64>)
        requires
            old(self)@.wf(),
        ensures
            final(self)@ == old(self)@.apply_effects(old(buffer)@).0,
            final(buffer)@ == old(self)@.apply_effects(old(buffer)@).1,
            final(self)@.wf(),
            final(buffer)@.len() == old(buffer)@.len(),
    {
        let n: usize = buffer.len();
        let mut i: usize = 0;
        while i < n
            invariant
                i <= n,
                n == old(buffer)@.len(),
                buffer@.len() == n,
                self@.wf(),
                self@ == old(self)@.effects_run(old(buffer)@, i as nat).0,
                buffer@ == old(self)@.effects_run(old(buffer)@, i as nat).1,
            decreases n - i,
        {
            let sample: i64 = self.process_sample(buffer[i]);
            buffer[i] = sample;
            i += 1;
        }
    }

    /// Renders one block into `buffer`: the voices add themselves to it,
    /// and the sum runs through the chain.
    pub fn process(&mut self, buffer: &mut Vec<i64>)
        requires
            old(self)@.wf(),
        ensures
            final(self)@ == old(self)@.process(old(buffer)@).0,
            final(buffer)@ == old(self)@.process(old(buffer)@).1,
            final(self)@.wf(),
            final(buffer)@.len() == old(buffer)@.len(),
    {
        self.process_voices(buffer);
        self.process_effects(buffer);
    }
}

} // verus!
