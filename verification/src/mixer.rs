//! The audio engine: two synthesis engines, one for the timeline and one
//! for live playing, mixed into one output.

use vstd::prelude::*;
use crate::engine::{Engine, EngineModel};
use crate::fixed::{
    clamp, clamp_int, clamp_wide, in_range, lemma_scale_fraction, lemma_scale_identities, scale,
    wide_scale, SAMPLE_LIMIT, UNIT,
};

verus! {

/// The sample rate of the audio engine, in hertz.
pub const SAMPLE_RATE: u32 = 48_000;

/// The highest volume of one engine (it stands for 0.3): with both engines
/// at full scale the mix stays below clipping.
pub const ENGINE_VOLUME_MAX: i64 = 300_000_000;

/// The volume of an engine in a new audio engine (it stands for 0.21).
pub const ENGINE_VOLUME_DEFAULT: i64 = 210_000_000;

/// The volume of an engine that belongs to the setting `volume`: the
/// setting times 0.3, limited to the range from 0 to 0.3.
pub open spec fn engine_volume(volume: int) -> int {
    clamp_int(scale(ENGINE_VOLUME_MAX as int, volume), 0, ENGINE_VOLUME_MAX as int)
}

/// A buffer of `len` zeros.
pub open spec fn zeros(len: nat) -> Seq<i64> {
    Seq::new(len, |i: int| 0i64)
}

/// The volume of an engine never exceeds 0.3, and a setting of 1 or more
/// gives exactly 0.3.
pub proof fn lemma_engine_volume_is_capped(volume: int)
    ensures
        0 <= engine_volume(volume) <= ENGINE_VOLUME_MAX,
        volume >= UNIT ==> engine_volume(volume) == ENGINE_VOLUME_MAX,
        volume <= 0 ==> engine_volume(volume) == 0,
{
    lemma_scale_identities(ENGINE_VOLUME_MAX as int);
    if volume >= UNIT {
        crate::fixed::lemma_scale_monotonic(ENGINE_VOLUME_MAX as int, UNIT as int, volume);
    }
    if volume <= 0 {
        crate::fixed::lemma_scale_monotonic(ENGINE_VOLUME_MAX as int, volume, 0);
    }
}

/// What an audio engine is, as plain values.
pub struct AudioEngineModel {
    /// The engine that plays the timeline.
    pub timeline: EngineModel,
    /// The engine that is played live.
    pub live: EngineModel,
    /// The volume of the timeline engine, from 0 to 0.3.
    pub timeline_volume: int,
    /// The volume of the live engine, from 0 to 0.3.
    pub live_volume: int,
    /// The master volume, from 0 to 1.
    pub master_volume: int,
}

impl AudioEngineModel {
    /// Both engines are well formed and every volume is inside its range.
    pub open spec fn wf(self) -> bool {
        &&& self.timeline.wf()
        &&& self.live.wf()
        &&& 0 <= self.timeline_volume <= ENGINE_VOLUME_MAX
        &&& 0 <= self.live_volume <= ENGINE_VOLUME_MAX
        &&& 0 <= self.master_volume <= UNIT
    }

    /// A new audio engine: two new engines at 48 kHz, each at volume 0.21,
    /// and a master volume of 1.
    pub open spec fn fresh() -> AudioEngineModel {
        AudioEngineModel {
            timeline: EngineModel::fresh(SAMPLE_RATE as int),
            live: EngineModel::fresh(SAMPLE_RATE as int),
            timeline_volume: ENGINE_VOLUME_DEFAULT as int,
            live_volume: ENGINE_VOLUME_DEFAULT as int,
            master_volume: UNIT as int,
        }
    }

    /// The output sample for the samples `timeline` and `live` of the two
    /// engines: each times the volume of its engine times the master
    /// volume, and the two added.
    pub open spec fn mix(self, timeline: int, live: int) -> int {
        scale(self.master_volume, scale(self.timeline_volume, timeline)) + scale(
            self.master_volume,
            scale(self.live_volume, live),
        )
    }

    /// The audio engine after a block of `len` samples.
    pub open spec fn advance(self, len: nat) -> AudioEngineModel {
        AudioEngineModel {
            timeline: self.timeline.process(zeros(len)).0,
            live: self.live.process(zeros(len)).0,
            ..self
        }
    }

    /// The output of a block of `len` samples: each engine renders its
    /// block into a buffer of zeros, and the two buffers are mixed sample
    /// by sample.
    pub open spec fn output(self, len: nat) -> Seq<i64> {
        Seq::new(
            len,
            |i: int|
                self.mix(
                    self.timeline.process(zeros(len)).1[i] as int,
                    self.live.process(zeros(len)).1[i] as int,
                ) as i64,
        )
    }

    /// The mix of two samples inside the signal range lies inside the
    /// signal range: with no volume above 0.3 the sum of the two stays
    /// below 0.6 times the limit.
    pub proof fn lemma_mix_bounds(self, timeline: int, live: int)
        requires
            self.wf(),
            -SAMPLE_LIMIT <= timeline <= SAMPLE_LIMIT,
            -SAMPLE_LIMIT <= live <= SAMPLE_LIMIT,
        ensures
            -600_000_000_000 <= self.mix(timeline, live) <= 600_000_000_000,
            -300_000_000_000 <= scale(self.master_volume, scale(self.timeline_volume, timeline))
                <= 300_000_000_000,
            -300_000_000_000 <= scale(self.master_volume, scale(self.live_volume, live))
                <= 300_000_000_000,
    {
        let t = scale(self.timeline_volume, timeline);
        let l = scale(self.live_volume, live);
        crate::fixed::lemma_scale_bound(
            self.timeline_volume,
            timeline,
            ENGINE_VOLUME_MAX as int,
            SAMPLE_LIMIT as int,
        );
        crate::fixed::lemma_scale_bound(
            self.live_volume,
            live,
            ENGINE_VOLUME_MAX as int,
            SAMPLE_LIMIT as int,
        );
        assert(ENGINE_VOLUME_MAX * SAMPLE_LIMIT / (UNIT as int) == 300_000_000_000) by {
            assert(ENGINE_VOLUME_MAX * SAMPLE_LIMIT == 300_000_000_000_000_000_000);
            assert(300_000_000_000_000_000_000int / 1_000_000_000 == 300_000_000_000);
        }
        lemma_scale_fraction(self.master_volume, t);
        lemma_scale_fraction(self.master_volume, l);
    }

    /// Every sample that the two engines render in a block lies inside the
    /// signal range, and so does every output sample: the mix is the plain
    /// sum, and nothing is cut off.
    pub proof fn lemma_output_is_in_range(self, len: nat)
        requires
            self.wf(),
        ensures
            in_range(self.timeline.process(zeros(len)).1),
            in_range(self.live.process(zeros(len)).1),
            self.timeline.process(zeros(len)).1.len() == len,
            self.live.process(zeros(len)).1.len() == len,
            in_range(self.output(len)),
    {
        self.timeline.lemma_rendered_samples_are_in_range(zeros(len));
        self.live.lemma_rendered_samples_are_in_range(zeros(len));
        assert forall|i: int| 0 <= i < len implies -SAMPLE_LIMIT <= #[trigger] self.output(len)[i]
            <= SAMPLE_LIMIT by {
            self.lemma_mix_bounds(
                self.timeline.process(zeros(len)).1[i] as int,
                self.live.process(zeros(len)).1[i] as int,
            );
        }
    }

    /// An audio engine of which no voice sounds, and with nothing in the
    /// chain of either engine, puts out zeros, and is in the same condition
    /// after the block.
    pub proof fn lemma_idle_output_is_silent(self, len: nat)
        requires
            self.timeline.silent(),
            self.timeline.bypassed(),
            self.live.silent(),
            self.live.bypassed(),
        ensures
            self.output(len) == zeros(len),
            self.advance(len).timeline.silent(),
            self.advance(len).timeline.bypassed(),
            self.advance(len).live.silent(),
            self.advance(len).live.bypassed(),
    {
        self.timeline.lemma_idle_engine_leaves_buffer(zeros(len));
        self.live.lemma_idle_engine_leaves_buffer(zeros(len));
        lemma_scale_identities(self.timeline_volume);
        lemma_scale_identities(self.live_volume);
        lemma_scale_identities(self.master_volume);
        assert(self.mix(0, 0) == 0);
        assert(self.output(len) =~= zeros(len));
    }
}

/// The audio engine.
pub struct AudioEngine {
    timeline_engine: Engine,
    live_engine: Engine,
    timeline_volume: i64,
    live_volume: i64,
    master_volume: i64,
}

impl View for AudioEngine {
    type V = AudioEngineModel;

    closed spec fn view(&self) -> AudioEngineModel {
        AudioEngineModel {
            timeline: self.timeline_engine@,
            live: self.live_engine@,
            timeline_volume: self.timeline_volume as int,
            live_volume: self.live_volume as int,
            master_volume: self.master_volume as int,
        }
    }
}

/// The volume of an engine that belongs to a setting.
fn volume_for(volume: i64) -> (r: i64)
    ensures
        r == engine_volume(volume as int),
        0 <= r <= ENGINE_VOLUME_MAX,
{
    clamp_wide(wide_scale(ENGINE_VOLUME_MAX, volume), 0, ENGINE_VOLUME_MAX)
}

/// The share `volume * master` of the sample `x`.
fn scaled(master: i64, volume: i64, x: i64) -> (r: i128)
    requires
        0 <= volume <= UNIT,
        0 <= master <= UNIT,
    ensures
        r == scale(master as int, scale(volume as int, x as int)),
        -0x8000_0000_0000_0000 <= r <= 0x8000_0000_0000_0000,
{
    proof {
        lemma_scale_fraction(volume as int, x as int);
        lemma_scale_fraction(master as int, scale(volume as int, x as int));
    }
    let inner: i64 = wide_scale(volume, x) as i64;
    wide_scale(master, inner)
}

impl AudioEngine {
    /// A new audio engine.
    pub fn new() -> (r: AudioEngine)
        ensures
            r@ == AudioEngineModel::fresh(),
            r@.wf(),
    {
        AudioEngine {
            timeline_engine: Engine::new(SAMPLE_RATE),
            live_engine: Engine::new(SAMPLE_RATE),
            timeline_volume: ENGINE_VOLUME_DEFAULT,
            live_volume: ENGINE_VOLUME_DEFAULT,
            master_volume: UNIT,
        }
    }

    /// Renders one block: every sample of `output` is overwritten with the
    /// mix of the two engines.
    pub fn process(&mut self, output: &mut Vec<i64>)
        requires
            old(self)@.wf(),
        ensures
            final(self)@ == old(self)@.advance(old(output)@.len()),
            final(output)@ == old(self)@.output(old(output)@.len()),
            final(self)@.wf(),
            final(output)@.len() == old(output)@.len(),
    {
        let len: usize = output.len();
        let mut timeline_buffer: Vec<i64> = vec![0i64; len];
        assert(timeline_buffer@ =~= zeros(len as nat));
        self.timeline_engine.process(&mut timeline_buffer);
        let mut live_buffer: Vec<i64> = vec![0i64; len];
        assert(live_buffer@ =~= zeros(len as nat));
        self.live_engine.process(&mut live_buffer);
        proof {
            old(self)@.lemma_output_is_in_range(len as nat);
        }
        let mut i: usize = 0;
        while i < len
            invariant
                i <= len,
                output@.len() == len,
                timeline_buffer@.len() == len,
                live_buffer@.len() == len,
                old(output)@.len() == len,
                self@.wf(),
                self@ == old(self)@.advance(len as nat),
                timeline_buffer@ == old(self)@.timeline.process(zeros(len as nat)).1,
                live_buffer@ == old(self)@.live.process(zeros(len as nat)).1,
                in_range(timeline_buffer@),
                in_range(live_buffer@),
                forall|j: int| 0 <= j < i ==> #[trigger] output@[j] == old(self)@.output(len as nat)[j],
            decreases len - i,
        {
            proof {
                self@.lemma_mix_bounds(timeline_buffer@[i as int] as int, live_buffer@[i as int] as int);
            }
            let timeline: i128 = scaled(self.master_volume, self.timeline_volume, timeline_buffer[i]);
            let live: i128 = scaled(self.master_volume, self.live_volume, live_buffer[i]);
            output[i] = (timeline + live) as i64;
            i += 1;
        }
        assert(output@ =~= old(self)@.output(len as nat));
    }

    /// Turns a note on in the live engine, with `velocity` as a factor on
    /// the amplitude (`UNIT` for 1).
    pub fn note_on(&mut self, midi_note: u8, velocity: i64)
        requires
            old(self)@.wf(),
        ensures
            final(self)@ == (AudioEngineModel {
                live: old(self)@.live.note_on(
                    midi_note as int,
                    velocity as int,
                ),
                ..old(self)@
            }),
            final(self)@.wf(),
    {
        self.live_engine.note_on(midi_note, velocity);
    }

    /// Turns a note off in the live engine.
    pub fn note_off(&mut self, midi_note: u8)
        requires
            old(self)@.wf(),
        ensures
            final(self)@ == (AudioEngineModel {
                live: old(self)@.live.note_off(
                    midi_note as int,
                ),
                ..old(self)@
            }),
            final(self)@.wf(),
    {
        self.live_engine.note_off(midi_note);
    }

    /// Turns a note on in the timeline engine, with `velocity` as a factor
    /// on the amplitude (`UNIT` for 1).
    pub fn timeline_note_on(&mut self, midi_note: u8, velocity: i64)
        requires
            old(self)@.wf(),
        ensures
            final(self)@ == (AudioEngineModel {
                timeline: old(self)@.timeline.note_on(
                    midi_note as int,
                    velocity as int,
                ),
                ..old(self)@
            }),
            final(self)@.wf(),
    {
        self.timeline_engine.note_on(midi_note, velocity);
    }

    /// Turns a note off in the timeline engine.
    pub fn timeline_note_off(&mut self, midi_note: u8)
        requires
            old(self)@.wf(),
        ensures
            final(self)@ == (AudioEngineModel {
                timeline: old(self)@.timeline.note_off(
                    midi_note as int,
                ),
                ..old(self)@
            }),
            final(self)@.wf(),
    {
        self.timeline_engine.note_off(midi_note);
    }

    /// Turns off every sounding voice of the timeline engine.
    pub fn stop_all_timeline_notes(&mut self)
        requires
            old(self)@.wf(),
        ensures
            final(self)@ == (AudioEngineModel {
                timeline: old(self)@.timeline.stop_all(
                ),
                ..old(self)@
            }),
            final(self)@.wf(),
    {
        self.timeline_engine.stop_all_notes();
    }

    /// Sets the master volume, limited to the range from 0 to `UNIT`.
    pub fn set_master_volume(&mut self, volume: i64)
        requires
            old(self)@.wf(),
        ensures
            final(self)@ == (AudioEngineModel {
                master_volume: clamp_int(volume as int, 0, UNIT as int),
                ..old(self)@
            }),
            final(self)@.wf(),
    {
        self.master_volume = clamp(volume, 0, UNIT);
    }

    /// Sets the volume of the timeline engine: the setting times 0.3,
    /// limited to the range from 0 to 0.3.
    pub fn set_timeline_volume(&mut self, volume: i64)
        requires
            old(self)@.wf(),
        ensures
            final(self)@ == (AudioEngineModel {
                timeline_volume: engine_volume(volume as int),
                ..old(self)@
            }),
            final(self)@.wf(),
            0 <= final(self)@.timeline_volume <= ENGINE_VOLUME_MAX,
    {
        self.timeline_volume = volume_for(volume);
    }

    /// Sets the volume of the live engine: the setting times 0.3, limited
    /// to the range from 0 to 0.3.
    pub fn set_live_volume(&mut self, volume: i64)
        requires
            old(self)@.wf(),
        ensures
            final(self)@ == (AudioEngineModel {
                live_volume: engine_volume(volume as int),
                ..old(self)@
            }),
            final(self)@.wf(),
            0 <= final(self)@.live_volume <= ENGINE_VOLUME_MAX,
    {
        self.live_volume = volume_for(volume);
    }

    /// Selects the waveform of the live engine by its code.
    pub fn set_waveform(&mut self, waveform: u8)
        requires
            old(self)@.wf(),
        ensures
            final(self)@ == (AudioEngineModel {
                live: old(self)@.live.with_waveform(
                    waveform as int,
                ),
                ..old(self)@
            }),
            final(self)@.wf(),
    {
        self.live_engine.set_waveform(waveform);
    }

    /// Sets the envelope of the live engine: times in milliseconds, sustain
    /// level from 0 to `UNIT`.
    pub fn set_adsr(&mut self, attack: i64, decay: i64, sustain: i64, release: i64)
        requires
            old(self)@.wf(),
        ensures
            final(self)@ == (AudioEngineModel {
                live: old(self)@.live.with_adsr(
                    attack as int,
                    decay as int,
                    sustain as int,
                    release as int,
                ),
                ..old(self)@
            }),
            final(self)@.wf(),
    {
        self.live_engine.set_adsr(attack, decay, sustain, release);
    }

    /// Selects the waveform of the timeline engine by its code.
    pub fn set_timeline_waveform(&mut self, waveform: u8)
        requires
            old(self)@.wf(),
        ensures
            final(self)@ == (AudioEngineModel {
                timeline: old(self)@.timeline.with_waveform(
                    waveform as int,
                ),
                ..old(self)@
            }),
            final(self)@.wf(),
    {
        self.timeline_engine.set_waveform(waveform);
    }

    /// Sets the envelope of the timeline engine: times in milliseconds,
    /// sustain level from 0 to `UNIT`.
    pub fn set_timeline_adsr(&mut self, attack: i64, decay: i64, sustain: i64, release: i64)
        requires
            old(self)@.wf(),
        ensures
            final(self)@ == (AudioEngineModel {
                timeline: old(self)@.timeline.with_adsr(
                    attack as int,
                    decay as int,
                    sustain as int,
                    release as int,
                ),
                ..old(self)@
            }),
            final(self)@.wf(),
    {
        self.timeline_engine.set_adsr(attack, decay, sustain, release);
    }

    /// Sets the cutoff of the filter of the live engine, in microhertz.
    pub fn set_filter_cutoff(&mut self, cutoff: i64)
        requires
            old(self)@.wf(),
        ensures
            final(self)@ == (AudioEngineModel {
                live: old(self)@.live.with_filter_cutoff(
                    cutoff as int,
                ),
                ..old(self)@
            }),
            final(self)@.wf(),
    {
        self.live_engine.set_filter_cutoff(cutoff);
    }

    /// Sets the resonance of the filter of the live engine, from 0 to `UNIT`.
    pub fn set_filter_resonance(&mut self, resonance: i64)
        requires
            old(self)@.wf(),
        ensures
            final(self)@ == (AudioEngineModel {
                live: old(self)@.live.with_filter_resonance(
                    resonance as int,
                ),
                ..old(self)@
            }),
            final(self)@.wf(),
    {
        self.live_engine.set_filter_resonance(resonance);
    }

    /// Selects the output of the filter of the live engine by its code.
    pub fn set_filter_mode(&mut self, mode: u8)
        requires
            old(self)@.wf(),
        ensures
            final(self)@ == (AudioEngineModel {
                live: old(self)@.live.with_filter_mode(
                    mode as int,
                ),
                ..old(self)@
            }),
            final(self)@.wf(),
    {
        self.live_engine.set_filter_mode(mode);
    }

    /// Puts the filter of the live engine in the chain or takes it out.
    pub fn set_filter_enabled(&mut self, enabled: bool)
        requires
            old(self)@.wf(),
        ensures
            final(self)@ == (AudioEngineModel {
                live: old(self)@.live.with_filter_enabled(
                    enabled,
                ),
                ..old(self)@
            }),
            final(self)@.wf(),
    {
        self.live_engine.set_filter_enabled(enabled);
    }

    /// Sets the cutoff of the filter of the timeline engine, in microhertz.
    pub fn set_timeline_filter_cutoff(&mut self, cutoff: i64)
        requires
            old(self)@.wf(),
        ensures
            final(self)@ == (AudioEngineModel {
                timeline: old(self)@.timeline.with_filter_cutoff(
                    cutoff as int,
                ),
                ..old(self)@
            }),
            final(self)@.wf(),
    {
        self.timeline_engine.set_filter_cutoff(cutoff);
    }

    /// Sets the resonance of the filter of the timeline engine, from 0 to `UNIT`.
    pub fn set_timeline_filter_resonance(&mut self, resonance: i64)
        requires
            old(self)@.wf(),
        ensures
            final(self)@ == (AudioEngineModel {
                timeline: old(self)@.timeline.with_filter_resonance(
                    resonance as int,
                ),
                ..old(self)@
            }),
            final(self)@.wf(),
    {
        self.timeline_engine.set_filter_resonance(resonance);
    }

    /// Selects the output of the filter of the timeline engine by its code.
    pub fn set_timeline_filter_mode(&mut self, mode: u8)
        requires
            old(self)@.wf(),
        ensures
            final(self)@ == (AudioEngineModel {
                timeline: old(self)@.timeline.with_filter_mode(
                    mode as int,
                ),
                ..old(self)@
            }),
            final(self)@.wf(),
    {
        self.timeline_engine.set_filter_mode(mode);
    }

    /// Puts the filter of the timeline engine in the chain or takes it out.
    pub fn set_timeline_filter_enabled(&mut self, enabled: bool)
        requires
            old(self)@.wf(),
        ensures
            final(self)@ == (AudioEngineModel {
                timeline: old(self)@.timeline.with_filter_enabled(
                    enabled,
                ),
                ..old(self)@
            }),
            final(self)@.wf(),
    {
        self.timeline_engine.set_filter_enabled(enabled);
    }

    /// Sets the rate of the modulation oscillator of the live engine, in
    /// microhertz.
    pub fn set_lfo_rate(&mut self, rate: i64)
        requires
            old(self)@.wf(),
        ensures
            final(self)@ == (AudioEngineModel {
                live: old(self)@.live.with_lfo_rate(
                    rate as int,
                ),
                ..old(self)@
            }),
            final(self)@.wf(),
    {
        self.live_engine.set_lfo_rate(rate);
    }

    /// Sets the depth of the modulation oscillator of the live engine,
    /// from 0 to `UNIT`.
    pub fn set_lfo_depth(&mut self, depth: i64)
        requires
            old(self)@.wf(),
        ensures
            final(self)@ == (AudioEngineModel {
                live: old(self)@.live.with_lfo_depth(
                    depth as int,
                ),
                ..old(self)@
            }),
            final(self)@.wf(),
    {
        self.live_engine.set_lfo_depth(depth);
    }

    /// Selects the waveform of the modulation oscillator of the live
    /// engine by its code.
    pub fn set_lfo_waveform(&mut self, waveform: u8)
        requires
            old(self)@.wf(),
        ensures
            final(self)@ == (AudioEngineModel {
                live: old(self)@.live.with_lfo_waveform(
                    waveform as int,
                ),
                ..old(self)@
            }),
            final(self)@.wf(),
    {
        self.live_engine.set_lfo_waveform(waveform);
    }

    /// Turns the modulation of the cutoff on or off in the live engine.
    pub fn set_lfo_to_filter(&mut self, enabled: bool)
        requires
            old(self)@.wf(),
        ensures
            final(self)@ == (AudioEngineModel {
                live: old(self)@.live.with_lfo_to_filter(
                    enabled,
                ),
                ..old(self)@
            }),
            final(self)@.wf(),
    {
        self.live_engine.set_lfo_to_filter(enabled);
    }

    /// Sets the rate of the modulation oscillator of the timeline engine, in
    /// microhertz.
    pub fn set_timeline_lfo_rate(&mut self, rate: i64)
        requires
            old(self)@.wf(),
        ensures
            final(self)@ == (AudioEngineModel {
                timeline: old(self)@.timeline.with_lfo_rate(
                    rate as int,
                ),
                ..old(self)@
            }),
            final(self)@.wf(),
    {
        self.timeline_engine.set_lfo_rate(rate);
    }

    /// Sets the depth of the modulation oscillator of the timeline engine,
    /// from 0 to `UNIT`.
    pub fn set_timeline_lfo_depth(&mut self, depth: i64)
        requires
            old(self)@.wf(),
        ensures
            final(self)@ == (AudioEngineModel {
                timeline: old(self)@.timeline.with_lfo_depth(
                    depth as int,
                ),
                ..old(self)@
            }),
            final(self)@.wf(),
    {
        self.timeline_engine.set_lfo_depth(depth);
    }

    /// Selects the waveform of the modulation oscillator of the timeline
    /// engine by its code.
    pub fn set_timeline_lfo_waveform(&mut self, waveform: u8)
        requires
            old(self)@.wf(),
        ensures
            final(self)@ == (AudioEngineModel {
                timeline: old(self)@.timeline.with_lfo_waveform(
                    waveform as int,
                ),
                ..old(self)@
            }),
            final(self)@.wf(),
    {
        self.timeline_engine.set_lfo_waveform(waveform);
    }

    /// Turns the modulation of the cutoff on or off in the timeline engine.
    pub fn set_timeline_lfo_to_filter(&mut self, enabled: bool)
        requires
            old(self)@.wf(),
        ensures
            final(self)@ == (AudioEngineModel {
                timeline: old(self)@.timeline.with_lfo_to_filter(
                    enabled,
                ),
                ..old(self)@
            }),
            final(self)@.wf(),
    {
        self.timeline_engine.set_lfo_to_filter(enabled);
    }

    /// Sets the detune of the live engine, in cents.
    pub fn set_detune(&mut self, cents: i64)
        requires
            old(self)@.wf(),
        ensures
            final(self)@ == (AudioEngineModel {
                live: old(self)@.live.with_detune(
                    cents as int,
                ),
                ..old(self)@
            }),
            final(self)@.wf(),
    {
        self.live_engine.set_detune(cents);
    }

    /// Sets the glide time of the live engine, in milliseconds.
    pub fn set_glide_time(&mut self, time_ms: i64)
        requires
            old(self)@.wf(),
        ensures
            final(self)@ == (AudioEngineModel {
                live: old(self)@.live.with_glide_time(
                    time_ms as int,
                ),
                ..old(self)@
            }),
            final(self)@.wf(),
    {
        self.live_engine.set_glide_time(time_ms);
    }

    /// Sets the detune of the timeline engine, in cents.
    pub fn set_timeline_detune(&mut self, cents: i64)
        requires
            old(self)@.wf(),
        ensures
            final(self)@ == (AudioEngineModel {
                timeline: old(self)@.timeline.with_detune(
                    cents as int,
                ),
                ..old(self)@
            }),
            final(self)@.wf(),
    {
        self.timeline_engine.set_detune(cents);
    }

    /// Sets the glide time of the timeline engine, in milliseconds.
    pub fn set_timeline_glide_time(&mut self, time_ms: i64)
        requires
            old(self)@.wf(),
        ensures
            final(self)@ == (AudioEngineModel {
                timeline: old(self)@.timeline.with_glide_time(
                    time_ms as int,
                ),
                ..old(self)@
            }),
            final(self)@.wf(),
    {
        self.timeline_engine.set_glide_time(time_ms);
    }

    /// Puts the delay of the live engine in the chain, with new
    /// parameters, or takes it out.
    pub fn set_delay(&mut self, enabled: bool, time_ms: i64, feedback: i64, mix: i64)
        requires
            old(self)@.wf(),
        ensures
            final(self)@ == (AudioEngineModel {
                live: old(self)@.live.with_delay(
                    enabled,
                    time_ms as int,
                    feedback as int,
                    mix as int,
                ),
                ..old(self)@
            }),
            final(self)@.wf(),
    {
        self.live_engine.set_delay(enabled, time_ms, feedback, mix);
    }

    /// Puts the reverb of the live engine in the chain, with new
    /// parameters, or takes it out.
    pub fn set_reverb(&mut self, enabled: bool, room_size: i64, damping: i64)
        requires
            old(self)@.wf(),
        ensures
            final(self)@ == (AudioEngineModel {
                live: old(self)@.live.with_reverb(
                    enabled,
                    room_size as int,
                    damping as int,
                ),
                ..old(self)@
            }),
            final(self)@.wf(),
    {
        self.live_engine.set_reverb(enabled, room_size, damping);
    }

    /// Puts the tremolo of the live engine in the chain, with new
    /// parameters, or takes it out.
    pub fn set_tremolo(&mut self, enabled: bool, rate: i64, depth: i64)
        requires
            old(self)@.wf(),
        ensures
            final(self)@ == (AudioEngineModel {
                live: old(self)@.live.with_tremolo(
                    enabled,
                    rate as int,
                    depth as int,
                ),
                ..old(self)@
            }),
            final(self)@.wf(),
    {
        self.live_engine.set_tremolo(enabled, rate, depth);
    }

    /// Puts the flanger of the live engine in the chain, with new
    /// parameters, or takes it out.
    pub fn set_flanger(&mut self, enabled: bool, rate: i64, depth: i64, feedback: i64, mix: i64)
        requires
            old(self)@.wf(),
        ensures
            final(self)@ == (AudioEngineModel {
                live: old(self)@.live.with_flanger(
                    enabled,
                    rate as int,
                    depth as int,
                    feedback as int,
                    mix as int,
                ),
                ..old(self)@
            }),
            final(self)@.wf(),
    {
        self.live_engine.set_flanger(enabled, rate, depth, feedback, mix);
    }

    /// Puts the delay of the timeline engine in the chain, with new
    /// parameters, or takes it out.
    pub fn set_timeline_delay(&mut self, enabled: bool, time_ms: i64, feedback: i64, mix: i64)
        requires
            old(self)@.wf(),
        ensures
            final(self)@ == (AudioEngineModel {
                timeline: old(self)@.timeline.with_delay(
                    enabled,
                    time_ms as int,
                    feedback as int,
                    mix as int,
                ),
                ..old(self)@
            }),
            final(self)@.wf(),
    {
        self.timeline_engine.set_delay(enabled, time_ms, feedback, mix);
    }

    /// Puts the reverb of the timeline engine in the chain, with new
    /// parameters, or takes it out.
    pub fn set_timeline_reverb(&mut self, enabled: bool, room_size: i64, damping: i64)
        requires
            old(self)@.wf(),
        ensures
            final(self)@ == (AudioEngineModel {
                timeline: old(self)@.timeline.with_reverb(
                    enabled,
                    room_size as int,
                    damping as int,
                ),
                ..old(self)@
            }),
            final(self)@.wf(),
    {
        self.timeline_engine.set_reverb(enabled, room_size, damping);
    }

    /// Puts the tremolo of the timeline engine in the chain, with new
    /// parameters, or takes it out.
    pub fn set_timeline_tremolo(&mut self, enabled: bool, rate: i64, depth: i64)
        requires
            old(self)@.wf(),
        ensures
            final(self)@ == (AudioEngineModel {
                timeline: old(self)@.timeline.with_tremolo(
                    enabled,
                    rate as int,
                    depth as int,
                ),
                ..old(self)@
            }),
            final(self)@.wf(),
    {
        self.timeline_engine.set_tremolo(enabled, rate, depth);
    }

    /// Puts the flanger of the timeline engine in the chain, with new
    /// parameters, or takes it out.
    pub fn set_timeline_flanger(&mut self, enabled: bool, rate: i64, depth: i64, feedback: i64, mix: i64)
        requires
            old(self)@.wf(),
        ensures
            final(self)@ == (AudioEngineModel {
                timeline: old(self)@.timeline.with_flanger(
                    enabled,
                    rate as int,
                    depth as int,
                    feedback as int,
                    mix as int,
                ),
                ..old(self)@
            }),
            final(self)@.wf(),
    {
        self.timeline_engine.set_flanger(enabled, rate, depth, feedback, mix);
    }

    /// The sample rate, in hertz.
    pub fn get_sample_rate(&self) -> (rate: u32)
        ensures
            rate == SAMPLE_RATE,
    {
        SAMPLE_RATE
    }

    /// The engine that is played live.
    pub fn live_engine(&self) -> (r: &Engine)
        ensures
            r@ == self@.live,
    {
        &self.live_engine
    }

    /// The engine that plays the timeline.
    pub fn timeline_engine(&self) -> (r: &Engine)
        ensures
            r@ == self@.timeline,
    {
        &self.timeline_engine
    }

    /// The master volume.
    pub fn master_volume(&self) -> (volume: i64)
        ensures
            volume == self@.master_volume,
    {
        self.master_volume
    }

    /// The volume of the timeline engine.
    pub fn timeline_volume(&self) -> (volume: i64)
        ensures
            volume == self@.timeline_volume,
    {
        self.timeline_volume
    }

    /// The volume of the live engine.
    pub fn live_volume(&self) -> (volume: i64)
        ensures
            volume == self@.live_volume,
    {
        self.live_volume
    }
}

} // verus!
