//! A polyphonic synthesis and effects engine in fixed-point arithmetic.

pub mod fixed;
pub mod pitch;
pub mod waveform;
pub mod oscillator;
pub mod lfo;
pub mod envelope;
pub mod filter;
pub mod effects;
pub mod voice;
pub mod pool;
pub mod engine;
pub mod mixer;

pub use crate::engine::Engine;
pub use crate::filter::StateVariableFilter;
pub use crate::mixer::AudioEngine;
pub use crate::pitch::midi_to_freq;
pub use crate::voice::Voice;
