//! Glide and the four effects of the chain.

pub mod glide;
pub mod delay_line;
pub mod delay;
pub mod tremolo;
pub mod flanger;
pub mod reverb;
