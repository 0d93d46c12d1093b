//! Core of a reflex-training mini-game: a repeating cue timer, a single
//! pending-cue slot, key-edge matching and a score, all driven one tick at a
//! time by an outside game loop.

pub mod cue;
pub mod timer;
pub mod gamestate;
pub mod entropy;
pub mod session;
pub mod laws;
