//! Decision logic of a floating voice-level overlay and of the audio ducking
//! that accompanies a dictation session.
//!
//! Every function here is a pure transition: it takes the current state and an
//! event, and returns the next state together with what the surrounding shell
//! has to do to the live window or to the audio endpoint.

pub mod binary64;
pub mod engine_events;
pub mod geometry;
pub mod level_meter;
pub mod native_overlay;
pub mod system_audio;
