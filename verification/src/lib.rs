//! Core of a real-time audio playback pipeline: pull-based sample sources,
//! a sequential playback queue that plays appended sounds back to back, and
//! negotiation of a hardware output-stream configuration with fallback.

pub mod common;
pub mod source;
pub mod queue;
pub mod stream;

