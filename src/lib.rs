//! The voice engine of an additive, polyphonic synthesizer.
//!
//! Everything here works on integers: envelope levels are fixed-point
//! fractions of `LEVEL_ONE`, oscillator and LFO phases are 32-bit
//! accumulators whose full range is one cycle. The host side turns
//! seconds, hertz and decibels into these units and does the
//! floating-point signal arithmetic.

pub mod envelope;
pub mod harmonics;
pub mod voices;
pub mod engine;
pub mod laws;
