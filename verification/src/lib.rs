//! Signal-generation core of a software synthesizer voice.
//!
//! A [`wrapper::Synth`] owns a bank of wavetable oscillators and three
//! optional processing stages (filter, envelope, low-frequency modulation)
//! in a fixed order, produces one audio sample per call, and exposes a
//! reconfiguration surface that may retune, add, remove or swap stages
//! between sample pulls without ever leaving the pipeline half-updated.
//!
//! Samples and gains are fixed-point numbers: [`units::ONE_Q16`] stands for
//! an amplitude of one.

pub mod envelopes;
pub mod errors;
pub mod filters;
pub mod keys;
pub mod lfo;
pub mod oscillators;
pub mod units;
pub mod wrapper;
