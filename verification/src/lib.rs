//! A monophonic sine-wave synthesizer core.
//!
//! The oscillator keeps its position inside one waveform cycle as a
//! fixed-point phase accumulator: a `u32` counting ticks of `1/2^32` of a
//! cycle. Advancing by one sample adds a per-sample step derived from the
//! current frequency and the fixed sample rate; the wrap-around at a full
//! cycle is the `u32` range itself. Frequencies and sample rates are held
//! in millihertz, so note pitches and device rates are exact integers.
//!
//! Producing the audible amplitude `sin(2*pi*phase/2^32) * gain` takes
//! floating point and is left to the embedding program, which also owns the
//! audio device and the keyboard; this crate determines, for every sample,
//! the exact phase tick and gain that the amplitude is computed from.

pub mod input;
pub mod oscillator;
pub mod synth;
