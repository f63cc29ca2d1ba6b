//! A multi-voice waveform synthesizer.
//!
//! A melody is a sequence of note-name/duration pairs. Each voice walks its own
//! melody and, for every note it can resolve to a frequency, starts a fresh
//! oscillator: a pulse wave with a fixed duty cycle, a triangle wave, or
//! pseudorandom noise. Every oscillator fades in through a short linear ramp.
//!
//! Sample values are exact rationals ([`level::Level`]); time is counted in
//! samples and frequency in millihertz, so every contract is stated over the
//! integers.
//!
//! - [`channels`]: the oscillators, their sample clock and their ramp.
//! - [`voice`]: which oscillator a voice plays on.
//! - [`notes`]: the table from note names to frequencies.
//! - [`melody`]: melodies, and reading them from comma-separated text.
//! - [`scheduler`]: the state machine that takes one voice through its melody.
//! - [`text`]: trimming a cell and reading a number.

pub mod channels;
pub mod level;
pub mod melody;
pub mod notes;
pub mod scheduler;
pub mod text;
pub mod voice;
