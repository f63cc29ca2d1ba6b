//! The oscillators and what they share: the sample clock and the fade-in ramp.

pub mod clock;
pub mod envelope;
pub mod noise;
pub mod pulse;
pub mod triangle;
