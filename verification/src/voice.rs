//! Voices and the oscillators that they play their notes on.

use vstd::prelude::*;
use core::time::Duration;
use crate::channels::clock::SAMPLE_RATE;
use crate::channels::noise::{noise_sample, NoiseChannel};
use crate::channels::pulse::{pulse_sample, DutyCycle, PulseWave};
use crate::channels::triangle::{triangle_sample, TriangleWave};
use crate::level::{Level, Ratio};

verus! {

/// The seed of the noise voice.
pub const NOISE_SEED: u32 = 12345;

/// What a voice plays all of its notes on: one kind of oscillator, with the
/// parameters that do not change from note to note.
#[derive(Clone, Copy, Debug, PartialEq, Eq)]
pub enum Voice {
    /// A pulse wave with the given duty cycle.
    Pulse { duty_cycle: DutyCycle },
    /// A triangle wave.
    Triangle,
    /// Noise from the given seed, metallic or not.
    Noise { seed: u32, metallic: bool },
}

/// The oscillator of one note.
pub enum Oscillator {
    /// A pulse wave.
    Pulse(PulseWave),
    /// A triangle wave.
    Triangle(TriangleWave),
    /// Noise.
    Noise(NoiseChannel),
}

impl Voice {
    /// The parameters are ones that an oscillator can be made with.
    pub open spec fn wf(&self) -> bool {
        match self {
            Voice::Pulse { duty_cycle } => duty_cycle.wf(),
            Voice::Triangle => true,
            Voice::Noise { seed, .. } => *seed != 0,
        }
    }

    /// Whether the parameters are ones that an oscillator can be made with.
    pub fn is_well_formed(&self) -> (out: bool)
        ensures
            out == self.wf(),
    {
        match self {
            Voice::Pulse { duty_cycle } => 0 < duty_cycle.numerator() && duty_cycle.numerator()
                < duty_cycle.denominator(),
            Voice::Triangle => true,
            Voice::Noise { seed, .. } => *seed != 0,
        }
    }

    /// Whether this is a pulse voice with the duty cycle `num / den`.
    pub open spec fn is_pulse(&self, num: int, den: int) -> bool {
        self matches Voice::Pulse { duty_cycle } && duty_cycle@ == (Ratio { num, den })
    }

    /// The voice with the given number: three pulse voices with duty cycles
    /// of an eighth, a quarter and a half, then a triangle voice, and noise
    /// for every number from four on.
    pub fn for_index(index: usize) -> (out: Voice)
        ensures
            out.wf(),
            index == 0 ==> out.is_pulse(1, 8),
            index == 1 ==> out.is_pulse(1, 4),
            index == 2 ==> out.is_pulse(1, 2),
            index == 3 ==> out is Triangle,
            index >= 4 ==> out == (Voice::Noise { seed: NOISE_SEED, metallic: false }),
    {
        if index == 0 {
            Voice::Pulse { duty_cycle: DutyCycle::eighth() }
        } else if index == 1 {
            Voice::Pulse { duty_cycle: DutyCycle::quarter() }
        } else if index == 2 {
            Voice::Pulse { duty_cycle: DutyCycle::half() }
        } else if index == 3 {
            Voice::Triangle
        } else {
            Voice::Noise { seed: NOISE_SEED, metallic: false }
        }
    }

    /// A fresh oscillator for a note at `freq` millihertz.
    pub fn oscillator(&self, freq: u32) -> (out: Oscillator)
        requires
            self.wf(),
        ensures
            out.wf(),
            out.plays(*self, freq),
            out.position() == 0,
    {
        match self {
            Voice::Pulse { duty_cycle } => Oscillator::Pulse(PulseWave::new(freq, *duty_cycle)),
            Voice::Triangle => Oscillator::Triangle(TriangleWave::new(freq)),
            Voice::Noise { seed, metallic } => Oscillator::Noise(
                NoiseChannel::seeded(*seed, *metallic),
            ),
        }
    }
}

impl Oscillator {
    /// The oscillator inside is well-formed.
    pub open spec fn wf(&self) -> bool {
        match self {
            Oscillator::Pulse(wave) => wave.wf(),
            Oscillator::Triangle(wave) => wave.wf(),
            Oscillator::Noise(channel) => channel.wf(),
        }
    }

    /// Number of samples produced so far.
    pub open spec fn position(&self) -> nat {
        match self {
            Oscillator::Pulse(wave) => wave.position(),
            Oscillator::Triangle(wave) => wave.position(),
            Oscillator::Noise(channel) => channel.position(),
        }
    }

    /// Whether this is an oscillator of `voice` for a note at `freq`
    /// millihertz.
    pub open spec fn plays(&self, voice: Voice, freq: u32) -> bool {
        match (self, voice) {
            (Oscillator::Pulse(wave), Voice::Pulse { duty_cycle }) => wave.freq() == freq
                && wave.duty() == duty_cycle@,
            (Oscillator::Triangle(wave), Voice::Triangle) => wave.freq() == freq,
            (Oscillator::Noise(channel), Voice::Noise { seed, metallic }) => channel.initial_seed()
                == seed && channel.metallic() == metallic,
            _ => false,
        }
    }

    /// Sample `index` of the note that this oscillator plays.
    pub open spec fn sample_at(&self, index: nat) -> Ratio {
        match self {
            Oscillator::Pulse(wave) => pulse_sample(wave.freq() as nat, wave.duty(), index),
            Oscillator::Triangle(wave) => triangle_sample(wave.freq() as nat, index),
            Oscillator::Noise(channel) => noise_sample(
                channel.initial_seed(),
                channel.metallic(),
                index,
            ),
        }
    }

    /// Whether two oscillators play the same note: they are of one kind and
    /// were made with the same parameters.
    pub open spec fn same_note(&self, other: &Oscillator) -> bool {
        match (self, other) {
            (Oscillator::Pulse(wave), Oscillator::Pulse(twin)) => wave.freq() == twin.freq()
                && wave.duty() == twin.duty(),
            (Oscillator::Triangle(wave), Oscillator::Triangle(twin)) => wave.freq() == twin.freq(),
            (Oscillator::Noise(channel), Oscillator::Noise(twin)) => channel.initial_seed()
                == twin.initial_seed() && channel.metallic() == twin.metallic(),
            _ => false,
        }
    }

    /// The next sample of the note.
    pub fn next_sample(&mut self) -> (out: Level)
        requires
            old(self).wf(),
        ensures
            final(self).wf(),
            final(self).same_note(old(self)),
            final(self).position() == old(self).position() + 1,
            out@ == old(self).sample_at(old(self).position()),
    {
        match self {
            Oscillator::Pulse(wave) => wave.next_sample(),
            Oscillator::Triangle(wave) => wave.next_sample(),
            Oscillator::Noise(channel) => channel.next_sample(),
        }
    }

    /// The stream goes on without frame boundaries.
    pub fn current_frame_len(&self) -> (out: Option<usize>)
        ensures
            out is None,
    {
        match self {
            Oscillator::Pulse(wave) => wave.current_frame_len(),
            Oscillator::Triangle(wave) => wave.current_frame_len(),
            Oscillator::Noise(channel) => channel.current_frame_len(),
        }
    }

    /// The stream is mono.
    pub fn channels(&self) -> (out: u16)
        ensures
            out == 1,
    {
        match self {
            Oscillator::Pulse(wave) => wave.channels(),
            Oscillator::Triangle(wave) => wave.channels(),
            Oscillator::Noise(channel) => channel.channels(),
        }
    }

    /// Samples per second.
    pub fn sample_rate(&self) -> (out: u32)
        requires
            self.wf(),
        ensures
            out == SAMPLE_RATE,
    {
        match self {
            Oscillator::Pulse(wave) => wave.sample_rate(),
            Oscillator::Triangle(wave) => wave.sample_rate(),
            Oscillator::Noise(channel) => channel.sample_rate(),
        }
    }

    /// The stream never ends by itself.
    pub fn total_duration(&self) -> (out: Option<Duration>)
        ensures
            out is None,
    {
        match self {
            Oscillator::Pulse(wave) => wave.total_duration(),
            Oscillator::Triangle(wave) => wave.total_duration(),
            Oscillator::Noise(channel) => channel.total_duration(),
        }
    }
}

} // verus!
