//! The triangle oscillator.

use vstd::prelude::*;
use core::time::Duration;
use crate::level::{lemma_product_within_unit, Level, Ratio};
use crate::channels::clock::{advance_phase, lemma_phase_step, phase_at, CYCLE, SAMPLE_RATE};
use crate::channels::envelope::{
    lemma_ramp_monotonic, lemma_ramp_progress, ramp_amplitude, ramp_length, ramp_progress,
    Envelope,
};

verus! {

/// The triangle wave at `phase`, before the ramp is applied: it rises in a
/// straight line from `-1` at the start of the period to `1` at its middle,
/// and falls back to `-1` at its end.
pub open spec fn triangle_raw(phase: nat) -> Ratio {
    Ratio {
        num: if 2 * phase < CYCLE {
            4 * phase - CYCLE
        } else {
            3 * CYCLE - 4 * phase
        },
        den: CYCLE as int,
    }
}

/// Sample `index` of a triangle wave at `freq` millihertz: the wave at the
/// sample's phase, times the amplitude that the ramp has reached with this
/// sample.
pub open spec fn triangle_sample(freq: nat, index: nat) -> Ratio {
    triangle_raw(phase_at(freq, index)).times(ramp_amplitude(index + 1, SAMPLE_RATE as nat))
}

/// Every sample of a triangle wave lies in `[-1, 1]`.
pub proof fn lemma_triangle_within_unit(freq: nat, index: nat)
    ensures
        triangle_raw(phase_at(freq, index)).wf(),
        triangle_raw(phase_at(freq, index)).within_unit(),
        triangle_sample(freq, index).wf(),
        triangle_sample(freq, index).within_unit(),
{
    lemma_ramp_monotonic(index + 1, index + 1, SAMPLE_RATE as nat);
    lemma_product_within_unit(
        triangle_raw(phase_at(freq, index)),
        ramp_amplitude(index + 1, SAMPLE_RATE as nat),
    );
}

/// The triangle wave repeats with every period: where `span` samples make up
/// a whole number of periods, the wave stands after them where it stood
/// before, and once the ramp is over the samples are the same.
pub proof fn lemma_triangle_periodic(freq: nat, index: nat, span: nat)
    requires
        (span * freq) % (CYCLE as nat) == 0,
    ensures
        triangle_raw(phase_at(freq, index + span)) == triangle_raw(phase_at(freq, index)),
        index + 1 >= ramp_length(SAMPLE_RATE as nat) ==> triangle_sample(freq, index + span)
            == triangle_sample(freq, index),
{
    assert((index + span) * freq == index * freq + span * freq) by (nonlinear_arith);
}

/// A triangle oscillator in the middle of a note.
pub struct TriangleWave {
    freq: u32,
    sample_rate: u32,
    phase: u64,
    envelope: Envelope,
    produced: Ghost<nat>,
}

impl TriangleWave {
    /// The phase and the ramp are those of the number of samples produced.
    pub closed spec fn wf(&self) -> bool {
        &&& self.sample_rate == SAMPLE_RATE
        &&& self.phase == phase_at(self.freq as nat, self.produced@)
        &&& self.envelope.wf()
        &&& self.envelope.rate() == SAMPLE_RATE
        &&& self.envelope.elapsed() == ramp_progress(self.produced@, SAMPLE_RATE as nat)
    }

    /// Frequency in millihertz.
    pub closed spec fn freq(&self) -> u32 {
        self.freq
    }

    /// Number of samples produced so far.
    pub closed spec fn position(&self) -> nat {
        self.produced@
    }

    /// A triangle oscillator at the start of a note, at `freq` millihertz.
    pub fn new(freq: u32) -> (out: TriangleWave)
        ensures
            out.wf(),
            out.freq() == freq,
            out.position() == 0,
    {
        proof {
            lemma_phase_step(freq as nat, 0);
        }
        TriangleWave {
            freq,
            sample_rate: SAMPLE_RATE,
            phase: 0,
            envelope: Envelope::new(SAMPLE_RATE),
            produced: Ghost(0),
        }
    }

    /// Advances the ramp and gives the wave's value at the current phase.
    fn triangle_wave(&mut self) -> (out: Level)
        requires
            old(self).wf(),
        ensures
            out@ == triangle_sample(old(self).freq() as nat, old(self).position()),
            final(self).freq == old(self).freq,
            final(self).sample_rate == old(self).sample_rate,
            final(self).phase == old(self).phase,
            final(self).produced == old(self).produced,
            final(self).envelope.wf(),
            final(self).envelope.rate() == SAMPLE_RATE,
            final(self).envelope.elapsed() == ramp_progress(
                old(self).position() + 1,
                SAMPLE_RATE as nat,
            ),
    {
        proof {
            lemma_ramp_progress(self.produced@, SAMPLE_RATE as nat);
            lemma_ramp_progress(self.produced@ + 1, SAMPLE_RATE as nat);
        }
        self.envelope.apply_ramp_up();
        let amplitude = self.envelope.amplitude();
        let raw = if 2 * self.phase < CYCLE {
            Level { num: 4 * (self.phase as i64) - (CYCLE as i64), den: CYCLE as i64 }
        } else {
            Level { num: 3 * (CYCLE as i64) - 4 * (self.phase as i64), den: CYCLE as i64 }
        };
        proof {
            lemma_product_within_unit(raw@, amplitude@);
        }
        raw.times(amplitude)
    }

    /// The next sample of the wave.
    pub fn next_sample(&mut self) -> (out: Level)
        requires
            old(self).wf(),
        ensures
            final(self).wf(),
            final(self).freq() == old(self).freq(),
            final(self).position() == old(self).position() + 1,
            out@ == triangle_sample(old(self).freq() as nat, old(self).position()),
            out@.wf(),
            out@.within_unit(),
    {
        proof {
            lemma_triangle_within_unit(self.freq as nat, self.produced@);
        }
        let waveform = self.triangle_wave();
        proof {
            lemma_phase_step(self.freq as nat, self.produced@);
        }
        self.phase = advance_phase(self.phase, self.freq);
        self.produced = Ghost((self.produced@ + 1) as nat);
        waveform
    }

    /// Frequency in millihertz.
    pub fn frequency(&self) -> (out: u32)
        ensures
            out == self.freq(),
    {
        self.freq
    }

    /// The stream goes on without frame boundaries.
    pub fn current_frame_len(&self) -> (out: Option<usize>)
        ensures
            out is None,
    {
        None
    }

    /// The stream is mono.
    pub fn channels(&self) -> (out: u16)
        ensures
            out == 1,
    {
        1
    }

    /// Samples per second.
    pub fn sample_rate(&self) -> (out: u32)
        requires
            self.wf(),
        ensures
            out == SAMPLE_RATE,
    {
        self.sample_rate
    }

    /// The stream never ends by itself.
    pub fn total_duration(&self) -> (out: Option<Duration>)
        ensures
            out is None,
    {
        None
    }
}

} // verus!
