//! The pulse oscillator: a square wave with a configurable duty cycle.

use vstd::prelude::*;
use core::time::Duration;
use crate::level::{Level, Ratio};
use crate::channels::clock::{advance_phase, lemma_phase_step, phase_at, CYCLE, SAMPLE_RATE};
use crate::channels::envelope::{
    lemma_ramp_progress, ramp_amplitude, ramp_length, ramp_progress, Envelope,
};
use vstd::set_lib::{lemma_int_range, set_int_range};

verus! {

/// The fraction of each period that a pulse wave spends at its high level:
/// `num / den`, strictly between zero and one.
#[derive(Clone, Copy, Debug, PartialEq, Eq)]
pub struct DutyCycle {
    num: u32,
    den: u32,
}

impl View for DutyCycle {
    type V = Ratio;

    closed spec fn view(&self) -> Ratio {
        Ratio { num: self.num as int, den: self.den as int }
    }
}

impl DutyCycle {
    /// The fraction lies strictly between zero and one.
    pub open spec fn wf(&self) -> bool {
        &&& 0 < self@.num < self@.den
        &&& self@.den <= u32::MAX
    }

    /// The duty cycle `num / den`, if that lies strictly between zero and one.
    pub fn new(num: u32, den: u32) -> (out: Option<DutyCycle>)
        ensures
            out is Some <==> 0 < num < den,
            out matches Some(duty) ==> duty.wf() && duty@ == (Ratio {
                num: num as int,
                den: den as int,
            }),
    {
        if 0 < num && num < den {
            Some(DutyCycle { num, den })
        } else {
            None
        }
    }

    /// One eighth: the thinnest of the three classic timbres.
    pub fn eighth() -> (out: DutyCycle)
        ensures
            out.wf(),
            out@ == (Ratio { num: 1, den: 8 }),
    {
        DutyCycle { num: 1, den: 8 }
    }

    /// One quarter.
    pub fn quarter() -> (out: DutyCycle)
        ensures
            out.wf(),
            out@ == (Ratio { num: 1, den: 4 }),
    {
        DutyCycle { num: 1, den: 4 }
    }

    /// One half: a square wave.
    pub fn half() -> (out: DutyCycle)
        ensures
            out.wf(),
            out@ == (Ratio { num: 1, den: 2 }),
    {
        DutyCycle { num: 1, den: 2 }
    }

    /// The numerator of the fraction.
    pub fn numerator(&self) -> (out: u32)
        ensures
            out == self@.num,
    {
        self.num
    }

    /// The denominator of the fraction.
    pub fn denominator(&self) -> (out: u32)
        ensures
            out == self@.den,
    {
        self.den
    }
}

/// Whether a pulse wave with the given duty cycle is at its high level at
/// `phase`: the wave is high for the first `duty` of each period.
pub open spec fn pulse_high(phase: nat, duty: Ratio) -> bool {
    phase * duty.den < duty.num * CYCLE
}

/// Sample `index` of a pulse wave at `freq` millihertz: the amplitude that the
/// ramp has reached with this sample, positive while the wave is high and
/// negative while it is low.
pub open spec fn pulse_sample(freq: nat, duty: Ratio, index: nat) -> Ratio {
    let amplitude = ramp_amplitude(index + 1, SAMPLE_RATE as nat);
    if pulse_high(phase_at(freq, index), duty) {
        amplitude
    } else {
        amplitude.negated()
    }
}

/// The phases of one period at which the wave is high.
pub open spec fn high_phases(duty: Ratio) -> Set<int> {
    Set::new(|phase: int| 0 <= phase < CYCLE && pulse_high(phase as nat, duty))
}

/// The phases of one period at which the wave is low.
pub open spec fn low_phases(duty: Ratio) -> Set<int> {
    Set::new(|phase: int| 0 <= phase < CYCLE && !pulse_high(phase as nat, duty))
}

/// With a duty cycle of one half the wave is high for the first half of each
/// period and low for the second: of the `CYCLE` phase steps of a period, each
/// of which lasts equally long, it spends as many at the high level as at the
/// low one.
pub proof fn lemma_square_wave_balanced()
    ensures
        forall|phase: nat|
            phase < CYCLE ==> (#[trigger] pulse_high(phase, Ratio { num: 1, den: 2 }) <==> phase
                < CYCLE / 2),
        high_phases(Ratio { num: 1, den: 2 }).finite(),
        low_phases(Ratio { num: 1, den: 2 }).finite(),
        high_phases(Ratio { num: 1, den: 2 }).len() == CYCLE / 2,
        low_phases(Ratio { num: 1, den: 2 }).len() == CYCLE / 2,
{
    let half = Ratio { num: 1, den: 2 };
    lemma_int_range(0, CYCLE as int / 2);
    lemma_int_range(CYCLE as int / 2, CYCLE as int);
    assert(high_phases(half) =~= set_int_range(0, CYCLE as int / 2));
    assert(low_phases(half) =~= set_int_range(CYCLE as int / 2, CYCLE as int));
}

/// Number of the `count` samples from sample `from` on at which the wave is
/// high.
pub open spec fn high_samples(freq: nat, duty: Ratio, from: nat, count: nat) -> nat
    decreases count,
{
    if count == 0 {
        0
    } else {
        high_samples(freq, duty, from, (count - 1) as nat) + if pulse_high(
            phase_at(freq, (from + count - 1) as nat),
            duty,
        ) {
            1nat
        } else {
            0
        }
    }
}

/// Half a period later a wave with a duty cycle of one half is at the other
/// level.
proof fn lemma_half_period_flips(freq: nat, index: nat, span: nat)
    requires
        (span * freq) % (CYCLE as nat) == CYCLE / 2,
    ensures
        pulse_high(phase_at(freq, index + span), Ratio { num: 1, den: 2 }) != pulse_high(
            phase_at(freq, index),
            Ratio { num: 1, den: 2 },
        ),
{
    assert((index + span) * freq == index * freq + span * freq) by (nonlinear_arith);
}

/// Of two runs of samples half a period apart, one is high wherever the
/// other is low.
proof fn lemma_half_period_pairs(freq: nat, from: nat, span: nat, count: nat)
    requires
        (span * freq) % (CYCLE as nat) == CYCLE / 2,
    ensures
        high_samples(freq, Ratio { num: 1, den: 2 }, from, count) + high_samples(
            freq,
            Ratio { num: 1, den: 2 },
            from + span,
            count,
        ) == count,
    decreases count,
{
    if count > 0 {
        lemma_half_period_pairs(freq, from, span, (count - 1) as nat);
        lemma_half_period_flips(freq, (from + count - 1) as nat, span);
    }
}

/// The samples of a run are those of its first part and those of the rest.
proof fn lemma_high_samples_split(freq: nat, duty: Ratio, from: nat, first: nat, rest: nat)
    ensures
        high_samples(freq, duty, from, first + rest) == high_samples(freq, duty, from, first)
            + high_samples(freq, duty, from + first, rest),
    decreases rest,
{
    if rest > 0 {
        lemma_high_samples_split(freq, duty, from, first, (rest - 1) as nat);
    }
}

/// Where `span` samples make up half a period, or half a period and some
/// whole periods, a wave with a duty cycle of one half is high at exactly
/// `span` of any `2 * span` samples in a row and low at the other `span`.
/// Once the ramp is over its samples are exactly `1` and `-1`, so that it
/// spends equal time at either, and two samples `span` apart are opposite.
pub proof fn lemma_square_wave_equal_time(freq: nat, index: nat, span: nat)
    requires
        (span * freq) % (CYCLE as nat) == CYCLE / 2,
    ensures
        high_samples(freq, Ratio { num: 1, den: 2 }, index, 2 * span) == span,
        index + 1 >= ramp_length(SAMPLE_RATE as nat) ==> {
            let sample = pulse_sample(freq, Ratio { num: 1, den: 2 }, index);
            &&& sample.num == sample.den || sample.num == -sample.den
            &&& pulse_sample(freq, Ratio { num: 1, den: 2 }, index + span) == sample.negated()
        },
{
    let half = Ratio { num: 1, den: 2 };
    lemma_high_samples_split(freq, half, index, span, span);
    lemma_half_period_pairs(freq, index, span, span);
    lemma_half_period_flips(freq, index, span);
}

/// A pulse oscillator in the middle of a note.
pub struct PulseWave {
    freq: u32,
    duty_cycle: DutyCycle,
    sample_rate: u32,
    phase: u64,
    envelope: Envelope,
    produced: Ghost<nat>,
}

impl PulseWave {
    /// The phase and the ramp are those of the number of samples produced.
    pub closed spec fn wf(&self) -> bool {
        &&& self.duty_cycle.wf()
        &&& self.sample_rate == SAMPLE_RATE
        &&& self.phase == phase_at(self.freq as nat, self.produced@)
        &&& self.envelope.wf()
        &&& self.envelope.rate() == SAMPLE_RATE
        &&& self.envelope.elapsed() == ramp_progress(self.produced@, SAMPLE_RATE as nat)
    }

    /// Frequency in millihertz.
    pub closed spec fn freq(&self) -> u32 {
        self.freq
    }

    /// Duty cycle.
    pub closed spec fn duty(&self) -> Ratio {
        self.duty_cycle@
    }

    /// Number of samples produced so far.
    pub closed spec fn position(&self) -> nat {
        self.produced@
    }

    /// A pulse oscillator at the start of a note, at `freq` millihertz.
    pub fn new(freq: u32, duty_cycle: DutyCycle) -> (out: PulseWave)
        requires
            duty_cycle.wf(),
        ensures
            out.wf(),
            out.freq() == freq,
            out.duty() == duty_cycle@,
            out.position() == 0,
    {
        proof {
            lemma_phase_step(freq as nat, 0);
        }
        PulseWave {
            freq,
            duty_cycle,
            sample_rate: SAMPLE_RATE,
            phase: 0,
            envelope: Envelope::new(SAMPLE_RATE),
            produced: Ghost(0),
        }
    }

    /// Advances the ramp and gives the wave's value at the current phase.
    fn pulse_wave(&mut self) -> (out: Level)
        requires
            old(self).wf(),
        ensures
            out@ == pulse_sample(old(self).freq() as nat, old(self).duty(), old(self).position()),
            final(self).freq == old(self).freq,
            final(self).duty_cycle == old(self).duty_cycle,
            final(self).sample_rate == old(self).sample_rate,
            final(self).phase == old(self).phase,
            final(self).produced == old(self).produced,
            final(self).envelope.wf(),
            final(self).envelope.rate() == SAMPLE_RATE,
            final(self).envelope.elapsed() == ramp_progress(
                old(self).position() + 1,
                SAMPLE_RATE as nat,
            ),
    {
        proof {
            lemma_ramp_progress(self.produced@, SAMPLE_RATE as nat);
            lemma_ramp_progress(self.produced@ + 1, SAMPLE_RATE as nat);
        }
        self.envelope.apply_ramp_up();
        let amplitude = self.envelope.amplitude();
        let (phase, den) = (self.phase, self.duty_cycle.den as u64);
        assert(phase * den <= 44_100_000 * 0xffff_ffff) by (nonlinear_arith)
            requires
                phase <= 44_100_000,
                den <= 0xffff_ffff,
        ;
        let high = phase * den < (self.duty_cycle.num as u64) * CYCLE;
        if high {
            amplitude
        } else {
            amplitude.negated()
        }
    }

    /// The next sample of the wave.
    pub fn next_sample(&mut self) -> (out: Level)
        requires
            old(self).wf(),
        ensures
            final(self).wf(),
            final(self).freq() == old(self).freq(),
            final(self).duty() == old(self).duty(),
            final(self).position() == old(self).position() + 1,
            out@ == pulse_sample(old(self).freq() as nat, old(self).duty(), old(self).position()),
            out@.wf(),
            out@.within_unit(),
    {
        let waveform = self.pulse_wave();
        proof {
            lemma_phase_step(self.freq as nat, self.produced@);
        }
        self.phase = advance_phase(self.phase, self.freq);
        self.produced = Ghost((self.produced@ + 1) as nat);
        waveform
    }

    /// Frequency in millihertz.
    pub fn frequency(&self) -> (out: u32)
        ensures
            out == self.freq(),
    {
        self.freq
    }

    /// Duty cycle.
    pub fn duty_cycle(&self) -> (out: DutyCycle)
        ensures
            out@ == self.duty(),
    {
        self.duty_cycle
    }

    /// The stream goes on without frame boundaries.
    pub fn current_frame_len(&self) -> (out: Option<usize>)
        ensures
            out is None,
    {
        None
    }

    /// The stream is mono.
    pub fn channels(&self) -> (out: u16)
        ensures
            out == 1,
    {
        1
    }

    /// Samples per second.
    pub fn sample_rate(&self) -> (out: u32)
        requires
            self.wf(),
        ensures
            out == SAMPLE_RATE,
    {
        self.sample_rate
    }

    /// The stream never ends by itself.
    pub fn total_duration(&self) -> (out: Option<Duration>)
        ensures
            out is None,
    {
        None
    }
}

} // verus!
