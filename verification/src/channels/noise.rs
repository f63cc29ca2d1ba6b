//! The noise oscillator: a pseudorandom stream of high and low samples.

use vstd::prelude::*;
use core::time::Duration;
use crate::level::{lemma_product_within_unit, Level, Ratio};
use crate::channels::clock::SAMPLE_RATE;
use crate::channels::envelope::{
    lemma_ramp_monotonic, lemma_ramp_progress, ramp_amplitude, ramp_progress, Envelope,
};

verus! {

/// One step of the generator: a three-step xorshift on 32 bits.
pub open spec fn xorshift(seed: u32) -> u32 {
    let first = seed ^ (seed >> 7);
    let second = first ^ (first << 9);
    second ^ (second >> 13)
}

/// The generator's state after `steps` steps from `seed`.
pub open spec fn seed_at(seed: u32, steps: nat) -> u32
    decreases steps,
{
    if steps == 0 {
        seed
    } else {
        xorshift(seed_at(seed, (steps - 1) as nat))
    }
}

/// The noise value that a generator state stands for, before the ramp is
/// applied: the sign is the state's lowest bit, the magnitude is one, or four
/// fifths for the metallic timbre.
pub open spec fn noise_raw(seed: u32, metallic: bool) -> Ratio {
    let sign: int = if seed & 1 == 1 {
        1
    } else {
        -1
    };
    if metallic {
        Ratio { num: 4 * sign, den: 5 }
    } else {
        Ratio { num: sign, den: 1 }
    }
}

/// Sample `index` of a noise channel started from `seed`: the value of the
/// generator's state after `index + 1` steps, times the amplitude that the
/// ramp has reached with this sample.
pub open spec fn noise_sample(seed: u32, metallic: bool, index: nat) -> Ratio {
    noise_raw(seed_at(seed, index + 1), metallic).times(
        ramp_amplitude(index + 1, SAMPLE_RATE as nat),
    )
}

/// Zero is the one state that the generator cannot leave, and no other state
/// leads to it.
pub proof fn lemma_xorshift_zero(seed: u32)
    ensures
        xorshift(seed) == 0 <==> seed == 0,
{
    assert(xorshift(seed) == 0 <==> seed == 0) by (bit_vector);
}

/// A generator started from a state other than zero never reaches zero.
pub proof fn lemma_seed_stays_nonzero(seed: u32, steps: nat)
    requires
        seed != 0,
    ensures
        seed_at(seed, steps) != 0,
    decreases steps,
{
    if steps > 0 {
        lemma_seed_stays_nonzero(seed, (steps - 1) as nat);
        lemma_xorshift_zero(seed_at(seed, (steps - 1) as nat));
    }
}

/// Before the ramp is applied, a metallic noise value has magnitude four
/// fifths and any other has magnitude one.
pub proof fn lemma_noise_magnitude(seed: u32, metallic: bool)
    ensures
        noise_raw(seed, metallic).wf(),
        noise_raw(seed, metallic).within_unit(),
        metallic ==> 5 * noise_raw(seed, metallic).num == 4 * noise_raw(seed, metallic).den || 5
            * noise_raw(seed, metallic).num == -4 * noise_raw(seed, metallic).den,
        !metallic ==> noise_raw(seed, metallic).num == noise_raw(seed, metallic).den
            || noise_raw(seed, metallic).num == -noise_raw(seed, metallic).den,
{
}

/// The samples of a noise channel depend on nothing but the seed and the
/// flag it was made with: two channels made alike give the same sample at
/// every index, and stand at the same generator state after equally many
/// samples.
pub proof fn lemma_noise_reproducible(first: NoiseChannel, second: NoiseChannel, index: nat)
    requires
        first.wf(),
        second.wf(),
        first.initial_seed() == second.initial_seed(),
        first.metallic() == second.metallic(),
    ensures
        noise_sample(first.initial_seed(), first.metallic(), index) == noise_sample(
            second.initial_seed(),
            second.metallic(),
            index,
        ),
        first.position() == second.position() ==> first.state() == second.state(),
{
}

/// The next state of the generator.
pub fn xorshift_step(seed: u32) -> (out: u32)
    ensures
        out == xorshift(seed),
{
    let first = seed ^ (seed >> 7);
    let second = first ^ (first << 9);
    second ^ (second >> 13)
}

/// The noise value that a generator state stands for, before the ramp is
/// applied.
pub fn noise_level(seed: u32, metallic: bool) -> (out: Level)
    ensures
        out@ == noise_raw(seed, metallic),
{
    let sign: i64 = if seed & 1 == 1 {
        1
    } else {
        -1
    };
    if metallic {
        Level { num: 4 * sign, den: 5 }
    } else {
        Level { num: sign, den: 1 }
    }
}

/// A noise oscillator in the middle of a note.
pub struct NoiseChannel {
    sample_rate: u32,
    seed: u32,
    metallic: bool,
    envelope: Envelope,
    initial: Ghost<u32>,
    produced: Ghost<nat>,
}

impl NoiseChannel {
    /// The generator and the ramp are those of the number of samples
    /// produced, and the generator is not stuck at zero.
    pub closed spec fn wf(&self) -> bool {
        &&& self.sample_rate == SAMPLE_RATE
        &&& self.initial@ != 0
        &&& self.seed == seed_at(self.initial@, self.produced@)
        &&& self.envelope.wf()
        &&& self.envelope.rate() == SAMPLE_RATE
        &&& self.envelope.elapsed() == ramp_progress(self.produced@, SAMPLE_RATE as nat)
    }

    /// The seed that the channel was made with.
    pub closed spec fn initial_seed(&self) -> u32 {
        self.initial@
    }

    /// The generator's current state.
    pub closed spec fn state(&self) -> u32 {
        self.seed
    }

    /// Whether the channel has the metallic timbre.
    pub closed spec fn metallic(&self) -> bool {
        self.metallic
    }

    /// Number of samples produced so far.
    pub closed spec fn position(&self) -> nat {
        self.produced@
    }

    /// A noise oscillator at the start of a note. A generator seeded with
    /// zero would stay at zero forever, so zero is refused.
    pub fn new(seed: u32, metallic: bool) -> (out: Option<NoiseChannel>)
        ensures
            out is Some <==> seed != 0,
            out matches Some(channel) ==> {
                &&& channel.wf()
                &&& channel.initial_seed() == seed
                &&& channel.state() == seed
                &&& channel.metallic() == metallic
                &&& channel.position() == 0
            },
    {
        if seed == 0 {
            None
        } else {
            Some(NoiseChannel::seeded(seed, metallic))
        }
    }

    /// A noise oscillator at the start of a note, for a seed that is known
    /// not to be zero.
    pub(crate) fn seeded(seed: u32, metallic: bool) -> (out: NoiseChannel)
        requires
            seed != 0,
        ensures
            out.wf(),
            out.initial_seed() == seed,
            out.state() == seed,
            out.metallic() == metallic,
            out.position() == 0,
    {
        NoiseChannel {
            sample_rate: SAMPLE_RATE,
            seed,
            metallic,
            envelope: Envelope::new(SAMPLE_RATE),
            initial: Ghost(seed),
            produced: Ghost(0),
        }
    }

    /// Advances the ramp and the generator and gives the value of the
    /// generator's new state.
    fn generate_noise(&mut self) -> (out: Level)
        requires
            old(self).wf(),
        ensures
            out@ == noise_sample(
                old(self).initial_seed(),
                old(self).metallic(),
                old(self).position(),
            ),
            final(self).sample_rate == old(self).sample_rate,
            final(self).metallic == old(self).metallic,
            final(self).initial == old(self).initial,
            final(self).produced == old(self).produced,
            final(self).seed == xorshift(old(self).seed),
            final(self).envelope.wf(),
            final(self).envelope.rate() == SAMPLE_RATE,
            final(self).envelope.elapsed() == ramp_progress(
                old(self).position() + 1,
                SAMPLE_RATE as nat,
            ),
    {
        proof {
            lemma_ramp_progress(self.produced@, SAMPLE_RATE as nat);
            lemma_ramp_progress(self.produced@ + 1, SAMPLE_RATE as nat);
        }
        self.envelope.apply_ramp_up();
        self.seed = xorshift_step(self.seed);
        let value = noise_level(self.seed, self.metallic);
        let amplitude = self.envelope.amplitude();
        proof {
            lemma_noise_magnitude(self.seed, self.metallic);
            lemma_product_within_unit(value@, amplitude@);
        }
        value.times(amplitude)
    }

    /// The next sample of the noise.
    pub fn next_sample(&mut self) -> (out: Level)
        requires
            old(self).wf(),
        ensures
            final(self).wf(),
            final(self).initial_seed() == old(self).initial_seed(),
            final(self).metallic() == old(self).metallic(),
            final(self).position() == old(self).position() + 1,
            final(self).state() == xorshift(old(self).state()),
            final(self).state() != 0,
            out@ == noise_sample(
                old(self).initial_seed(),
                old(self).metallic(),
                old(self).position(),
            ),
            out@.wf(),
            out@.within_unit(),
    {
        proof {
            lemma_noise_magnitude(seed_at(self.initial@, self.produced@ + 1), self.metallic);
            lemma_ramp_monotonic(self.produced@ + 1, self.produced@ + 1, SAMPLE_RATE as nat);
            lemma_product_within_unit(
                noise_raw(seed_at(self.initial@, self.produced@ + 1), self.metallic),
                ramp_amplitude(self.produced@ + 1, SAMPLE_RATE as nat),
            );
        }
        let waveform = self.generate_noise();
        self.produced = Ghost((self.produced@ + 1) as nat);
        proof {
            lemma_seed_stays_nonzero(self.initial@, self.produced@);
        }
        waveform
    }

    /// Whether the channel has the metallic timbre.
    pub fn is_metallic(&self) -> (out: bool)
        ensures
            out == self.metallic(),
    {
        self.metallic
    }

    /// The stream goes on without frame boundaries.
    pub fn current_frame_len(&self) -> (out: Option<usize>)
        ensures
            out is None,
    {
        None
    }

    /// The stream is mono.
    pub fn channels(&self) -> (out: u16)
        ensures
            out == 1,
    {
        1
    }

    /// Samples per second.
    pub fn sample_rate(&self) -> (out: u32)
        requires
            self.wf(),
        ensures
            out == SAMPLE_RATE,
    {
        self.sample_rate
    }

    /// The stream never ends by itself.
    pub fn total_duration(&self) -> (out: Option<Duration>)
        ensures
            out is None,
    {
        None
    }
}

} // verus!
