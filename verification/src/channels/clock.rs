//! The sample clock of the periodic oscillators.
//!
//! Sample `k` of a note is taken `k / SAMPLE_RATE` seconds after its start. At
//! a frequency of `f` millihertz the wave has by then run through
//! `k * f / CYCLE` periods; what is left after the whole periods, counted in
//! steps of `1 / CYCLE` of a period, is the phase.

use vstd::prelude::*;

verus! {

/// Samples per second of every oscillator.
pub const SAMPLE_RATE: u32 = 44100;

/// Phase steps in one period: `1000 * SAMPLE_RATE`, so that one sample moves
/// the phase by as many steps as the frequency has millihertz.
pub const CYCLE: u64 = 44_100_000;

/// Phase of sample `index` at `freq` millihertz, in `0 .. CYCLE`.
pub open spec fn phase_at(freq: nat, index: nat) -> nat {
    (index * freq) % (CYCLE as nat)
}

/// From one sample to the next the phase moves on by the frequency, and
/// wraps around at the end of the period.
pub proof fn lemma_phase_step(freq: nat, index: nat)
    ensures
        phase_at(freq, index + 1) == (phase_at(freq, index) + freq) % (CYCLE as nat),
        phase_at(freq, 0) == 0,
{
    assert((index + 1) * freq == index * freq + freq) by (nonlinear_arith);
}

/// Phase of the sample after one at `phase`.
pub fn advance_phase(phase: u64, freq: u32) -> (out: u64)
    ensures
        out == (phase + freq) % (CYCLE as int),
        out < CYCLE,
{
    (phase % CYCLE + freq as u64) % CYCLE
}

} // verus!
