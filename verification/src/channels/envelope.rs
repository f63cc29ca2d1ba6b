//! The ramp that fades every note in, so that it does not start with a click.

use vstd::prelude::*;
use crate::level::{Level, Ratio};

verus! {

/// Length of the ramp in milliseconds.
pub const RAMP_MS: u64 = 20;

/// Number of samples after which the ramp is over: the least `n` with
/// `n / sample_rate >= RAMP_MS / 1000`.
pub open spec fn ramp_length(sample_rate: nat) -> nat {
    ((RAMP_MS * sample_rate + 999) / 1000) as nat
}

/// Whether `elapsed` samples at `sample_rate` cover the whole ramp.
pub open spec fn ramp_complete(elapsed: nat, sample_rate: nat) -> bool {
    1000 * elapsed >= RAMP_MS * sample_rate
}

/// Amplitude after `elapsed` samples at `sample_rate`.
///
/// With `t = elapsed / sample_rate` seconds this is `t / 0.02` while
/// `t < 0.02`, and `1` from then on; both are written over the denominator
/// `RAMP_MS * sample_rate`.
pub open spec fn ramp_amplitude(elapsed: nat, sample_rate: nat) -> Ratio {
    Ratio {
        num: if ramp_complete(elapsed, sample_rate) {
            RAMP_MS * sample_rate
        } else {
            1000 * elapsed as int
        },
        den: RAMP_MS * sample_rate,
    }
}

/// After `elapsed` samples, `t = elapsed / sample_rate` seconds have gone by.
/// While `t < 0.02` the amplitude is `t / 0.02`, which is
/// `50 * elapsed / sample_rate`; from `t = 0.02` on, which is from
/// `ramp_length` samples on, it is exactly one.
pub proof fn lemma_ramp_value(elapsed: nat, sample_rate: nat)
    requires
        sample_rate > 0,
    ensures
        ramp_complete(elapsed, sample_rate) <==> 50 * elapsed >= sample_rate,
        ramp_complete(elapsed, sample_rate) <==> elapsed >= ramp_length(sample_rate),
        !ramp_complete(elapsed, sample_rate) ==> ramp_amplitude(elapsed, sample_rate).same(
            Ratio { num: 50 * elapsed as int, den: sample_rate as int },
        ),
        ramp_complete(elapsed, sample_rate) ==> ramp_amplitude(elapsed, sample_rate).num
            == ramp_amplitude(elapsed, sample_rate).den,
{
    assert((1000 * elapsed) * sample_rate == (50 * elapsed) * (RAMP_MS * sample_rate))
        by (nonlinear_arith);
}

/// The amplitude never decreases as time goes on, and it stays in `[0, 1]`.
pub proof fn lemma_ramp_monotonic(earlier: nat, later: nat, sample_rate: nat)
    requires
        earlier <= later,
        sample_rate > 0,
    ensures
        ramp_amplitude(earlier, sample_rate).le(ramp_amplitude(later, sample_rate)),
        ramp_amplitude(earlier, sample_rate).wf(),
        0 <= ramp_amplitude(earlier, sample_rate).num <= ramp_amplitude(earlier, sample_rate).den,
{
    let a = ramp_amplitude(earlier, sample_rate);
    let b = ramp_amplitude(later, sample_rate);
    assert(a.num * b.den <= b.num * a.den) by (nonlinear_arith)
        requires
            a.den == b.den,
            a.den > 0,
            a.num <= b.num,
    ;
}

/// Amplitude after `elapsed_samples` samples at `sample_rate`.
pub fn amplitude_at(elapsed_samples: u64, sample_rate: u32) -> (out: Level)
    requires
        sample_rate > 0,
    ensures
        out@ == ramp_amplitude(elapsed_samples as nat, sample_rate as nat),
{
    let full: u64 = RAMP_MS * (sample_rate as u64);
    if elapsed_samples >= full || 1000 * elapsed_samples >= full {
        Level { num: full as i64, den: full as i64 }
    } else {
        Level { num: (1000 * elapsed_samples) as i64, den: full as i64 }
    }
}

/// What an [`Envelope`] has counted after `elapsed` samples: it stops
/// counting once the ramp is over.
pub open spec fn ramp_progress(elapsed: nat, sample_rate: nat) -> nat {
    if elapsed < ramp_length(sample_rate) {
        elapsed
    } else {
        ramp_length(sample_rate)
    }
}

/// Counting only up to the end of the ramp loses nothing: the amplitude is
/// the same.
pub proof fn lemma_ramp_progress(elapsed: nat, sample_rate: nat)
    ensures
        ramp_amplitude(ramp_progress(elapsed, sample_rate), sample_rate) == ramp_amplitude(
            elapsed,
            sample_rate,
        ),
        ramp_progress(elapsed + 1, sample_rate) == if ramp_complete(
            ramp_progress(elapsed, sample_rate),
            sample_rate,
        ) {
            ramp_progress(elapsed, sample_rate)
        } else {
            ramp_progress(elapsed, sample_rate) + 1
        },
{
}

/// The ramp of one note: how far it has come, and the amplitude there.
///
/// A fresh envelope stands at amplitude zero. Each sample advances it by one
/// step until the amplitude reaches one; from then on it stays there.
pub struct Envelope {
    sample_rate: u32,
    progress: u32,
    amplitude: Level,
    ramping: bool,
}

impl Envelope {
    /// The fields agree with each other: the amplitude and the latch are
    /// those of the number of samples counted.
    pub closed spec fn wf(&self) -> bool {
        &&& self.sample_rate > 0
        &&& self.progress <= ramp_length(self.sample_rate as nat)
        &&& self.ramping == !ramp_complete(self.progress as nat, self.sample_rate as nat)
        &&& self.amplitude@ == ramp_amplitude(self.progress as nat, self.sample_rate as nat)
    }

    /// Samples per second.
    pub closed spec fn rate(&self) -> nat {
        self.sample_rate as nat
    }

    /// Samples counted so far; the count stops at `ramp_length`.
    pub closed spec fn elapsed(&self) -> nat {
        self.progress as nat
    }

    /// An envelope at the start of a note.
    pub fn new(sample_rate: u32) -> (out: Envelope)
        requires
            sample_rate > 0,
        ensures
            out.wf(),
            out.rate() == sample_rate,
            out.elapsed() == 0,
    {
        Envelope {
            sample_rate,
            progress: 0,
            amplitude: Level { num: 0, den: (RAMP_MS * (sample_rate as u64)) as i64 },
            ramping: true,
        }
    }

    /// Advances the ramp by one sample, unless it is already over.
    pub fn apply_ramp_up(&mut self)
        requires
            old(self).wf(),
        ensures
            final(self).wf(),
            final(self).rate() == old(self).rate(),
            final(self).elapsed() == if ramp_complete(old(self).elapsed(), old(self).rate()) {
                old(self).elapsed()
            } else {
                old(self).elapsed() + 1
            },
    {
        if self.ramping {
            let full: u64 = RAMP_MS * (self.sample_rate as u64);
            self.progress = self.progress + 1;
            let reached: u64 = 1000 * (self.progress as u64);
            if reached >= full {
                self.ramping = false;
                self.amplitude = Level { num: full as i64, den: full as i64 };
            } else {
                self.amplitude = Level { num: reached as i64, den: full as i64 };
            }
        }
    }

    /// The current amplitude.
    pub fn amplitude(&self) -> (out: Level)
        requires
            self.wf(),
        ensures
            out@ == ramp_amplitude(self.elapsed(), self.rate()),
            out@.wf(),
            0 <= out.num <= out.den,
            out.den == RAMP_MS * self.rate(),
    {
        self.amplitude
    }

    /// Whether the amplitude is still rising.
    pub fn is_ramping_up(&self) -> (out: bool)
        requires
            self.wf(),
        ensures
            out == !ramp_complete(self.elapsed(), self.rate()),
    {
        self.ramping
    }
}

} // verus!
