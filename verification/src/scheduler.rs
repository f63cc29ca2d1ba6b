//! The scheduler of one voice: which note to play next, and for how long.
//!
//! A scheduler starts out idle. When it is advanced it looks for the next
//! note that can be played, starts an oscillator for it and is playing, or
//! finds none and is finished. When the note has run its time the scheduler
//! is idle again, and can be advanced to the note after it. A note whose name
//! the frequency table does not know is passed over, and so is a note of
//! duration zero: no oscillator is made for it and no time goes by.
//!
//! The scheduler decides; it neither plays nor waits. Its caller plays the
//! oscillator of each action for the action's duration, and tells the
//! scheduler when that time is over.

use vstd::prelude::*;
use crate::level::{Level, Ratio};
use crate::melody::Melody;
use crate::notes::{lookup, FrequencyTable};
use crate::voice::{Oscillator, Voice};

verus! {

/// Where a scheduler stands.
#[derive(Clone, Copy, Debug, PartialEq, Eq)]
pub enum Stage {
    /// No note is playing.
    Idle,
    /// A note is playing.
    Playing,
    /// The melody is over.
    Finished,
}

/// What the caller of a scheduler has to do next.
pub enum Action {
    /// Play `oscillator` for `duration_ms` milliseconds, every sample scaled
    /// by `gain`, and come back when that time is over.
    Play { oscillator: Oscillator, duration_ms: u64, gain: Level },
    /// Nothing: the melody is over.
    Finished,
}

/// The factor by which every sample is scaled, so that the voices together
/// do not clip: one tenth.
pub fn gain() -> (out: Level)
    ensures
        out@ == (Ratio { num: 1, den: 10 }),
{
    Level { num: 1, den: 10 }
}

/// Whether a note is played: its duration is not zero and the table knows
/// its name.
pub open spec fn playable(note: (Seq<char>, u64), table: Seq<(Seq<char>, u32)>) -> bool {
    note.1 > 0 && lookup(table, note.0) is Some
}

/// The first note from `from` on that is played; the melody's length if
/// there is none.
pub open spec fn next_playable(
    melody: Seq<(Seq<char>, u64)>,
    table: Seq<(Seq<char>, u32)>,
    from: int,
) -> int
    decreases melody.len() - from,
{
    if from >= melody.len() {
        melody.len() as int
    } else if from >= 0 && playable(melody[from], table) {
        from
    } else {
        next_playable(melody, table, from + 1)
    }
}

/// Milliseconds for which the first `upto` notes of a melody play: the sum
/// of the durations of those that are played.
pub open spec fn played_ms(
    melody: Seq<(Seq<char>, u64)>,
    table: Seq<(Seq<char>, u32)>,
    upto: int,
) -> nat
    decreases upto,
{
    if upto <= 0 {
        0
    } else {
        played_ms(melody, table, upto - 1) + if playable(melody[upto - 1], table) {
            melody[upto - 1].1 as nat
        } else {
            0
        }
    }
}

/// Number of oscillators that the first `upto` notes of a melody take: the
/// number of those that are played.
pub open spec fn played_notes(
    melody: Seq<(Seq<char>, u64)>,
    table: Seq<(Seq<char>, u32)>,
    upto: int,
) -> nat
    decreases upto,
{
    if upto <= 0 {
        0
    } else {
        played_notes(melody, table, upto - 1) + if playable(melody[upto - 1], table) {
            1nat
        } else {
            0
        }
    }
}

/// Sum of the durations of the first `upto` notes of a melody, in
/// milliseconds.
pub open spec fn written_ms(melody: Seq<(Seq<char>, u64)>, upto: int) -> nat
    decreases upto,
{
    if upto <= 0 {
        0
    } else {
        written_ms(melody, upto - 1) + melody[upto - 1].1 as nat
    }
}

/// The notes before the next one that is played add neither time nor an
/// oscillator.
pub proof fn lemma_passed_over(
    melody: Seq<(Seq<char>, u64)>,
    table: Seq<(Seq<char>, u32)>,
    from: int,
)
    requires
        0 <= from <= melody.len(),
    ensures
        from <= next_playable(melody, table, from) <= melody.len(),
        next_playable(melody, table, from) < melody.len() ==> playable(
            melody[next_playable(melody, table, from)],
            table,
        ),
        played_ms(melody, table, next_playable(melody, table, from)) == played_ms(
            melody,
            table,
            from,
        ),
        played_notes(melody, table, next_playable(melody, table, from)) == played_notes(
            melody,
            table,
            from,
        ),
    decreases melody.len() - from,
{
    if from < melody.len() && !playable(melody[from], table) {
        lemma_passed_over(melody, table, from + 1);
    }
}

/// Every note adds at most its 64 bits of duration and at most one
/// oscillator, so that the counters of a scheduler cannot overflow.
proof fn lemma_played_bounds(
    melody: Seq<(Seq<char>, u64)>,
    table: Seq<(Seq<char>, u32)>,
    upto: int,
)
    requires
        0 <= upto <= melody.len(),
    ensures
        played_ms(melody, table, upto) <= upto * u64::MAX,
        played_notes(melody, table, upto) <= upto,
    decreases upto,
{
    if upto > 0 {
        lemma_played_bounds(melody, table, upto - 1);
    }
}

/// Round trip: the durations written in a melody add up to the time for
/// which the voice has oscillators played, exactly where every note whose
/// duration is not zero has a name that the table knows. A note with an
/// unknown name is the one thing that makes the voice play for less.
pub proof fn lemma_round_trip(
    melody: Seq<(Seq<char>, u64)>,
    table: Seq<(Seq<char>, u32)>,
    upto: int,
)
    requires
        0 <= upto <= melody.len(),
    ensures
        played_ms(melody, table, upto) <= written_ms(melody, upto),
        played_ms(melody, table, upto) == written_ms(melody, upto) <==> forall|at: int|
            0 <= at < upto && (#[trigger] melody[at]).1 > 0 ==> lookup(table, melody[at].0) is Some,
    decreases upto,
{
    if upto > 0 {
        lemma_round_trip(melody, table, upto - 1);
    }
}

/// The scheduler of one voice.
pub struct VoiceScheduler {
    voice: Voice,
    melody: Melody,
    table: FrequencyTable,
    cursor: usize,
    stage: Stage,
    elapsed_ms: u128,
    started: usize,
}

impl VoiceScheduler {
    /// The counters are those of the notes gone through, and the stage fits
    /// them.
    pub closed spec fn wf(&self) -> bool {
        &&& self.voice.wf()
        &&& self.cursor <= self.melody.len()
        &&& self.elapsed_ms == played_ms(self.melody.deep_view(), self.table@, self.cursor as int)
        &&& self.started == played_notes(
            self.melody.deep_view(),
            self.table@,
            self.cursor as int,
        )
        &&& self.stage is Playing ==> self.cursor > 0 && playable(
            self.melody.deep_view()[self.cursor - 1],
            self.table@,
        )
        &&& self.stage is Finished ==> self.cursor == self.melody.len()
    }

    /// The voice that plays the melody.
    pub closed spec fn voice(&self) -> Voice {
        self.voice
    }

    /// The melody.
    pub closed spec fn melody(&self) -> Seq<(Seq<char>, u64)> {
        self.melody.deep_view()
    }

    /// The frequency table.
    pub closed spec fn table(&self) -> Seq<(Seq<char>, u32)> {
        self.table@
    }

    /// Number of notes gone through: played or passed over.
    pub closed spec fn cursor(&self) -> int {
        self.cursor as int
    }

    /// Where the scheduler stands.
    pub closed spec fn current_stage(&self) -> Stage {
        self.stage
    }

    /// The note that is played next: the first that is played among those
    /// not yet gone through; the melody's length if there is none.
    pub open spec fn upcoming(&self) -> int {
        next_playable(self.melody(), self.table(), self.cursor())
    }

    /// Milliseconds for which oscillators have been started so far: the
    /// durations of the notes played, the one that is playing included.
    pub open spec fn time_played(&self) -> nat {
        played_ms(self.melody(), self.table(), self.cursor())
    }

    /// Number of oscillators made so far.
    pub open spec fn notes_played(&self) -> nat {
        played_notes(self.melody(), self.table(), self.cursor())
    }

    /// A playing scheduler has just gone through a note that is played, and
    /// a finished one has gone through all notes.
    pub proof fn lemma_stage(&self)
        requires
            self.wf(),
        ensures
            0 <= self.cursor() <= self.melody().len(),
            self.current_stage() is Playing ==> self.cursor() > 0 && playable(
                self.melody()[self.cursor() - 1],
                self.table(),
            ),
            self.current_stage() is Finished ==> self.cursor() == self.melody().len(),
    {
    }

    /// A scheduler at the start of `melody`: idle, with no time gone by and
    /// no oscillator made.
    pub fn new(voice: Voice, melody: Melody, table: FrequencyTable) -> (out: VoiceScheduler)
        requires
            voice.wf(),
        ensures
            out.wf(),
            out.voice() == voice,
            out.melody() == melody.deep_view(),
            out.table() == table@,
            out.cursor() == 0,
            out.current_stage() == Stage::Idle,
    {
        VoiceScheduler {
            voice,
            melody,
            table,
            cursor: 0,
            stage: Stage::Idle,
            elapsed_ms: 0,
            started: 0,
        }
    }

    /// The note that was playing has run its time: a playing scheduler is
    /// idle again. An idle or finished scheduler stays as it is.
    pub fn expire(&mut self)
        requires
            old(self).wf(),
        ensures
            final(self).wf(),
            final(self).voice() == old(self).voice(),
            final(self).melody() == old(self).melody(),
            final(self).table() == old(self).table(),
            final(self).cursor() == old(self).cursor(),
            final(self).current_stage() == if old(self).current_stage() is Playing {
                Stage::Idle
            } else {
                old(self).current_stage()
            },
    {
        match self.stage {
            Stage::Playing => {
                self.stage = Stage::Idle;
            },
            _ => {},
        }
    }

    /// Goes on to the next note that is played, or to the end of the melody.
    ///
    /// The notes up to the next one that is played are passed over. For that
    /// note the action holds a fresh oscillator of the voice at the note's
    /// frequency, with the note's duration; the scheduler is then playing,
    /// and the duration is added to the time played. Where no note is left
    /// to play the scheduler is finished, and stays so. A scheduler that is
    /// advanced while it is playing goes on as if its note had run its time.
    pub fn advance(&mut self) -> (out: Action)
        requires
            old(self).wf(),
        ensures
            final(self).wf(),
            final(self).voice() == old(self).voice(),
            final(self).melody() == old(self).melody(),
            final(self).table() == old(self).table(),
            match out {
                Action::Play { oscillator, duration_ms, gain } => {
                    let at = old(self).upcoming();
                    let note = old(self).melody()[at];
                    &&& at < old(self).melody().len()
                    &&& final(self).cursor() == at + 1
                    &&& final(self).current_stage() == Stage::Playing
                    &&& final(self).time_played() == old(self).time_played() + note.1
                    &&& final(self).notes_played() == old(self).notes_played() + 1
                    &&& duration_ms == note.1
                    &&& gain@ == (Ratio { num: 1, den: 10 })
                    &&& oscillator.wf()
                    &&& oscillator.position() == 0
                    &&& oscillator.plays(old(self).voice(), lookup(old(self).table(), note.0)->0)
                },
                Action::Finished => {
                    &&& old(self).upcoming() == old(self).melody().len()
                    &&& final(self).cursor() == old(self).melody().len()
                    &&& final(self).current_stage() == Stage::Finished
                    &&& final(self).time_played() == old(self).time_played()
                    &&& final(self).notes_played() == old(self).notes_played()
                },
            },
    {
        proof {
            lemma_passed_over(self.melody.deep_view(), self.table@, self.cursor as int);
        }
        while self.cursor < self.melody.len()
            invariant
                old(self).wf(),
                self.voice == old(self).voice,
                self.melody == old(self).melody,
                self.table == old(self).table,
                old(self).cursor <= self.cursor <= self.melody.len(),
                self.upcoming() == old(self).upcoming(),
                self.elapsed_ms == old(self).elapsed_ms,
                self.elapsed_ms == self.time_played(),
                self.started == old(self).started,
                self.started == self.notes_played(),
            decreases self.melody.len() - self.cursor,
        {
            let at = self.cursor;
            let duration_ms = self.melody[at].1;
            let resolved = self.table.frequency(self.melody[at].0.as_str());
            proof {
                lemma_played_bounds(self.melody.deep_view(), self.table@, at as int);
                assert(at * u64::MAX <= usize::MAX * u64::MAX) by (nonlinear_arith)
                    requires
                        at <= usize::MAX,
                ;
                assert(usize::MAX * u64::MAX <= u64::MAX * u64::MAX) by (nonlinear_arith);
            }
            self.cursor = at + 1;
            match resolved {
                Some(freq) => {
                    if duration_ms > 0 {
                        self.elapsed_ms = self.elapsed_ms + duration_ms as u128;
                        self.started = self.started + 1;
                        self.stage = Stage::Playing;
                        return Action::Play {
                            oscillator: self.voice.oscillator(freq),
                            duration_ms,
                            gain: gain(),
                        };
                    }
                },
                None => {},
            }
        }
        self.stage = Stage::Finished;
        Action::Finished
    }

    /// Where the scheduler stands.
    pub fn stage(&self) -> (out: Stage)
        ensures
            out == self.current_stage(),
    {
        self.stage
    }

    /// Whether the melody is over.
    pub fn is_finished(&self) -> (out: bool)
        ensures
            out == (self.current_stage() is Finished),
    {
        match self.stage {
            Stage::Finished => true,
            _ => false,
        }
    }

    /// Milliseconds for which oscillators have been started so far: the
    /// durations of the notes played, the one that is playing included.
    pub fn elapsed_ms(&self) -> (out: u128)
        requires
            self.wf(),
        ensures
            out == self.time_played(),
    {
        self.elapsed_ms
    }

    /// Number of oscillators made so far.
    pub fn oscillators_started(&self) -> (out: usize)
        requires
            self.wf(),
        ensures
            out == self.notes_played(),
    {
        self.started
    }
}

} // verus!
