//! The frequency table: which note name stands for which frequency.

use vstd::prelude::*;

verus! {

/// The frequency of the first entry of `entries` that has the name `name`.
pub open spec fn lookup(entries: Seq<(Seq<char>, u32)>, name: Seq<char>) -> Option<u32>
    decreases entries.len(),
{
    if entries.len() == 0 {
        None
    } else if entries[0].0 == name {
        Some(entries[0].1)
    } else {
        lookup(entries.drop_first(), name)
    }
}

/// Note names and their frequencies in millihertz.
#[derive(Debug)]
pub struct FrequencyTable {
    entries: Vec<(String, u32)>,
}

impl View for FrequencyTable {
    type V = Seq<(Seq<char>, u32)>;

    closed spec fn view(&self) -> Seq<(Seq<char>, u32)> {
        self.entries.deep_view()
    }
}

impl Clone for FrequencyTable {
    /// A table with the same entries in the same order.
    fn clone(&self) -> (out: FrequencyTable)
        ensures
            out@ == self@,
    {
        let mut entries: Vec<(String, u32)> = Vec::new();
        let mut at: usize = 0;
        while at < self.entries.len()
            invariant
                at <= self.entries.len(),
                entries.deep_view() == self.entries.deep_view().take(at as int),
            decreases self.entries.len() - at,
        {
            let name = self.entries[at].0.clone();
            entries.push((name, self.entries[at].1));
            assert(entries.deep_view() =~= self.entries.deep_view().take(at as int).push(
                self.entries.deep_view()[at as int],
            ));
            at = at + 1;
        }
        FrequencyTable { entries }
    }
}

impl FrequencyTable {
    /// A table that knows no note.
    pub fn new() -> (out: FrequencyTable)
        ensures
            out@ == Seq::<(Seq<char>, u32)>::empty(),
    {
        FrequencyTable { entries: Vec::new() }
    }

    /// Adds an entry after those that are there. Where a name occurs twice,
    /// the earlier entry is the one that counts.
    pub fn push(&mut self, name: &str, millihertz: u32)
        ensures
            final(self)@ == old(self)@.push((name@, millihertz)),
    {
        self.entries.push((name.to_owned(), millihertz));
    }

    /// The frequency of the note called `name`, if the table knows it.
    pub fn frequency(&self, name: &str) -> (out: Option<u32>)
        ensures
            out == lookup(self@, name@),
    {
        let wanted = name.to_owned();
        let mut at: usize = 0;
        assert(self@.skip(0) =~= self@);
        while at < self.entries.len()
            invariant
                at <= self.entries.len(),
                wanted@ == name@,
                lookup(self@, name@) == lookup(self@.skip(at as int), name@),
            decreases self.entries.len() - at,
        {
            assert(self@.skip(at as int).drop_first() =~= self@.skip(at + 1));
            if self.entries[at].0 == wanted {
                return Some(self.entries[at].1);
            }
            at = at + 1;
        }
        None
    }
}

} // verus!
