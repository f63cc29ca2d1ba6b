//! Melodies, and reading them from a table.
//!
//! The table is comma-separated text without a header. Each row holds up to
//! five pairs of cells, one pair per voice: a note name and a duration in
//! milliseconds.

use vstd::prelude::*;
use crate::text::{parse_decimal, parsed_u64, trimmed};

verus! {

/// Number of voices, and so of melodies in a table.
pub const VOICE_COUNT: usize = 5;

/// The notes of one voice in playing order: a name and a duration in
/// milliseconds each.
pub type Melody = Vec<(String, u64)>;

/// Why a table could not be read.
#[derive(Debug, PartialEq, Eq)]
pub enum MelodyError {
    /// The text is not a well-formed table; with what the reader says of it.
    Malformed(String),
    /// A row names a note beyond the last voice's pair.
    TooManyVoices,
}

impl MelodyError {
    /// What went wrong, in words: the reader's own message for a malformed
    /// table.
    pub fn message(&self) -> (out: String)
        ensures
            out@ == match self {
                MelodyError::Malformed(said) => said@,
                MelodyError::TooManyVoices => "a row of the melody table holds a sixth voice"@,
            },
    {
        match self {
            MelodyError::Malformed(said) => said.clone(),
            MelodyError::TooManyVoices => "a row of the melody table holds a sixth voice".to_owned(),
        }
    }
}

/// What the `csv` crate reads from `data` with default settings and no
/// header row: the rows up to the end of the text or to the first error, each
/// row as its cells, and the message of that error if there was one.
pub uninterp spec fn csv_rows(data: Seq<u8>) -> (Seq<Seq<Seq<char>>>, Option<Seq<char>>);

/// `csv::ReaderBuilder::from_reader` on a builder from
/// `csv::ReaderBuilder::new` with `has_headers(false)`, then
/// `csv::Reader::records` read to the end or to the first error, each record
/// copied cell by cell from `csv::StringRecord::iter`, the error turned into
/// its message by the `Display` of `csv::Error`. The reader works on the
/// bytes alone, and its message tells of nothing but them, so the contract
/// gives what is read the name `csv_rows`, and claims nothing else.
#[verifier::external_body]
fn read_rows(data: &[u8]) -> (out: (Vec<Vec<String>>, Option<String>))
    ensures
        out.0.deep_view() == csv_rows(data@).0,
        out.1.deep_view() == csv_rows(data@).1,
{
    let mut reader = csv::ReaderBuilder::new().has_headers(false).from_reader(data);
    let mut rows = Vec::new();
    for record in reader.records() {
        let record = match record {
            Ok(record) => record,
            Err(error) => return (rows, Some(error.to_string())),
        };
        let mut row = Vec::new();
        for cell in record.iter() {
            row.push(cell.to_string());
        }
        rows.push(row);
    }
    (rows, None)
}

/// The name in pair `pair` of a row, trimmed; empty where the row has no
/// such pair.
pub open spec fn pair_name(row: Seq<Seq<char>>, pair: int) -> Seq<char> {
    if 0 <= 2 * pair < row.len() {
        trimmed(row[2 * pair])
    } else {
        Seq::empty()
    }
}

/// The duration in pair `pair` of a row, in milliseconds; zero where the
/// row has no such cell and where the cell holds no number.
pub open spec fn pair_duration(row: Seq<Seq<char>>, pair: int) -> u64 {
    if 0 <= 2 * pair + 1 < row.len() {
        match parsed_u64(trimmed(row[2 * pair + 1])) {
            Some(millis) => millis,
            None => 0,
        }
    } else {
        0
    }
}

/// The melody of `voice` after one more row.
///
/// A pair whose name is blank is no event: the melody stays as it is,
/// whatever the pair's duration cell holds. Any other pair adds a note with
/// the pair's name and the pair's duration.
pub open spec fn melody_after_row(
    melody: Seq<(Seq<char>, u64)>,
    row: Seq<Seq<char>>,
    voice: int,
) -> Seq<(Seq<char>, u64)> {
    if pair_name(row, voice).len() > 0 {
        melody.push((pair_name(row, voice), pair_duration(row, voice)))
    } else {
        melody
    }
}

/// The melody of `voice` in a table.
pub open spec fn voice_melody(rows: Seq<Seq<Seq<char>>>, voice: int) -> Seq<(Seq<char>, u64)>
    decreases rows.len(),
{
    if rows.len() == 0 {
        Seq::empty()
    } else {
        melody_after_row(voice_melody(rows.drop_last(), voice), rows.last(), voice)
    }
}

/// The melodies of a table, one per voice.
pub open spec fn melodies_of(rows: Seq<Seq<Seq<char>>>) -> Seq<Seq<(Seq<char>, u64)>> {
    Seq::new(VOICE_COUNT as nat, |voice: int| voice_melody(rows, voice))
}

/// Whether a row keeps to the voices there are: no pair past the last
/// voice's has a name.
pub open spec fn row_fits(row: Seq<Seq<char>>) -> bool {
    forall|pair: int| VOICE_COUNT <= pair ==> (#[trigger] pair_name(row, pair)).len() == 0
}

/// Whether every row of a table keeps to the voices there are.
pub open spec fn rows_fit(rows: Seq<Seq<Seq<char>>>) -> bool {
    forall|at: int| 0 <= at < rows.len() ==> row_fits(#[trigger] rows[at])
}

/// Whether a row keeps to the voices there are.
fn row_fits_voices(row: &Vec<String>) -> (out: bool)
    ensures
        out == row_fits(row.deep_view()),
{
    let mut pair: usize = VOICE_COUNT;
    while pair < row.len() && pair < row.len() - pair
        invariant
            VOICE_COUNT <= pair,
            forall|seen: int|
                VOICE_COUNT <= seen < pair ==> (#[trigger] pair_name(row.deep_view(), seen)).len()
                    == 0,
        decreases row.len() - pair,
    {
        if !row[2 * pair].as_str().trim().is_empty() {
            assert(pair_name(row.deep_view(), pair as int).len() > 0);
            return false;
        }
        pair = pair + 1;
    }
    true
}

/// Whether every row of a table keeps to the voices there are.
pub fn fits_voices(rows: &Vec<Vec<String>>) -> (out: bool)
    ensures
        out == rows_fit(rows.deep_view()),
{
    let mut at: usize = 0;
    while at < rows.len()
        invariant
            at <= rows.len(),
            forall|earlier: int|
                0 <= earlier < at ==> row_fits(#[trigger] rows.deep_view()[earlier]),
        decreases rows.len() - at,
    {
        if !row_fits_voices(&rows[at]) {
            assert(!row_fits(rows.deep_view()[at as int]));
            return false;
        }
        at = at + 1;
    }
    true
}

/// The melody of one voice in a table.
fn melody_of_voice(rows: &Vec<Vec<String>>, voice: usize) -> (out: Melody)
    requires
        voice < VOICE_COUNT,
    ensures
        out.deep_view() == voice_melody(rows.deep_view(), voice as int),
{
    let mut melody: Melody = Vec::new();
    let mut at: usize = 0;
    while at < rows.len()
        invariant
            at <= rows.len(),
            voice < VOICE_COUNT,
            melody.deep_view() == voice_melody(rows.deep_view().take(at as int), voice as int),
        decreases rows.len() - at,
    {
        let row = &rows[at];
        assert(rows.deep_view().take(at + 1).drop_last() =~= rows.deep_view().take(at as int));
        if 2 * voice < row.len() {
            let name = row[2 * voice].as_str().trim();
            if !name.is_empty() {
                let duration_ms = if 2 * voice + 1 < row.len() {
                    match parse_decimal(row[2 * voice + 1].as_str().trim()) {
                        Some(millis) => millis,
                        None => 0,
                    }
                } else {
                    0
                };
                melody.push((name.to_owned(), duration_ms));
            }
        }
        at = at + 1;
    }
    assert(rows.deep_view().take(at as int) =~= rows.deep_view());
    melody
}

/// The five melodies of a table, one per voice.
///
/// The rows must keep to the five voices: for a note in a later pair there
/// would be no melody to put it in.
pub fn melodies_from_rows(rows: &Vec<Vec<String>>) -> (out: Vec<Melody>)
    requires
        rows_fit(rows.deep_view()),
    ensures
        out.deep_view() == melodies_of(rows.deep_view()),
        out.len() == VOICE_COUNT,
{
    let mut melodies: Vec<Melody> = Vec::new();
    let mut voice: usize = 0;
    while voice < VOICE_COUNT
        invariant
            voice <= VOICE_COUNT,
            melodies.len() == voice,
            forall|earlier: int|
                0 <= earlier < voice ==> (#[trigger] melodies[earlier]).deep_view() == voice_melody(
                    rows.deep_view(),
                    earlier,
                ),
        decreases VOICE_COUNT - voice,
    {
        let melody = melody_of_voice(rows, voice);
        melodies.push(melody);
        voice = voice + 1;
    }
    melodies
}

/// Reads the five melodies from the text of a table.
///
/// The rows are taken one after the other, and the first that cannot be
/// taken decides the error: a row that names a note beyond the fifth pair,
/// or the place where the text stops being a well-formed table, with the
/// reader's message of it.
pub fn parse_melodies(data: &[u8]) -> (out: Result<Vec<Melody>, MelodyError>)
    ensures
        ({
            let (rows, failure) = csv_rows(data@);
            if !rows_fit(rows) {
                out matches Err(MelodyError::TooManyVoices)
            } else {
                match failure {
                    Some(said) => out matches Err(MelodyError::Malformed(message)) && message@
                        == said,
                    None => out matches Ok(melodies) && melodies.deep_view() == melodies_of(rows)
                        && melodies.len() == VOICE_COUNT,
                }
            }
        }),
{
    let (rows, failure) = read_rows(data);
    if !fits_voices(&rows) {
        Err(MelodyError::TooManyVoices)
    } else {
        match failure {
            Some(message) => Err(MelodyError::Malformed(message)),
            None => Ok(melodies_from_rows(&rows)),
        }
    }
}

} // verus!
