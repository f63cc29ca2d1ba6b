//! The two operations on text that reading a melody needs: trimming a cell
//! and reading a decimal number.

use vstd::prelude::*;

verus! {

/// Whether `c` is white space as Unicode defines it (`White_Space`).
pub open spec fn is_white_space(c: char) -> bool {
    let code = c as u32;
    ||| 0x09 <= code <= 0x0d
    ||| code == 0x20
    ||| code == 0x85
    ||| code == 0xa0
    ||| code == 0x1680
    ||| 0x2000 <= code <= 0x200a
    ||| code == 0x2028
    ||| code == 0x2029
    ||| code == 0x202f
    ||| code == 0x205f
    ||| code == 0x3000
}

/// `text` without the white space at its start.
pub open spec fn trim_start(text: Seq<char>) -> Seq<char>
    decreases text.len(),
{
    if text.len() > 0 && is_white_space(text[0]) {
        trim_start(text.drop_first())
    } else {
        text
    }
}

/// `text` without the white space at its end.
pub open spec fn trim_end(text: Seq<char>) -> Seq<char>
    decreases text.len(),
{
    if text.len() > 0 && is_white_space(text.last()) {
        trim_end(text.drop_last())
    } else {
        text
    }
}

/// `text` without the white space at its start and at its end.
pub open spec fn trimmed(text: Seq<char>) -> Seq<char> {
    trim_end(trim_start(text))
}

/// Whether `c` is one of the ten ASCII digits.
pub open spec fn is_digit(c: char) -> bool {
    0x30 <= c as u32 <= 0x39
}

/// The number that a sequence of ASCII digits writes in base ten.
pub open spec fn digits_value(digits: Seq<char>) -> nat
    decreases digits.len(),
{
    if digits.len() == 0 {
        0
    } else {
        (10 * digits_value(digits.drop_last()) + (digits.last() as u32 - 0x30)) as nat
    }
}

/// Whether every character of `text` is an ASCII digit.
pub open spec fn all_digits(text: Seq<char>) -> bool {
    forall|at: int| 0 <= at < text.len() ==> is_digit(#[trigger] text[at])
}

/// `text` without the `+` that may stand at its start.
pub open spec fn unsigned_part(text: Seq<char>) -> Seq<char> {
    if text.len() > 0 && text[0] == '+' {
        text.drop_first()
    } else {
        text
    }
}

/// The number that `text` writes, if it writes one that fits in 64 bits: an
/// optional `+`, then at least one ASCII digit, and nothing else.
pub open spec fn parsed_u64(text: Seq<char>) -> Option<u64> {
    let digits = unsigned_part(text);
    if digits.len() > 0 && all_digits(digits) && digits_value(digits) <= u64::MAX {
        Some(digits_value(digits) as u64)
    } else {
        None
    }
}

/// `str::trim` of the standard library. Its documentation says that it
/// returns the slice without leading and trailing white space, where white
/// space is what Unicode defines as `White_Space`; the contract says
/// the same over `trimmed`.
pub assume_specification<'a>[ str::trim ](text: &'a str) -> (out: &'a str)
    ensures
        out@ == trimmed(text@),
;

/// `str::parse::<u64>` of the standard library, with its error dropped. Its
/// documentation expects an optional `+` sign followed by only decimal
/// digits, and reports an error for an empty string, for any other
/// character and for a number that does not fit; the contract says the same
/// over `parsed_u64`.
#[verifier::external_body]
pub(crate) fn parse_decimal(text: &str) -> (out: Option<u64>)
    ensures
        out == parsed_u64(text@),
{
    text.parse::<u64>().ok()
}

} // verus!
