use chipsynth::melody::{
    fits_voices, melodies_from_rows, parse_melodies, Melody, MelodyError, VOICE_COUNT,
};

fn note(name: &str, duration_ms: u64) -> (String, u64) {
    (name.to_string(), duration_ms)
}

fn row(cells: &[&str]) -> Vec<String> {
    cells.iter().map(|cell| cell.to_string()).collect()
}

fn empty() -> Melody {
    Vec::new()
}

#[test]
fn five_voices() {
    assert_eq!(VOICE_COUNT, 5);
}

#[test]
fn parses_a_row_with_two_voices() {
    let melodies = parse_melodies(b"A4,500,,,C4,250,,,,,\n").unwrap();
    assert_eq!(melodies.len(), 5);
    assert_eq!(melodies[0], vec![note("A4", 500)]);
    assert_eq!(melodies[1], empty());
    assert_eq!(melodies[2], vec![note("C4", 250)]);
    assert_eq!(melodies[3], empty());
    assert_eq!(melodies[4], empty());
}

#[test]
fn parses_an_empty_table() {
    let melodies = parse_melodies(b"").unwrap();
    assert_eq!(melodies, vec![empty(), empty(), empty(), empty(), empty()]);
}

#[test]
fn parses_rows_in_order() {
    let text = b"A4,100,,,,,E4,400,G2,50\nB4,200,C3,300,,,,,,\n,,D3,600,F5,700,,,A1,25\n";
    let melodies = parse_melodies(text).unwrap();
    assert_eq!(melodies[0], vec![note("A4", 100), note("B4", 200)]);
    assert_eq!(melodies[1], vec![note("C3", 300), note("D3", 600)]);
    assert_eq!(melodies[2], vec![note("F5", 700)]);
    assert_eq!(melodies[3], vec![note("E4", 400)]);
    assert_eq!(melodies[4], vec![note("G2", 50), note("A1", 25)]);
}

#[test]
fn the_first_row_is_no_header() {
    let melodies = parse_melodies(b"note,duration\nA4,100\n").unwrap();
    assert_eq!(melodies[0], vec![note("note", 0), note("A4", 100)]);
}

#[test]
fn trims_names_and_durations() {
    let melodies = parse_melodies(b"  A4 , 500 ,\tC4\t,\t250\n").unwrap();
    assert_eq!(melodies[0], vec![note("A4", 500)]);
    assert_eq!(melodies[1], vec![note("C4", 250)]);
    let melodies = parse_melodies("\u{3000}A4\u{a0},\u{2003}7\u{85}\n".as_bytes()).unwrap();
    assert_eq!(melodies[0], vec![note("A4", 7)]);
    let melodies = parse_melodies("A 4,1\n\u{200b}B4,2\n".as_bytes()).unwrap();
    assert_eq!(melodies[0], vec![note("A 4", 1), note("\u{200b}B4", 2)]);
}

#[test]
fn a_blank_name_adds_no_note() {
    let melodies = parse_melodies(b"   ,500\n").unwrap();
    assert_eq!(melodies[0], empty());
}

#[test]
fn a_duration_that_is_no_number_is_ignored() {
    let text = b"A4,abc\nB4,-5\nC4,\nD4,1.5\nE4,1_000\nF4,0x10\nG4,+\n";
    let melodies = parse_melodies(text).unwrap();
    assert_eq!(
        melodies[0],
        vec![
            note("A4", 0),
            note("B4", 0),
            note("C4", 0),
            note("D4", 0),
            note("E4", 0),
            note("F4", 0),
            note("G4", 0),
        ]
    );
}

#[test]
fn a_duration_may_carry_a_plus_sign_and_leading_zeros() {
    let melodies = parse_melodies(b"A4,+5\nB4,007\nC4,0\nD4,++5\nE4,+-5\n").unwrap();
    assert_eq!(
        melodies[0],
        vec![note("A4", 5), note("B4", 7), note("C4", 0), note("D4", 0), note("E4", 0)]
    );
}

#[test]
fn a_duration_must_fit_in_64_bits() {
    let melodies =
        parse_melodies(b"A4,18446744073709551615\nB4,18446744073709551616\n").unwrap();
    assert_eq!(melodies[0], vec![note("A4", u64::MAX), note("B4", 0)]);
}

#[test]
fn a_duration_without_a_name_changes_nothing() {
    let melodies = parse_melodies(b"A4,500\n,300\n").unwrap();
    assert_eq!(melodies[0], vec![note("A4", 500)]);
    let melodies = parse_melodies(b"A4,500\n   ,300\n,later\nB4,7\n,9\n").unwrap();
    assert_eq!(melodies[0], vec![note("A4", 500), note("B4", 7)]);
    let melodies = parse_melodies(b"A4,,C4,5\n,300,,\n").unwrap();
    assert_eq!(melodies[0], vec![note("A4", 0)]);
    assert_eq!(melodies[1], vec![note("C4", 5)]);
}

#[test]
fn a_duration_belongs_to_the_name_of_its_own_pair() {
    let melodies = parse_melodies(b"A4,abc,C4,250\n").unwrap();
    assert_eq!(melodies[0], vec![note("A4", 0)]);
    assert_eq!(melodies[1], vec![note("C4", 250)]);
    let melodies = parse_melodies(b"A4,100,,200,C4,300\n").unwrap();
    assert_eq!(melodies[0], vec![note("A4", 100)]);
    assert_eq!(melodies[1], empty());
    assert_eq!(melodies[2], vec![note("C4", 300)]);
}

#[test]
fn a_duration_before_any_note_is_dropped() {
    let melodies = parse_melodies(b",250\nA4,\n").unwrap();
    assert_eq!(melodies[0], vec![note("A4", 0)]);
}

#[test]
fn a_row_may_end_after_a_name() {
    let melodies = parse_melodies(b"A4,100,C4\n").unwrap();
    assert_eq!(melodies[0], vec![note("A4", 100)]);
    assert_eq!(melodies[1], vec![note("C4", 0)]);
}

#[test]
fn quoted_cells_are_unquoted() {
    let melodies = parse_melodies(b"\"A4\",\"500\"\n\"B,4\",\"1\"\n").unwrap();
    assert_eq!(melodies[0], vec![note("A4", 500), note("B,4", 1)]);
}

fn malformed(said: &str) -> Result<Vec<Melody>, MelodyError> {
    Err(MelodyError::Malformed(said.to_string()))
}

#[test]
fn rows_of_unequal_length_are_malformed() {
    assert_eq!(
        parse_melodies(b"A4,500\nC4\n"),
        malformed(
            "CSV error: record 1 (line: 2, byte: 7): \
             found record with 1 fields, but the previous record has 2 fields"
        )
    );
    assert_eq!(
        parse_melodies(b"A4\nC4,100\n"),
        malformed(
            "CSV error: record 1 (line: 2, byte: 3): \
             found record with 2 fields, but the previous record has 1 fields"
        )
    );
}

#[test]
fn text_that_is_not_utf8_is_malformed() {
    assert_eq!(
        parse_melodies(b"A4,500\n\xff\xfe,100\n"),
        malformed(
            "CSV parse error: record 1 (line 2, field: 0, byte: 7): \
             invalid utf-8: invalid UTF-8 in field 0 near byte index 0"
        )
    );
}

#[test]
fn nameless_pairs_past_the_fifth_are_accepted() {
    let melodies = parse_melodies(b"A4,1,,,,,,,,,  ,x,,-1\n").unwrap();
    assert_eq!(melodies[0], vec![note("A4", 1)]);
    assert_eq!(melodies[4], empty());
    let melodies = parse_melodies(b",,,,,,,,,,,7,\t,8\n").unwrap();
    assert_eq!(melodies, vec![empty(), empty(), empty(), empty(), empty()]);
}

#[test]
fn a_sixth_voice_is_refused() {
    assert_eq!(parse_melodies(b"a,1,b,2,c,3,d,4,e,5,f\n"), Err(MelodyError::TooManyVoices));
    assert_eq!(parse_melodies(b",,,,,,,,,,x,7\n"), Err(MelodyError::TooManyVoices));
    assert_eq!(parse_melodies(b",,,,,,,,,,,,,,,,,,,, z \n"), Err(MelodyError::TooManyVoices));
    assert_eq!(
        parse_melodies(b"A4,1,,,,,,,,,,,,\nA4,1,,,,,,,,,,,G1,\n"),
        Err(MelodyError::TooManyVoices)
    );
}

#[test]
fn error_messages() {
    assert_eq!(MelodyError::Malformed("line 3".to_string()).message(), "line 3");
    assert_eq!(MelodyError::Malformed(String::new()).message(), "");
    let error = parse_melodies(b"A4,500\nC4\n").unwrap_err();
    assert_eq!(
        error.message(),
        "CSV error: record 1 (line: 2, byte: 7): \
         found record with 1 fields, but the previous record has 2 fields"
    );
    assert_eq!(
        MelodyError::TooManyVoices.message(),
        "a row of the melody table holds a sixth voice"
    );
}

#[test]
fn fits_voices_looks_past_the_fifth_pair() {
    assert!(fits_voices(&vec![]));
    assert!(fits_voices(&vec![row(&[])]));
    assert!(fits_voices(&vec![row(&["a", "1", "b", "2", "c", "3", "d", "4", "e", "5"])]));
    assert!(fits_voices(&vec![row(&["", "", "", "", "", "", "", "", "", "", " ", "x"])]));
    assert!(fits_voices(&vec![row(&["", "", "", "", "", "", "", "", "", "", "", " 1 "])]));
    assert!(fits_voices(&vec![row(&["", "", "", "", "", "", "", "", "", "", "\u{3000}"])]));
    assert!(!fits_voices(&vec![row(&["", "", "", "", "", "", "", "", "", "", "x", ""])]));
    assert!(!fits_voices(&vec![row(&["", "", "", "", "", "", "", "", "", "", "x"])]));
    assert!(!fits_voices(&vec![
        row(&["a", "1"]),
        row(&["", "", "", "", "", "", "", "", "", "", "", "", "0", ""]),
    ]));
    assert!(fits_voices(&vec![
        row(&["a", "1"]),
        row(&["", "", "", "", "", "", "", "", "", "", "", "", "", "0"]),
    ]));
}

#[test]
fn melodies_from_rows_of_any_length() {
    let rows = vec![
        row(&["A4", "100"]),
        row(&[]),
        row(&["B4"]),
        row(&["", "300", " C4 ", " 400 ", "", "5"]),
    ];
    let melodies = melodies_from_rows(&rows);
    assert_eq!(melodies.len(), 5);
    assert_eq!(melodies[0], vec![note("A4", 100), note("B4", 0)]);
    assert_eq!(melodies[1], vec![note("C4", 400)]);
    assert_eq!(melodies[2], empty());
    assert_eq!(melodies[3], empty());
    assert_eq!(melodies[4], empty());
}

#[test]
fn trimming_removes_exactly_the_white_space_characters() {
    let white_space = |code: u32| {
        (0x09..=0x0d).contains(&code)
            || code == 0x20
            || code == 0x85
            || code == 0xa0
            || code == 0x1680
            || (0x2000..=0x200a).contains(&code)
            || code == 0x2028
            || code == 0x2029
            || code == 0x202f
            || code == 0x205f
            || code == 0x3000
    };
    let codes = (0..=0xffffu32).chain([0x1_0000, 0x1_2000, 0x2_0000, 0xe_0020, 0x10_ffff]);
    for c in codes.filter_map(char::from_u32) {
        let code = c as u32;
        let cell = format!("{}{}A{}B{}{}", c, c, c, c, c);
        let melodies = melodies_from_rows(&vec![vec![cell.clone(), "7".to_string()]]);
        let expected = if white_space(code) { format!("A{}B", c) } else { cell };
        assert_eq!(melodies[0], vec![(expected, 7)]);
        let blank = melodies_from_rows(&vec![vec![format!("{}", c), "7".to_string()]]);
        assert_eq!(blank[0].is_empty(), white_space(code));
    }
}

#[test]
fn durations_are_decimal_numbers_of_ascii_digits() {
    let cases: [(&str, Option<u64>); 22] = [
        ("0", Some(0)),
        ("7", Some(7)),
        ("42", Some(42)),
        ("+42", Some(42)),
        ("000000000000000000000000000042", Some(42)),
        ("+0", Some(0)),
        ("9999999999999999999", Some(9_999_999_999_999_999_999)),
        ("18446744073709551615", Some(u64::MAX)),
        ("+18446744073709551615", Some(u64::MAX)),
        ("18446744073709551616", None),
        ("99999999999999999999", None),
        ("", None),
        ("+", None),
        ("-", None),
        ("-0", None),
        ("-1", None),
        ("4 2", None),
        ("42ms", None),
        ("4e2", None),
        ("\u{664}\u{662}", None),
        ("\u{ff14}\u{ff12}", None),
        ("42+", None),
    ];
    // A duration that is no number counts as zero.
    for (text, expected) in cases {
        let rows = vec![vec!["A4".to_string(), text.to_string()]];
        let melodies = melodies_from_rows(&rows);
        assert_eq!(melodies[0], vec![("A4".to_string(), expected.unwrap_or(0))]);
    }
    for digit in 0..10u64 {
        for other in ['/', ':', 'a', 'A', '.', ','] {
            let rows = vec![
                vec!["A4".to_string(), format!("1{}", digit)],
                vec!["B4".to_string(), format!("1{}{}", digit, other)],
            ];
            assert_eq!(
                melodies_from_rows(&rows)[0],
                vec![("A4".to_string(), 10 + digit), ("B4".to_string(), 0)]
            );
        }
    }
}

#[test]
fn the_first_row_that_cannot_be_taken_decides_the_error() {
    // A sixth voice in the first row, a row of another length after it.
    assert_eq!(
        parse_melodies(b"a,1,b,2,c,3,d,4,e,5,f,6\nA4,1\n"),
        Err(MelodyError::TooManyVoices)
    );
    // A row of another length first, a sixth voice after it.
    assert!(matches!(
        parse_melodies(b"A4,1\na,1,b,2,c,3,d,4,e,5,f,6\n"),
        Err(MelodyError::Malformed(_))
    ));
    assert_eq!(
        parse_melodies(b",,,,,,,,,,,\n,,,,,,,,,,x,9\n\xff,,,,,,,,,,,\n"),
        Err(MelodyError::TooManyVoices)
    );
    assert!(matches!(
        parse_melodies(b",,,,,,,,,,,\n\xff,,,,,,,,,,,\n,,,,,,,,,,x,9\n"),
        Err(MelodyError::Malformed(_))
    ));
}
