use screenshit::text::{chars_of, contains, is_whitespace, string_from, to_ascii_upper, trim_range, CharClass};

#[test]
fn whitespace_matches_std() {
    for c in ['a', ' ', '\t', '\n', '\u{85}', '\u{A0}', '\u{2007}', '\u{200B}', '\u{3000}', 'é', '\u{FEFF}'] {
        assert_eq!(is_whitespace(c), c.is_whitespace(), "{:?}", c);
    }
}

#[test]
fn trimming_ranges() {
    let v = chars_of("  ''ab' ");
    let (a, b) = trim_range(&v, 0, v.len(), CharClass::Whitespace);
    assert_eq!(string_from(&v, a, b), "''ab'");
    let (a, b) = trim_range(&v, a, b, CharClass::Exactly('\''));
    assert_eq!(string_from(&v, a, b), "ab");
}

#[test]
fn upper_and_contains() {
    assert_eq!(to_ascii_upper("aZé1"), "AZé1");
    assert!(contains("UBUNTU:GNOME", "GNOME"));
    assert!(contains("abc", ""));
    assert!(!contains("GNOM", "GNOME"));
    assert!(!contains("", "X"));
}
