use screenshit::gsettings::{add_entry, format_string_array, parse_string_array};

#[test]
fn parses_gsettings_arrays() {
    assert_eq!(parse_string_array("@as []"), Vec::<String>::new());
    assert_eq!(parse_string_array("[]"), Vec::<String>::new());
    assert_eq!(
        parse_string_array("['/a/b/', '/c/d/']"),
        vec!["/a/b/".to_string(), "/c/d/".to_string()]
    );
}

#[test]
fn parse_strips_blanks_quotes_and_empty_items() {
    assert_eq!(
        parse_string_array("  [ \"x\" ,, 'y' ,'' ]\n"),
        vec!["x".to_string(), "y".to_string()]
    );
    assert_eq!(parse_string_array("@as@as [ 'z' ]"), vec!["z".to_string()]);
    assert_eq!(parse_string_array(""), Vec::<String>::new());
    // A comma inside an item splits it: the notation is read naively.
    assert_eq!(
        parse_string_array("['a,b']"),
        vec!["a".to_string(), "b".to_string()]
    );
}

#[test]
fn format_writes_gsettings_notation() {
    assert_eq!(format_string_array(&vec![]), "[]");
    assert_eq!(format_string_array(&vec!["/a/".to_string()]), "['/a/']");
    assert_eq!(
        format_string_array(&vec!["/a/".to_string(), "/b/".to_string()]),
        "['/a/', '/b/']"
    );
}

#[test]
fn format_then_parse_round_trips() {
    let entries = vec!["/one/".to_string(), "two words".to_string(), "ünï".to_string()];
    assert_eq!(parse_string_array(&format_string_array(&entries)), entries);
}

#[test]
fn add_entry_appends_once() {
    let mut e = vec!["/a/".to_string()];
    add_entry(&mut e, "/b/");
    assert_eq!(e, vec!["/a/".to_string(), "/b/".to_string()]);
    add_entry(&mut e, "/b/");
    assert_eq!(e, vec!["/a/".to_string(), "/b/".to_string()]);
    add_entry(&mut e, "/a/");
    assert_eq!(e.len(), 2);
}
