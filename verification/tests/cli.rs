use screenshit::cli::{default_save_name, is_jpeg_extension, wants_help, window_title, USAGE};

#[test]
fn help_switches() {
    assert!(wants_help(&vec!["a.png".to_string(), "--help".to_string()]));
    assert!(wants_help(&vec!["-h".to_string()]));
    assert!(!wants_help(&vec!["a.png".to_string(), "-help".to_string()]));
    assert!(!wants_help(&vec![]));
    assert!(USAGE.starts_with("screenshit - screenshot & annotation tool\n\nUsage:"));
}

#[test]
fn titles() {
    assert_eq!(window_title(Some("a.png")), "screenshit — a.png");
    assert_eq!(window_title(None), "screenshit — screenshot");
}

#[test]
fn save_names() {
    assert_eq!(default_save_name(None), "screenshot.png");
    assert_eq!(default_save_name(Some(Some("shot"))), "shot-edited.png");
    assert_eq!(default_save_name(Some(None)), "image-edited.png");
}

#[test]
fn jpeg_extensions() {
    assert!(is_jpeg_extension(Some("jpg")));
    assert!(is_jpeg_extension(Some("JPeG")));
    assert!(!is_jpeg_extension(Some("png")));
    assert!(!is_jpeg_extension(Some("jpgx")));
    assert!(!is_jpeg_extension(None));
}
