use screenshit::capture::{capture_after, capture_start, CaptureStep};
use screenshit::capture::{no_tool_message, screenshot_tools};

#[test]
fn wayland_tools() {
    let t = screenshot_tools("/tmp/s.png", true);
    let progs: Vec<&str> = t.iter().map(|i| i.program.as_str()).collect();
    assert_eq!(progs, vec!["gnome-screenshot", "spectacle", "grim"]);
    assert_eq!(t[0].args, vec!["-f", "/tmp/s.png"]);
    assert_eq!(t[1].args, vec!["-b", "-n", "-o", "/tmp/s.png"]);
    assert_eq!(t[2].args, vec!["/tmp/s.png"]);
}

#[test]
fn x11_tools() {
    let t = screenshot_tools("p", false);
    let progs: Vec<&str> = t.iter().map(|i| i.program.as_str()).collect();
    assert_eq!(progs, vec!["gnome-screenshot", "spectacle", "maim", "scrot", "import"]);
    assert_eq!(t[3].args, vec!["-o", "p"]);
    assert_eq!(t[4].args, vec!["-window", "root", "p"]);
}

#[test]
fn failure_lists_the_tools_tried() {
    let t = screenshot_tools("p", true);
    assert_eq!(
        no_tool_message(&t),
        "no working screenshot tool found (tried: gnome-screenshot, spectacle, grim).\n\
         Install one of them, or pass an image path:  screenshit <image>"
    );
    assert_eq!(
        no_tool_message(&Vec::new()),
        "no working screenshot tool found (tried: ).\n\
         Install one of them, or pass an image path:  screenshit <image>"
    );
}

#[test]
fn first_tool_that_produces_the_file_wins() {
    let t = screenshot_tools("p", true);
    assert!(matches!(capture_start(&t), CaptureStep::Try(0)));
    assert!(matches!(capture_after(&t, 0, false), CaptureStep::Try(1)));
    assert!(matches!(capture_after(&t, 1, true), CaptureStep::Load(1)));
    match capture_after(&t, 2, false) {
        CaptureStep::GiveUp(m) => assert_eq!(m, no_tool_message(&t)),
        _ => panic!("the last tool failed"),
    }
    match capture_start(&Vec::new()) {
        CaptureStep::GiveUp(m) => assert!(m.contains("(tried: )")),
        _ => panic!("no tools"),
    }
}
