use screenshit::command::{failure_message, invocation, Invocation};
use screenshit::text::trim;

#[test]
fn failure_message_shows_the_command_line() {
    let inv: Invocation = invocation("gsettings", vec!["set".to_string(), "a b".to_string(), "[]".to_string()]);
    assert_eq!(failure_message(&inv, "  No such schema\n"), "gsettings set a b [] failed: No such schema");
    let bare = invocation("xfconf-query", vec![]);
    assert_eq!(failure_message(&bare, ""), "xfconf-query  failed: ");
}

#[test]
fn trim_like_std() {
    for s in ["", "  ", " a b ", "\u{3000}x\n", "x"] {
        assert_eq!(trim(s), s.trim());
    }
}
