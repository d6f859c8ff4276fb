use screenshit::editor::opens_text_field;
use screenshit::editor::{
    drag_commit, shortcut_actions, text_entry, Actions, DragCommit, HistoryStep, Keys, TextEntry,
    ToolSetting,
};
use screenshit::Tool;

fn keys() -> Keys {
    Keys { undo: false, redo: false, copy: false, save: false, enter: false, escape: false }
}

#[test]
fn drag_commits_by_tool() {
    for t in [Tool::Arrow, Tool::Line, Tool::Rect, Tool::Ellipse] {
        assert_eq!(drag_commit(t, true), DragCommit::Annotate);
        assert_eq!(drag_commit(t, false), DragCommit::Nothing);
    }
    assert_eq!(drag_commit(Tool::Draw, false), DragCommit::Annotate);
    assert_eq!(drag_commit(Tool::Crop, true), DragCommit::Select);
    assert_eq!(drag_commit(Tool::Crop, false), DragCommit::Nothing);
    assert_eq!(drag_commit(Tool::Text, true), DragCommit::Nothing);
}

#[test]
fn tool_properties() {
    assert_eq!(Tool::Text.setting(), ToolSetting::FontSize);
    assert_eq!(Tool::Draw.setting(), ToolSetting::StrokeWidth);
    assert_eq!(Tool::Crop.setting(), ToolSetting::NoSetting);
    assert!(Tool::Rect.is_boxed() && Tool::Ellipse.is_boxed() && !Tool::Line.is_boxed());
    assert!(!Tool::Text.starts_drag() && Tool::Crop.starts_drag());
    assert!(Tool::Text.text_cursor() && !Tool::Arrow.text_cursor());
    assert!(Tool::Draw.draws_shape() && !Tool::Crop.draws_shape());
}

#[test]
fn redo_wins_over_undo() {
    let k = Keys { undo: true, redo: true, ..keys() };
    assert_eq!(shortcut_actions(false, k, true, true, false).history, HistoryStep::Redo);
    let k = Keys { undo: true, ..keys() };
    assert_eq!(shortcut_actions(false, k, true, true, false).history, HistoryStep::Undo);
    assert_eq!(shortcut_actions(false, keys(), true, true, false).history, HistoryStep::Stay);
}

#[test]
fn enter_applies_crop_unless_history_moved() {
    let k = Keys { enter: true, ..keys() };
    assert!(shortcut_actions(false, k, false, false, true).apply_crop);
    assert!(!shortcut_actions(false, k, false, false, false).apply_crop);
    let k = Keys { enter: true, undo: true, ..keys() };
    assert!(!shortcut_actions(false, k, true, false, true).apply_crop);
    // Nothing to undo: the selection survives and is applied.
    assert!(shortcut_actions(false, k, false, false, true).apply_crop);
}

#[test]
fn typing_owns_the_keyboard() {
    let k = Keys { undo: true, redo: true, copy: true, save: true, enter: true, escape: true };
    assert_eq!(
        shortcut_actions(true, k, true, true, true),
        Actions { history: HistoryStep::Stay, copy: false, save: false, apply_crop: false, cancel: false }
    );
    assert_eq!(
        shortcut_actions(false, k, false, false, false),
        Actions { history: HistoryStep::Redo, copy: true, save: true, apply_crop: false, cancel: true }
    );
}

#[test]
fn text_entry_outcomes() {
    assert_eq!(text_entry(true, true, "hello"), TextEntry::Closed);
    assert_eq!(text_entry(false, true, "hello"), TextEntry::Committed);
    assert_eq!(text_entry(false, true, " \t\u{3000}\n"), TextEntry::Closed);
    assert_eq!(text_entry(false, true, ""), TextEntry::Closed);
    assert_eq!(text_entry(false, false, "hello"), TextEntry::Editing);
}

#[test]
fn click_opens_text_field() {
    assert!(opens_text_field(Tool::Text, true, false));
    assert!(!opens_text_field(Tool::Text, true, true));
    assert!(!opens_text_field(Tool::Text, false, false));
    assert!(!opens_text_field(Tool::Arrow, true, false));
}
