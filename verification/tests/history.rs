use screenshit::History;

#[test]
fn undo_then_redo_round_trips() {
    let mut h: History<u32> = History::new();
    assert!(!h.can_undo() && !h.can_redo());
    // Edit 1 -> 2, then 2 -> 3.
    h.push_undo(1);
    h.push_undo(2);
    let shown = h.undo(3);
    assert_eq!(shown, 2);
    assert!(h.can_redo());
    let shown = h.undo(shown);
    assert_eq!(shown, 1);
    assert!(!h.can_undo());
    let shown = h.redo(shown);
    assert_eq!(shown, 2);
    let shown = h.redo(shown);
    assert_eq!(shown, 3);
    assert!(!h.can_redo());
}

#[test]
fn empty_stacks_keep_the_current_state() {
    let mut h: History<&str> = History::new();
    assert_eq!(h.undo("now"), "now");
    assert_eq!(h.redo("now"), "now");
    assert!(!h.can_undo() && !h.can_redo());
}

#[test]
fn new_edit_forgets_redo() {
    let mut h: History<u32> = History::new();
    h.push_undo(10);
    let shown = h.undo(11);
    assert_eq!(shown, 10);
    assert!(h.can_redo());
    h.push_undo(shown);
    assert!(!h.can_redo());
    assert_eq!(h.redo(12), 12);
    assert_eq!(h.undo(12), 10);
}
