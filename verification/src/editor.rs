//! The decisions of the image editor: what a finished drag commits, what
//! the keyboard shortcuts do, and when typed text becomes an annotation.
//! Geometry (positions, sizes, zoom) is in floating point and stays with the
//! user interface; these functions take the outcome of its comparisons.

use vstd::prelude::*;

use crate::text::{is_white, trim_range, trim_spec, chars_of, CharClass};

verus! {

/// The editing tools of the toolbar.
#[derive(Clone, Copy, PartialEq, Eq, Structural, Debug)]
pub enum Tool {
    Crop,
    Arrow,
    Line,
    Draw,
    Rect,
    Ellipse,
    Text,
}

/// What a finished drag leaves behind.
#[derive(Clone, Copy, PartialEq, Eq, Structural, Debug)]
pub enum DragCommit {
    /// Record an undo step and add the tool's annotation.
    Annotate,
    /// Make the dragged box the crop selection.
    Select,
    /// Nothing: the drag was too short, or the tool does not drag.
    Nothing,
}

/// The setting that the toolbar offers next to the colour for a tool.
#[derive(Clone, Copy, PartialEq, Eq, Structural, Debug)]
pub enum ToolSetting {
    FontSize,
    StrokeWidth,
    NoSetting,
}

impl Tool {
    /// Tools that draw a shape while dragging (and show it as a preview).
    pub open spec fn draws_shape_spec(self) -> bool {
        match self {
            Tool::Arrow | Tool::Line | Tool::Draw | Tool::Rect | Tool::Ellipse => true,
            Tool::Crop | Tool::Text => false,
        }
    }

    pub fn draws_shape(self) -> (b: bool)
        ensures
            b == self.draws_shape_spec(),
    {
        match self {
            Tool::Arrow | Tool::Line | Tool::Draw | Tool::Rect | Tool::Ellipse => true,
            Tool::Crop | Tool::Text => false,
        }
    }

    /// Tools whose shape is a box from the drag start to the pointer, made
    /// square while Shift is held.
    pub fn is_boxed(self) -> (b: bool)
        ensures
            b == (self == Tool::Rect || self == Tool::Ellipse),
    {
        match self {
            Tool::Rect | Tool::Ellipse => true,
            _ => false,
        }
    }

    /// Whether pressing the pointer with this tool starts a drag (the text
    /// tool places text on click instead).
    pub fn starts_drag(self) -> (b: bool)
        ensures
            b == (self != Tool::Text),
    {
        match self {
            Tool::Text => false,
            _ => true,
        }
    }

    /// Whether the pointer shows a text cursor over the canvas (a crosshair
    /// otherwise).
    pub fn text_cursor(self) -> (b: bool)
        ensures
            b == (self == Tool::Text),
    {
        match self {
            Tool::Text => true,
            _ => false,
        }
    }

    /// The slider next to the colour: font size for text, stroke width for
    /// the drawing tools, none for cropping.
    pub fn setting(self) -> (s: ToolSetting)
        ensures
            s == (if self == Tool::Text {
                ToolSetting::FontSize
            } else if self.draws_shape_spec() {
                ToolSetting::StrokeWidth
            } else {
                ToolSetting::NoSetting
            }),
    {
        match self {
            Tool::Text => ToolSetting::FontSize,
            Tool::Arrow | Tool::Line | Tool::Draw | Tool::Rect | Tool::Ellipse => {
                ToolSetting::StrokeWidth
            },
            Tool::Crop => ToolSetting::NoSetting,
        }
    }
}

pub open spec fn drag_commit_spec(tool: Tool, moved: bool) -> DragCommit {
    match tool {
        Tool::Draw => DragCommit::Annotate,
        Tool::Arrow | Tool::Line | Tool::Rect | Tool::Ellipse => if moved {
            DragCommit::Annotate
        } else {
            DragCommit::Nothing
        },
        Tool::Crop => if moved {
            DragCommit::Select
        } else {
            DragCommit::Nothing
        },
        Tool::Text => DragCommit::Nothing,
    }
}

/// What a drag with `tool` commits when it stops; `moved` tells whether the
/// pointer went at least two image pixels from where the drag started. A
/// freehand stroke is kept however short it is.
pub fn drag_commit(tool: Tool, moved: bool) -> (c: DragCommit)
    ensures
        c == drag_commit_spec(tool, moved),
{
    match tool {
        Tool::Draw => DragCommit::Annotate,
        Tool::Arrow | Tool::Line | Tool::Rect | Tool::Ellipse => if moved {
            DragCommit::Annotate
        } else {
            DragCommit::Nothing
        },
        Tool::Crop => if moved {
            DragCommit::Select
        } else {
            DragCommit::Nothing
        },
        Tool::Text => DragCommit::Nothing,
    }
}

/// Whether a click on the canvas opens the text field: with the text tool,
/// and only when no text field was open before the click (that click closes
/// it instead).
pub fn opens_text_field(tool: Tool, clicked: bool, text_was_active: bool) -> (b: bool)
    ensures
        b == (clicked && tool == Tool::Text && !text_was_active),
{
    clicked && tool.text_cursor() && !text_was_active
}

/// Keys pressed during one frame.
#[derive(Clone, Copy, PartialEq, Eq, Structural, Debug)]
pub struct Keys {
    /// Ctrl+Z.
    pub undo: bool,
    /// Ctrl+Shift+Z or Ctrl+Y.
    pub redo: bool,
    /// Ctrl+C.
    pub copy: bool,
    /// Ctrl+S.
    pub save: bool,
    pub enter: bool,
    pub escape: bool,
}

/// Undo, redo, or neither.
#[derive(Clone, Copy, PartialEq, Eq, Structural, Debug)]
pub enum HistoryStep {
    Undo,
    Redo,
    Stay,
}

/// What the editor does with the keys of one frame, in this order.
#[derive(Clone, Copy, PartialEq, Eq, Structural, Debug)]
pub struct Actions {
    pub history: HistoryStep,
    pub copy: bool,
    pub save: bool,
    pub apply_crop: bool,
    /// Drop the crop selection and any drag in progress.
    pub cancel: bool,
}

pub open spec fn shortcut_actions_spec(
    text_editing: bool,
    keys: Keys,
    can_undo: bool,
    can_redo: bool,
    has_selection: bool,
) -> Actions {
    if text_editing {
        Actions {
            history: HistoryStep::Stay,
            copy: false,
            save: false,
            apply_crop: false,
            cancel: false,
        }
    } else {
        let history = if keys.redo {
            HistoryStep::Redo
        } else if keys.undo {
            HistoryStep::Undo
        } else {
            HistoryStep::Stay
        };
        let restored = (history == HistoryStep::Redo && can_redo) || (history
            == HistoryStep::Undo && can_undo);
        Actions {
            history,
            copy: keys.copy,
            save: keys.save,
            apply_crop: keys.enter && has_selection && !restored,
            cancel: keys.escape,
        }
    }
}

/// The keyboard shortcuts of one frame. While text is being typed the keys
/// belong to the text field. Redo wins over undo. Enter applies the crop
/// selection, unless an undo or redo that restored a state has just dropped
/// it; Escape drops the selection.
pub fn shortcut_actions(
    text_editing: bool,
    keys: Keys,
    can_undo: bool,
    can_redo: bool,
    has_selection: bool,
) -> (a: Actions)
    ensures
        a == shortcut_actions_spec(text_editing, keys, can_undo, can_redo, has_selection),
{
    if text_editing {
        return Actions {
            history: HistoryStep::Stay,
            copy: false,
            save: false,
            apply_crop: false,
            cancel: false,
        };
    }
    let history = if keys.redo {
        HistoryStep::Redo
    } else if keys.undo {
        HistoryStep::Undo
    } else {
        HistoryStep::Stay
    };
    let restored = match history {
        HistoryStep::Redo => can_redo,
        HistoryStep::Undo => can_undo,
        HistoryStep::Stay => false,
    };
    Actions {
        history,
        copy: keys.copy,
        save: keys.save,
        apply_crop: keys.enter && has_selection && !restored,
        cancel: keys.escape,
    }
}

/// How the text field ends a frame.
#[derive(Clone, Copy, PartialEq, Eq, Structural, Debug)]
pub enum TextEntry {
    /// Still typing.
    Editing,
    /// Closed without adding anything.
    Closed,
    /// Closed, and the typed text becomes an annotation.
    Committed,
}

/// `s` holds something besides whitespace.
pub open spec fn has_text(s: Seq<char>) -> bool {
    trim_spec(s, CharClass::Whitespace).len() > 0
}

pub open spec fn text_entry_spec(escape: bool, lost_focus: bool, buffer: Seq<char>) -> TextEntry {
    if escape {
        TextEntry::Closed
    } else if lost_focus {
        if has_text(buffer) {
            TextEntry::Committed
        } else {
            TextEntry::Closed
        }
    } else {
        TextEntry::Editing
    }
}

/// The text field closes on Escape (dropping the text) or when it loses
/// focus; then the text is kept unless it is blank.
pub fn text_entry(escape: bool, lost_focus: bool, buffer: &str) -> (t: TextEntry)
    ensures
        t == text_entry_spec(escape, lost_focus, buffer@),
{
    if escape {
        TextEntry::Closed
    } else if lost_focus {
        let v = chars_of(buffer);
        let (a, b) = trim_range(&v, 0, v.len(), CharClass::Whitespace);
        assert(v@.subrange(0, v.len() as int) =~= buffer@);
        if a < b {
            TextEntry::Committed
        } else {
            TextEntry::Closed
        }
    } else {
        TextEntry::Editing
    }
}

/// Escape closes the text field without adding anything, whatever was typed.
pub proof fn lemma_escape_discards(lost_focus: bool, buffer: Seq<char>)
    ensures
        text_entry_spec(true, lost_focus, buffer) == TextEntry::Closed,
{
}

/// Text made only of whitespace never becomes an annotation.
pub proof fn lemma_blank_text_dropped(escape: bool, lost_focus: bool, buffer: Seq<char>)
    requires
        forall|i: int| 0 <= i < buffer.len() ==> is_white(#[trigger] buffer[i]),
    ensures
        text_entry_spec(escape, lost_focus, buffer) != TextEntry::Committed,
{
    lemma_trim_all_white(buffer);
}

proof fn lemma_trim_all_white(s: Seq<char>)
    requires
        forall|i: int| 0 <= i < s.len() ==> is_white(#[trigger] s[i]),
    ensures
        crate::text::trim_start_spec(s, CharClass::Whitespace).len() == 0,
        trim_spec(s, CharClass::Whitespace).len() == 0,
    decreases s.len(),
{
    if s.len() > 0 {
        assert forall|i: int| 0 <= i < s.drop_first().len() implies is_white(
            #[trigger] s.drop_first()[i],
        ) by {
            assert(s.drop_first()[i] == s[i + 1]);
        }
        assert(is_white(s[0]));
        lemma_trim_all_white(s.drop_first());
    }
    let t = crate::text::trim_start_spec(s, CharClass::Whitespace);
    assert(crate::text::trim_end_spec(t, CharClass::Whitespace) == t);
}

/// With the text field open no shortcut fires.
pub proof fn lemma_typing_owns_keys(keys: Keys, can_undo: bool, can_redo: bool, sel: bool)
    ensures
        ({
            let a = shortcut_actions_spec(true, keys, can_undo, can_redo, sel);
            a.history == HistoryStep::Stay && !a.copy && !a.save && !a.apply_crop && !a.cancel
        }),
{
}


/// A freehand stroke is always kept, however far the pointer moved; the
/// other drawing tools keep their shape only when the pointer moved, the crop
/// tool then selects, and the text tool never commits a drag.
pub proof fn lemma_drag_commit_by_tool(tool: Tool, moved: bool)
    ensures
        drag_commit_spec(Tool::Draw, moved) == DragCommit::Annotate,
        (tool == Tool::Arrow || tool == Tool::Line || tool == Tool::Rect || tool == Tool::Ellipse)
            ==> (drag_commit_spec(tool, moved) == DragCommit::Annotate <==> moved),
        (tool == Tool::Arrow || tool == Tool::Line || tool == Tool::Rect || tool == Tool::Ellipse)
            ==> drag_commit_spec(tool, moved) != DragCommit::Select,
        drag_commit_spec(Tool::Crop, moved) == (if moved {
            DragCommit::Select
        } else {
            DragCommit::Nothing
        }),
        drag_commit_spec(Tool::Text, moved) == DragCommit::Nothing,
        drag_commit_spec(tool, false) == DragCommit::Annotate ==> tool == Tool::Draw,
{
}

/// Outside text entry each key does its own action: Ctrl+S saves, Ctrl+C
/// copies, Escape cancels, the redo keys redo (winning over Ctrl+Z), Ctrl+Z
/// alone undoes, and without either nothing moves in the history. The crop
/// is applied only on Enter with a selection.
pub proof fn lemma_shortcut_keys(
    text_editing: bool,
    keys: Keys,
    can_undo: bool,
    can_redo: bool,
    has_selection: bool,
)
    ensures
        ({
            let a = shortcut_actions_spec(text_editing, keys, can_undo, can_redo, has_selection);
            &&& !text_editing ==> a.save == keys.save && a.copy == keys.copy && a.cancel
                == keys.escape
            &&& !text_editing && keys.redo ==> a.history == HistoryStep::Redo
            &&& !text_editing && !keys.redo && keys.undo ==> a.history == HistoryStep::Undo
            &&& !keys.redo && !keys.undo ==> a.history == HistoryStep::Stay
            &&& a.apply_crop ==> keys.enter && has_selection && !text_editing
            &&& !text_editing && keys.enter && has_selection && !keys.redo && !keys.undo
                ==> a.apply_crop
        }),
{
}

proof fn lemma_trim_start_keeps_other(s: Seq<char>, k: CharClass, i: int)
    requires
        0 <= i < s.len(),
        !k.holds(s[i]),
    ensures
        exists|j: int|
            0 <= j < crate::text::trim_start_spec(s, k).len() && !k.holds(
                #[trigger] crate::text::trim_start_spec(s, k)[j],
            ),
    decreases s.len(),
{
    let t = crate::text::trim_start_spec(s, k);
    if k.holds(s[0]) {
        assert(i != 0);
        assert(s.drop_first()[i - 1] == s[i]);
        assert(t == crate::text::trim_start_spec(s.drop_first(), k));
        lemma_trim_start_keeps_other(s.drop_first(), k, i - 1);
    } else {
        assert(t == s);
        assert(!k.holds(t[i]));
    }
}

proof fn lemma_trim_end_keeps_other(s: Seq<char>, k: CharClass, i: int)
    requires
        0 <= i < s.len(),
        !k.holds(s[i]),
    ensures
        exists|j: int|
            0 <= j < crate::text::trim_end_spec(s, k).len() && !k.holds(
                #[trigger] crate::text::trim_end_spec(s, k)[j],
            ),
    decreases s.len(),
{
    let t = crate::text::trim_end_spec(s, k);
    if k.holds(s.last()) {
        assert(i != s.len() - 1);
        assert(s.drop_last()[i] == s[i]);
        assert(t == crate::text::trim_end_spec(s.drop_last(), k));
        lemma_trim_end_keeps_other(s.drop_last(), k, i);
    } else {
        assert(t == s);
        assert(!k.holds(t[i]));
    }
}

/// Text with at least one character that is not whitespace is added as an
/// annotation when the field loses focus without Escape, whatever its
/// length.
pub proof fn lemma_text_with_content_committed(buffer: Seq<char>, i: int)
    requires
        0 <= i < buffer.len(),
        !is_white(buffer[i]),
    ensures
        text_entry_spec(false, true, buffer) == TextEntry::Committed,
{
    let k = CharClass::Whitespace;
    lemma_trim_start_keeps_other(buffer, k, i);
    let t = crate::text::trim_start_spec(buffer, k);
    let j = choose|j: int| 0 <= j < t.len() && !k.holds(#[trigger] t[j]);
    lemma_trim_end_keeps_other(t, k, j);
}

/// Escape always closes the field without a text annotation; without
/// Escape and while it keeps the focus, the field stays open.
pub proof fn lemma_text_entry_keys(lost_focus: bool, buffer: Seq<char>)
    ensures
        text_entry_spec(true, lost_focus, buffer) == TextEntry::Closed,
        text_entry_spec(false, false, buffer) == TextEntry::Editing,
        text_entry_spec(false, true, buffer) != TextEntry::Editing,
{
}

/// The toolbar offers the stroke width exactly for the tools that draw a
/// shape, and the font size only for text.
pub proof fn lemma_settings_follow_tools(tool: Tool)
    ensures
        tool.draws_shape_spec() <==> (tool != Tool::Text && tool != Tool::Crop),
{
}
} // verus!
