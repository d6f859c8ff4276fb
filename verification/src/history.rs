//! Undo/redo history of the editor.
//!
//! A history holds two stacks of snapshots. Recording an edit pushes the
//! state from before the edit onto the undo stack and forgets everything that
//! could have been redone. Undo and redo move the current state onto the
//! opposite stack and hand back the state to restore.

use vstd::prelude::*;

verus! {

/// Mathematical model of a history: the undo stack and the redo stack, top
/// of each stack last.
pub struct HistoryView<S> {
    pub undo: Seq<S>,
    pub redo: Seq<S>,
}

/// The history after recording `snapshot`, the state from before an edit.
pub open spec fn record_spec<S>(h: HistoryView<S>, snapshot: S) -> HistoryView<S> {
    HistoryView { undo: h.undo.push(snapshot), redo: Seq::empty() }
}

/// Undo from state `current`: the new history and the state to show.
pub open spec fn undo_spec<S>(h: HistoryView<S>, current: S) -> (HistoryView<S>, S) {
    if h.undo.len() == 0 {
        (h, current)
    } else {
        (HistoryView { undo: h.undo.drop_last(), redo: h.redo.push(current) }, h.undo.last())
    }
}

/// Redo from state `current`: the new history and the state to show.
pub open spec fn redo_spec<S>(h: HistoryView<S>, current: S) -> (HistoryView<S>, S) {
    if h.redo.len() == 0 {
        (h, current)
    } else {
        (HistoryView { undo: h.undo.push(current), redo: h.redo.drop_last() }, h.redo.last())
    }
}

/// Undoing an edit and then redoing it gives back the state and the history
/// from before the undo.
pub proof fn lemma_undo_then_redo<S>(h: HistoryView<S>, current: S)
    requires
        h.undo.len() > 0,
    ensures
        ({
            let (h1, shown) = undo_spec(h, current);
            redo_spec(h1, shown) == (h, current)
        }),
{
    let (h1, shown) = undo_spec(h, current);
    assert(h1.undo.push(shown) =~= h.undo);
    assert(h1.redo.drop_last() =~= h.redo);
}

/// Redoing an edit and then undoing it gives back the state and the history
/// from before the redo.
pub proof fn lemma_redo_then_undo<S>(h: HistoryView<S>, current: S)
    requires
        h.redo.len() > 0,
    ensures
        ({
            let (h1, shown) = redo_spec(h, current);
            undo_spec(h1, shown) == (h, current)
        }),
{
    let (h1, shown) = redo_spec(h, current);
    assert(h1.redo.push(shown) =~= h.redo);
    assert(h1.undo.drop_last() =~= h.undo);
}

/// Undo right after an edit shows the state from before the edit, and the
/// edited state is the only one left to redo.
pub proof fn lemma_undo_reverts_last_edit<S>(h: HistoryView<S>, before: S, after: S)
    ensures
        ({
            let (h1, shown) = undo_spec(record_spec(h, before), after);
            &&& shown == before
            &&& h1.undo == h.undo
            &&& h1.redo == seq![after]
        }),
{
    let (h1, shown) = undo_spec(record_spec(h, before), after);
    assert(h1.undo =~= h.undo);
    assert(h1.redo =~= seq![after]);
}

/// After an edit there is nothing to redo.
pub proof fn lemma_edit_forgets_redo<S>(h: HistoryView<S>, before: S, current: S)
    ensures
        redo_spec(record_spec(h, before), current) == (record_spec(h, before), current),
{
}

/// With nothing to undo (or redo), the call changes nothing.
pub proof fn lemma_empty_stack_is_noop<S>(h: HistoryView<S>, current: S)
    ensures
        h.undo.len() == 0 ==> undo_spec(h, current) == (h, current),
        h.redo.len() == 0 ==> redo_spec(h, current) == (h, current),
{
}

/// Undo and redo never lose a state: the two stacks together keep their
/// total length.
pub proof fn lemma_undo_redo_keep_count<S>(h: HistoryView<S>, current: S)
    ensures
        undo_spec(h, current).0.undo.len() + undo_spec(h, current).0.redo.len()
            == h.undo.len() + h.redo.len(),
        redo_spec(h, current).0.undo.len() + redo_spec(h, current).0.redo.len()
            == h.undo.len() + h.redo.len(),
{
}

pub struct History<S> {
    undo_stack: Vec<S>,
    redo_stack: Vec<S>,
}

impl<S> View for History<S> {
    type V = HistoryView<S>;

    closed spec fn view(&self) -> HistoryView<S> {
        HistoryView { undo: self.undo_stack@, redo: self.redo_stack@ }
    }
}

impl<S> History<S> {
    /// An empty history: nothing to undo, nothing to redo.
    pub fn new() -> (h: Self)
        ensures
            h@.undo == Seq::<S>::empty(),
            h@.redo == Seq::<S>::empty(),
    {
        History { undo_stack: Vec::new(), redo_stack: Vec::new() }
    }

    pub fn can_undo(&self) -> (b: bool)
        ensures
            b == (self@.undo.len() > 0),
    {
        self.undo_stack.len() > 0
    }

    pub fn can_redo(&self) -> (b: bool)
        ensures
            b == (self@.redo.len() > 0),
    {
        self.redo_stack.len() > 0
    }

    /// Record an edit: `snapshot` is the state from before it.
    pub fn push_undo(&mut self, snapshot: S)
        ensures
            final(self)@ == record_spec(old(self)@, snapshot),
    {
        self.undo_stack.push(snapshot);
        self.redo_stack.clear();
    }

    /// Undo the last edit. `current` is the state shown now; the result is
    /// the state to show instead (`current` itself when there is nothing to
    /// undo).
    pub fn undo(&mut self, current: S) -> (shown: S)
        ensures
            (final(self)@, shown) == undo_spec(old(self)@, current),
    {
        match self.undo_stack.pop() {
            Some(prev) => {
                self.redo_stack.push(current);
                prev
            },
            None => current,
        }
    }

    /// Redo the last undone edit, symmetric to `undo`.
    pub fn redo(&mut self, current: S) -> (shown: S)
        ensures
            (final(self)@, shown) == redo_spec(old(self)@, current),
    {
        match self.redo_stack.pop() {
            Some(next) => {
                self.undo_stack.push(current);
                next
            },
            None => current,
        }
    }
}

} // verus!
