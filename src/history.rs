//! Undo/redo history of whole-state snapshots.
//!
//! Each undo entry is the state as it was before the action that pushed it.
//! The undo stack holds at most `max_size` entries; when a push would exceed
//! that, the oldest entry is dropped.

use vstd::prelude::*;

verus! {

/// Number of undo steps kept unless another bound is given.
pub const DEFAULT_MAX_SIZE: usize = 50;

/// Undo and redo stacks of snapshots; the top of each stack is its last element.
pub struct History<T> {
    undo_stack: Vec<T>,
    redo_stack: Vec<T>,
    max_size: usize,
}

/// The mathematical value of a history.
pub struct HistoryView<T> {
    pub undo: Seq<T>,
    pub redo: Seq<T>,
    pub max_size: nat,
}

impl<T> View for History<T> {
    type V = HistoryView<T>;

    closed spec fn view(&self) -> HistoryView<T> {
        HistoryView { undo: self.undo_stack@, redo: self.redo_stack@, max_size: self.max_size as nat }
    }
}

/// A history whose two stacks together stay within the bound: every redo
/// entry was moved there by an undo, which freed its place.
pub open spec fn history_wf<T>(h: HistoryView<T>) -> bool {
    h.undo.len() + h.redo.len() <= h.max_size
}

/// The history after recording `s` as the state before a new action.
pub open spec fn push_spec<T>(h: HistoryView<T>, s: T) -> HistoryView<T> {
    let u = h.undo.push(s);
    HistoryView {
        undo: if u.len() > h.max_size {
            u.drop_first()
        } else {
            u
        },
        redo: Seq::empty(),
        max_size: h.max_size,
    }
}

/// What an undo from state `current` returns, and the history after it.
pub open spec fn undo_spec<T>(h: HistoryView<T>, current: T) -> (Option<T>, HistoryView<T>) {
    if h.undo.len() == 0 {
        (None, h)
    } else {
        (
            Some(h.undo.last()),
            HistoryView { undo: h.undo.drop_last(), redo: h.redo.push(current), max_size: h.max_size },
        )
    }
}

/// What a redo from state `current` returns, and the history after it.
pub open spec fn redo_spec<T>(h: HistoryView<T>, current: T) -> (Option<T>, HistoryView<T>) {
    if h.redo.len() == 0 {
        (None, h)
    } else {
        (
            Some(h.redo.last()),
            HistoryView { undo: h.undo.push(current), redo: h.redo.drop_last(), max_size: h.max_size },
        )
    }
}

/// The history after pushing each state of `states` in turn.
pub open spec fn push_all<T>(h: HistoryView<T>, states: Seq<T>) -> HistoryView<T>
    decreases states.len(),
{
    if states.len() == 0 {
        h
    } else {
        push_spec(push_all(h, states.drop_last()), states.last())
    }
}

/// An empty history with the given bound.
pub open spec fn empty_history<T>(max_size: nat) -> HistoryView<T> {
    HistoryView { undo: Seq::empty(), redo: Seq::empty(), max_size }
}

/// After states `s1` and `s2` are pushed, undoing from `s3` returns `s2`, and
/// a redo right after returns `s3`.
pub proof fn lemma_undo_then_redo<T>(h: HistoryView<T>, s1: T, s2: T, s3: T, s4: T)
    requires
        history_wf(h),
        h.max_size >= 1,
    ensures
        undo_spec(push_spec(push_spec(h, s1), s2), s3).0 == Some(s2),
        redo_spec(undo_spec(push_spec(push_spec(h, s1), s2), s3).1, s4).0 == Some(s3),
{
}

/// Undo on an empty undo stack returns nothing and leaves the history,
/// the redo stack included, as it was.
pub proof fn lemma_undo_empty<T>(h: HistoryView<T>, current: T)
    requires
        h.undo.len() == 0,
    ensures
        undo_spec(h, current).0 is None,
        undo_spec(h, current).1 == h,
{
}

/// Pushing any number of states onto an empty history keeps exactly the
/// newest `max_size` of them (all of them when there are fewer), in order;
/// the oldest are the ones dropped.
pub proof fn lemma_push_all_keeps_newest<T>(max_size: nat, states: Seq<T>)
    ensures
        push_all(empty_history(max_size), states).undo == states.subrange(
            if states.len() > max_size {
                states.len() - max_size
            } else {
                0
            },
            states.len() as int,
        ),
        push_all(empty_history(max_size), states).redo.len() == 0,
        push_all(empty_history::<T>(max_size), states).max_size == max_size,
    decreases states.len(),
{
    if states.len() > 0 {
        let n = states.len();
        let prev = states.drop_last();
        lemma_push_all_keeps_newest(max_size, prev);
        let lo_prev: int = if prev.len() > max_size { prev.len() - max_size } else { 0 };
        let lo: int = if n > max_size { n - max_size } else { 0 };
        let u = prev.subrange(lo_prev, prev.len() as int).push(states.last());
        if u.len() > max_size {
            assert(u.drop_first() =~= states.subrange(lo, n as int));
        } else {
            assert(u =~= states.subrange(lo, n as int));
        }
    }
}

impl<T> History<T> {
    /// An empty history keeping at most `max_size` undo steps.
    pub fn new(max_size: usize) -> (r: History<T>)
        ensures
            r@ == empty_history::<T>(max_size as nat),
            history_wf(r@),
    {
        History { undo_stack: Vec::new(), redo_stack: Vec::new(), max_size }
    }

    /// An empty history keeping `DEFAULT_MAX_SIZE` undo steps.
    pub fn with_default_size() -> (r: History<T>)
        ensures
            r@ == empty_history::<T>(DEFAULT_MAX_SIZE as nat),
            history_wf(r@),
    {
        History::new(DEFAULT_MAX_SIZE)
    }

    /// Records `snapshot`, the state before a new action: clears the redo
    /// stack and drops the oldest undo entry if the bound is exceeded.
    pub fn push(&mut self, snapshot: T)
        requires
            history_wf(old(self)@),
        ensures
            final(self)@ == push_spec(old(self)@, snapshot),
            history_wf(final(self)@),
    {
        self.redo_stack.clear();
        self.undo_stack.push(snapshot);
        if self.undo_stack.len() > self.max_size {
            self.undo_stack.remove(0);
        }
        assert(self.undo_stack@ =~= push_spec(old(self)@, snapshot).undo);
    }

    /// Steps back: returns the state before the last action and keeps
    /// `current` for redo. Returns `None`, changing nothing, when there is
    /// nothing to undo.
    pub fn undo(&mut self, current: T) -> (r: Option<T>)
        requires
            history_wf(old(self)@),
        ensures
            (r, final(self)@) == undo_spec(old(self)@, current),
            history_wf(final(self)@),
    {
        match self.undo_stack.pop() {
            None => None,
            Some(s) => {
                self.redo_stack.push(current);
                Some(s)
            },
        }
    }

    /// Steps forward again: returns the state the last undo left and keeps
    /// `current` for undo. Returns `None`, changing nothing, when there is
    /// nothing to redo.
    pub fn redo(&mut self, current: T) -> (r: Option<T>)
        requires
            history_wf(old(self)@),
        ensures
            (r, final(self)@) == redo_spec(old(self)@, current),
            history_wf(final(self)@),
    {
        match self.redo_stack.pop() {
            None => None,
            Some(s) => {
                self.undo_stack.push(current);
                Some(s)
            },
        }
    }

    /// True when there is something to undo.
    pub fn can_undo(&self) -> (r: bool)
        ensures
            r == (self@.undo.len() > 0),
    {
        self.undo_stack.len() > 0
    }

    /// True when there is something to redo.
    pub fn can_redo(&self) -> (r: bool)
        ensures
            r == (self@.redo.len() > 0),
    {
        self.redo_stack.len() > 0
    }

    /// Number of entries on the undo stack.
    pub fn undo_len(&self) -> (r: usize)
        ensures
            r == self@.undo.len(),
    {
        self.undo_stack.len()
    }

    /// Number of entries on the redo stack.
    pub fn redo_len(&self) -> (r: usize)
        ensures
            r == self@.redo.len(),
    {
        self.redo_stack.len()
    }

    /// The bound on the undo stack.
    pub fn max_size(&self) -> (r: usize)
        ensures
            r == self@.max_size,
    {
        self.max_size
    }
}

} // verus!
