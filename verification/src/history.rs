use vstd::prelude::*;

use crate::text::clone_chars;

verus! {

/// The append-ordered record of committed command lines plus one live slot.
/// The last entry is always the live slot that mirrors the buffer while a
/// line is being edited; `position` is the entry Up/Down recall stands on.
pub struct HistoryLog {
    pub entries: Vec<Vec<char>>,
    pub position: usize,
}

impl HistoryLog {
    /// There is always at least the live slot, and the recall position always
    /// stays inside `[0, entries.len() - 1]`.
    pub open spec fn wf(self) -> bool {
        self.entries@.len() >= 1 && self.position < self.entries@.len()
    }

    /// A fresh log: one empty live slot, recall standing on it.
    pub fn new() -> (r: HistoryLog)
        ensures
            r.wf(),
            r.entries@.len() == 1,
            r.entries@[0]@ == Seq::<char>::empty(),
            r.position == 0,
    {
        let mut entries: Vec<Vec<char>> = Vec::new();
        entries.push(Vec::new());
        HistoryLog { entries, position: 0 }
    }

    /// Appends a fresh empty live slot and moves the recall position onto it.
    /// Called exactly once after a non-empty line is committed.
    pub fn push(&mut self)
        requires
            old(self).wf(),
        ensures
            final(self).wf(),
            final(self).entries@.len() == old(self).entries@.len() + 1,
            forall|i: int|
                0 <= i < old(self).entries@.len()
                    ==> final(self).entries@[i]@ == old(self).entries@[i]@,
            final(self).entries@.last()@ == Seq::<char>::empty(),
            final(self).position == final(self).entries@.len() - 1,
    {
        self.entries.push(Vec::new());
        self.position = self.entries.len() - 1;
    }

    /// Moves one step towards older entries and returns the entry there; at
    /// the oldest entry it changes nothing and returns `None` so the caller
    /// alerts. Recall never mutates the stored entries.
    pub fn recall_previous(&mut self) -> (r: Option<Vec<char>>)
        requires
            old(self).wf(),
        ensures
            final(self).wf(),
            final(self).entries@ == old(self).entries@,
            old(self).position == 0 ==> r is None
                && final(self).position == old(self).position,
            old(self).position > 0 ==> final(self).position == old(self).position - 1
                && (r matches Some(t) && t@ == old(self).entries@[old(self).position - 1]@),
    {
        if self.position == 0 {
            None
        } else {
            self.position = self.position - 1;
            Some(clone_chars(&self.entries[self.position]))
        }
    }

    /// Moves one step towards newer entries and returns the entry there; at
    /// the live slot it changes nothing and returns `None` so the caller
    /// alerts. Recall never mutates the stored entries.
    pub fn recall_next(&mut self) -> (r: Option<Vec<char>>)
        requires
            old(self).wf(),
        ensures
            final(self).wf(),
            final(self).entries@ == old(self).entries@,
            old(self).position == old(self).entries@.len() - 1 ==> r is None
                && final(self).position == old(self).position,
            old(self).position < old(self).entries@.len() - 1 ==> final(self).position
                == old(self).position + 1 && (r matches Some(t)
                && t@ == old(self).entries@[old(self).position + 1]@),
    {
        if self.position >= self.entries.len() - 1 {
            None
        } else {
            self.position = self.position + 1;
            Some(clone_chars(&self.entries[self.position]))
        }
    }

    /// Overwrites the live slot (the last entry, never a committed one) with
    /// the buffer's current text, so that recall returning to the live slot
    /// sees the latest in-progress edit.
    pub fn set_live(&mut self, text: &Vec<char>)
        requires
            old(self).wf(),
        ensures
            final(self).wf(),
            final(self).entries@.len() == old(self).entries@.len(),
            final(self).entries@.last()@ == text@,
            forall|i: int|
                0 <= i < old(self).entries@.len() - 1
                    ==> final(self).entries@[i]@ == old(self).entries@[i]@,
            final(self).position == old(self).position,
    {
        let last = self.entries.len() - 1;
        self.entries.set(last, clone_chars(text));
    }
}

} // verus!
