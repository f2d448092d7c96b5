use vstd::prelude::*;

verus! {

/// The editable command line: a sequence of codepoints and a cursor offset.
/// All positions are counted in codepoints, never in bytes, so multi-byte
/// characters can never be split by an edit.
pub struct EditBuffer {
    pub text: Vec<char>,
    pub cursor: usize,
}

impl EditBuffer {
    /// The cursor always stays inside `[0, text.len()]`.
    pub open spec fn wf(self) -> bool {
        self.cursor <= self.text@.len()
    }

    /// A fresh, empty buffer with the cursor at the start.
    pub fn new() -> (r: EditBuffer)
        ensures
            r.wf(),
            r.text@ == Seq::<char>::empty(),
            r.cursor == 0,
    {
        EditBuffer { text: Vec::new(), cursor: 0 }
    }

    /// Inserts a codepoint at the cursor and advances the cursor past it.
    /// Always succeeds.
    pub fn insert(&mut self, c: char)
        requires
            old(self).wf(),
        ensures
            final(self).wf(),
            final(self).text@ == old(self).text@.insert(old(self).cursor as int, c),
            final(self).cursor == old(self).cursor + 1,
    {
        let at = self.cursor;
        self.text.insert(at, c);
        let n = self.text.len();
        assert(at < n);
        self.cursor = at + 1;
    }

    /// Removes the codepoint just before the cursor and steps the cursor back.
    /// At the left boundary nothing changes and `false` signals the caller to
    /// alert.
    pub fn delete_before(&mut self) -> (r: bool)
        requires
            old(self).wf(),
        ensures
            final(self).wf(),
            old(self).cursor == 0 ==> !r && final(self).text@ == old(self).text@
                && final(self).cursor == old(self).cursor,
            old(self).cursor > 0 ==> r && final(self).text@ == old(self).text@.remove(
                old(self).cursor - 1,
            ) && final(self).cursor == old(self).cursor - 1,
    {
        if self.cursor == 0 {
            false
        } else {
            let at = self.cursor - 1;
            self.text.remove(at);
            self.cursor = at;
            true
        }
    }

    /// Steps the cursor one codepoint to the left; at the left boundary
    /// nothing changes and `false` signals the caller to alert.
    pub fn move_left(&mut self) -> (r: bool)
        requires
            old(self).wf(),
        ensures
            final(self).wf(),
            final(self).text@ == old(self).text@,
            old(self).cursor == 0 ==> !r && final(self).cursor == old(self).cursor,
            old(self).cursor > 0 ==> r && final(self).cursor == old(self).cursor - 1,
    {
        if self.cursor == 0 {
            false
        } else {
            self.cursor = self.cursor - 1;
            true
        }
    }

    /// Steps the cursor one codepoint to the right; at the right boundary
    /// nothing changes and `false` signals the caller to alert.
    pub fn move_right(&mut self) -> (r: bool)
        requires
            old(self).wf(),
        ensures
            final(self).wf(),
            final(self).text@ == old(self).text@,
            old(self).cursor == old(self).text@.len() ==> !r && final(self).cursor == old(
                self,
            ).cursor,
            old(self).cursor < old(self).text@.len() ==> r && final(self).cursor == old(
                self,
            ).cursor + 1,
    {
        if self.cursor == self.text.len() {
            false
        } else {
            self.cursor = self.cursor + 1;
            true
        }
    }

    /// Replaces the whole text and puts the cursor at the end; used by history
    /// recall and by completion acceptance.
    pub fn replace_all(&mut self, new_text: Vec<char>)
        ensures
            final(self).wf(),
            final(self).text@ == new_text@,
            final(self).cursor == new_text@.len(),
    {
        self.cursor = new_text.len();
        self.text = new_text;
    }

    /// The codepoint count of the text, for redraw cursor-repositioning math.
    pub fn snapshot_length(&self) -> (r: usize)
        ensures
            r == self.text@.len(),
    {
        self.text.len()
    }

    /// How far the terminal cursor stands left of the end of the line: the
    /// codepoint delta a renderer must move back after rewriting the buffer.
    pub fn back_offset(&self) -> (r: usize)
        requires
            self.wf(),
        ensures
            r == self.text@.len() - self.cursor,
    {
        self.text.len() - self.cursor
    }

    /// Inserting a codepoint and then deleting before the cursor restores the
    /// buffer exactly: every insert is reversible.
    pub proof fn lemma_insert_undone_by_delete(pre: EditBuffer, mid: EditBuffer, c: char)
        requires
            pre.wf(),
            mid.text@ == pre.text@.insert(pre.cursor as int, c),
            mid.cursor == pre.cursor + 1,
        ensures
            mid.cursor > 0,
            mid.text@.remove(mid.cursor - 1) == pre.text@,
            mid.cursor - 1 == pre.cursor,
    {
        assert(mid.text@.remove(pre.cursor as int) =~= pre.text@);
    }

    /// Deleting the codepoint before the cursor and then inserting the same
    /// codepoint back restores the buffer exactly: every successful delete is
    /// reversible.
    pub proof fn lemma_delete_undone_by_insert(pre: EditBuffer, mid: EditBuffer)
        requires
            pre.wf(),
            pre.cursor > 0,
            mid.text@ == pre.text@.remove(pre.cursor - 1),
            mid.cursor == pre.cursor - 1,
        ensures
            mid.text@.insert(mid.cursor as int, pre.text@[pre.cursor - 1]) == pre.text@,
            mid.cursor + 1 == pre.cursor,
    {
        assert(mid.text@.insert(mid.cursor as int, pre.text@[pre.cursor - 1])
            =~= pre.text@);
    }
}

} // verus!
