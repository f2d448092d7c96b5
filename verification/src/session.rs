use vstd::prelude::*;

use crate::buffer::EditBuffer;
use crate::history::HistoryLog;
use crate::text::clone_chars;
use crate::text::append_suffix;
use crate::matcher::rebuild_line;

verus! {

/// One keystroke, as the input collaborator reports it.
pub enum KeyEvent {
    Char(char),
    Backspace,
    Left,
    Right,
    Up,
    Down,
    Tab,
    Enter,
    Other,
}

/// A completion attempt about to start: the text before the argument, kept
/// as it is, and the path being completed, which may hold embedded spaces.
pub struct CompletionRequest {
    pub fixed_prefix: Vec<char>,
    pub raw_argument: Vec<char>,
}

/// What the caller must do after one dispatched keystroke: nothing, sound
/// the bell, redraw the line, commit the line, or run a completion attempt.
pub enum SessionAction {
    Quiet,
    Alert,
    Redraw,
    Commit,
    Complete(CompletionRequest),
}

/// The position of the first space in `s` at or after `i`, or the length of
/// `s` when no space follows.
pub open spec fn first_space_from(s: Seq<char>, i: int) -> int
    decreases s.len() - i,
{
    if i < 0 || i >= s.len() {
        i
    } else if s[i] == ' ' {
        i
    } else {
        first_space_from(s, i + 1)
    }
}

/// The position of the first codepoint at or after `i` that is not a space,
/// or the length of `s` when only spaces follow.
pub open spec fn first_nonspace_from(s: Seq<char>, i: int) -> int
    decreases s.len() - i,
{
    if i < 0 || i >= s.len() {
        i
    } else if s[i] != ' ' {
        i
    } else {
        first_nonspace_from(s, i + 1)
    }
}

/// Where a command line splits from its trailing argument: just past the
/// spaces that follow the first space.
pub open spec fn arg_start(s: Seq<char>) -> int {
    first_nonspace_from(s, first_space_from(s, 0))
}

/// Finds the first space of `s`, per `first_space_from`.
pub fn find_first_space(s: &Vec<char>) -> (r: usize)
    ensures
        r == first_space_from(s@, 0),
        r <= s@.len(),
{
    let mut i: usize = 0;
    while i < s.len()
        invariant
            i <= s@.len(),
            first_space_from(s@, 0) == first_space_from(s@, i as int),
        decreases s@.len() - i,
    {
        if s[i] == ' ' {
            return i;
        }
        i = i + 1;
    }
    i
}

/// Finds the first non-space of `s` at or after `from`, per
/// `first_nonspace_from`.
pub fn find_nonspace(s: &Vec<char>, from: usize) -> (r: usize)
    requires
        from <= s@.len(),
    ensures
        r == first_nonspace_from(s@, from as int),
        from <= r <= s@.len(),
{
    let mut i: usize = from;
    while i < s.len()
        invariant
            from <= i <= s@.len(),
            first_nonspace_from(s@, from as int) == first_nonspace_from(s@, i as int),
        decreases s@.len() - i,
    {
        if s[i] != ' ' {
            return i;
        }
        i = i + 1;
    }
    i
}

/// The history holds the same entries, in the same order.
pub open spec fn same_entries(pre: HistoryLog, post: HistoryLog) -> bool {
    post.entries@.len() == pre.entries@.len() && (forall|i: int|
        0 <= i < pre.entries@.len() ==> post.entries@[i]@ == pre.entries@[i]@)
}

/// The history keeps the same entries and recall position.
pub open spec fn same_history(pre: HistoryLog, post: HistoryLog) -> bool {
    post.position == pre.position && same_entries(pre, post)
}

/// Only the live slot of the history changed, to `t`; committed entries and
/// the recall position are untouched.
pub open spec fn live_updated(pre: HistoryLog, post: HistoryLog, t: Seq<char>) -> bool {
    post.position == pre.position && post.entries@.len() == pre.entries@.len()
        && post.entries@.last()@ == t && (forall|i: int|
        0 <= i < pre.entries@.len() - 1 ==> post.entries@[i]@ == pre.entries@[i]@)
}

/// Buffer and history both stand exactly as before.
pub open spec fn same_state(pre: Session, post: Session) -> bool {
    post.buffer.text@ == pre.buffer.text@ && post.buffer.cursor == pre.buffer.cursor
        && same_history(pre.history, post.history)
}

/// One interactive read session: the editable line and the recall history.
/// A flat dispatch loop maps each keystroke to an operation on them and
/// tells the caller what outward effect to perform.
pub struct Session {
    pub buffer: EditBuffer,
    pub history: HistoryLog,
}

impl Session {
    pub open spec fn wf(self) -> bool {
        self.buffer.wf() && self.history.wf()
    }

    /// A fresh session: empty buffer, history holding one empty live slot.
    pub fn new() -> (r: Session)
        ensures
            r.wf(),
            r.buffer.text@ == Seq::<char>::empty(),
            r.buffer.cursor == 0,
            r.history.entries@.len() == 1,
            r.history.entries@[0]@ == Seq::<char>::empty(),
            r.history.position == 0,
    {
        Session { buffer: EditBuffer::new(), history: HistoryLog::new() }
    }

    /// Dispatches one keystroke. A character is inserted at the cursor;
    /// backspace, the arrows and history recall act at their boundaries by
    /// alerting without any state change; tab on a line with an argument
    /// hands back a completion request; enter asks the caller to commit.
    /// Every edit that changes the text also mirrors it into the history's
    /// live slot.
    pub fn handle_event(&mut self, ev: KeyEvent) -> (a: SessionAction)
        requires
            old(self).wf(),
        ensures
            final(self).wf(),
            (ev matches KeyEvent::Char(c) ==> a is Redraw && final(self).buffer.text@ == old(
                self,
            ).buffer.text@.insert(old(self).buffer.cursor as int, c) && final(self).buffer.cursor
                == old(self).buffer.cursor + 1 && live_updated(
                old(self).history,
                final(self).history,
                final(self).buffer.text@,
            )),
            ev is Backspace ==> {
                &&& old(self).buffer.cursor == 0 ==> a is Alert && same_state(
                    *old(self),
                    *final(self),
                )
                &&& old(self).buffer.cursor > 0 ==> a is Redraw && final(self).buffer.text@ == old(
                    self,
                ).buffer.text@.remove(old(self).buffer.cursor - 1) && final(self).buffer.cursor
                    == old(self).buffer.cursor - 1 && live_updated(
                    old(self).history,
                    final(self).history,
                    final(self).buffer.text@,
                )
            },
            ev is Left ==> {
                &&& old(self).buffer.cursor == 0 ==> a is Alert && same_state(
                    *old(self),
                    *final(self),
                )
                &&& old(self).buffer.cursor > 0 ==> a is Redraw && final(self).buffer.text@ == old(
                    self,
                ).buffer.text@ && final(self).buffer.cursor == old(self).buffer.cursor - 1
                    && same_history(old(self).history, final(self).history)
            },
            ev is Right ==> {
                &&& old(self).buffer.cursor == old(self).buffer.text@.len() ==> a is Alert
                    && same_state(*old(self), *final(self))
                &&& old(self).buffer.cursor < old(self).buffer.text@.len() ==> a is Redraw && final(self).buffer.text@ == old(self).buffer.text@ && final(self).buffer.cursor == old(
                    self,
                ).buffer.cursor + 1 && same_history(old(self).history, final(self).history)
            },
            ev is Up ==> {
                &&& old(self).history.position == 0 ==> a is Alert && same_state(
                    *old(self),
                    *final(self),
                )
                &&& old(self).history.position > 0 ==> a is Redraw && final(self).history.position
                    == old(self).history.position - 1 && same_entries(
                    old(self).history,
                    final(self).history,
                ) && final(self).buffer.text@
                    == old(self).history.entries@[old(self).history.position - 1]@
                    && final(self).buffer.cursor == final(self).buffer.text@.len()
            },
            ev is Down ==> {
                &&& old(self).history.position == old(self).history.entries@.len() - 1 ==> a
                    is Alert && same_state(*old(self), *final(self))
                &&& old(self).history.position < old(self).history.entries@.len() - 1 ==> a
                    is Redraw && final(self).history.position == old(self).history.position + 1
                    && same_entries(
                    old(self).history,
                    final(self).history,
                ) && final(self).buffer.text@
                    == old(self).history.entries@[old(self).history.position + 1]@
                    && final(self).buffer.cursor == final(self).buffer.text@.len()
            },
            ev is Tab ==> {
                &&& first_space_from(old(self).buffer.text@, 0) == old(self).buffer.text@.len()
                    ==> a is Alert && same_state(*old(self), *final(self))
                &&& first_space_from(old(self).buffer.text@, 0) < old(self).buffer.text@.len()
                    ==> same_state(*old(self), *final(self)) && (a matches SessionAction::Complete(
                    req,
                ) && req.fixed_prefix@ == old(self).buffer.text@.take(
                    first_space_from(old(self).buffer.text@, 0),
                ) && req.raw_argument@ == old(self).buffer.text@.skip(
                    arg_start(old(self).buffer.text@),
                ))
            },
            ev is Enter ==> a is Commit && same_state(*old(self), *final(self)),
            ev is Other ==> a is Quiet && same_state(*old(self), *final(self)),
    {
        match ev {
            KeyEvent::Char(c) => {
                self.buffer.insert(c);
                self.history.set_live(&self.buffer.text);
                SessionAction::Redraw
            },
            KeyEvent::Backspace => {
                if self.buffer.delete_before() {
                    self.history.set_live(&self.buffer.text);
                    SessionAction::Redraw
                } else {
                    SessionAction::Alert
                }
            },
            KeyEvent::Left => {
                if self.buffer.move_left() {
                    SessionAction::Redraw
                } else {
                    SessionAction::Alert
                }
            },
            KeyEvent::Right => {
                if self.buffer.move_right() {
                    SessionAction::Redraw
                } else {
                    SessionAction::Alert
                }
            },
            KeyEvent::Up => {
                match self.history.recall_previous() {
                    Option::Some(t) => {
                        self.buffer.replace_all(t);
                        SessionAction::Redraw
                    },
                    Option::None => SessionAction::Alert,
                }
            },
            KeyEvent::Down => {
                match self.history.recall_next() {
                    Option::Some(t) => {
                        self.buffer.replace_all(t);
                        SessionAction::Redraw
                    },
                    Option::None => SessionAction::Alert,
                }
            },
            KeyEvent::Tab => {
                let fsi = find_first_space(&self.buffer.text);
                if fsi == self.buffer.text.len() {
                    SessionAction::Alert
                } else {
                    let astart = find_nonspace(&self.buffer.text, fsi);
                    let mut fixed_prefix: Vec<char> = Vec::new();
                    let mut k: usize = 0;
                    while k < fsi
                        invariant
                            k <= fsi,
                            fsi <= self.buffer.text@.len(),
                            fixed_prefix@ == self.buffer.text@.take(k as int),
                        decreases fsi - k,
                    {
                        fixed_prefix.push(self.buffer.text[k]);
                        k = k + 1;
                        proof {
                            assert(fixed_prefix@ =~= self.buffer.text@.take(k as int));
                        }
                    }
                    let mut raw_argument: Vec<char> = Vec::new();
                    append_suffix(&mut raw_argument, &self.buffer.text, astart);
                    SessionAction::Complete(CompletionRequest { fixed_prefix, raw_argument })
                }
            },
            KeyEvent::Enter => SessionAction::Commit,
            KeyEvent::Other => SessionAction::Quiet,
        }
    }

    /// Takes the finished line out of the session. A non-empty line is
    /// committed: a fresh empty live slot is appended and recall moves onto
    /// it. An empty line commits nothing and the history stands as it was.
    /// Either way the buffer is reset for the next read.
    pub fn commit_line(&mut self) -> (line: Vec<char>)
        requires
            old(self).wf(),
        ensures
            final(self).wf(),
            line@ == old(self).buffer.text@,
            final(self).buffer.text@ == Seq::<char>::empty(),
            final(self).buffer.cursor == 0,
            old(self).buffer.text@.len() == 0 ==> same_history(
                old(self).history,
                final(self).history,
            ),
            old(self).buffer.text@.len() > 0 ==> {
                &&& final(self).history.entries@.len() == old(self).history.entries@.len() + 1
                &&& forall|i: int|
                    0 <= i < old(self).history.entries@.len() ==> final(self).history.entries@[i]@
                        == old(self).history.entries@[i]@
                &&& final(self).history.entries@.last()@ == Seq::<char>::empty()
                &&& final(self).history.position == final(self).history.entries@.len() - 1
            },
    {
        let line = clone_chars(&self.buffer.text);
        if line.len() > 0 {
            self.history.push();
        }
        self.buffer.replace_all(Vec::new());
        line
    }

    /// Splices an accepted completion into the line: the untouched prefix,
    /// one space, and the completed argument, with the cursor at the end.
    /// The live slot is not touched until the next edit keystroke.
    pub fn accept_completion(&mut self, fixed_prefix: &Vec<char>, argument: &Vec<char>)
        requires
            old(self).wf(),
        ensures
            final(self).wf(),
            final(self).buffer.text@ == fixed_prefix@ + seq![' '] + argument@,
            final(self).buffer.cursor == final(self).buffer.text@.len(),
            same_history(old(self).history, final(self).history),
    {
        let line = rebuild_line(fixed_prefix, argument);
        self.buffer.replace_all(line);
    }
}

} // verus!
