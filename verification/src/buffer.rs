//! The editable input line: a sequence of characters plus a cursor.
//!
//! All four operations are total over well-formed buffers; none can fail or
//! panic. The cursor always stays inside `[0, len(text)]`.
use vstd::prelude::*;

verus! {

/// An editable text line with a cursor position.
///
/// Invariant (`wf`): `cursor <= text.len()`, so the cursor always denotes a
/// valid insertion point into the text.
pub struct InputBuffer {
    pub text: Vec<char>,
    pub cursor: usize,
}

impl InputBuffer {
    /// The cursor is a valid offset into the text.
    pub open spec fn wf(self) -> bool {
        self.cursor <= self.text@.len()
    }

    /// A fresh buffer is empty with the cursor at the start.
    pub fn new() -> (r: InputBuffer)
        ensures
            r.wf(),
            r.text@ == Seq::<char>::empty(),
            r.cursor == 0,
    {
        InputBuffer { text: Vec::new(), cursor: 0 }
    }

    /// Insert `c` at the cursor and advance the cursor past it.
    /// Accepts any character; what is printable is the renderer's concern.
    pub fn insert_char(&mut self, c: char)
        requires
            old(self).wf(),
            old(self).text@.len() < usize::MAX,
        ensures
            final(self).wf(),
            final(self).text@ == old(self).text@.insert(old(self).cursor as int, c),
            final(self).cursor == old(self).cursor + 1,
    {
        self.text.insert(self.cursor, c);
        self.cursor = self.cursor + 1;
    }

    /// Remove the character immediately before the cursor and step the
    /// cursor back over it; a no-op when the cursor is at the start.
    pub fn delete_before_cursor(&mut self)
        requires
            old(self).wf(),
        ensures
            final(self).wf(),
            old(self).cursor > 0 ==> final(self).text@ == old(self).text@.remove(
                old(self).cursor - 1,
            ) && final(self).cursor == old(self).cursor - 1,
            old(self).cursor == 0 ==> final(self).text@ == old(self).text@ && final(self).cursor
                == 0,
    {
        if self.cursor > 0 {
            self.text.remove(self.cursor - 1);
            self.cursor = self.cursor - 1;
        }
    }

    /// Step the cursor one place left; a no-op at the start of the text.
    pub fn move_left(&mut self)
        requires
            old(self).wf(),
        ensures
            final(self).wf(),
            final(self).text@ == old(self).text@,
            old(self).cursor > 0 ==> final(self).cursor == old(self).cursor - 1,
            old(self).cursor == 0 ==> final(self).cursor == 0,
    {
        if self.cursor > 0 {
            self.cursor = self.cursor - 1;
        }
    }

    /// Step the cursor one place right; a no-op at the end of the text.
    pub fn move_right(&mut self)
        requires
            old(self).wf(),
        ensures
            final(self).wf(),
            final(self).text@ == old(self).text@,
            old(self).cursor < old(self).text@.len() ==> final(self).cursor == old(self).cursor
                + 1,
            old(self).cursor == old(self).text@.len() ==> final(self).cursor == old(self).cursor,
    {
        if self.cursor < self.text.len() {
            self.cursor = self.cursor + 1;
        }
    }
}

/// The text after deleting before cursor position `cur` in `t`.
pub open spec fn text_after_backspace(t: Seq<char>, cur: nat) -> Seq<char> {
    if cur > 0 {
        t.remove(cur - 1)
    } else {
        t
    }
}

/// The cursor after deleting before cursor position `cur` (also the cursor
/// after one step left: both clamp at the start).
pub open spec fn cursor_after_backspace(cur: nat) -> nat {
    if cur > 0 {
        (cur - 1) as nat
    } else {
        0
    }
}

/// The cursor after one step right in a text of length `len`.
pub open spec fn cursor_after_right(len: nat, cur: nat) -> nat {
    if cur < len {
        cur + 1
    } else {
        cur
    }
}

/// Law: inserting a character at the cursor and then deleting before the
/// (advanced) cursor is an identity on `(text, cursor)`. Stated over the
/// sequence-level effect of `insert_char` followed by
/// `delete_before_cursor`, exactly as their contracts describe them.
pub proof fn lemma_insert_then_delete_is_identity(t: Seq<char>, cursor: nat, c: char)
    requires
        cursor <= t.len(),
    ensures
        text_after_backspace(t.insert(cursor as int, c), cursor + 1) == t,
        cursor_after_backspace(cursor + 1) == cursor,
{
    assert(t.insert(cursor as int, c).remove(cursor as int) =~= t);
}

} // verus!
