//! The decision core of the interaction loop: how one input event changes
//! the launcher's editable state.
//!
//! The host loop (outside the library) polls for events, feeds each one to
//! `handle_event`, recomputes the candidate list with `ranker::rank`, and
//! on a confirm event asks `dispatch::confirm` what to do.
use vstd::prelude::*;

verus! {

use crate::buffer::InputBuffer;
use crate::buffer::cursor_after_backspace;
use crate::buffer::cursor_after_right;
use crate::buffer::text_after_backspace;
use crate::dispatch::LaunchRequest;
use crate::dispatch::confirm;
use crate::selection::SelectionCursor;
use crate::selection::nav_down;
use crate::selection::nav_up;

/// One discrete input event, as reported by the host window.
#[derive(Clone, Copy, PartialEq, Eq, Structural, Debug)]
pub enum InputEvent {
    /// A character was typed.
    CharTyped(char),
    /// The key that deletes before the cursor.
    Backspace,
    /// Move the text cursor one place left.
    CursorLeft,
    /// Move the text cursor one place right.
    CursorRight,
    /// Move the selection highlight one row up.
    SelectUp,
    /// Move the selection highlight one row down.
    SelectDown,
}

/// Everything the interaction loop mutates: the input line and the
/// selection cursor. The executable index is read-only and lives beside
/// this state, not inside it.
pub struct LauncherState {
    pub buffer: InputBuffer,
    pub selection: SelectionCursor,
}

impl LauncherState {
    /// Both components are well-formed.
    pub open spec fn wf(self) -> bool {
        self.buffer.wf() && self.selection.wf()
    }

    /// The launcher starts with an empty input line, the cursor at the
    /// start, and the top row selected.
    pub fn new() -> (r: LauncherState)
        ensures
            r.wf(),
            r.buffer.text@ == Seq::<char>::empty(),
            r.buffer.cursor == 0,
            r.selection.index == 0,
    {
        LauncherState { buffer: InputBuffer::new(), selection: SelectionCursor::new() }
    }

    /// Apply one input event: typing and cursor keys edit the buffer and
    /// leave the selection alone; navigation keys move the selection and
    /// leave the buffer alone.
    pub fn handle_event(&mut self, event: InputEvent)
        requires
            old(self).wf(),
            old(self).buffer.text@.len() < usize::MAX,
        ensures
            final(self).wf(),
            match event {
                InputEvent::CharTyped(c) => {
                    &&& final(self).buffer.text@ == old(self).buffer.text@.insert(
                        old(self).buffer.cursor as int,
                        c,
                    )
                    &&& final(self).buffer.cursor == old(self).buffer.cursor + 1
                    &&& final(self).selection == old(self).selection
                },
                InputEvent::Backspace => {
                    &&& final(self).buffer.text@ == text_after_backspace(
                        old(self).buffer.text@,
                        old(self).buffer.cursor as nat,
                    )
                    &&& final(self).buffer.cursor == cursor_after_backspace(
                        old(self).buffer.cursor as nat,
                    )
                    &&& final(self).selection == old(self).selection
                },
                InputEvent::CursorLeft => {
                    &&& final(self).buffer.text@ == old(self).buffer.text@
                    &&& final(self).buffer.cursor == cursor_after_backspace(
                        old(self).buffer.cursor as nat,
                    )
                    &&& final(self).selection == old(self).selection
                },
                InputEvent::CursorRight => {
                    &&& final(self).buffer.text@ == old(self).buffer.text@
                    &&& final(self).buffer.cursor == cursor_after_right(
                        old(self).buffer.text@.len(),
                        old(self).buffer.cursor as nat,
                    )
                    &&& final(self).selection == old(self).selection
                },
                InputEvent::SelectUp => {
                    &&& final(self).buffer == old(self).buffer
                    &&& final(self).selection.index == nav_up(old(self).selection.index as nat)
                },
                InputEvent::SelectDown => {
                    &&& final(self).buffer == old(self).buffer
                    &&& final(self).selection.index == nav_down(old(self).selection.index as nat)
                },
            },
    {
        match event {
            InputEvent::CharTyped(c) => self.buffer.insert_char(c),
            InputEvent::Backspace => self.buffer.delete_before_cursor(),
            InputEvent::CursorLeft => self.buffer.move_left(),
            InputEvent::CursorRight => self.buffer.move_right(),
            InputEvent::SelectUp => self.selection.move_up(),
            InputEvent::SelectDown => self.selection.move_down(),
        }
    }

    /// Decide what a confirm event does in this state, against the
    /// candidate list the loop last computed: launch the highlighted
    /// candidate if there is one under the highlight, else do nothing.
    pub fn confirm(&self, candidates: &Vec<String>) -> (r: Option<LaunchRequest>)
        ensures
            r is Some <==> self.selection.index < candidates@.len(),
            r matches Some(req) ==> req.program@ == candidates@[self.selection.index as int]@,
    {
        confirm(candidates, self.selection.index)
    }
}

} // verus!
