//! The selection cursor: which row of the candidate list is highlighted.
//!
//! The cursor is clamped against the fixed bound `MAX_SUGGESTIONS`, not
//! against the live candidate count; the dispatcher therefore re-checks the
//! cursor against the actual list before acting (see `dispatch`).
use vstd::prelude::*;

verus! {

use crate::MAX_SUGGESTIONS;

/// A navigation keypress: one step up or one step down the candidate list.
#[derive(Clone, Copy, PartialEq, Eq, Structural, Debug)]
pub enum NavMove {
    Up,
    Down,
}

/// The highlighted row of the candidate list.
///
/// Invariant (`wf`): the index stays in `[0, MAX_SUGGESTIONS)` no matter
/// which navigation events arrive, because `Down` is clamped against
/// `MAX_SUGGESTIONS - 1` and `Up` against `0`.
#[derive(Clone, Copy, PartialEq, Eq, Structural, Debug)]
pub struct SelectionCursor {
    pub index: usize,
}

/// One `Up` step on a selection index: decrement unless already at `0`.
pub open spec fn nav_up(i: nat) -> nat {
    if i > 0 {
        (i - 1) as nat
    } else {
        0
    }
}

/// One `Down` step on a selection index: increment unless already at
/// `MAX_SUGGESTIONS - 1`.
pub open spec fn nav_down(i: nat) -> nat {
    if i < MAX_SUGGESTIONS - 1 {
        (i + 1) as nat
    } else {
        i
    }
}

/// One navigation step of either direction.
pub open spec fn apply_nav(i: nat, m: NavMove) -> nat {
    match m {
        NavMove::Up => nav_up(i),
        NavMove::Down => nav_down(i),
    }
}

/// A whole sequence of navigation steps, applied left to right.
pub open spec fn apply_navs(i: nat, ms: Seq<NavMove>) -> nat
    decreases ms.len(),
{
    if ms.len() == 0 {
        i
    } else {
        apply_navs(apply_nav(i, ms[0]), ms.drop_first())
    }
}

/// Law: starting inside `[0, MAX_SUGGESTIONS)`, no sequence of `Up`/`Down`
/// steps ever takes the selection index outside `[0, MAX_SUGGESTIONS)`.
pub proof fn lemma_navigation_stays_in_bounds(i: nat, ms: Seq<NavMove>)
    requires
        i < MAX_SUGGESTIONS,
    ensures
        apply_navs(i, ms) < MAX_SUGGESTIONS,
    decreases ms.len(),
{
    if ms.len() > 0 {
        lemma_navigation_stays_in_bounds(apply_nav(i, ms[0]), ms.drop_first());
    }
}

impl SelectionCursor {
    /// The index is inside the fixed window of displayable rows.
    pub open spec fn wf(self) -> bool {
        self.index < MAX_SUGGESTIONS
    }

    /// A fresh cursor starts on the top row.
    pub fn new() -> (r: SelectionCursor)
        ensures
            r.wf(),
            r.index == 0,
    {
        SelectionCursor { index: 0 }
    }

    /// Move the highlight one row up; a no-op on the top row.
    pub fn move_up(&mut self)
        requires
            old(self).wf(),
        ensures
            final(self).wf(),
            final(self).index == nav_up(old(self).index as nat),
    {
        if self.index > 0 {
            self.index = self.index - 1;
        }
    }

    /// Move the highlight one row down; a no-op on the bottom displayable
    /// row (`MAX_SUGGESTIONS - 1`), regardless of how many candidates exist.
    pub fn move_down(&mut self)
        requires
            old(self).wf(),
        ensures
            final(self).wf(),
            final(self).index == nav_down(old(self).index as nat),
    {
        if self.index < MAX_SUGGESTIONS - 1 {
            self.index = self.index + 1;
        }
    }
}

} // verus!
