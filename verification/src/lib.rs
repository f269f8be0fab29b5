//! Core of an interactive application launcher: an editable input line, a
//! set of known executable names, a prefix-based candidate ranker, a bounded
//! selection cursor, and the dispatch decision taken when the user confirms.
//!
//! Everything here is pure state and computation; window handling, drawing,
//! key polling and process spawning live outside the library.
use vstd::prelude::*;

pub mod buffer;
pub mod dispatch;
pub mod engine;
pub mod index;
pub mod ranker;
pub mod selection;

verus! {

/// Upper bound on how many candidates are ever shown or navigable.
pub const MAX_SUGGESTIONS: usize = 5;

} // verus!
