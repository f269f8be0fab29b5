//! The launch dispatcher: the decision taken when the user confirms.
//!
//! Confirming is only meaningful while the selection points at an actual
//! candidate; a selection beyond the end of a short candidate list is a
//! defined no-op rather than an out-of-bounds read.
use vstd::prelude::*;

verus! {

use vstd::string::StringExecFns;

/// The chosen program, ready to hand to the process-spawn collaborator.
pub struct LaunchRequest {
    pub program: String,
}

/// Decide what a confirm event does: launch the selected candidate if the
/// selection points inside the candidate list, otherwise nothing.
///
/// Returns `Some` exactly when `selection < candidates.len()`, and then
/// names the selected candidate.
pub fn confirm(candidates: &Vec<String>, selection: usize) -> (r: Option<LaunchRequest>)
    ensures
        r is Some <==> selection < candidates@.len(),
        r matches Some(req) ==> req.program@ == candidates@[selection as int]@,
{
    if selection < candidates.len() {
        Some(LaunchRequest { program: candidates[selection].clone() })
    } else {
        None
    }
}

/// Turn a launch request into the command and arguments to spawn: either
/// the program by itself, or a terminal emulator told (via `-e`) to run
/// the program inside it.
pub fn command_line(req: &LaunchRequest, terminal: Option<&String>) -> (r: (String, Vec<String>))
    ensures
        terminal matches Some(t) ==> r.0@ == t@ && r.1@.len() == 2 && r.1@[0]@ == "-e"@
            && r.1@[1]@ == req.program@,
        terminal is None ==> r.0@ == req.program@ && r.1@.len() == 0,
{
    match terminal {
        Some(t) => {
            let mut args: Vec<String> = Vec::new();
            args.push(String::from_str("-e"));
            args.push(req.program.clone());
            (t.clone(), args)
        },
        None => (req.program.clone(), Vec::new()),
    }
}

} // verus!
