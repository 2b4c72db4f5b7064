//! The availability prober: decides whether a gated tool is reachable on the
//! current search path.
//!
//! The probe itself is a transient child process (the shell's own command
//! resolution); the surrounding program spawns it and reports back whether the
//! spawn worked and how it exited. The prober's command line and its fail-open
//! reading of the result are decided here.

use vstd::prelude::*;

verus! {

/// The shell command that resolves a tool name on the search path.
pub open spec fn probe_command_text(name: Seq<char>) -> Seq<char> {
    "which "@ + name
}

/// Build the probe command for one tool name.
pub fn probe_command(name: &str) -> (r: String)
    ensures
        r@ == probe_command_text(name@),
{
    let mut r = String::from_str("which ");
    r.append(name);
    r
}

/// Read a probe's result, failing open to "absent": the tool counts as available
/// exactly when the probe process could be spawned and exited with status zero;
/// a spawn failure or a nonzero resolution exit both mean "absent", never an
/// error.
pub fn probe_available(spawn_ok: bool, exit_succeeded: bool) -> (r: bool)
    ensures
        r == (spawn_ok && exit_succeeded),
{
    spawn_ok && exit_succeeded
}

} // verus!
