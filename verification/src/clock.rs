//! The current timestamp, as written into status lines and the transcript log.

use vstd::prelude::*;

verus! {

/// Text that stays on one line of the log.
pub open spec fn newline_free(s: Seq<char>) -> bool {
    forall|i: int| 0 <= i < s.len() ==> s[i] != '\n'
}

/// Relies on chrono's `Local::now` and its strftime-style formatting: the
/// pattern `"%Y-%m-%d %H:%M:%S"` renders six zero-padded numeric fields joined
/// by the literal separators `-`, a space and `:`, so the result is never empty
/// and never holds a newline.
#[verifier::external_body]
fn clock_now() -> (r: String)
    ensures
        r@.len() > 0,
        newline_free(r@),
{
    chrono::Local::now().format("%Y-%m-%d %H:%M:%S").to_string()
}

/// The current local time, formatted for one line of a status display or of the
/// transcript log: nonempty, and free of newlines, so markers and entry headers
/// each stay on their own line.
pub fn current_timestamp() -> (r: String)
    ensures
        r@.len() > 0,
        newline_free(r@),
{
    clock_now()
}

} // verus!
