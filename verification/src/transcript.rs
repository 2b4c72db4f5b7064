//! The transcript log: an append-only record of every executed step's captured
//! output, grouped into one block per run.
//!
//! This module models the log's content as text built up by appends alone; the
//! surrounding program flushes each appended piece to the log file unchanged, so
//! the file holds the concatenation of the blocks of every run ever made.

use vstd::prelude::*;

verus! {

/// The text appended to the log by one run's start marker.
pub open spec fn run_start_text(ts: Seq<char>) -> Seq<char> {
    "\n=== Start: "@ + ts + " ===\n"@
}

/// The text appended to the log by one run's end marker.
pub open spec fn run_end_text(ts: Seq<char>) -> Seq<char> {
    "=== Completed: "@ + ts + " ===\n"@
}

/// The text appended to the log for one executed step: a header naming the step
/// and the moment it finished, then the captured standard output, then the
/// captured standard error, each terminated by a newline even when empty.
pub open spec fn step_entry_text(
    title: Seq<char>,
    ts: Seq<char>,
    out: Seq<char>,
    err: Seq<char>,
) -> Seq<char> {
    "### "@ + title + " @ "@ + ts + "\n"@ + out + "\n"@ + err + "\n"@
}

/// One complete run block: start marker, the executed steps' entries, end marker.
pub open spec fn run_block_text(
    start_ts: Seq<char>,
    entries: Seq<char>,
    end_ts: Seq<char>,
) -> Seq<char> {
    run_start_text(start_ts) + entries + run_end_text(end_ts)
}

/// The in-memory face of the transcript log: text is only ever appended, never
/// rewritten, reordered or truncated.
pub struct Transcript {
    pub content: String,
}

impl Transcript {
    /// A transcript that has had nothing appended yet. It stands for the tail of
    /// the log file that this run contributes; earlier runs' content precedes it
    /// in the file and is never touched.
    pub fn new() -> (t: Transcript)
        ensures
            t.content@ == Seq::<char>::empty(),
    {
        Transcript { content: String::new() }
    }

    /// Append text at the end; everything already present is kept unchanged.
    pub fn append(&mut self, text: &str)
        ensures
            final(self).content@ == old(self).content@ + text@,
    {
        self.content.append(text);
    }
}

/// Build the start marker for one run.
pub fn run_start_marker(ts: &str) -> (r: String)
    ensures
        r@ == run_start_text(ts@),
{
    let mut r = String::from_str("\n=== Start: ");
    r.append(ts);
    r.append(" ===\n");
    proof {
        assert(r@ =~= run_start_text(ts@));
    }
    r
}

/// Build the end marker for one run.
pub fn run_end_marker(ts: &str) -> (r: String)
    ensures
        r@ == run_end_text(ts@),
{
    let mut r = String::from_str("=== Completed: ");
    r.append(ts);
    r.append(" ===\n");
    proof {
        assert(r@ =~= run_end_text(ts@));
    }
    r
}

/// Build the transcript entry for one executed step.
pub fn step_entry(title: &str, ts: &str, out: &str, err: &str) -> (r: String)
    ensures
        r@ == step_entry_text(title@, ts@, out@, err@),
{
    let mut r = String::from_str("### ");
    r.append(title);
    r.append(" @ ");
    r.append(ts);
    r.append("\n");
    r.append(out);
    r.append("\n");
    r.append(err);
    r.append("\n");
    proof {
        assert(r@ =~= step_entry_text(title@, ts@, out@, err@));
    }
    r
}

/// Two consecutive runs against the same log leave the earlier content byte-for-byte
/// in place: after the second run the log is exactly the text after the first run
/// followed by the second run's block, its length is the first length plus the
/// block's length, and neither block is truncated or interleaved with the other.
pub proof fn lemma_log_two_runs(prior: Seq<char>, first: Seq<char>, second: Seq<char>)
    ensures
        (prior + first + second).len() == (prior + first).len() + second.len(),
        (prior + first + second).subrange(0, (prior + first).len() as int) == prior + first,
        (prior + first + second).subrange(
            (prior + first).len() as int,
            (prior + first + second).len() as int,
        ) == second,
{
    assert((prior + first + second).subrange(0, (prior + first).len() as int) =~= prior + first);
    assert((prior + first + second).subrange(
        (prior + first).len() as int,
        (prior + first + second).len() as int,
    ) =~= second);
}

} // verus!
