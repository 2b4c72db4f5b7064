//! The progress monitor: while a spawned process runs, an animated indicator is
//! redrawn in place on one terminal line; when the process terminates, one final
//! blocking wait drains it and the indicator line is erased.
//!
//! The monitor's behaviour is modelled as the trace of actions it takes, one per
//! poll: a tick that draws the next animation frame for every poll that still
//! found the process running, then — at the poll that found it terminated — one
//! drain followed by one erasure, and nothing after that.

use vstd::prelude::*;

verus! {

/// One action of the monitor, in the order taken: draw animation frame `i`,
/// perform the single blocking wait that collects exit status and streams, or
/// erase the indicator line.
#[derive(Clone, Copy, Debug, PartialEq, Eq, Structural)]
pub enum MonitorAction {
    Tick(usize),
    Drain,
    Erase,
}

/// The animation frame drawn on tick number `i` (frames cycle with period 12).
pub open spec fn spec_frame(i: int) -> Seq<char> {
    if i == 0 {
        "[\u{22d7}\u{22ef}\u{22ef}\u{22ef}\u{22ef}\u{22ef}\u{22ef}\u{22ef}\u{22ef}\u{22ef}\u{22ef}\u{22ef}\u{22ef}\u{22ef}]"@
    } else if i == 1 {
        "[ \u{22d7}\u{22ef}\u{22ef}\u{22ef}\u{22ef}\u{22ef}\u{22ef}\u{22ef}\u{22ef}\u{22ef}\u{22ef}\u{22ef}\u{22ef}]"@
    } else if i == 2 {
        "[  \u{22d7}\u{22ef}\u{22ef}\u{22ef}\u{22ef}\u{22ef}\u{22ef}\u{22ef}\u{22ef}\u{22ef}\u{22ef}\u{22ef}]"@
    } else if i == 3 {
        "[   \u{22d7}\u{22ef}\u{22ef}\u{22ef}\u{22ef}\u{22ef}\u{22ef}\u{22ef}\u{22ef}\u{22ef}\u{22ef}]"@
    } else if i == 4 {
        "[    \u{22d7}\u{22ef}\u{22ef}\u{22ef}\u{22ef}\u{22ef}\u{22ef}\u{22ef}\u{22ef}\u{22ef}]"@
    } else if i == 5 {
        "[     \u{22d7}\u{22ef}\u{22ef}\u{22ef}\u{22ef}\u{22ef}\u{22ef}\u{22ef}\u{22ef}]"@
    } else if i == 6 {
        "[      \u{22d7}\u{22ef}\u{22ef}\u{22ef}\u{22ef}\u{22ef}\u{22ef}\u{22ef}]"@
    } else if i == 7 {
        "[       \u{22d7}\u{22ef}\u{22ef}\u{22ef}\u{22ef}\u{22ef}\u{22ef}]"@
    } else if i == 8 {
        "[        \u{22d7}\u{22ef}\u{22ef}\u{22ef}\u{22ef}\u{22ef}]"@
    } else if i == 9 {
        "[         \u{22d7}\u{22ef}\u{22ef}\u{22ef}\u{22ef}]"@
    } else if i == 10 {
        "[          \u{22d7}\u{22ef}\u{22ef}\u{22ef}]"@
    } else {
        "[           \u{22d7}\u{22ef}\u{22ef}]"@
    }
}

/// The animation frame for tick `i`, cycling through the twelve frames.
pub fn frame(i: usize) -> (r: &'static str)
    ensures
        r@ == spec_frame(i as int % 12),
{
    match i % 12 {
        0 => "[\u{22d7}\u{22ef}\u{22ef}\u{22ef}\u{22ef}\u{22ef}\u{22ef}\u{22ef}\u{22ef}\u{22ef}\u{22ef}\u{22ef}\u{22ef}\u{22ef}]",
        1 => "[ \u{22d7}\u{22ef}\u{22ef}\u{22ef}\u{22ef}\u{22ef}\u{22ef}\u{22ef}\u{22ef}\u{22ef}\u{22ef}\u{22ef}\u{22ef}]",
        2 => "[  \u{22d7}\u{22ef}\u{22ef}\u{22ef}\u{22ef}\u{22ef}\u{22ef}\u{22ef}\u{22ef}\u{22ef}\u{22ef}\u{22ef}]",
        3 => "[   \u{22d7}\u{22ef}\u{22ef}\u{22ef}\u{22ef}\u{22ef}\u{22ef}\u{22ef}\u{22ef}\u{22ef}\u{22ef}]",
        4 => "[    \u{22d7}\u{22ef}\u{22ef}\u{22ef}\u{22ef}\u{22ef}\u{22ef}\u{22ef}\u{22ef}\u{22ef}]",
        5 => "[     \u{22d7}\u{22ef}\u{22ef}\u{22ef}\u{22ef}\u{22ef}\u{22ef}\u{22ef}\u{22ef}]",
        6 => "[      \u{22d7}\u{22ef}\u{22ef}\u{22ef}\u{22ef}\u{22ef}\u{22ef}\u{22ef}]",
        7 => "[       \u{22d7}\u{22ef}\u{22ef}\u{22ef}\u{22ef}\u{22ef}\u{22ef}]",
        8 => "[        \u{22d7}\u{22ef}\u{22ef}\u{22ef}\u{22ef}\u{22ef}]",
        9 => "[         \u{22d7}\u{22ef}\u{22ef}\u{22ef}\u{22ef}]",
        10 => "[          \u{22d7}\u{22ef}\u{22ef}\u{22ef}]",
        _ => "[           \u{22d7}\u{22ef}\u{22ef}]",
    }
}

/// The frame counter after one more tick: it cycles within 0..12.
pub fn next_frame_index(i: usize) -> (r: usize)
    requires
        i < 12,
    ensures
        r == (i + 1) % 12,
{
    if i >= 11 {
        0
    } else {
        i + 1
    }
}

/// The text that erases the indicator line: return to line start, overwrite with
/// `width` spaces, return to line start again.
pub open spec fn erase_text(width: nat) -> Seq<char> {
    seq!['\r'] + Seq::new(width, |i: int| ' ') + seq!['\r']
}

/// Build the erasure text for an indicator of the given width.
pub fn erase_line(width: usize) -> (r: String)
    ensures
        r@ == erase_text(width as nat),
{
    proof {
        reveal_strlit("\r");
        reveal_strlit(" ");
    }
    let mut r = String::from_str("\r");
    let mut i: usize = 0;
    while i < width
        invariant
            i <= width,
            r@ =~= seq!['\r'] + Seq::new(i as nat, |j: int| ' '),
        decreases width - i,
    {
        r.append(" ");
        i = i + 1;
        proof {
            reveal_strlit(" ");
            assert(r@ =~= seq!['\r'] + Seq::new(i as nat, |j: int| ' '));
        }
    }
    r.append("\r");
    proof {
        reveal_strlit("\r");
        assert(r@ =~= erase_text(width as nat));
    }
    r
}

/// The full action trace of one monitored process, given how many polls found it
/// still running: that many ticks, then the single drain, then the single erasure.
pub open spec fn monitor_trace_spec(polls: nat) -> Seq<MonitorAction> {
    Seq::new(polls, |i: int| MonitorAction::Tick((i % 12) as usize)) + seq![
        MonitorAction::Drain,
        MonitorAction::Erase,
    ]
}

/// Compute the monitor's action trace for a process that was seen still running
/// by exactly `polls` polls before termination was detected.
pub fn monitor_trace(polls: usize) -> (r: Vec<MonitorAction>)
    requires
        polls < usize::MAX - 1,
    ensures
        r@ == monitor_trace_spec(polls as nat),
{
    let mut r: Vec<MonitorAction> = Vec::new();
    let mut i: usize = 0;
    while i < polls
        invariant
            i <= polls,
            r@ =~= Seq::new(i as nat, |j: int| MonitorAction::Tick((j % 12) as usize)),
        decreases polls - i,
    {
        r.push(MonitorAction::Tick(i % 12));
        i = i + 1;
        proof {
            assert(r@ =~= Seq::new(i as nat, |j: int| MonitorAction::Tick((j % 12) as usize)));
        }
    }
    r.push(MonitorAction::Drain);
    r.push(MonitorAction::Erase);
    proof {
        assert(r@ =~= monitor_trace_spec(polls as nat));
    }
    r
}

/// Ordering of the monitor's actions: a tick happens only while the process was
/// still running — never at or after the poll that detected termination, which
/// sits at position `polls` as the single drain — and the erasure happens exactly
/// once, as the very last action, after every tick.
pub proof fn lemma_monitor_ordering(polls: nat)
    ensures
        monitor_trace_spec(polls).len() == polls + 2,
        forall|i: int|
            0 <= i < polls + 2 ==> ((monitor_trace_spec(polls)[i] is Tick) <==> i < polls),
        monitor_trace_spec(polls)[polls as int] is Drain,
        forall|i: int|
            0 <= i < polls + 2 ==> ((monitor_trace_spec(polls)[i] is Erase) <==> i == polls + 1),
{
}

} // verus!
