//! The orchestrator: a single forward traversal of the configured steps.
//!
//! The surrounding program performs the spawning and reports, for each step in
//! order, what happened to it — skipped at its gate, failed to launch, or exited.
//! Sequencing, classification and the transcript's run block are decided here:
//! no step's failure ever halts the traversal, and the final aggregate record is
//! unconditionally a success — a deliberate limitation: it confirms only that
//! the run reached its end, not that every step succeeded.

use vstd::prelude::*;

use crate::executor::RunOutcome;
use crate::executor::conclude_step;
use crate::executor::entry_of_outcome;
use crate::executor::record_matches;
use crate::executor::skip_message_text;
use crate::executor::skip_record;
use crate::status::StatusKind;
use crate::status::StatusRecord;
use crate::step::Step;
use crate::transcript::Transcript;
use crate::transcript::run_block_text;
use crate::transcript::run_end_marker;
use crate::transcript::run_start_marker;

verus! {

/// What the surrounding program reports of one step, in sequence order: its gate
/// found the tool absent, or the step was executed with the given outcome.
#[derive(Clone, Debug)]
pub enum StepEvent {
    GateAbsent,
    Completed(RunOutcome),
}

/// The transcript text one step contributes: nothing when it was skipped at its
/// gate, its single entry otherwise.
pub open spec fn step_entry_of(step: Step, ev: StepEvent, ts: Seq<char>) -> Seq<char> {
    match ev {
        StepEvent::GateAbsent => Seq::<char>::empty(),
        StepEvent::Completed(out) => entry_of_outcome(step.title@, ts, out),
    }
}

/// The transcript text of the first `n` steps, in order.
pub open spec fn entries_text(
    steps: Seq<Step>,
    events: Seq<StepEvent>,
    stamps: Seq<String>,
    n: int,
) -> Seq<char>
    decreases n,
{
    if n <= 0 {
        Seq::<char>::empty()
    } else {
        entries_text(steps, events, stamps, n - 1) + step_entry_of(
            steps[n - 1],
            events[n - 1],
            stamps[n - 1]@,
        )
    }
}

/// What the status record of one step must say, given what happened to it.
pub open spec fn step_record_matches(
    step: Step,
    ev: StepEvent,
    log_path: Seq<char>,
    r: StatusRecord,
) -> bool {
    match ev {
        StepEvent::GateAbsent => r.title@ == step.title@ && r.kind == StatusKind::Warning
            && r.message@ == skip_message_text(step.gate->0@),
        StepEvent::Completed(out) => record_matches(step, out, log_path, r),
    }
}

/// Run every configured step in order, never halting early: each step gets
/// exactly one status record, and the transcript grows by exactly the executed
/// steps' entries, in step order, with skipped steps contributing nothing.
pub fn run_steps(
    steps: &Vec<Step>,
    events: &Vec<StepEvent>,
    stamps: &Vec<String>,
    log: &mut Transcript,
    log_path: &str,
) -> (records: Vec<StatusRecord>)
    requires
        events@.len() == steps@.len(),
        stamps@.len() == steps@.len(),
        forall|i: int|
            0 <= i < steps@.len() ==> (events@[i] is GateAbsent ==> steps@[i].gate is Some),
    ensures
        records@.len() == steps@.len(),
        forall|i: int|
            0 <= i < steps@.len() ==> step_record_matches(
                steps@[i],
                events@[i],
                log_path@,
                records@[i],
            ),
        final(log).content@ == old(log).content@ + entries_text(
            steps@,
            events@,
            stamps@,
            steps@.len() as int,
        ),
{
    let mut records: Vec<StatusRecord> = Vec::new();
    let n = steps.len();
    let mut i: usize = 0;
    while i < n
        invariant
            n == steps@.len(),
            events@.len() == n,
            stamps@.len() == n,
            forall|j: int| 0 <= j < n ==> (events@[j] is GateAbsent ==> steps@[j].gate is Some),
            i <= n,
            records@.len() == i,
            forall|j: int|
                0 <= j < i ==> step_record_matches(
                    steps@[j],
                    events@[j],
                    log_path@,
                    records@[j],
                ),
            log.content@ == old(log).content@ + entries_text(steps@, events@, stamps@, i as int),
        decreases n - i,
    {
        let step = &steps[i];
        match &events[i] {
            StepEvent::GateAbsent => {
                records.push(skip_record(step));
            },
            StepEvent::Completed(out) => {
                let (record, entry) = conclude_step(step, stamps[i].as_str(), out, log_path);
                log.append(entry.as_str());
                records.push(record);
            },
        }
        i = i + 1;
        proof {
            assert(log.content@ =~= old(log).content@ + entries_text(
                steps@,
                events@,
                stamps@,
                i as int,
            ));
        }
    }
    records
}

/// One complete run: write the start marker, run every step in order, write the
/// end marker, and render the final aggregate record. That final record is a
/// success whatever the individual steps' outcomes were: it reports only that
/// the traversal reached its end.
pub fn orchestrate(
    steps: &Vec<Step>,
    events: &Vec<StepEvent>,
    stamps: &Vec<String>,
    start_ts: &str,
    end_ts: &str,
    log: &mut Transcript,
    log_path: &str,
) -> (r: (Vec<StatusRecord>, StatusRecord))
    requires
        events@.len() == steps@.len(),
        stamps@.len() == steps@.len(),
        forall|i: int|
            0 <= i < steps@.len() ==> (events@[i] is GateAbsent ==> steps@[i].gate is Some),
    ensures
        r.0@.len() == steps@.len(),
        forall|i: int|
            0 <= i < steps@.len() ==> step_record_matches(
                steps@[i],
                events@[i],
                log_path@,
                r.0@[i],
            ),
        r.1.kind == StatusKind::Success,
        r.1.title@ == "System Update"@,
        r.1.message@ == "All tasks completed"@,
        final(log).content@ == old(log).content@ + run_block_text(
            start_ts@,
            entries_text(steps@, events@, stamps@, steps@.len() as int),
            end_ts@,
        ),
{
    let start = run_start_marker(start_ts);
    log.append(start.as_str());
    let records = run_steps(steps, events, stamps, log, log_path);
    let finish = run_end_marker(end_ts);
    log.append(finish.as_str());
    let aggregate = StatusRecord {
        title: String::from_str("System Update"),
        message: String::from_str("All tasks completed"),
        kind: StatusKind::Success,
    };
    proof {
        assert(log.content@ =~= old(log).content@ + run_block_text(
            start_ts@,
            entries_text(steps@, events@, stamps@, steps@.len() as int),
            end_ts@,
        ));
    }
    (records, aggregate)
}

} // verus!
