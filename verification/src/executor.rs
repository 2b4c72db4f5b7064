//! The step executor: for one step it decides whether the step runs at all, and,
//! once the spawned command has finished (or failed to start), classifies the
//! outcome and produces the transcript entry.
//!
//! Spawning itself is operating-system work done by the surrounding program; the
//! executor's decisions are captured here as two total functions, one before the
//! spawn and one after it, whose contracts pin every field of what they produce.

use vstd::prelude::*;

use crate::status::StatusKind;
use crate::status::StatusRecord;
use crate::step::Step;
use crate::transcript::step_entry_text;
use crate::transcript::step_entry;

verus! {

/// Everything one finished command leaves behind: both captured streams and
/// whether the process exited with status zero.
#[derive(Clone, Debug)]
pub struct CapturedOutput {
    pub stdout: String,
    pub stderr: String,
    pub exit_succeeded: bool,
}

/// What spawning and awaiting one command came to: either the shell itself could
/// not be started, or the process ran to completion and was drained.
#[derive(Clone, Debug)]
pub enum RunOutcome {
    LaunchFailed(String),
    Exited(CapturedOutput),
}

/// The executor's decision before anything is spawned: either the step is skipped
/// outright, with the warning to render, or its command is to be run.
#[derive(Clone, Debug)]
pub enum StepPlan {
    Skip(StatusRecord),
    Run(String),
}

/// A step is blocked exactly when it has a gate and the gated tool is absent.
pub open spec fn gate_blocks(step: Step, gate_available: bool) -> bool {
    step.gate is Some && !gate_available
}

/// The warning shown in place of a blocked step.
pub open spec fn skip_message_text(gate: Seq<char>) -> Seq<char> {
    gate + " not installed - Skipping"@
}

/// The announcement shown before a command runs.
pub open spec fn announce_message_text(command: Seq<char>) -> Seq<char> {
    "Executing: "@ + command
}

/// The message of a step that exited with status zero.
pub open spec fn success_message_text() -> Seq<char> {
    "Completed successfully"@
}

/// The message of a step that exited with a nonzero status: it points the
/// operator at the transcript log rather than echoing the captured streams.
pub open spec fn fail_message_text(log_path: Seq<char>) -> Seq<char> {
    "Failed - Check log: "@ + log_path
}

/// The message of a step whose shell could not be started at all.
pub open spec fn launch_fail_message_text(log_path: Seq<char>) -> Seq<char> {
    "Failed to start - Check log: "@ + log_path
}

/// How many processes a plan spawns: none for a skipped step, one otherwise.
pub open spec fn plan_spawns(p: StepPlan) -> nat {
    match p {
        StepPlan::Skip(_) => 0,
        StepPlan::Run(_) => 1,
    }
}

/// How many transcript entries a plan leads to: none for a skipped step, exactly
/// one otherwise — a launch failure still writes its entry.
pub open spec fn plan_entries(p: StepPlan) -> nat {
    match p {
        StepPlan::Skip(_) => 0,
        StepPlan::Run(_) => 1,
    }
}

/// What `plan_step` promises: a blocked step yields a warning record and nothing
/// else; any other step yields its command, verbatim.
pub open spec fn plan_matches(step: Step, gate_available: bool, p: StepPlan) -> bool {
    if gate_blocks(step, gate_available) {
        p matches StepPlan::Skip(r) && r.title@ == step.title@ && r.kind == StatusKind::Warning
            && r.message@ == skip_message_text(step.gate->0@)
    } else {
        p matches StepPlan::Run(c) && c@ == step.command@
    }
}

/// The transcript entry one outcome produces: a launch failure records its message
/// in the standard-error position with empty standard output; a finished process
/// records both captured streams in full.
pub open spec fn entry_of_outcome(title: Seq<char>, ts: Seq<char>, outcome: RunOutcome) -> Seq<
    char,
> {
    match outcome {
        RunOutcome::LaunchFailed(m) => step_entry_text(title, ts, Seq::<char>::empty(), m@),
        RunOutcome::Exited(o) => step_entry_text(title, ts, o.stdout@, o.stderr@),
    }
}

/// What `conclude_step` promises of the terminal status record: success exactly
/// when the process exited with status zero, error otherwise — including a failed
/// launch — with the fixed message for each case.
pub open spec fn record_matches(
    step: Step,
    outcome: RunOutcome,
    log_path: Seq<char>,
    r: StatusRecord,
) -> bool {
    r.title@ == step.title@ && match outcome {
        RunOutcome::LaunchFailed(_) => r.kind == StatusKind::Error && r.message@
            == launch_fail_message_text(log_path),
        RunOutcome::Exited(o) => if o.exit_succeeded {
            r.kind == StatusKind::Success && r.message@ == success_message_text()
        } else {
            r.kind == StatusKind::Error && r.message@ == fail_message_text(log_path)
        },
    }
}

/// The warning rendered in place of a gated step whose tool is absent.
pub fn skip_record(step: &Step) -> (r: StatusRecord)
    requires
        step.gate is Some,
    ensures
        r.title@ == step.title@,
        r.kind == StatusKind::Warning,
        r.message@ == skip_message_text(step.gate->0@),
{
    let gate = step.gate.as_ref().unwrap();
    let mut message = gate.clone();
    message.append(" not installed - Skipping");
    StatusRecord { title: step.title.clone(), message, kind: StatusKind::Warning }
}

/// The informational record announcing the command about to run.
pub fn announce_record(step: &Step) -> (r: StatusRecord)
    ensures
        r.title@ == step.title@,
        r.kind == StatusKind::Info,
        r.message@ == announce_message_text(step.command@),
{
    let mut message = String::from_str("Executing: ");
    message.append(step.command.as_str());
    StatusRecord { title: step.title.clone(), message, kind: StatusKind::Info }
}

/// Decide whether a step runs. A gated step whose tool is absent is skipped
/// entirely: no process is spawned and no transcript entry is written for it,
/// only the returned warning is rendered.
pub fn plan_step(step: &Step, gate_available: bool) -> (p: StepPlan)
    ensures
        plan_matches(*step, gate_available, p),
        gate_blocks(*step, gate_available) ==> plan_spawns(p) == 0 && plan_entries(p) == 0,
        !gate_blocks(*step, gate_available) ==> plan_spawns(p) == 1 && plan_entries(p) == 1,
{
    if step.gate.is_some() && !gate_available {
        StepPlan::Skip(skip_record(step))
    } else {
        StepPlan::Run(step.command.clone())
    }
}

/// Classify a finished step and build its transcript entry. The record's kind
/// depends on the exit status alone, never on the captured output's content; the
/// entry always records both streams (or, for a failed launch, the failure
/// message), each terminated by a newline.
pub fn conclude_step(step: &Step, ts: &str, outcome: &RunOutcome, log_path: &str) -> (r: (
    StatusRecord,
    String,
))
    ensures
        record_matches(*step, *outcome, log_path@, r.0),
        r.1@ == entry_of_outcome(step.title@, ts@, *outcome),
{
    match outcome {
        RunOutcome::LaunchFailed(m) => {
            let mut message = String::from_str("Failed to start - Check log: ");
            message.append(log_path);
            let record = StatusRecord {
                title: step.title.clone(),
                message,
                kind: StatusKind::Error,
            };
            let entry = step_entry(step.title.as_str(), ts, "", m.as_str());
            proof {
                reveal_strlit("");
                assert(""@ =~= Seq::<char>::empty());
            }
            (record, entry)
        },
        RunOutcome::Exited(o) => {
            let record = if o.exit_succeeded {
                StatusRecord {
                    title: step.title.clone(),
                    message: String::from_str("Completed successfully"),
                    kind: StatusKind::Success,
                }
            } else {
                let mut message = String::from_str("Failed - Check log: ");
                message.append(log_path);
                StatusRecord { title: step.title.clone(), message, kind: StatusKind::Error }
            };
            let entry = step_entry(step.title.as_str(), ts, o.stdout.as_str(), o.stderr.as_str());
            (record, entry)
        },
    }
}

/// For every step with a gate whose tool the prober reports absent, executing the
/// step performs zero spawns, appends zero transcript entries, and yields a
/// warning record carrying the step's own title.
pub proof fn lemma_gated_absent_executes_nothing(step: Step, p: StepPlan)
    requires
        step.gate is Some,
        plan_matches(step, false, p),
    ensures
        plan_spawns(p) == 0,
        plan_entries(p) == 0,
        p matches StepPlan::Skip(r) && r.kind == StatusKind::Warning && r.title@ == step.title@,
{
}

/// For every step without a gate, executing the step spawns exactly once and
/// leads to exactly one transcript entry, whatever the prober would have said.
pub proof fn lemma_ungated_spawns_once(step: Step, gate_available: bool, p: StepPlan)
    requires
        step.gate is None,
        plan_matches(step, gate_available, p),
    ensures
        plan_spawns(p) == 1,
        plan_entries(p) == 1,
        p matches StepPlan::Run(c) && c@ == step.command@,
{
}

/// The exit status alone classifies a finished step: two outcomes that agree on
/// it are classified alike, success for status zero and error otherwise,
/// whatever either one's captured streams hold.
pub proof fn lemma_exit_status_alone_classifies(
    step: Step,
    o1: CapturedOutput,
    o2: CapturedOutput,
    log_path: Seq<char>,
    r1: StatusRecord,
    r2: StatusRecord,
)
    requires
        o1.exit_succeeded == o2.exit_succeeded,
        record_matches(step, RunOutcome::Exited(o1), log_path, r1),
        record_matches(step, RunOutcome::Exited(o2), log_path, r2),
    ensures
        r1.kind == r2.kind,
        r1.kind == if o1.exit_succeeded {
            StatusKind::Success
        } else {
            StatusKind::Error
        },
{
}

} // verus!
