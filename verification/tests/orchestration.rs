use legendary_update::executor::CapturedOutput;
use legendary_update::executor::RunOutcome;
use legendary_update::orchestrator::StepEvent;
use legendary_update::orchestrator::orchestrate;
use legendary_update::status::StatusKind;
use legendary_update::step::Step;
use legendary_update::transcript::Transcript;
use legendary_update::transcript::run_end_marker;
use legendary_update::transcript::run_start_marker;
use legendary_update::transcript::step_entry;

fn ungated(title: &str, command: &str) -> Step {
    Step { title: title.to_string(), command: command.to_string(), gate: None }
}

fn gated(title: &str, command: &str, gate: &str) -> Step {
    Step { title: title.to_string(), command: command.to_string(), gate: Some(gate.to_string()) }
}

fn exited(stdout: &str, stderr: &str, ok: bool) -> StepEvent {
    StepEvent::Completed(RunOutcome::Exited(CapturedOutput {
        stdout: stdout.to_string(),
        stderr: stderr.to_string(),
        exit_succeeded: ok,
    }))
}

const LOG: &str = "/tmp/legendary-update.log";

#[test]
fn middle_failure_does_not_halt_the_run() {
    let steps = vec![
        ungated("First", "exit 0"),
        ungated("Second", "exit 1"),
        ungated("Third", "exit 0"),
    ];
    let events = vec![exited("", "", true), exited("", "boom\n", false), exited("", "", true)];
    let stamps = vec!["T1".to_string(), "T2".to_string(), "T3".to_string()];
    let mut log = Transcript::new();
    let (records, aggregate) = orchestrate(&steps, &events, &stamps, "S", "E", &mut log, LOG);
    assert_eq!(records.len(), 3);
    assert_eq!(records[0].kind, StatusKind::Success);
    assert_eq!(records[1].kind, StatusKind::Error);
    assert_eq!(records[2].kind, StatusKind::Success);
    assert_eq!(aggregate.kind, StatusKind::Success);
    assert_eq!(aggregate.title, "System Update");
    assert_eq!(aggregate.message, "All tasks completed");
}

#[test]
fn run_block_is_markers_around_entries() {
    let steps = vec![ungated("Only", "exit 0")];
    let events = vec![exited("out\n", "", true)];
    let stamps = vec!["T".to_string()];
    let mut log = Transcript::new();
    orchestrate(&steps, &events, &stamps, "S", "E", &mut log, LOG);
    let expected = format!(
        "{}{}{}",
        run_start_marker("S"),
        step_entry("Only", "T", "out\n", ""),
        run_end_marker("E"),
    );
    assert_eq!(log.content, expected);
    assert_eq!(run_start_marker("S"), "\n=== Start: S ===\n");
    assert_eq!(run_end_marker("E"), "=== Completed: E ===\n");
    assert_eq!(step_entry("Only", "T", "out\n", ""), "### Only @ T\nout\n\n\n");
}

#[test]
fn second_run_appends_without_truncation() {
    let steps = vec![ungated("Step", "exit 0")];
    let first_events = vec![exited("alpha\n", "", true)];
    let second_events = vec![exited("beta\n", "", false)];
    let stamps = vec!["T".to_string()];
    let mut log = Transcript::new();
    orchestrate(&steps, &first_events, &stamps, "S1", "E1", &mut log, LOG);
    let after_first = log.content.clone();
    orchestrate(&steps, &second_events, &stamps, "S2", "E2", &mut log, LOG);
    let second_block = format!(
        "{}{}{}",
        run_start_marker("S2"),
        step_entry("Step", "T", "beta\n", ""),
        run_end_marker("E2"),
    );
    assert!(log.content.starts_with(&after_first));
    assert_eq!(log.content.len(), after_first.len() + second_block.len());
    assert_eq!(log.content, format!("{}{}", after_first, second_block));
}

#[test]
fn skipped_step_writes_no_entry_and_warns() {
    let steps = vec![
        gated("Yay Update", "yay -Syu --noconfirm", "yay"),
        ungated("Pacman Update", "exit 0"),
    ];
    let events = vec![StepEvent::GateAbsent, exited("", "", true)];
    let stamps = vec!["T0".to_string(), "T1".to_string()];
    let mut log = Transcript::new();
    let (records, _) = orchestrate(&steps, &events, &stamps, "S", "E", &mut log, LOG);
    assert_eq!(records.len(), 2);
    assert_eq!(records[0].kind, StatusKind::Warning);
    assert_eq!(records[0].message, "yay not installed - Skipping");
    assert_eq!(records[1].kind, StatusKind::Success);
    let expected = format!(
        "{}{}{}",
        run_start_marker("S"),
        step_entry("Pacman Update", "T1", "", ""),
        run_end_marker("E"),
    );
    assert_eq!(log.content, expected);
    assert!(!log.content.contains("Yay"));
}

#[test]
fn launch_failure_event_is_logged_and_run_continues() {
    let steps = vec![ungated("Hard Step", "true"), ungated("Easy Step", "exit 0")];
    let events = vec![
        StepEvent::Completed(RunOutcome::LaunchFailed("permission denied".to_string())),
        exited("", "", true),
    ];
    let stamps = vec!["T0".to_string(), "T1".to_string()];
    let mut log = Transcript::new();
    let (records, aggregate) = orchestrate(&steps, &events, &stamps, "S", "E", &mut log, LOG);
    assert_eq!(records[0].kind, StatusKind::Error);
    assert!(log.content.contains("permission denied\n"));
    assert_eq!(records[1].kind, StatusKind::Success);
    assert_eq!(aggregate.kind, StatusKind::Success);
}

#[test]
fn transcript_only_grows() {
    let mut t = Transcript::new();
    assert_eq!(t.content, "");
    t.append("one");
    t.append(" two");
    assert_eq!(t.content, "one two");
}
