use legendary_update::executor::CapturedOutput;
use legendary_update::executor::RunOutcome;
use legendary_update::executor::StepPlan;
use legendary_update::executor::conclude_step;
use legendary_update::executor::plan_step;
use legendary_update::executor::skip_record;
use legendary_update::probe::probe_available;
use legendary_update::probe::probe_command;
use legendary_update::status::StatusKind;
use legendary_update::step::Step;
use legendary_update::step::default_steps;
use legendary_update::step::log_path;

fn ungated(title: &str, command: &str) -> Step {
    Step { title: title.to_string(), command: command.to_string(), gate: None }
}

fn gated(title: &str, command: &str, gate: &str) -> Step {
    Step { title: title.to_string(), command: command.to_string(), gate: Some(gate.to_string()) }
}

#[test]
fn gated_step_with_absent_tool_is_skipped() {
    let step = gated("Yay Update", "yay -Syu --noconfirm", "yay");
    match plan_step(&step, false) {
        StepPlan::Skip(record) => {
            assert_eq!(record.kind, StatusKind::Warning);
            assert_eq!(record.title, "Yay Update");
            assert_eq!(record.message, "yay not installed - Skipping");
        },
        StepPlan::Run(_) => panic!("a blocked step must not spawn"),
    }
}

#[test]
fn gated_step_with_present_tool_runs() {
    let step = gated("Flatpak Update", "flatpak update -y", "flatpak");
    match plan_step(&step, true) {
        StepPlan::Run(command) => assert_eq!(command, "flatpak update -y"),
        StepPlan::Skip(_) => panic!("an unblocked step must run"),
    }
}

#[test]
fn ungated_step_always_runs() {
    let step = ungated("Pacman Update", "sudo pacman -Syu --noconfirm");
    match plan_step(&step, false) {
        StepPlan::Run(command) => assert_eq!(command, "sudo pacman -Syu --noconfirm"),
        StepPlan::Skip(_) => panic!("a step without a gate is never skipped"),
    }
}

#[test]
fn probe_fails_open_to_absent() {
    assert!(!probe_available(false, false));
    assert!(!probe_available(false, true));
    assert!(!probe_available(true, false));
    assert!(probe_available(true, true));
}

#[test]
fn probe_command_wraps_name() {
    assert_eq!(probe_command("fwupdmgr"), "which fwupdmgr");
}

#[test]
fn exit_zero_yields_success() {
    let step = ungated("Quiet Step", "exit 0");
    let outcome = RunOutcome::Exited(CapturedOutput {
        stdout: String::new(),
        stderr: String::new(),
        exit_succeeded: true,
    });
    let (record, entry) = conclude_step(&step, "2024-01-01 00:00:00", &outcome, log_path());
    assert_eq!(record.kind, StatusKind::Success);
    assert_eq!(record.message, "Completed successfully");
    assert_eq!(entry, "### Quiet Step @ 2024-01-01 00:00:00\n\n\n");
}

#[test]
fn nonzero_exit_yields_error_regardless_of_output() {
    let step = ungated("Noisy Step", "echo hello >&2; exit 3");
    let outcome = RunOutcome::Exited(CapturedOutput {
        stdout: String::new(),
        stderr: "hello\n".to_string(),
        exit_succeeded: false,
    });
    let (record, entry) = conclude_step(&step, "2024-01-01 00:00:00", &outcome, log_path());
    assert_eq!(record.kind, StatusKind::Error);
    assert_eq!(record.message, "Failed - Check log: /tmp/legendary-update.log");
    assert_eq!(entry, "### Noisy Step @ 2024-01-01 00:00:00\n\nhello\n\n");
    assert!(entry.contains("hello\n"));
}

#[test]
fn exit_one_yields_error_even_with_happy_output() {
    let step = ungated("Lying Step", "echo done; exit 1");
    let outcome = RunOutcome::Exited(CapturedOutput {
        stdout: "done\n".to_string(),
        stderr: String::new(),
        exit_succeeded: false,
    });
    let (record, _) = conclude_step(&step, "T", &outcome, log_path());
    assert_eq!(record.kind, StatusKind::Error);
}

#[test]
fn launch_failure_is_an_error_and_still_logged() {
    let step = ungated("Broken Shell", "true");
    let outcome = RunOutcome::LaunchFailed("No such file or directory".to_string());
    let (record, entry) = conclude_step(&step, "T", &outcome, log_path());
    assert_eq!(record.kind, StatusKind::Error);
    assert_eq!(record.message, "Failed to start - Check log: /tmp/legendary-update.log");
    assert_eq!(entry, "### Broken Shell @ T\n\nNo such file or directory\n");
}

#[test]
fn skip_record_names_the_gate() {
    let step = gated("Firmware Update", "sudo fwupdmgr update", "fwupdmgr");
    let record = skip_record(&step);
    assert_eq!(record.kind, StatusKind::Warning);
    assert_eq!(record.message, "fwupdmgr not installed - Skipping");
}

#[test]
fn default_sequence_is_fixed() {
    let steps = default_steps();
    assert_eq!(steps.len(), 7);
    assert_eq!(steps[0].title, "Clear Terminal");
    assert_eq!(steps[0].command, "clear");
    assert!(steps[0].gate.is_none());
    assert_eq!(steps[1].title, "Pacman Update");
    assert_eq!(steps[1].command, "sudo pacman -Syu --noconfirm");
    assert!(steps[1].gate.is_none());
    assert_eq!(steps[2].gate.as_deref(), Some("yay"));
    assert_eq!(steps[3].gate.as_deref(), Some("flatpak"));
    assert_eq!(steps[4].title, "Firmware Update");
    assert_eq!(steps[4].gate.as_deref(), Some("fwupdmgr"));
    assert_eq!(steps[5].command, "sudo pacman -Rns $(pacman -Qdtq)");
    assert!(steps[5].gate.is_none());
    assert_eq!(steps[6].command, "sudo pacman -Sc --noconfirm");
    assert!(steps[6].gate.is_none());
}

#[test]
fn log_path_is_fixed() {
    assert_eq!(log_path(), "/tmp/legendary-update.log");
}
