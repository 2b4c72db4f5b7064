//! Step descriptions and the fixed maintenance sequence.

use vstd::prelude::*;

verus! {

/// The fixed path of the transcript log file.
pub fn log_path() -> (r: &'static str)
    ensures
        r@ == "/tmp/legendary-update.log"@,
{
    "/tmp/legendary-update.log"
}

/// An immutable description of one maintenance action: a title for the operator,
/// the shell command to run, and an optional gate naming a tool that must be
/// reachable on the search path for the step to run at all.
#[derive(Clone, Debug)]
pub struct Step {
    pub title: String,
    pub command: String,
    pub gate: Option<String>,
}

fn ungated(title: &str, command: &str) -> (s: Step)
    ensures
        s.title@ == title@,
        s.command@ == command@,
        s.gate is None,
{
    Step { title: String::from_str(title), command: String::from_str(command), gate: None }
}

fn gated(title: &str, command: &str, gate: &str) -> (s: Step)
    ensures
        s.title@ == title@,
        s.command@ == command@,
        s.gate matches Some(g) && g@ == gate@,
{
    Step {
        title: String::from_str(title),
        command: String::from_str(command),
        gate: Some(String::from_str(gate)),
    }
}

/// The fixed ordered sequence of maintenance steps: clear the display, upgrade the
/// system packages, then the three gated upgrades, then the two cleanup steps.
pub fn default_steps() -> (v: Vec<Step>)
    ensures
        v@.len() == 7,
        v@[0].title@ == "Clear Terminal"@ && v@[0].command@ == "clear"@ && v@[0].gate is None,
        v@[1].title@ == "Pacman Update"@ && v@[1].command@ == "sudo pacman -Syu --noconfirm"@
            && v@[1].gate is None,
        v@[2].title@ == "Yay Update"@ && v@[2].command@ == "yay -Syu --noconfirm"@
            && (v@[2].gate matches Some(g) && g@ == "yay"@),
        v@[3].title@ == "Flatpak Update"@ && v@[3].command@ == "flatpak update -y"@
            && (v@[3].gate matches Some(g) && g@ == "flatpak"@),
        v@[4].title@ == "Firmware Update"@ && v@[4].command@ == "sudo fwupdmgr update"@
            && (v@[4].gate matches Some(g) && g@ == "fwupdmgr"@),
        v@[5].title@ == "Remove Unused Dependencies"@ && v@[5].command@
            == "sudo pacman -Rns $(pacman -Qdtq)"@ && v@[5].gate is None,
        v@[6].title@ == "Clean Package Cache"@ && v@[6].command@ == "sudo pacman -Sc --noconfirm"@
            && v@[6].gate is None,
{
    let mut v: Vec<Step> = Vec::new();
    v.push(ungated("Clear Terminal", "clear"));
    v.push(ungated("Pacman Update", "sudo pacman -Syu --noconfirm"));
    v.push(gated("Yay Update", "yay -Syu --noconfirm", "yay"));
    v.push(gated("Flatpak Update", "flatpak update -y", "flatpak"));
    v.push(gated("Firmware Update", "sudo fwupdmgr update", "fwupdmgr"));
    v.push(ungated("Remove Unused Dependencies", "sudo pacman -Rns $(pacman -Qdtq)"));
    v.push(ungated("Clean Package Cache", "sudo pacman -Sc --noconfirm"));
    v
}

} // verus!
