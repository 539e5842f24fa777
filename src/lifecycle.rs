//! What each service command does, as a plan of steps that the caller carries out.
use vstd::prelude::*;

verus! {

/// An init-system action on the service unit.
#[derive(PartialEq, Eq, Structural, Clone, Copy, Debug)]
pub enum Verb {
    Enable,
    Disable,
    Start,
    Stop,
}

/// One external step of a command.
#[derive(PartialEq, Eq, Structural, Clone, Copy, Debug)]
pub enum Step {
    /// Copy the running executable to the global binary path.
    CopyToGlobal,
    /// Write the unit descriptor at the unit path, replacing any earlier one.
    WriteUnitFile,
    /// Remove the unit descriptor.
    RemoveUnitFile,
    /// Ask the init system to reload its unit database.
    ReloadUnits,
    /// Ask the init system to carry out a verb on the unit, named by the given word.
    Supervise(Verb, UnitWord),
}

/// How a command names the unit to the init system.
#[derive(PartialEq, Eq, Structural, Clone, Copy, Debug)]
pub enum UnitWord {
    /// The bare name, `corn_stats`.
    Name,
    /// The unit file's name, `corn_stats.service`.
    FileName,
}

/// A step, and whether its failure ends the command.
#[derive(PartialEq, Eq, Structural, Clone, Copy, Debug)]
pub struct PlannedStep {
    pub step: Step,
    pub required: bool,
}

/// Why a command is refused before any step runs.
#[derive(PartialEq, Eq, Structural, Clone, Copy, Debug)]
pub enum LifecycleError {
    /// The command changes system files and the effective user is not the superuser.
    NotRoot,
}

/// The commands of the service lifecycle.
#[derive(PartialEq, Eq, Structural, Clone, Copy, Debug)]
pub enum Command {
    Install { global: bool },
    Uninstall,
    Start,
    Stop,
}

/// What `install` does.
pub struct InstallPlan {
    pub steps: Vec<PlannedStep>,
    /// The executable that the service runs.
    pub exec_path: String,
    /// The unit descriptor that `WriteUnitFile` writes.
    pub unit_file: String,
}

pub open spec fn global_bin() -> Seq<char> {
    "/usr/local/bin/corn_stats"@
}

pub open spec fn service_path() -> Seq<char> {
    "/etc/systemd/system/corn_stats.service"@
}

pub open spec fn unit_word_text(w: UnitWord) -> Seq<char> {
    match w {
        UnitWord::Name => "corn_stats"@,
        UnitWord::FileName => "corn_stats.service"@,
    }
}

pub open spec fn required(step: Step) -> PlannedStep {
    PlannedStep { step, required: true }
}

pub open spec fn best_effort(step: Step) -> PlannedStep {
    PlannedStep { step, required: false }
}

/// The unit descriptor of a service that runs `exec`.
pub open spec fn unit_text(exec: Seq<char>) -> Seq<char> {
    "[Unit]\nDescription=Corn Stats\nAfter=network.target\n\n[Service]\nExecStart="@ + exec
        + "\nRestart=always\nRestartSec=5\n\n[Install]\nWantedBy=multi-user.target\n"@
}

/// The session autostart descriptor of the program at `exec`.
pub open spec fn autostart_text(exec: Seq<char>) -> Seq<char> {
    "[Desktop Entry]\nType=Application\nExec="@ + exec
        + "\nHidden=false\nNoDisplay=false\nX-GNOME-Autostart-enabled=true\nName=Corn Stats\nComment=CPU, memory and network use in the panel\n"@
}

/// What autostart writes, given whether its file exists.
pub open spec fn autostart_content(file_exists: bool, exec: Seq<char>) -> Option<Seq<char>> {
    if file_exists {
        None
    } else {
        Some(autostart_text(exec))
    }
}

/// A file's content after `write` is carried out on it.
pub open spec fn file_after(existing: Option<Seq<char>>, write: Option<Seq<char>>) -> Option<
    Seq<char>,
> {
    match write {
        Some(c) => Some(c),
        None => existing,
    }
}

/// The autostart file after one autostart pass over it.
pub open spec fn after_autostart(existing: Option<Seq<char>>, exec: Seq<char>) -> Option<
    Seq<char>,
> {
    file_after(existing, autostart_content(existing is Some, exec))
}

/// The steps of `install`; the copy comes first when the binary has to be moved.
pub open spec fn install_steps(copy: bool) -> Seq<PlannedStep> {
    let tail = seq![
        required(Step::WriteUnitFile),
        required(Step::ReloadUnits),
        required(Step::Supervise(Verb::Enable, UnitWord::FileName)),
    ];
    if copy {
        seq![required(Step::CopyToGlobal)] + tail
    } else {
        tail
    }
}

/// The steps of `uninstall`: all best effort but the final reload.
pub open spec fn uninstall_steps() -> Seq<PlannedStep> {
    seq![
        best_effort(Step::Supervise(Verb::Stop, UnitWord::FileName)),
        best_effort(Step::Supervise(Verb::Disable, UnitWord::FileName)),
        best_effort(Step::RemoveUnitFile),
        required(Step::ReloadUnits),
    ]
}

pub open spec fn verb_text(verb: Verb) -> Seq<char> {
    match verb {
        Verb::Enable => "enable"@,
        Verb::Disable => "disable"@,
        Verb::Start => "start"@,
        Verb::Stop => "stop"@,
    }
}

/// The command line words that ask the init system for a step; none for a step
/// that the init system does not carry out.
pub open spec fn step_args(step: Step) -> Option<Seq<Seq<char>>> {
    match step {
        Step::ReloadUnits => Some(seq!["daemon-reload"@]),
        Step::Supervise(verb, unit) => Some(seq![verb_text(verb), unit_word_text(unit)]),
        _ => None,
    }
}

/// Whether a run of `steps` in which the steps at `failed` fail ends in success.
pub open spec fn run_succeeds(steps: Seq<PlannedStep>, failed: Set<int>) -> bool {
    forall|i: int| 0 <= i < steps.len() && failed.contains(i) ==> !(#[trigger] steps[i]).required
}

/// Whether a step changes what is installed, beyond removing it.
pub open spec fn installs(s: Step) -> bool {
    s == Step::CopyToGlobal || s == Step::WriteUnitFile || s matches Step::Supervise(
        Verb::Enable,
        _,
    ) || s matches Step::Supervise(Verb::Start, _)
}

/// The path of the binary that a global install copies to.
pub fn global_bin_path() -> (r: String)
    ensures
        r@ == global_bin(),
{
    String::from_str("/usr/local/bin/corn_stats")
}

/// The path of the unit descriptor.
pub fn service_file_path() -> (r: String)
    ensures
        r@ == service_path(),
{
    String::from_str("/etc/systemd/system/corn_stats.service")
}

/// The unit descriptor of a service that runs `exec`.
pub fn unit_file_content(exec: &str) -> (r: String)
    ensures
        r@ == unit_text(exec@),
{
    let mut s = String::from_str(
        "[Unit]\nDescription=Corn Stats\nAfter=network.target\n\n[Service]\nExecStart=",
    );
    s.append(exec);
    s.append("\nRestart=always\nRestartSec=5\n\n[Install]\nWantedBy=multi-user.target\n");
    s
}

/// The session autostart descriptor of the program at `exec`.
pub fn autostart_descriptor(exec: &str) -> (r: String)
    ensures
        r@ == autostart_text(exec@),
{
    let mut s = String::from_str("[Desktop Entry]\nType=Application\nExec=");
    s.append(exec);
    s.append(
        "\nHidden=false\nNoDisplay=false\nX-GNOME-Autostart-enabled=true\nName=Corn Stats\nComment=CPU, memory and network use in the panel\n",
    );
    s
}

/// The path of the autostart descriptor under the user's configuration directory.
pub fn autostart_file_path(config_dir: &str) -> (r: String)
    ensures
        r@ == config_dir@ + "/autostart/corn_stats.desktop"@,
{
    let mut s = String::from_str(config_dir);
    s.append("/autostart/corn_stats.desktop");
    s
}

/// The descriptor to write for autostart: one only when none exists yet, so that
/// an existing file, edited or not, is kept.
pub fn autostart_write(file_exists: bool, exec: &str) -> (r: Option<String>)
    ensures
        r matches Some(c) ==> autostart_content(file_exists, exec@) == Some(c@),
        r is None ==> autostart_content(file_exists, exec@) is None,
{
    if file_exists {
        None
    } else {
        Some(autostart_descriptor(exec))
    }
}

/// The plan of `install`; refused unless the effective user is the superuser.
pub fn install_plan(global: bool, is_root: bool, current_exe: &str) -> (r: Result<
    InstallPlan,
    LifecycleError,
>)
    ensures
        !is_root ==> r == Err::<InstallPlan, LifecycleError>(LifecycleError::NotRoot),
        is_root ==> r is Ok,
        r matches Ok(p) ==> {
            &&& p.steps@ == install_steps(global && current_exe@ != global_bin())
            &&& p.exec_path@ == (if global {
                global_bin()
            } else {
                current_exe@
            })
            &&& p.unit_file@ == unit_text(p.exec_path@)
        },
{
    if !is_root {
        return Err(LifecycleError::NotRoot);
    }
    let global_path = global_bin_path();
    let current = String::from_str(current_exe);
    let copy = global && current != global_path;
    let mut steps: Vec<PlannedStep> = Vec::new();
    if copy {
        steps.push(PlannedStep { step: Step::CopyToGlobal, required: true });
    }
    steps.push(PlannedStep { step: Step::WriteUnitFile, required: true });
    steps.push(PlannedStep { step: Step::ReloadUnits, required: true });
    steps.push(
        PlannedStep { step: Step::Supervise(Verb::Enable, UnitWord::FileName), required: true },
    );
    let exec_path = if global {
        global_path
    } else {
        current
    };
    let unit_file = unit_file_content(exec_path.as_str());
    assert(steps@ =~= install_steps(copy));
    Ok(InstallPlan { steps, exec_path, unit_file })
}

/// The plan of `uninstall`.
///
/// Unlike `install_plan`, this plan is not gated on the superuser, although
/// removing the unit file needs that privilege: without it the removal fails
/// and, being best effort, is passed over. Whether uninstall should be refused
/// as install is remains an open question of policy.
pub fn uninstall_plan() -> (r: Vec<PlannedStep>)
    ensures
        r@ == uninstall_steps(),
{
    let r = vec![
        PlannedStep { step: Step::Supervise(Verb::Stop, UnitWord::FileName), required: false },
        PlannedStep { step: Step::Supervise(Verb::Disable, UnitWord::FileName), required: false },
        PlannedStep { step: Step::RemoveUnitFile, required: false },
        PlannedStep { step: Step::ReloadUnits, required: true },
    ];
    assert(r@ =~= uninstall_steps());
    r
}

/// The plan of `start`.
pub fn start() -> (r: Vec<PlannedStep>)
    ensures
        r@ == seq![required(Step::Supervise(Verb::Start, UnitWord::Name))],
{
    let r = vec![PlannedStep { step: Step::Supervise(Verb::Start, UnitWord::Name), required: true }];
    assert(r@ =~= seq![required(Step::Supervise(Verb::Start, UnitWord::Name))]);
    r
}

/// The plan of `stop`.
pub fn stop() -> (r: Vec<PlannedStep>)
    ensures
        r@ == seq![required(Step::Supervise(Verb::Stop, UnitWord::Name))],
{
    let r = vec![PlannedStep { step: Step::Supervise(Verb::Stop, UnitWord::Name), required: true }];
    assert(r@ =~= seq![required(Step::Supervise(Verb::Stop, UnitWord::Name))]);
    r
}

/// Whether a step's outcome ends the command: a required step that failed.
pub fn must_abort(step: &PlannedStep, succeeded: bool) -> (r: bool)
    ensures
        r == (step.required && !succeeded),
{
    step.required && !succeeded
}

/// The command line words that ask the init system for a step; none for a step
/// that the init system does not carry out.
pub fn systemctl_args(step: Step) -> (r: Option<Vec<String>>)
    ensures
        r matches Some(v) ==> step_args(step) == Some(v@.map_values(|s: String| s@)),
        r is None ==> step_args(step) is None,
{
    match step {
        Step::ReloadUnits => {
            let v = vec![String::from_str("daemon-reload")];
            assert(v@.map_values(|s: String| s@) =~= seq!["daemon-reload"@]);
            Some(v)
        },
        Step::Supervise(verb, unit) => {
            let verb_word = match verb {
                Verb::Enable => String::from_str("enable"),
                Verb::Disable => String::from_str("disable"),
                Verb::Start => String::from_str("start"),
                Verb::Stop => String::from_str("stop"),
            };
            let unit_word = match unit {
                UnitWord::Name => String::from_str("corn_stats"),
                UnitWord::FileName => String::from_str("corn_stats.service"),
            };
            let v = vec![verb_word, unit_word];
            assert(v@.map_values(|s: String| s@) =~= seq![verb_text(verb), unit_word_text(unit)]);
            Some(v)
        },
        _ => None,
    }
}

} // verus!
