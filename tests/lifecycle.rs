use corn_stats::lifecycle::{
    autostart_descriptor, autostart_file_path, autostart_write, install_plan, must_abort, start,
    stop, systemctl_args, uninstall_plan, unit_file_content, LifecycleError, PlannedStep, Step,
    UnitWord, Verb,
};

fn req(step: Step) -> PlannedStep {
    PlannedStep { step, required: true }
}

fn opt(step: Step) -> PlannedStep {
    PlannedStep { step, required: false }
}

#[test]
fn install_without_root_is_refused() {
    assert!(matches!(install_plan(false, false, "/home/u/corn_stats"), Err(LifecycleError::NotRoot)));
    assert!(matches!(install_plan(true, false, "/home/u/corn_stats"), Err(LifecycleError::NotRoot)));
}

#[test]
fn install_local_plan() {
    let p = install_plan(false, true, "/home/u/corn_stats").unwrap();
    assert_eq!(
        p.steps,
        vec![req(Step::WriteUnitFile), req(Step::ReloadUnits), req(Step::Supervise(Verb::Enable, UnitWord::FileName))]
    );
    assert_eq!(p.exec_path, "/home/u/corn_stats");
    assert_eq!(p.unit_file, unit_file_content("/home/u/corn_stats"));
    assert!(p.unit_file.contains("\nExecStart=/home/u/corn_stats\n"));
}

#[test]
fn install_global_copies_once() {
    let p = install_plan(true, true, "/home/u/corn_stats").unwrap();
    assert_eq!(p.steps[0], req(Step::CopyToGlobal));
    assert_eq!(p.steps.len(), 4);
    assert_eq!(p.exec_path, "/usr/local/bin/corn_stats");
    let q = install_plan(true, true, "/usr/local/bin/corn_stats").unwrap();
    assert_eq!(q.steps.len(), 3);
    assert_eq!(q.steps[0], req(Step::WriteUnitFile));
    assert!(q.unit_file.contains("ExecStart=/usr/local/bin/corn_stats\n"));
}

#[test]
fn unit_file_text() {
    assert_eq!(
        unit_file_content("/bin/x"),
        "[Unit]\nDescription=Corn Stats\nAfter=network.target\n\n[Service]\nExecStart=/bin/x\nRestart=always\nRestartSec=5\n\n[Install]\nWantedBy=multi-user.target\n"
    );
}

#[test]
fn uninstall_is_best_effort_until_reload() {
    assert_eq!(
        uninstall_plan(),
        vec![
            opt(Step::Supervise(Verb::Stop, UnitWord::FileName)),
            opt(Step::Supervise(Verb::Disable, UnitWord::FileName)),
            opt(Step::RemoveUnitFile),
            req(Step::ReloadUnits),
        ]
    );
}

#[test]
fn uninstall_of_absent_service_succeeds() {
    // stop, disable and removal all fail; the reload succeeds
    let plan = uninstall_plan();
    let outcomes = [false, false, false, true];
    let aborted = plan.iter().zip(outcomes.iter()).any(|(s, ok)| must_abort(s, *ok));
    assert!(!aborted);
    let failed_reload = must_abort(&plan[3], false);
    assert!(failed_reload);
}

#[test]
fn start_and_stop_plans() {
    assert_eq!(start(), vec![req(Step::Supervise(Verb::Start, UnitWord::Name))]);
    assert_eq!(stop(), vec![req(Step::Supervise(Verb::Stop, UnitWord::Name))]);
    let words = |v: Option<Vec<String>>| v.unwrap().join(" ");
    assert_eq!(words(systemctl_args(start()[0].step)), "start corn_stats");
    assert_eq!(words(systemctl_args(stop()[0].step)), "stop corn_stats");
}

#[test]
fn systemctl_words() {
    assert_eq!(systemctl_args(Step::ReloadUnits), Some(vec!["daemon-reload".to_string()]));
    assert_eq!(
        systemctl_args(Step::Supervise(Verb::Enable, UnitWord::FileName)),
        Some(vec!["enable".to_string(), "corn_stats.service".to_string()])
    );
    assert_eq!(
        systemctl_args(Step::Supervise(Verb::Stop, UnitWord::FileName)),
        Some(vec!["stop".to_string(), "corn_stats.service".to_string()])
    );
    assert_eq!(
        systemctl_args(Step::Supervise(Verb::Disable, UnitWord::FileName)),
        Some(vec!["disable".to_string(), "corn_stats.service".to_string()])
    );
    assert_eq!(systemctl_args(Step::WriteUnitFile), None);
    assert_eq!(systemctl_args(Step::CopyToGlobal), None);
    assert_eq!(systemctl_args(Step::RemoveUnitFile), None);
}

#[test]
fn autostart_written_only_once() {
    let first = autostart_write(false, "/opt/corn_stats").unwrap();
    assert_eq!(first, autostart_descriptor("/opt/corn_stats"));
    assert!(first.contains("\nExec=/opt/corn_stats\n"));
    assert!(first.starts_with("[Desktop Entry]\nType=Application\n"));
    // the file now exists, so a second pass writes nothing
    assert_eq!(autostart_write(true, "/opt/corn_stats"), None);
}

#[test]
fn autostart_path() {
    assert_eq!(autostart_file_path("/home/u/.config"), "/home/u/.config/autostart/corn_stats.desktop");
}
