use loudspin::config::Config;
use loudspin::error::ErrorKind;
use loudspin::run::{Action, CapFlag, Capability, Event, Phase, Runner, ELEVATION_STEPS};

fn runner(devices: &[&str], level: &str) -> Runner {
    Runner::new(Config::new(
        devices.iter().map(|d| d.to_string()).collect(),
        Some("/sbin/hdparm".to_string()),
        level.to_string(),
    ))
}

/// Starts the run and reports every elevation step as done; returns the
/// action that follows elevation.
fn elevate(r: &mut Runner) -> Action {
    let mut a = r.step(Event::Start);
    for _ in 0..ELEVATION_STEPS {
        a = r.step(Event::StepDone);
    }
    a
}

fn expanded(a: &Action) -> String {
    match a {
        Action::ExpandPattern { pattern, policy } => {
            assert!(policy.require_literal_separator && policy.require_literal_leading_dot);
            pattern.clone()
        }
        other => panic!("expected an expansion, got {:?}", other),
    }
}

fn spawned(a: &Action) -> (String, Vec<String>) {
    match a {
        Action::Spawn { program, args } => (program.clone(), args.clone()),
        other => panic!("expected a spawn, got {:?}", other),
    }
}

fn aborted(a: &Action) -> ErrorKind {
    match a {
        Action::Abort { error } => error.kind,
        other => panic!("expected an abort, got {:?}", other),
    }
}

fn matched(path: &str) -> Event {
    Event::Matched { path: path.to_string() }
}

#[test]
fn elevation_raises_both_caps_in_every_set() {
    let mut r = runner(&["/dev/sda"], "show");
    assert!(matches!(r.step(Event::Start), Action::InitCapabilities));
    for flag in [CapFlag::Effective, CapFlag::Inheritable, CapFlag::Permitted] {
        match r.step(Event::StepDone) {
            Action::UpdateCapabilities { flag: f, caps } => {
                assert_eq!(f, flag);
                assert_eq!(caps, vec![Capability::DacOverride, Capability::SysRawio]);
            }
            other => panic!("unexpected {:?}", other),
        }
    }
    assert!(matches!(r.step(Event::StepDone), Action::ApplyCapabilities));
    assert!(matches!(r.step(Event::StepDone), Action::RaiseAmbient { cap: Capability::DacOverride }));
    assert!(matches!(r.step(Event::StepDone), Action::RaiseAmbient { cap: Capability::SysRawio }));
    assert_eq!(expanded(&r.step(Event::StepDone)), "/dev/sda");
}

#[test]
fn capability_numbers() {
    assert_eq!(Capability::DacOverride.number(), 1);
    assert_eq!(Capability::SysRawio.number(), 17);
}

#[test]
fn quiet_scenario_two_devices_in_order() {
    let mut r = runner(&["/dev/sd?"], "quiet");
    assert_eq!(expanded(&elevate(&mut r)), "/dev/sd?");
    assert!(matches!(r.step(Event::Expanded), Action::NextMatch));
    let (prog, args) = spawned(&r.step(matched("/dev/sda")));
    assert_eq!(prog, "/sbin/hdparm");
    assert_eq!(args, vec!["-M", "128", "/dev/sda"]);
    assert!(matches!(r.step(Event::Exited), Action::NextMatch));
    let (prog, args) = spawned(&r.step(matched("/dev/sdb")));
    assert_eq!(prog, "/sbin/hdparm");
    assert_eq!(args, vec!["-M", "128", "/dev/sdb"]);
    assert!(matches!(r.step(Event::Exited), Action::NextMatch));
    assert!(matches!(r.step(Event::Exhausted), Action::Finish));
    assert_eq!(r.phase, Phase::Done);
}

#[test]
fn show_scenario_has_no_level() {
    let mut r = runner(&["/dev/sda"], "show");
    elevate(&mut r);
    r.step(Event::Expanded);
    let (prog, args) = spawned(&r.step(matched("/dev/sda")));
    assert_eq!(prog, "/sbin/hdparm");
    assert_eq!(args, vec!["-M", "/dev/sda"]);
}

#[test]
fn failed_match_is_skipped_and_run_goes_on() {
    let mut r = runner(&["/dev/bad*", "/dev/good1"], "loud");
    assert_eq!(expanded(&elevate(&mut r)), "/dev/bad*");
    r.step(Event::Expanded);
    match r.step(Event::MatchFailed { cause: "stat failed on /dev/bad1".to_string() }) {
        Action::SkipMatch { warning } => assert_eq!(warning, "stat failed on /dev/bad1"),
        other => panic!("unexpected {:?}", other),
    }
    let (_, args) = spawned(&r.step(matched("/dev/bad2")));
    assert_eq!(args, vec!["-M", "254", "/dev/bad2"]);
    r.step(Event::Exited);
    assert_eq!(expanded(&r.step(Event::Exhausted)), "/dev/good1");
    r.step(Event::Expanded);
    let (_, args) = spawned(&r.step(matched("/dev/good1")));
    assert_eq!(args, vec!["-M", "254", "/dev/good1"]);
    r.step(Event::Exited);
    assert!(matches!(r.step(Event::Exhausted), Action::Finish));
}

#[test]
fn elevation_failure_at_any_step_dispatches_nothing() {
    let kinds = [
        ErrorKind::CapabilityInit,
        ErrorKind::CapabilityUpdate,
        ErrorKind::CapabilityUpdate,
        ErrorKind::CapabilityUpdate,
        ErrorKind::CapabilityUpdate,
        ErrorKind::AmbientCap,
        ErrorKind::AmbientCap,
    ];
    for (k, kind) in kinds.iter().enumerate() {
        let mut r = runner(&["/dev/sda"], "quiet");
        r.step(Event::Start);
        for _ in 0..k {
            r.step(Event::StepDone);
        }
        assert_eq!(aborted(&r.step(Event::StepFailed { cause: None })), *kind);
        assert_eq!(r.phase, Phase::Failed);
        for e in [Event::StepDone, Event::Expanded, matched("/dev/sda"), Event::Exited, Event::Exhausted] {
            assert!(matches!(r.step(e), Action::Ignore));
        }
    }
}

#[test]
fn spawn_failure_stops_before_second_device() {
    let mut r = runner(&["/dev/sd?"], "quiet");
    elevate(&mut r);
    r.step(Event::Expanded);
    spawned(&r.step(matched("/dev/sda")));
    let a = r.step(Event::SpawnFailed { cause: "No such file or directory".to_string() });
    match &a {
        Action::Abort { error } => {
            assert_eq!(error.kind, ErrorKind::Spawn);
            assert_eq!(error.render(), "error calling hdparm: No such file or directory");
        }
        other => panic!("unexpected {:?}", other),
    }
    assert!(matches!(r.step(matched("/dev/sdb")), Action::Ignore));
}

#[test]
fn wait_failure_is_fatal() {
    let mut r = runner(&["/dev/sda"], "show");
    elevate(&mut r);
    r.step(Event::Expanded);
    r.step(matched("/dev/sda"));
    assert_eq!(aborted(&r.step(Event::WaitFailed { cause: "interrupted".to_string() })), ErrorKind::Wait);
}

#[test]
fn pattern_failure_is_fatal() {
    let mut r = runner(&["/dev/[", "/dev/sda"], "show");
    elevate(&mut r);
    assert_eq!(aborted(&r.step(Event::ExpandFailed { cause: "invalid range pattern".to_string() })), ErrorKind::Pattern);
    assert!(matches!(r.step(Event::Expanded), Action::Ignore));
}

#[test]
fn invalid_level_aborts_at_first_device() {
    let mut r = runner(&["/dev/sda"], "silent");
    elevate(&mut r);
    r.step(Event::Expanded);
    assert_eq!(aborted(&r.step(matched("/dev/sda"))), ErrorKind::InvalidArg);
}

#[test]
fn patterns_follow_configuration_order() {
    let mut r = runner(&["/dev/c", "/dev/a", "/dev/b"], "loud");
    let mut seen = vec![expanded(&elevate(&mut r))];
    r.step(Event::Expanded);
    for _ in 0..2 {
        seen.push(expanded(&r.step(Event::Exhausted)));
        r.step(Event::Expanded);
    }
    assert!(matches!(r.step(Event::Exhausted), Action::Finish));
    assert_eq!(seen, vec!["/dev/c", "/dev/a", "/dev/b"]);
}

#[test]
fn empty_device_list_is_a_no_op_run() {
    let mut r = runner(&[], "quiet");
    assert!(matches!(elevate(&mut r), Action::Finish));
    assert_eq!(r.phase, Phase::Done);
}

#[test]
fn unexpected_event_is_ignored() {
    let mut r = runner(&["/dev/sda"], "quiet");
    assert!(matches!(r.step(Event::StepDone), Action::Ignore));
    assert_eq!(r.phase, Phase::Idle);
    r.step(Event::Start);
    assert!(matches!(r.step(Event::Exited), Action::Ignore));
    assert_eq!(r.phase, Phase::Elevating { step: 0 });
}
