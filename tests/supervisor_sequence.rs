use launch_supervisor::command::{LaunchCommand, Platform};
use launch_supervisor::error::SupervisorError;
use launch_supervisor::supervisor::{
    Action, Event, MarkerPolicy, Phase, Step, Supervisor, SupervisorConfig, FALLBACK_WAIT_SECS,
    READY_WAIT_SECS,
};

fn config(platform: Platform, marker_policy: MarkerPolicy) -> SupervisorConfig {
    SupervisorConfig { platform, marker_policy }
}

fn args_of(c: &LaunchCommand) -> Vec<&str> {
    c.args.iter().map(|a| a.as_str()).collect()
}

/// Drives a supervisor up to the marker check, from an executable under `/opt/sems`.
fn up_to_marker(s: &mut Supervisor) -> Step {
    let r = s.step(Event::Begin);
    assert!(matches!(r.action, Action::ResolveDirectory));
    s.step(Event::DirectoryFound {
        exe_path: Some("/opt/sems/sems-desktop".to_string()),
        cwd: Some("/home/user".to_string()),
    })
}

fn assert_spawn(r: &Step, program: &str, args: &[&str], dir: &str) {
    match &r.action {
        Action::Spawn { command, dir: d } => {
            assert_eq!(command.program, program);
            assert_eq!(args_of(command), args.to_vec());
            assert_eq!(d, dir);
        }
        other => panic!("expected a spawn, got {:?}", other),
    }
}

fn assert_wait(r: &Step, secs: u64) {
    match r.action {
        Action::Wait { secs: w } => assert_eq!(w, secs),
        ref other => panic!("expected a wait, got {:?}", other),
    }
}

#[test]
fn scenario_server_starts_and_window_opens_once() {
    let mut s = Supervisor::new(config(Platform::Unix, MarkerPolicy::Required));
    let mut events: Vec<Event> = Vec::new();
    let r = up_to_marker(&mut s);
    match &r.action {
        Action::CheckMarker { path } => assert_eq!(path, "/opt/sems/package.json"),
        other => panic!("expected a marker check, got {:?}", other),
    }
    let r = s.step(Event::MarkerChecked { present: true });
    assert!(r.warning.is_none());
    assert_spawn(&r, "npm", &["run", "start"], "/opt/sems");
    let r = s.step(Event::SpawnSucceeded);
    assert_wait(&r, READY_WAIT_SECS);
    assert_eq!(READY_WAIT_SECS, 10);
    events.push(Event::WaitElapsed);
    events.push(Event::WaitElapsed);
    events.push(Event::WindowOpened);
    events.push(Event::WindowOpened);
    let mut opened = 0;
    for e in events {
        let r = s.step(e);
        if matches!(r.action, Action::OpenWindow) {
            opened += 1;
        }
    }
    assert_eq!(opened, 1);
    assert!(matches!(s.phase, Phase::Running { launched: true }));
}

#[test]
fn scenario_marker_missing_skips_launch_when_required() {
    let mut s = Supervisor::new(config(Platform::Unix, MarkerPolicy::Required));
    up_to_marker(&mut s);
    let r = s.step(Event::MarkerChecked { present: false });
    let w = r.warning.as_ref().expect("a warning");
    assert!(matches!(w, SupervisorError::MarkerFileMissing { .. }));
    assert_eq!(w.message(), "package.json not found in \"/opt/sems\"");
    assert_wait(&r, FALLBACK_WAIT_SECS);
    let r = s.step(Event::WaitElapsed);
    assert!(matches!(r.action, Action::OpenWindow));
    assert!(matches!(s.phase, Phase::OpeningWindow { launched: false }));
}

#[test]
fn scenario_marker_missing_still_launches_when_advisory() {
    let mut s = Supervisor::new(config(Platform::Unix, MarkerPolicy::Advisory));
    up_to_marker(&mut s);
    let r = s.step(Event::MarkerChecked { present: false });
    assert!(matches!(r.warning, Some(SupervisorError::MarkerFileMissing { .. })));
    assert_spawn(&r, "npm", &["run", "start"], "/opt/sems");
}

#[test]
fn scenario_npm_missing_falls_back_and_opens_window() {
    let mut s = Supervisor::new(config(Platform::Unix, MarkerPolicy::Required));
    up_to_marker(&mut s);
    s.step(Event::MarkerChecked { present: true });
    let r = s.step(Event::SpawnFailed { detail: "No such file or directory (os error 2)".to_string() });
    let w = r.warning.as_ref().expect("a warning");
    assert_eq!(
        w.message(),
        "Failed to start server: No such file or directory (os error 2)"
    );
    assert_wait(&r, FALLBACK_WAIT_SECS);
    assert_eq!(FALLBACK_WAIT_SECS, 5);
    assert!(FALLBACK_WAIT_SECS < READY_WAIT_SECS);
    let r = s.step(Event::WaitElapsed);
    assert!(matches!(r.action, Action::OpenWindow));
    let r = s.step(Event::WindowOpened);
    assert!(matches!(r.action, Action::Idle));
    assert!(matches!(s.phase, Phase::Running { launched: false }));
}

#[test]
fn windows_retries_with_powershell_then_falls_back() {
    let mut s = Supervisor::new(config(Platform::Windows, MarkerPolicy::Required));
    up_to_marker(&mut s);
    let r = s.step(Event::MarkerChecked { present: true });
    assert_spawn(&r, "cmd", &["/C", "npm run start"], "/opt/sems");
    let r = s.step(Event::SpawnFailed { detail: "program not found".to_string() });
    match r.warning.as_ref().expect("a warning") {
        SupervisorError::SpawnFailure { program, .. } => assert_eq!(program, "cmd"),
        other => panic!("expected a spawn failure, got {:?}", other),
    }
    assert_eq!(
        r.warning.as_ref().expect("a warning").message(),
        "Failed to start server: program not found"
    );
    assert_spawn(&r, "powershell", &["-Command", "npm run start"], "/opt/sems");
    let r = s.step(Event::SpawnFailed { detail: "program not found".to_string() });
    match r.warning.as_ref().expect("a warning") {
        SupervisorError::SpawnFailure { program, .. } => assert_eq!(program, "powershell"),
        other => panic!("expected a spawn failure, got {:?}", other),
    }
    assert_eq!(
        r.warning.as_ref().expect("a warning").message(),
        "Failed to start server: program not found"
    );
    assert_wait(&r, FALLBACK_WAIT_SECS);
}

#[test]
fn windows_powershell_success_waits_full_delay() {
    let mut s = Supervisor::new(config(Platform::Windows, MarkerPolicy::Advisory));
    up_to_marker(&mut s);
    s.step(Event::MarkerChecked { present: true });
    s.step(Event::SpawnFailed { detail: "denied".to_string() });
    let r = s.step(Event::SpawnSucceeded);
    assert!(r.warning.is_none());
    assert_wait(&r, READY_WAIT_SECS);
}

#[test]
fn two_sequences_spawn_two_children() {
    let mut spawned: Vec<(String, String)> = Vec::new();
    for _ in 0..2 {
        let mut s = Supervisor::new(config(Platform::Unix, MarkerPolicy::Required));
        up_to_marker(&mut s);
        let r = s.step(Event::MarkerChecked { present: true });
        if let Action::Spawn { command, dir } = r.action {
            spawned.push((command.program, dir));
        }
        s.step(Event::SpawnSucceeded);
        s.step(Event::WaitElapsed);
        s.step(Event::WindowOpened);
    }
    assert_eq!(spawned.len(), 2);
    assert_eq!(spawned[0], ("npm".to_string(), "/opt/sems".to_string()));
    assert_eq!(spawned[0], spawned[1]);
}

#[test]
fn relative_directories_are_not_used() {
    let mut s = Supervisor::new(config(Platform::Unix, MarkerPolicy::Required));
    s.step(Event::Begin);
    let r = s.step(Event::DirectoryFound {
        exe_path: Some("bin/sems-desktop".to_string()),
        cwd: Some("work".to_string()),
    });
    assert!(matches!(
        r.action,
        Action::Abort { error: SupervisorError::DirectoryResolutionFailure }
    ));
    assert!(matches!(s.phase, Phase::Failed));
}

#[test]
fn unresolvable_directory_aborts() {
    let mut s = Supervisor::new(config(Platform::Unix, MarkerPolicy::Required));
    s.step(Event::Begin);
    let r = s.step(Event::DirectoryFound { exe_path: None, cwd: None });
    match &r.action {
        Action::Abort { error } => {
            assert!(matches!(error, SupervisorError::DirectoryResolutionFailure));
            assert_eq!(error.message(), "cannot determine the application directory");
        }
        other => panic!("expected an abort, got {:?}", other),
    }
    assert!(matches!(s.phase, Phase::Failed));
    let r = s.step(Event::Begin);
    assert!(matches!(r.action, Action::Idle));
}

#[test]
fn directory_falls_back_to_working_directory() {
    let mut s = Supervisor::new(config(Platform::Unix, MarkerPolicy::Required));
    s.step(Event::Begin);
    let r = s.step(Event::DirectoryFound { exe_path: None, cwd: Some("/srv/app".to_string()) });
    match &r.action {
        Action::CheckMarker { path } => assert_eq!(path, "/srv/app/package.json"),
        other => panic!("expected a marker check, got {:?}", other),
    }
    match &s.phase {
        Phase::CheckingMarker { base_dir } => assert_eq!(base_dir, "/srv/app"),
        other => panic!("unexpected phase {:?}", other),
    }
}

#[test]
fn gui_failure_is_fatal() {
    let mut s = Supervisor::new(config(Platform::Unix, MarkerPolicy::Required));
    up_to_marker(&mut s);
    s.step(Event::MarkerChecked { present: true });
    s.step(Event::SpawnSucceeded);
    s.step(Event::WaitElapsed);
    let r = s.step(Event::WindowFailed { detail: "no display".to_string() });
    match &r.action {
        Action::Abort { error } => {
            assert_eq!(error.message(), "error while running the GUI runtime: no display")
        }
        other => panic!("expected an abort, got {:?}", other),
    }
    assert!(matches!(s.phase, Phase::Failed));
}

#[test]
fn events_out_of_order_change_nothing() {
    let mut s = Supervisor::new(config(Platform::Unix, MarkerPolicy::Required));
    let r = s.step(Event::SpawnSucceeded);
    assert!(matches!(r.action, Action::Idle));
    assert!(r.warning.is_none());
    assert!(matches!(s.phase, Phase::Start));
    up_to_marker(&mut s);
    let r = s.step(Event::WaitElapsed);
    assert!(matches!(r.action, Action::Idle));
    assert!(matches!(s.phase, Phase::CheckingMarker { .. }));
}
