use prism::launch::{host_arguments, host_executable_path, is_terminal, step, LaunchAction, LaunchError, LaunchEvent, LaunchState, SpawnError};
use prism::protocol::ActivationRequest;
use prism::server::handle_frame;

fn s(x: &str) -> String {
    x.to_string()
}

#[test]
fn scenario_repository_without_host_spawns() {
    let (st, act) = step(LaunchState::Init, LaunchEvent::Start { argument: Some(s("/repo")) });
    assert!(matches!(act, LaunchAction::Resolve { ref input } if input == "/repo"));
    let (st, act) = step(st, LaunchEvent::Resolved { path: Some(s("/repo")) });
    assert!(matches!(act, LaunchAction::CheckDirectory { ref path } if path == "/repo"));
    let (st, act) = step(st, LaunchEvent::DirectoryChecked { is_dir: true });
    assert!(matches!(act, LaunchAction::CheckRepository { ref path } if path == "/repo"));
    let (st, act) = step(st, LaunchEvent::RepositoryChecked { is_git: true });
    match act {
        LaunchAction::Send { frame, timeout_secs } => {
            assert_eq!(frame, "/repo|git");
            assert_eq!(timeout_secs, 2);
        }
        other => panic!("unexpected {:?}", other),
    }
    let (st, act) = step(st, LaunchEvent::Delivered { acknowledged: false });
    match act {
        LaunchAction::Spawn { args } => assert_eq!(args, vec!["/repo", "git"]),
        other => panic!("unexpected {:?}", other),
    }
    let (st, act) = step(st, LaunchEvent::SpawnFinished { error: None });
    match act {
        LaunchAction::Exit { code, stdout, stderr } => {
            assert_eq!(code, 0);
            assert_eq!(stdout.as_deref(), Some("Starting Prism with /repo..."));
            assert_eq!(stderr, None);
        }
        other => panic!("unexpected {:?}", other),
    }
    assert!(matches!(st, LaunchState::Spawned));
    assert!(is_terminal(&st));
}

#[test]
fn scenario_no_argument_host_running() {
    let (st, act) = step(LaunchState::Init, LaunchEvent::Start { argument: None });
    let frame = match act {
        LaunchAction::Send { frame, timeout_secs } => {
            assert_eq!(timeout_secs, 2);
            frame
        }
        other => panic!("unexpected {:?}", other),
    };
    assert_eq!(frame, "");
    let host = handle_frame(&frame);
    assert_eq!(host.reply, b"OK".to_vec());
    assert!(host.event.is_none());
    assert!(host.focus);
    let (st, act) = step(st, LaunchEvent::Delivered { acknowledged: true });
    match act {
        LaunchAction::Exit { code, stdout, stderr } => {
            assert_eq!(code, 0);
            assert_eq!(stdout, None);
            assert_eq!(stderr, None);
        }
        other => panic!("unexpected {:?}", other),
    }
    assert!(matches!(st, LaunchState::Forwarded));
}

#[test]
fn scenario_file_argument_is_refused() {
    let (st, _) = step(LaunchState::Init, LaunchEvent::Start { argument: Some(s("/etc/passwd")) });
    let (st, _) = step(st, LaunchEvent::Resolved { path: Some(s("/etc/passwd")) });
    let (st, act) = step(st, LaunchEvent::DirectoryChecked { is_dir: false });
    match act {
        LaunchAction::Exit { code, stdout, stderr } => {
            assert_eq!(code, 1);
            assert_eq!(stdout, None);
            assert_eq!(stderr.as_deref(), Some("Error: /etc/passwd is not a directory"));
        }
        other => panic!("unexpected {:?}", other),
    }
    assert!(matches!(st, LaunchState::Failed { error: LaunchError::NotADirectory { .. } }));
}

#[test]
fn scenario_plain_directory_forwarded() {
    let (st, _) = step(LaunchState::Init, LaunchEvent::Start { argument: Some(s("/tmp/plain")) });
    let (st, _) = step(st, LaunchEvent::Resolved { path: Some(s("/tmp/plain")) });
    let (st, _) = step(st, LaunchEvent::DirectoryChecked { is_dir: true });
    let (st, act) = step(st, LaunchEvent::RepositoryChecked { is_git: false });
    let frame = match act {
        LaunchAction::Send { frame, .. } => frame,
        other => panic!("unexpected {:?}", other),
    };
    assert_eq!(frame, "/tmp/plain|dir");
    let host = handle_frame(&frame);
    assert_eq!(host.reply, b"OK".to_vec());
    let ev = host.event.expect("event");
    assert_eq!(ev.path, "/tmp/plain");
    assert!(!ev.is_git);
    let (st, act) = step(st, LaunchEvent::Delivered { acknowledged: true });
    match act {
        LaunchAction::Exit { code, stdout, .. } => {
            assert_eq!(code, 0);
            assert_eq!(stdout.as_deref(), Some("Opening /tmp/plain (not a Git repository)..."));
        }
        other => panic!("unexpected {:?}", other),
    }
    assert!(matches!(st, LaunchState::Forwarded));
}

#[test]
fn forwarded_repository_message() {
    let st = LaunchState::Connecting { request: ActivationRequest::new(Some(s("/repo")), true) };
    let (_, act) = step(st, LaunchEvent::Delivered { acknowledged: true });
    match act {
        LaunchAction::Exit { stdout, .. } => assert_eq!(stdout.as_deref(), Some("Opening /repo in Prism...")),
        other => panic!("unexpected {:?}", other),
    }
}

#[test]
fn unresolvable_path_fails() {
    let (st, _) = step(LaunchState::Init, LaunchEvent::Start { argument: Some(s("nowhere")) });
    let (st, act) = step(st, LaunchEvent::Resolved { path: None });
    match act {
        LaunchAction::Exit { code, stderr, .. } => {
            assert_eq!(code, 1);
            assert_eq!(stderr.as_deref(), Some("Error: Cannot resolve path nowhere"));
        }
        other => panic!("unexpected {:?}", other),
    }
    assert!(matches!(st, LaunchState::Failed { error: LaunchError::PathResolution { .. } }));
}

#[test]
fn failed_exchange_falls_back_to_spawn() {
    let st = LaunchState::Connecting { request: ActivationRequest::new(None, false) };
    let (st, act) = step(st, LaunchEvent::Delivered { acknowledged: false });
    match act {
        LaunchAction::Spawn { args } => assert!(args.is_empty()),
        other => panic!("unexpected {:?}", other),
    }
    let (st, act) = step(st, LaunchEvent::SpawnFinished { error: None });
    match act {
        LaunchAction::Exit { code, stdout, .. } => {
            assert_eq!(code, 0);
            assert_eq!(stdout.as_deref(), Some("Starting Prism..."));
        }
        other => panic!("unexpected {:?}", other),
    }
    assert!(matches!(st, LaunchState::Spawned));
}

#[test]
fn spawn_errors_are_reported() {
    let st = LaunchState::Spawning { request: ActivationRequest::new(None, false) };
    let (st, act) = step(st, LaunchEvent::SpawnFinished { error: Some(SpawnError::ExecutableNotFound { path: s("/opt/prism-gui") }) });
    match act {
        LaunchAction::Exit { code, stderr, .. } => {
            assert_eq!(code, 1);
            assert_eq!(stderr.as_deref(), Some("Error: GUI binary not found: /opt/prism-gui"));
        }
        other => panic!("unexpected {:?}", other),
    }
    assert!(matches!(st, LaunchState::Failed { error: LaunchError::Spawn { .. } }));
    let e = SpawnError::SpawnFailure { reason: s("denied") };
    assert_eq!(e.message(), "Failed to start GUI: denied");
}

#[test]
fn unexpected_event_is_ignored() {
    let (st, act) = step(LaunchState::Init, LaunchEvent::Delivered { acknowledged: true });
    assert!(matches!(act, LaunchAction::Ignore));
    assert!(matches!(st, LaunchState::Init));
    assert!(!is_terminal(&st));
}

#[test]
fn host_arguments_and_executable() {
    assert_eq!(host_arguments(&ActivationRequest::new(Some(s("/tmp/plain")), false)), vec!["/tmp/plain", "dir"]);
    assert!(host_arguments(&ActivationRequest::new(None, true)).is_empty());
    assert_eq!(host_executable_path("/usr/bin/prism", false).unwrap(), "/usr/bin/prism-gui");
    assert_eq!(host_executable_path("/opt/p/prism", true).unwrap(), "/opt/p/prism-gui.exe");
    assert!(matches!(host_executable_path("/", false), Err(SpawnError::SpawnFailure { .. })));
}
