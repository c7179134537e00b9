use vmflow::placeholders::PlatformPolicy;
use vmflow::runner::{
    builtin_outcome, next_runner_decision, process, spawn_failure, stream_line_event,
    system_shutdown, BuiltinAction, PollResult, RunnerDecision,
};
use vmflow::types::{BackendError, CoreEvent, ExitState};

#[test]
fn cancellation_kills_the_child() {
    for poll in [
        PollResult::StillRunning,
        PollResult::Exited(ExitState { code: Some(0) }),
        PollResult::Failed("x".to_string()),
    ] {
        let d = next_runner_decision("VBSP", true, poll);
        assert!(matches!(d, RunnerDecision::Stop { kill: true, outcome: Err(BackendError::Cancelled) }));
    }
}

#[test]
fn exit_status_decides_outcome() {
    let ok = next_runner_decision("VBSP", false, PollResult::Exited(ExitState { code: Some(0) }));
    assert!(matches!(ok, RunnerDecision::Stop { kill: false, outcome: Ok(()) }));
    let failed = next_runner_decision("VBSP", false, PollResult::Exited(ExitState { code: Some(2) }));
    match failed {
        RunnerDecision::Stop { kill: false, outcome: Err(BackendError::StepFailed(n, s)) } => {
            assert_eq!(n, "VBSP");
            assert_eq!(s.code, Some(2));
        }
        other => panic!("unexpected {:?}", other),
    }
    let signalled = next_runner_decision("VVIS", false, PollResult::Exited(ExitState { code: None }));
    assert!(matches!(signalled, RunnerDecision::Stop { outcome: Err(BackendError::StepFailed(..)), .. }));
    let running = next_runner_decision("VVIS", false, PollResult::StillRunning);
    assert!(matches!(running, RunnerDecision::Wait));
    let wait_err = next_runner_decision("VVIS", false, PollResult::Failed("boom".to_string()));
    assert!(matches!(wait_err, RunnerDecision::Stop { kill: false, outcome: Err(BackendError::ProcessWaitError(m)) } if m == "boom"));
}

#[test]
fn spawn_errors_are_classified() {
    assert!(matches!(spawn_failure("/x/vbsp", true, "no such file"), BackendError::CommandNotFound(e) if e == "/x/vbsp"));
    assert!(matches!(spawn_failure("/x/vbsp", false, "denied"), BackendError::ProcessSpawnError(m) if m == "denied"));
}

#[test]
fn output_lines_become_events() {
    let e = stream_line_event(3, "map", "VRAD", "line".to_string(), true);
    assert!(matches!(e, CoreEvent::StepErr(3, m, s, l) if m == "map" && s == "VRAD" && l == "line"));
    let o = stream_line_event(3, "map", "VRAD", "out".to_string(), false);
    assert!(matches!(o, CoreEvent::StepLog(3, _, _, l) if l == "out"));
}

#[test]
fn builtin_names() {
    assert_eq!(process("COPY").unwrap(), BuiltinAction::Copy);
    assert_eq!(process("SHUTDOWN").unwrap(), BuiltinAction::Shutdown);
    assert!(matches!(process("REBOOT"), Err(BackendError::BuiltinFailed(n)) if n == "REBOOT"));
    assert!(builtin_outcome("SHUTDOWN", Ok(())).is_ok());
    assert!(matches!(builtin_outcome("SHUTDOWN", Err("denied".to_string())), Err(BackendError::BuiltinFailed(n)) if n == "SHUTDOWN"));
}

#[test]
fn shutdown_command_per_platform() {
    let w = system_shutdown(PlatformPolicy::Windows).unwrap();
    assert_eq!(w.program, "shutdown");
    assert_eq!(w.args, vec!["/s", "/f", "/t", "0"]);
    let u = system_shutdown(PlatformPolicy::UnixLike).unwrap();
    assert_eq!(u.args, vec!["-h", "now"]);
    assert!(system_shutdown(PlatformPolicy::Unsupported).is_err());
}

#[test]
fn exit_state_success() {
    assert!(ExitState { code: Some(0) }.success());
    assert!(!ExitState { code: Some(1) }.success());
    assert!(!ExitState { code: None }.success());
}
