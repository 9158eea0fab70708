use runner::errors::SandboxError;
use runner::process::InitOutcome;
use runner::process::KillOutcome;
use runner::process::ProcessState;
use runner::process::RunOutcome;
use runner::process::SandboxServer;

#[test]
fn init_failure_stops_the_start_protocol() {
    let mut server = SandboxServer::new(30000);
    assert_eq!(server.state(), ProcessState::Created);

    let r = server.complete_init(InitOutcome::FailedStatus);
    assert_eq!(r, Err(SandboxError::InitFailure));
    assert_eq!(server.state(), ProcessState::Created);
    assert!(!server.holds_handle());
}

#[test]
fn init_spawn_failure_is_reported() {
    let mut server = SandboxServer::new(30000);
    let r = server.complete_init(InitOutcome::SpawnFailed);
    assert_eq!(r, Err(SandboxError::SpawnFailure));
    assert_eq!(server.state(), ProcessState::Created);
    assert!(!server.holds_handle());
}

#[test]
fn successful_start_holds_one_handle_and_terminate_drops_it() {
    let mut server = SandboxServer::new(30000);
    assert!(!server.holds_handle());

    assert_eq!(server.complete_init(InitOutcome::CompletedOk), Ok(()));
    assert_eq!(server.state(), ProcessState::Initialized);
    assert!(!server.holds_handle());

    assert_eq!(server.complete_run(RunOutcome::Spawned(42)), Ok(()));
    assert_eq!(server.state(), ProcessState::Running);
    assert!(server.holds_handle());

    assert_eq!(server.complete_settle(true), Ok(()));
    assert_eq!(server.state(), ProcessState::Running);

    assert_eq!(server.terminate(Some(KillOutcome::Killed)), Ok(()));
    assert_eq!(server.state(), ProcessState::Terminated);
    assert!(!server.holds_handle());
}

#[test]
fn run_spawn_failure_leaves_no_handle() {
    let mut server = SandboxServer::new(30000);
    assert_eq!(server.complete_init(InitOutcome::CompletedOk), Ok(()));
    let r = server.complete_run(RunOutcome::SpawnFailed);
    assert_eq!(r, Err(SandboxError::SpawnFailure));
    assert_eq!(server.state(), ProcessState::Initialized);
    assert!(!server.holds_handle());
}

#[test]
fn settle_timeout_keeps_the_handle_for_cleanup() {
    let mut server = SandboxServer::new(30000);
    assert_eq!(server.complete_init(InitOutcome::CompletedOk), Ok(()));
    assert_eq!(server.complete_run(RunOutcome::Spawned(7)), Ok(()));

    let r = server.complete_settle(false);
    assert_eq!(r, Err(SandboxError::StartupTimeout));
    assert!(server.holds_handle());

    assert_eq!(server.terminate(Some(KillOutcome::Killed)), Ok(()));
    assert!(!server.holds_handle());
}

#[test]
fn terminate_without_a_handle_is_a_no_op_success() {
    let mut server = SandboxServer::new(30000);
    assert_eq!(server.terminate(None), Ok(()));
    assert_eq!(server.state(), ProcessState::Created);
}

#[test]
fn terminate_accepts_a_process_that_already_exited() {
    let mut server = SandboxServer::new(30000);
    assert_eq!(server.complete_init(InitOutcome::CompletedOk), Ok(()));
    assert_eq!(server.complete_run(RunOutcome::Spawned(9)), Ok(()));

    let r = server.terminate(Some(KillOutcome::AlreadyExited));
    assert_eq!(r, Ok(()));
    assert_eq!(server.state(), ProcessState::Terminated);
    assert!(!server.holds_handle());
}

#[test]
fn terminate_reports_a_process_that_refuses_to_die() {
    let mut server = SandboxServer::new(30000);
    assert_eq!(server.complete_init(InitOutcome::CompletedOk), Ok(()));
    assert_eq!(server.complete_run(RunOutcome::Spawned(9)), Ok(()));

    let r = server.terminate(Some(KillOutcome::StillAlive));
    assert_eq!(r, Err(SandboxError::TerminationFailure));
    assert_eq!(server.state(), ProcessState::Running);
    assert!(server.holds_handle());
}
