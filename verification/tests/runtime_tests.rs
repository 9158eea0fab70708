use runner::context::RuntimeContext;
use runner::context::RuntimeFlavor;
use runner::errors::SandboxError;
use runner::ports::PortAllocator;
use runner::process::InitOutcome;
use runner::process::KillOutcome;
use runner::process::ProcessState;
use runner::process::RunOutcome;
use runner::SandboxRuntime;

#[test]
fn endpoint_of_a_runtime_bound_to_port_12345() {
    let mut ctx = RuntimeContext::new();
    let rt = SandboxRuntime::new(12345, &mut ctx);
    assert_eq!(rt.port(), 12345);
    assert_eq!(rt.rpc_addr(), "http://localhost:12345");
    assert_eq!(ctx.lookup(), Some(RuntimeFlavor::Sandbox(12345)));
    assert_eq!(rt.release(&mut ctx, None), Ok(()));
    assert_eq!(ctx.lookup(), None);
}

#[test]
fn runtime_registration_restores_prior_lookup() {
    let mut ctx = RuntimeContext::new();
    let local = ctx.enter(RuntimeFlavor::Local);
    let rt = SandboxRuntime::new(30000, &mut ctx);
    assert_eq!(ctx.lookup(), Some(RuntimeFlavor::Sandbox(30000)));
    assert_eq!(rt.release(&mut ctx, None), Ok(()));
    assert_eq!(ctx.lookup(), Some(RuntimeFlavor::Local));
    assert_eq!(ctx.release(local), Ok(()));
}

#[test]
fn default_runtimes_get_distinct_ports() {
    let mut ctx = RuntimeContext::new();
    let mut allocator = PortAllocator::new();
    let rt1 = SandboxRuntime::new_default(&mut ctx, &mut allocator).expect("no ports free");
    let rt2 = SandboxRuntime::new_default(&mut ctx, &mut allocator).expect("no ports free");
    assert_ne!(rt1.port(), rt2.port());
    assert_eq!(ctx.lookup(), Some(RuntimeFlavor::Sandbox(rt2.port())));
    assert_eq!(rt2.release(&mut ctx, None), Ok(()));
    assert_eq!(ctx.lookup(), Some(RuntimeFlavor::Sandbox(rt1.port())));
    assert_eq!(rt1.release(&mut ctx, None), Ok(()));
    assert_eq!(ctx.lookup(), None);
}

#[test]
fn releasing_runtimes_out_of_order_fails_loudly() {
    let mut ctx = RuntimeContext::new();
    let rt1 = SandboxRuntime::new(30000, &mut ctx);
    let rt2 = SandboxRuntime::new(30001, &mut ctx);
    assert_eq!(rt1.release(&mut ctx, None), Err(SandboxError::ContextNestingViolation));
    assert_eq!(ctx.lookup(), Some(RuntimeFlavor::Sandbox(30001)));
    assert_eq!(rt2.release(&mut ctx, None), Ok(()));
}

#[test]
fn full_lifecycle_through_the_facade() {
    let mut ctx = RuntimeContext::new();
    let mut rt = SandboxRuntime::new(30000, &mut ctx);
    assert_eq!(rt.state(), ProcessState::Created);

    assert_eq!(rt.complete_init(InitOutcome::CompletedOk), Ok(()));
    assert_eq!(rt.complete_run(RunOutcome::Spawned(77)), Ok(()));
    assert!(rt.holds_handle());
    assert_eq!(rt.complete_settle(true), Ok(()));

    assert_eq!(rt.release(&mut ctx, Some(KillOutcome::Killed)), Ok(()));
    assert_eq!(ctx.lookup(), None);
}

#[test]
fn facade_init_failure_never_reaches_run() {
    let mut ctx = RuntimeContext::new();
    let mut rt = SandboxRuntime::new(30000, &mut ctx);
    assert_eq!(rt.complete_init(InitOutcome::FailedStatus), Err(SandboxError::InitFailure));
    assert_eq!(rt.state(), ProcessState::Created);
    assert!(!rt.holds_handle());
    assert_eq!(rt.release(&mut ctx, None), Ok(()));
}

#[test]
fn release_reports_a_termination_failure_first() {
    let mut ctx = RuntimeContext::new();
    let mut rt = SandboxRuntime::new(30000, &mut ctx);
    assert_eq!(rt.complete_init(InitOutcome::CompletedOk), Ok(()));
    assert_eq!(rt.complete_run(RunOutcome::Spawned(5)), Ok(()));
    assert_eq!(
        rt.release(&mut ctx, Some(KillOutcome::StillAlive)),
        Err(SandboxError::TerminationFailure)
    );
    assert_eq!(ctx.lookup(), None);
}
