//! The facade a test works with: one sandbox instance composed of a port,
//! a server lifecycle, and a scoped registration in the runtime context.
use vstd::prelude::*;

use crate::context::Registration;
use crate::context::RuntimeContext;
use crate::context::RuntimeFlavor;
use crate::errors::SandboxError;
use crate::naming::endpoint;
use crate::naming::endpoint_chars;
use crate::ports::PortAllocator;
use crate::process::InitOutcome;
use crate::process::KillOutcome;
use crate::process::ProcessState;
use crate::process::RunOutcome;
use crate::process::SandboxServer;

verus! {

impl SandboxServer {
    /// A server bound to a freshly allocated port: the allocator proposes a
    /// port never issued before and records it.
    pub fn new_default(allocator: &mut PortAllocator) -> (r: Result<SandboxServer, SandboxError>)
        ensures
            match r {
                Ok(s) => {
                    &&& s.wf()
                    &&& s.spec_state() is Created
                    &&& s.spec_process() is None
                    &&& !old(allocator).issued_set().contains(s.spec_port())
                    &&& final(allocator).issued_set() == old(allocator).issued_set().insert(
                        s.spec_port(),
                    )
                },
                Err(e) => {
                    &&& e == SandboxError::NoPortsAvailable
                    &&& final(allocator).issued_set() == old(allocator).issued_set()
                },
            },
    {
        match allocator.allocate() {
            Ok(port) => Ok(SandboxServer::new(port)),
            Err(e) => Err(e),
        }
    }
}

/// One sandbox instance as the tests see it: the server owning the external
/// process, and the context registration that advertises the instance as the
/// active runtime for as long as it lives.
pub struct SandboxRuntime {
    server: SandboxServer,
    guard: Registration,
}

impl SandboxRuntime {
    /// The underlying server, for specification purposes.
    pub closed spec fn spec_server(&self) -> SandboxServer {
        self.server
    }

    /// The registration obtained when this runtime entered the context.
    pub closed spec fn spec_guard(&self) -> Registration {
        self.guard
    }

    pub open spec fn wf(&self) -> bool {
        self.spec_server().wf()
    }

    /// A runtime bound to `port`: constructs the server and registers
    /// `Sandbox(port)` as the innermost entry of `ctx`.
    pub fn new(port: u16, ctx: &mut RuntimeContext) -> (r: SandboxRuntime)
        ensures
            r.wf(),
            r.spec_server().spec_port() == port,
            r.spec_server().spec_state() is Created,
            r.spec_server().spec_process() is None,
            final(ctx)@ == old(ctx)@.push(RuntimeFlavor::Sandbox(port)),
            r.spec_guard().depth == old(ctx)@.len(),
    {
        let server = SandboxServer::new(port);
        let guard = ctx.enter(RuntimeFlavor::Sandbox(port));
        SandboxRuntime { server, guard }
    }

    /// A runtime on a freshly allocated port, registered in `ctx`. On
    /// allocation failure nothing is registered and nothing is issued.
    pub fn new_default(ctx: &mut RuntimeContext, allocator: &mut PortAllocator) -> (r: Result<
        SandboxRuntime,
        SandboxError,
    >)
        ensures
            match r {
                Ok(rt) => {
                    &&& rt.wf()
                    &&& rt.spec_server().spec_state() is Created
                    &&& rt.spec_server().spec_process() is None
                    &&& !old(allocator).issued_set().contains(rt.spec_server().spec_port())
                    &&& final(allocator).issued_set() == old(allocator).issued_set().insert(
                        rt.spec_server().spec_port(),
                    )
                    &&& final(ctx)@ == old(ctx)@.push(
                        RuntimeFlavor::Sandbox(rt.spec_server().spec_port()),
                    )
                    &&& rt.spec_guard().depth == old(ctx)@.len()
                },
                Err(e) => {
                    &&& e == SandboxError::NoPortsAvailable
                    &&& final(allocator).issued_set() == old(allocator).issued_set()
                    &&& final(ctx)@ == old(ctx)@
                },
            },
    {
        match allocator.allocate() {
            Ok(port) => Ok(SandboxRuntime::new(port, ctx)),
            Err(e) => Err(e),
        }
    }

    /// The port this instance is bound to.
    pub fn port(&self) -> (r: u16)
        ensures
            r == self.spec_server().spec_port(),
    {
        self.server.port()
    }

    /// The client-facing endpoint: exactly `http://localhost:<port>`.
    pub fn rpc_addr(&self) -> (r: String)
        ensures
            r@ == endpoint_chars(self.spec_server().spec_port()),
    {
        endpoint(self.server.port())
    }

    /// The server's lifecycle state.
    pub fn state(&self) -> (r: ProcessState)
        ensures
            r == self.spec_server().spec_state(),
    {
        self.server.state()
    }

    /// Whether a live process handle is currently held.
    pub fn holds_handle(&self) -> (r: bool)
        ensures
            r == (self.spec_server().spec_process() is Some),
    {
        self.server.holds_handle()
    }

    /// Records the outcome of the directory-reset-and-init phase; see
    /// [`SandboxServer::complete_init`].
    pub fn complete_init(&mut self, outcome: InitOutcome) -> (r: Result<(), SandboxError>)
        requires
            old(self).wf(),
            old(self).spec_server().spec_state() is Created,
        ensures
            final(self).wf(),
            final(self).spec_guard() == old(self).spec_guard(),
            final(self).spec_server().spec_port() == old(self).spec_server().spec_port(),
            final(self).spec_server().spec_process() is None,
            match outcome {
                InitOutcome::SpawnFailed => {
                    &&& r == Err::<(), SandboxError>(SandboxError::SpawnFailure)
                    &&& final(self).spec_server().spec_state() is Created
                },
                InitOutcome::FailedStatus => {
                    &&& r == Err::<(), SandboxError>(SandboxError::InitFailure)
                    &&& final(self).spec_server().spec_state() is Created
                },
                InitOutcome::CompletedOk => {
                    &&& r == Ok::<(), SandboxError>(())
                    &&& final(self).spec_server().spec_state() is Initialized
                },
            },
    {
        self.server.complete_init(outcome)
    }

    /// Records the outcome of the run-subprocess spawn; see
    /// [`SandboxServer::complete_run`].
    pub fn complete_run(&mut self, outcome: RunOutcome) -> (r: Result<(), SandboxError>)
        requires
            old(self).wf(),
            old(self).spec_server().spec_state() is Initialized,
        ensures
            final(self).wf(),
            final(self).spec_guard() == old(self).spec_guard(),
            final(self).spec_server().spec_port() == old(self).spec_server().spec_port(),
            match outcome {
                RunOutcome::SpawnFailed => {
                    &&& r == Err::<(), SandboxError>(SandboxError::SpawnFailure)
                    &&& final(self).spec_server().spec_state() is Initialized
                    &&& final(self).spec_server().spec_process() is None
                },
                RunOutcome::Spawned(id) => {
                    &&& r == Ok::<(), SandboxError>(())
                    &&& final(self).spec_server().spec_state() is Running
                    &&& final(self).spec_server().spec_process() == Some(id)
                },
            },
    {
        self.server.complete_run(outcome)
    }

    /// Records the outcome of the readiness wait; see
    /// [`SandboxServer::complete_settle`].
    pub fn complete_settle(&mut self, ready: bool) -> (r: Result<(), SandboxError>)
        requires
            old(self).wf(),
            old(self).spec_server().spec_state() is Running,
        ensures
            final(self).wf(),
            final(self).spec_guard() == old(self).spec_guard(),
            final(self).spec_server().spec_port() == old(self).spec_server().spec_port(),
            final(self).spec_server().spec_state() == old(self).spec_server().spec_state(),
            final(self).spec_server().spec_process() == old(self).spec_server().spec_process(),
            ready ==> r == Ok::<(), SandboxError>(()),
            !ready ==> r == Err::<(), SandboxError>(SandboxError::StartupTimeout),
    {
        self.server.complete_settle(ready)
    }

    /// Scoped release: withdraws this runtime's context registration and
    /// terminates its process, both always attempted. A process that refuses
    /// to die is fatal and reported ahead of a nesting violation; otherwise a
    /// registration released out of nesting order is reported and the context
    /// stack is left unchanged.
    pub fn release(self, ctx: &mut RuntimeContext, kill: Option<KillOutcome>) -> (r: Result<
        (),
        SandboxError,
    >)
        requires
            self.wf(),
            (kill is Some) == (self.spec_server().spec_process() is Some),
        ensures
            self.spec_guard().depth + 1 == old(ctx)@.len() ==> final(ctx)@ == old(
                ctx,
            )@.drop_last(),
            self.spec_guard().depth + 1 != old(ctx)@.len() ==> final(ctx)@ == old(ctx)@,
            kill == Some(KillOutcome::StillAlive) ==> r == Err::<(), SandboxError>(
                SandboxError::TerminationFailure,
            ),
            kill != Some(KillOutcome::StillAlive) && self.spec_guard().depth + 1 != old(
                ctx,
            )@.len() ==> r == Err::<(), SandboxError>(SandboxError::ContextNestingViolation),
            kill != Some(KillOutcome::StillAlive) && self.spec_guard().depth + 1 == old(
                ctx,
            )@.len() ==> r == Ok::<(), SandboxError>(()),
    {
        let mut server = self.server;
        let context_result = ctx.release(self.guard);
        let terminate_result = server.terminate(kill);
        match terminate_result {
            Err(e) => Err(e),
            Ok(()) => context_result,
        }
    }
}

} // verus!
