//! The sandbox subprocess lifecycle. One [`SandboxServer`] owns the external
//! node process bound to one port. The subprocess work itself — wiping the
//! instance directory, spawning the one-shot init command, spawning the
//! long-lived run command, probing readiness, killing — is operating-system
//! work done by the caller; every decision about it is made here. The caller
//! performs one step at a time and reports its outcome; the state machine
//! decides whether the start protocol may continue and guarantees that the
//! states advance one-directionally: Created, then Initialized, then Running,
//! then Terminated.
use vstd::prelude::*;

use crate::errors::SandboxError;

verus! {

/// Where a server stands in its lifecycle.
#[derive(Clone, Copy, Debug, PartialEq, Eq, Structural)]
pub enum ProcessState {
    /// Constructed; no subprocess work done yet.
    Created,
    /// The one-shot init subprocess completed successfully.
    Initialized,
    /// The long-lived run subprocess is live and its handle is held.
    Running,
    /// The run subprocess was confirmed stopped; its handle is gone.
    Terminated,
}

/// What the caller observed while resetting the instance directory and
/// running the one-shot init subprocess to completion.
#[derive(Clone, Copy, Debug, PartialEq, Eq, Structural)]
pub enum InitOutcome {
    /// The init subprocess could not be launched.
    SpawnFailed,
    /// The init subprocess exited with a success status.
    CompletedOk,
    /// The init subprocess exited with a non-zero status.
    FailedStatus,
}

/// What the caller observed while spawning the long-lived run subprocess.
#[derive(Clone, Copy, Debug, PartialEq, Eq, Structural)]
pub enum RunOutcome {
    /// The run subprocess could not be launched.
    SpawnFailed,
    /// The run subprocess was launched; its handle carries this identifier.
    Spawned(u64),
}

/// What the caller observed while trying to stop the live run subprocess.
#[derive(Clone, Copy, Debug, PartialEq, Eq, Structural)]
pub enum KillOutcome {
    /// The kill signal was delivered and the process is gone.
    Killed,
    /// The process had already exited on its own: an acceptable terminal
    /// state, not a failure.
    AlreadyExited,
    /// The process is still alive and refused to die.
    StillAlive,
}

/// One sandbox instance: a port, the lifecycle state, and — exactly while
/// the state is `Running` — the identifier of the live run subprocess.
pub struct SandboxServer {
    port: u16,
    state: ProcessState,
    process: Option<u64>,
}

impl SandboxServer {
    /// The process handle is held exactly while the server is running.
    pub closed spec fn wf(&self) -> bool {
        self.process is Some <==> self.state is Running
    }

    /// A well-formed server holds a live process handle exactly while it is
    /// running: one handle once the start protocol has succeeded, none once
    /// it is terminated (or before it ever ran).
    pub proof fn lemma_handle_held_exactly_while_running(&self)
        requires
            self.wf(),
        ensures
            (self.spec_process() is Some) <==> (self.spec_state() is Running),
    {
    }

    pub closed spec fn spec_port(&self) -> u16 {
        self.port
    }

    pub closed spec fn spec_state(&self) -> ProcessState {
        self.state
    }

    /// The identifier of the live run subprocess, while one is held.
    pub closed spec fn spec_process(&self) -> Option<u64> {
        self.process
    }

    /// A server bound to `port`, with no subprocess work done yet.
    pub fn new(port: u16) -> (r: SandboxServer)
        ensures
            r.wf(),
            r.spec_port() == port,
            r.spec_state() is Created,
            r.spec_process() is None,
    {
        SandboxServer { port, state: ProcessState::Created, process: None }
    }

    /// The port this instance is bound to.
    pub fn port(&self) -> (r: u16)
        ensures
            r == self.spec_port(),
    {
        self.port
    }

    /// The current lifecycle state.
    pub fn state(&self) -> (r: ProcessState)
        ensures
            r == self.spec_state(),
    {
        self.state
    }

    /// Whether a live process handle is currently held.
    pub fn holds_handle(&self) -> (r: bool)
        ensures
            r == (self.spec_process() is Some),
    {
        self.process.is_some()
    }

    /// Decides on the outcome of the first start phase: the caller has wiped
    /// the instance directory, then spawned the init subprocess and waited
    /// for it to exit. A launch failure is `SpawnFailure` and a non-zero
    /// exit status is `InitFailure`; either leaves the server in `Created`,
    /// so the run subprocess can never be spawned after a failed init. Only
    /// a successful exit advances the server to `Initialized`.
    pub fn complete_init(&mut self, outcome: InitOutcome) -> (r: Result<(), SandboxError>)
        requires
            old(self).wf(),
            old(self).spec_state() is Created,
        ensures
            final(self).wf(),
            final(self).spec_port() == old(self).spec_port(),
            final(self).spec_process() is None,
            match outcome {
                InitOutcome::SpawnFailed => {
                    &&& r == Err::<(), SandboxError>(SandboxError::SpawnFailure)
                    &&& final(self).spec_state() is Created
                },
                InitOutcome::FailedStatus => {
                    &&& r == Err::<(), SandboxError>(SandboxError::InitFailure)
                    &&& final(self).spec_state() is Created
                },
                InitOutcome::CompletedOk => {
                    &&& r == Ok::<(), SandboxError>(())
                    &&& final(self).spec_state() is Initialized
                },
            },
    {
        match outcome {
            InitOutcome::SpawnFailed => Err(SandboxError::SpawnFailure),
            InitOutcome::FailedStatus => Err(SandboxError::InitFailure),
            InitOutcome::CompletedOk => {
                self.state = ProcessState::Initialized;
                Ok(())
            },
        }
    }

    /// Decides on the outcome of the second start phase: the caller has
    /// tried to spawn the long-lived run subprocess. On success the server
    /// is `Running` and holds exactly that handle; a launch failure is
    /// `SpawnFailure` and leaves the server `Initialized` with no handle.
    pub fn complete_run(&mut self, outcome: RunOutcome) -> (r: Result<(), SandboxError>)
        requires
            old(self).wf(),
            old(self).spec_state() is Initialized,
        ensures
            final(self).wf(),
            final(self).spec_port() == old(self).spec_port(),
            match outcome {
                RunOutcome::SpawnFailed => {
                    &&& r == Err::<(), SandboxError>(SandboxError::SpawnFailure)
                    &&& final(self).spec_state() is Initialized
                    &&& final(self).spec_process() is None
                },
                RunOutcome::Spawned(id) => {
                    &&& r == Ok::<(), SandboxError>(())
                    &&& final(self).spec_state() is Running
                    &&& final(self).spec_process() == Some(id)
                },
            },
    {
        match outcome {
            RunOutcome::SpawnFailed => Err(SandboxError::SpawnFailure),
            RunOutcome::Spawned(id) => {
                self.state = ProcessState::Running;
                self.process = Some(id);
                Ok(())
            },
        }
    }

    /// Decides on the outcome of the readiness wait: the caller has given
    /// the running process its bounded settle time, probing whether it became
    /// reachable. If it never did, the result is `StartupTimeout`; the handle
    /// is kept either way, so cleanup can still terminate the process.
    pub fn complete_settle(&mut self, ready: bool) -> (r: Result<(), SandboxError>)
        requires
            old(self).wf(),
            old(self).spec_state() is Running,
        ensures
            final(self).wf(),
            final(self).spec_port() == old(self).spec_port(),
            final(self).spec_state() == old(self).spec_state(),
            final(self).spec_process() == old(self).spec_process(),
            ready ==> r == Ok::<(), SandboxError>(()),
            !ready ==> r == Err::<(), SandboxError>(SandboxError::StartupTimeout),
    {
        if ready {
            Ok(())
        } else {
            Err(SandboxError::StartupTimeout)
        }
    }

    /// Decides on teardown. With no handle held, termination is a no-op
    /// success and nothing changes. With a handle held, the caller reports
    /// how the kill went: a delivered kill or a process that had already
    /// exited on its own both consume the handle and end the lifecycle in
    /// `Terminated`; a process that is still alive and refused to die is
    /// `TerminationFailure`, fatal to the caller, and the handle stays held.
    pub fn terminate(&mut self, outcome: Option<KillOutcome>) -> (r: Result<(), SandboxError>)
        requires
            old(self).wf(),
            (outcome is Some) == (old(self).spec_process() is Some),
        ensures
            final(self).wf(),
            final(self).spec_port() == old(self).spec_port(),
            match outcome {
                None => {
                    &&& r == Ok::<(), SandboxError>(())
                    &&& final(self).spec_state() == old(self).spec_state()
                    &&& final(self).spec_process() is None
                },
                Some(KillOutcome::Killed) | Some(KillOutcome::AlreadyExited) => {
                    &&& r == Ok::<(), SandboxError>(())
                    &&& final(self).spec_state() is Terminated
                    &&& final(self).spec_process() is None
                },
                Some(KillOutcome::StillAlive) => {
                    &&& r == Err::<(), SandboxError>(SandboxError::TerminationFailure)
                    &&& final(self).spec_state() == old(self).spec_state()
                    &&& final(self).spec_process() == old(self).spec_process()
                },
            },
    {
        match outcome {
            None => Ok(()),
            Some(KillOutcome::Killed) | Some(KillOutcome::AlreadyExited) => {
                self.state = ProcessState::Terminated;
                self.process = None;
                Ok(())
            },
            Some(KillOutcome::StillAlive) => Err(SandboxError::TerminationFailure),
        }
    }
}

} // verus!
