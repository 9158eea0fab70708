//! The failures that sandbox setup, teardown and context nesting can raise.
use vstd::prelude::*;

verus! {

/// Everything that can go wrong while provisioning, running or releasing a
/// sandbox instance, or while manipulating the runtime context stack.
#[derive(Clone, Copy, Debug, PartialEq, Eq, Structural)]
pub enum SandboxError {
    /// Port selection found no free port.
    NoPortsAvailable,
    /// The external node binary could not be launched.
    SpawnFailure,
    /// The one-shot init subprocess exited with a non-zero status.
    InitFailure,
    /// The long-lived run subprocess never became reachable within the
    /// bounded readiness wait.
    StartupTimeout,
    /// A live process refused to die during teardown; fatal, since a leaked
    /// process keeps its port bound and its instance directory populated.
    TerminationFailure,
    /// A context registration was released while it was not the innermost
    /// one: a nesting-discipline error in the caller.
    ContextNestingViolation,
}

} // verus!
