//! Lifecycle management for short-lived sandboxed node instances used by
//! integration tests: port allocation, per-instance directory naming,
//! subprocess start/teardown decisions, and a nestable runtime context.
pub mod context;
pub mod errors;
pub mod naming;
pub mod ports;
pub mod process;
pub mod runtime;

pub use crate::runtime::SandboxRuntime;
