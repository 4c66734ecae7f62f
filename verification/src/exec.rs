//! Decisions of the container command executor.
//!
//! Executing a command inside a running container is a conversation with the
//! container runtime: inspect the container, create an execution context,
//! start it, then drain the attached output stream. The runtime calls
//! themselves are the caller's business; every decision between two calls is
//! made here.

use vstd::prelude::*;

use crate::errors::ExecError;

verus! {

/// What the runtime answered when asked to inspect a container: `Ok` carries
/// the id field of its answer (which the runtime may leave empty), `Err` a
/// transport or runtime failure rendered as a message.
pub type InspectOutcome = Result<Option<String>, String>;

/// Turns the runtime's inspect answer into the id to execute against.
///
/// An answer without an id means the container does not exist: that is
/// `ContainerNotFound`, distinct from a transport failure, which is
/// `RuntimeError`. No execution context may be created unless this returns an
/// id.
pub fn resolve_container_id(container_name: &str, inspect: InspectOutcome) -> (r: Result<
    String,
    ExecError,
>)
    ensures
        match inspect {
            Result::Ok(Option::Some(id)) => r matches Result::Ok(rid) && rid@ == id@,
            Result::Ok(Option::None) => r matches Result::Err(
                ExecError::ContainerNotFound { container_name: n },
            ) && n@ == container_name@,
            Result::Err(m) => r matches Result::Err(ExecError::RuntimeError { message })
                && message@ == m@,
        },
{
    match inspect {
        Result::Ok(Option::Some(id)) => Result::Ok(id),
        Result::Ok(Option::None) => Result::Err(
            ExecError::ContainerNotFound { container_name: String::from_str(container_name) },
        ),
        Result::Err(m) => Result::Err(ExecError::RuntimeError { message: m }),
    }
}

/// One command run to be created inside a container. Both output streams are
/// always attached: the executor's result is their interleaving, and a
/// detached start is ruled out by construction.
pub struct ExecRequest {
    /// The id the container resolved to.
    pub container_id: String,
    /// Whether stdout is attached. Always set here.
    pub attach_stdout: bool,
    /// Whether stderr is attached. Always set here.
    pub attach_stderr: bool,
    /// The command vector to run. Never empty.
    pub command: Vec<String>,
}

impl ExecRequest {
    /// A request is well formed when it asks for both streams and carries a
    /// non-empty command.
    pub open spec fn wf(self) -> bool {
        self.attach_stdout && self.attach_stderr && self.command@.len() > 0
    }

    /// Builds the execution request for a resolved container and a command.
    pub fn new(container_id: String, command: Vec<String>) -> (r: Self)
        requires
            command@.len() > 0,
        ensures
            r.wf(),
            r.container_id@ == container_id@,
            r.command@ == command@,
    {
        ExecRequest { container_id, attach_stdout: true, attach_stderr: true, command }
    }
}

/// How starting an execution came back from the runtime: with a live output
/// channel, or detached.
///
/// A request built by [`ExecRequest::new`] attaches both streams, so the
/// runtime answers `Attached` for it; `Detached` would mean the runtime broke
/// that contract, which the process treats as fatal rather than as a
/// recoverable error. The functions here therefore never accept a `Detached`
/// start: the caller checks first, and aborts as the workflow demands.
#[derive(Debug, PartialEq, Eq, Structural, Clone, Copy)]
pub enum StartOutcome {
    /// The runtime handed back a live output channel.
    Attached,
    /// The runtime handed back no channel.
    Detached,
}

/// Whether a started execution may be drained for output.
pub fn channel_open(outcome: StartOutcome) -> (r: bool)
    ensures
        r == (outcome is Attached),
{
    outcome == StartOutcome::Attached
}

} // verus!
