//! How a task ended, and what a graceful shutdown reports.

use crate::host::describe_join_error;
use tokio::task::JoinError;
use vstd::prelude::*;
use vstd::string::StringExecFns;

verus! {

/// Why a task stopped: produced once per execution, seen by the task's
/// termination hook and by whoever joins it.
#[derive(Debug, Clone, PartialEq, Eq)]
pub enum TerminateReason {
    /// The run routine returned.
    Normal,
    /// The run routine panicked; the payload's text, as far as it could be read.
    Panic(String),
}

impl TerminateReason {
    /// The human-readable description of a reason.
    pub open spec fn text(self) -> Seq<char> {
        match self {
            TerminateReason::Normal => "normal termination"@,
            TerminateReason::Panic(m) => "panicked: "@ + m@,
        }
    }

    /// Describes the reason in words.
    pub fn message(&self) -> (r: String)
        ensures
            r@ == self.text(),
    {
        match self {
            TerminateReason::Normal => String::from_str("normal termination"),
            TerminateReason::Panic(m) => String::from_str("panicked: ").concat(m.as_str()),
        }
    }

    /// An equal reason, for a second party to keep.
    pub(crate) fn duplicate(&self) -> (r: TerminateReason)
        ensures
            r == *self,
    {
        match self {
            TerminateReason::Normal => TerminateReason::Normal,
            TerminateReason::Panic(m) => TerminateReason::Panic(m.clone()),
        }
    }
}

/// Why a graceful shutdown did not report a termination reason.
#[derive(Debug)]
pub enum ShutdownError {
    /// The deadline passed first; the task was aborted.
    Timeout,
    /// The runtime could not hand back the task's result.
    JoinError(JoinError),
}

/// Result of a graceful shutdown.
pub type ShutdownResult = Result<TerminateReason, ShutdownError>;

impl ShutdownError {
    /// Describes the failure in words.
    pub fn message(&self) -> (r: String)
        ensures
            self is Timeout ==> r@ == "shutdown timeout exceeded"@,
            self is JoinError ==> "task join error: "@.is_prefix_of(r@),
    {
        match self {
            ShutdownError::Timeout => String::from_str("shutdown timeout exceeded"),
            ShutdownError::JoinError(e) => {
                let detail = describe_join_error(e);
                String::from_str("task join error: ").concat(detail.as_str())
            },
        }
    }
}

/// What a shutdown reports, given what waiting on the task brought: `None`
/// when the deadline passed first, else the task's own join result.
pub open spec fn shutdown_report(waited: Option<Result<TerminateReason, JoinError>>) -> ShutdownResult {
    match waited {
        None => Err(ShutdownError::Timeout),
        Some(Ok(reason)) => Ok(reason),
        Some(Err(e)) => Err(ShutdownError::JoinError(e)),
    }
}

/// Settles a graceful shutdown once the bounded wait is over. The second
/// component tells whether the task must now be aborted: exactly when the
/// deadline passed, so that no task outlives a failed shutdown.
pub fn shutdown_outcome(waited: Option<Result<TerminateReason, JoinError>>) -> (r: (ShutdownResult, bool))
    ensures
        r.0 == shutdown_report(waited),
        r.1 == (waited is None),
{
    match waited {
        None => (Err(ShutdownError::Timeout), true),
        Some(Ok(reason)) => (Ok(reason), false),
        Some(Err(e)) => (Err(ShutdownError::JoinError(e)), false),
    }
}

} // verus!
