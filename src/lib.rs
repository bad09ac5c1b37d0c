//! An actor-style task runtime: tasks that own a mailbox, handles that send to
//! them, a lifecycle that turns a run routine's outcome into a termination
//! reason, and a request-response protocol on top of fire-and-forget sends.
//!
//! The decisions of each component are verified here; awaiting on channels,
//! deadlines and spawned tasks is left to the embedding runtime, which feeds
//! what it observed back into these functions.

pub mod call;
pub mod driver;
pub mod errors;
mod host;
pub mod lifecycle;
pub mod mailbox;
pub mod task;

pub use crate::call::{request_outcome, reply_outcome, ReplyWait, DEFAULT_CALL_TIMEOUT_MS};
pub use crate::driver::{panic_outcome, step, Action, Event, Outcome, Phase};
pub use crate::errors::{CallError, CallResult, RecvError, RecvResult, SendError, SendResult};
pub use crate::lifecycle::{shutdown_outcome, ShutdownError, ShutdownResult, TerminateReason};
pub use crate::mailbox::{Mailbox, ReceiveSlot};
pub use crate::task::{TaskHandle, TaskRef};
