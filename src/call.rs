//! The request-response protocol on top of fire-and-forget sends.
//!
//! A call makes a single-use reply channel, sends a request that carries the
//! reply sender, then waits on the reply receiver under a deadline. The wait on
//! the receiver is the inner operation and the deadline wraps it, so a reply
//! channel dropped early is reported at once as `ChannelClosed` rather than as
//! `Timeout` once the deadline has passed. Each call owns its reply channel: no
//! call sees another's reply.

use crate::errors::{CallError, CallResult, SendResult};
use vstd::prelude::*;

verus! {

/// The deadline a call waits for its reply when none is given, in milliseconds.
pub const DEFAULT_CALL_TIMEOUT_MS: u64 = 5000;

/// What the bounded wait on a call's reply channel brought.
#[derive(Debug, Clone, PartialEq, Eq)]
pub enum ReplyWait<R> {
    /// The deadline passed before anything arrived.
    Elapsed,
    /// Before the deadline, the responder dropped the reply sender unused.
    Dropped,
    /// Before the deadline, the responder replied with this value.
    Replied(R),
}

/// What a call whose request went out reports for each way its wait can end.
pub open spec fn call_report<R>(w: ReplyWait<R>) -> CallResult<R> {
    match w {
        ReplyWait::Elapsed => Err(CallError::Timeout),
        ReplyWait::Dropped => Err(CallError::ChannelClosed),
        ReplyWait::Replied(v) => Ok(v),
    }
}

/// First check of a call, made before any wait: a request that could not be
/// enqueued fails the call with `CallError::SendError`, since the task is gone
/// and nothing will answer.
pub fn request_outcome<T>(sent: SendResult<T>) -> (r: Result<(), CallError>)
    ensures
        sent is Ok ==> r == Ok::<(), CallError>(()),
        sent is Err ==> r == Err::<(), CallError>(CallError::SendError),
{
    match sent {
        Ok(()) => Ok(()),
        Err(_) => Err(CallError::SendError),
    }
}

/// Settles a call once the bounded wait on its reply is over: the reply value,
/// `Timeout` when the deadline passed, `ChannelClosed` when the responder
/// dropped the reply sender before it.
pub fn reply_outcome<R>(w: ReplyWait<R>) -> (r: CallResult<R>)
    ensures
        r == call_report(w),
{
    match w {
        ReplyWait::Elapsed => Err(CallError::Timeout),
        ReplyWait::Dropped => Err(CallError::ChannelClosed),
        ReplyWait::Replied(v) => Ok(v),
    }
}

/// A call is settled by its own reply channel alone: a reply within the
/// deadline is returned as it is, a wait that outlives the deadline is a
/// timeout, and a reply sender dropped unused before the deadline is a closed
/// channel, never a timeout.
pub proof fn lemma_call_outcomes<R>(v: R)
    ensures
        call_report(ReplyWait::Replied(v)) == Ok::<R, CallError>(v),
        call_report(ReplyWait::<R>::Elapsed) == Err::<R, CallError>(CallError::Timeout),
        call_report(ReplyWait::<R>::Dropped) == Err::<R, CallError>(CallError::ChannelClosed),
{
}

} // verus!
