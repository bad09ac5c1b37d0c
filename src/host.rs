//! What the host runtime (tokio) provides: its channel sender, its task handle,
//! and the few calls this library makes on them.

use tokio::sync::mpsc::{UnboundedReceiver, UnboundedSender};
use tokio::task::{JoinError, JoinHandle};
use vstd::prelude::*;

verus! {

/// The sending half of tokio's unbounded channel; opaque here.
#[verifier::external_type_specification]
#[verifier::external_body]
#[verifier::reject_recursive_types(T)]
pub struct ExUnboundedSender<T>(UnboundedSender<T>);

/// The receiving half of tokio's unbounded channel; opaque here.
#[verifier::external_type_specification]
#[verifier::external_body]
#[verifier::reject_recursive_types(T)]
pub struct ExUnboundedReceiver<T>(UnboundedReceiver<T>);

/// tokio's handle on a spawned task; awaiting it yields the task's output.
#[verifier::external_type_specification]
#[verifier::external_body]
#[verifier::reject_recursive_types(T)]
pub struct ExJoinHandle<T>(JoinHandle<T>);

/// tokio's report that a spawned task did not run to completion.
#[verifier::external_type_specification]
#[verifier::external_body]
pub struct ExJoinError(JoinError);

/// Relies on tokio's `UnboundedSender::send`: it never waits, and when the
/// receiving half is closed its error holds the very message it was given.
#[verifier::external_body]
pub(crate) fn enqueue<T>(sender: &UnboundedSender<T>, msg: T) -> (r: Result<(), T>)
    ensures
        (r matches Err(back) ==> back == msg),
{
    match sender.send(msg) {
        Ok(()) => Ok(()),
        Err(e) => Err(e.0),
    }
}

/// Relies on tokio's `Clone` for `UnboundedSender`: a second sender on the same
/// channel (it shares the channel's `Arc`), which keeps the channel open while
/// it lives. Opaque as the type is, the two are one value to this library.
pub assume_specification<T>[ <UnboundedSender<T> as Clone>::clone ](
    sender: &UnboundedSender<T>,
) -> (r: UnboundedSender<T>)
    ensures
        r == *sender,
;

/// Relies on tokio's `JoinHandle::abort`: asks the runtime to cancel the task at
/// its next suspension point; it never waits.
#[verifier::external_body]
pub(crate) fn abort_task<T>(handle: &JoinHandle<T>) {
    handle.abort()
}

/// Relies on tokio's `Display` for `JoinError`: a line naming the task and
/// whether it was cancelled or panicked.
#[verifier::external_body]
pub(crate) fn describe_join_error(e: &JoinError) -> String {
    e.to_string()
}

} // verus!
