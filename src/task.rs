//! Handles on a running task: the owning `TaskHandle` and the shared,
//! send-only `TaskRef`.

use crate::errors::{SendError, SendResult};
use crate::host::{abort_task, enqueue};
use crate::lifecycle::TerminateReason;
use tokio::sync::mpsc::UnboundedSender;
use tokio::task::JoinHandle;
use vstd::prelude::*;

verus! {

/// What a send may return: success, or `Disconnected` carrying back the very
/// message that was to be sent. A send never reports `Full`: the inbound
/// queue is unbounded.
pub open spec fn delivered_or_returned<T>(r: SendResult<T>, msg: T) -> bool {
    match r {
        Ok(()) => true,
        Err(e) => e == SendError::Disconnected(msg),
    }
}

/// Enqueues `msg` on the channel behind `sender`.
fn send_on<T>(sender: &UnboundedSender<T>, msg: T) -> (r: SendResult<T>)
    ensures
        delivered_or_returned(r, msg),
{
    match enqueue(sender, msg) {
        Ok(()) => Ok(()),
        Err(back) => Err(SendError::Disconnected(back)),
    }
}

/// A cheap, cloneable, send-only reference to a task's inbound queue. It
/// cannot join or kill the task, and while any clone lives the queue stays
/// open.
#[derive(Debug)]
#[verifier::reject_recursive_types(T)]
pub struct TaskRef<T> {
    sender: UnboundedSender<T>,
}

impl<T> Clone for TaskRef<T> {
    /// Another reference on the same queue; the message type need not be `Clone`.
    fn clone(&self) -> (r: Self)
        ensures
            r.channel() == self.channel(),
    {
        TaskRef { sender: self.sender.clone() }
    }
}

impl<T> TaskRef<T> {
    /// The sender on the task's inbound queue that this reference sends through.
    pub closed spec fn channel(&self) -> UnboundedSender<T> {
        self.sender
    }

    /// A reference that sends through `sender`.
    pub fn new(sender: UnboundedSender<T>) -> (r: Self)
        ensures
            r.channel() == sender,
    {
        TaskRef { sender }
    }

    /// Enqueues `msg` without waiting; if the task's receiving side is gone,
    /// the message comes back inside `Disconnected`.
    pub fn send(&self, msg: T) -> (r: SendResult<T>)
        ensures
            delivered_or_returned(r, msg),
    {
        send_on(&self.sender, msg)
    }

    /// Fire-and-forget: the same as `send`.
    pub fn cast(&self, msg: T) -> (r: SendResult<T>)
        ensures
            delivered_or_returned(r, msg),
    {
        self.send(msg)
    }
}

/// The owning handle on a spawned task, returned at spawn: it can send, and
/// exactly one of `join`, `kill` or `release` (the start of a graceful
/// shutdown) consumes it.
#[verifier::reject_recursive_types(T)]
pub struct TaskHandle<T> {
    sender: UnboundedSender<T>,
    handle: JoinHandle<TerminateReason>,
}

impl<T> TaskHandle<T> {
    /// The runtime handle that this handle owns.
    pub closed spec fn join_handle(&self) -> JoinHandle<TerminateReason> {
        self.handle
    }

    /// The sender on the task's inbound queue that this handle owns.
    pub closed spec fn channel(&self) -> UnboundedSender<T> {
        self.sender
    }

    /// A handle that sends through `sender` and controls the task behind `handle`.
    pub fn new(sender: UnboundedSender<T>, handle: JoinHandle<TerminateReason>) -> (r: Self)
        ensures
            r.channel() == sender,
            r.join_handle() == handle,
    {
        TaskHandle { sender, handle }
    }

    /// Enqueues `msg` without waiting; if the task's receiving side is gone,
    /// the message comes back inside `Disconnected`.
    pub fn send(&self, msg: T) -> (r: SendResult<T>)
        ensures
            delivered_or_returned(r, msg),
    {
        send_on(&self.sender, msg)
    }

    /// Fire-and-forget: the same as `send`.
    pub fn cast(&self, msg: T) -> (r: SendResult<T>)
        ensures
            delivered_or_returned(r, msg),
    {
        self.send(msg)
    }

    /// A send-only reference on the same inbound queue.
    pub fn this(&self) -> (r: TaskRef<T>)
        ensures
            r.channel() == self.channel(),
    {
        TaskRef::new(self.sender.clone())
    }

    /// Passive wait: gives up the handle and returns what to await for the
    /// task's termination reason; it asks nothing of the task. The handle's own
    /// sender goes with the handle here, so from then on the channel stays open
    /// only through its other senders: the reference that a spawned task keeps
    /// to itself, and any `TaskRef` clones. Unlike `release`, it is not meant
    /// as a stop signal, and it comes with no deadline.
    pub fn join(self) -> (r: JoinHandle<TerminateReason>)
        ensures
            r == self.join_handle(),
    {
        self.handle
    }

    /// Aborts the task at once: its termination hook does not run and
    /// messages still queued are dropped.
    pub fn kill(self) {
        abort_task(&self.handle);
    }

    /// First step of a graceful shutdown: drops this handle's sender, which
    /// closes the channel unless `TaskRef` clones still hold it, and returns
    /// what to await, under a deadline, for the task's termination reason.
    /// `shutdown_outcome` settles that wait.
    pub fn release(self) -> (r: JoinHandle<TerminateReason>)
        ensures
            r == self.join_handle(),
    {
        let TaskHandle { sender: _, handle } = self;
        handle
    }
}

} // verus!
