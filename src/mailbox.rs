//! The receive slot at the heart of a mailbox, and its take–await–restore
//! discipline.
//!
//! A mailbox keeps its single receive endpoint in a slot behind a lock. A
//! receive takes the endpoint out while holding the lock, releases the lock,
//! awaits the next message on the endpoint alone, then locks again and puts the
//! endpoint back. The lock is thus never held while waiting, and a receive that
//! finds the slot empty (never bound, or taken by a concurrent receive) fails at
//! once with `Poisoned` instead of blocking.

use crate::errors::{RecvError, RecvResult};
use std::sync::Arc;
use tokio::sync::mpsc::UnboundedReceiver;
use vstd::prelude::*;
use vstd::rwlock::RwLock;

verus! {

/// The slot that holds a mailbox's receive endpoint of type `R` while no
/// receive is in progress.
pub struct ReceiveSlot<R> {
    endpoint: Option<R>,
}

/// What taking from a slot holding `s` leaves behind and yields.
pub open spec fn take_spec<R>(s: Option<R>) -> (Option<R>, Result<R, RecvError>) {
    match s {
        Some(ep) => (None, Ok(ep)),
        None => (None, Err(RecvError::Poisoned)),
    }
}

/// What a receive yields once its wait on the endpoint brought `received`:
/// `None` when every sender is gone and the queue is drained.
pub open spec fn receive_result<T>(received: Option<T>) -> Result<T, RecvError> {
    match received {
        Some(v) => Ok(v),
        None => Err(RecvError::Closed),
    }
}

/// What putting endpoint `ep` back after a wait that brought `received`
/// leaves in the slot and reports.
pub open spec fn restore_spec<R, T>(ep: R, received: Option<T>) -> (Option<R>, Result<T, RecvError>) {
    (Some(ep), receive_result(received))
}

impl<R> View for ReceiveSlot<R> {
    type V = Option<R>;

    closed spec fn view(&self) -> Option<R> {
        self.endpoint
    }
}

impl<R> ReceiveSlot<R> {
    /// An empty slot: the mailbox is not bound yet.
    pub fn new() -> (r: Self)
        ensures
            r@ is None,
    {
        ReceiveSlot { endpoint: None }
    }

    /// Places the task's receive endpoint in the slot.
    pub fn bind(&mut self, endpoint: R)
        ensures
            final(self)@ == Some(endpoint),
    {
        self.endpoint = Some(endpoint);
    }

    /// Whether an endpoint is in the slot.
    pub fn is_bound(&self) -> (r: bool)
        ensures
            r == (self@ is Some),
    {
        self.endpoint.is_some()
    }

    /// First half of a receive: takes the endpoint out, leaving the slot empty
    /// for as long as the receive waits; `Poisoned` if there is none.
    pub fn take(&mut self) -> (r: Result<R, RecvError>)
        ensures
            (final(self)@, r) == take_spec(old(self)@),
    {
        match self.endpoint.take() {
            Some(ep) => Ok(ep),
            None => Err(RecvError::Poisoned),
        }
    }

    /// Second half of a receive: puts the endpoint back, whether a message came
    /// or the channel turned out closed, and turns what the wait brought into
    /// the receive's result. With the endpoint back, a later receive on a
    /// closed channel reports `Closed` again rather than `Poisoned`.
    pub fn restore<T>(&mut self, endpoint: R, received: Option<T>) -> (r: Result<T, RecvError>)
        ensures
            (final(self)@, r) == restore_spec(endpoint, received),
    {
        self.endpoint = Some(endpoint);
        match received {
            Some(v) => Ok(v),
            None => Err(RecvError::Closed),
        }
    }
}

/// The lock around a mailbox's slot; any slot content is acceptable.
type SlotLock<T> = RwLock<ReceiveSlot<UnboundedReceiver<T>>, spec_fn(ReceiveSlot<UnboundedReceiver<T>>) -> bool>;

/// A task's mailbox: shared (cloning shares it), created empty, bound once at
/// task setup to the task's receive endpoint. The lock is held only while the
/// endpoint is taken out or put back, never while a receive waits.
#[verifier::reject_recursive_types(T)]
pub struct Mailbox<T> {
    slot: Arc<SlotLock<T>>,
}

impl<T> Mailbox<T> {
    /// The lock accepts whatever slot a receive or a bind leaves behind.
    #[verifier::type_invariant]
    closed spec fn wf(self) -> bool {
        forall|s: ReceiveSlot<UnboundedReceiver<T>>| #[trigger] self.slot.inv(s)
    }
}

impl<T> Clone for Mailbox<T> {
    /// Another owner of the same mailbox.
    fn clone(&self) -> Self {
        proof {
            use_type_invariant(self);
        }
        Mailbox { slot: self.slot.clone() }
    }
}

impl<T> Default for Mailbox<T> {
    /// A new mailbox with no endpoint bound.
    fn default() -> Self {
        Self::new()
    }
}

impl<T> Mailbox<T> {
    /// A new mailbox with no endpoint bound.
    pub fn new() -> Self {
        let any_slot = Ghost(|s: ReceiveSlot<UnboundedReceiver<T>>| true);
        Mailbox { slot: Arc::new(RwLock::new(ReceiveSlot::new(), any_slot)) }
    }

    /// Binds the task's receive endpoint.
    pub fn set_receiver(&self, receiver: UnboundedReceiver<T>) {
        proof {
            use_type_invariant(self);
        }
        let (mut slot, guard) = self.slot.acquire_write();
        slot.bind(receiver);
        guard.release_write(slot);
    }

    /// First half of a receive: takes the endpoint out under the lock and
    /// releases the lock. `Poisoned` when there is none: the mailbox was never
    /// bound, or a concurrent receive holds the endpoint. On success, the
    /// caller waits on the endpoint with no lock held, then calls
    /// `restore_endpoint`.
    pub fn take_endpoint(&self) -> (r: Result<UnboundedReceiver<T>, RecvError>)
        ensures
            r is Ok || r == Err::<UnboundedReceiver<T>, RecvError>(RecvError::Poisoned),
    {
        proof {
            use_type_invariant(self);
        }
        let (mut slot, guard) = self.slot.acquire_write();
        let r = slot.take();
        guard.release_write(slot);
        r
    }

    /// Second half of a receive: puts the endpoint back under the lock and
    /// turns what the wait brought into the receive's result: the message, or
    /// `Closed` when every sender is gone and the queue is drained.
    pub fn restore_endpoint(&self, endpoint: UnboundedReceiver<T>, received: Option<T>) -> (r:
        RecvResult<T>)
        ensures
            r == receive_result(received),
    {
        proof {
            use_type_invariant(self);
        }
        let (mut slot, guard) = self.slot.acquire_write();
        let r = slot.restore(endpoint, received);
        guard.release_write(slot);
        r
    }
}

/// A whole receive on a slot holding `s`, whose wait (if it gets to wait)
/// brings `received`: the slot it leaves and the result it reports.
pub open spec fn receive_spec<R, T>(s: Option<R>, received: Option<T>) -> (Option<R>, Result<T, RecvError>) {
    match take_spec(s) {
        (_, Ok(ep)) => restore_spec(ep, received),
        (left, Err(e)) => (left, Err(e)),
    }
}

/// A receive on a mailbox that was never bound reports `Poisoned`, whatever
/// the channel holds, and leaves the mailbox unbound: every later receive
/// reports `Poisoned` again.
pub proof fn lemma_poisoned_before_bind<R, T>(received: Option<T>)
    ensures
        receive_spec(None::<R>, received) == (None::<R>, Err::<T, RecvError>(RecvError::Poisoned)),
{
}

/// With the endpoint bound and every sender gone (the wait brings nothing), a
/// receive reports `Closed` and leaves the endpoint in place: the mailbox is as
/// it was, so every later receive on the drained channel reports `Closed` too.
pub proof fn lemma_closed_after_drop<R, T>(ep: R)
    ensures
        receive_spec(Some(ep), None::<T>) == (Some(ep), Err::<T, RecvError>(RecvError::Closed)),
{
}

/// Two receives that overlap cannot both hold the endpoint: while the first
/// waits, the second finds the slot empty and reports `Poisoned`; the first
/// one's restore then refills the slot.
pub proof fn lemma_concurrent_receive_is_poisoned<R, T>(ep: R, received: Option<T>)
    ensures
        take_spec(Some(ep)) == (None::<R>, Ok::<R, RecvError>(ep)),
        receive_spec(take_spec(Some(ep)).0, received) == (None::<R>, Err::<T, RecvError>(
            RecvError::Poisoned,
        )),
        restore_spec(ep, received).0 == Some(ep),
{
}

} // verus!
