//! The closed sets of failure reasons for receiving, sending and calling.

use vstd::prelude::*;
use vstd::string::StringExecFns;

verus! {

/// Why a receive on a mailbox yielded no message.
#[derive(Debug, Clone, PartialEq, Eq)]
pub enum RecvError {
    /// Every sender is gone and the queue is drained: the expected signal to stop.
    Closed,
    /// The mailbox has no endpoint to receive from: it was never bound, or
    /// another receive holds it right now.
    Poisoned,
    /// Reserved for a receive bounded by a deadline.
    Timeout,
}

/// Result of a receive.
pub type RecvResult<T> = Result<T, RecvError>;

impl RecvError {
    /// The human-readable description of each reason.
    pub open spec fn text(self) -> Seq<char> {
        match self {
            RecvError::Closed => "channel closed"@,
            RecvError::Poisoned => "channel poisoned"@,
            RecvError::Timeout => "receive timeout"@,
        }
    }

    /// Describes the reason in words.
    pub fn message(&self) -> (r: String)
        ensures
            r@ == self.text(),
    {
        match self {
            RecvError::Closed => String::from_str("channel closed"),
            RecvError::Poisoned => String::from_str("channel poisoned"),
            RecvError::Timeout => String::from_str("receive timeout"),
        }
    }
}

/// Why a message could not be enqueued; the message comes back to the sender.
#[derive(Debug, Clone, PartialEq, Eq)]
pub enum SendError<T> {
    /// The receiving side is gone.
    Disconnected(T),
    /// The queue has no room left.
    Full(T),
}

/// Result of a send.
pub type SendResult<T> = Result<(), SendError<T>>;

impl<T> SendError<T> {
    /// The message that could not be delivered.
    pub open spec fn message_of(self) -> T {
        match self {
            SendError::Disconnected(m) => m,
            SendError::Full(m) => m,
        }
    }

    /// The human-readable description of each reason.
    pub open spec fn text(self) -> Seq<char> {
        match self {
            SendError::Disconnected(_) => "channel disconnected"@,
            SendError::Full(_) => "channel full"@,
        }
    }

    /// Hands back the undelivered message.
    pub fn into_inner(self) -> (r: T)
        ensures
            r == self.message_of(),
    {
        match self {
            SendError::Disconnected(msg) => msg,
            SendError::Full(msg) => msg,
        }
    }

    /// Describes the reason in words.
    pub fn message(&self) -> (r: String)
        ensures
            r@ == self.text(),
    {
        match self {
            SendError::Disconnected(_) => String::from_str("channel disconnected"),
            SendError::Full(_) => String::from_str("channel full"),
        }
    }
}

/// Why a request-response call produced no reply.
#[derive(Debug, Clone, PartialEq, Eq)]
pub enum CallError {
    /// The deadline passed before a reply arrived.
    Timeout,
    /// The responder dropped the reply channel without answering.
    ChannelClosed,
    /// The request could not be enqueued: the task is already gone.
    SendError,
}

/// Result of a call.
pub type CallResult<R> = Result<R, CallError>;

impl CallError {
    /// The human-readable description of each reason.
    pub open spec fn text(self) -> Seq<char> {
        match self {
            CallError::Timeout => "call timeout"@,
            CallError::ChannelClosed => "reply channel closed"@,
            CallError::SendError => "request could not be sent"@,
        }
    }

    /// Describes the reason in words.
    pub fn message(&self) -> (r: String)
        ensures
            r@ == self.text(),
    {
        match self {
            CallError::Timeout => String::from_str("call timeout"),
            CallError::ChannelClosed => String::from_str("reply channel closed"),
            CallError::SendError => String::from_str("request could not be sent"),
        }
    }
}

} // verus!
