//! The bounded event channels behind the registry, taken from tokio. The
//! channel ends are opaque here: what an attempt to send returns depends on
//! the consumer at run time, so the wrappers report outcomes and promise
//! nothing about which one comes back.

use tokio::sync::mpsc::{Receiver, Sender};
use vstd::prelude::*;

use crate::event::WireEvent;

verus! {

#[verifier::external_type_specification]
#[verifier::external_body]
#[verifier::reject_recursive_types(T)]
pub struct ExSender<T>(Sender<T>);

#[verifier::external_type_specification]
#[verifier::external_body]
#[verifier::reject_recursive_types(T)]
pub struct ExReceiver<T>(Receiver<T>);

/// What became of one non-blocking send attempt.
#[derive(Clone, Copy, Debug, PartialEq, Eq, Structural)]
pub enum SendStatus {
    /// The payload is in the channel's buffer.
    Sent,
    /// The buffer was full; nothing was sent.
    Full,
    /// The receiving end is gone; nothing was sent.
    Closed,
}

/// Relies on tokio::sync::mpsc::channel: returns the two ends of a fresh
/// bounded channel. It panics only on a zero capacity or one beyond the
/// runtime's semaphore bound, both far outside the admitted range.
#[verifier::external_body]
pub(crate) fn new_event_channel(cap: usize) -> (Sender<WireEvent>, Receiver<WireEvent>)
    requires
        1 <= cap <= 4096,
{
    tokio::sync::mpsc::channel(cap)
}

/// Relies on tokio's Sender::try_send: it delivers the message when the
/// channel is open with a free buffer slot, and otherwise reports Full or
/// Closed without blocking or panicking.
#[verifier::external_body]
pub(crate) fn event_try_send(s: &Sender<WireEvent>, e: WireEvent) -> SendStatus {
    match s.try_send(e) {
        Ok(()) => SendStatus::Sent,
        Err(tokio::sync::mpsc::error::TrySendError::Full(_)) => SendStatus::Full,
        Err(tokio::sync::mpsc::error::TrySendError::Closed(_)) => SendStatus::Closed,
    }
}

/// Relies on tokio's Sender::clone: the clone feeds the same channel as the
/// original.
#[verifier::external_body]
pub(crate) fn clone_sender(s: &Sender<WireEvent>) -> Sender<WireEvent> {
    s.clone()
}

} // verus!
