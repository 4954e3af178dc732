//! The session writer: a capability bound to exactly one registry slot, used
//! by a backend-call task to push data into that slot's channel.

use vstd::prelude::*;
use vstd::string::StringSliceAdditionalSpecFns;

use crate::channel::SendStatus;
use crate::event::WireEvent;
use crate::registry::Registry;

verus! {

/// Why a write did not land.
#[derive(Clone, Copy, Debug, PartialEq, Eq, Structural)]
pub enum WriteError {
    /// The bound slot is no longer in the directory.
    NoSuchSlot,
    /// The slot's buffer was full; nothing was sent.
    ChannelFull,
    /// The slot's consumer is gone; nothing was sent.
    ChannelClosed,
}

/// A capability to push into exactly one registry slot. It holds only the
/// slot's identity, never the slot itself: the reaper may invalidate the slot
/// concurrently, so every operation re-resolves it. Release it with `close`,
/// on every exit path, so that the consumer sees an explicit end-of-session
/// marker instead of a silent disconnect.
pub struct SessionWriter {
    slot: u64,
}

impl SessionWriter {
    /// The identity of the bound slot.
    pub closed spec fn slot_id(self) -> u64 {
        self.slot
    }

    /// Binds a writer to a registered slot identity.
    pub fn new(slot: u64) -> (r: SessionWriter)
        ensures
            r.slot_id() == slot,
    {
        SessionWriter { slot }
    }

    /// The bound slot's identity.
    pub fn slot(&self) -> (r: u64)
        ensures
            r == self.slot_id(),
    {
        self.slot
    }

    /// Pushes one data payload through the bound slot, re-resolving the slot
    /// on this call. Returns the payload's byte length on success; a vanished
    /// slot or a refusing channel comes back as the matching error.
    pub fn write(&self, registry: &Registry, payload: &str) -> (r: Result<usize, WriteError>)
        ensures
            r == Err::<usize, WriteError>(WriteError::NoSuchSlot) <==> !registry.ids().contains(
                self.slot_id(),
            ),
            r is Ok ==> r->Ok_0 == payload.spec_bytes().len() as usize,
    {
        match registry.send_to(self.slot, payload) {
            None => Err(WriteError::NoSuchSlot),
            Some(SendStatus::Sent) => Ok(payload.len()),
            Some(SendStatus::Full) => Err(WriteError::ChannelFull),
            Some(SendStatus::Closed) => Err(WriteError::ChannelClosed),
        }
    }

    /// Releases the writer: one terminal marker on its slot, best effort. A
    /// report comes back for the log; failure is never escalated.
    pub fn close(self, registry: &Registry) -> (r: Option<SendStatus>)
        ensures
            r is Some <==> registry.ids().contains(self.slot_id()),
    {
        registry.send_event_to(self.slot, WireEvent::Done)
    }
}

} // verus!
