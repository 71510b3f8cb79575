//! Readiness events and the synthetic completion packets built from them.

use vstd::prelude::*;

verus! {

/// A readiness event, as the multiplexer understands it: an opaque key chosen
/// by the consumer, plus the directions the consumer cares about.
#[derive(Clone, Copy, Debug, PartialEq, Eq, Structural)]
pub struct EventDesc {
    /// Opaque token the consumer associates with one source.
    pub key: usize,
    /// Interest in read readiness.
    pub readable: bool,
    /// Interest in write readiness.
    pub writable: bool,
}

impl EventDesc {
    /// An event interested in read readiness only.
    pub fn readable(key: usize) -> (e: EventDesc)
        ensures
            e == (EventDesc { key, readable: true, writable: false }),
    {
        EventDesc { key, readable: true, writable: false }
    }

    /// An event interested in write readiness only.
    pub fn writable(key: usize) -> (e: EventDesc)
        ensures
            e == (EventDesc { key, readable: false, writable: true }),
    {
        EventDesc { key, readable: false, writable: true }
    }
}

/// A synthetic readiness notification, posted directly into the multiplexer's
/// event queue so that the consumer cannot tell it from a native one.
#[derive(Clone, Copy, Debug, PartialEq, Eq, Structural)]
pub struct CompletionPacket {
    /// The event the packet delivers.
    pub event: EventDesc,
}

impl CompletionPacket {
    /// Wrap an event for posting.
    pub fn new(event: EventDesc) -> (p: CompletionPacket)
        ensures
            p == (CompletionPacket { event }),
    {
        CompletionPacket { event }
    }
}

/// The packet a reader's worker posts after moving bytes in, given the
/// currently registered interest: one packet bearing the registered event
/// when that event asks for read readiness, and none otherwise.
pub open spec fn read_notification(interest: Option<EventDesc>) -> Option<CompletionPacket> {
    match interest {
        Some(e) => if e.readable {
            Some(CompletionPacket { event: e })
        } else {
            None
        },
        None => None,
    }
}

/// The packet a writer's worker posts after moving bytes out, given the
/// currently registered interest: one packet bearing the registered event
/// when that event asks for write readiness, and none otherwise.
pub open spec fn write_notification(interest: Option<EventDesc>) -> Option<CompletionPacket> {
    match interest {
        Some(e) => if e.writable {
            Some(CompletionPacket { event: e })
        } else {
            None
        },
        None => None,
    }
}

} // verus!
