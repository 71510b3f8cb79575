//! Watching a child process for exit: a one-shot wait registered with the
//! platform fires a callback at most once; the watcher folds that firing into
//! the same notification queue as the I/O events — one exit event on its own
//! channel, one completion packet bearing the reserved exit token.

use vstd::prelude::*;

use crate::event::{CompletionPacket, EventDesc};

verus! {

/// The multiplexer key reserved for child-exit completion packets.
pub const PTY_CHILD_EVENT_TOKEN: usize = 1;

/// What the watcher's channel delivers about the child.
#[derive(Clone, Copy, Debug, PartialEq, Eq, Structural)]
pub enum ChildEvent {
    /// The child process exited.
    Exited,
}

/// Error from setting up a watcher.
#[derive(Clone, Copy, Debug, PartialEq, Eq, Structural)]
pub enum WatchError {
    /// The platform rejected the one-shot wait registration.
    WaitRejected,
}

/// Where the watcher's one-shot wait registration stands.
#[derive(Clone, Copy, Debug, PartialEq, Eq, Structural)]
pub enum WatchState {
    /// The wait is registered and has not fired.
    Registered,
    /// The wait fired; the exit event has been queued.
    Fired,
    /// The registration has been released; terminal.
    Unregistered,
}

/// The completion packet a fired watcher posts: read readiness under the
/// given exit token.
pub open spec fn exit_packet(token: usize) -> CompletionPacket {
    CompletionPacket { event: EventDesc { key: token, readable: true, writable: false } }
}

/// How one run of the one-shot wait callback advances a watcher: a callback
/// reporting a timeout does nothing; a genuine firing while the wait is
/// registered queues exactly one exit event and posts exactly one packet
/// bearing the watcher's token; a firing in any other state changes nothing.
/// The token never changes.
pub open spec fn callback_rel(
    pre: ChildExitWatcher,
    timed_out: bool,
    post: ChildExitWatcher,
    packet: Option<CompletionPacket>,
) -> bool {
    &&& post.token() == pre.token()
    &&& if !timed_out && pre.state() is Registered {
        &&& post.state() is Fired
        &&& post.pending() == pre.pending().push(ChildEvent::Exited)
        &&& packet == Some(exit_packet(pre.token()))
    } else {
        &&& post.state() == pre.state()
        &&& post.pending() == pre.pending()
        &&& packet is None
    }
}

/// Watches one child process through a one-shot platform wait.
///
/// The thin layer around this crate registers the wait with the operating
/// system and reports the registration's outcome to [`ChildExitWatcher::new`];
/// when the platform runs the callback, it reports that to
/// [`ChildExitWatcher::on_wait_callback`] and posts the returned packet; the
/// consumer takes exit events with [`ChildExitWatcher::try_recv`]; teardown
/// goes through [`ChildExitWatcher::unregister`], exactly once.
pub struct ChildExitWatcher {
    /// Where the one-shot registration stands.
    state: WatchState,
    /// Exit events queued for the consumer.
    events: Vec<ChildEvent>,
    /// The multiplexer key under which exit packets are posted.
    token: usize,
}

impl ChildExitWatcher {
    /// Where the one-shot registration stands.
    pub closed spec fn state(&self) -> WatchState {
        self.state
    }

    /// Exit events queued for the consumer, oldest first.
    pub closed spec fn pending(&self) -> Seq<ChildEvent> {
        self.events@
    }

    /// The multiplexer key under which exit packets are posted.
    pub closed spec fn token(&self) -> usize {
        self.token
    }

    /// Create a watcher for one child, given the multiplexer key for its
    /// exit packets and whether the platform accepted the one-shot wait
    /// registration keyed to the child's handle.  A rejected registration is
    /// surfaced synchronously: no watcher, no channel.
    pub fn new(token: usize, wait_registered: bool) -> (r: Result<ChildExitWatcher, WatchError>)
        ensures
            wait_registered <==> r is Ok,
            !wait_registered ==> r == Err::<ChildExitWatcher, WatchError>(WatchError::WaitRejected),
            r matches Ok(w) ==> {
                &&& w.state() is Registered
                &&& w.pending() == Seq::<ChildEvent>::empty()
                &&& w.token() == token
            },
    {
        if wait_registered {
            let w = ChildExitWatcher { state: WatchState::Registered, events: Vec::new(), token };
            Ok(w)
        } else {
            Err(WatchError::WaitRejected)
        }
    }

    /// Report one run of the platform's wait callback.  The returned packet,
    /// if any, must be posted to the multiplexer.  The platform guarantees at
    /// most one genuine run per registration; this state machine tolerates
    /// more and still queues at most one exit event.
    pub fn on_wait_callback(&mut self, timed_out: bool) -> (packet: Option<CompletionPacket>)
        ensures
            callback_rel(*old(self), timed_out, *final(self), packet),
    {
        if timed_out {
            return None;
        }
        match self.state {
            WatchState::Registered => {
                self.state = WatchState::Fired;
                self.events.push(ChildEvent::Exited);
                Some(CompletionPacket::new(EventDesc::readable(self.token)))
            },
            WatchState::Fired => None,
            WatchState::Unregistered => None,
        }
    }

    /// Take the oldest queued exit event, if any.  `None` means no event has
    /// arrived yet — or, once one `Exited` has been taken, ever again.
    pub fn try_recv(&mut self) -> (r: Option<ChildEvent>)
        ensures
            old(self).pending().len() == 0 ==> r is None
                && final(self).pending() == old(self).pending(),
            old(self).pending().len() > 0 ==> r == Some(old(self).pending()[0])
                && final(self).pending() == old(self).pending().skip(1),
            final(self).state() == old(self).state(),
            final(self).token() == old(self).token(),
    {
        if self.events.len() == 0 {
            None
        } else {
            let e = self.events.remove(0);
            proof {
                assert(self.pending() =~= old(self).pending().skip(1));
            }
            Some(e)
        }
    }

    /// Release the one-shot wait registration; terminal.  Events already
    /// queued stay available.  Called exactly once, on teardown.
    pub fn unregister(&mut self)
        requires
            !(old(self).state() is Unregistered),
        ensures
            final(self).state() is Unregistered,
            final(self).pending() == old(self).pending(),
            final(self).token() == old(self).token(),
    {
        self.state = WatchState::Unregistered;
    }

    /// Whether the wait registration has been released.
    pub fn is_unregistered(&self) -> (b: bool)
        ensures
            b == (self.state() is Unregistered),
    {
        match self.state {
            WatchState::Unregistered => true,
            WatchState::Registered => false,
            WatchState::Fired => false,
        }
    }
}

} // verus!
