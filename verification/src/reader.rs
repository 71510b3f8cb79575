//! The consumer-facing half of a reader bridge: a worker thread performs the
//! blocking reads from the source, this engine buffers the bytes, decides
//! when a completion packet must be posted, and serves the consumer's
//! non-blocking `try_read`.

use vstd::prelude::*;

use crate::channel::{read_front, read_rest, BoundedChannel, ChannelError};
use crate::event::{read_notification, CompletionPacket, EventDesc};
use crate::worker::{SourceEvent, WorkerStatus, WorkerStep};

verus! {

/// Poll a blocking reader through a worker on another thread.
///
/// The worker repeatedly asks [`UnblockedReader::fill_request`] what to do,
/// performs the blocking read it is directed to, and reports the outcome to
/// [`UnblockedReader::advance`]; the consumer drains buffered bytes with
/// [`UnblockedReader::try_read`] and registers its interest with
/// [`UnblockedReader::register`].
pub struct UnblockedReader {
    /// The bounded channel between the worker and the consumer.
    channel: BoundedChannel,
    /// The event to send about completion, if the consumer registered one.
    interest: Option<EventDesc>,
    /// Whether the worker still runs.
    status: WorkerStatus,
}

/// The directive a reader engine hands its worker: stop once the worker has
/// no work left forever, park while the channel is full, and otherwise read
/// at most as many bytes as the channel has room for.
pub open spec fn fill_directive(r: UnblockedReader) -> WorkerStep {
    if !r.running() {
        WorkerStep::Stop
    } else if r.contents().len() == r.cap() {
        WorkerStep::Park
    } else {
        WorkerStep::Transfer(((r.cap() - r.contents().len()) as usize))
    }
}

/// How one reported outcome of a blocking read advances a reader bridge:
/// a non-empty batch is buffered whole and notifies a registered read
/// interest with exactly one packet; an empty batch is the permanent end of
/// the stream; an interruption changes nothing; any other failure stops the
/// worker for good.  The capacity and the registered interest never change.
pub open spec fn reader_advance_rel(
    pre: UnblockedReader,
    event: SourceEvent,
    post: UnblockedReader,
    packet: Option<CompletionPacket>,
) -> bool {
    &&& post.cap() == pre.cap()
    &&& post.interest() == pre.interest()
    &&& match event {
        SourceEvent::Read(d) => if d@.len() == 0 {
            &&& !post.running()
            &&& post.contents() == pre.contents()
            &&& packet is None
        } else {
            &&& post.running()
            &&& post.contents() == pre.contents() + d@
            &&& packet == read_notification(pre.interest())
        },
        SourceEvent::Interrupted => {
            &&& post.running()
            &&& post.contents() == pre.contents()
            &&& packet is None
        },
        SourceEvent::Failed => {
            &&& !post.running()
            &&& post.contents() == pre.contents()
            &&& packet is None
        },
    }
}

impl UnblockedReader {
    /// The fixed capacity of the bounded channel inside.
    pub closed spec fn cap(&self) -> nat {
        self.channel.cap()
    }

    /// The bytes buffered between the worker and the consumer, oldest first.
    pub closed spec fn contents(&self) -> Seq<u8> {
        self.channel.contents()
    }

    /// The currently registered interest.
    pub closed spec fn interest(&self) -> Option<EventDesc> {
        self.interest
    }

    /// Whether the worker still runs.
    pub closed spec fn running(&self) -> bool {
        self.status is Running
    }

    /// Set up a new reader bridge with a bounded channel of the given
    /// capacity, no registered interest, and its worker about to run.  A
    /// capacity of zero is invalid.
    pub fn new(capacity: usize) -> (r: Result<UnblockedReader, ChannelError>)
        ensures
            capacity == 0 <==> r is Err,
            capacity == 0 ==> r == Err::<UnblockedReader, ChannelError>(ChannelError::ZeroCapacity),
            r matches Ok(u) ==> {
                &&& u.cap() == capacity
                &&& u.contents() == Seq::<u8>::empty()
                &&& u.interest() is None
                &&& u.running()
            },
    {
        match BoundedChannel::new(capacity) {
            Ok(channel) => Ok(
                UnblockedReader { channel, interest: None, status: WorkerStatus::Running },
            ),
            Err(e) => Err(e),
        }
    }

    /// Register interest in the reader, replacing any previous registration.
    pub fn register(&mut self, event: EventDesc)
        ensures
            final(self).interest() == Some(event),
            final(self).contents() == old(self).contents(),
            final(self).cap() == old(self).cap(),
            final(self).running() == old(self).running(),
    {
        self.interest = Some(event);
    }

    /// Deregister interest in the reader.
    pub fn deregister(&mut self)
        ensures
            final(self).interest() is None,
            final(self).contents() == old(self).contents(),
            final(self).cap() == old(self).cap(),
            final(self).running() == old(self).running(),
    {
        self.interest = None;
    }

    /// Try to read from the reader: take up to `max` of the buffered bytes,
    /// oldest first.  An empty result means nothing is buffered right now —
    /// or, once the worker has stopped and the buffer is drained, ever again.
    pub fn try_read(&mut self, max: usize) -> (r: Vec<u8>)
        ensures
            r@ == read_front(old(self).contents(), max as nat),
            final(self).contents() == read_rest(old(self).contents(), max as nat),
            final(self).cap() == old(self).cap(),
            final(self).interest() == old(self).interest(),
            final(self).running() == old(self).running(),
    {
        self.channel.try_read(max)
    }

    /// Worker side: what to do next.
    pub fn fill_request(&self) -> (step: WorkerStep)
        ensures
            step == fill_directive(*self),
    {
        match self.status {
            WorkerStatus::Done => WorkerStep::Stop,
            WorkerStatus::Running => {
                let free = self.channel.free_space();
                if free == 0 {
                    WorkerStep::Park
                } else {
                    WorkerStep::Transfer(free)
                }
            },
        }
    }

    /// Worker side: report the outcome of one blocking read.  The returned
    /// packet, if any, must be posted to the multiplexer.
    pub fn advance(&mut self, event: SourceEvent) -> (packet: Option<CompletionPacket>)
        requires
            old(self).running(),
            event matches SourceEvent::Read(d) ==> old(self).contents().len() + d@.len()
                <= old(self).cap(),
        ensures
            reader_advance_rel(*old(self), event, *final(self), packet),
    {
        match event {
            SourceEvent::Read(d) => {
                if d.len() == 0 {
                    // Either the channel is closed or the source is at its
                    // end of stream.  In any case, the worker is done.
                    self.status = WorkerStatus::Done;
                    None
                } else {
                    let ghost pre = self.channel.contents();
                    self.channel.try_write(d.as_slice());
                    proof {
                        assert(d@.take(d@.len() as int) =~= d@);
                        assert(self.channel.contents() == pre + d@);
                    }
                    self.notification()
                }
            },
            SourceEvent::Interrupted => {
                // The blocking read was interrupted; the worker retries.
                None
            },
            SourceEvent::Failed => {
                // Terminal error of the source; the worker is done.
                self.status = WorkerStatus::Done;
                None
            },
        }
    }

    /// The packet to post after bytes arrived: one for the registered
    /// interest, if it asks for read readiness.
    fn notification(&self) -> (p: Option<CompletionPacket>)
        ensures
            p == read_notification(self.interest()),
    {
        match &self.interest {
            Some(e) => if e.readable {
                Some(CompletionPacket::new(*e))
            } else {
                None
            },
            None => None,
        }
    }

    /// The fixed capacity of the bounded channel inside.
    pub fn capacity(&self) -> (n: usize)
        ensures
            n == self.cap(),
    {
        self.channel.capacity()
    }

    /// How many bytes are buffered right now.
    pub fn buffered(&self) -> (n: usize)
        ensures
            n == self.contents().len(),
    {
        self.channel.len()
    }

    /// Whether the worker still runs.
    pub fn is_running(&self) -> (b: bool)
        ensures
            b == self.running(),
    {
        match self.status {
            WorkerStatus::Running => true,
            WorkerStatus::Done => false,
        }
    }
}

} // verus!
