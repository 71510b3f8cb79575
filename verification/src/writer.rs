//! The consumer-facing half of a writer bridge: the consumer's non-blocking
//! `try_write` buffers bytes, a worker thread drains them into the blocking
//! sink, and the engine decides when a completion packet must be posted.

use vstd::prelude::*;

use crate::channel::{write_count, write_step, BoundedChannel, ChannelError};
use crate::event::{write_notification, CompletionPacket, EventDesc};
use crate::worker::{SinkEvent, WorkerStatus, WorkerStep};

verus! {

/// Poll a blocking writer through a worker on another thread.
///
/// The consumer buffers bytes with [`UnblockedWriter::try_write`]; the worker
/// asks [`UnblockedWriter::drain_request`] what to do, copies the pending
/// bytes, performs the blocking write, and reports the outcome to
/// [`UnblockedWriter::advance`].
pub struct UnblockedWriter {
    /// The bounded channel between the consumer and the worker.
    channel: BoundedChannel,
    /// The event to send about completion, if the consumer registered one.
    interest: Option<EventDesc>,
    /// Whether the worker still runs.
    status: WorkerStatus,
}

/// The directive a writer engine hands its worker: stop once the worker has
/// no work left forever, park while nothing is buffered, and otherwise write
/// the buffered bytes.
pub open spec fn drain_directive(w: UnblockedWriter) -> WorkerStep {
    if !w.running() {
        WorkerStep::Stop
    } else if w.contents().len() == 0 {
        WorkerStep::Park
    } else {
        WorkerStep::Transfer((w.contents().len() as usize))
    }
}

/// How one reported outcome of a blocking write advances a writer bridge: a
/// write of some bytes discards exactly those from the front of the buffer
/// and notifies a registered write interest with exactly one packet; a write
/// of zero bytes means the sink is closed and stops the worker for good; an
/// interruption changes nothing; any other failure stops the worker for
/// good.  The capacity and the registered interest never change.
pub open spec fn writer_advance_rel(
    pre: UnblockedWriter,
    event: SinkEvent,
    post: UnblockedWriter,
    packet: Option<CompletionPacket>,
) -> bool {
    &&& post.cap() == pre.cap()
    &&& post.interest() == pre.interest()
    &&& match event {
        SinkEvent::Wrote(n) => if n == 0 {
            &&& !post.running()
            &&& post.contents() == pre.contents()
            &&& packet is None
        } else {
            &&& post.running()
            &&& post.contents() == pre.contents().skip(n as int)
            &&& packet == write_notification(pre.interest())
        },
        SinkEvent::Interrupted => {
            &&& post.running()
            &&& post.contents() == pre.contents()
            &&& packet is None
        },
        SinkEvent::Failed => {
            &&& !post.running()
            &&& post.contents() == pre.contents()
            &&& packet is None
        },
    }
}

impl UnblockedWriter {
    /// The fixed capacity of the bounded channel inside.
    pub closed spec fn cap(&self) -> nat {
        self.channel.cap()
    }

    /// The bytes buffered between the consumer and the worker, oldest first.
    pub closed spec fn contents(&self) -> Seq<u8> {
        self.channel.contents()
    }

    /// The currently registered interest.
    pub closed spec fn interest(&self) -> Option<EventDesc> {
        self.interest
    }

    /// Whether the worker still runs.
    pub closed spec fn running(&self) -> bool {
        self.status is Running
    }

    /// Set up a new writer bridge with a bounded channel of the given
    /// capacity, no registered interest, and its worker about to run.  A
    /// capacity of zero is invalid.
    pub fn new(capacity: usize) -> (r: Result<UnblockedWriter, ChannelError>)
        ensures
            capacity == 0 <==> r is Err,
            capacity == 0 ==> r == Err::<UnblockedWriter, ChannelError>(ChannelError::ZeroCapacity),
            r matches Ok(w) ==> {
                &&& w.cap() == capacity
                &&& w.contents() == Seq::<u8>::empty()
                &&& w.interest() is None
                &&& w.running()
            },
    {
        match BoundedChannel::new(capacity) {
            Ok(channel) => Ok(
                UnblockedWriter { channel, interest: None, status: WorkerStatus::Running },
            ),
            Err(e) => Err(e),
        }
    }

    /// Register interest in the writer, replacing any previous registration.
    pub fn register(&mut self, event: EventDesc)
        ensures
            final(self).interest() == Some(event),
            final(self).contents() == old(self).contents(),
            final(self).cap() == old(self).cap(),
            final(self).running() == old(self).running(),
    {
        self.interest = Some(event);
    }

    /// Deregister interest in the writer.
    pub fn deregister(&mut self)
        ensures
            final(self).interest() is None,
            final(self).contents() == old(self).contents(),
            final(self).cap() == old(self).cap(),
            final(self).running() == old(self).running(),
    {
        self.interest = None;
    }

    /// Try to write to the writer: buffer as many of the given bytes as fit.
    /// A count below `data.len()` is the backpressure signal — the consumer
    /// retries later, it never blocks.
    pub fn try_write(&mut self, data: &[u8]) -> (n: usize)
        ensures
            n == write_count(old(self).contents(), data@, old(self).cap()),
            final(self).contents() == write_step(old(self).contents(), data@, old(self).cap()),
            final(self).cap() == old(self).cap(),
            final(self).interest() == old(self).interest(),
            final(self).running() == old(self).running(),
    {
        self.channel.try_write(data)
    }

    /// Worker side: what to do next.
    pub fn drain_request(&self) -> (step: WorkerStep)
        ensures
            step == drain_directive(*self),
    {
        match self.status {
            WorkerStatus::Done => WorkerStep::Stop,
            WorkerStatus::Running => {
                let buffered = self.channel.len();
                if buffered == 0 {
                    WorkerStep::Park
                } else {
                    WorkerStep::Transfer(buffered)
                }
            },
        }
    }

    /// Worker side: the bytes waiting for the blocking sink, oldest first,
    /// left in place until the sink has accepted some of them.
    pub fn pending(&self) -> (r: Vec<u8>)
        ensures
            r@ == self.contents(),
    {
        self.channel.peek_all()
    }

    /// Worker side: report the outcome of one blocking write.  The returned
    /// packet, if any, must be posted to the multiplexer.
    pub fn advance(&mut self, event: SinkEvent) -> (packet: Option<CompletionPacket>)
        requires
            old(self).running(),
            event matches SinkEvent::Wrote(n) ==> n <= old(self).contents().len(),
        ensures
            writer_advance_rel(*old(self), event, *final(self), packet),
    {
        match event {
            SinkEvent::Wrote(n) => {
                if n == 0 {
                    // Either the channel is closed or the sink accepts
                    // nothing more.  In any case, the worker is done.
                    self.status = WorkerStatus::Done;
                    None
                } else {
                    self.channel.consume(n);
                    self.notification()
                }
            },
            SinkEvent::Interrupted => {
                // The blocking write was interrupted; the worker retries.
                None
            },
            SinkEvent::Failed => {
                // Terminal error of the sink; the worker is done.
                self.status = WorkerStatus::Done;
                None
            },
        }
    }

    /// The packet to post after bytes left the buffer: one for the
    /// registered interest, if it asks for write readiness.
    fn notification(&self) -> (p: Option<CompletionPacket>)
        ensures
            p == write_notification(self.interest()),
    {
        match &self.interest {
            Some(e) => if e.writable {
                Some(CompletionPacket::new(*e))
            } else {
                None
            },
            None => None,
        }
    }

    /// The fixed capacity of the bounded channel inside.
    pub fn capacity(&self) -> (n: usize)
        ensures
            n == self.cap(),
    {
        self.channel.capacity()
    }

    /// How many bytes are buffered right now.
    pub fn buffered(&self) -> (n: usize)
        ensures
            n == self.contents().len(),
    {
        self.channel.len()
    }

    /// Whether the worker still runs.
    pub fn is_running(&self) -> (b: bool)
        ensures
            b == self.running(),
    {
        match self.status {
            WorkerStatus::Running => true,
            WorkerStatus::Done => false,
        }
    }
}

} // verus!
