//! What a worker thread and its engine say to each other.
//!
//! The worker owns the blocking end of a bridge.  Before each blocking call
//! it asks its engine for a directive; after the call it reports the outcome
//! and the engine updates the channel, decides whether a completion packet
//! must be posted, and decides whether the worker goes on, parks, or stops.

use vstd::prelude::*;

verus! {

/// Whether a bridge's worker loop is still running or has stopped for good
/// (end of stream, or a terminal error of the blocking call).
#[derive(Clone, Copy, Debug, PartialEq, Eq, Structural)]
pub enum WorkerStatus {
    /// The worker keeps driving the blocking end.
    Running,
    /// The worker has stopped; nothing will move through its end again.
    Done,
}

/// The engine's directive to the worker for its next turn.
#[derive(Clone, Copy, Debug, PartialEq, Eq, Structural)]
pub enum WorkerStep {
    /// Perform the blocking call, moving at most this many bytes.
    Transfer(usize),
    /// No room (or no data) on the channel side: park until woken.
    Park,
    /// The worker has nothing left to do; let the thread end.
    Stop,
}

/// Outcome of one blocking read from the source, as the worker reports it.
/// A read of zero bytes means the source reached its permanent end of
/// stream, so it is reported as `Read` of an empty batch.
#[derive(Debug)]
pub enum SourceEvent {
    /// The blocking read returned these bytes; empty means end of stream.
    Read(Vec<u8>),
    /// The blocking read was interrupted; it is simply retried.
    Interrupted,
    /// The blocking read failed for good.
    Failed,
}

/// Outcome of one blocking write to the sink, as the worker reports it.
#[derive(Clone, Copy, Debug, PartialEq, Eq, Structural)]
pub enum SinkEvent {
    /// The blocking write accepted this many bytes; zero means the sink is
    /// closed.
    Wrote(usize),
    /// The blocking write was interrupted; it is simply retried.
    Interrupted,
    /// The blocking write failed for good.
    Failed,
}

} // verus!
