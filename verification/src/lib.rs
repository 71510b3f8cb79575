//! A bridge between blocking byte streams and a readiness-based event loop.
//!
//! A terminal's event loop is single-threaded and never blocks except in one
//! multiplexer wait call, while the byte channels of a child process only
//! offer blocking reads and writes.  This crate holds the verified core of
//! the bridge between the two: a fixed-capacity byte channel that decouples
//! a blocking worker from the non-blocking consumer calls, the worker's
//! decision engine (what each outcome of a blocking call means, when to post
//! a completion packet, when to park or stop), the registration of consumer
//! interest, and the child-exit watcher's one-shot state machine.
//!
//! Everything that must touch the operating system — the worker threads, the
//! blocking calls themselves, the multiplexer, the one-shot process wait —
//! lives in a thin unverified layer around this crate and drives these types.

pub mod channel;
pub mod event;
pub mod laws;
pub mod reader;
pub mod replaceable;
pub mod watcher;
pub mod worker;
pub mod writer;
