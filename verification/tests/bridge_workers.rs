//! The reader and writer bridges: worker directives, notifications, end of
//! stream, and the consumer's non-blocking calls.

use unblocked::event::{CompletionPacket, EventDesc};
use unblocked::reader::UnblockedReader;
use unblocked::worker::{SinkEvent, SourceEvent, WorkerStep};
use unblocked::writer::UnblockedWriter;

#[test]
fn reader_zero_capacity_is_rejected() {
    assert!(UnblockedReader::new(0).is_err());
}

#[test]
fn read_becomes_available_once_worker_ran() {
    // A source yields exactly 100 bytes and then blocks.
    let mut r = UnblockedReader::new(4096).unwrap();
    // Right after construction the worker has not run: nothing to read.
    assert_eq!(r.try_read(4096), Vec::<u8>::new());
    // The worker asks what to do: read up to the whole free space.
    assert_eq!(r.fill_request(), WorkerStep::Transfer(4096));
    // The blocking read returned 100 bytes.
    let batch: Vec<u8> = (0..100u8).collect();
    let packet = r.advance(SourceEvent::Read(batch.clone()));
    assert_eq!(packet, None);
    // Now the consumer sees exactly those bytes, once.
    assert_eq!(r.try_read(4096), batch);
    assert_eq!(r.try_read(4096), Vec::<u8>::new());
    assert!(r.is_running());
}

#[test]
fn registered_read_interest_gets_one_packet() {
    let mut r = UnblockedReader::new(64).unwrap();
    r.register(EventDesc::readable(7));
    let packet = r.advance(SourceEvent::Read(vec![1, 2, 3]));
    assert_eq!(
        packet,
        Some(CompletionPacket::new(EventDesc::readable(7)))
    );
    assert_eq!(r.try_read(64), vec![1, 2, 3]);
}

#[test]
fn write_only_interest_on_reader_gets_no_packet() {
    let mut r = UnblockedReader::new(64).unwrap();
    r.register(EventDesc::writable(7));
    assert_eq!(r.advance(SourceEvent::Read(vec![1])), None);
}

#[test]
fn deregistered_reader_gets_no_packet() {
    let mut r = UnblockedReader::new(64).unwrap();
    r.register(EventDesc::readable(3));
    r.deregister();
    assert_eq!(r.advance(SourceEvent::Read(vec![1])), None);
}

#[test]
fn empty_read_is_permanent_end_of_stream() {
    let mut r = UnblockedReader::new(64).unwrap();
    assert_eq!(r.advance(SourceEvent::Read(vec![8, 9])), None);
    // The source reports end of stream; the worker stops for good.
    assert_eq!(r.advance(SourceEvent::Read(Vec::new())), None);
    assert!(!r.is_running());
    assert_eq!(r.fill_request(), WorkerStep::Stop);
    // What was buffered drains once; after that, zero forever.
    assert_eq!(r.try_read(64), vec![8, 9]);
    assert_eq!(r.try_read(64), Vec::<u8>::new());
    assert_eq!(r.try_read(64), Vec::<u8>::new());
}

#[test]
fn interrupted_read_changes_nothing() {
    let mut r = UnblockedReader::new(64).unwrap();
    r.advance(SourceEvent::Read(vec![5]));
    assert_eq!(r.advance(SourceEvent::Interrupted), None);
    assert!(r.is_running());
    assert_eq!(r.buffered(), 1);
}

#[test]
fn failed_read_stops_the_worker() {
    let mut r = UnblockedReader::new(64).unwrap();
    assert_eq!(r.advance(SourceEvent::Failed), None);
    assert!(!r.is_running());
    assert_eq!(r.fill_request(), WorkerStep::Stop);
}

#[test]
fn full_reader_channel_parks_the_worker() {
    let mut r = UnblockedReader::new(2).unwrap();
    r.advance(SourceEvent::Read(vec![1, 2]));
    assert_eq!(r.fill_request(), WorkerStep::Park);
    // The consumer drains; the worker would be woken and finds room again.
    assert_eq!(r.try_read(1), vec![1]);
    assert_eq!(r.fill_request(), WorkerStep::Transfer(1));
}

#[test]
fn writer_zero_capacity_is_rejected() {
    assert!(UnblockedWriter::new(0).is_err());
}

#[test]
fn writer_buffers_and_worker_drains() {
    let mut w = UnblockedWriter::new(8).unwrap();
    // Nothing buffered: the worker parks.
    assert_eq!(w.drain_request(), WorkerStep::Park);
    assert_eq!(w.try_write(&[1, 2, 3, 4]), 4);
    assert_eq!(w.drain_request(), WorkerStep::Transfer(4));
    assert_eq!(w.pending(), vec![1, 2, 3, 4]);
    // The blocking sink accepted three bytes.
    assert_eq!(w.advance(SinkEvent::Wrote(3)), None);
    assert_eq!(w.pending(), vec![4]);
    assert_eq!(w.drain_request(), WorkerStep::Transfer(1));
}

#[test]
fn writer_backpressure_reports_partial_count() {
    let mut w = UnblockedWriter::new(2).unwrap();
    assert_eq!(w.try_write(&[1, 2, 3]), 2);
    assert_eq!(w.try_write(&[4]), 0);
    assert_eq!(w.buffered(), 2);
}

#[test]
fn registered_write_interest_gets_one_packet() {
    let mut w = UnblockedWriter::new(8).unwrap();
    w.register(EventDesc::writable(9));
    w.try_write(&[1, 2]);
    let packet = w.advance(SinkEvent::Wrote(2));
    assert_eq!(
        packet,
        Some(CompletionPacket::new(EventDesc::writable(9)))
    );
}

#[test]
fn read_only_interest_on_writer_gets_no_packet() {
    let mut w = UnblockedWriter::new(8).unwrap();
    w.register(EventDesc::readable(9));
    w.try_write(&[1, 2]);
    assert_eq!(w.advance(SinkEvent::Wrote(2)), None);
}

#[test]
fn closed_sink_stops_the_writer_worker() {
    let mut w = UnblockedWriter::new(8).unwrap();
    w.try_write(&[1]);
    assert_eq!(w.advance(SinkEvent::Wrote(0)), None);
    assert!(!w.is_running());
    assert_eq!(w.drain_request(), WorkerStep::Stop);
}

#[test]
fn failed_sink_stops_the_writer_worker() {
    let mut w = UnblockedWriter::new(8).unwrap();
    w.try_write(&[1]);
    assert_eq!(w.advance(SinkEvent::Interrupted), None);
    assert!(w.is_running());
    assert_eq!(w.advance(SinkEvent::Failed), None);
    assert!(!w.is_running());
}
