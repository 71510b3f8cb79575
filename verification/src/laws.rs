//! The general guarantees of the bridge, stated once over the spec functions
//! that the operations' contracts use, and proved.

use vstd::prelude::*;

use crate::channel::{read_front, read_rest, write_count, write_step};
use crate::event::{CompletionPacket, EventDesc};
use crate::reader::{reader_advance_rel, UnblockedReader};
use crate::watcher::{callback_rel, exit_packet, ChildEvent, ChildExitWatcher};
use crate::worker::{SinkEvent, SourceEvent};
use crate::writer::{writer_advance_rel, UnblockedWriter};

verus! {

/// Total length of a sequence of byte batches.
pub open spec fn total_len(chunks: Seq<Seq<u8>>) -> nat
    decreases chunks.len(),
{
    if chunks.len() == 0 {
        0
    } else {
        total_len(chunks.drop_last()) + chunks.last().len()
    }
}

/// All the batches, joined in order.
pub open spec fn joined(chunks: Seq<Seq<u8>>) -> Seq<u8>
    decreases chunks.len(),
{
    if chunks.len() == 0 {
        Seq::empty()
    } else {
        joined(chunks.drop_last()) + chunks.last()
    }
}

/// The buffered bytes after writing the batches in order into a channel of
/// capacity `cap` that held `s`: each write buffers the prefix that fits,
/// as the contract of `try_write` says through `write_step`.
pub open spec fn write_all(s: Seq<u8>, chunks: Seq<Seq<u8>>, cap: nat) -> Seq<u8>
    decreases chunks.len(),
{
    if chunks.len() == 0 {
        s
    } else {
        write_step(write_all(s, chunks.drop_last(), cap), chunks.last(), cap)
    }
}

/// The joined batches are as long as the batches together.
proof fn lemma_joined_len(chunks: Seq<Seq<u8>>)
    ensures
        joined(chunks).len() == total_len(chunks),
    decreases chunks.len(),
{
    if chunks.len() > 0 {
        lemma_joined_len(chunks.drop_last());
    }
}

/// Writes that keep the total within the capacity lose nothing.
proof fn lemma_write_all_joins(s: Seq<u8>, chunks: Seq<Seq<u8>>, cap: nat)
    requires
        s.len() + total_len(chunks) <= cap,
    ensures
        write_all(s, chunks, cap) == s + joined(chunks),
    decreases chunks.len(),
{
    if chunks.len() == 0 {
        assert(write_all(s, chunks, cap) =~= s + joined(chunks));
    } else {
        lemma_write_all_joins(s, chunks.drop_last(), cap);
        lemma_joined_len(chunks.drop_last());
        let prev = write_all(s, chunks.drop_last(), cap);
        let last = chunks.last();
        assert(prev.len() + last.len() <= cap);
        assert(write_count(prev, last, cap) == last.len());
        assert(last.take(last.len() as int) =~= last);
        assert(write_all(s, chunks, cap) =~= s + joined(chunks));
    }
}

/// Law: a read that asks for at least everything buffered returns it all, in
/// order, and leaves the buffer empty.  A consumer that re-reads after every
/// wake until a read comes back empty therefore misses nothing.
pub proof fn lemma_full_read_drains(s: Seq<u8>, max: nat)
    requires
        s.len() <= max,
    ensures
        read_front(s, max) == s,
        read_rest(s, max) == Seq::<u8>::empty(),
{
    assert(read_front(s, max) =~= s);
    assert(read_rest(s, max) =~= Seq::<u8>::empty());
}

/// Law: for capacity `cap` and any write sequence totaling at most `cap`
/// bytes, every byte is buffered — each write's count is its batch's full
/// length — and one subsequent read of at least that total returns exactly
/// the written bytes, in order.
pub proof fn lemma_writes_within_capacity_read_back(chunks: Seq<Seq<u8>>, cap: nat, max: nat)
    requires
        total_len(chunks) <= cap,
        total_len(chunks) <= max,
    ensures
        write_all(Seq::empty(), chunks, cap) == joined(chunks),
        read_front(write_all(Seq::empty(), chunks, cap), max) == joined(chunks),
        read_rest(write_all(Seq::empty(), chunks, cap), max) == Seq::<u8>::empty(),
{
    lemma_joined_len(chunks);
    lemma_write_all_joins(Seq::empty(), chunks, cap);
    assert(Seq::empty() + joined(chunks) =~= joined(chunks));
    lemma_full_read_drains(joined(chunks), max);
}

/// Law: exactly one notification follows a transition from "no data ready"
/// to "data ready" for a registered read interest: the worker step that
/// buffers a non-empty batch posts exactly one packet, bearing the
/// registered event.
pub proof fn lemma_one_notification_per_transition(
    pre: UnblockedReader,
    d: Vec<u8>,
    post: UnblockedReader,
    packet: Option<CompletionPacket>,
    e: EventDesc,
)
    requires
        reader_advance_rel(pre, SourceEvent::Read(d), post, packet),
        d@.len() > 0,
        pre.contents().len() == 0,
        pre.interest() == Some(e),
        e.readable,
    ensures
        post.contents().len() > 0,
        packet == Some(CompletionPacket { event: e }),
{
}

/// Law: exactly one notification follows a transition from "no room" to
/// "room available" for a registered write interest: the worker step that
/// drains a full buffer into the sink posts exactly one packet, bearing the
/// registered event.
pub proof fn lemma_one_notification_per_drain(
    pre: UnblockedWriter,
    n: usize,
    post: UnblockedWriter,
    packet: Option<CompletionPacket>,
    e: EventDesc,
)
    requires
        writer_advance_rel(pre, SinkEvent::Wrote(n), post, packet),
        0 < n <= pre.contents().len(),
        pre.contents().len() == pre.cap(),
        pre.interest() == Some(e),
        e.writable,
    ensures
        post.contents().len() < post.cap(),
        packet == Some(CompletionPacket { event: e }),
{
}

/// Law: once the worker has stopped and the buffer is drained, every read
/// takes nothing and leaves the reader drained; since the worker alone adds
/// bytes and a stopped worker never runs another step, `try_read` returns no
/// bytes, forever.
pub proof fn lemma_end_of_stream_is_permanent(r: UnblockedReader, max: nat)
    requires
        !r.running(),
        r.contents().len() == 0,
    ensures
        read_front(r.contents(), max) == Seq::<u8>::empty(),
        read_rest(r.contents(), max) == Seq::<u8>::empty(),
{
    assert(read_front(r.contents(), max) =~= Seq::<u8>::empty());
    assert(read_rest(r.contents(), max) =~= Seq::<u8>::empty());
}

/// Law: a watched child's exit fires the watcher's callback once, and that
/// firing queues exactly one `Exited` event and posts exactly one packet
/// bearing the watcher's exit token; were the callback ever to run again, it
/// would queue nothing and post nothing.
pub proof fn lemma_exit_event_exactly_once(
    w0: ChildExitWatcher,
    w1: ChildExitWatcher,
    w2: ChildExitWatcher,
    p1: Option<CompletionPacket>,
    p2: Option<CompletionPacket>,
)
    requires
        w0.state() is Registered,
        w0.pending().len() == 0,
        callback_rel(w0, false, w1, p1),
        callback_rel(w1, false, w2, p2),
    ensures
        w1.pending() == seq![ChildEvent::Exited],
        p1 == Some(exit_packet(w0.token())),
        w2.pending() == w1.pending(),
        p2 is None,
{
    assert(w1.pending() =~= seq![ChildEvent::Exited]);
}

} // verus!
