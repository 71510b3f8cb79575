//! The bounded channel: a fixed-capacity byte ring buffer between a producer
//! and a consumer.  Neither side ever blocks: each call moves as many bytes
//! as fit and reports the count, possibly zero.

use vstd::prelude::*;

verus! {

/// Error from constructing a bounded channel.
#[derive(Clone, Copy, Debug, PartialEq, Eq, Structural)]
pub enum ChannelError {
    /// A channel of capacity zero could never move a byte.
    ZeroCapacity,
}

/// How many bytes a write of `data` into a channel of capacity `cap` holding
/// `s` actually buffers: all of them, or as many as fit.
pub open spec fn write_count(s: Seq<u8>, data: Seq<u8>, cap: nat) -> int {
    if data.len() <= cap - s.len() {
        data.len() as int
    } else {
        cap - s.len()
    }
}

/// The buffered bytes after a write of `data` into a channel of capacity
/// `cap` holding `s`: the old bytes, then the prefix of `data` that fit.
pub open spec fn write_step(s: Seq<u8>, data: Seq<u8>, cap: nat) -> Seq<u8> {
    s + data.take(write_count(s, data, cap))
}

/// How many bytes a read of at most `max` takes from a channel holding `s`.
pub open spec fn read_count(s: Seq<u8>, max: nat) -> int {
    if max <= s.len() {
        max as int
    } else {
        s.len() as int
    }
}

/// The bytes a read of at most `max` returns from a channel holding `s`:
/// the oldest ones, in order.
pub open spec fn read_front(s: Seq<u8>, max: nat) -> Seq<u8> {
    s.take(read_count(s, max))
}

/// The bytes left buffered after a read of at most `max` from a channel
/// holding `s`.
pub open spec fn read_rest(s: Seq<u8>, max: nat) -> Seq<u8> {
    s.skip(read_count(s, max))
}

/// Fixed-capacity byte ring buffer.  The capacity is chosen at construction
/// and never changes; reads return the oldest bytes first.
pub struct BoundedChannel {
    /// Backing storage; its length is the capacity.
    buf: Vec<u8>,
    /// Index of the oldest buffered byte.
    head: usize,
    /// Number of buffered bytes.
    len: usize,
}

impl BoundedChannel {
    /// The fixed capacity.
    pub closed spec fn cap(&self) -> nat {
        self.buf@.len()
    }

    /// Position in the backing storage of the `i`-th buffered byte.
    spec fn slot_of(&self, i: int) -> int {
        if self.head + i < self.buf@.len() {
            self.head + i
        } else {
            self.head + i - self.buf@.len()
        }
    }

    /// The `i`-th buffered byte.
    spec fn at(&self, i: int) -> u8 {
        self.buf@[self.slot_of(i)]
    }

    /// The buffered bytes, oldest first.
    pub closed spec fn contents(&self) -> Seq<u8> {
        Seq::new(self.len as nat, |i: int| self.at(i))
    }

    #[verifier::type_invariant]
    spec fn wf(&self) -> bool {
        &&& 1 <= self.buf@.len()
        &&& self.head < self.buf@.len()
        &&& self.len <= self.buf@.len()
    }

    /// Create a channel of the given capacity, empty.  A capacity of zero is
    /// invalid: such a channel could never move a byte.
    pub fn new(capacity: usize) -> (r: Result<BoundedChannel, ChannelError>)
        ensures
            capacity == 0 <==> r is Err,
            capacity == 0 ==> r == Err::<BoundedChannel, ChannelError>(ChannelError::ZeroCapacity),
            r matches Ok(c) ==> c.cap() == capacity && c.contents() == Seq::<u8>::empty(),
    {
        if capacity == 0 {
            return Err(ChannelError::ZeroCapacity);
        }
        let mut buf: Vec<u8> = Vec::new();
        while buf.len() < capacity
            invariant
                buf@.len() <= capacity,
                1 <= capacity,
            decreases capacity - buf@.len(),
        {
            buf.push(0u8);
        }
        let c = BoundedChannel { buf, head: 0, len: 0 };
        proof {
            assert(c.contents() =~= Seq::<u8>::empty());
        }
        Ok(c)
    }

    /// The fixed capacity.
    pub fn capacity(&self) -> (n: usize)
        ensures
            n == self.cap(),
    {
        self.buf.len()
    }

    /// How many bytes are currently buffered.
    pub fn len(&self) -> (n: usize)
        ensures
            n == self.contents().len(),
    {
        self.len
    }

    /// How many more bytes the channel can take before it is full.
    pub fn free_space(&self) -> (n: usize)
        ensures
            n == self.cap() - self.contents().len(),
    {
        proof {
            use_type_invariant(self);
        }
        self.buf.len() - self.len
    }

    /// Whether nothing is buffered.
    pub fn is_empty(&self) -> (b: bool)
        ensures
            b == (self.contents().len() == 0),
    {
        self.len == 0
    }

    /// Position in the backing storage of the `pos`-th buffered byte.
    fn slot(&self, pos: usize) -> (idx: usize)
        requires
            pos < self.cap(),
        ensures
            idx == self.slot_of(pos as int),
            idx < self.cap(),
    {
        proof {
            use_type_invariant(self);
        }
        let cap = self.buf.len();
        if pos < cap - self.head {
            self.head + pos
        } else {
            pos - (cap - self.head)
        }
    }

    /// Append as many of the given bytes as fit; the count returned is less
    /// than `data.len()` exactly when the channel ran out of room, the
    /// backpressure signal to the caller.
    pub fn try_write(&mut self, data: &[u8]) -> (n: usize)
        ensures
            n == write_count(old(self).contents(), data@, old(self).cap()),
            final(self).contents() == write_step(old(self).contents(), data@, old(self).cap()),
            final(self).cap() == old(self).cap(),
    {
        proof {
            use_type_invariant(&*self);
        }
        let free = self.buf.len() - self.len;
        let n = if data.len() < free {
            data.len()
        } else {
            free
        };
        let mut i: usize = 0;
        while i < n
            invariant
                i <= n,
                n <= data@.len(),
                n == write_count(old(self).contents(), data@, old(self).cap()),
                self.len + n <= self.buf@.len(),
                self.head == old(self).head,
                self.len == old(self).len,
                self.buf@.len() == old(self).buf@.len(),
                self.head < self.buf@.len(),
                forall|k: int| 0 <= k < self.len ==> self.at(k) == old(self).at(k),
                forall|k: int| 0 <= k < i ==> self.at(self.len + k) == data@[k],
            decreases n - i,
        {
            let idx = self.slot_write(i);
            self.buf[idx] = data[i];
            i = i + 1;
        }
        let ghost pre = *old(self);
        self.len = self.len + n;
        proof {
            assert(self.contents() =~= write_step(pre.contents(), data@, pre.cap())) by {
                assert forall|j: int| 0 <= j < self.len implies self.at(j) == write_step(
                    pre.contents(),
                    data@,
                    pre.cap(),
                )[j] by {
                    if j < pre.len {
                        assert(self.at(j) == pre.at(j));
                    } else {
                        assert(self.at(j) == data@[j - pre.len]);
                    }
                }
            }
        }
        n
    }

    /// Position in the backing storage of the byte `off` places past the
    /// youngest buffered one: where the next write lands.
    fn slot_write(&self, off: usize) -> (idx: usize)
        requires
            self.len + off < self.cap(),
        ensures
            idx == self.slot_of(self.len + off),
            idx < self.cap(),
    {
        proof {
            use_type_invariant(self);
        }
        let cap = self.buf.len();
        let pos = self.len + off;
        if pos < cap - self.head {
            self.head + pos
        } else {
            pos - (cap - self.head)
        }
    }

    /// Copy the oldest `n` buffered bytes, in order, without removing them.
    fn copy_front(&self, n: usize) -> (r: Vec<u8>)
        requires
            n <= self.contents().len(),
        ensures
            r@ == self.contents().take(n as int),
    {
        proof {
            use_type_invariant(self);
        }
        let mut r: Vec<u8> = Vec::new();
        let mut i: usize = 0;
        while i < n
            invariant
                i <= n,
                n <= self.len,
                self.len <= self.buf@.len(),
                self.head < self.buf@.len(),
                1 <= self.buf@.len(),
                r@.len() == i,
                forall|k: int| 0 <= k < i ==> r@[k] == self.at(k),
            decreases n - i,
        {
            let idx = self.slot(i);
            r.push(self.buf[idx]);
            i = i + 1;
        }
        proof {
            assert(r@ =~= self.contents().take(n as int));
        }
        r
    }

    /// Discard the oldest `n` buffered bytes.
    pub fn consume(&mut self, n: usize)
        requires
            n <= old(self).contents().len(),
        ensures
            final(self).contents() == old(self).contents().skip(n as int),
            final(self).cap() == old(self).cap(),
    {
        proof {
            use_type_invariant(&*self);
        }
        let cap = self.buf.len();
        self.head = if n < cap - self.head {
            self.head + n
        } else {
            n - (cap - self.head)
        };
        self.len = self.len - n;
        proof {
            assert(self.contents() =~= old(self).contents().skip(n as int)) by {
                assert forall|j: int| 0 <= j < self.len implies self.at(j) == old(self).at(n + j) by {
                    assert(self.slot_of(j) == old(self).slot_of(n + j));
                }
            }
        }
    }

    /// Take up to `max` bytes out of the channel: the oldest ones, in order.
    /// An empty result means nothing was buffered (or `max` was zero), never
    /// an error.
    pub fn try_read(&mut self, max: usize) -> (r: Vec<u8>)
        ensures
            r@ == read_front(old(self).contents(), max as nat),
            final(self).contents() == read_rest(old(self).contents(), max as nat),
            final(self).cap() == old(self).cap(),
    {
        let n = if max < self.len() {
            max
        } else {
            self.len()
        };
        let r = self.copy_front(n);
        self.consume(n);
        r
    }

    /// Copy all buffered bytes, in order, without removing them.
    pub fn peek_all(&self) -> (r: Vec<u8>)
        ensures
            r@ == self.contents(),
    {
        let n = self.len();
        let r = self.copy_front(n);
        proof {
            assert(r@ =~= self.contents());
        }
        r
    }
}

} // verus!
