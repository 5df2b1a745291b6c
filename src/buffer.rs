//! A fixed-capacity buffer that serves bytes one at a time and is refilled,
//! when empty, by one physical read of up to its capacity.

use vstd::prelude::*;

verus! {

/// Capacity of the buffer that reads from the terminal.
pub const BUFFER_SIZE: usize = 1024;

/// The abstract state of a [`BufferedInput`].
pub struct BufferView {
    /// Bytes held and not yet served, in order.
    pub pending: Seq<u8>,
    /// Number of bytes a single refill may bring in.
    pub capacity: nat,
    /// Whether the last refill filled the whole buffer, so that the source
    /// likely holds more bytes already.
    pub likely_more: bool,
    /// Concatenation of every chunk that was handed to a refill.
    pub received: Seq<u8>,
    /// Every byte served so far, in order.
    pub served: Seq<u8>,
}

/// A byte buffer of fixed capacity with a cursor into its valid region.
pub struct BufferedInput {
    buffer: Vec<u8>,
    buffer_size: usize,
    buffer_index: usize,
    might_have_more_data: bool,
    received: Ghost<Seq<u8>>,
    served: Ghost<Seq<u8>>,
}

impl View for BufferedInput {
    type V = BufferView;

    closed spec fn view(&self) -> BufferView {
        BufferView {
            pending: self.buffer@.subrange(self.buffer_index as int, self.buffer_size as int),
            capacity: self.buffer@.len(),
            likely_more: self.might_have_more_data,
            received: self.received@,
            served: self.served@,
        }
    }
}

impl BufferedInput {
    /// The cursor never passes the valid region, the valid region never
    /// passes the capacity, and the bytes served followed by those pending
    /// are exactly the bytes received.
    pub closed spec fn wf(&self) -> bool {
        &&& self.buffer_index <= self.buffer_size
        &&& self.buffer_size <= self.buffer@.len()
        &&& self.buffer@.len() >= 1
        &&& self.served@ + self@.pending == self.received@
    }

    /// An empty buffer of the given capacity; nothing has been read yet, so
    /// nothing is held and no further input is presumed.
    pub fn new(capacity: usize) -> (r: BufferedInput)
        requires
            capacity >= 1,
        ensures
            r.wf(),
            r@.capacity == capacity,
            r@.pending =~= Seq::<u8>::empty(),
            !r@.likely_more,
            r@.received =~= Seq::<u8>::empty(),
            r@.served =~= Seq::<u8>::empty(),
    {
        BufferedInput {
            buffer: vec![0u8; capacity],
            buffer_size: 0,
            buffer_index: 0,
            might_have_more_data: false,
            received: Ghost(Seq::empty()),
            served: Ghost(Seq::empty()),
        }
    }

    /// The capacity fixed at construction.
    pub fn capacity(&self) -> (r: usize)
        requires
            self.wf(),
        ensures
            r == self@.capacity,
    {
        self.buffer.len()
    }

    /// Whether bytes are held that have not been served.
    pub fn has_buffered_data(&self) -> (r: bool)
        requires
            self.wf(),
        ensures
            r == (self@.pending.len() > 0),
    {
        self.buffer_index < self.buffer_size
    }

    /// Whether the last refill filled the whole buffer.
    pub fn likely_more(&self) -> (r: bool)
        ensures
            r == self@.likely_more,
    {
        self.might_have_more_data
    }

    /// Whether a byte can likely be had without waiting: one is held, or
    /// the last refill filled the whole buffer.
    pub fn might_have_buffered_data(&self) -> (r: bool)
        requires
            self.wf(),
        ensures
            r == (self@.likely_more || self@.pending.len() > 0),
    {
        self.might_have_more_data || self.has_buffered_data()
    }

    /// Serves the next held byte.
    fn next_u8(&mut self) -> (r: u8)
        requires
            old(self).wf(),
            old(self)@.pending.len() > 0,
        ensures
            final(self).wf(),
            r == old(self)@.pending[0],
            final(self)@.pending == old(self)@.pending.drop_first(),
            final(self)@.served == old(self)@.served.push(r),
            final(self)@.received == old(self)@.received,
            final(self)@.capacity == old(self)@.capacity,
            final(self)@.likely_more == old(self)@.likely_more,
    {
        let val = self.buffer[self.buffer_index];
        proof {
            let p = old(self)@.pending;
            assert(p[0] == val);
            assert(self.served@.push(val) + p.drop_first() =~= self.served@ + p);
        }
        self.buffer_index = self.buffer_index + 1;
        self.served = Ghost(self.served@.push(val));
        proof {
            assert(self@.pending =~= old(self)@.pending.drop_first());
        }
        val
    }

    /// Serves the next held byte without any I/O, or returns `None` when
    /// the buffer is exhausted and a refill is due.
    pub fn next_byte(&mut self) -> (r: Option<u8>)
        requires
            old(self).wf(),
        ensures
            final(self).wf(),
            final(self)@.capacity == old(self)@.capacity,
            final(self)@.likely_more == old(self)@.likely_more,
            final(self)@.received == old(self)@.received,
            old(self)@.pending.len() == 0 ==> r is None && final(self)@ == old(self)@,
            old(self)@.pending.len() > 0 ==> {
                &&& r == Some(old(self)@.pending[0])
                &&& final(self)@.pending == old(self)@.pending.drop_first()
                &&& final(self)@.served == old(self)@.served.push(old(self)@.pending[0])
            },
    {
        if self.has_buffered_data() {
            Some(self.next_u8())
        } else {
            None
        }
    }

    /// Discards the exhausted buffer before a physical read: nothing is held
    /// and no further input is presumed until the read completes.
    pub fn clear(&mut self)
        requires
            old(self).wf(),
            old(self)@.pending.len() == 0,
        ensures
            final(self).wf(),
            final(self)@.pending.len() == 0,
            !final(self)@.likely_more,
            final(self)@.capacity == old(self)@.capacity,
            final(self)@.received == old(self)@.received,
            final(self)@.served == old(self)@.served,
    {
        proof {
            assert(old(self).served@ + old(self)@.pending =~= old(self).served@);
        }
        self.buffer_size = 0;
        self.buffer_index = 0;
        self.might_have_more_data = false;
        proof {
            assert(self.served@ + self@.pending =~= self.served@);
        }
    }

    /// Replaces the exhausted buffer with the bytes of one physical read and
    /// serves the first of them. Further input is presumed exactly when the
    /// read filled the whole capacity. A read that brought no byte leaves nothing
    /// to serve and is not accepted.
    pub fn refill(&mut self, chunk: &[u8]) -> (r: u8)
        requires
            old(self).wf(),
            old(self)@.pending.len() == 0,
            1 <= chunk@.len() <= old(self)@.capacity,
        ensures
            final(self).wf(),
            final(self)@.capacity == old(self)@.capacity,
            final(self)@.likely_more == (chunk@.len() == old(self)@.capacity),
            final(self)@.received == old(self)@.received + chunk@,
            r == chunk@[0],
            final(self)@.pending == chunk@.drop_first(),
            final(self)@.served == old(self)@.served.push(chunk@[0]),
    {
        self.buffer_size = 0;
        self.buffer_index = 0;
        self.might_have_more_data = false;
        let n = chunk.len();
        let mut i: usize = 0;
        while i < n
            invariant
                n == chunk@.len(),
                i <= n,
                n <= self.buffer@.len(),
                self.buffer@.len() == old(self).buffer@.len(),
                self.buffer_size == 0,
                self.buffer_index == 0,
                self.received == old(self).received,
                self.served == old(self).served,
                forall|j: int| 0 <= j < i ==> self.buffer@[j] == chunk@[j],
            decreases n - i,
        {
            self.buffer.set(i, chunk[i]);
            i = i + 1;
        }
        self.buffer_size = n;
        self.might_have_more_data = n == self.buffer.len();
        proof {
            assert(self.buffer@.subrange(0, n as int) =~= chunk@);
            assert(old(self).served@ + old(self)@.pending =~= old(self).served@);
            assert(self@.pending =~= chunk@);
        }
        self.received = Ghost(self.received@ + chunk@);
        self.next_u8()
    }
}

/// Byte fidelity: every byte that the physical reads delivered is served
/// exactly once and in order. What has been served, followed by what is
/// still held, is the concatenation of all chunks read; once the buffer is
/// exhausted, the bytes served are exactly that concatenation.
pub proof fn lemma_byte_fidelity(r: &BufferedInput)
    requires
        r.wf(),
    ensures
        r@.served + r@.pending == r@.received,
        r@.pending.len() == 0 ==> r@.served == r@.received,
{
    assert(r@.pending.len() == 0 ==> r@.served + r@.pending =~= r@.served);
}

} // verus!
