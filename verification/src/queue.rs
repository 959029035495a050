//! Fixed-capacity FIFO sample queue.
//!
//! The pipeline stages exchange samples through fixed-capacity circular
//! buffers: one end produces, the other consumes, and a full buffer makes
//! the producer drop the sample rather than block, because the real-time
//! capture callbacks must never stall. This module is the verified queue
//! those stages operate on: a circular buffer with index-based ownership
//! whose view is the sequence of buffered samples, oldest first.

use vstd::prelude::*;

verus! {

use crate::sample::CanonSample;

/// A fixed-capacity FIFO queue of canonical samples, backed by a circular
/// buffer. Pushing onto a full queue fails and leaves the queue unchanged;
/// popping from an empty queue yields nothing.
pub struct SampleQueue {
    buf: Vec<CanonSample>,
    head: usize,
    len: usize,
}

impl View for SampleQueue {
    type V = Seq<CanonSample>;

    /// The buffered samples, oldest first.
    closed spec fn view(&self) -> Seq<CanonSample> {
        Seq::new(
            self.len as nat,
            |i: int|
                if self.head + i < self.buf@.len() {
                    self.buf@[self.head + i]
                } else {
                    self.buf@[self.head + i - self.buf@.len()]
                },
        )
    }
}

impl SampleQueue {
    #[verifier::type_invariant]
    spec fn wf(&self) -> bool {
        &&& self.buf@.len() > 0
        &&& self.head < self.buf@.len()
        &&& self.len <= self.buf@.len()
    }

    /// How many samples the queue can hold at once.
    pub closed spec fn spec_capacity(&self) -> nat {
        self.buf@.len()
    }

    /// Creates an empty queue that can hold `capacity` samples.
    pub fn new(capacity: usize) -> (q: Self)
        requires
            capacity > 0,
        ensures
            q@ == Seq::<CanonSample>::empty(),
            q.spec_capacity() == capacity,
    {
        let mut buf: Vec<CanonSample> = Vec::new();
        let mut i: usize = 0;
        while i < capacity
            invariant
                i <= capacity,
                buf@.len() == i,
            decreases capacity - i,
        {
            buf.push(CanonSample { bits: 0 });
            i = i + 1;
        }
        let q = SampleQueue { buf, head: 0, len: 0 };
        proof {
            assert(q@ =~= Seq::<CanonSample>::empty());
        }
        q
    }

    /// The queue's capacity.
    pub fn capacity(&self) -> (n: usize)
        ensures
            n == self.spec_capacity(),
    {
        self.buf.len()
    }

    /// How many samples are currently buffered; never more than the
    /// capacity.
    pub fn occupied_len(&self) -> (n: usize)
        ensures
            n == self@.len(),
            n <= self.spec_capacity(),
    {
        proof {
            use_type_invariant(&*self);
        }
        self.len
    }

    /// Appends one sample at the back of the queue. On a full queue the
    /// sample is dropped and the queue is unchanged: the producing side
    /// loses data rather than block.
    pub fn try_push(&mut self, s: CanonSample) -> (ok: bool)
        ensures
            final(self).spec_capacity() == old(self).spec_capacity(),
            ok == (old(self)@.len() < old(self).spec_capacity()),
            ok ==> final(self)@ == old(self)@.push(s),
            !ok ==> final(self)@ == old(self)@,
    {
        proof {
            use_type_invariant(&*self);
        }
        if self.len < self.buf.len() {
            let cap = self.buf.len();
            let pos = if self.len < cap - self.head {
                self.head + self.len
            } else {
                self.len - (cap - self.head)
            };
            self.buf[pos] = s;
            self.len = self.len + 1;
            proof {
                assert(self@ =~= old(self)@.push(s));
            }
            true
        } else {
            false
        }
    }

    /// Removes and returns the oldest buffered sample, if any.
    pub fn pop(&mut self) -> (r: Option<CanonSample>)
        ensures
            final(self).spec_capacity() == old(self).spec_capacity(),
            old(self)@.len() == 0 ==> r is None && final(self)@ == old(self)@,
            old(self)@.len() > 0 ==> r == Some(old(self)@[0]) && final(self)@ == old(self)@.subrange(
                1,
                old(self)@.len() as int,
            ),
    {
        proof {
            use_type_invariant(&*self);
        }
        if self.len == 0 {
            proof {
                assert(self@ =~= old(self)@);
            }
            None
        } else {
            let cap = self.buf.len();
            let s = self.buf[self.head];
            self.head = if self.head + 1 == cap {
                0
            } else {
                self.head + 1
            };
            self.len = self.len - 1;
            proof {
                assert(self@ =~= old(self)@.subrange(1, old(self)@.len() as int));
            }
            Some(s)
        }
    }
}

} // verus!
