//! A fixed-capacity circular buffer that keeps the most recent observations.

use crate::scalar::Scalar;
use vstd::prelude::*;

verus! {

/// The slot that lies `offset` places after `start` in a ring of `period` slots,
/// for `start < period` and `offset <= period`.
pub(crate) open spec fn ring_slot(start: int, offset: int, period: int) -> int {
    if start + offset >= period {
        start + offset - period
    } else {
        start + offset
    }
}

/// The last `period` observations of a stream, in a buffer of exactly `period`
/// slots that is written round and round.
///
/// `index` is the slot the next observation goes to and `count` the number of
/// observations held. Until the buffer is full the two are equal and the slots
/// from `count` on still hold zero.
#[derive(Debug)]
pub(crate) struct Window<S: Scalar> {
    period: usize,
    index: usize,
    count: usize,
    buffer: Vec<S>,
}

impl<S: Scalar> Window<S> {
    /// The structural invariant of the buffer.
    pub(crate) closed spec fn wf(self) -> bool {
        &&& self.period >= 1
        &&& self.buffer.len() == self.period
        &&& self.index < self.period
        &&& self.count <= self.period
        &&& self.count < self.period ==> self.index == self.count
        &&& forall|j: int|
            self.count <= j < self.period ==> self.buffer@[j] == S::spec_from_int(0)
    }

    /// The number of slots.
    pub(crate) closed spec fn capacity(self) -> nat {
        self.period as nat
    }

    /// The observations held, oldest first.
    pub(crate) closed spec fn items(self) -> Seq<S> {
        Seq::new(
            self.count as nat,
            |i: int|
                if self.count < self.period {
                    self.buffer@[i]
                } else {
                    self.buffer@[ring_slot(self.index as int, i, self.period as int)]
                },
        )
    }

    /// An empty window of `period` slots, each holding zero.
    pub(crate) fn new(period: usize) -> (w: Self)
        requires
            period >= 1,
        ensures
            w.wf(),
            w.capacity() == period,
            w.items() == Seq::<S>::empty(),
    {
        let zero = S::from_int(0);
        let mut buffer: Vec<S> = Vec::with_capacity(period);
        while buffer.len() < period
            invariant
                buffer.len() <= period,
                zero == S::spec_from_int(0),
                forall|j: int| 0 <= j < buffer.len() ==> buffer@[j] == zero,
            decreases period - buffer.len(),
        {
            buffer.push(zero);
        }
        Window { period, index: 0, count: 0, buffer }
    }

    /// The number of slots.
    pub(crate) fn period(&self) -> (p: usize)
        ensures
            p == self.capacity(),
    {
        self.period
    }

    /// The number of observations held.
    pub(crate) fn len(&self) -> (n: usize)
        requires
            self.wf(),
        ensures
            n == self.items().len(),
            1 <= self.capacity(),
            n <= self.capacity(),
    {
        self.count
    }

    /// Stores `input` as the newest observation and returns what the slot held
    /// before: zero while the window is filling, the oldest observation once it
    /// is full.
    pub(crate) fn push(&mut self, input: S) -> (evicted: S)
        requires
            old(self).wf(),
        ensures
            final(self).wf(),
            final(self).capacity() == old(self).capacity(),
            old(self).items().len() < old(self).capacity() ==> {
                &&& evicted == S::spec_from_int(0)
                &&& final(self).items() == old(self).items().push(input)
            },
            old(self).items().len() >= old(self).capacity() ==> {
                &&& evicted == old(self).items()[0]
                &&& final(self).items() == old(self).items().drop_first().push(input)
            },
        no_unwind
    {
        let evicted = self.buffer[self.index];
        self.buffer[self.index] = input;
        self.index = if self.index + 1 < self.period {
            self.index + 1
        } else {
            0
        };
        if self.count < self.period {
            self.count += 1;
        }
        evicted
    }

    /// A second window with the same slots, index and count.
    pub(crate) fn duplicate(&self) -> (w: Self)
        requires
            self.wf(),
        ensures
            w.wf(),
            w.capacity() == self.capacity(),
            w.items() == self.items(),
    {
        let mut buffer: Vec<S> = Vec::with_capacity(self.period);
        while buffer.len() < self.period
            invariant
                self.buffer.len() == self.period,
                buffer.len() <= self.period,
                forall|j: int| 0 <= j < buffer.len() ==> buffer@[j] == self.buffer@[j],
            decreases self.period - buffer.len(),
        {
            buffer.push(self.buffer[buffer.len()]);
        }
        Window { period: self.period, index: self.index, count: self.count, buffer }
    }

    /// Empties the window and puts `zero` into every slot.
    pub(crate) fn clear(&mut self, zero: S)
        requires
            old(self).wf(),
            zero == S::spec_from_int(0),
        ensures
            final(self).wf(),
            final(self).capacity() == old(self).capacity(),
            final(self).items() == Seq::<S>::empty(),
        no_unwind
    {
        self.index = 0;
        self.count = 0;
        let mut i: usize = 0;
        while i < self.period
            invariant
                i <= self.period,
                self.period == old(self).period,
                self.buffer.len() == self.period,
                self.index == 0,
                self.count == 0,
                forall|j: int| 0 <= j < i ==> self.buffer@[j] == zero,
            decreases self.period - i,
        {
            self.buffer[i] = zero;
            i += 1;
        }
    }
}

} // verus!
