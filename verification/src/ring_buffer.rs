//! A fixed-capacity ring buffer over a growable backing store.
//!
//! The buffer queues up to `N` items; `enqueue` adds at the tail,
//! `dequeue` removes at the head, `pop` removes at the tail, and `flush`
//! drains everything in queue order.  The abstract value is the sequence
//! of queued items, oldest first.

use vstd::prelude::*;

verus! {

/// `x` reduced into `[0, n)`, for `x` below `2 * n`.
pub open spec fn wrap_index(x: int, n: int) -> int {
    if x < n {
        x
    } else {
        x - n
    }
}

/// A bounded queue of at most `N` items.
pub struct RingBuffer<T: Copy, const N: usize> {
    buffer: Vec<T>,
    head: usize,
    tail: usize,
    count: usize,
}

impl<T: Copy, const N: usize> View for RingBuffer<T, N> {
    type V = Seq<T>;

    closed spec fn view(&self) -> Seq<T> {
        Seq::new(self.count as nat, |j: int| self.buffer@[wrap_index(self.head + j, N as int)])
    }
}

impl<T: Copy, const N: usize> RingBuffer<T, N> {
    /// The ring's structural invariant: the cursors stay inside the
    /// capacity, the tail sits one past the queued region, and every
    /// queued slot (and the next slot to write) lies inside the backing
    /// store, which only ever grows up to the capacity.
    pub closed spec fn wf(self) -> bool {
        &&& (N > 0 ==> self.head < N)
        &&& (N == 0 ==> self.head == 0 && self.tail == 0)
        &&& self.count <= N
        &&& self.tail == wrap_index(self.head + self.count, N as int)
        &&& self.buffer@.len() <= N
        &&& (forall|j: int|
            0 <= j < self.count ==> #[trigger] wrap_index(self.head + j, N as int)
                < self.buffer@.len())
        &&& (self.tail <= self.buffer@.len() || self.buffer@.len() == N)
    }

    /// An empty ring.
    pub fn new() -> (ring: RingBuffer<T, N>)
        ensures
            ring.wf(),
            ring@ =~= Seq::<T>::empty(),
    {
        RingBuffer { buffer: Vec::new(), head: 0, tail: 0, count: 0 }
    }

    /// Whether nothing is queued.
    pub fn is_empty(&self) -> (empty: bool)
        requires
            self.wf(),
        ensures
            empty == (self@.len() == 0),
    {
        self.count == 0
    }

    /// Whether the ring is at capacity.
    pub fn is_full(&self) -> (full: bool)
        requires
            self.wf(),
        ensures
            full == (self@.len() == N),
    {
        self.count == N
    }

    /// Queue `item` at the tail; a full ring rejects it and hands it
    /// back.
    pub fn enqueue(&mut self, item: T) -> (result: Result<(), T>)
        requires
            old(self).wf(),
        ensures
            final(self).wf(),
            old(self)@.len() == N ==> result == Err::<(), T>(item) && *final(self) == *old(self),
            old(self)@.len() < N ==> result == Ok::<(), T>(()) && final(self)@ =~= old(
                self,
            )@.push(item),
    {
        if self.count == N {
            return Err(item);
        }
        if self.tail < self.buffer.len() {
            self.buffer[self.tail] = item;
        } else {
            self.buffer.push(item);
        }
        self.tail = if self.tail + 1 == N {
            0
        } else {
            self.tail + 1
        };
        self.count = self.count + 1;
        proof {
            assert forall|j: int| 0 <= j < self.count implies #[trigger] wrap_index(
                self.head + j,
                N as int,
            ) < self.buffer@.len() by {
                assert(0 <= j < old(self).count ==> wrap_index(self.head + j, N as int)
                    < old(self).buffer@.len());
            }
            assert(final(self)@ =~= old(self)@.push(item));
        }
        Ok(())
    }

    /// Remove and return the oldest item, or nothing from an empty ring.
    pub fn dequeue(&mut self) -> (result: Option<T>)
        requires
            old(self).wf(),
        ensures
            final(self).wf(),
            old(self)@.len() == 0 ==> result == Option::<T>::None && *final(self) == *old(self),
            old(self)@.len() > 0 ==> result == Some(old(self)@[0]) && final(self)@ =~= old(
                self,
            )@.skip(1),
    {
        if self.count == 0 {
            return None;
        }
        proof {
            assert(wrap_index(self.head + 0, N as int) < self.buffer@.len());
        }
        let item = self.buffer[self.head];
        self.head = if self.head + 1 == N {
            0
        } else {
            self.head + 1
        };
        self.count = self.count - 1;
        proof {
            assert forall|j: int| 0 <= j < self.count implies #[trigger] wrap_index(
                self.head + j,
                N as int,
            ) < self.buffer@.len() by {
                assert(wrap_index(old(self).head + (j + 1), N as int) < self.buffer@.len());
            }
            assert(final(self)@ =~= old(self)@.skip(1));
        }
        Some(item)
    }

    /// Remove and return the newest item, or nothing from an empty ring.
    pub fn pop(&mut self) -> (result: Option<T>)
        requires
            old(self).wf(),
        ensures
            final(self).wf(),
            old(self)@.len() == 0 ==> result == Option::<T>::None && *final(self) == *old(self),
            old(self)@.len() > 0 ==> result == Some(old(self)@.last()) && final(self)@ =~= old(
                self,
            )@.drop_last(),
    {
        if self.count == 0 {
            return None;
        }
        let index = if self.tail == 0 {
            N - 1
        } else {
            self.tail - 1
        };
        proof {
            assert(index == wrap_index(self.head + (self.count - 1), N as int));
        }
        self.tail = index;
        self.count = self.count - 1;
        let item = self.buffer[index];
        proof {
            assert(final(self)@ =~= old(self)@.drop_last());
        }
        Some(item)
    }

    /// Drain the ring, handing the queued items back oldest first.
    pub fn flush(&mut self) -> (drained: Vec<T>)
        requires
            old(self).wf(),
        ensures
            final(self).wf(),
            drained@ =~= old(self)@,
            final(self)@ =~= Seq::<T>::empty(),
    {
        let mut drained: Vec<T> = Vec::new();
        loop
            invariant
                self.wf(),
                drained@ + self@ =~= old(self)@,
            decreases self@.len(),
        {
            match self.dequeue() {
                Some(item) => {
                    drained.push(item);
                },
                None => {
                    return drained;
                },
            }
        }
    }
}

} // verus!
