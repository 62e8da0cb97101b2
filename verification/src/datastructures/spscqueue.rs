use vstd::prelude::*;
use crate::datastructures::ringbuffer::{slot_of, lemma_slot_shift, lemma_slot_value, lemma_slots_distinct};

verus! {

/// The FIFO queue between a producer and a consumer, over `N` slots.
///
/// This is a sequential model: the producer's and the consumer's ends are
/// plain read and write indices updated through `&mut self`, not atomics,
/// so sharing one queue between an interrupt handler and the main loop
/// needs outside synchronisation.
///
/// `N` is the number of slots; one slot always stays empty to tell a full
/// queue from an empty one, so the queue holds at most `N - 1` items.
/// The oldest item is in slot `read`; the next item goes into slot `write`.
pub struct SpscQueue<T, const N: usize> {
    buffer: Vec<Option<T>>,
    read: usize,
    write: usize,
}

/// Returned by [`SpscQueue::push_back`] when the queue is full; carries the
/// number of items a full queue holds.
#[derive(Debug, Clone, Copy, PartialEq, Eq, Structural)]
pub struct BufferFullError(pub usize);

/// The number of items between slot `read` and slot `write` of `n` slots.
pub open spec fn queue_len(read: int, write: int, n: int) -> int {
    if write >= read {
        write - read
    } else {
        n - read + write
    }
}

impl<T, const N: usize> SpscQueue<T, N> {
    /// The queue's internal invariant.
    pub closed spec fn wf(&self) -> bool {
        &&& N >= 2
        &&& self.buffer@.len() == N
        &&& self.read < N
        &&& self.write < N
        &&& forall|i: int|
            0 <= i < queue_len(self.read as int, self.write as int, N as int) ==> (
            #[trigger] self.buffer@[slot_of(self.read as int, i, N as int)]) is Some
    }

    /// The items in the queue, oldest first.
    pub closed spec fn view(&self) -> Seq<T> {
        Seq::new(
            queue_len(self.read as int, self.write as int, N as int) as nat,
            |i: int| self.buffer@[slot_of(self.read as int, i, N as int)]->0,
        )
    }

    /// A well-formed queue has at least two slots and holds at most `N - 1` items.
    pub proof fn lemma_len_below_capacity(&self)
        requires
            self.wf(),
        ensures
            N >= 2,
            self@.len() < N,
    {
    }

    /// The slot `write` is the slot of logical position `len`.
    proof fn lemma_write_slot(&self)
        requires
            self.wf(),
        ensures
            self.write as int == slot_of(self.read as int, self@.len() as int, N as int),
    {
        lemma_slot_value(self.read as int, self@.len() as int, N as int);
    }

    /// Creates an empty queue; `N` must be at least 2.
    pub fn new() -> (r: Self)
        requires
            N >= 2,
        ensures
            r.wf(),
            r@ == Seq::<T>::empty(),
    {
        let mut buffer: Vec<Option<T>> = Vec::new();
        let mut i: usize = 0;
        while i < N
            invariant
                i <= N,
                buffer@.len() == i,
            decreases N - i,
        {
            buffer.push(None);
            i = i + 1;
        }
        let r = Self { buffer, read: 0, write: 0 };
        assert(r@ =~= Seq::<T>::empty());
        r
    }

    /// Appends `value` behind the newest item, or, when the queue already
    /// holds `N - 1` items, returns `N - 1` as an error and leaves it unchanged.
    pub fn push_back(&mut self, value: T) -> (r: Result<(), BufferFullError>)
        requires
            old(self).wf(),
        ensures
            final(self).wf(),
            old(self)@.len() < N - 1 ==> r is Ok && final(self)@ == old(self)@.push(value),
            old(self)@.len() == N - 1 ==> r == Err::<(), BufferFullError>(BufferFullError(
                (N - 1) as usize,
            )) && *final(self) == *old(self),
    {
        let write = self.write;
        let read = self.read;
        let next_write = if write + 1 == N { 0 } else { write + 1 };
        proof {
            self.lemma_write_slot();
        }
        if next_write == read {
            return Err(BufferFullError(N - 1));
        }
        proof {
            lemma_slots_distinct(read as int, self@.len() as int, N as int);
        }
        self.buffer.set(write, Some(value));
        self.write = next_write;
        assert(self@ =~= old(self)@.push(value));
        Ok(())
    }

    /// Removes and returns the oldest item, or `None` when the queue is empty.
    pub fn pop_front(&mut self) -> (r: Option<T>)
        requires
            old(self).wf(),
        ensures
            final(self).wf(),
            old(self)@.len() == 0 ==> r is None && *final(self) == *old(self),
            old(self)@.len() > 0 ==> r == Some(old(self)@[0]) && final(self)@ == old(
                self,
            )@.drop_first(),
    {
        let read = self.read;
        let write = self.write;
        if read == write {
            return None;
        }
        let mut entry: Option<T> = None;
        proof {
            vstd::arithmetic::div_mod::lemma_small_mod(read as nat, N as nat);
            assert(self.buffer@[slot_of(read as int, 0, N as int)] is Some);
        }
        self.buffer.set_and_swap(read, &mut entry);
        self.read = if read + 1 == N { 0 } else { read + 1 };
        proof {
            let len = queue_len(self.read as int, self.write as int, N as int);
            assert(len == old(self)@.len() - 1);
            assert forall|i: int| 0 <= i < len implies #[trigger] slot_of(self.read as int, i, N as int)
                == slot_of(read as int, i + 1, N as int) by {
                lemma_slot_shift(read as int, i, N as int);
            }
            assert forall|i: int| 0 <= i < len implies #[trigger] slot_of(self.read as int, i, N as int)
                != read by {
                lemma_slots_distinct(read as int, i + 1, N as int);
                vstd::arithmetic::div_mod::lemma_small_mod(read as nat, N as nat);
            }
            assert forall|i: int| 0 <= i < len implies (#[trigger] self.buffer@[slot_of(
                self.read as int,
                i,
                N as int,
            )]) is Some by {
                assert(old(self).buffer@[slot_of(read as int, i + 1, N as int)] is Some);
            }
            assert(self@ =~= old(self)@.drop_first());
        }
        entry
    }

    /// Empties the queue by popping every item.
    pub fn clear(&mut self)
        requires
            old(self).wf(),
        ensures
            final(self).wf(),
            final(self)@ == Seq::<T>::empty(),
    {
        while self.pop_front().is_some()
            invariant
                self.wf(),
            decreases self@.len(),
        {
        }
    }

    /// A copy of the item at logical position `index` (0 is the oldest), or
    /// `None` when the queue holds no more than `index` items.
    pub fn peek(&self, index: usize) -> (r: Option<T>) where T: Copy
        requires
            self.wf(),
        ensures
            index < self@.len() ==> r == Some(self@[index as int]),
            index >= self@.len() ==> r is None,
    {
        if index >= self.len() {
            return None;
        }
        let read = self.read;
        let slot = if index < N - read { read + index } else { index - (N - read) };
        proof {
            lemma_slot_value(read as int, index as int, N as int);
        }
        let entry = self.buffer[slot].as_ref().unwrap();
        Some(*entry)
    }

    /// The number of items in the queue.
    pub fn len(&self) -> (r: usize)
        requires
            self.wf(),
        ensures
            r == self@.len(),
    {
        let read = self.read;
        let write = self.write;
        if write >= read {
            write - read
        } else {
            N - read + write
        }
    }
}

} // verus!
