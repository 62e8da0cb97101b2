use vstd::prelude::*;

verus! {

/// A fixed-capacity FIFO ring buffer holding at most `N` items.
///
/// The items live in `N` slots; the oldest item sits in slot `head` and the
/// item at logical position `i` in slot `(head + i) % N`.
pub struct RingBuffer<T, const N: usize> {
    buffer: Vec<Option<T>>,
    length: usize,
    head: usize,
}

/// Returned by [`RingBuffer::push_back`] when the buffer already holds `N` items;
/// carries the capacity.
#[derive(Debug, Clone, Copy, PartialEq, Eq, Structural)]
pub struct BufferFullError(pub usize);

/// The slot of logical position `i` for a buffer whose oldest item is in slot `head`.
pub open spec fn slot_of(head: int, i: int, n: int) -> int {
    (head + i) % n
}

impl<T, const N: usize> RingBuffer<T, N> {
    /// The buffer's internal invariant: `N` slots, at most `N` items, and every
    /// slot between the head and the end of the items is filled.
    pub closed spec fn wf(&self) -> bool {
        &&& self.buffer@.len() == N
        &&& self.length <= N
        &&& (N == 0 ==> self.head == 0)
        &&& (N > 0 ==> self.head < N)
        &&& forall|i: int|
            0 <= i < self.length ==> (#[trigger] self.buffer@[slot_of(
                self.head as int,
                i,
                N as int,
            )]) is Some
    }

    /// The items in the buffer, oldest first.
    pub closed spec fn view(&self) -> Seq<T> {
        Seq::new(
            self.length as nat,
            |i: int| self.buffer@[slot_of(self.head as int, i, N as int)]->0,
        )
    }

    /// What reading logical position `position` gives: a reference to the
    /// item there, or `None` past the newest item.
    pub open spec fn item_at(&self, position: int) -> Option<&T> {
        if 0 <= position < self@.len() {
            Some(&self@[position])
        } else {
            None
        }
    }

    /// What the first `count` calls of an iterator over the buffer yield.
    pub open spec fn iteration(&self, count: nat) -> Seq<Option<&T>> {
        Seq::new(count, |position: int| self.item_at(position))
    }

    /// A well-formed buffer never holds more than `N` items.
    pub proof fn lemma_len_at_most_capacity(&self)
        requires
            self.wf(),
        ensures
            self@.len() <= N,
    {
    }

    /// Creates an empty buffer.
    pub fn new() -> (r: Self)
        ensures
            r.wf(),
            r@ == Seq::<T>::empty(),
    {
        let mut buffer: Vec<Option<T>> = Vec::new();
        let mut i: usize = 0;
        while i < N
            invariant
                i <= N,
                buffer@.len() == i,
            decreases N - i,
        {
            buffer.push(None);
            i = i + 1;
        }
        let r = Self { buffer, length: 0, head: 0 };
        assert(r@ =~= Seq::<T>::empty());
        r
    }

    /// The number of items in the buffer.
    pub fn len(&self) -> (r: usize)
        requires
            self.wf(),
        ensures
            r == self@.len(),
    {
        self.length
    }

    /// Whether the buffer holds `N` items.
    pub fn is_full(&self) -> (r: bool)
        requires
            self.wf(),
        ensures
            r == (self@.len() == N),
    {
        self.length == N
    }

    /// Whether the buffer holds no item.
    pub fn is_empty(&self) -> (r: bool)
        requires
            self.wf(),
        ensures
            r == (self@.len() == 0),
    {
        self.length == 0
    }

    /// The slot holding the item at logical position `index`.
    fn buffer_idx(&self, index: usize) -> (r: usize)
        requires
            self.wf(),
            index < N,
        ensures
            r == slot_of(self.head as int, index as int, N as int),
            r < N,
    {
        if index < N - self.head {
            proof {
                vstd::arithmetic::div_mod::lemma_small_mod((self.head + index) as nat, N as nat);
            }
            self.head + index
        } else {
            proof {
                vstd::arithmetic::div_mod::lemma_mod_sub_multiples_vanish(
                    (self.head + index) as int,
                    N as int,
                );
                vstd::arithmetic::div_mod::lemma_small_mod(
                    (self.head + index - N) as nat,
                    N as nat,
                );
            }
            index - (N - self.head)
        }
    }

    /// Appends `value` behind the newest item, or returns the capacity as an
    /// error when the buffer is full (and leaves it unchanged).
    pub fn push_back(&mut self, value: T) -> (r: Result<(), BufferFullError>)
        requires
            old(self).wf(),
        ensures
            final(self).wf(),
            old(self)@.len() < N ==> r is Ok && final(self)@ == old(self)@.push(value),
            old(self)@.len() == N ==> r == Err::<(), BufferFullError>(BufferFullError(N))
                && *final(self) == *old(self),
    {
        if self.is_full() {
            return Err(BufferFullError(N));
        }
        let buffer_idx = self.buffer_idx(self.length);
        proof {
            lemma_slots_distinct(self.head as int, self.length as int, N as int);
        }
        self.buffer.set(buffer_idx, Some(value));
        self.length = self.length + 1;
        assert(self@ =~= old(self)@.push(value));
        Ok(())
    }

    /// Removes and returns the oldest item, or `None` when the buffer is empty.
    pub fn pop_front(&mut self) -> (r: Option<T>)
        requires
            old(self).wf(),
        ensures
            final(self).wf(),
            old(self)@.len() == 0 ==> r is None && *final(self) == *old(self),
            old(self)@.len() > 0 ==> r == Some(old(self)@[0]) && final(self)@ == old(self)@.drop_first(),
    {
        if self.is_empty() {
            return None;
        }
        let mut entry: Option<T> = None;
        let head = self.head;
        proof {
            vstd::arithmetic::div_mod::lemma_small_mod(head as nat, N as nat);
            assert(self.buffer@[slot_of(head as int, 0, N as int)] is Some);
        }
        self.buffer.set_and_swap(head, &mut entry);
        self.head = if head + 1 == N { 0 } else { head + 1 };
        self.length = self.length - 1;
        proof {
            assert forall|i: int| 0 <= i < self.length implies #[trigger] slot_of(self.head as int, i, N as int)
                == slot_of(head as int, i + 1, N as int) by {
                lemma_slot_shift(head as int, i, N as int);
            }
            assert forall|i: int| 0 <= i < self.length implies #[trigger] slot_of(self.head as int, i, N as int)
                != head by {
                lemma_slots_distinct(head as int, i + 1, N as int);
                vstd::arithmetic::div_mod::lemma_small_mod(head as nat, N as nat);
            }
            assert forall|i: int| 0 <= i < self.length implies (#[trigger] self.buffer@[slot_of(
                self.head as int,
                i,
                N as int,
            )]) is Some by {
                assert(old(self).buffer@[slot_of(head as int, i + 1, N as int)] is Some);
            }
            assert(self@ =~= old(self)@.drop_first());
        }
        entry
    }

    /// Empties the buffer by popping every item.
    pub fn clear(&mut self)
        requires
            old(self).wf(),
        ensures
            final(self).wf(),
            final(self)@ == Seq::<T>::empty(),
    {
        while self.pop_front().is_some()
            invariant
                self.wf(),
            decreases self@.len(),
        {
        }
    }

    /// A reference to the item at logical position `index` (0 is the oldest),
    /// or `None` when `index` is not below the number of items.
    pub fn get(&self, index: usize) -> (r: Option<&T>)
        requires
            self.wf(),
        ensures
            r == self.item_at(index as int),
            index < self@.len() ==> r == Some(&self@[index as int]),
            index >= self@.len() ==> r is None,
    {
        if index >= self.length {
            return None;
        }
        let buffer_idx = self.buffer_idx(index);
        self.buffer[buffer_idx].as_ref()
    }

    /// The item at logical position `index`; `index` must be below the number of items.
    pub fn index(&self, index: usize) -> (r: &T)
        requires
            self.wf(),
            index < self@.len(),
        ensures
            *r == self@[index as int],
    {
        let buffer_idx = self.buffer_idx(index);
        self.buffer[buffer_idx].as_ref().unwrap()
    }

    /// An iterator over the items, oldest first.
    pub fn iter<'a>(&'a self) -> (r: RingBufferIterator<'a, T, N>)
        requires
            self.wf(),
        ensures
            r.source() == *self,
            r.position() == 0,
    {
        RingBufferIterator { buffer: self, index: 0 }
    }
}

/// Iterating a buffer yields every item it holds, oldest first, then
/// `None` at every later call: of any `count` calls from the start (at
/// least as many as the items), the first `len` give the items in order and
/// the rest give `None`. The buffer holds at most `N` items, is full exactly
/// at `N` and empty exactly at 0.
pub proof fn law_iteration_yields_items<T, const N: usize>(buffer: &RingBuffer<T, N>, count: nat)
    requires
        buffer.wf(),
        count >= buffer@.len(),
    ensures
        buffer@.len() <= N,
        buffer.iteration(count) == Seq::new(buffer@.len(), |i: int| Some(&buffer@[i])) + Seq::new(
            (count - buffer@.len()) as nat,
            |i: int| None::<&T>,
        ),
        forall|position: int|
            0 <= position ==> (#[trigger] buffer.item_at(position) is Some <==> position
                < buffer@.len()),
{
    assert(buffer.iteration(count) =~= Seq::new(buffer@.len(), |i: int| Some(&buffer@[i])) + Seq::new(
        (count - buffer@.len()) as nat,
        |i: int| None::<&T>,
    ));
}

/// Iterates over the items of a [`RingBuffer`], oldest first.
pub struct RingBufferIterator<'a, T, const N: usize> {
    buffer: &'a RingBuffer<T, N>,
    index: usize,
}

impl<'a, T, const N: usize> RingBufferIterator<'a, T, N> {
    /// The buffer being iterated.
    pub closed spec fn source(&self) -> RingBuffer<T, N> {
        *self.buffer
    }

    /// How many times `next` has been called.
    pub closed spec fn position(&self) -> nat {
        self.index as nat
    }

    /// Yields the item at the current position and advances, or `None` once
    /// every item has been yielded.
    pub fn next(&mut self) -> (r: Option<&'a T>)
        requires
            old(self).source().wf(),
            old(self).position() < usize::MAX,
        ensures
            final(self).source() == old(self).source(),
            final(self).position() == old(self).position() + 1,
            r == old(self).source().item_at(old(self).position() as int),
            old(self).position() < old(self).source()@.len() ==> r == Some(
                &old(self).source()@[old(self).position() as int],
            ),
            old(self).position() >= old(self).source()@.len() ==> r is None,
    {
        self.index = self.index + 1;
        self.buffer.get(self.index - 1)
    }
}

/// Logical positions `0..n` of a buffer occupy pairwise distinct slots; in
/// particular position `len` (the next free one) differs from all earlier ones.
pub(crate) proof fn lemma_slots_distinct(head: int, len: int, n: int)
    requires
        0 <= head < n,
        0 <= len < n,
    ensures
        forall|i: int| 0 <= i < len ==> slot_of(head, i, n) != slot_of(head, len, n),
{
    assert forall|i: int| 0 <= i < len implies slot_of(head, i, n) != slot_of(head, len, n) by {
        lemma_slot_value(head, i, n);
        lemma_slot_value(head, len, n);
    }
}

/// The slot of position `i < n` is `head + i` without wrap-around, `head + i - n` with it.
pub(crate) proof fn lemma_slot_value(head: int, i: int, n: int)
    requires
        0 <= head < n,
        0 <= i < n,
    ensures
        head + i < n ==> slot_of(head, i, n) == head + i,
        head + i >= n ==> slot_of(head, i, n) == head + i - n,
{
    if head + i < n {
        vstd::arithmetic::div_mod::lemma_small_mod((head + i) as nat, n as nat);
    } else {
        vstd::arithmetic::div_mod::lemma_mod_sub_multiples_vanish(head + i, n);
        vstd::arithmetic::div_mod::lemma_small_mod((head + i - n) as nat, n as nat);
    }
}

/// Advancing the head by one slot shifts every logical position down by one.
pub(crate) proof fn lemma_slot_shift(head: int, i: int, n: int)
    requires
        0 <= head < n,
        0 <= i,
    ensures
        slot_of(if head + 1 == n { 0 } else { head + 1 }, i, n) == slot_of(head, i + 1, n),
{
    if head + 1 == n {
        vstd::arithmetic::div_mod::lemma_mod_sub_multiples_vanish(head + i + 1, n);
    }
}

} // verus!
