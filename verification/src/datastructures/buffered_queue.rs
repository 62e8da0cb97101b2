use vstd::prelude::*;
use vstd::std_specs::iter::IteratorSpec;

verus! {

/// A fixed-capacity FIFO queue holding at most `N` items, stored contiguously
/// from the oldest to the newest.
pub struct BufferedQueue<T: Sized, const N: usize> {
    buffer: Vec<T>,
}

/// Returned by [`BufferedQueue::push`] when the queue already holds `N` items.
#[derive(Debug, Clone, Copy, PartialEq, Eq, Structural)]
pub struct BufferFullError;

impl<T, const N: usize> BufferedQueue<T, N> where T: Sized {
    /// The queue's internal invariant: at most `N` items.
    pub closed spec fn wf(&self) -> bool {
        self.buffer@.len() <= N
    }

    /// The items in the queue, oldest first.
    pub closed spec fn view(&self) -> Seq<T> {
        self.buffer@
    }

    /// A well-formed queue never holds more than `N` items.
    pub proof fn lemma_len_at_most_capacity(&self)
        requires
            self.wf(),
        ensures
            self@.len() <= N,
    {
    }

    /// Creates an empty queue.
    pub fn new() -> (r: Self) where T: Copy
        ensures
            r.wf(),
            r@ == Seq::<T>::empty(),
    {
        Self { buffer: Vec::with_capacity(N) }
    }

    /// Appends `value` behind the newest item, or returns [`BufferFullError`]
    /// when the queue is full (and leaves it unchanged).
    pub fn push(&mut self, value: T) -> (r: Result<(), BufferFullError>)
        requires
            old(self).wf(),
        ensures
            final(self).wf(),
            old(self)@.len() < N ==> r is Ok && final(self)@ == old(self)@.push(value),
            old(self)@.len() == N ==> r == Err::<(), BufferFullError>(BufferFullError)
                && *final(self) == *old(self),
    {
        if self.is_full() {
            Err(BufferFullError)
        } else {
            self.push_overwriting(value);
            Ok(())
        }
    }

    /// Appends `value` behind the newest item; when the queue is full the
    /// oldest item is removed first and returned. `N` must be positive.
    pub fn push_overwriting(&mut self, value: T) -> (r: Option<T>)
        requires
            old(self).wf(),
            N > 0,
        ensures
            final(self).wf(),
            old(self)@.len() < N ==> r is None && final(self)@ == old(self)@.push(value),
            old(self)@.len() == N ==> r == Some(old(self)@[0]) && final(self)@ == old(
                self,
            )@.drop_first().push(value),
    {
        let replaced: Option<T> = if self.is_full() {
            self.pop()
        } else {
            None
        };
        self.buffer.push(value);
        replaced
    }

    /// Removes and returns the oldest item, moving the others one place
    /// forward, or returns `None` when the queue is empty.
    pub fn pop(&mut self) -> (r: Option<T>)
        requires
            old(self).wf(),
        ensures
            final(self).wf(),
            old(self)@.len() == 0 ==> r is None && *final(self) == *old(self),
            old(self)@.len() > 0 ==> r == Some(old(self)@[0]) && final(self)@ == old(
                self,
            )@.drop_first(),
    {
        if self.is_empty() {
            return None;
        }
        let value = self.buffer.remove(0);
        assert(self@ =~= old(self)@.drop_first());
        Some(value)
    }

    /// The items as a slice, oldest first.
    pub fn as_slice(&self) -> (r: &[T])
        requires
            self.wf(),
        ensures
            r@ == self@,
    {
        self.buffer.as_slice()
    }

    /// An iterator over the items, oldest first: it yields a reference to
    /// each item in order, then `None`.
    pub fn iter(&self) -> (r: core::slice::Iter<'_, T>)
        requires
            self.wf(),
        ensures
            IteratorSpec::remaining(&r) == self@.as_ref(),
            IteratorSpec::initial_value_relation(&r, &r),
            IteratorSpec::decrease(&r) is Some,
            vstd::std_specs::slice::into_iter_elts(r) == self@,
    {
        let it = self.as_slice().iter();
        proof {
            broadcast use vstd::std_specs::slice::axiom_spec_slice_iter;
            assert(self@.as_ref().unref() =~= self@);
        }
        it
    }

    /// The number of items in the queue.
    pub fn len(&self) -> (r: usize)
        requires
            self.wf(),
        ensures
            r == self@.len(),
    {
        self.buffer.len()
    }

    /// Whether the queue holds no item.
    pub fn is_empty(&self) -> (r: bool)
        requires
            self.wf(),
        ensures
            r == (self@.len() == 0),
    {
        self.buffer.len() == 0
    }

    /// Whether the queue holds `N` items.
    pub fn is_full(&self) -> (r: bool)
        requires
            self.wf(),
        ensures
            r == (self@.len() == N),
    {
        self.buffer.len() == N
    }
}

} // verus!
