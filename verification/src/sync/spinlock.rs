use vstd::prelude::*;

verus! {

/// A spinlock gives exclusive access to a value: while the lock is held it is
/// marked unavailable, and acquiring it again spins until it is released.
///
/// This is a sequential model: the flag is a plain `bool` reached through
/// `&mut self`, not an atomic, so exclusivity comes from the borrow that a
/// guard holds, not from the flag.
pub struct SpinLock<T> {
    value: T,
    available: bool,
}

impl<T> SpinLock<T> {
    /// The protected value.
    pub closed spec fn value(&self) -> T {
        self.value
    }

    /// Whether no guard currently holds the lock.
    pub closed spec fn is_available(&self) -> bool {
        self.available
    }

    /// Creates an unlocked spinlock around `value`.
    pub fn new(value: T) -> (r: Self)
        ensures
            r.value() == value,
            r.is_available(),
    {
        Self { value, available: true }
    }

    /// One compare-and-exchange step: takes the lock if it is available and
    /// reports whether it did.
    fn try_acquire(&mut self) -> (acquired: bool)
        ensures
            acquired == old(self).is_available(),
            !final(self).is_available(),
            final(self).value() == old(self).value(),
    {
        if self.available {
            self.available = false;
            true
        } else {
            false
        }
    }

    /// Acquires the lock, spinning until it is available, and returns the
    /// guard through which the value is reached. Holding `&mut self` means no
    /// other guard is alive, so the lock must be available here; were it not,
    /// the spin would never end.
    pub fn lock<'a>(&'a mut self) -> (guard: LockGuard<'a, T>)
        requires
            old(self).is_available(),
        ensures
            guard.holds(),
            guard.source().value() == old(self).value(),
            !guard.source().is_available(),
            *final(self) == *final(guard.source->0),
    {
        loop
            invariant_except_break
                self.is_available(),
                self.value() == old(self).value(),
            ensures
                !self.is_available(),
                self.value() == old(self).value(),
            decreases 1int,
        {
            if self.try_acquire() {
                break;
            }
        }
        LockGuard { source: Some(self) }
    }
}

/// Exclusive access to the value of a [`SpinLock`]; the lock becomes
/// available again when the guard is released or dropped.
pub struct LockGuard<'a, T> {
    /// The lock this guard holds; `None` once released.
    pub source: Option<&'a mut SpinLock<T>>,
}

impl<'a, T> LockGuard<'a, T> {
    /// The state of the held lock.
    pub closed spec fn source(&self) -> SpinLock<T> {
        *self.source->0
    }

    /// Whether the guard still holds its lock.
    pub closed spec fn holds(&self) -> bool {
        self.source is Some
    }

    /// The protected value.
    pub fn deref(&self) -> (r: &T)
        requires
            self.holds(),
        ensures
            *r == self.source().value(),
    {
        &self.source.as_ref().unwrap().value
    }

    /// Mutable access to the protected value.
    pub fn deref_mut(&mut self) -> (r: &mut T)
        requires
            old(self).holds(),
        ensures
            final(self).holds(),
            *r == old(self).source().value(),
            final(self).source().value() == *final(r),
            final(self).source().is_available() == old(self).source().is_available(),
            *final(final(self).source->0) == *final(old(self).source->0),
    {
        &mut self.source.as_mut().unwrap().value
    }

    /// Releases the lock, keeping the value as the guard left it.
    pub fn release(self)
        requires
            self.holds(),
        ensures
            final(self.source->0).value() == self.source().value(),
            final(self.source->0).is_available(),
    {
        let mut guard = self;
        let source = guard.source.take().unwrap();
        source.available = true;
    }
}

impl<'a, T> Drop for LockGuard<'a, T> {
    /// A guard that goes out of scope releases the lock.
    fn drop(&mut self)
        opens_invariants none
        no_unwind
    {
        match &mut self.source {
            Some(source) => {
                source.available = true;
            },
            None => {},
        }
    }
}

} // verus!
