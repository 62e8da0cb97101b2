use libkernel::sync::spinlock::SpinLock;

#[test]
fn lock_gives_access_and_release_keeps_the_value() {
    let mut lock = SpinLock::new(5u32);
    {
        let mut guard = lock.lock();
        assert_eq!(5, *guard.deref());
        *guard.deref_mut() = 9;
        assert_eq!(9, *guard.deref());
        guard.release();
    }
    let guard = lock.lock();
    assert_eq!(9, *guard.deref());
    guard.release();
}

#[test]
fn dropping_the_guard_releases_the_lock() {
    let mut lock = SpinLock::new(1u32);
    {
        let mut guard = lock.lock();
        *guard.deref_mut() = 2;
    }
    let guard = lock.lock();
    assert_eq!(2, *guard.deref());
}
