use minikernel::spin::{SpinMutex, Spinlock};

#[test]
fn exactly_one_acquirer_proceeds() {
    let mut lock = Spinlock::new();
    let guard = lock.lock();
    // while the lock is held, every further attempt fails
    assert!(!lock.try_lock());
    assert!(!lock.try_lock());
    lock.unlock(guard);
    // a release unblocks the next acquirer
    assert!(lock.try_lock());
}

#[test]
fn fresh_lock_admits_first_attempt() {
    let mut lock = Spinlock::new();
    assert!(lock.try_lock());
    assert!(!lock.try_lock());
}

#[test]
fn mutex_guards_its_value() {
    let mut mutex = SpinMutex::new(5u32);
    let guard = mutex.lock();
    assert_eq!(*mutex.borrow(), 5);
    *mutex.borrow_mut() = 6;
    mutex.unlock(guard);
    let guard = mutex.lock();
    assert_eq!(*mutex.borrow(), 6);
    mutex.unlock(guard);
}
