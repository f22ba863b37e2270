//! Busy-wait mutual exclusion, modelled at the level of its lock word.
//!
//! The hardware lock is one word holding 0 (free) or 1 (held) that is
//! taken with an atomic compare-and-swap.  Here the word is modelled
//! directly: `try_lock` is one compare-and-swap attempt, and the lemmas
//! below state the exclusion discipline — of any number of attempts on
//! a free lock exactly the first succeeds, attempts on a held lock all
//! fail, and a release lets the next attempt succeed.  The lock is not
//! re-entrant: acquiring a lock already held by the same thread of
//! control never returns, so the verified entry points demand a free
//! lock instead.

use vstd::prelude::*;

verus! {

/// A lock word: free or held.
pub struct Spinlock {
    locked: bool,
}

/// Witness that a `Spinlock` was acquired; hand it back to `unlock`.
pub struct SpinlockGuard {
    _private: (),
}

/// One compare-and-swap attempt succeeds exactly on a free lock word.
pub open spec fn attempt_succeeds(held: bool) -> bool {
    !held
}

/// After any compare-and-swap attempt the lock word is held: either the
/// attempt took it, or it was held already.
pub open spec fn after_attempt(held: bool) -> bool {
    true
}

/// How many of `attempts` consecutive compare-and-swap attempts on a
/// lock word succeed, with no release in between.
pub open spec fn success_count(held: bool, attempts: nat) -> nat
    decreases attempts,
{
    if attempts == 0 {
        0
    } else {
        (if attempt_succeeds(held) { 1nat } else { 0nat })
            + success_count(after_attempt(held), (attempts - 1) as nat)
    }
}

impl Spinlock {
    /// Whether the lock word is held.
    pub closed spec fn is_held(&self) -> bool {
        self.locked
    }

    /// A fresh, free lock.
    pub fn new() -> (r: Spinlock)
        ensures
            !r.is_held(),
    {
        Spinlock { locked: false }
    }

    /// One compare-and-swap attempt on the lock word: takes the lock
    /// exactly when it was free, and leaves it held either way.
    pub fn try_lock(&mut self) -> (acquired: bool)
        ensures
            acquired == attempt_succeeds(old(self).is_held()),
            final(self).is_held() == after_attempt(old(self).is_held()),
    {
        let was_free = !self.locked;
        self.locked = true;
        was_free
    }

    /// Acquires the lock.  On real hardware this spins until the word is
    /// free; a verified caller must not already hold it, since the spin
    /// would then never end.
    pub fn lock(&mut self) -> (guard: SpinlockGuard)
        requires
            !old(self).is_held(),
        ensures
            final(self).is_held(),
    {
        let _acquired = self.try_lock();
        SpinlockGuard { _private: () }
    }

    /// Releases the lock, consuming the guard that `lock` handed out.
    pub fn unlock(&mut self, guard: SpinlockGuard)
        requires
            old(self).is_held(),
        ensures
            !final(self).is_held(),
    {
        self.locked = false;
    }
}

/// Mutual exclusion: of any positive number of consecutive acquisition
/// attempts racing for a free lock, exactly one succeeds.
pub proof fn lemma_exactly_one_acquirer(attempts: nat)
    requires
        attempts >= 1,
    ensures
        success_count(false, attempts) == 1,
{
    lemma_held_lock_excludes((attempts - 1) as nat);
}

/// A held lock admits no acquirer: every attempt on it fails until it
/// is released.
pub proof fn lemma_held_lock_excludes(attempts: nat)
    ensures
        success_count(true, attempts) == 0,
    decreases attempts,
{
    if attempts > 0 {
        lemma_held_lock_excludes((attempts - 1) as nat);
    }
}

/// No permanent starvation: once the holder releases, the lock word is
/// free, and the next attempt on it succeeds.
pub proof fn lemma_release_unblocks()
    ensures
        attempt_succeeds(false),
{
}

/// A value guarded by a spinlock: the lock word plus the protected data.
pub struct SpinMutex<T> {
    lock: Spinlock,
    data: T,
}

/// Witness that a `SpinMutex` was acquired; hand it back to `unlock`.
pub struct SpinMutexGuard {
    _private: (),
}

impl<T> SpinMutex<T> {
    /// Whether the lock guarding the data is held.
    pub closed spec fn is_held(&self) -> bool {
        self.lock.is_held()
    }

    /// The protected value.
    pub closed spec fn inner(&self) -> T {
        self.data
    }

    /// Wraps a value in a free lock.
    pub fn new(data: T) -> (r: SpinMutex<T>)
        ensures
            !r.is_held(),
            r.inner() == data,
    {
        SpinMutex { lock: Spinlock::new(), data }
    }

    /// Acquires the lock guarding the data; see `Spinlock::lock` for why
    /// a verified caller must not hold it already.
    pub fn lock(&mut self) -> (guard: SpinMutexGuard)
        requires
            !old(self).is_held(),
        ensures
            final(self).is_held(),
            final(self).inner() == old(self).inner(),
    {
        let _guard = self.lock.lock();
        SpinMutexGuard { _private: () }
    }

    /// Releases the lock, consuming the guard.
    pub fn unlock(&mut self, guard: SpinMutexGuard)
        requires
            old(self).is_held(),
        ensures
            !final(self).is_held(),
            final(self).inner() == old(self).inner(),
    {
        self.lock.unlock(SpinlockGuard { _private: () });
    }

    /// Reads the protected value; only a holder of the lock may look.
    pub fn borrow(&self) -> (r: &T)
        requires
            self.is_held(),
        ensures
            *r == self.inner(),
    {
        &self.data
    }

    /// Mutable access to the protected value; only a holder of the lock
    /// may touch it.
    pub fn borrow_mut(&mut self) -> (r: &mut T)
        requires
            old(self).is_held(),
        ensures
            *r == old(self).inner(),
            final(self).inner() == *final(r),
            final(self).is_held(),
    {
        &mut self.data
    }
}

} // verus!
