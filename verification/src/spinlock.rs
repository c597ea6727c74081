//! A single-bit test-and-test-and-set spinlock with guarded access.
//!
//! The lock owns one boolean lock word and the protected value. Its
//! invariant: the lock word is true exactly while a guard is outstanding.
//! Acquisition happens under an interrupt guard; on the failing `try_lock`
//! path the interrupt guard is dropped again, so interrupts come back to
//! their pre-call state between attempts. Release stores the lock word
//! false first and only then restores interrupts.
//!
//! The concurrent acquisition loop reads the lock word before attempting
//! the swap; `ttas_should_attempt` is that decision. The swap itself, on a
//! word other CPUs write concurrently, is modelled by the transition system
//! at the end of this file, whose invariant shows mutual exclusion.

use vstd::prelude::*;
use crate::interrupt_guard::{InterruptControl, InterruptGuard};

verus! {

/// A test-and-test-and-set lock protecting one value.
pub struct SpinLock<T> {
    lock_var: bool,
    data: T,
}

/// Ownership token for one acquisition. Bundles the interrupt guard taken
/// before the lock word was swapped; releasing hands it back.
pub struct SpinLockGuard {
    int_guard: InterruptGuard,
}

impl SpinLockGuard {
    /// The interrupt snapshot taken when the lock was acquired.
    pub closed spec fn saved_flag(&self) -> usize {
        self.int_guard.saved_flag()
    }
}

impl<T> SpinLock<T> {
    /// Whether the lock word is set: true exactly while a guard exists.
    pub closed spec fn locked(&self) -> bool {
        self.lock_var
    }

    /// The protected value.
    pub closed spec fn value(&self) -> T {
        self.data
    }

    /// A new, unheld lock around `v`.
    pub fn new(v: T) -> (lock: Self)
        ensures
            !lock.locked(),
            lock.value() == v,
    {
        SpinLock { lock_var: false, data: v }
    }

    /// One acquisition attempt: under an interrupt guard, swap the lock word
    /// from false to true. Succeeds exactly when the lock was free; on
    /// failure the interrupt guard is dropped again, so the enable state is
    /// back to what it was before the call.
    pub fn try_lock<P: InterruptControl>(&mut self, platform: &mut P) -> (r: Option<
        SpinLockGuard,
    >)
        ensures
            final(self).value() == old(self).value(),
            r is Some <==> !old(self).locked(),
            final(self).locked(),
            !old(self).locked() ==> !final(platform).int_enabled() && P::flag_enabled(
                r->0.saved_flag(),
            ) == old(platform).int_enabled(),
            old(self).locked() ==> final(platform).int_enabled() == old(
                platform,
            ).int_enabled(),
    {
        let int_guard = InterruptGuard::new(platform);
        if !self.lock_var {
            self.lock_var = true;
            Some(SpinLockGuard { int_guard })
        } else {
            int_guard.restore(platform);
            None
        }
    }

    /// Acquires the lock. The test-and-test-and-set loop keeps attempting
    /// until its swap wins; in a single flow of control a held lock can
    /// never be freed by anyone else, so the caller must not already hold
    /// it, and the first attempt wins.
    pub fn lock<P: InterruptControl>(&mut self, platform: &mut P) -> (guard: SpinLockGuard)
        requires
            !old(self).locked(),
        ensures
            final(self).locked(),
            final(self).value() == old(self).value(),
            !final(platform).int_enabled(),
            P::flag_enabled(guard.saved_flag()) == old(platform).int_enabled(),
    {
        let int_guard = InterruptGuard::new(platform);
        self.lock_var = true;
        SpinLockGuard { int_guard }
    }

    /// Releases the lock: stores the lock word false first, then restores
    /// the interrupt state saved at acquisition, in that order.
    pub fn unlock<P: InterruptControl>(&mut self, guard: SpinLockGuard, platform: &mut P)
        requires
            old(self).locked(),
        ensures
            !final(self).locked(),
            final(self).value() == old(self).value(),
            final(platform).int_enabled() == P::flag_enabled(guard.saved_flag()),
    {
        self.lock_var = false;
        guard.int_guard.restore(platform);
    }

    /// Whether the lock word is set, as a diagnostic observation.
    pub fn is_locked(&self) -> (r: bool)
        ensures
            r == self.locked(),
    {
        self.lock_var
    }

    /// Read access to the protected value for a guard holder.
    pub fn data<'a>(&'a self, _guard: &'a SpinLockGuard) -> (r: &'a T)
        requires
            self.locked(),
        ensures
            *r == self.value(),
    {
        &self.data
    }

    /// Exclusive access to the protected value for a guard holder.
    pub fn data_mut<'a>(&'a mut self, _guard: &'a SpinLockGuard) -> (r: &'a mut T)
        requires
            old(self).locked(),
        ensures
            *r == old(self).value(),
            final(self).value() == *final(r),
            final(self).locked(),
    {
        &mut self.data
    }
}

/// The test step of the test-and-test-and-set loop: attempt the swap only
/// when the lock word was observed free; otherwise re-read.
pub fn ttas_should_attempt(observed: bool) -> (attempt: bool)
    ensures
        attempt == !observed,
{
    !observed
}

/// The lock word as the other CPUs see it, with a count of the guards that
/// are outstanding against it.
pub struct SpinState {
    pub locked: bool,
    pub holders: nat,
}

/// The invariant tying the lock word to the guards: the word is set exactly
/// while one guard exists, and never more than one exists.
pub open spec fn spin_inv(s: SpinState) -> bool {
    s.holders == if s.locked {
        1nat
    } else {
        0nat
    }
}

/// A winning swap: only enabled on a free lock word.
pub open spec fn spin_acquire(s: SpinState) -> SpinState {
    SpinState { locked: true, holders: s.holders + 1 }
}

/// A release: the holder clears the word.
pub open spec fn spin_release(s: SpinState) -> SpinState {
    SpinState { locked: false, holders: (s.holders - 1) as nat }
}

/// Mutual exclusion of the test-and-test-and-set protocol: from any state
/// satisfying the invariant, a swap wins only while no guard exists, both
/// transitions preserve the invariant, and under the invariant there is
/// never more than one guard.
pub proof fn lemma_spin_mutual_exclusion(s: SpinState)
    requires
        spin_inv(s),
    ensures
        !s.locked ==> s.holders == 0,
        !s.locked ==> spin_inv(spin_acquire(s)),
        s.locked ==> spin_inv(spin_release(s)),
        s.holders <= 1,
{
}

} // verus!
