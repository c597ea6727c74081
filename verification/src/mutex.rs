//! The mutex facade: one mutual-exclusion API over a build-selected
//! backing.
//!
//! The policy picks one of the MCS queue lock (the default, used here),
//! the spinlock, or a host-provided primitive when a full operating system
//! is underneath — the host fallback is outside the design contract and is
//! simply injected by the host around this same API. Every backing accepts
//! the caller's queue-node parameter so that call sites read the same
//! whatever the policy; a non-queue backing ignores it.

use vstd::prelude::*;
use crate::interrupt_guard::InterruptControl;
use crate::mcs::{MCSLock, MCSLockGuard};

pub use crate::mcs::MCSNode;

verus! {

/// A mutual exclusion primitive protecting one value, backed by the
/// selected lock.
pub struct Mutex<T> {
    mutex: MCSLock<T>,
}

/// Ownership token for one acquisition of the facade.
pub struct LockGuard {
    guard: MCSLockGuard,
}

impl LockGuard {
    /// The interrupt snapshot taken when the lock was acquired.
    pub closed spec fn saved_flag(&self) -> usize {
        self.guard.saved_flag()
    }
}

impl<T> Mutex<T> {
    /// Whether some acquirer holds or waits on the backing lock.
    pub closed spec fn held(&self) -> bool {
        self.mutex.held()
    }

    /// The protected value.
    pub closed spec fn value(&self) -> T {
        self.mutex.value()
    }

    /// A new, unheld mutex around `v`.
    pub fn new(v: T) -> (m: Self)
        ensures
            !m.held(),
            m.value() == v,
    {
        Mutex { mutex: MCSLock::new(v) }
    }

    /// Acquires the mutex; `node` is the caller's queue node, ignored by
    /// non-queue backings.
    pub fn lock<P: InterruptControl>(
        &mut self,
        node: &mut MCSNode,
        platform: &mut P,
    ) -> (guard: LockGuard)
        requires
            !old(self).held(),
        ensures
            final(self).held(),
            final(self).value() == old(self).value(),
            final(node).is_initial(),
            !final(platform).int_enabled(),
            P::flag_enabled(guard.saved_flag()) == old(platform).int_enabled(),
    {
        let guard = self.mutex.lock(node, platform);
        LockGuard { guard }
    }

    /// One acquisition attempt: succeeds exactly when the mutex was free.
    /// On failure the interrupt state is back to what it was before the
    /// call, and the caller's node is back in its initial state.
    pub fn try_lock<P: InterruptControl>(
        &mut self,
        node: &mut MCSNode,
        platform: &mut P,
    ) -> (r: Option<LockGuard>)
        ensures
            final(self).value() == old(self).value(),
            r is Some <==> !old(self).held(),
            final(self).held(),
            final(node).is_initial(),
            !old(self).held() ==> !final(platform).int_enabled() && P::flag_enabled(
                r->0.saved_flag(),
            ) == old(platform).int_enabled(),
            old(self).held() ==> final(platform).int_enabled() == old(
                platform,
            ).int_enabled(),
    {
        match self.mutex.try_lock(node, platform) {
            Some(guard) => Some(LockGuard { guard }),
            None => None,
        }
    }

    /// Releases the mutex: the backing lock's release protocol runs first,
    /// then interrupts are restored.
    pub fn unlock<P: InterruptControl>(
        &mut self,
        guard: LockGuard,
        node: &mut MCSNode,
        platform: &mut P,
    )
        requires
            old(self).held(),
            !old(node).has_successor(),
        ensures
            !final(self).held(),
            final(self).value() == old(self).value(),
            *final(node) == *old(node),
            final(platform).int_enabled() == P::flag_enabled(guard.saved_flag()),
    {
        self.mutex.unlock(guard.guard, node, platform);
    }

    /// Read access to the protected value for the guard holder.
    pub fn data<'a>(&'a self, guard: &'a LockGuard) -> (r: &'a T)
        requires
            self.held(),
        ensures
            *r == self.value(),
    {
        self.mutex.data(&guard.guard)
    }

    /// Exclusive access to the protected value for the guard holder.
    pub fn data_mut<'a>(&'a mut self, guard: &'a LockGuard) -> (r: &'a mut T)
        requires
            old(self).held(),
        ensures
            *r == old(self).value(),
            final(self).value() == *final(r),
            final(self).held(),
    {
        self.mutex.data_mut(&guard.guard)
    }
}

} // verus!
