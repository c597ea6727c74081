//! Scoped save/disable/restore of a CPU's interrupt-enable state.
//!
//! The platform layer is a narrow capability set of three operations over the
//! CPU's interrupt-enable state: `get_flag` snapshots it as an opaque word,
//! `disable` masks maskable interrupts, and `set_flag` writes a snapshot
//! back. The state itself is hardware that a verifier cannot observe, so each
//! architecture models it as a value (`x86_64::InterruptState` and friends),
//! and the three operations are verified transitions on that value.
//!
//! `restore` is not `enable`: writing back a snapshot that meant "disabled"
//! must leave interrupts disabled. That is what makes guards nest.

use vstd::prelude::*;

pub mod aarch64;
pub mod rv64;
pub mod x86_64;

verus! {

/// The platform capability the guard needs: snapshot, disable, restore.
///
/// `flag_enabled` gives the meaning of a snapshot word under this platform's
/// encoding; it is the link that makes `get_flag` followed later by
/// `set_flag` a round trip.
pub trait InterruptControl: Sized {
    /// Whether maskable interrupts are currently enabled.
    spec fn int_enabled(&self) -> bool;

    /// Whether a saved flag word denotes the enabled state.
    spec fn flag_enabled(flag: usize) -> bool;

    /// Snapshots the current enable state as an opaque word.
    fn get_flag(&self) -> (flag: usize)
        ensures
            Self::flag_enabled(flag) == self.int_enabled(),
    ;

    /// Masks maskable interrupts on the current CPU. Idempotent.
    fn disable(&mut self)
        ensures
            !final(self).int_enabled(),
    ;

    /// Sets the enable state to exactly what the snapshot `flag` recorded.
    fn set_flag(&mut self, flag: usize)
        ensures
            final(self).int_enabled() == Self::flag_enabled(flag),
    ;
}

/// Disables interrupts on construction and restores the saved configuration
/// on `restore`, the scoped end of the guard's life.
pub struct InterruptGuard {
    flag: usize,
}

impl InterruptGuard {
    /// The snapshot taken when the guard was created.
    pub closed spec fn saved_flag(&self) -> usize {
        self.flag
    }

    /// Snapshots the enable state, then disables interrupts. While the guard
    /// lives, interrupts stay disabled unless the holder intervenes.
    pub fn new<P: InterruptControl>(platform: &mut P) -> (guard: InterruptGuard)
        ensures
            !final(platform).int_enabled(),
            P::flag_enabled(guard.saved_flag()) == old(platform).int_enabled(),
    {
        let flag = platform.get_flag();
        platform.disable();
        InterruptGuard { flag }
    }

    /// Writes the snapshot back: the enable state returns to exactly what it
    /// was when the guard was created. An inner guard's snapshot was taken
    /// with interrupts already disabled, so restoring it keeps them disabled.
    pub fn restore<P: InterruptControl>(self, platform: &mut P)
        ensures
            final(platform).int_enabled() == P::flag_enabled(self.saved_flag()),
    {
        platform.set_flag(self.flag);
    }
}

/// The guard discipline over the enable bit alone: creation leaves interrupts
/// disabled, restoration brings back the saved state.
pub open spec fn guard_disable(enabled: bool) -> (bool, bool) {
    (false, enabled)
}

/// Restoring a snapshot makes its recorded state current again.
pub open spec fn guard_restore(enabled: bool, saved: bool) -> bool {
    saved
}

/// Nested guards: taking guard A then guard B, dropping B leaves interrupts
/// disabled (B's snapshot was taken under A), and dropping A restores the
/// state from before A, whatever it was.
pub proof fn lemma_nested_guards(e0: bool)
    ensures
        ({
            let (e1, saved_a) = guard_disable(e0);
            let (e2, saved_b) = guard_disable(e1);
            let e3 = guard_restore(e2, saved_b);
            let e4 = guard_restore(e3, saved_a);
            &&& !e1
            &&& !e2
            &&& !e3
            &&& e4 == e0
        }),
{
}

/// Round trip of the interrupt state: snapshot, disable, restore returns the
/// enable state to its starting value, for all starting states.
pub proof fn lemma_flag_round_trip(e0: bool)
    ensures
        ({
            let (e1, saved) = guard_disable(e0);
            guard_restore(e1, saved) == e0
        }),
{
}

} // verus!
