//! Kernel-side synchronization primitives, modelled over plain values and
//! verified: an interrupt guard that saves, disables and restores the CPU's
//! interrupt-enable flag; a TTAS spinlock; an MCS queue lock; a reader-writer
//! lock with a writer-wakeup counter; a mutex facade; a monitor-wait support
//! probe; and a voluntary-preemption hook cell.
//!
//! The hardware itself (interrupt controller registers, atomic cells shared
//! between CPUs, the monitor/park instructions) cannot be observed by a
//! verifier, so each primitive works on an explicit value that stands for the
//! hardware state: an interrupt flag word, a lock word, the reader-writer
//! state word. The acquisition protocols that, on real hardware, race against
//! other CPUs are modelled twice: as executable transitions on those state
//! words, and as small transition systems whose invariants (mutual exclusion,
//! FIFO ordering, no lost wakeup) are proved as lemmas.

use vstd::prelude::*;

pub mod interrupt_guard;
pub mod mcs;
pub mod mutex;
pub mod mwait;
pub mod rwlock;
pub mod spinlock;

verus! {

/// The voluntary-preemption hook: one cell holding an installable function,
/// called at designated yield points. The default is the no-op sentinel,
/// modelled as `None`.
pub struct PreemptionCell<F> {
    hook: Option<F>,
}

impl<F: Fn()> PreemptionCell<F> {
    /// What the cell holds; `None` is the no-op sentinel.
    pub closed spec fn hook(&self) -> Option<F> {
        self.hook
    }

    /// A cell with the no-op sentinel installed.
    pub fn new() -> (cell: Self)
        ensures
            cell.hook() is None,
    {
        PreemptionCell { hook: None }
    }
}

/// Installs `f` as the voluntary-preemption function. Later calls of
/// `voluntary_preemption` on the same cell invoke `f`.
pub fn set_voluntary_preemption_fn<F: Fn()>(cell: &mut PreemptionCell<F>, f: F)
    ensures
        final(cell).hook() == Some(f),
{
    cell.hook = Some(f);
}

/// Invokes the installed hook, or does nothing while the no-op sentinel is
/// still in place.
pub fn voluntary_preemption<F: Fn()>(cell: &PreemptionCell<F>)
    requires
        cell.hook() is Some ==> call_requires(cell.hook()->0, ()),
    ensures
        cell.hook() is Some ==> call_ensures(cell.hook()->0, (), ()),
{
    match &cell.hook {
        Some(f) => f(),
        None => (),
    }
}

} // verus!
