//! Monitor-wait: park the current hardware thread until a watched memory
//! location changes, with a pause-spin fallback.
//!
//! Three waiters exist, all of the form "wait while the location equals a
//! value": a boolean equal to false, a word equal to a given value, and a
//! pointer equal to null. Whether the hardware monitor path may be used is
//! probed once per process and cached in a tri-state cell; `resolve_support`
//! is that policy, and its cache is monotonic: once resolved, later reads
//! never change the decision.
//!
//! The parked wait itself races against the store that flips the watched
//! location: the classic lost-wakeup hazard. The protocol re-checks the
//! location between arming the monitor and parking, and re-arms on every
//! iteration. The transition system in the second half of this file models
//! one waiter against an adversarial store and proves that the re-check
//! closes the race: a parked waiter whose predicate has flipped always has a
//! wakeup pending, and the waiter returns exactly when the watched value has
//! changed.

use vstd::prelude::*;

verus! {

/// The once-per-process probe cache: whether the hardware monitor may be
/// used. Starts unknown; the first waiter resolves it.
pub enum MwaitSupport {
    Unknown,
    Supported,
    Unsupported,
}

/// The probe policy: a resolved cache answers from memory; an unknown cache
/// takes the probe's verdict and remembers it.
pub open spec fn spec_resolve_support(cur: MwaitSupport, probe: bool) -> (MwaitSupport, bool) {
    match cur {
        MwaitSupport::Unknown => if probe {
            (MwaitSupport::Supported, true)
        } else {
            (MwaitSupport::Unsupported, false)
        },
        MwaitSupport::Supported => (MwaitSupport::Supported, true),
        MwaitSupport::Unsupported => (MwaitSupport::Unsupported, false),
    }
}

/// Resolves whether to take the monitor path: returns the new cache state
/// and the decision. `probe` is the platform's feature verdict, consulted
/// only on the first call.
pub fn resolve_support(cur: MwaitSupport, probe: bool) -> (r: (MwaitSupport, bool))
    ensures
        r == spec_resolve_support(cur, probe),
{
    match cur {
        MwaitSupport::Unknown => if probe {
            (MwaitSupport::Supported, true)
        } else {
            (MwaitSupport::Unsupported, false)
        },
        MwaitSupport::Supported => (MwaitSupport::Supported, true),
        MwaitSupport::Unsupported => (MwaitSupport::Unsupported, false),
    }
}

/// The cache is initialised once and then monotonic: resolving leaves no
/// unknown state behind, and re-resolving a resolved cache returns the same
/// state and decision whatever a later probe would say.
pub proof fn lemma_support_cache_stable(cur: MwaitSupport, probe: bool, later_probe: bool)
    ensures
        !(spec_resolve_support(cur, probe).0 is Unknown),
        spec_resolve_support(spec_resolve_support(cur, probe).0, later_probe)
            == spec_resolve_support(cur, probe),
{
}

/// Termination test of the boolean waiter: done exactly when the watched
/// value has become true.
pub fn false_wait_done(observed: bool) -> (done: bool)
    ensures
        done == observed,
{
    observed
}

/// Termination test of the word waiter: done exactly when the watched value
/// differs from the one waited on.
pub fn equal_wait_done(observed: usize, current: usize) -> (done: bool)
    ensures
        done == (observed != current),
{
    observed != current
}

/// Termination test of the pointer waiter: done exactly when the watched
/// pointer has become non-null.
pub fn null_wait_done<T>(observed: &Option<T>) -> (done: bool)
    ensures
        done == (observed is Some),
{
    match observed {
        Some(_) => true,
        None => false,
    }
}

/// Where the parked-wait protocol stands between steps: about to test the
/// predicate, monitor armed and about to re-test, parked, or returned.
pub enum WaiterPhase {
    Checking,
    Armed,
    Parked,
    Done,
}

/// One waiter against the watched location: the waiter's phase, the watched
/// boolean, and whether a store since the last arming has a wakeup pending.
pub struct MonitorWait {
    pub phase: WaiterPhase,
    pub value: bool,
    pub wake_pending: bool,
}

/// One step of the waiter. Checking tests the predicate and otherwise arms
/// the monitor (which resets any stale wakeup); Armed re-tests before
/// parking — the mandatory re-check; Parked returns to Checking once a
/// wakeup is pending, and stays parked otherwise; Done is final.
pub open spec fn waiter_step(w: MonitorWait) -> MonitorWait {
    match w.phase {
        WaiterPhase::Checking => if w.value {
            MonitorWait { phase: WaiterPhase::Done, ..w }
        } else {
            MonitorWait { phase: WaiterPhase::Armed, wake_pending: false, ..w }
        },
        WaiterPhase::Armed => if w.value {
            MonitorWait { phase: WaiterPhase::Done, ..w }
        } else {
            MonitorWait { phase: WaiterPhase::Parked, ..w }
        },
        WaiterPhase::Parked => if w.wake_pending {
            MonitorWait { phase: WaiterPhase::Checking, ..w }
        } else {
            w
        },
        WaiterPhase::Done => w,
    }
}

/// A spurious wakeup: a park may return at any time; the outer loop
/// re-checks.
pub open spec fn spurious_wake(w: MonitorWait) -> MonitorWait {
    if w.phase is Parked {
        MonitorWait { phase: WaiterPhase::Checking, ..w }
    } else {
        w
    }
}

/// The adversarial store: the predicate flips to true at an arbitrary
/// moment. The monitor guarantees that a store to the watched line after
/// arming leaves a wakeup pending.
pub open spec fn flip(w: MonitorWait) -> MonitorWait {
    MonitorWait {
        value: true,
        wake_pending: w.wake_pending || w.phase is Armed || w.phase is Parked,
        ..w
    }
}

/// What always holds of the protocol: a parked waiter whose predicate has
/// flipped has a wakeup pending — the lost-wakeup case is unreachable —
/// and a waiter only returns after the predicate has flipped.
pub open spec fn wait_inv(w: MonitorWait) -> bool {
    &&& w.phase is Parked && w.value ==> w.wake_pending
    &&& w.phase is Done ==> w.value
}

/// The invariant survives every interleaving: any waiter step, the store,
/// and a spurious wakeup each preserve it.
pub proof fn lemma_wait_inv_preserved(w: MonitorWait)
    requires
        wait_inv(w),
    ensures
        wait_inv(waiter_step(w)),
        wait_inv(flip(w)),
        wait_inv(spurious_wake(w)),
{
}

/// No lost wakeup, and no early return: once the predicate has flipped, the
/// waiter is never stuck parked and reaches Done within three of its own
/// steps, wherever the flip caught it — including during arming; and
/// conversely a waiter that has returned saw the predicate flip.
pub proof fn lemma_wait_returns_iff_flipped(w: MonitorWait)
    requires
        wait_inv(w),
    ensures
        w.value ==> waiter_step(waiter_step(waiter_step(w))).phase is Done,
        w.phase is Done ==> w.value,
{
}

} // verus!
