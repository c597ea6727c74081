//! An MCS queue lock: FIFO, cache-friendly, with a per-caller queue node.
//!
//! Each acquirer brings its own node, `(next, locked)`: `next` points at the
//! successor once one enqueues behind it, and `locked` is the hand-off flag
//! its predecessor sets. The lock itself owns a `tail` word naming the most
//! recently enqueued node, and the protected value. Arrival order at the
//! atomic `tail` exchange is grant order: strict FIFO, no starvation.
//!
//! In a single flow of control the queue never holds more than the caller's
//! own node, so the executable model keeps one bit of the `tail` word —
//! whether any node is enqueued — and the caller's node. The multi-CPU
//! queue, where the exchange races with other acquirers, is the transition
//! system at the end of this file: a queue of arrival stamps whose
//! invariant orders every queue by arrival, which is what makes the grant
//! order FIFO.

use vstd::prelude::*;
use crate::interrupt_guard::{InterruptControl, InterruptGuard};

verus! {

/// A caller-supplied queue node: the successor link and the hand-off flag.
/// Storage stays pinned for the whole acquisition attempt; the node is
/// re-initialised at the start of each attempt.
pub struct MCSNode {
    has_successor: bool,
    locked: bool,
}

impl MCSNode {
    /// Whether a successor has linked itself behind this node.
    pub closed spec fn has_successor(&self) -> bool {
        self.has_successor
    }

    /// Whether the predecessor has set this node's hand-off flag.
    pub closed spec fn handed_off(&self) -> bool {
        self.locked
    }

    /// The node's initial state: no successor, hand-off flag clear.
    pub open spec fn is_initial(&self) -> bool {
        !self.has_successor() && !self.handed_off()
    }

    /// A fresh node, ready for an acquisition attempt.
    pub fn new() -> (node: Self)
        ensures
            node.is_initial(),
    {
        MCSNode { has_successor: false, locked: false }
    }

    /// Re-initialises the node: successor link cleared, hand-off flag
    /// cleared. Both locking paths do this before touching shared state.
    fn reset(&mut self)
        ensures
            final(self).is_initial(),
    {
        self.has_successor = false;
        self.locked = false;
    }

    /// Whether the node is in its initial state, as a diagnostic
    /// observation: successor link null, hand-off flag clear.
    pub fn is_reset(&self) -> (r: bool)
        ensures
            r == self.is_initial(),
    {
        !self.has_successor && !self.locked
    }

    /// Whether the predecessor has set this node's hand-off flag, as the
    /// waiting acquirer observes it: the value it parks on.
    pub fn has_handoff(&self) -> (r: bool)
        ensures
            r == self.handed_off(),
    {
        self.locked
    }

    /// The slow path's publish step: an arriving acquirer that received a
    /// non-null previous tail stores its own node into that predecessor's
    /// successor link, then parks on its own hand-off flag.
    pub fn link_successor(&mut self)
        requires
            !old(self).has_successor(),
        ensures
            final(self).has_successor(),
            final(self).handed_off() == old(self).handed_off(),
    {
        self.has_successor = true;
    }
}

impl Default for MCSNode {
    fn default() -> (node: Self)
        ensures
            node.is_initial(),
    {
        MCSNode::new()
    }
}

/// The queue lock: the `tail` word (here: whether any node is enqueued) and
/// the protected value.
pub struct MCSLock<T> {
    held: bool,
    data: T,
}

/// Ownership token for one acquisition. Bundles the interrupt guard taken
/// before the `tail` exchange; releasing hands it back after the queue
/// slot is given up.
pub struct MCSLockGuard {
    int_guard: InterruptGuard,
}

impl MCSLockGuard {
    /// The interrupt snapshot taken when the lock was acquired.
    pub closed spec fn saved_flag(&self) -> usize {
        self.int_guard.saved_flag()
    }
}

impl<T> MCSLock<T> {
    /// Whether the `tail` word names a node: some acquirer holds or waits.
    pub closed spec fn held(&self) -> bool {
        self.held
    }

    /// The protected value.
    pub closed spec fn value(&self) -> T {
        self.data
    }

    /// A new, unheld lock around `v`: `tail` is null.
    pub fn new(v: T) -> (lock: Self)
        ensures
            !lock.held(),
            lock.value() == v,
    {
        MCSLock { held: false, data: v }
    }

    /// One acquisition attempt: initialise the node, take an interrupt
    /// guard, and swap `tail` from null to the node. Succeeds exactly when
    /// the queue was empty. On failure nothing was enqueued: `tail` still
    /// names the holder's node, the caller's node is back in its initial
    /// state, no release protocol is owed, and the interrupt guard is
    /// dropped again, restoring the enable state.
    pub fn try_lock<P: InterruptControl>(
        &mut self,
        node: &mut MCSNode,
        platform: &mut P,
    ) -> (r: Option<MCSLockGuard>)
        ensures
            final(self).value() == old(self).value(),
            r is Some <==> !old(self).held(),
            final(self).held(),
            final(node).is_initial(),
            !old(self).held() ==> !final(platform).int_enabled() && P::flag_enabled(
                r->0.saved_flag(),
            ) == old(platform).int_enabled(),
            old(self).held() ==> final(platform).int_enabled() == old(
                platform,
            ).int_enabled(),
    {
        node.reset();
        let int_guard = InterruptGuard::new(platform);
        if !self.held {
            self.held = true;
            Some(MCSLockGuard { int_guard })
        } else {
            int_guard.restore(platform);
            None
        }
    }

    /// Acquires the lock: initialise the node, take an interrupt guard,
    /// exchange `tail`. A null previous tail means the lock is held at
    /// once; otherwise the acquirer links behind its predecessor and parks
    /// on its own hand-off flag. In a single flow of control no
    /// predecessor could ever hand off, so the caller must not already
    /// hold the lock, and the exchange returns null.
    pub fn lock<P: InterruptControl>(
        &mut self,
        node: &mut MCSNode,
        platform: &mut P,
    ) -> (guard: MCSLockGuard)
        requires
            !old(self).held(),
        ensures
            final(self).held(),
            final(self).value() == old(self).value(),
            final(node).is_initial(),
            !final(platform).int_enabled(),
            P::flag_enabled(guard.saved_flag()) == old(platform).int_enabled(),
    {
        node.reset();
        let int_guard = InterruptGuard::new(platform);
        self.held = true;
        MCSLockGuard { int_guard }
    }

    /// Releases the lock. With no successor linked, the release swaps
    /// `tail` back to null and owes nothing more; a linked successor would
    /// instead be granted the lock by setting its hand-off flag, which is
    /// the `mcs_release` transition of the queue model. Only then is the
    /// interrupt state restored, in that order.
    pub fn unlock<P: InterruptControl>(
        &mut self,
        guard: MCSLockGuard,
        node: &mut MCSNode,
        platform: &mut P,
    )
        requires
            old(self).held(),
            !old(node).has_successor(),
        ensures
            !final(self).held(),
            final(self).value() == old(self).value(),
            *final(node) == *old(node),
            final(platform).int_enabled() == P::flag_enabled(guard.saved_flag()),
    {
        self.held = false;
        guard.int_guard.restore(platform);
    }

    /// Releases the lock when a successor has linked itself behind the
    /// holder's node: the hand-off store grants the lock by setting the
    /// successor's flag — the one moment in that node's lifecycle when
    /// its flag goes up — and `tail` keeps naming the queue. This is the
    /// `mcs_release` transition seen from the departing holder. Interrupts
    /// are restored last.
    pub fn unlock_handoff<P: InterruptControl>(
        &mut self,
        guard: MCSLockGuard,
        node: &mut MCSNode,
        successor: &mut MCSNode,
        platform: &mut P,
    )
        requires
            old(self).held(),
            old(node).has_successor(),
            !old(successor).handed_off(),
        ensures
            final(self).held(),
            final(self).value() == old(self).value(),
            final(successor).handed_off(),
            final(successor).has_successor() == old(successor).has_successor(),
            *final(node) == *old(node),
            final(platform).int_enabled() == P::flag_enabled(guard.saved_flag()),
    {
        successor.locked = true;
        guard.int_guard.restore(platform);
    }

    /// Whether the `tail` word names a node, as a diagnostic observation.
    pub fn is_held(&self) -> (r: bool)
        ensures
            r == self.held(),
    {
        self.held
    }

    /// Read access to the protected value for a guard holder.
    pub fn data<'a>(&'a self, _guard: &'a MCSLockGuard) -> (r: &'a T)
        requires
            self.held(),
        ensures
            *r == self.value(),
    {
        &self.data
    }

    /// Exclusive access to the protected value for a guard holder.
    pub fn data_mut<'a>(&'a mut self, _guard: &'a MCSLockGuard) -> (r: &'a mut T)
        requires
            old(self).held(),
        ensures
            *r == old(self).value(),
            final(self).value() == *final(r),
            final(self).held(),
    {
        &mut self.data
    }
}

/// The queue as every CPU sees it: the arrival stamps of the enqueued
/// acquirers in queue order, the head being the current holder, and the
/// arrival counter that stamps each `tail` exchange.
pub struct McsQueue {
    pub q: Seq<nat>,
    pub next_stamp: nat,
}

/// What always holds of the queue: stamps were handed out by the arrival
/// counter, and the queue is ordered by arrival — the head is the earliest
/// arrival still present.
pub open spec fn mcs_wf(m: McsQueue) -> bool {
    &&& forall|i: int| 0 <= i < m.q.len() ==> m.q[i] < m.next_stamp
    &&& forall|i: int, j: int| 0 <= i < j < m.q.len() ==> m.q[i] < m.q[j]
}

/// The `tail` exchange: the arriving acquirer appends itself, taking the
/// next arrival stamp.
pub open spec fn mcs_enqueue(m: McsQueue) -> McsQueue {
    McsQueue { q: m.q.push(m.next_stamp), next_stamp: m.next_stamp + 1 }
}

/// The single-attempt path: the swap of `tail` from null succeeds only on
/// an empty queue; a non-empty queue is left exactly as it was.
pub open spec fn mcs_try_enqueue(m: McsQueue) -> (McsQueue, bool) {
    if m.q.len() == 0 {
        (mcs_enqueue(m), true)
    } else {
        (m, false)
    }
}

/// The current holder: the head of the queue, if anyone is enqueued.
pub open spec fn mcs_holder(m: McsQueue) -> Option<nat> {
    if m.q.len() > 0 {
        Some(m.q[0])
    } else {
        None
    }
}

/// Release with hand-off: the head leaves and the next in queue, if any,
/// becomes the holder.
pub open spec fn mcs_release(m: McsQueue) -> McsQueue {
    McsQueue { q: m.q.subrange(1, m.q.len() as int), ..m }
}

/// The empty queue — `tail` null, nobody arrived — satisfies the
/// invariant, so by `lemma_mcs_wf_preserved` every reachable queue does.
pub proof fn lemma_mcs_init()
    ensures
        mcs_wf(McsQueue { q: Seq::empty(), next_stamp: 0 }),
        mcs_holder(McsQueue { q: Seq::empty(), next_stamp: 0 }) is None,
{
}

/// Both queue transitions preserve the queue invariant.
pub proof fn lemma_mcs_wf_preserved(m: McsQueue)
    requires
        mcs_wf(m),
    ensures
        mcs_wf(mcs_enqueue(m)),
        m.q.len() > 0 ==> mcs_wf(mcs_release(m)),
{
    let e = mcs_enqueue(m);
    assert forall|i: int, j: int| 0 <= i < j < e.q.len() implies e.q[i] < e.q[j] by {
        if j < m.q.len() {
        } else {
            assert(e.q[j] == m.next_stamp);
        }
    }
    if m.q.len() > 0 {
        let r = mcs_release(m);
        assert forall|i: int, j: int| 0 <= i < j < r.q.len() implies r.q[i] < r.q[j] by {
            assert(r.q[i] == m.q[i + 1]);
            assert(r.q[j] == m.q[j + 1]);
        }
        assert forall|i: int| 0 <= i < r.q.len() implies r.q[i] < r.next_stamp by {
            assert(r.q[i] == m.q[i + 1]);
        }
    }
}

/// Mutual exclusion and FIFO order of the queue protocol. There is at most
/// one holder — the head. An acquirer that completed its `tail` exchange
/// earlier stands closer to the head and carries the smaller stamp, and a
/// later arrival is never the holder while an earlier one is still
/// enqueued: since releases only ever remove the head, grants happen in
/// arrival order.
pub proof fn lemma_mcs_fifo(m: McsQueue, i: int, j: int)
    requires
        mcs_wf(m),
        0 <= i < j < m.q.len(),
    ensures
        m.q[i] < m.q[j],
        mcs_holder(m) == Some(m.q[0]),
        mcs_holder(m) != Some(m.q[j]),
{
    assert(m.q[0] < m.q[j]);
}

/// The failed single attempt changes nothing: the queue — in particular
/// `tail`, still naming the holder's node — is exactly as it was.
pub proof fn lemma_mcs_try_on_contended(m: McsQueue)
    requires
        m.q.len() > 0,
    ensures
        !mcs_try_enqueue(m).1,
        mcs_try_enqueue(m).0 == m,
{
}

/// An executable run of the queue protocol: the arrival stamps in queue
/// order, driven step by step. Its view is the `McsQueue` model, so the
/// lemmas above speak about every state such a run can reach.
pub struct McsQueueRun {
    queue: Vec<usize>,
    next_stamp: usize,
}

impl McsQueueRun {
    /// The queue model this run is at.
    pub closed spec fn view(&self) -> McsQueue {
        McsQueue {
            q: self.queue@.map_values(|v: usize| v as nat),
            next_stamp: self.next_stamp as nat,
        }
    }

    /// A run of the protocol from the empty queue.
    pub fn new() -> (run: Self)
        ensures
            run@ == (McsQueue { q: Seq::empty(), next_stamp: 0 }),
            mcs_wf(run@),
    {
        let run = McsQueueRun { queue: Vec::new(), next_stamp: 0 };
        proof {
            assert(run@.q =~= Seq::<nat>::empty());
        }
        run
    }

    /// An arriving acquirer's `tail` exchange: enqueues it and returns its
    /// arrival stamp.
    pub fn enqueue(&mut self) -> (stamp: usize)
        requires
            old(self)@.next_stamp < usize::MAX,
        ensures
            final(self)@ == mcs_enqueue(old(self)@),
            stamp == old(self)@.next_stamp,
    {
        let stamp = self.next_stamp;
        self.queue.push(stamp);
        self.next_stamp = self.next_stamp + 1;
        proof {
            assert(self@.q =~= mcs_enqueue(old(self)@).q);
        }
        stamp
    }

    /// The current holder's arrival stamp, if anyone is enqueued.
    pub fn holder(&self) -> (h: Option<usize>)
        ensures
            h is Some <==> mcs_holder(self@) is Some,
            h is Some ==> mcs_holder(self@) == Some(h->0 as nat),
    {
        if self.queue.len() > 0 {
            Some(self.queue[0])
        } else {
            None
        }
    }

    /// The holder's release, handing off to the next in queue.
    pub fn release(&mut self)
        requires
            old(self)@.q.len() > 0,
        ensures
            final(self)@ == mcs_release(old(self)@),
    {
        self.queue.remove(0);
        proof {
            assert(self@.q =~= mcs_release(old(self)@).q);
        }
    }
}

} // verus!
