//! A ticket-less reader-writer lock with an explicit writer-wakeup counter.
//!
//! The lock owns two unsigned words and the protected value. The `state`
//! word encodes the whole grant situation:
//!
//! - `0`: idle — no readers, no writer, no waiting writer;
//! - even, at least `2`: `state / 2` reader grants, no waiting writer;
//! - odd, at least `1`: `(state - 1) / 2` reader grants plus at least one
//!   waiting writer (the parity bit is the writer's published intent);
//! - all-ones: held for write.
//!
//! `writer_wake_counter` never decreases; it is bumped on every transition
//! that might let a blocked writer retry, so a writer can decide "am I
//! still blocked?" and park on the counter without losing the wakeup in
//! between.
//!
//! Writers assert intent by setting the parity bit, which stops new
//! readers from entering; that bounds writer starvation by the readers
//! already granted. Readers never touch parity; they move `state` by two.
//!
//! Acquisition in a single flow of control takes the no-contention path and
//! is modelled by `read` and `write`. The concurrent retry loops are the
//! step functions (`read_acquire_step`, `write_acquire_step`), and the
//! multi-CPU protocol with its grant accounting is the transition system in
//! the second half of this file, whose lemmas show that readers and a
//! writer never overlap and that a publishing writer's wait is bounded by
//! the readers already granted.

use vstd::prelude::*;
use crate::interrupt_guard::{InterruptControl, InterruptGuard};

verus! {

/// Whether a state word means "held for write": the all-ones word.
pub open spec fn write_held(s: usize) -> bool {
    s == usize::MAX
}

/// Whether a state word carries a waiting writer's published intent.
pub open spec fn writer_waiting(s: usize) -> bool {
    s % 2 == 1 && !write_held(s)
}

/// How many reader grants a state word encodes.
pub open spec fn readers_of(s: usize) -> nat {
    if write_held(s) {
        0
    } else {
        (s / 2) as nat
    }
}

/// The reader-writer lock: the state word, the writer-wakeup counter, and
/// the protected value.
pub struct RwLock<T> {
    state: usize,
    writer_wake_counter: usize,
    data: T,
}

/// One reader grant. Bundles the interrupt guard taken before acquisition.
pub struct RwLockReadGuard {
    int_guard: InterruptGuard,
}

impl RwLockReadGuard {
    /// The interrupt snapshot taken when the grant was taken.
    pub closed spec fn saved_flag(&self) -> usize {
        self.int_guard.saved_flag()
    }
}

/// The writer grant. Bundles the interrupt guard taken before acquisition.
pub struct RwLockWriteGuard {
    int_guard: InterruptGuard,
}

impl RwLockWriteGuard {
    /// The interrupt snapshot taken when the grant was taken.
    pub closed spec fn saved_flag(&self) -> usize {
        self.int_guard.saved_flag()
    }
}

impl<T> RwLock<T> {
    /// The state word.
    pub closed spec fn state(&self) -> usize {
        self.state
    }

    /// The writer-wakeup counter.
    pub closed spec fn wake_counter(&self) -> usize {
        self.writer_wake_counter
    }

    /// The protected value.
    pub closed spec fn value(&self) -> T {
        self.data
    }

    /// A new, idle lock around `v`.
    pub fn new(v: T) -> (lock: Self)
        ensures
            lock.state() == 0,
            lock.wake_counter() == 0,
            lock.value() == v,
    {
        RwLock { state: 0, writer_wake_counter: 0, data: v }
    }

    /// Acquires a reader grant: under an interrupt guard, move `state` up
    /// by two. The grant step is only taken while no writer has published
    /// intent — in a single flow of control a published writer could never
    /// withdraw, so the caller must see even parity; the machine bound
    /// keeps the new word below the all-ones writer encoding.
    pub fn read<P: InterruptControl>(&mut self, platform: &mut P) -> (guard: RwLockReadGuard)
        requires
            old(self).state() % 2 == 0,
            old(self).state() < usize::MAX - 2,
        ensures
            final(self).state() == old(self).state() + 2,
            readers_of(final(self).state()) == readers_of(old(self).state()) + 1,
            !write_held(final(self).state()),
            final(self).wake_counter() == old(self).wake_counter(),
            final(self).value() == old(self).value(),
            !final(platform).int_enabled(),
            P::flag_enabled(guard.saved_flag()) == old(platform).int_enabled(),
    {
        let int_guard = InterruptGuard::new(platform);
        self.state = self.state + 2;
        RwLockReadGuard { int_guard }
    }

    /// Acquires the writer grant: under an interrupt guard, swap `state`
    /// to the all-ones word. The swap is only enabled on a word of at most
    /// one — idle, or marked with waiting-writer intent and free of
    /// readers; with readers still granted, the concurrent writer parks on
    /// the wakeup counter instead (`write_acquire_step`), which in a
    /// single flow of control would never move.
    pub fn write<P: InterruptControl>(&mut self, platform: &mut P) -> (guard: RwLockWriteGuard)
        requires
            old(self).state() <= 1,
        ensures
            write_held(final(self).state()),
            readers_of(final(self).state()) == 0,
            final(self).wake_counter() == old(self).wake_counter(),
            final(self).value() == old(self).value(),
            !final(platform).int_enabled(),
            P::flag_enabled(guard.saved_flag()) == old(platform).int_enabled(),
    {
        let int_guard = InterruptGuard::new(platform);
        self.state = usize::MAX;
        RwLockWriteGuard { int_guard }
    }

    /// Publishes writer intent: the parity bit goes up, so no new reader
    /// enters while the granted ones drain. This is the middle step of the
    /// concurrent writer loop (`write_acquire_step`), taken when readers
    /// hold the lock and no intent is published yet. Reader grants are
    /// untouched.
    pub fn publish_writer_intent(&mut self)
        requires
            old(self).state() % 2 == 0,
            old(self).state() >= 2,
            old(self).state() < usize::MAX - 1,
        ensures
            final(self).state() == old(self).state() + 1,
            readers_of(final(self).state()) == readers_of(old(self).state()),
            writer_waiting(final(self).state()),
            final(self).wake_counter() == old(self).wake_counter(),
            final(self).value() == old(self).value(),
    {
        self.state = self.state + 1;
    }

    /// Releases a reader grant: `state` moves down by two, and if this was
    /// the last reader a waiting writer was gating on — the word was
    /// exactly three — the wakeup counter is bumped to wake the parked
    /// writers. Interrupts are restored last.
    pub fn read_unlock<P: InterruptControl>(
        &mut self,
        guard: RwLockReadGuard,
        platform: &mut P,
    )
        requires
            old(self).state() >= 2,
            !write_held(old(self).state()),
            old(self).wake_counter() < usize::MAX,
        ensures
            final(self).state() == old(self).state() - 2,
            old(self).state() == 3 ==> final(self).wake_counter() == old(self).wake_counter()
                + 1,
            old(self).state() != 3 ==> final(self).wake_counter() == old(self).wake_counter(),
            final(self).value() == old(self).value(),
            final(platform).int_enabled() == P::flag_enabled(guard.saved_flag()),
    {
        let prev = self.state;
        self.state = prev - 2;
        if prev == 3 {
            self.writer_wake_counter = self.writer_wake_counter + 1;
        }
        guard.int_guard.restore(platform);
    }

    /// Releases the writer grant: `state` returns to idle and the wakeup
    /// counter is bumped, since both parked writers and parked readers may
    /// now proceed. Interrupts are restored last.
    pub fn write_unlock<P: InterruptControl>(
        &mut self,
        guard: RwLockWriteGuard,
        platform: &mut P,
    )
        requires
            write_held(old(self).state()),
            old(self).wake_counter() < usize::MAX,
        ensures
            final(self).state() == 0,
            final(self).wake_counter() == old(self).wake_counter() + 1,
            final(self).value() == old(self).value(),
            final(platform).int_enabled() == P::flag_enabled(guard.saved_flag()),
    {
        self.state = 0;
        self.writer_wake_counter = self.writer_wake_counter + 1;
        guard.int_guard.restore(platform);
    }

    /// The state word as a diagnostic observation.
    pub fn state_word(&self) -> (s: usize)
        ensures
            s == self.state(),
    {
        self.state
    }

    /// The writer-wakeup counter as a diagnostic observation.
    pub fn wake_count(&self) -> (w: usize)
        ensures
            w == self.wake_counter(),
    {
        self.writer_wake_counter
    }

    /// Read access to the protected value for a reader-grant holder.
    pub fn read_data<'a>(&'a self, _guard: &'a RwLockReadGuard) -> (r: &'a T)
        requires
            readers_of(self.state()) >= 1,
        ensures
            *r == self.value(),
    {
        &self.data
    }

    /// Read access to the protected value for the writer-grant holder.
    pub fn write_data<'a>(&'a self, _guard: &'a RwLockWriteGuard) -> (r: &'a T)
        requires
            write_held(self.state()),
        ensures
            *r == self.value(),
    {
        &self.data
    }

    /// Exclusive access to the protected value for the writer-grant
    /// holder.
    pub fn write_data_mut<'a>(&'a mut self, _guard: &'a RwLockWriteGuard) -> (r: &'a mut T)
        requires
            write_held(old(self).state()),
        ensures
            *r == old(self).value(),
            final(self).value() == *final(r),
            final(self).state() == old(self).state(),
            final(self).wake_counter() == old(self).wake_counter(),
    {
        &mut self.data
    }
}

/// One decision of the concurrent reader loop, from an observed state
/// word.
pub enum ReadAcquireStep {
    /// Even parity: attempt the grant swap to this new word.
    Grant { new_state: usize },
    /// Odd parity: a writer has published intent; park until the state
    /// word moves away from the observed value, then retry.
    Park { observed: usize },
}

/// The reader loop body: grant while no writer has published intent,
/// otherwise park on the state word. The machine bound on the grant side
/// keeps the new word below the writer encoding.
pub fn read_acquire_step(s: usize) -> (step: ReadAcquireStep)
    requires
        s % 2 == 0 ==> s < usize::MAX - 2,
    ensures
        s % 2 == 0 ==> step == (ReadAcquireStep::Grant { new_state: (s + 2) as usize }),
        s % 2 == 1 ==> step == (ReadAcquireStep::Park { observed: s }),
{
    if s % 2 == 0 {
        ReadAcquireStep::Grant { new_state: s + 2 }
    } else {
        ReadAcquireStep::Park { observed: s }
    }
}

/// One decision of the concurrent writer loop, from an observed state
/// word.
pub enum WriteAcquireStep {
    /// At most one: attempt the swap to the all-ones writer word.
    Grant,
    /// Readers hold the lock and no intent is published yet: attempt to
    /// set the parity bit so no new readers enter.
    SetIntent { new_state: usize },
    /// Readers hold the lock and intent is already published: sample the
    /// wakeup counter, re-check, and park on the counter.
    WaitTurn,
}

/// The writer loop body: grant on a word of at most one; otherwise publish
/// intent first, then wait for the granted readers to drain.
pub fn write_acquire_step(s: usize) -> (step: WriteAcquireStep)
    ensures
        s <= 1 ==> step == WriteAcquireStep::Grant,
        s > 1 && s % 2 == 0 ==> step == (WriteAcquireStep::SetIntent {
            new_state: (s + 1) as usize,
        }),
        s > 1 && s % 2 == 1 ==> step == WriteAcquireStep::WaitTurn,
{
    if s <= 1 {
        WriteAcquireStep::Grant
    } else if s % 2 == 0 {
        WriteAcquireStep::SetIntent { new_state: s + 1 }
    } else {
        WriteAcquireStep::WaitTurn
    }
}

/// After publishing intent and sampling the wakeup counter, the writer
/// parks exactly while readers are still granted.
pub fn write_should_park(s: usize) -> (park: bool)
    ensures
        park == (s >= 2),
{
    s >= 2
}

/// The reader-release wake rule: bump the wakeup counter exactly when the
/// departing reader was the last one and a writer is waiting — the state
/// word was exactly three.
pub fn read_release_wakes(prev: usize) -> (wake: bool)
    ensures
        wake == (prev == 3),
{
    prev == 3
}

/// The lock as every CPU sees it: the state word, the wakeup counter, and
/// the grants actually outstanding — the accounting the encoding must
/// match.
pub struct RwState {
    pub state: usize,
    pub wake: nat,
    pub readers: nat,
    pub writer: bool,
}

/// What always holds: the writer holds the lock exactly under the all-ones
/// word and then no reader grant is out; otherwise the word is twice the
/// reader count, plus one if a writer has published intent.
pub open spec fn rw_wf(r: RwState) -> bool {
    &&& r.writer <==> r.state == usize::MAX
    &&& r.writer ==> r.readers == 0
    &&& !r.writer ==> (r.state == 2 * r.readers || r.state == 2 * r.readers + 1)
        && r.state < usize::MAX
}

/// A reader grant is enabled on even parity, below the machine bound.
pub open spec fn rw_read_enabled(r: RwState) -> bool {
    r.state % 2 == 0 && r.state <= usize::MAX - 3
}

/// The reader grant: the word moves up by two, one more reader is out.
pub open spec fn rw_reader_acquire(r: RwState) -> RwState {
    RwState { state: (r.state + 2) as usize, readers: r.readers + 1, ..r }
}

/// Publishing writer intent is enabled while readers are granted and no
/// intent is published yet; the machine bound keeps the marked word below
/// the all-ones writer encoding.
pub open spec fn rw_intent_enabled(r: RwState) -> bool {
    r.state % 2 == 0 && r.state >= 2 && r.state < usize::MAX - 1
}

/// Publishing intent: the parity bit goes up; grants are untouched.
pub open spec fn rw_set_intent(r: RwState) -> RwState {
    RwState { state: (r.state + 1) as usize, ..r }
}

/// The writer grant is enabled on a word of at most one.
pub open spec fn rw_write_enabled(r: RwState) -> bool {
    r.state <= 1
}

/// The writer grant: the word becomes all-ones.
pub open spec fn rw_writer_acquire(r: RwState) -> RwState {
    RwState { state: usize::MAX, writer: true, ..r }
}

/// A reader release is enabled while a reader grant is out.
pub open spec fn rw_read_release_enabled(r: RwState) -> bool {
    r.readers >= 1 && !r.writer
}

/// The reader release: the word moves down by two; the last reader under
/// published intent bumps the wakeup counter.
pub open spec fn rw_reader_release(r: RwState) -> RwState {
    RwState {
        state: (r.state - 2) as usize,
        readers: (r.readers - 1) as nat,
        wake: if r.state == 3 {
            r.wake + 1
        } else {
            r.wake
        },
        ..r
    }
}

/// The writer release: back to idle, and the wakeup counter is bumped.
pub open spec fn rw_writer_release(r: RwState) -> RwState {
    RwState { state: 0, writer: false, wake: r.wake + 1, ..r }
}

/// The idle lock satisfies the encoding invariant, so by
/// `lemma_rw_wf_preserved` every reachable state does.
pub proof fn lemma_rw_init()
    ensures
        rw_wf(RwState { state: 0, wake: 0, readers: 0, writer: false }),
{
}

/// Every transition of the protocol, taken when enabled, preserves the
/// encoding invariant.
pub proof fn lemma_rw_wf_preserved(r: RwState)
    requires
        rw_wf(r),
    ensures
        rw_read_enabled(r) ==> rw_wf(rw_reader_acquire(r)),
        rw_intent_enabled(r) ==> rw_wf(rw_set_intent(r)),
        rw_write_enabled(r) ==> rw_wf(rw_writer_acquire(r)),
        rw_read_release_enabled(r) ==> rw_wf(rw_reader_release(r)),
        r.writer ==> rw_wf(rw_writer_release(r)),
{
}

/// No reader-writer overlap, in any reachable state: while the writer
/// holds the lock no reader grant is out; a reader grant is never taken on
/// the writer's word; and the writer's word is never taken while a reader
/// grant is out.
pub proof fn lemma_rw_no_overlap(r: RwState)
    requires
        rw_wf(r),
    ensures
        r.writer ==> r.readers == 0,
        r.readers >= 1 ==> !r.writer,
        rw_read_enabled(r) ==> !r.writer,
        rw_write_enabled(r) ==> r.readers == 0,
        r.writer ==> !rw_write_enabled(r) && !rw_read_enabled(r),
{
}

/// Reader concurrency: any number of reader grants co-exist, and the state
/// word shows them — it is at least twice the count of active readers.
pub proof fn lemma_rw_reader_concurrency(r: RwState)
    requires
        rw_wf(r),
        !r.writer,
    ensures
        r.state >= 2 * r.readers,
        rw_read_enabled(r) ==> rw_reader_acquire(r).readers == r.readers + 1,
{
}

/// The writer-wakeup counter never decreases, over every transition.
pub proof fn lemma_rw_wake_monotonic(r: RwState)
    ensures
        rw_reader_acquire(r).wake >= r.wake,
        rw_set_intent(r).wake >= r.wake,
        rw_writer_acquire(r).wake >= r.wake,
        rw_reader_release(r).wake >= r.wake,
        rw_writer_release(r).wake > r.wake,
{
}

/// Bounded writer wait: once intent is published — odd parity — no new
/// reader can be granted, so the reader population only drains; while
/// readers remain, their releases keep the intent bit standing; the last
/// release leaves the word at one, bumping the wakeup counter on its way
/// out, and the writer's grant step is then enabled. The wait is bounded
/// by the readers granted at publication time.
pub proof fn lemma_rw_writer_not_starved(r: RwState)
    requires
        rw_wf(r),
        !r.writer,
        r.state % 2 == 1,
    ensures
        !rw_read_enabled(r),
        r.readers >= 2 ==> rw_reader_release(r).state % 2 == 1 && rw_reader_release(
            r,
        ).readers < r.readers,
        r.readers == 1 ==> r.state == 3 && rw_reader_release(r).wake == r.wake + 1
            && rw_write_enabled(rw_reader_release(r)),
        r.readers == 0 ==> r.state == 1 && rw_write_enabled(r),
{
}

} // verus!
