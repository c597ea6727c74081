use awkernel_sync::interrupt_guard::x86_64::InterruptState;
use awkernel_sync::mcs::{MCSLock, MCSNode, McsQueueRun};
use awkernel_sync::mutex::Mutex;
use awkernel_sync::spinlock::{ttas_should_attempt, SpinLock};

#[test]
fn model_check_mcslock() {
    let mut st = InterruptState { interrupts_on: true };
    let num_threads: u64 = 2;
    let num_iterations: u64 = 2;
    let mut lock = MCSLock::new(0u64);

    for _ in 0..num_threads {
        for _ in 0..num_iterations {
            let mut node = MCSNode::new();
            let guard = lock.lock(&mut node, &mut st);
            *lock.data_mut(&guard) += 1;
            lock.unlock(guard, &mut node, &mut st);
        }
    }

    let mut node = MCSNode::new();
    let guard = lock.lock(&mut node, &mut st);
    let data = *lock.data(&guard);
    lock.unlock(guard, &mut node, &mut st);

    assert_eq!(num_threads * num_iterations, data);
    assert!(st.interrupts_on);
}

#[test]
fn mcs_try_lock_contention() {
    let mut st = InterruptState { interrupts_on: true };
    let mut node1 = MCSNode::new();
    let mut node2 = MCSNode::new();
    let mut lock = MCSLock::new(0u32);

    let guard = lock.lock(&mut node1, &mut st);
    assert!(lock.is_held());
    assert!(!st.interrupts_on);

    let attempt = lock.try_lock(&mut node2, &mut st);
    assert!(attempt.is_none());
    assert!(lock.is_held());
    assert!(node2.is_reset());
    assert!(!st.interrupts_on);

    lock.unlock(guard, &mut node1, &mut st);
    assert!(!lock.is_held());
    assert!(st.interrupts_on);

    let attempt = lock.try_lock(&mut node2, &mut st);
    assert!(attempt.is_some());
    assert!(!st.interrupts_on);
    lock.unlock(attempt.unwrap(), &mut node2, &mut st);
    assert!(st.interrupts_on);
}

#[test]
fn mcs_handoff_to_successor() {
    let mut st = InterruptState { interrupts_on: true };
    let mut node1 = MCSNode::new();
    let mut node2 = MCSNode::new();
    let mut lock = MCSLock::new(0u32);

    let guard = lock.lock(&mut node1, &mut st);

    // A second acquirer received node1 as the previous tail and links
    // itself behind it, then parks on its own hand-off flag.
    node1.link_successor();
    assert!(!awkernel_sync::mwait::false_wait_done(node2.has_handoff()));

    // The holder releases: the hand-off store wakes the successor, and the
    // tail keeps naming the queue.
    lock.unlock_handoff(guard, &mut node1, &mut node2, &mut st);
    assert!(lock.is_held());
    assert!(node2.has_handoff());
    assert!(awkernel_sync::mwait::false_wait_done(node2.has_handoff()));
    assert!(st.interrupts_on);
}

#[test]
fn mcs_fifo_grant_order() {
    let mut run = McsQueueRun::new();
    assert!(run.holder().is_none());

    let a = run.enqueue();
    let b = run.enqueue();
    let c = run.enqueue();
    assert!(a < b && b < c);

    // Grants follow arrival order at the tail exchange, head first.
    assert_eq!(run.holder(), Some(a));
    run.release();
    assert_eq!(run.holder(), Some(b));
    run.release();
    assert_eq!(run.holder(), Some(c));
    run.release();
    assert!(run.holder().is_none());
}

#[test]
fn spin_counter() {
    let mut st = InterruptState { interrupts_on: true };
    let mut lock = SpinLock::new(0u64);

    for _ in 0..4 {
        for _ in 0..1000 {
            let guard = lock.lock(&mut st);
            *lock.data_mut(&guard) += 1;
            lock.unlock(guard, &mut st);
        }
    }

    let guard = lock.lock(&mut st);
    assert_eq!(*lock.data(&guard), 4000);
    lock.unlock(guard, &mut st);
}

#[test]
fn spin_try_lock_contention() {
    let mut st = InterruptState { interrupts_on: true };
    let mut lock = SpinLock::new(7u32);

    assert!(ttas_should_attempt(lock.is_locked()));
    let guard = lock.lock(&mut st);
    assert!(lock.is_locked());
    assert!(!ttas_should_attempt(lock.is_locked()));

    let attempt = lock.try_lock(&mut st);
    assert!(attempt.is_none());
    assert!(!st.interrupts_on);

    lock.unlock(guard, &mut st);
    assert!(!lock.is_locked());
    assert!(st.interrupts_on);

    let attempt = lock.try_lock(&mut st);
    assert!(attempt.is_some());
    let guard = attempt.unwrap();
    assert_eq!(*lock.data(&guard), 7);
    lock.unlock(guard, &mut st);
}

#[test]
fn mutex_facade_counter() {
    let mut st = InterruptState { interrupts_on: true };
    let mut mutex = Mutex::new(0u64);

    for _ in 0..10 {
        let mut node = MCSNode::new();
        let guard = mutex.lock(&mut node, &mut st);
        *mutex.data_mut(&guard) += 1;
        mutex.unlock(guard, &mut node, &mut st);
    }

    let mut node = MCSNode::new();
    let guard = mutex.lock(&mut node, &mut st);
    assert_eq!(*mutex.data(&guard), 10);
    mutex.unlock(guard, &mut node, &mut st);
    assert!(st.interrupts_on);
}

#[test]
fn mutex_facade_try_lock() {
    let mut st = InterruptState { interrupts_on: true };
    let mut node1 = MCSNode::new();
    let mut node2 = MCSNode::new();
    let mut mutex = Mutex::new(3u32);

    let guard = mutex.try_lock(&mut node1, &mut st).unwrap();
    assert!(mutex.try_lock(&mut node2, &mut st).is_none());
    assert!(node2.is_reset());
    mutex.unlock(guard, &mut node1, &mut st);
    assert!(st.interrupts_on);
}
