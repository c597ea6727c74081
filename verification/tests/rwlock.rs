use awkernel_sync::interrupt_guard::x86_64::InterruptState;
use awkernel_sync::rwlock::{
    read_acquire_step, read_release_wakes, write_acquire_step, write_should_park,
    ReadAcquireStep, RwLock, WriteAcquireStep,
};

#[test]
fn model_check_rwlock() {
    let mut st = InterruptState { interrupts_on: true };
    let mut lock = RwLock::new(0i64);

    let w = lock.write(&mut st);
    {
        let data = lock.write_data_mut(&w);
        *data += 1;
        *data -= 1;
    }
    lock.write_unlock(w, &mut st);

    let r = lock.read(&mut st);
    assert_eq!(*lock.read_data(&r), 0);
    lock.read_unlock(r, &mut st);

    let w = lock.write(&mut st);
    {
        let data = lock.write_data_mut(&w);
        *data += 1;
        *data -= 1;
    }
    lock.write_unlock(w, &mut st);

    let r = lock.read(&mut st);
    assert_eq!(*lock.read_data(&r), 0);
    lock.read_unlock(r, &mut st);
    assert!(st.interrupts_on);
}

#[test]
fn rw_reader_concurrency() {
    let mut st = InterruptState { interrupts_on: true };
    let mut lock = RwLock::new(5u32);

    let r1 = lock.read(&mut st);
    let r2 = lock.read(&mut st);
    assert_eq!(lock.state_word(), 4);
    assert_eq!(*lock.read_data(&r1), 5);
    assert_eq!(*lock.read_data(&r2), 5);

    lock.read_unlock(r2, &mut st);
    assert_eq!(lock.state_word(), 2);
    lock.read_unlock(r1, &mut st);
    assert_eq!(lock.state_word(), 0);
    assert_eq!(lock.wake_count(), 0);
}

#[test]
fn rw_write_counter() {
    let mut st = InterruptState { interrupts_on: true };
    let mut lock = RwLock::new(0u64);

    for _ in 0..3 {
        for _ in 0..5 {
            let w = lock.write(&mut st);
            *lock.write_data_mut(&w) += 1;
            lock.write_unlock(w, &mut st);
        }
    }

    let r = lock.read(&mut st);
    assert_eq!(*lock.read_data(&r), 15);
    lock.read_unlock(r, &mut st);
}

#[test]
fn rw_writer_handoff() {
    let mut st = InterruptState { interrupts_on: true };
    let mut lock = RwLock::new(0u64);

    let r = lock.read(&mut st);
    assert_eq!(lock.state_word(), 2);

    // A writer arrives, observes the reader, and publishes intent.
    match write_acquire_step(lock.state_word()) {
        WriteAcquireStep::SetIntent { new_state } => assert_eq!(new_state, 3),
        _ => panic!("a granted reader must force the writer to publish intent"),
    }
    lock.publish_writer_intent();
    assert_eq!(lock.state_word(), 3);

    // New readers are refused while the intent bit stands.
    match read_acquire_step(lock.state_word()) {
        ReadAcquireStep::Park { observed } => assert_eq!(observed, 3),
        _ => panic!("a published writer must park arriving readers"),
    }

    // The writer samples the wakeup counter and parks.
    let sampled = lock.wake_count();
    assert!(write_should_park(lock.state_word()));

    // The last reader leaves: exactly one wakeup.
    assert!(read_release_wakes(lock.state_word()));
    lock.read_unlock(r, &mut st);
    assert_eq!(lock.state_word(), 1);
    assert_eq!(lock.wake_count(), sampled + 1);

    // The woken writer retries and acquires.
    match write_acquire_step(lock.state_word()) {
        WriteAcquireStep::Grant => {}
        _ => panic!("with the readers drained the writer must be granted"),
    }
    let w = lock.write(&mut st);
    assert_eq!(lock.state_word(), usize::MAX);
    lock.write_unlock(w, &mut st);
    assert_eq!(lock.state_word(), 0);
    assert_eq!(lock.wake_count(), sampled + 2);
    assert!(st.interrupts_on);
}

#[test]
fn rw_release_wakes_only_last_reader() {
    let mut st = InterruptState { interrupts_on: true };
    let mut lock = RwLock::new(0u8);

    let r1 = lock.read(&mut st);
    let r2 = lock.read(&mut st);
    lock.publish_writer_intent();
    assert_eq!(lock.state_word(), 5);

    assert!(!read_release_wakes(lock.state_word()));
    lock.read_unlock(r2, &mut st);
    assert_eq!(lock.state_word(), 3);
    assert_eq!(lock.wake_count(), 0);

    assert!(read_release_wakes(lock.state_word()));
    lock.read_unlock(r1, &mut st);
    assert_eq!(lock.state_word(), 1);
    assert_eq!(lock.wake_count(), 1);
}
