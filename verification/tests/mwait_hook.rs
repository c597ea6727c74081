use awkernel_sync::mwait::{
    equal_wait_done, false_wait_done, null_wait_done, resolve_support, MwaitSupport,
};
use awkernel_sync::{set_voluntary_preemption_fn, voluntary_preemption, PreemptionCell};
use std::cell::Cell;

#[test]
fn mwait_probe_resolves_once() {
    let (s1, use1) = resolve_support(MwaitSupport::Unknown, true);
    assert!(use1);
    assert!(matches!(s1, MwaitSupport::Supported));

    // Once resolved, a later contradictory probe changes nothing.
    let (s2, use2) = resolve_support(s1, false);
    assert!(use2);
    assert!(matches!(s2, MwaitSupport::Supported));

    let (s3, use3) = resolve_support(MwaitSupport::Unknown, false);
    assert!(!use3);
    assert!(matches!(s3, MwaitSupport::Unsupported));

    let (s4, use4) = resolve_support(s3, true);
    assert!(!use4);
    assert!(matches!(s4, MwaitSupport::Unsupported));
}

#[test]
fn wait_predicates() {
    assert!(!false_wait_done(false));
    assert!(false_wait_done(true));

    assert!(!equal_wait_done(5, 5));
    assert!(equal_wait_done(6, 5));
    assert!(equal_wait_done(0, usize::MAX));

    assert!(!null_wait_done::<u32>(&None));
    assert!(null_wait_done(&Some(1u32)));
}

#[test]
fn preemption_hook_runs() {
    let count = Cell::new(0u32);
    let mut cell = PreemptionCell::new();
    set_voluntary_preemption_fn(&mut cell, || count.set(count.get() + 1));
    voluntary_preemption(&cell);
    voluntary_preemption(&cell);
    assert_eq!(count.get(), 2);
}

#[test]
fn preemption_default_is_noop() {
    let cell = PreemptionCell::<fn()>::new();
    voluntary_preemption(&cell);
}
