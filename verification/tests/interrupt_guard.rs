use awkernel_sync::interrupt_guard::{aarch64, rv64, x86_64, InterruptGuard};

#[test]
fn x86_flag_round_trip() {
    let mut st = x86_64::InterruptState { interrupts_on: true };
    let saved = x86_64::get_flag(&st);
    assert_eq!(saved, 1);
    x86_64::disable(&mut st);
    assert!(!x86_64::are_enabled(&st));
    x86_64::set_flag(&mut st, saved);
    assert!(x86_64::are_enabled(&st));

    let mut st = x86_64::InterruptState { interrupts_on: false };
    let saved = x86_64::get_flag(&st);
    assert_eq!(saved, 0);
    x86_64::disable(&mut st);
    x86_64::set_flag(&mut st, saved);
    assert!(!x86_64::are_enabled(&st));
}

#[test]
fn rv64_flag_round_trip() {
    let mut st = rv64::InterruptState { mie: true };
    let saved = rv64::get_flag(&st);
    assert_eq!(saved, 0x08);
    rv64::disable(&mut st);
    assert!(!st.mie);
    rv64::set_flag(&mut st, saved);
    assert!(st.mie);

    let mut st = rv64::InterruptState { mie: false };
    let saved = rv64::get_flag(&st);
    assert_eq!(saved, 0);
    rv64::enable(&mut st);
    assert!(st.mie);
    rv64::set_flag(&mut st, saved);
    assert!(!st.mie);
}

#[test]
fn aarch64_flag_round_trip() {
    let mut st = aarch64::InterruptState { daif: 0x40 };
    assert!(aarch64::are_enabled(&st));
    let saved = aarch64::get_flag(&st);
    aarch64::disable(&mut st);
    assert!(!aarch64::are_enabled(&st));
    assert_eq!(st.daif, 0xC0);
    aarch64::set_flag(&mut st, saved);
    assert_eq!(st.daif, 0x40);
    assert!(aarch64::are_enabled(&st));

    let mut st = aarch64::InterruptState { daif: 0xC0 };
    assert!(!aarch64::are_enabled(&st));
    let saved = aarch64::get_flag(&st);
    aarch64::disable(&mut st);
    aarch64::set_flag(&mut st, saved);
    assert_eq!(st.daif, 0xC0);
    assert!(!aarch64::are_enabled(&st));
}

#[test]
fn nested_interrupt_guards() {
    let mut st = x86_64::InterruptState { interrupts_on: true };
    let outer = InterruptGuard::new(&mut st);
    assert!(!x86_64::are_enabled(&st));
    let inner = InterruptGuard::new(&mut st);
    assert!(!x86_64::are_enabled(&st));
    inner.restore(&mut st);
    assert!(!x86_64::are_enabled(&st));
    outer.restore(&mut st);
    assert!(x86_64::are_enabled(&st));
}

#[test]
fn nested_guards_on_other_platforms() {
    let mut st = rv64::InterruptState { mie: true };
    let outer = InterruptGuard::new(&mut st);
    let inner = InterruptGuard::new(&mut st);
    assert!(!st.mie);
    inner.restore(&mut st);
    assert!(!st.mie);
    outer.restore(&mut st);
    assert!(st.mie);

    let mut st = aarch64::InterruptState { daif: 0 };
    let outer = InterruptGuard::new(&mut st);
    let inner = InterruptGuard::new(&mut st);
    assert!(!aarch64::are_enabled(&st));
    inner.restore(&mut st);
    assert!(!aarch64::are_enabled(&st));
    outer.restore(&mut st);
    assert!(aarch64::are_enabled(&st));
}

#[test]
fn guard_from_disabled_state() {
    let mut st = x86_64::InterruptState { interrupts_on: false };
    let guard = InterruptGuard::new(&mut st);
    assert!(!x86_64::are_enabled(&st));
    guard.restore(&mut st);
    assert!(!x86_64::are_enabled(&st));
}
