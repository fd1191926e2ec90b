use basisu_c_sys::once::Once;
use std::sync::atomic::{AtomicUsize, Ordering};

#[test]
fn new_starts_uninitialized() {
    let once = Once::new();
    assert!(!once.is_initialized());
}

#[test]
fn call_once_runs_closure_and_initializes() {
    let mut once = Once::new();
    let calls = AtomicUsize::new(0);
    once.call_once(|| {
        calls.fetch_add(1, Ordering::SeqCst);
    });
    assert_eq!(calls.load(Ordering::SeqCst), 1);
    assert!(once.is_initialized());
}

#[test]
fn closure_side_effects_visible_to_later_callers() {
    let mut once = Once::new();
    let value = AtomicUsize::new(0);
    once.call_once(|| {
        value.store(42, Ordering::SeqCst);
    });
    assert!(once.is_initialized());
    assert_eq!(value.load(Ordering::SeqCst), 42);
}

#[test]
fn late_callers_do_not_rerun_closure() {
    let mut once = Once::new();
    let calls = AtomicUsize::new(0);
    for _ in 0..100 {
        once.call_once(|| {
            calls.fetch_add(1, Ordering::SeqCst);
        });
    }
    assert_eq!(calls.load(Ordering::SeqCst), 1);
    assert!(once.is_initialized());
}

#[test]
fn separate_instances_are_independent() {
    let mut a = Once::new();
    let mut b = Once::new();
    a.call_once(|| {});
    assert!(a.is_initialized());
    assert!(!b.is_initialized());
    b.call_once(|| {});
    assert!(b.is_initialized());
}

#[test]
fn can_be_used_in_static_context() {
    let mut init = Once::new();
    assert!(!init.is_initialized());
    init.call_once(|| {});
    assert!(init.is_initialized());
    // A second call on the same guard does nothing.
    init.call_once(|| panic!("closure must not run again"));
}
