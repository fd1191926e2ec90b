use basisu_c_sys::atexit::{AtexitEntry, AtexitRegistry, MAX_ATEXIT, __cxa_atexit};

#[test]
fn registers_until_full_then_refuses() {
    let mut registry = AtexitRegistry::new();
    for i in 0..MAX_ATEXIT {
        assert_eq!(__cxa_atexit(&mut registry, 0x1000 + i, i, 7), 0);
    }
    assert_eq!(registry.entries().len(), MAX_ATEXIT);
    assert_eq!(__cxa_atexit(&mut registry, 0x9999, 1, 2), -1);
    assert_eq!(registry.entries().len(), MAX_ATEXIT);
    assert_eq!(
        registry.entries()[3],
        AtexitEntry { func: 0x1003, arg: 3, dso: 7 }
    );
}

#[test]
fn new_registry_is_empty() {
    assert!(AtexitRegistry::new().entries().is_empty());
}
