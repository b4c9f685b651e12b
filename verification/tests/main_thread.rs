use main_dispatch::main_thread::MainThreadId;

#[test]
fn fallback_identity() {
    let m = MainThreadId::new();
    assert_eq!(m.supposed_main_id(), 1);
    assert!(m.is_main_thread(1));
    assert!(!m.is_main_thread(2));
}

#[test]
fn registration_sets_identity() {
    let mut m = MainThreadId::new();
    m.set_current_thread_as_main(5);
    assert_eq!(m.supposed_main_id(), 5);
    assert!(m.is_main_thread(5));
    assert!(!m.is_main_thread(1));
    assert!(!m.is_main_thread(2));
}

#[test]
fn registration_overrides_fallback() {
    let mut m = MainThreadId::new();
    assert!(m.is_main_thread(1));
    m.set_current_thread_as_main(9);
    assert!(!m.is_main_thread(1));
    assert!(m.is_main_thread(9));
}

#[test]
fn assert_main_thread_passes_on_main() {
    let mut m = MainThreadId::new();
    m.set_current_thread_as_main(7);
    m.assert_main_thread(7);
}
