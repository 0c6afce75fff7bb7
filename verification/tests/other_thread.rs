use panik::Registry;

#[test]
fn other_thread() {
    let mut registry = Registry::new();
    assert!(registry.arm());

    // A spawned worker panics with "teehee"; the caller's own work still
    // returns a value.
    let worker_tid: u64 = 7;
    let caller_tid: u64 = 1;
    registry.register_panic("teehee".to_string(), worker_tid, "worker".to_string());

    let (result, _diags) = registry.reconcile(Some(5));
    assert!(result.is_none());
    assert!(registry.has_panicked());

    let panics = registry.panics();
    assert_eq!(panics.len(), 1);

    let panic = &panics[0];
    assert_eq!(panic.thread_id(), worker_tid);
    assert_ne!(panic.thread_id(), caller_tid);
    assert_eq!(panic.message(), "teehee");
    assert!(panic.is_backtrace_resolved());
}
