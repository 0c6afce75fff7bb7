use panik::Registry;

#[test]
fn multiple_threads() {
    let mut registry = Registry::new();
    assert!(registry.arm());

    // Four workers panic with "uh oh", joined one by one; the caller then
    // panics itself with "me too".
    for i in 0..4u64 {
        registry.register_panic("uh oh".to_string(), 10 + i, format!("worker-{}", i));
    }
    registry.register_panic("me too".to_string(), 1, "ThreadId(1) (main)".to_string());

    let (result, _diags) = registry.reconcile(Option::<i32>::None);
    assert!(result.is_none());
    assert!(registry.has_panicked());

    let mut panics = registry.panics();
    assert_eq!(panics.len(), 5);

    let main_idx = panics
        .iter()
        .enumerate()
        .find_map(|(idx, p)| if p.thread_id() == 1 { Some(idx) } else { None })
        .unwrap();

    let main = panics.remove(main_idx);
    assert_eq!(main.message(), "me too");
    assert!(panics.iter().all(|p| p.message() == "uh oh"));
}
