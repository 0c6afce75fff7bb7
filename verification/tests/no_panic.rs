use panik::Registry;

#[test]
fn no_panic() {
    let mut registry = Registry::new();
    assert!(registry.arm());

    let (result, diags) = registry.reconcile(Some("nice"));

    assert_eq!(result, Some("nice"));
    assert!(diags.is_empty());
    assert!(!registry.has_panicked());

    let panics = registry.panics();
    assert!(panics.is_empty());
}
