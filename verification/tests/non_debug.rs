use panik::Registry;

struct MyOpaque(i32);

#[test]
fn non_debug() {
    let mut registry = Registry::new();
    assert!(registry.arm());

    let (result, _diags) = registry.reconcile_no_debug(Some(MyOpaque(100)));

    assert!(result.is_some());
    assert!(!registry.has_panicked());

    let opaque = result.unwrap();
    assert_eq!(opaque.0, 100);
}
