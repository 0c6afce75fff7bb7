use panik::Diagnostic;
use panik::Registry;

struct MyOpaque(i32);

#[test]
fn non_debug_swallowed() {
    let mut registry = Registry::new();
    assert!(registry.arm());

    // A worker panics with "oh no" while the caller's work still produces a
    // value; the value has no Debug form, so the report carries the fixed
    // placeholder instead.
    registry.register_panic("oh no".to_string(), 2, "worker".to_string());
    let (result, diags) = registry.reconcile_no_debug(Some(MyOpaque(100)));

    assert!(result.is_none());
    assert!(registry.has_panicked());
    assert!(
        matches!(&diags[0], Diagnostic::ResultSwallowed { formatted } if formatted == "<unprintable>")
    );
}
