use panik::Builder;
use panik::Registry;

#[test]
fn multiple_usage() {
    let builder = Builder::default();
    let mut registry = Registry::new();

    // First run: the caller panics.
    builder.clone().apply_settings(&mut registry);
    assert!(registry.arm());
    registry.register_panic("numero one".to_string(), 1, "main".to_string());
    let (a, _) = registry.reconcile(Option::<i32>::None);
    registry.disarm();
    assert!(a.is_none());
    assert!(registry.has_panicked());

    let panics = registry.panics();
    assert_eq!(panics.len(), 1);
    assert_eq!(panics[0].message(), "numero one");

    // Second run: clean; nothing from the first run leaks into it.
    builder.clone().apply_settings(&mut registry);
    assert!(registry.arm());
    let (b, _) = registry.reconcile(Some(1));
    registry.disarm();
    assert_eq!(b, Some(1));
    assert!(!registry.has_panicked());
    assert!(registry.panics().is_empty());

    // Third run: the caller panics again.
    builder.apply_settings(&mut registry);
    assert!(registry.arm());
    registry.register_panic("numero two".to_string(), 1, "main".to_string());
    let (c, _) = registry.reconcile(Option::<i32>::None);
    registry.disarm();
    assert!(c.is_none());
    assert!(registry.has_panicked());

    let panics = registry.panics();
    assert_eq!(panics.len(), 1);
    assert_eq!(panics[0].message(), "numero two");
}
