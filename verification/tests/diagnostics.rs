use panik::Builder;
use panik::DEFAULT_BACKTRACE_RESOLUTION_LIMIT;
use panik::Diagnostic;
use panik::Registry;
use panik::Severity;
use panik::nested_run_message;

#[test]
fn recorder_announces_each_panic() {
    let mut registry = Registry::new();
    assert!(registry.arm());
    let diag = registry.register_panic("boom".to_string(), 3, "audio".to_string());
    assert!(
        matches!(&diag, Diagnostic::PanicHandled { thread, message }
            if thread == "audio" && message == "boom")
    );
    assert_eq!(diag.severity(), Severity::Error);
}

#[test]
fn failed_run_reports_count_and_records_in_order() {
    let mut registry = Registry::new();
    assert!(registry.arm());
    registry.register_panic("first".to_string(), 4, "worker-a".to_string());
    registry.register_panic("second".to_string(), 5, "worker-b".to_string());

    let (result, diags) = registry.reconcile(Option::<u8>::None);
    assert!(result.is_none());

    // Count first, one report per record in arrival order, no limit warning
    // since two records fit well under the default limit.
    assert_eq!(diags.len(), 3);
    assert!(matches!(diags[0], Diagnostic::PanicCount { count: 2 }));
    assert_eq!(diags[0].severity(), Severity::Error);
    assert!(
        matches!(&diags[1], Diagnostic::PanicReport { thread, message, backtrace }
            if thread == "worker-a" && message == "first" && backtrace.is_some())
    );
    assert!(
        matches!(&diags[2], Diagnostic::PanicReport { thread, message, backtrace }
            if thread == "worker-b" && message == "second" && backtrace.is_some())
    );
    assert_eq!(diags[1].severity(), Severity::Critical);
}

#[test]
fn swallowed_result_is_rendered_through_debug() {
    let mut registry = Registry::new();
    assert!(registry.arm());
    registry.register_panic("boom".to_string(), 2, "worker".to_string());

    let (result, diags) = registry.reconcile(Some(100));
    assert!(result.is_none());
    assert!(
        matches!(&diags[0], Diagnostic::ResultSwallowed { formatted } if formatted == "100")
    );
    assert_eq!(diags[0].severity(), Severity::Warning);
}

#[test]
fn no_limit_warning_when_records_fit_the_limit_exactly() {
    let mut registry = Registry::new();
    Builder::new().backtrace_resolution_limit(3).apply_settings(&mut registry);
    assert!(registry.arm());
    for i in 0..3u64 {
        registry.register_panic("boom".to_string(), i + 1, format!("worker-{}", i));
    }

    let (result, diags) = registry.reconcile(Option::<u8>::None);
    assert!(result.is_none());
    assert_eq!(diags.len(), 4);
    assert!(diags.iter().all(|d| !matches!(d, Diagnostic::BacktraceLimitReached { .. })));
    assert!(registry.panics().iter().all(|p| p.is_backtrace_resolved()));
}

#[test]
fn limit_of_zero_resolves_nothing() {
    let mut registry = Registry::new();
    Builder::new().backtrace_resolution_limit(0).apply_settings(&mut registry);
    assert!(registry.arm());
    registry.register_panic("boom".to_string(), 1, "main".to_string());

    let (result, diags) = registry.reconcile(Option::<u8>::None);
    assert!(result.is_none());
    assert_eq!(diags.len(), 3);
    assert!(matches!(diags[0], Diagnostic::PanicCount { count: 1 }));
    assert!(matches!(diags[1], Diagnostic::BacktraceLimitReached { limit: 0 }));
    assert_eq!(diags[1].severity(), Severity::Warning);
    assert!(
        matches!(&diags[2], Diagnostic::PanicReport { backtrace, .. } if backtrace.is_none())
    );
    assert!(!registry.panics()[0].is_backtrace_resolved());
}

#[test]
fn disarm_restores_the_default_limit() {
    let mut registry = Registry::new();
    Builder::new().backtrace_resolution_limit(1).apply_settings(&mut registry);
    assert!(registry.arm());
    registry.register_panic("boom".to_string(), 1, "main".to_string());
    let _ = registry.reconcile(Option::<u8>::None);
    registry.disarm();

    // The next run is armed without reconfiguring: the default limit holds,
    // so all five records get resolved backtraces.
    assert!(registry.arm());
    for i in 0..5u64 {
        registry.register_panic("boom".to_string(), i + 1, format!("worker-{}", i));
    }
    let _ = registry.reconcile(Option::<u8>::None);
    registry.disarm();
    let panics = registry.panics();
    assert_eq!(panics.len(), 5);
    assert!(panics.iter().all(|p| p.is_backtrace_resolved()));
}

#[test]
fn record_getters_and_snapshot_copies() {
    let mut registry = Registry::new();
    assert!(registry.arm());
    registry.register_panic("boom".to_string(), 42, "ThreadId(42) (render)".to_string());

    let before = registry.panics();
    assert_eq!(before.len(), 1);
    assert_eq!(before[0].message(), "boom");
    assert_eq!(before[0].thread_id(), 42);
    assert_eq!(before[0].thread_name(), "ThreadId(42) (render)");
    assert!(!before[0].is_backtrace_resolved());
    let _handle = before[0].backtrace();

    // The snapshot is a copy: reconciliation resolves the registry's record,
    // not the snapshot taken before it.
    let _ = registry.reconcile(Option::<u8>::None);
    assert!(!before[0].is_backtrace_resolved());
    assert!(registry.panics()[0].is_backtrace_resolved());
}

#[test]
fn default_builder_keeps_the_default_limit() {
    let mut registry = Registry::new();
    Builder::default().apply_settings(&mut registry);
    assert!(registry.arm());
    let upper = (DEFAULT_BACKTRACE_RESOLUTION_LIMIT + 2) as u64;
    for i in 0..upper {
        registry.register_panic("boom".to_string(), i + 1, format!("worker-{}", i));
    }
    let (_, diags) = registry.reconcile(Option::<u8>::None);
    let resolved = registry.panics().iter().filter(|p| p.is_backtrace_resolved()).count();
    assert_eq!(resolved, DEFAULT_BACKTRACE_RESOLUTION_LIMIT);
    assert!(
        diags.iter().any(|d| matches!(d, Diagnostic::BacktraceLimitReached { limit }
            if *limit == DEFAULT_BACKTRACE_RESOLUTION_LIMIT))
    );
}

#[test]
fn nested_message_is_fixed() {
    assert_eq!(nested_run_message(), "nested supervised runs are not supported");
}
