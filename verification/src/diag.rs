//! Diagnostic messages produced while handling panics.
//!
//! The registry never talks to a logging backend directly: every step of a
//! supervised run that wants to say something returns a structured
//! [`Diagnostic`], and the caller renders it through whatever sink it has
//! configured. Keeping the messages structured lets the contracts pin down
//! exactly which diagnostics a run produces and in what order.

use vstd::prelude::*;

verus! {

/// How urgent a diagnostic is; the sink maps this onto its own levels.
#[derive(Clone, Copy, Debug, PartialEq, Eq, Structural)]
pub enum Severity {
    /// Something was discarded or skipped, but handling continues.
    Warning,
    /// A panic was observed.
    Error,
    /// The final per-panic report of a failed run.
    Critical,
}

/// One message produced while arming, recording or reconciling a run.
#[derive(Debug)]
pub enum Diagnostic {
    /// A panic was just recorded: emitted by the recorder as it runs.
    PanicHandled { thread: String, message: String },
    /// The supervised work returned a value, but a panic elsewhere forces the
    /// run to discard it; `formatted` is its textual form.
    ResultSwallowed { formatted: String },
    /// How many panics the failed run captured.
    PanicCount { count: usize },
    /// The backtrace resolution limit was reached: later panics keep their
    /// backtraces unresolved.
    BacktraceLimitReached { limit: usize },
    /// The final report for one captured panic; `backtrace` holds the
    /// symbolized backtrace when it was resolved.
    PanicReport { thread: String, message: String, backtrace: Option<String> },
}

/// The mathematical shape of a [`Diagnostic`]: strings become sequences of
/// characters, everything else is carried as is.
pub enum DiagView {
    PanicHandled { thread: Seq<char>, message: Seq<char> },
    ResultSwallowed { formatted: Seq<char> },
    PanicCount { count: usize },
    BacktraceLimitReached { limit: usize },
    PanicReport { thread: Seq<char>, message: Seq<char>, backtrace: Option<Seq<char>> },
}

impl View for Diagnostic {
    type V = DiagView;

    open spec fn view(&self) -> DiagView {
        match self {
            Diagnostic::PanicHandled { thread, message } => DiagView::PanicHandled {
                thread: thread@,
                message: message@,
            },
            Diagnostic::ResultSwallowed { formatted } => DiagView::ResultSwallowed {
                formatted: formatted@,
            },
            Diagnostic::PanicCount { count } => DiagView::PanicCount { count: *count },
            Diagnostic::BacktraceLimitReached { limit } => DiagView::BacktraceLimitReached {
                limit: *limit,
            },
            Diagnostic::PanicReport { thread, message, backtrace } => DiagView::PanicReport {
                thread: thread@,
                message: message@,
                backtrace: match backtrace {
                    Some(b) => Some(b@),
                    None => None,
                },
            },
        }
    }
}

impl Diagnostic {
    /// The severity a sink should report this diagnostic at.
    pub fn severity(&self) -> (s: Severity)
        ensures
            s == self@.severity(),
    {
        match self {
            Diagnostic::PanicHandled { .. } => Severity::Error,
            Diagnostic::ResultSwallowed { .. } => Severity::Warning,
            Diagnostic::PanicCount { .. } => Severity::Error,
            Diagnostic::BacktraceLimitReached { .. } => Severity::Warning,
            Diagnostic::PanicReport { .. } => Severity::Critical,
        }
    }
}

/// The views of a sequence of diagnostics, element by element.
pub open spec fn diag_views(diags: Seq<Diagnostic>) -> Seq<DiagView> {
    diags.map_values(|d: Diagnostic| d@)
}

/// Relies on `format!` with the value's own `Debug` implementation: the
/// textual form of a result that a concurrent panic forces the run to
/// discard.
#[verifier::external_body]
pub(crate) fn format_debug<R: core::fmt::Debug>(value: &R) -> String {
    format!("{:?}", value)
}

impl DiagView {
    /// Severity of each kind of diagnostic, at the specification level.
    pub open spec fn severity(self) -> Severity {
        match self {
            DiagView::PanicHandled { .. } => Severity::Error,
            DiagView::ResultSwallowed { .. } => Severity::Warning,
            DiagView::PanicCount { .. } => Severity::Error,
            DiagView::BacktraceLimitReached { .. } => Severity::Warning,
            DiagView::PanicReport { .. } => Severity::Critical,
        }
    }
}

} // verus!
