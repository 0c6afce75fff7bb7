//! The failure registry and its lifecycle.
//!
//! The registry holds every panic captured during the current supervised run,
//! the backtrace-resolution budget for that run, and whether a run is in
//! progress. The host keeps one registry per process behind a mutex and a
//! global panic hook; this module is the state machine those pieces drive:
//! arming a run, recording a panic, reconciling the outcome and disarming.

use vstd::prelude::*;

use crate::diag::DiagView;
use crate::diag::Diagnostic;
use crate::diag::diag_views;
use crate::diag::format_debug;
use crate::record::Panic;
use crate::record::PanicView;
use crate::trace;

verus! {

/// How many records get their backtrace resolved when a run ends, unless a
/// run configures its own limit; restored on every disarm.
pub const DEFAULT_BACKTRACE_RESOLUTION_LIMIT: usize = 8;

/// The shared panic-capture state for one supervised run.
pub struct Registry {
    pub(crate) panics: Vec<Panic>,
    pub(crate) backtrace_resolution_limit: usize,
    pub(crate) is_running: bool,
}

/// The mathematical content of a [`Registry`].
pub struct RegistryView {
    /// Captured panics, in arrival order under the registry lock.
    pub panics: Seq<PanicView>,
    /// How many records get their backtrace resolved at reconciliation.
    pub backtrace_resolution_limit: usize,
    /// True strictly between arming and disarming.
    pub is_running: bool,
}

impl View for Registry {
    type V = RegistryView;

    closed spec fn view(&self) -> RegistryView {
        RegistryView {
            panics: self.panics@.map_values(|p: Panic| p@),
            backtrace_resolution_limit: self.backtrace_resolution_limit,
            is_running: self.is_running,
        }
    }
}

impl Default for Registry {
    /// Same as [`Registry::new`].
    fn default() -> (registry: Self)
        ensures
            registry@.panics == Seq::<PanicView>::empty(),
            registry@.backtrace_resolution_limit == DEFAULT_BACKTRACE_RESOLUTION_LIMIT,
            !registry@.is_running,
    {
        Self::new()
    }
}

/// Arming succeeded: the previous run's records are gone, the registry is
/// marked running, and the configured resolution limit is kept for this run.
pub open spec fn armed_for_run(pre: RegistryView, post: RegistryView) -> bool {
    &&& !pre.is_running
    &&& post.is_running
    &&& post.panics == Seq::<PanicView>::empty()
    &&& post.backtrace_resolution_limit == pre.backtrace_resolution_limit
}

/// One panic was recorded: appended in arrival order, nothing else moved.
pub open spec fn recorded_one(pre: RegistryView, post: RegistryView, p: PanicView) -> bool {
    &&& post.panics == pre.panics.push(p)
    &&& post.backtrace_resolution_limit == pre.backtrace_resolution_limit
    &&& post.is_running == pre.is_running
}

/// A batch of panics was recorded, one at a time, in arrival order.
pub open spec fn recorded_all(pre: RegistryView, post: RegistryView, ps: Seq<PanicView>) -> bool {
    &&& post.panics == pre.panics + ps
    &&& post.backtrace_resolution_limit == pre.backtrace_resolution_limit
    &&& post.is_running == pre.is_running
}

/// The run was disarmed: records are kept for querying, the resolution limit
/// is restored to its default, and the registry is no longer running.
pub open spec fn disarmed_after(pre: RegistryView, post: RegistryView) -> bool {
    &&& post.panics == pre.panics
    &&& post.backtrace_resolution_limit == DEFAULT_BACKTRACE_RESOLUTION_LIMIT
    &&& !post.is_running
}

/// After reconciliation the records are unchanged, except that every record
/// whose index is under the resolution limit now has a resolved backtrace.
pub open spec fn resolved_up_to(pre: Seq<PanicView>, post: Seq<PanicView>, limit: usize) -> bool {
    &&& post.len() == pre.len()
    &&& forall|i: int|
        0 <= i < pre.len() ==> #[trigger] post[i] == (PanicView {
            backtrace_resolved: pre[i].backtrace_resolved || i < limit,
            ..pre[i]
        })
}

/// How many diagnostics precede the per-record reports of a failed run: the
/// count, plus the swallowed-result warning when a value was discarded.
pub open spec fn report_base(swallowed: bool) -> int {
    if swallowed {
        2int
    } else {
        1int
    }
}

/// Where the report line for record `i` stands among the diagnostics of a
/// failed run: after the optional swallowed-result warning and the count
/// (together `base` entries), shifted by one more once past the limit, where
/// the one-time limit warning is inserted.
pub open spec fn report_index(i: int, limit: usize, base: int) -> int {
    base + i + if i >= limit {
        1int
    } else {
        0int
    }
}

/// The report line for record `i` carries its thread, its message, and a
/// backtrace exactly when the record's backtrace ends up resolved.
pub open spec fn report_entry(
    records: Seq<PanicView>,
    limit: usize,
    base: int,
    diags: Seq<DiagView>,
    i: int,
) -> bool {
    &&& diags[report_index(i, limit, base)] matches DiagView::PanicReport {
        thread,
        message,
        backtrace,
    }
    &&& thread == records[i].thread
    &&& message == records[i].message
    &&& (backtrace is Some <==> (records[i].backtrace_resolved || i < limit))
}

/// The diagnostics of a failed run: the swallowed-result warning when a value
/// was discarded, the count of panicking threads, then one report per record
/// in arrival order, with the one-time warning standing exactly where the
/// resolution limit was reached.
pub open spec fn report_shape(
    records: Seq<PanicView>,
    limit: usize,
    swallowed: bool,
    diags: Seq<DiagView>,
) -> bool {
    let base: int = report_base(swallowed);
    &&& diags.len() == base + records.len() + (if records.len() > limit {
        1int
    } else {
        0int
    })
    &&& (swallowed ==> diags[0] matches DiagView::ResultSwallowed { .. })
    &&& (diags[base - 1] matches DiagView::PanicCount { count } && count == records.len())
    &&& (records.len() > limit ==> (diags[base + limit] matches DiagView::BacktraceLimitReached {
        limit: l,
    } && l == limit))
    &&& forall|i: int| 0 <= i < records.len() ==> #[trigger] report_entry(records, limit, base, diags, i)
}

/// The whole reconciliation step, relating the registry before and after,
/// whether the work returned a value, whether that value was handed back,
/// and the diagnostics the step produced. Exactly the clean run — a value
/// returned while not a single panic was recorded anywhere — hands the value
/// back, and it does so silently; every other run fails with a full report
/// and backtraces resolved up to the limit.
pub open spec fn reconcile_rel(
    pre: RegistryView,
    post: RegistryView,
    had_value: bool,
    returned: bool,
    diags: Seq<DiagView>,
) -> bool {
    &&& post.is_running == pre.is_running
    &&& post.backtrace_resolution_limit == pre.backtrace_resolution_limit
    &&& returned == (had_value && pre.panics.len() == 0)
    &&& if had_value && pre.panics.len() == 0 {
        post == pre && diags.len() == 0
    } else {
        &&& resolved_up_to(pre.panics, post.panics, pre.backtrace_resolution_limit)
        &&& report_shape(pre.panics, pre.backtrace_resolution_limit, had_value, diags)
    }
}

/// The placeholder reported for a swallowed result that has no `Debug` form.
pub open spec fn unprintable_text() -> Seq<char> {
    "<unprintable>"@
}

/// The fixed text a nested supervised run aborts with.
pub open spec fn nested_run_text() -> Seq<char> {
    "nested supervised runs are not supported"@
}

/// The message a nested supervised run aborts with: the host raises it as a
/// panic on the unit that attempted to arm an already armed registry.
pub fn nested_run_message() -> (message: String)
    ensures
        message@ == nested_run_text(),
{
    "nested supervised runs are not supported".to_owned()
}

impl Registry {
    /// A registry with no records, the default resolution limit, and no run
    /// in progress.
    pub fn new() -> (registry: Registry)
        ensures
            registry@.panics == Seq::<PanicView>::empty(),
            registry@.backtrace_resolution_limit == DEFAULT_BACKTRACE_RESOLUTION_LIMIT,
            !registry@.is_running,
    {
        let registry = Registry {
            panics: Vec::new(),
            backtrace_resolution_limit: DEFAULT_BACKTRACE_RESOLUTION_LIMIT,
            is_running: false,
        };
        proof {
            assert(registry@.panics =~= Seq::<PanicView>::empty());
        }
        registry
    }

    /// Starts a supervised run. Arming fails exactly when a run is already in
    /// progress, and then changes nothing: the caller must treat that as a
    /// fatal reentrancy violation (see [`nested_run_message`]). On success
    /// the previous run's records are cleared and the registry is marked
    /// running.
    pub fn arm(&mut self) -> (ok: bool)
        ensures
            ok == !old(self)@.is_running,
            ok ==> armed_for_run(old(self)@, final(self)@),
            !ok ==> final(self)@ == old(self)@,
    {
        if self.is_running {
            false
        } else {
            self.panics.clear();
            self.is_running = true;
            proof {
                assert(final(self)@.panics =~= Seq::<PanicView>::empty());
            }
            true
        }
    }

    /// Ends a supervised run: the resolution limit goes back to its default
    /// and the registry stops running. Records are kept, so the outcome of
    /// the run stays queryable until the next run is armed.
    pub fn disarm(&mut self)
        ensures
            disarmed_after(old(self)@, final(self)@),
    {
        self.backtrace_resolution_limit = DEFAULT_BACKTRACE_RESOLUTION_LIMIT;
        self.is_running = false;
    }

    /// Sets the backtrace-resolution limit for the coming run.
    pub fn set_backtrace_resolution_limit(&mut self, limit: usize)
        ensures
            final(self)@.backtrace_resolution_limit == limit,
            final(self)@.panics == old(self)@.panics,
            final(self)@.is_running == old(self)@.is_running,
    {
        self.backtrace_resolution_limit = limit;
    }

    /// Records one panic: called by the process-wide hook, under the registry
    /// lock, for every panic on any thread while a run is armed. Returns the
    /// diagnostic announcing the capture, which the host emits at error
    /// severity.
    pub fn register_panic(&mut self, message: String, thread_id: u64, thread: String) -> (d:
        Diagnostic)
        ensures
            recorded_one(
                old(self)@,
                final(self)@,
                PanicView { message: message@, thread_id, thread: thread@, backtrace_resolved: false },
            ),
            d@ == (DiagView::PanicHandled { thread: thread@, message: message@ }),
    {
        let d = Diagnostic::PanicHandled { thread: thread.clone(), message: message.clone() };
        let p = Panic::capture(message, thread_id, thread);
        let ghost pre = self@;
        let ghost pv = p@;
        self.panics.push(p);
        proof {
            assert(final(self)@.panics =~= pre.panics.push(pv));
        }
        d
    }

    /// Whether any panic has been recorded since the last run was armed.
    pub fn has_panicked(&self) -> (failed: bool)
        ensures
            failed == (self@.panics.len() > 0),
    {
        !self.panics.is_empty()
    }

    /// Reconciles the outcome of the supervised work against the registry.
    ///
    /// `outcome` is `Some(value)` when the work returned normally and `None`
    /// when the work itself panicked — in the latter case its own panic has
    /// already been recorded, which is what the precondition states. If the
    /// work returned a value and nothing was recorded anywhere, the value is
    /// handed back and nothing else happens. Otherwise the run has failed: a
    /// returned value is discarded after being rendered through its `Debug`
    /// form, backtraces are resolved up to the configured limit, and the
    /// failure report is returned for the host to emit.
    pub fn reconcile<R: core::fmt::Debug>(&mut self, outcome: Option<R>) -> (res: (
        Option<R>,
        Vec<Diagnostic>,
    ))
        requires
            outcome is None ==> old(self)@.panics.len() > 0,
        ensures
            reconcile_rel(
                old(self)@,
                final(self)@,
                outcome is Some,
                res.0 is Some,
                diag_views(res.1@),
            ),
            res.0 == (if outcome is Some && old(self)@.panics.len() == 0 {
                outcome
            } else {
                Option::<R>::None
            }),
    {
        match outcome {
            Some(value) => {
                if !self.has_panicked() {
                    let diags: Vec<Diagnostic> = Vec::new();
                    return (Some(value), diags);
                }
                let formatted = format_debug(&value);
                let diags = self.emit_report(Some(formatted));
                (None, diags)
            },
            None => {
                let diags = self.emit_report(None);
                (None, diags)
            },
        }
    }

    /// Like [`Registry::reconcile`], for work whose result has no `Debug`
    /// form: a discarded value is reported as the fixed placeholder text
    /// instead of its rendering.
    pub fn reconcile_no_debug<R>(&mut self, outcome: Option<R>) -> (res: (
        Option<R>,
        Vec<Diagnostic>,
    ))
        requires
            outcome is None ==> old(self)@.panics.len() > 0,
        ensures
            reconcile_rel(
                old(self)@,
                final(self)@,
                outcome is Some,
                res.0 is Some,
                diag_views(res.1@),
            ),
            res.0 == (if outcome is Some && old(self)@.panics.len() == 0 {
                outcome
            } else {
                Option::<R>::None
            }),
            (outcome is Some && old(self)@.panics.len() > 0) ==> diag_views(res.1@)[0]
                == (DiagView::ResultSwallowed { formatted: unprintable_text() }),
    {
        match outcome {
            Some(value) => {
                if !self.has_panicked() {
                    let diags: Vec<Diagnostic> = Vec::new();
                    return (Some(value), diags);
                }
                let formatted = "<unprintable>".to_owned();
                let diags = self.emit_report(Some(formatted));
                (None, diags)
            },
            None => {
                let diags = self.emit_report(None);
                (None, diags)
            },
        }
    }

    /// Builds the failure report and resolves backtraces up to the limit:
    /// the swallowed-result warning if a value was discarded, the count of
    /// captured panics, then one report per record in arrival order, with a
    /// one-time warning once the resolution limit is reached.
    fn emit_report(&mut self, swallowed: Option<String>) -> (diags: Vec<Diagnostic>)
        ensures
            final(self)@.is_running == old(self)@.is_running,
            final(self)@.backtrace_resolution_limit == old(self)@.backtrace_resolution_limit,
            resolved_up_to(
                old(self)@.panics,
                final(self)@.panics,
                old(self)@.backtrace_resolution_limit,
            ),
            report_shape(
                old(self)@.panics,
                old(self)@.backtrace_resolution_limit,
                swallowed is Some,
                diag_views(diags@),
            ),
            swallowed matches Some(text) ==> diag_views(diags@)[0] == (DiagView::ResultSwallowed {
                formatted: text@,
            }),
    {
        let ghost pre = self@;
        let ghost sw: Option<Seq<char>> = match &swallowed {
            Some(text) => Some(text@),
            None => None,
        };
        let ghost base: int = report_base(sw is Some);
        let limit = self.backtrace_resolution_limit;
        let mut diags: Vec<Diagnostic> = Vec::new();
        match swallowed {
            Some(formatted) => {
                diags.push(Diagnostic::ResultSwallowed { formatted });
            },
            None => {},
        }
        let count = self.panics.len();
        diags.push(Diagnostic::PanicCount { count });
        let n = self.panics.len();
        let mut i: usize = 0;
        while i < n
            invariant
                n == pre.panics.len(),
                limit == pre.backtrace_resolution_limit,
                i <= n,
                self@.is_running == pre.is_running,
                self@.backtrace_resolution_limit == pre.backtrace_resolution_limit,
                self@.panics.len() == n,
                forall|j: int|
                    0 <= j < n ==> #[trigger] self@.panics[j] == (PanicView {
                        backtrace_resolved: pre.panics[j].backtrace_resolved || (j < i && j
                            < limit),
                        ..pre.panics[j]
                    }),
                base == report_base(sw is Some),
                diags@.len() == base + i + (if i > limit {
                    1int
                } else {
                    0int
                }),
                sw matches Some(text) ==> diag_views(diags@)[0] == (DiagView::ResultSwallowed {
                    formatted: text,
                }),
                (diag_views(diags@)[base - 1] matches DiagView::PanicCount { count: c } && c == n),
                i > limit ==> (diag_views(diags@)[base + limit] matches
                    DiagView::BacktraceLimitReached { limit: l } && l == limit),
                forall|j: int|
                    0 <= j < i ==> #[trigger] report_entry(
                        pre.panics,
                        limit,
                        base,
                        diag_views(diags@),
                        j,
                    ),
            decreases n - i,
        {
            let ghost prev_panics = self@.panics;
            let ghost entry_diags = diag_views(diags@);
            if i < limit {
                let p = &mut self.panics[i];
                p.resolve();
                proof {
                    assert(self@.panics.len() == n);
                    assert(prev_panics[i as int] == (PanicView {
                        backtrace_resolved: pre.panics[i as int].backtrace_resolved,
                        ..pre.panics[i as int]
                    }));
                    assert(self@.panics[i as int] == (PanicView {
                        backtrace_resolved: true,
                        ..prev_panics[i as int]
                    }));
                    assert forall|j: int| 0 <= j < n implies #[trigger] self@.panics[j] == (
                    PanicView {
                        backtrace_resolved: pre.panics[j].backtrace_resolved || (j < i + 1 && j
                            < limit),
                        ..pre.panics[j]
                    }) by {
                        if j != i {
                            assert(self@.panics[j] == prev_panics[j]);
                        }
                    }
                }
            } else if i == limit {
                diags.push(Diagnostic::BacktraceLimitReached { limit });
            }
            let ghost mid_diags = diag_views(diags@);
            let p = &self.panics[i];
            let backtrace = if p.is_backtrace_resolved() {
                Some(trace::format_backtrace(p.backtrace()))
            } else {
                None
            };
            let report = Diagnostic::PanicReport {
                thread: p.thread_name().to_owned(),
                message: p.message().to_owned(),
                backtrace,
            };
            diags.push(report);
            proof {
                assert(mid_diags.len() == base + i + (if i >= limit {
                    1int
                } else {
                    0int
                }));
                assert(diag_views(diags@)[report_index(i as int, limit, base)] == report@);
                assert(p@ == self@.panics[i as int]);
                assert(self@.panics[i as int].thread == pre.panics[i as int].thread);
                assert(self@.panics[i as int].message == pre.panics[i as int].message);
                assert(self@.panics[i as int].backtrace_resolved == (pre.panics[
                    i as int
                ].backtrace_resolved || (i as int) < limit));
                assert(report_entry(pre.panics, limit, base, diag_views(diags@), i as int));
                assert forall|j: int| 0 <= j < i + 1 implies #[trigger] report_entry(
                    pre.panics,
                    limit,
                    base,
                    diag_views(diags@),
                    j,
                ) by {
                    if j < i {
                        assert(report_entry(pre.panics, limit, base, entry_diags, j));
                        assert(report_index(j, limit, base) < entry_diags.len());
                        assert(diag_views(diags@)[report_index(j, limit, base)]
                            == entry_diags[report_index(j, limit, base)]);
                    }
                }
            }
            i = i + 1;
        }
        diags
    }

    /// A snapshot copy of the captured panics, in arrival order; safe to hold
    /// on to after the run.
    pub fn panics(&self) -> (copies: Vec<Panic>)
        ensures
            copies@.len() == self@.panics.len(),
            forall|i: int| 0 <= i < copies@.len() ==> copies@[i]@ == self@.panics[i],
    {
        let mut copies: Vec<Panic> = Vec::new();
        let mut i: usize = 0;
        while i < self.panics.len()
            invariant
                i <= self.panics@.len(),
                copies@.len() == i,
                forall|j: int| 0 <= j < i ==> copies@[j]@ == self@.panics[j],
            decreases self.panics@.len() - i,
        {
            copies.push(self.panics[i].clone());
            i = i + 1;
        }
        copies
    }
}

} // verus!
