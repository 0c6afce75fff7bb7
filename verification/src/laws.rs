//! What a whole supervised run guarantees.
//!
//! A run is a chain of the registry's transitions: arming
//! ([`armed_for_run`]), zero or more recordings ([`recorded_one`],
//! accumulated by [`recorded_all`]), reconciliation ([`reconcile_rel`]) and
//! disarming ([`disarmed_after`]). Each method's contract pins one
//! transition; the lemmas here state what the chains guarantee, so they hold
//! of every run the methods can produce.

use vstd::prelude::*;

use crate::diag::DiagView;
use crate::record::PanicView;
use crate::registry::RegistryView;
use crate::registry::armed_for_run;
use crate::registry::disarmed_after;
use crate::registry::nested_run_text;
use crate::registry::reconcile_rel;
use crate::registry::recorded_all;
use crate::registry::recorded_one;
use crate::registry::resolved_up_to;

verus! {

/// A run whose work returns a value while not a single panic is recorded
/// anywhere hands the value back, emits no diagnostic, and leaves nothing to
/// query: the registry still holds no record.
pub proof fn lemma_clean_run(
    s0: RegistryView,
    s1: RegistryView,
    s2: RegistryView,
    returned: bool,
    diags: Seq<DiagView>,
)
    requires
        armed_for_run(s0, s1),
        reconcile_rel(s1, s2, true, returned, diags),
    ensures
        returned,
        diags.len() == 0,
        s2.panics.len() == 0,
{
}

/// A run whose work panics once on the calling unit, with nothing else
/// failing, yields no value and exactly one record, which keeps the message
/// and the identity of that unit.
pub proof fn lemma_sole_panic_is_attributed(
    s0: RegistryView,
    s1: RegistryView,
    s2: RegistryView,
    s3: RegistryView,
    p: PanicView,
    returned: bool,
    diags: Seq<DiagView>,
)
    requires
        armed_for_run(s0, s1),
        recorded_one(s1, s2, p),
        reconcile_rel(s2, s3, false, returned, diags),
    ensures
        !returned,
        s3.panics.len() == 1,
        s3.panics[0].message == p.message,
        s3.panics[0].thread_id == p.thread_id,
{
    assert(s2.panics[0] == p);
}

/// Sequential reuse resets the registry: whatever records an earlier run
/// left behind, arming the next run clears them, and after that run
/// completes cleanly and is disarmed, nothing is left to query.
pub proof fn lemma_rearming_resets(
    s: RegistryView,
    t1: RegistryView,
    t2: RegistryView,
    t3: RegistryView,
    returned: bool,
    diags: Seq<DiagView>,
)
    requires
        armed_for_run(s, t1),
        reconcile_rel(t1, t2, true, returned, diags),
        disarmed_after(t2, t3),
    ensures
        returned,
        t3.panics.len() == 0,
{
}

/// Backtrace resolution is bounded by the limit: when a failed run's records
/// all arrive unresolved — as records made by the recorder do — exactly the
/// records whose index is under the limit end up resolved, whatever the
/// number of records.
pub proof fn lemma_resolution_respects_limit(
    pre: Seq<PanicView>,
    post: Seq<PanicView>,
    limit: usize,
)
    requires
        resolved_up_to(pre, post, limit),
        forall|i: int| 0 <= i < pre.len() ==> !(#[trigger] pre[i].backtrace_resolved),
    ensures
        post.len() == pre.len(),
        forall|i: int| 0 <= i < post.len() ==> ((#[trigger] post[i].backtrace_resolved) <==> i < limit),
{
}

/// Cross-thread attribution: when the work returns a value but the one
/// recorded panic came from elsewhere, the value is still withheld, the
/// swallowed result is the first thing reported, and the record keeps the
/// identity of the unit that panicked, not the caller's.
pub proof fn lemma_other_unit_failure_swallows_result(
    s0: RegistryView,
    s1: RegistryView,
    s2: RegistryView,
    s3: RegistryView,
    p: PanicView,
    returned: bool,
    diags: Seq<DiagView>,
)
    requires
        armed_for_run(s0, s1),
        recorded_one(s1, s2, p),
        reconcile_rel(s2, s3, true, returned, diags),
    ensures
        !returned,
        s3.panics.len() == 1,
        s3.panics[0].thread_id == p.thread_id,
        s3.panics[0].message == p.message,
        diags.len() > 0,
        diags[0] matches DiagView::ResultSwallowed { .. },
{
    assert(s2.panics[0] == p);
}

/// Nesting: arming an armed registry fails and changes nothing (that is
/// [`Registry::arm`]'s own contract); the violation aborts the attempting
/// unit with the fixed text, its recording lands in the outer run like any
/// other panic, and the outer run then reports exactly that one failure.
pub proof fn lemma_nested_run_reports_violation(
    s0: RegistryView,
    s1: RegistryView,
    s2: RegistryView,
    s3: RegistryView,
    p: PanicView,
    returned: bool,
    diags: Seq<DiagView>,
)
    requires
        armed_for_run(s0, s1),
        p.message == nested_run_text(),
        recorded_one(s1, s2, p),
        reconcile_rel(s2, s3, false, returned, diags),
    ensures
        !returned,
        s3.panics.len() == 1,
        s3.panics[0].message == nested_run_text(),
{
    assert(s2.panics[0] == p);
}

/// Recording a batch starts from nothing recorded.
pub proof fn lemma_recorded_all_empty(s: RegistryView)
    ensures
        recorded_all(s, s, Seq::<PanicView>::empty()),
{
    assert(s.panics + Seq::<PanicView>::empty() =~= s.panics);
}

/// Recording one more panic extends the batch recorded so far.
pub proof fn lemma_recorded_all_step(
    s: RegistryView,
    t: RegistryView,
    u: RegistryView,
    ps: Seq<PanicView>,
    p: PanicView,
)
    requires
        recorded_all(s, t, ps),
        recorded_one(t, u, p),
    ensures
        recorded_all(s, u, ps.push(p)),
{
    assert(s.panics + ps.push(p) =~= (s.panics + ps).push(p));
}

/// Every failure is kept: however many panics a run records, from however
/// many units, reconciliation reports a failed run that still holds them
/// all, in arrival order, each with its own message and unit.
pub proof fn lemma_every_failure_is_kept(
    s0: RegistryView,
    s1: RegistryView,
    s2: RegistryView,
    s3: RegistryView,
    ps: Seq<PanicView>,
    returned: bool,
    diags: Seq<DiagView>,
)
    requires
        armed_for_run(s0, s1),
        recorded_all(s1, s2, ps),
        ps.len() > 0,
        reconcile_rel(s2, s3, false, returned, diags),
    ensures
        !returned,
        s3.panics.len() == ps.len(),
        forall|i: int|
            0 <= i < ps.len() ==> (#[trigger] s3.panics[i].message) == ps[i].message
                && s3.panics[i].thread_id == ps[i].thread_id,
{
    assert(s2.panics =~= ps);
}

} // verus!
