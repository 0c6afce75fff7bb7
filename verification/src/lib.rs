//! Application-wide panic handling: panics occurring on any thread during a
//! supervised run are captured into a shared registry, reported collectively,
//! and surfaced to the caller as the absence of a result.
//!
//! This crate holds the verified core: the failure registry and its lifecycle
//! (arming, recording, reconciliation, disarming). The process-wide pieces
//! that Verus cannot see — the global panic hook, the singleton mutex, and the
//! logging backends — live in a thin unverified shell around this library.

mod builder;
mod diag;
mod laws;
mod record;
mod registry;
mod trace;

pub use builder::Builder;
pub use diag::DiagView;
pub use diag::Diagnostic;
pub use diag::Severity;
pub use diag::diag_views;
pub use laws::lemma_clean_run;
pub use laws::lemma_every_failure_is_kept;
pub use laws::lemma_nested_run_reports_violation;
pub use laws::lemma_other_unit_failure_swallows_result;
pub use laws::lemma_rearming_resets;
pub use laws::lemma_recorded_all_empty;
pub use laws::lemma_recorded_all_step;
pub use laws::lemma_resolution_respects_limit;
pub use laws::lemma_sole_panic_is_attributed;
pub use record::Panic;
pub use record::PanicView;
pub use registry::DEFAULT_BACKTRACE_RESOLUTION_LIMIT;
pub use registry::Registry;
pub use registry::RegistryView;
pub use registry::armed_for_run;
pub use registry::disarmed_after;
pub use registry::nested_run_message;
pub use registry::nested_run_text;
pub use registry::reconcile_rel;
pub use registry::recorded_all;
pub use registry::recorded_one;
pub use registry::report_base;
pub use registry::report_entry;
pub use registry::report_index;
pub use registry::report_shape;
pub use registry::resolved_up_to;
pub use registry::unprintable_text;
