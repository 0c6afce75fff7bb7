//! Backtrace capture and resolution, through the `backtrace` crate.
//!
//! A backtrace is captured cheaply and unresolved at the moment a panic is
//! recorded; symbolization is deferred to reconciliation, where it is
//! rate-limited. The handle itself is opaque: no contract in this crate
//! depends on what a backtrace contains, only on whether it was resolved,
//! which the registry tracks itself.

use vstd::prelude::*;

verus! {

#[verifier::external_type_specification]
#[verifier::external_body]
pub struct ExBacktrace(backtrace::Backtrace);

/// Relies on `backtrace::Backtrace::new_unresolved`: captures the current
/// call stack without resolving any symbols.
#[verifier::external_body]
pub(crate) fn capture_backtrace() -> backtrace::Backtrace {
    backtrace::Backtrace::new_unresolved()
}

/// Relies on `backtrace::Backtrace::resolve`: resolves the captured addresses
/// to symbolic names, in place; does nothing on an already resolved trace.
#[verifier::external_body]
pub(crate) fn resolve_backtrace(backtrace: &mut backtrace::Backtrace) {
    backtrace.resolve();
}

/// Relies on `backtrace::Backtrace::clone` (a derived clone of its frames).
#[verifier::external_body]
pub(crate) fn clone_backtrace(backtrace: &backtrace::Backtrace) -> backtrace::Backtrace {
    backtrace.clone()
}

/// Relies on the `Debug` rendering of `backtrace::Backtrace`: one line per
/// frame, with symbol names for the frames that have been resolved.
#[verifier::external_body]
pub(crate) fn format_backtrace(backtrace: &backtrace::Backtrace) -> String {
    format!("{:?}", backtrace)
}

} // verus!
