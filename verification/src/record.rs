//! One captured panic: an immutable snapshot of the failure, plus a backtrace
//! handle whose resolution is deferred.

use vstd::prelude::*;

use crate::trace;

verus! {

/// Describes a panic that has occurred.
///
/// The record is created by the recorder with an unresolved backtrace;
/// `backtrace_resolved` becomes true at most once, during reconciliation,
/// and only for records within the configured resolution limit.
#[derive(Debug)]
pub struct Panic {
    pub(crate) message: String,
    pub(crate) thread_id: u64,
    pub(crate) thread: String,
    pub(crate) backtrace: backtrace::Backtrace,
    pub(crate) backtrace_resolved: bool,
}

/// The mathematical content of a [`Panic`]: everything the contracts speak
/// about. The backtrace handle is opaque and carries no spec-level content.
pub struct PanicView {
    pub message: Seq<char>,
    pub thread_id: u64,
    pub thread: Seq<char>,
    pub backtrace_resolved: bool,
}

impl View for Panic {
    type V = PanicView;

    closed spec fn view(&self) -> PanicView {
        PanicView {
            message: self.message@,
            thread_id: self.thread_id,
            thread: self.thread@,
            backtrace_resolved: self.backtrace_resolved,
        }
    }
}

impl Panic {
    /// Creates the record for a panic that just happened on the unit named by
    /// `thread_id` and `thread`, capturing an unresolved backtrace.
    pub(crate) fn capture(message: String, thread_id: u64, thread: String) -> (p: Panic)
        ensures
            p@ == (PanicView {
                message: message@,
                thread_id,
                thread: thread@,
                backtrace_resolved: false,
            }),
    {
        Panic {
            message,
            thread_id,
            thread,
            backtrace: trace::capture_backtrace(),
            backtrace_resolved: false,
        }
    }

    /// Resolves the backtrace and marks it so; everything else is untouched.
    pub(crate) fn resolve(&mut self)
        ensures
            final(self)@ == (PanicView { backtrace_resolved: true, ..old(self)@ }),
    {
        trace::resolve_backtrace(&mut self.backtrace);
        self.backtrace_resolved = true;
    }

    /// Whether the backtrace for this panic has been resolved.
    pub fn is_backtrace_resolved(&self) -> (resolved: bool)
        ensures
            resolved == self@.backtrace_resolved,
    {
        self.backtrace_resolved
    }

    /// The panic message.
    pub fn message(&self) -> (message: &str)
        ensures
            message@ == self@.message,
    {
        self.message.as_str()
    }

    /// The identifier of the thread that this panic occurred on.
    pub fn thread_id(&self) -> (id: u64)
        ensures
            id == self@.thread_id,
    {
        self.thread_id
    }

    /// A string describing the thread, e.g. "ThreadId(12) (worker-thread)".
    pub fn thread_name(&self) -> (name: &str)
        ensures
            name@ == self@.thread,
    {
        self.thread.as_str()
    }

    /// The backtrace for this panic.
    pub fn backtrace(&self) -> &backtrace::Backtrace {
        &self.backtrace
    }
}

impl Clone for Panic {
    /// A copy that agrees on every recorded fact; the backtrace handle is
    /// cloned through the `backtrace` crate.
    fn clone(&self) -> (copy: Self)
        ensures
            copy@ == self@,
    {
        Panic {
            message: self.message.clone(),
            thread_id: self.thread_id,
            thread: self.thread.clone(),
            backtrace: trace::clone_backtrace(&self.backtrace),
            backtrace_resolved: self.backtrace_resolved,
        }
    }
}

} // verus!
