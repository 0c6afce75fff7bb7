//! Per-run configuration for panic handling.

use vstd::prelude::*;

use crate::registry::DEFAULT_BACKTRACE_RESOLUTION_LIMIT;
use crate::registry::Registry;

verus! {

/// Builder for panic handling configuration.
///
/// The settings are applied to the registry when a run is armed and hold for
/// that run only: disarming restores the defaults.
#[derive(Clone)]
pub struct Builder {
    backtrace_resolution_limit: usize,
}

impl Builder {
    /// How many backtraces this configuration resolves per run.
    pub closed spec fn limit(&self) -> usize {
        self.backtrace_resolution_limit
    }

    /// A configuration with the default backtrace-resolution limit.
    pub fn new() -> (builder: Builder)
        ensures
            builder.limit() == DEFAULT_BACKTRACE_RESOLUTION_LIMIT,
    {
        Builder { backtrace_resolution_limit: DEFAULT_BACKTRACE_RESOLUTION_LIMIT }
    }

    /// Sets the limit on backtraces to resolve. Defaults to 8.
    ///
    /// Useful in the case where there are many threads panicking with the
    /// same reason, and it can take a long time to resolve them all.
    pub fn backtrace_resolution_limit(self, n: usize) -> (builder: Builder)
        ensures
            builder.limit() == n,
    {
        Builder { backtrace_resolution_limit: n }
    }

    /// Carries the configuration into the registry, as part of arming a run.
    pub fn apply_settings(&self, registry: &mut Registry)
        ensures
            final(registry)@.backtrace_resolution_limit == self.limit(),
            final(registry)@.panics == old(registry)@.panics,
            final(registry)@.is_running == old(registry)@.is_running,
    {
        registry.set_backtrace_resolution_limit(self.backtrace_resolution_limit);
    }
}

impl Default for Builder {
    /// Same as [`Builder::new`].
    fn default() -> (builder: Self)
        ensures
            builder.limit() == DEFAULT_BACKTRACE_RESOLUTION_LIMIT,
    {
        Self::new()
    }
}

} // verus!
