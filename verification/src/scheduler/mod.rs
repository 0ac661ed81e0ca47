//! Concurrency throttling for agent sessions.
//!
//! [`Scheduler`] composes the five global permit pools ([`permits`]) with the
//! per-backend limiters ([`backend_limiter`]); a backend request needs a
//! permit from both.

use vstd::prelude::*;

use crate::ids::BackendId;

pub mod backend_limiter;
pub mod config;
pub mod permits;
pub mod rate_window;

pub use backend_limiter::BackendRateLimits;
pub use config::{CapacityError, SchedulerConfig};
pub use permits::{PermitSnapshot, SchedulerSnapshot};

use backend_limiter::BackendLimiters;
use permits::GlobalPermits;

verus! {

/// Top-level concurrency throttle of the runtime.
pub struct Scheduler {
    pub permits: GlobalPermits,
    pub backend_limiters: BackendLimiters,
}

impl Scheduler {
    /// Whether the pools and the limiters are well-formed.
    pub open spec fn wf(&self) -> bool {
        self.permits.wf() && self.backend_limiters.wf()
    }

    /// A scheduler with the given capacities and no per-backend limits.
    pub fn new(config: SchedulerConfig) -> (r: Self)
        requires
            config.valid(),
        ensures
            r.wf(),
            r.permits.config() == config,
            r.backend_limiters.current() == Map::<u128, usize>::empty(),
    {
        Scheduler { permits: GlobalPermits::new(config), backend_limiters: BackendLimiters::new() }
    }

    /// Capacity and utilization of every permit pool now. Which counts the
    /// pools report rests on the time of the call.
    pub fn snapshot(&self) -> (r: SchedulerSnapshot)
        ensures
            exists|available: permits::AvailablePermits|
                self.permits.counted(available) && #[trigger] r.reports(
                    self.permits.config(),
                    available,
                ),
    {
        self.permits.snapshot()
    }

    /// Configures per-backend limits, replacing earlier ones for requests that
    /// start from now on.
    pub fn configure_backend_limits(&mut self, backend: BackendId, limits: BackendRateLimits)
        requires
            old(self).wf(),
            limits.max_concurrent_requests <= crate::outside::max_permits(),
        ensures
            final(self).wf(),
            final(self).permits == old(self).permits,
            final(self).backend_limiters.states().drop_last() == old(
                self,
            ).backend_limiters.states(),
            final(self).backend_limiters.states().len() == old(
                self,
            ).backend_limiters.states().len() + 1,
            final(self).backend_limiters.states().last().limits() == limits,
            final(self).backend_limiters.states().last().window() == Seq::<(u64, u64)>::empty(),
            final(self).backend_limiters.current() == old(self).backend_limiters.current().insert(
                backend.0,
                old(self).backend_limiters.states().len() as usize,
            ),
    {
        self.backend_limiters.configure(backend, limits);
    }
}

} // verus!
