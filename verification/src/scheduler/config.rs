//! Scheduler capacities and the typed admission rejection.

use vstd::prelude::*;

verus! {

/// How `{:?}` prints a duration of that many nanoseconds.
pub uninterp spec fn duration_text(nanos: u64) -> Seq<char>;

/// Formats `Duration::from_nanos(nanos)` with `{:?}`; the result is a function
/// of the number of nanoseconds.
#[verifier::external_body]
fn format_duration(nanos: u64) -> (r: String)
    ensures
        r@ == duration_text(nanos),
{
    format!("{:?}", std::time::Duration::from_nanos(nanos))
}

/// Capacities of the scheduler's permit pools.
///
/// Each field controls the maximum number of concurrent operations in its
/// category.
#[derive(Clone, Debug)]
pub struct SchedulerConfig {
    /// Maximum number of sessions that can be active at once.
    pub max_active_sessions: usize,
    /// Maximum number of agent runners across all sessions.
    pub max_active_agents: usize,
    /// Maximum number of agent runners per session: beyond it a spawn waits
    /// until one of them ends, no longer than [`Self::admission_timeout`].
    pub max_agents_per_session: usize,
    /// Maximum concurrent backend requests across all agents.
    pub max_concurrent_backend_requests: usize,
    /// Maximum concurrent tool executions across all agents.
    pub max_concurrent_tool_executions: usize,
    /// Maximum concurrent child processes spawned by tools.
    pub max_concurrent_processes: usize,
    /// How long a bounded admission waits for a permit, in nanoseconds.
    pub admission_timeout: u64,
}

impl SchedulerConfig {
    /// Whether every pool can be backed by a semaphore.
    pub open spec fn valid(&self) -> bool {
        &&& self.max_active_sessions <= crate::outside::max_permits()
        &&& self.max_active_agents <= crate::outside::max_permits()
        &&& self.max_concurrent_backend_requests <= crate::outside::max_permits()
        &&& self.max_concurrent_tool_executions <= crate::outside::max_permits()
        &&& self.max_concurrent_processes <= crate::outside::max_permits()
    }
}

impl Default for SchedulerConfig {
    /// Capacities for a single-user development environment.
    fn default() -> (r: Self)
        ensures
            r.max_active_sessions == 64,
            r.max_active_agents == 256,
            r.max_agents_per_session == 32,
            r.max_concurrent_backend_requests == 8,
            r.max_concurrent_tool_executions == 16,
            r.max_concurrent_processes == 8,
            r.admission_timeout == 5_000_000_000,
            r.valid(),
    {
        SchedulerConfig {
            max_active_sessions: 64,
            max_active_agents: 256,
            max_agents_per_session: 32,
            max_concurrent_backend_requests: 8,
            max_concurrent_tool_executions: 16,
            max_concurrent_processes: 8,
            admission_timeout: 5_000_000_000,
        }
    }
}

/// A bounded admission attempt timed out before a permit became available.
#[derive(Clone, Copy, Debug)]
pub struct CapacityError {
    /// Label of the permit pool.
    pub kind: &'static str,
    /// How long the caller waited, in nanoseconds.
    pub waited: u64,
}

impl CapacityError {
    /// The message shown to a caller.
    pub open spec fn message_view(self) -> Seq<char> {
        "at capacity: no "@ + self.kind@ + " permit became available within "@ + duration_text(
            self.waited,
        )
    }

    /// The message shown to a caller.
    pub fn message(&self) -> (r: String)
        ensures
            r@ == self.message_view(),
    {
        crate::text::concat3("at capacity: no ", self.kind, " permit became available within ").concat(
            format_duration(self.waited).as_str(),
        )
    }
}

/// What a bounded admission attempt answers: the permit when one was granted
/// within the timeout, the typed rejection when the timeout came first.
pub fn admission_outcome<P>(kind: &'static str, permit: Option<P>, waited: u64) -> (r: Result<
    P,
    CapacityError,
>)
    ensures
        match permit {
            Some(p) => r == Ok::<P, CapacityError>(p),
            None => r == Err::<P, CapacityError>(CapacityError { kind, waited }),
        },
{
    match permit {
        Some(p) => Ok(p),
        None => Err(CapacityError { kind, waited }),
    }
}

} // verus!
