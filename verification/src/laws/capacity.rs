//! Laws of the permit pools.

use vstd::prelude::*;

use crate::scheduler::config::{admission_outcome, CapacityError, SchedulerConfig};
use crate::scheduler::permits::{
    cancellable_wait, in_use, permit_kind, snapshot_of, AvailablePermits, GlobalPermits,
    PermitKind, PermitSnapshot, PermitWait, Pool, SchedulerSnapshot,
};
use crate::scheduler::Scheduler;

verus! {

/// What is in use and what is left make up the capacity; nothing is in use
/// where more is left than that.
pub proof fn used_and_left_make_up_the_capacity(capacity: usize, available: usize, r: usize)
    requires
        call_ensures(in_use, (capacity, available), r),
    ensures
        available <= capacity ==> r + available == capacity,
        available > capacity ==> r == 0,
{
}

/// A wait for a permit gives up exactly when it is cancelled, even where a
/// permit is ready, and is granted exactly when one is.
pub proof fn a_cancelled_wait_takes_no_permit(cancelled: bool, ready: bool, r: PermitWait)
    requires
        call_ensures(cancellable_wait, (cancelled, ready), r),
    ensures
        r == PermitWait::Cancelled <==> cancelled,
        r == PermitWait::Granted <==> ready && !cancelled,
        r == PermitWait::Pending <==> !ready && !cancelled,
{
}

/// Every pool has its own label and takes its capacity from the setting of its
/// own kind.
pub proof fn every_pool_has_its_own_capacity(config: &SchedulerConfig, pool: Pool, r: PermitKind)
    requires
        call_ensures(permit_kind, (config, pool), r),
    ensures
        pool == Pool::Session ==> r.label@ == "session"@ && r.capacity
            == config.max_active_sessions,
        pool == Pool::Agent ==> r.label@ == "agent"@ && r.capacity == config.max_active_agents,
        pool == Pool::Backend ==> r.label@ == "backend"@ && r.capacity
            == config.max_concurrent_backend_requests,
        pool == Pool::Tool ==> r.label@ == "tool"@ && r.capacity
            == config.max_concurrent_tool_executions,
        pool == Pool::Process ==> r.label@ == "process"@ && r.capacity
            == config.max_concurrent_processes,
{
}

/// The pools are made with the capacities of their own settings: the semaphore
/// of each pool holds as many permits as its setting says, and the labels, the
/// capacities and the timeout that are reported are those configured.
pub proof fn pools_are_made_as_configured(
    config: SchedulerConfig,
    permits: GlobalPermits,
    pool: Pool,
    semaphore: &std::sync::Arc<tokio::sync::Semaphore>,
    kind: PermitKind,
    expected: PermitKind,
    timeout: u64,
)
    requires
        config.valid(),
        call_ensures(GlobalPermits::new, (config,), permits),
        call_ensures(GlobalPermits::semaphore, (&permits, pool), semaphore),
        call_ensures(GlobalPermits::kind, (&permits, pool), kind),
        call_ensures(permit_kind, (&config, pool), expected),
        call_ensures(GlobalPermits::admission_timeout, (&permits,), timeout),
    ensures
        kind.label@ == expected.label@,
        kind.capacity == expected.capacity,
        crate::outside::initial_permits(**semaphore) == expected.capacity,
        pool == Pool::Session ==> crate::outside::initial_permits(**semaphore)
            == config.max_active_sessions,
        pool == Pool::Agent ==> crate::outside::initial_permits(**semaphore)
            == config.max_active_agents,
        pool == Pool::Backend ==> crate::outside::initial_permits(**semaphore)
            == config.max_concurrent_backend_requests,
        pool == Pool::Tool ==> crate::outside::initial_permits(**semaphore)
            == config.max_concurrent_tool_executions,
        pool == Pool::Process ==> crate::outside::initial_permits(**semaphore)
            == config.max_concurrent_processes,
        timeout == config.admission_timeout,
{
}

/// Whether a snapshot entry is that of a pool with this label and capacity, of
/// which that many permits are left.
pub open spec fn entry_of(
    entry: PermitSnapshot,
    label: Seq<char>,
    capacity: usize,
    available: usize,
) -> bool {
    &&& entry.kind@ == label
    &&& entry.capacity == capacity
    &&& available <= capacity ==> entry.in_use + available == capacity
    &&& available > capacity ==> entry.in_use == 0
}

/// A snapshot lists the pools of sessions, agents, backend requests, tools and
/// processes, in this order, each with its own capacity and with what is taken
/// of its own permits.
pub proof fn a_snapshot_lists_every_pool(
    config: &SchedulerConfig,
    available: AvailablePermits,
    r: SchedulerSnapshot,
)
    requires
        call_ensures(snapshot_of, (config, available), r),
    ensures
        r.permits@.len() == 5,
        entry_of(r.permits@[0], "session"@, config.max_active_sessions, available.sessions),
        entry_of(r.permits@[1], "agent"@, config.max_active_agents, available.agents),
        entry_of(
            r.permits@[2],
            "backend"@,
            config.max_concurrent_backend_requests,
            available.backend_requests,
        ),
        entry_of(
            r.permits@[3],
            "tool"@,
            config.max_concurrent_tool_executions,
            available.tool_executions,
        ),
        entry_of(
            r.permits@[4],
            "process"@,
            config.max_concurrent_processes,
            available.processes,
        ),
{
    assert(Pool::listed(0) == Pool::Session);
    assert(Pool::listed(1) == Pool::Agent);
    assert(Pool::listed(2) == Pool::Backend);
    assert(Pool::listed(3) == Pool::Tool);
    assert(Pool::listed(4) == Pool::Process);
}

/// One entry of a snapshot counts what is taken of its own pool.
pub proof fn a_snapshot_entry_counts_its_pool(kind: PermitKind, available: usize, r: PermitSnapshot)
    requires
        call_ensures(PermitSnapshot::of, (kind, available), r),
    ensures
        entry_of(r, kind.label@, kind.capacity, available),
{
}

/// A snapshot of a scheduler now reports counts of its own pools, in the same
/// order and with the configured capacities.
pub proof fn a_scheduler_reports_its_own_pools(
    scheduler: &Scheduler,
    r: SchedulerSnapshot,
    direct: SchedulerSnapshot,
)
    requires
        call_ensures(Scheduler::snapshot, (scheduler,), r),
        call_ensures(GlobalPermits::snapshot, (&scheduler.permits,), direct),
    ensures
        r.permits@.len() == 5 && direct.permits@.len() == 5,
        reports_pool(r.permits@[0], scheduler.permits, Pool::Session, "session"@),
        reports_pool(r.permits@[1], scheduler.permits, Pool::Agent, "agent"@),
        reports_pool(r.permits@[2], scheduler.permits, Pool::Backend, "backend"@),
        reports_pool(r.permits@[3], scheduler.permits, Pool::Tool, "tool"@),
        reports_pool(r.permits@[4], scheduler.permits, Pool::Process, "process"@),
        reports_pool(direct.permits@[0], scheduler.permits, Pool::Session, "session"@),
        reports_pool(direct.permits@[4], scheduler.permits, Pool::Process, "process"@),
        r.permits@[0].capacity == scheduler.permits.config().max_active_sessions,
        r.permits@[1].capacity == scheduler.permits.config().max_active_agents,
        r.permits@[2].capacity == scheduler.permits.config().max_concurrent_backend_requests,
        r.permits@[3].capacity == scheduler.permits.config().max_concurrent_tool_executions,
        r.permits@[4].capacity == scheduler.permits.config().max_concurrent_processes,
{
    let config = scheduler.permits.config();
    let a = choose|a: AvailablePermits|
        scheduler.permits.counted(a) && #[trigger] r.reports(config, a);
    let b = choose|b: AvailablePermits|
        scheduler.permits.counted(b) && #[trigger] direct.reports(config, b);
    assert(Pool::listed(0) == Pool::Session);
    assert(Pool::listed(1) == Pool::Agent);
    assert(Pool::listed(2) == Pool::Backend);
    assert(Pool::listed(3) == Pool::Tool);
    assert(Pool::listed(4) == Pool::Process);
    assert(crate::outside::reported(scheduler.permits.pool(Pool::Session), a.of(Pool::Session)));
    assert(crate::outside::reported(scheduler.permits.pool(Pool::Agent), a.of(Pool::Agent)));
    assert(crate::outside::reported(scheduler.permits.pool(Pool::Backend), a.of(Pool::Backend)));
    assert(crate::outside::reported(scheduler.permits.pool(Pool::Tool), a.of(Pool::Tool)));
    assert(crate::outside::reported(scheduler.permits.pool(Pool::Process), a.of(Pool::Process)));
    assert(crate::outside::reported(scheduler.permits.pool(Pool::Session), b.of(Pool::Session)));
    assert(crate::outside::reported(scheduler.permits.pool(Pool::Process), b.of(Pool::Process)));
}

/// Whether a snapshot entry counts what is taken of a pool, going by a count
/// that the pool's own semaphore reports.
pub open spec fn reports_pool(
    entry: PermitSnapshot,
    permits: GlobalPermits,
    pool: Pool,
    label: Seq<char>,
) -> bool {
    exists|count: usize| #[trigger]
        crate::outside::reported(permits.pool(pool), count) && entry_of(
            entry,
            label,
            entry.capacity,
            count,
        )
}

/// An admission gives the permit exactly when there was one in time; otherwise
/// it says which pool it waited for, and how long.
pub proof fn an_admission_gives_the_permit<P>(
    kind: &'static str,
    permit: Option<P>,
    waited: u64,
    r: Result<P, CapacityError>,
)
    requires
        call_ensures(admission_outcome::<P>, (kind, permit, waited), r),
    ensures
        r is Ok <==> permit is Some,
        r is Ok ==> r->Ok_0 == permit->0,
        r is Err ==> r->Err_0.kind@ == kind@ && r->Err_0.waited == waited,
{
}

/// A refused admission says which pool was full, and for how long.
pub proof fn a_refused_admission_says_which_pool_was_full(error: &CapacityError, r: String)
    requires
        call_ensures(CapacityError::message, (error,), r),
    ensures
        r@ == "at capacity: no "@ + error.kind@ + " permit became available within "@
            + crate::scheduler::config::duration_text(error.waited),
{
}

/// The default capacities: those of one user's sessions, agents, requests, tools
/// and processes, how they relate to one another, and five seconds to wait for
/// any of them.
pub proof fn the_default_capacities_suit_one_another(r: SchedulerConfig)
    requires
        call_ensures(SchedulerConfig::default, (), r),
    ensures
        r.max_active_sessions == 64,
        r.max_active_agents == 4 * r.max_active_sessions,
        2 * r.max_agents_per_session == r.max_active_sessions,
        r.max_concurrent_backend_requests == 8,
        r.max_concurrent_tool_executions == 2 * r.max_concurrent_backend_requests,
        r.max_concurrent_processes == r.max_concurrent_backend_requests,
        r.admission_timeout == 5 * 1_000_000_000,
        r.valid(),
{
}

/// A scheduler is made with the configured capacities and without limits on
/// any backend.
pub proof fn a_scheduler_starts_without_backend_limits(
    config: SchedulerConfig,
    r: Scheduler,
    backend: crate::ids::BackendId,
    found: Option<usize>,
)
    requires
        config.valid(),
        call_ensures(Scheduler::new, (config,), r),
        call_ensures(
            crate::scheduler::backend_limiter::BackendLimiters::begin,
            (&r.backend_limiters, backend),
            found,
        ),
    ensures
        found is None,
        r.permits.config() == config,
{
}

/// Limits of a backend set through the scheduler are those that its requests
/// wait at, and the pools stay as they are.
pub proof fn a_scheduler_limits_the_backend_it_is_told(
    scheduler: &mut Scheduler,
    backend: crate::ids::BackendId,
    limits: crate::scheduler::BackendRateLimits,
    other: crate::ids::BackendId,
    before: Option<usize>,
    after: Option<usize>,
    i: int,
)
    requires
        old(scheduler).wf(),
        old(scheduler).backend_limiters.states().len() < usize::MAX,
        limits.max_concurrent_requests <= crate::outside::max_permits(),
        call_ensures(Scheduler::configure_backend_limits, (scheduler, backend, limits), ()),
        call_ensures(
            crate::scheduler::backend_limiter::BackendLimiters::begin,
            (&old(scheduler).backend_limiters, other),
            before,
        ),
        call_ensures(
            crate::scheduler::backend_limiter::BackendLimiters::begin,
            (&final(scheduler).backend_limiters, other),
            after,
        ),
    ensures
        0 <= i < old(scheduler).backend_limiters.states().len()
            ==> final(scheduler).backend_limiters.states()[i]
            == old(scheduler).backend_limiters.states()[i],
        other == backend ==> after is Some
            && final(scheduler).backend_limiters.states()[after->0 as int].window().len() == 0,
        final(scheduler).permits == old(scheduler).permits,
        other != backend ==> after == before,
        other == backend ==> after is Some
            && final(scheduler).backend_limiters.states()[after->0 as int].limits() == limits,
{
    assert(other != backend ==> other.0 != backend.0);
    if 0 <= i < old(scheduler).backend_limiters.states().len() {
        assert(final(scheduler).backend_limiters.states().drop_last()[i]
            == final(scheduler).backend_limiters.states()[i]);
    }
    let n = old(scheduler).backend_limiters.states().len() as int;
    assert(final(scheduler).backend_limiters.states()[n]
        == final(scheduler).backend_limiters.states().last());
}

} // verus!
