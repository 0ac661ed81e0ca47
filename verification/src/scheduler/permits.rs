//! Global concurrency ceilings: the session, agent, backend-request, tool and
//! process pools.

use std::sync::Arc;

use vstd::prelude::*;

use crate::outside::{available_permits, new_semaphore};
use crate::scheduler::config::SchedulerConfig;

verus! {

/// One permit pool's capacity and utilization at a point in time.
#[derive(Clone, Copy, Debug)]
pub struct PermitSnapshot {
    pub kind: &'static str,
    pub capacity: usize,
    pub in_use: usize,
}

/// Utilization of every permit pool at a point in time.
#[derive(Clone, Debug)]
pub struct SchedulerSnapshot {
    pub permits: Vec<PermitSnapshot>,
}

/// The five permit pools.
#[derive(Clone, Copy, Debug, PartialEq, Eq, Structural)]
pub enum Pool {
    Session,
    Agent,
    Backend,
    Tool,
    Process,
}

/// Label and capacity of one permit pool.
#[derive(Clone, Copy, Debug)]
pub struct PermitKind {
    pub label: &'static str,
    pub capacity: usize,
}

impl Pool {
    /// The pool's label.
    pub open spec fn label_view(self) -> Seq<char> {
        match self {
            Pool::Session => "session"@,
            Pool::Agent => "agent"@,
            Pool::Backend => "backend"@,
            Pool::Tool => "tool"@,
            Pool::Process => "process"@,
        }
    }

    /// The pool's configured capacity.
    pub open spec fn capacity_in(self, config: SchedulerConfig) -> usize {
        match self {
            Pool::Session => config.max_active_sessions,
            Pool::Agent => config.max_active_agents,
            Pool::Backend => config.max_concurrent_backend_requests,
            Pool::Tool => config.max_concurrent_tool_executions,
            Pool::Process => config.max_concurrent_processes,
        }
    }

    /// The pools in the order in which a snapshot lists them.
    pub open spec fn listed(i: int) -> Pool {
        if i == 0 {
            Pool::Session
        } else if i == 1 {
            Pool::Agent
        } else if i == 2 {
            Pool::Backend
        } else if i == 3 {
            Pool::Tool
        } else {
            Pool::Process
        }
    }
}

/// How many of `capacity` permits are taken when `available` are left.
pub open spec fn taken(capacity: usize, available: usize) -> int {
    if available <= capacity {
        capacity - available
    } else {
        0
    }
}

/// Counts the permits in use; never below zero.
pub fn in_use(capacity: usize, available: usize) -> (r: usize)
    ensures
        r == taken(capacity, available),
{
    capacity.saturating_sub(available)
}

/// What a cancellable wait for a permit does next.
#[derive(Clone, Copy, Debug, PartialEq, Eq, Structural)]
pub enum PermitWait {
    /// Keep waiting.
    Pending,
    /// Hand the permit out.
    Granted,
    /// Give up without a permit.
    Cancelled,
}

/// Decides a cancellable wait: cancellation goes before a permit that became
/// ready at the same time.
pub fn cancellable_wait(cancelled: bool, permit_ready: bool) -> (r: PermitWait)
    ensures
        r == (if cancelled {
            PermitWait::Cancelled
        } else if permit_ready {
            PermitWait::Granted
        } else {
            PermitWait::Pending
        }),
{
    if cancelled {
        PermitWait::Cancelled
    } else if permit_ready {
        PermitWait::Granted
    } else {
        PermitWait::Pending
    }
}

impl PermitSnapshot {
    /// The entry of a pool of which `available` permits are left.
    pub fn of(kind: PermitKind, available: usize) -> (r: Self)
        ensures
            r.kind@ == kind.label@,
            r.capacity == kind.capacity,
            r.in_use == taken(kind.capacity, available),
    {
        PermitSnapshot {
            kind: kind.label,
            capacity: kind.capacity,
            in_use: in_use(kind.capacity, available),
        }
    }
}

/// Label and configured capacity of a pool.
pub fn permit_kind(config: &SchedulerConfig, pool: Pool) -> (r: PermitKind)
    ensures
        r.label@ == pool.label_view(),
        r.capacity == pool.capacity_in(*config),
{
    match pool {
        Pool::Session => PermitKind { label: "session", capacity: config.max_active_sessions },
        Pool::Agent => PermitKind { label: "agent", capacity: config.max_active_agents },
        Pool::Backend => PermitKind {
            label: "backend",
            capacity: config.max_concurrent_backend_requests,
        },
        Pool::Tool => PermitKind {
            label: "tool",
            capacity: config.max_concurrent_tool_executions,
        },
        Pool::Process => PermitKind { label: "process", capacity: config.max_concurrent_processes },
    }
}

/// The number of permits left in each pool.
#[derive(Clone, Copy, Debug)]
pub struct AvailablePermits {
    pub sessions: usize,
    pub agents: usize,
    pub backend_requests: usize,
    pub tool_executions: usize,
    pub processes: usize,
}

impl AvailablePermits {
    /// The number of permits left in `pool`.
    pub open spec fn of(self, pool: Pool) -> usize {
        match pool {
            Pool::Session => self.sessions,
            Pool::Agent => self.agents,
            Pool::Backend => self.backend_requests,
            Pool::Tool => self.tool_executions,
            Pool::Process => self.processes,
        }
    }
}

impl SchedulerSnapshot {
    /// Whether the snapshot reports, pool by pool, the configured capacities
    /// and the permits taken when `available` are left.
    pub open spec fn reports(self, config: SchedulerConfig, available: AvailablePermits) -> bool {
        &&& self.permits@.len() == 5
        &&& forall|i: int|
            0 <= i < 5 ==> {
                let entry = #[trigger] self.permits@[i];
                &&& entry.kind@ == Pool::listed(i).label_view()
                &&& entry.capacity == Pool::listed(i).capacity_in(config)
                &&& entry.in_use == taken(entry.capacity, available.of(Pool::listed(i)))
            }
    }
}

/// Builds a snapshot from the permits left in each pool.
pub fn snapshot_of(config: &SchedulerConfig, available: AvailablePermits) -> (r: SchedulerSnapshot)
    ensures
        r.reports(*config, available),
{
    let mut permits: Vec<PermitSnapshot> = Vec::new();
    permits.push(PermitSnapshot::of(permit_kind(config, Pool::Session), available.sessions));
    permits.push(PermitSnapshot::of(permit_kind(config, Pool::Agent), available.agents));
    permits.push(PermitSnapshot::of(permit_kind(config, Pool::Backend), available.backend_requests));
    permits.push(PermitSnapshot::of(permit_kind(config, Pool::Tool), available.tool_executions));
    permits.push(PermitSnapshot::of(permit_kind(config, Pool::Process), available.processes));
    SchedulerSnapshot { permits }
}

/// Owns the five semaphores behind the permit pools.
pub struct GlobalPermits {
    sessions: Arc<tokio::sync::Semaphore>,
    agents: Arc<tokio::sync::Semaphore>,
    backend_requests: Arc<tokio::sync::Semaphore>,
    tool_executions: Arc<tokio::sync::Semaphore>,
    processes: Arc<tokio::sync::Semaphore>,
    config: SchedulerConfig,
}

impl GlobalPermits {
    /// The configured capacities.
    pub closed spec fn config(&self) -> SchedulerConfig {
        self.config
    }

    /// The semaphore behind `pool`.
    pub closed spec fn pool(&self, pool: Pool) -> tokio::sync::Semaphore {
        match pool {
            Pool::Session => *self.sessions,
            Pool::Agent => *self.agents,
            Pool::Backend => *self.backend_requests,
            Pool::Tool => *self.tool_executions,
            Pool::Process => *self.processes,
        }
    }

    /// Whether every pool was made with its configured capacity.
    pub open spec fn wf(&self) -> bool {
        forall|pool: Pool|
            crate::outside::initial_permits(#[trigger] self.pool(pool)) == pool.capacity_in(
                self.config(),
            )
    }

    /// Makes the pools with the configured capacities.
    pub fn new(config: SchedulerConfig) -> (r: Self)
        requires
            config.valid(),
        ensures
            r.wf(),
            r.config() == config,
    {
        GlobalPermits {
            sessions: Arc::new(new_semaphore(config.max_active_sessions)),
            agents: Arc::new(new_semaphore(config.max_active_agents)),
            backend_requests: Arc::new(new_semaphore(config.max_concurrent_backend_requests)),
            tool_executions: Arc::new(new_semaphore(config.max_concurrent_tool_executions)),
            processes: Arc::new(new_semaphore(config.max_concurrent_processes)),
            config,
        }
    }

    /// The semaphore from which permits of `pool` are taken.
    pub fn semaphore(&self, pool: Pool) -> (r: &Arc<tokio::sync::Semaphore>)
        ensures
            **r == self.pool(pool),
    {
        match pool {
            Pool::Session => &self.sessions,
            Pool::Agent => &self.agents,
            Pool::Backend => &self.backend_requests,
            Pool::Tool => &self.tool_executions,
            Pool::Process => &self.processes,
        }
    }

    /// Label and configured capacity of `pool`.
    pub fn kind(&self, pool: Pool) -> (r: PermitKind)
        ensures
            r.label@ == pool.label_view(),
            r.capacity == pool.capacity_in(self.config()),
    {
        permit_kind(&self.config, pool)
    }

    /// How long a bounded admission waits, in nanoseconds.
    pub fn admission_timeout(&self) -> (r: u64)
        ensures
            r == self.config().admission_timeout,
    {
        self.config.admission_timeout
    }

    /// Whether `available` are counts that the pools report, each of its own
    /// semaphore.
    pub open spec fn counted(&self, available: AvailablePermits) -> bool {
        forall|pool: Pool|
            crate::outside::reported(#[trigger] self.pool(pool), available.of(pool))
    }

    /// Capacity and utilization of every pool now. Which counts the pools
    /// report rests on the time of the call.
    pub fn snapshot(&self) -> (r: SchedulerSnapshot)
        ensures
            exists|available: AvailablePermits|
                self.counted(available) && #[trigger] r.reports(self.config(), available),
    {
        let available = AvailablePermits {
            sessions: available_permits(&self.sessions),
            agents: available_permits(&self.agents),
            backend_requests: available_permits(&self.backend_requests),
            tool_executions: available_permits(&self.tool_executions),
            processes: available_permits(&self.processes),
        };
        let r = snapshot_of(&self.config, available);
        assert(self.counted(available));
        assert(r.reports(self.config(), available));
        r
    }
}

/// A snapshot lists every pool once, in a fixed order, under its own label and
/// with its configured capacity; what it says is in use is what a count that
/// the pool's own semaphore reports leaves of that capacity.
pub proof fn a_snapshot_counts_every_pool_by_itself(
    permits: &GlobalPermits,
    snapshot: SchedulerSnapshot,
    available: AvailablePermits,
    i: int,
    pool: Pool,
)
    requires
        permits.counted(available),
        snapshot.reports(permits.config(), available),
        0 <= i < 5,
    ensures
        snapshot.permits@.len() == 5,
        snapshot.permits@[i].kind@ == Pool::listed(i).label_view(),
        snapshot.permits@[i].capacity == Pool::listed(i).capacity_in(permits.config()),
        exists|count: usize| #[trigger]
            crate::outside::reported(permits.pool(Pool::listed(i)), count)
                && snapshot.permits@[i].in_use == taken(snapshot.permits@[i].capacity, count),
        snapshot.permits@[i].in_use <= snapshot.permits@[i].capacity,
        exists|k: int| 0 <= k < 5 && #[trigger] Pool::listed(k) == pool,
{
    assert(crate::outside::reported(
        permits.pool(Pool::listed(i)),
        available.of(Pool::listed(i)),
    ));
    let k: int = match pool {
        Pool::Session => 0,
        Pool::Agent => 1,
        Pool::Backend => 2,
        Pool::Tool => 3,
        Pool::Process => 4,
    };
    assert(Pool::listed(k) == pool);
}

// ---------------------------------------------------------------------------
// A whole history of permits
// ---------------------------------------------------------------------------

/// What happens to a permit of a pool.
#[derive(Clone, Copy, Debug, PartialEq, Eq, Structural)]
pub enum PermitMove {
    /// It is handed out.
    Taken(Pool),
    /// It is dropped, and is back in the pool.
    Dropped(Pool),
}

/// The number of live permits of a pool after some moves.
pub open spec fn live_permits(moves: Seq<PermitMove>, pool: Pool) -> int
    decreases moves.len(),
{
    if moves.len() == 0 {
        0
    } else {
        let before = live_permits(moves.drop_last(), pool);
        match moves.last() {
            PermitMove::Taken(moved) => if moved == pool {
                before + 1
            } else {
                before
            },
            PermitMove::Dropped(moved) => if moved == pool {
                before - 1
            } else {
                before
            },
        }
    }
}

/// Whether the moves are such that semaphores of these capacities allow: a
/// permit is handed out only where one is left, and only a live one is dropped.
pub open spec fn allowed_moves(moves: Seq<PermitMove>, config: SchedulerConfig) -> bool {
    forall|n: int, pool: Pool|
        0 <= n <= moves.len() ==> 0 <= #[trigger] live_permits(moves.take(n), pool)
            <= pool.capacity_in(config)
}

/// Whether `available` are the permits left in the pools after the moves: what
/// they were made with, without the live ones.
pub open spec fn left_after(
    permits: &GlobalPermits,
    available: AvailablePermits,
    moves: Seq<PermitMove>,
) -> bool {
    forall|pool: Pool|
        #[trigger] available.of(pool) == crate::outside::initial_permits(permits.pool(pool))
            - live_permits(moves, pool)
}

/// A snapshot taken while the pools report what is left of them counts the
/// live permits: for every pool in its place, what it says is in use is the
/// number of permits that were taken and not dropped, and never more than the
/// capacity.
pub proof fn a_snapshot_counts_the_live_permits(
    permits: &GlobalPermits,
    snapshot: SchedulerSnapshot,
    available: AvailablePermits,
    moves: Seq<PermitMove>,
    i: int,
)
    requires
        permits.wf(),
        allowed_moves(moves, permits.config()),
        left_after(permits, available, moves),
        snapshot.reports(permits.config(), available),
        0 <= i < 5,
    ensures
        snapshot.permits@[i].kind@ == Pool::listed(i).label_view(),
        snapshot.permits@[i].capacity == Pool::listed(i).capacity_in(permits.config()),
        snapshot.permits@[i].in_use == live_permits(moves, Pool::listed(i)),
        snapshot.permits@[i].in_use <= snapshot.permits@[i].capacity,
{
    let pool = Pool::listed(i);
    assert(moves.take(moves.len() as int) =~= moves);
    assert(0 <= live_permits(moves.take(moves.len() as int), pool) <= pool.capacity_in(
        permits.config(),
    ));
    assert(available.of(pool) == crate::outside::initial_permits(permits.pool(pool))
        - live_permits(moves, pool));
}

/// The permits of one pool never change another's: one more move counts for
/// its own pool and for no other.
pub proof fn a_permit_counts_for_its_own_pool_only(
    moves: Seq<PermitMove>,
    moved: Pool,
    other: Pool,
)
    requires
        moved != other,
    ensures
        live_permits(moves.push(PermitMove::Taken(moved)), moved) == live_permits(moves, moved) + 1,
        live_permits(moves.push(PermitMove::Taken(moved)), other) == live_permits(moves, other),
        live_permits(moves.push(PermitMove::Dropped(moved)), moved) == live_permits(moves, moved)
            - 1,
        live_permits(moves.push(PermitMove::Dropped(moved)), other) == live_permits(moves, other),
{
    assert(moves.push(PermitMove::Taken(moved)).drop_last() =~= moves);
    assert(moves.push(PermitMove::Dropped(moved)).drop_last() =~= moves);
}

} // verus!
