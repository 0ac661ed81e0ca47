//! What a client sees of a session.

use vstd::prelude::*;

use crate::agent::{AgentOutcome, AgentStatus, AgentUsageMetrics, ContextState, UserInput};
use crate::budget::UsdAmount;
use crate::ids::{AgentId, SessionId};
use crate::protocol::AgentCommand;
use crate::session_runtime::live_state::AgentLiveState;
use crate::session_runtime::runtime::{self, SessionRuntime};
use crate::session_runtime::types::{SessionCommand, SessionError, SessionStatus};
use crate::text::clone_opt;

verus! {

broadcast use vstd::std_specs::hash::group_hash_axioms;

/// The prepared context of the root agent. Identifiers and times are kept as
/// text.
#[derive(Debug)]
pub struct ContextSnapshot {
    pub generation: u64,
    pub estimated_tokens: Option<u64>,
    pub checkpoint: Option<String>,
    pub covered_through: Option<String>,
    pub pinned_items: usize,
    pub last_compacted_at: Option<String>,
}

/// An agent's usage at a point in time.
#[derive(Debug)]
pub struct AgentUsageSnapshot {
    pub agent_id: String,
    pub metrics: AgentUsageMetrics,
    pub timestamp: String,
}

/// Usage added up over a session.
#[derive(Clone, Copy, Debug, PartialEq, Eq, Structural)]
pub struct CumulativeUsage {
    pub total_tokens: Option<u64>,
    pub total_cost: Option<UsdAmount>,
    pub total_requests: u64,
}

/// A session's usage at a point in time.
#[derive(Debug)]
pub struct SessionUsageSnapshot {
    pub session_id: String,
    pub cumulative: CumulativeUsage,
    pub timestamp: String,
}

/// What a client sees of a session at a point in time.
#[derive(Debug)]
pub struct SessionSnapshot {
    pub session_id: SessionId,
    pub status: SessionStatus,
    pub root_agent_id: AgentId,
    pub root_agent_status: AgentUsageSnapshot,
    pub usage: SessionUsageSnapshot,
    pub context: ContextSnapshot,
    pub timestamp: u64,
}

/// The session status that a root agent's live state stands for. An idle
/// agent says nothing by itself: the outcome of its last run does, and
/// `fallback` where there was none.
pub open spec fn status_from_live(live: AgentLiveState, fallback: SessionStatus) -> SessionStatus {
    match live.status {
        AgentStatus::Cancelled => SessionStatus::Cancelled,
        AgentStatus::Failed => SessionStatus::Failed,
        AgentStatus::Completed => SessionStatus::Completed,
        AgentStatus::Idle => match live.last_outcome {
            Some(AgentOutcome::Success) => SessionStatus::Completed,
            Some(AgentOutcome::Failed) => SessionStatus::Failed,
            Some(AgentOutcome::Cancelled) => SessionStatus::Cancelled,
            None => fallback,
        },
        _ => SessionStatus::Running,
    }
}

/// Decides the session status from a root agent's live state.
pub fn session_status_from_live(live: &AgentLiveState, fallback: SessionStatus) -> (r:
    SessionStatus)
    ensures
        r == status_from_live(*live, fallback),
{
    match live.status {
        AgentStatus::PreparingContext => SessionStatus::Running,
        AgentStatus::WaitingForBackend => SessionStatus::Running,
        AgentStatus::Streaming => SessionStatus::Running,
        AgentStatus::Executing => SessionStatus::Running,
        AgentStatus::WaitingForPermission => SessionStatus::Running,
        AgentStatus::WaitingForChildren => SessionStatus::Running,
        AgentStatus::Paused => SessionStatus::Running,
        AgentStatus::Cancelled => SessionStatus::Cancelled,
        AgentStatus::Failed => SessionStatus::Failed,
        AgentStatus::Completed => SessionStatus::Completed,
        AgentStatus::Idle => {
            match live.last_outcome {
                Some(AgentOutcome::Success) => SessionStatus::Completed,
                Some(AgentOutcome::Failed) => SessionStatus::Failed,
                Some(AgentOutcome::Cancelled) => SessionStatus::Cancelled,
                None => fallback,
            }
        },
    }
}

/// The session status that a client sees, from the status that the session
/// shows and its root agent's live state. A failed session is never shown as
/// anything else.
pub open spec fn client_status(shown: SessionStatus, live: AgentLiveState) -> SessionStatus {
    if shown == SessionStatus::Failed {
        SessionStatus::Failed
    } else {
        status_from_live(live, shown)
    }
}

/// The usage that a client sees of an agent: its own requests and cost, and
/// the runs, tool calls and tokens of itself and its descendants.
pub open spec fn live_metrics(live: AgentLiveState) -> AgentUsageMetrics {
    AgentUsageMetrics {
        total_runs: live.usage.inclusive_usage.total_runs,
        total_requests: live.total_requests,
        total_tool_calls: live.usage.inclusive_usage.total_tool_calls,
        total_tokens: live.usage.inclusive_usage.total_tokens,
        total_cost: live.total_cost_usd,
    }
}

/// Projects an agent's live state into the usage that a client sees.
pub fn metrics_from_live(live: &AgentLiveState) -> (r: AgentUsageMetrics)
    ensures
        r == live_metrics(*live),
{
    AgentUsageMetrics {
        total_runs: live.usage.inclusive_usage.total_runs,
        total_requests: live.total_requests,
        total_tool_calls: live.usage.inclusive_usage.total_tool_calls,
        total_tokens: live.usage.inclusive_usage.total_tokens,
        total_cost: live.total_cost_usd,
    }
}

impl ContextSnapshot {
    /// Whether this is what a client sees of a prepared context.
    pub open spec fn shows(self, context: ContextState) -> bool {
        &&& self.generation == context.generation
        &&& self.estimated_tokens == context.last_estimated_tokens
        &&& self.checkpoint == context.active_checkpoint
        &&& self.covered_through == context.covered_through
        &&& self.pinned_items == context.pinned_items
        &&& self.last_compacted_at == context.last_compacted_at
    }

    /// Whether this is what a client sees where there is no root agent.
    pub open spec fn shows_nothing(self) -> bool {
        &&& self.generation == 0
        &&& self.estimated_tokens is None
        &&& self.checkpoint is None
        &&& self.covered_through is None
        &&& self.pinned_items == 0
        &&& self.last_compacted_at is None
    }

    fn of(context: &ContextState) -> (r: Self)
        ensures
            r.shows(*context),
    {
        ContextSnapshot {
            generation: context.generation,
            estimated_tokens: context.last_estimated_tokens,
            checkpoint: clone_opt(&context.active_checkpoint),
            covered_through: clone_opt(&context.covered_through),
            pinned_items: context.pinned_items,
            last_compacted_at: clone_opt(&context.last_compacted_at),
        }
    }

    fn nothing() -> (r: Self)
        ensures
            r.shows_nothing(),
    {
        ContextSnapshot {
            generation: 0,
            estimated_tokens: None,
            checkpoint: None,
            covered_through: None,
            pinned_items: 0,
            last_compacted_at: None,
        }
    }
}

/// How the identifiers and the time of a snapshot are printed.
pub struct SnapshotTexts {
    pub session: String,
    pub root_agent: String,
    pub now: String,
}

/// Takes a snapshot of a session for a client, from live state only.
/// `cancelled` is what the session's cancellation reports.
pub fn snapshot<W>(
    runtime: &SessionRuntime<W>,
    cancelled: bool,
    texts: SnapshotTexts,
    now: u64,
) -> (r: SessionSnapshot)
    ensures
        ({
            let root = runtime.state.root_agent_id;
            let live = runtime.live_state.state_of(root);
            let metrics = live_metrics(live);
            &&& r.session_id == runtime.session_id
            &&& r.root_agent_id == root
            &&& r.timestamp == now
            &&& r.status == client_status(
                runtime::shown_status(runtime.state.status, cancelled, live),
                live,
            )
            &&& r.root_agent_status.agent_id == texts.root_agent
            &&& r.root_agent_status.metrics == metrics
            &&& r.root_agent_status.timestamp == texts.now
            &&& r.usage.session_id == texts.session
            &&& r.usage.cumulative == (CumulativeUsage {
                total_tokens: metrics.total_tokens,
                total_cost: metrics.total_cost,
                total_requests: metrics.total_requests,
            })
            &&& r.usage.timestamp == texts.now
            &&& if runtime.state.agents@.contains_key(root.0) {
                r.context.shows(runtime.state.agents@[root.0].state.context)
            } else {
                r.context.shows_nothing()
            }
        }),
{
    let shown = runtime.snapshot_when(cancelled);
    let live = runtime.agent_live_state(shown.root_agent_id);
    let status = match shown.status {
        SessionStatus::Failed => SessionStatus::Failed,
        _ => session_status_from_live(&live, shown.status),
    };
    let metrics = metrics_from_live(&live);
    let context = match runtime.state.agents.get(&shown.root_agent_id.0) {
        Some(agent) => ContextSnapshot::of(&agent.state.context),
        None => ContextSnapshot::nothing(),
    };
    SessionSnapshot {
        session_id: shown.session_id,
        status,
        root_agent_id: shown.root_agent_id,
        root_agent_status: AgentUsageSnapshot {
            agent_id: texts.root_agent,
            metrics,
            timestamp: texts.now.clone(),
        },
        usage: SessionUsageSnapshot {
            session_id: texts.session,
            cumulative: CumulativeUsage {
                total_tokens: metrics.total_tokens,
                total_cost: metrics.total_cost,
                total_requests: metrics.total_requests,
            },
            timestamp: texts.now,
        },
        context,
        timestamp: now,
    }
}

/// A failure is never reported as a completed session: neither that of the
/// session itself, nor a failed agent, nor an idle one whose last run failed.
pub proof fn a_failure_is_never_reported_as_completion(
    status: SessionStatus,
    cancelled: bool,
    live: AgentLiveState,
)
    requires
        status == SessionStatus::Failed || live.status == AgentStatus::Failed || (live.status
            == AgentStatus::Idle && live.last_outcome == Some(AgentOutcome::Failed)),
    ensures
        client_status(runtime::shown_status(status, cancelled, live), live)
            == SessionStatus::Failed,
{
}

/// From the moment a prompt is sent the client sees the session running, until
/// the root agent publishes how the run ended.
pub proof fn a_client_sees_a_prompt_at_once<W>(
    before: SessionRuntime<W>,
    after: SessionRuntime<W>,
    input: UserInput,
    answer: Result<AgentCommand, SessionError>,
)
    requires
        after.commanded(before, SessionCommand::Prompt(input), false, answer),
        before.state.status != SessionStatus::Failed,
        before.live_state.state_of(before.state.root_agent_id).status == AgentStatus::Idle,
    ensures
        ({
            let live = after.live_state.state_of(after.state.root_agent_id);
            client_status(runtime::shown_status(after.state.status, false, live), live)
                == SessionStatus::Running
        }),
{
}

} // verus!
