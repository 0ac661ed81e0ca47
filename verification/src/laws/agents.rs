//! Laws of agents and of the tokens they are cancelled by.

use tokio_util::sync::CancellationToken;
use vstd::prelude::*;

use crate::agent::{
    Agent, AgentCapabilities, AgentOutcome, AgentState, AgentStatus, AgentUsageMetrics,
    AgentUsageSummary, BackendBinding, BackendCapabilities, ContextState, ExecutionParams,
    UsageLedger,
};
use crate::agent_runner;
use crate::budget::AgentBudget;
use crate::cancellation::SessionCancellation;
use crate::ids::{AgentId, SessionId};
use crate::protocol::AgentEvent;
use crate::session_runtime::event_bus;
use crate::tables::TokenTable;

verus! {

// ---------------------------------------------------------------------------
// Agents
// ---------------------------------------------------------------------------

/// A new agent is who and what it was made to be, and has done nothing yet: it
/// is idle, with nothing said, nothing queued, nothing pending, no children, no
/// error and nothing used.
pub proof fn a_new_agent_has_done_nothing(
    id: AgentId,
    session_id: SessionId,
    parent_id: Option<AgentId>,
    depth: u32,
    system_prompt: String,
    backend: BackendBinding,
    capabilities: AgentCapabilities,
    budget: AgentBudget,
    r: Agent,
)
    requires
        call_ensures(
            Agent::new,
            (id, session_id, parent_id, depth, system_prompt, backend, capabilities, budget),
            r,
        ),
    ensures
        r.id == id,
        r.session_id == session_id,
        r.parent_id == parent_id,
        r.state.depth == depth,
        r.state.system_prompt == system_prompt,
        r.backend == backend,
        r.capabilities == capabilities,
        r.budget == budget,
        r.state.status == AgentStatus::Idle,
        r.state.current_operation is None,
        r.state.execution_params.model is None,
        r.state.execution_params.settings is None,
        r.state.messages@.len() == 0,
        r.state.queued_inputs@.len() == 0,
        r.state.pending_tools@.len() == 0,
        r.state.pending_permissions@.len() == 0,
        r.state.children@.len() == 0,
        r.state.active_run is None,
        r.state.last_error is None,
        r.state.transition_sequence == 0,
        r.state.context.generation == 0,
        r.state.context.last_estimated_tokens is None,
        r.state.context.active_checkpoint is None,
        r.state.context.covered_through is None,
        r.state.context.pinned_items == 0,
        r.state.context.last_compacted_at is None,
        r.usage.records@.len() == 0,
        r.usage.tool_calls == 0,
        r.usage.runs == 0,
        r.usage.child_usage@.len() == 0,
{
}

/// A copy of an agent is the same agent in every respect.
pub proof fn a_copy_is_the_same_agent(agent: &Agent, r: Agent)
    requires
        call_ensures(Agent::clone, (agent,), r),
    ensures
        r.id == agent.id,
        r.session_id == agent.session_id,
        r.parent_id == agent.parent_id,
        r.backend == agent.backend,
        r.budget == agent.budget,
        r.state.status == agent.state.status,
        r.state.current_operation == agent.state.current_operation,
        r.state.system_prompt == agent.state.system_prompt,
        r.state.execution_params == agent.state.execution_params,
        r.state.messages@ == agent.state.messages@,
        r.state.context == agent.state.context,
        r.state.active_run == agent.state.active_run,
        r.state.queued_inputs@ == agent.state.queued_inputs@,
        r.state.pending_tools@ == agent.state.pending_tools@,
        r.state.pending_permissions@ == agent.state.pending_permissions@,
        r.state.children@ == agent.state.children@,
        r.state.last_error == agent.state.last_error,
        r.state.transition_sequence == agent.state.transition_sequence,
        r.state.depth == agent.state.depth,
        r.capabilities.tools.tools@ == agent.capabilities.tools.tools@,
        r.capabilities.can_spawn_agents == agent.capabilities.can_spawn_agents,
        r.capabilities.max_child_depth == agent.capabilities.max_child_depth,
        r.capabilities.workspace == agent.capabilities.workspace,
        r.capabilities.backend == agent.capabilities.backend,
        r.usage.records@ == agent.usage.records@,
        r.usage.tool_calls == agent.usage.tool_calls,
        r.usage.runs == agent.usage.runs,
        r.usage.child_usage@ == agent.usage.child_usage@,
{
}

/// A copy of an agent's state, of its capabilities and of its ledger is the
/// same in every field.
pub proof fn a_copy_keeps_every_field(
    state: &AgentState,
    state_copy: AgentState,
    capabilities: &AgentCapabilities,
    capabilities_copy: AgentCapabilities,
    ledger: &UsageLedger,
    ledger_copy: UsageLedger,
)
    requires
        call_ensures(AgentState::clone, (state,), state_copy),
        call_ensures(AgentCapabilities::clone, (capabilities,), capabilities_copy),
        call_ensures(UsageLedger::clone, (ledger,), ledger_copy),
    ensures
        state_copy.status == state.status && state_copy.depth == state.depth
            && state_copy.messages@ == state.messages@ && state_copy.active_run == state.active_run
            && state_copy.last_error == state.last_error && state_copy.children@ == state.children@
            && state_copy.queued_inputs@ == state.queued_inputs@ && state_copy.pending_tools@
            == state.pending_tools@ && state_copy.pending_permissions@ == state.pending_permissions@
            && state_copy.context == state.context && state_copy.transition_sequence
            == state.transition_sequence && state_copy.execution_params == state.execution_params
            && state_copy.system_prompt == state.system_prompt && state_copy.current_operation
            == state.current_operation,
        capabilities_copy.tools.tools@ == capabilities.tools.tools@,
        capabilities_copy.can_spawn_agents == capabilities.can_spawn_agents,
        capabilities_copy.max_child_depth == capabilities.max_child_depth,
        capabilities_copy.workspace == capabilities.workspace,
        capabilities_copy.backend == capabilities.backend,
        ledger_copy.records@ == ledger.records@,
        ledger_copy.tool_calls == ledger.tool_calls,
        ledger_copy.runs == ledger.runs,
        ledger_copy.child_usage@ == ledger.child_usage@,
{
}

/// What is not granted is not granted: the empty set of capabilities has no
/// tool, spawns nothing, touches no workspace, and promises nothing of a
/// backend.
pub proof fn no_capabilities_are_no_capabilities(
    none: AgentCapabilities,
    backend: BackendCapabilities,
)
    requires
        call_ensures(AgentCapabilities::none, (), none),
        call_ensures(BackendCapabilities::default, (), backend),
    ensures
        none.tools.tools@.len() == 0,
        !none.can_spawn_agents,
        none.max_child_depth is None,
        !none.workspace.can_read && !none.workspace.can_write && !none.workspace.can_search,
        none.backend == backend,
        !backend.streaming && !backend.reasoning_stream && !backend.tool_calls
            && !backend.parallel_tool_calls && !backend.host_managed_tools
            && !backend.backend_managed_tools && !backend.permissions && !backend.images
            && !backend.resumable_sessions && !backend.native_subagents && !backend.model_switching
            && !backend.exact_usage && !backend.exact_cost,
{
}

/// Nothing is used, prepared, set or limited at first.
pub proof fn nothing_is_used_at_first(
    metrics: AgentUsageMetrics,
    summary: AgentUsageSummary,
    context: ContextState,
    params: ExecutionParams,
    ledger: UsageLedger,
    budget: AgentBudget,
)
    requires
        call_ensures(AgentUsageMetrics::default, (), metrics),
        call_ensures(AgentUsageSummary::default, (), summary),
        call_ensures(ContextState::default, (), context),
        call_ensures(ExecutionParams::default, (), params),
        call_ensures(UsageLedger::default, (), ledger),
        call_ensures(AgentBudget::default, (), budget),
    ensures
        metrics.total_runs == 0 && metrics.total_requests == 0 && metrics.total_tool_calls == 0,
        metrics.total_tokens is None && metrics.total_cost is None,
        summary.self_usage == metrics && summary.descendant_usage == metrics
            && summary.inclusive_usage == metrics,
        context.generation == 0 && context.pinned_items == 0 && context.last_estimated_tokens
            is None && context.active_checkpoint is None && context.covered_through is None
            && context.last_compacted_at is None,
        params.model is None && params.settings is None,
        ledger.records@.len() == 0 && ledger.tool_calls == 0 && ledger.runs == 0
            && ledger.child_usage@.len() == 0,
        budget.max_input_tokens is None && budget.max_output_tokens is None
            && budget.max_total_tokens is None && budget.max_cost_usd is None && budget.max_requests
            is None && budget.max_tool_calls is None && budget.max_children is None
            && budget.max_depth is None,
{
}

/// A run ends with a completion, with the outcome that it reports, or with a
/// failure, and with nothing else.
pub proof fn a_run_ends_with_a_completion_or_a_failure(
    event: &AgentEvent,
    r: Option<AgentOutcome>,
)
    requires
        call_ensures(AgentEvent::run_outcome, (event,), r),
    ensures
        r is Some <==> *event is Completed || *event is Failed,
        *event is Completed ==> r == Some(event->outcome),
        *event is Failed ==> r == Some(AgentOutcome::Failed),
{
}

/// The capacities of an agent's mailbox, of its event channel and of a
/// session's, and how long each of them waits: an event that an agent can hold
/// back a subscriber can too, a loop looks around several times a second, and
/// an idle bus much more often than that.
pub proof fn channels_and_waits_suit_one_another()
    ensures
        agent_runner::COMMAND_CAPACITY == 64,
        agent_runner::EVENT_CAPACITY == 4 * agent_runner::COMMAND_CAPACITY,
        event_bus::SUBSCRIBER_CAPACITY == agent_runner::EVENT_CAPACITY,
        4 * agent_runner::POLL_MILLIS == 1000,
        25 * event_bus::IDLE_MILLIS == agent_runner::POLL_MILLIS,
        crate::scheduler::backend_limiter::BACKOFF_MILLIS == 10 * event_bus::IDLE_MILLIS,
        crate::scheduler::rate_window::WINDOW_NANOS == 60 * 1_000_000_000,
        crate::session_runtime::construction::ROOT_MAX_CHILD_DEPTH == 8,
        crate::workspace::PREVIEW_CHARS == 200,
{
}

// ---------------------------------------------------------------------------
// Cancellation
// ---------------------------------------------------------------------------

/// Cancelling a session's root cancels it for good, and with it every token
/// below; a session that was never cancelled reports no cancellation that
/// nobody asked for. A copy is another handle on the same root.
pub proof fn cancelling_the_root_is_seen_below(
    fresh: SessionCancellation,
    default: SessionCancellation,
    token: CancellationToken,
    above: CancellationToken,
    cancelled: &mut SessionCancellation,
    report: bool,
    seen: bool,
    copy: SessionCancellation,
)
    requires
        call_ensures(SessionCancellation::new, (), fresh),
        call_ensures(SessionCancellation::default, (), default),
        call_ensures(SessionCancellation::child_token, (old(cancelled),), token),
        old(cancelled).wf(),
        call_ensures(SessionCancellation::cancel, (cancelled,), ()),
        call_ensures(SessionCancellation::is_cancelled, (final(cancelled),), report),
        call_ensures(SessionCancellation::has_cancelled, (final(cancelled), &token), seen),
        call_ensures(SessionCancellation::clone, (final(cancelled),), copy),
    ensures
        !crate::outside::known_cancelled(fresh.root()),
        crate::outside::is_root(fresh.root()),
        crate::outside::descends(fresh.root(), fresh.root()),
        !crate::outside::known_cancelled(default.root()),
        crate::outside::is_root(default.root()),
        crate::outside::descends(default.root(), default.root()),
        crate::outside::descends(token, token),
        crate::outside::descends(old(cancelled).root(), above)
            ==> crate::outside::descends(token, above),
        crate::outside::descends(token, old(cancelled).root()),
        crate::outside::known_cancelled(token) <==> crate::outside::known_cancelled(
            old(cancelled).root(),
        ),
        crate::outside::known_cancelled(final(cancelled).root()),
        crate::outside::descends(token, final(cancelled).root()),
        report,
        seen,
        crate::outside::known_cancelled(copy.root()),
        crate::outside::descends(token, copy.root()),
{
    assert(fresh.governs(fresh.root()));
    assert(default.governs(default.root()));
    assert(old(cancelled).governs(token));
    assert(final(cancelled).governs(token));
    assert(copy.governs(token));
}

/// A token reports cancellation only where it is requested.
pub proof fn nothing_is_cancelled_unasked(
    cancellation: &SessionCancellation,
    token: &CancellationToken,
    report: bool,
    seen: bool,
)
    requires
        call_ensures(SessionCancellation::is_cancelled, (cancellation,), report),
        call_ensures(SessionCancellation::has_cancelled, (cancellation, token), seen),
    ensures
        !crate::outside::cancel_requested(cancellation.root()) ==> !report,
        !crate::outside::cancel_requested(*token) ==> !seen,
        crate::outside::known_cancelled(cancellation.root()) ==> report,
        crate::outside::known_cancelled(*token) ==> seen,
{
}

/// Work in flight is filed under its key until it is cancelled; cancelling it
/// hands back a cancelled handle on it and forgets it, and no other work.
pub proof fn work_is_filed_until_it_is_cancelled(
    fresh: TokenTable,
    filed: &mut TokenTable,
    key: u128,
    token: CancellationToken,
    cancelled: &mut TokenTable,
    handle: Option<CancellationToken>,
    other: u128,
)
    requires
        call_ensures(TokenTable::new, (), fresh),
        call_ensures(TokenTable::insert, (filed, key, token), ()),
        *old(cancelled) == *final(filed),
        call_ensures(TokenTable::cancel, (cancelled, key), handle),
    ensures
        !fresh@.contains_key(other),
        final(filed)@.contains_key(key) && final(filed)@[key] == token,
        handle is Some && crate::outside::known_cancelled(handle->0) && crate::outside::covers(
            handle->0,
            token,
        ),
        !final(cancelled)@.contains_key(key),
        other != key ==> (final(cancelled)@.contains_key(other) <==> old(filed)@.contains_key(
            other,
        )),
        other != key && old(filed)@.contains_key(other) ==> final(cancelled)@[other]
            == old(filed)@[other],
{
}

/// Cancelling everything forgets everything, and hands back a cancelled handle
/// on each piece of work, one for each.
pub proof fn cancelling_everything_leaves_nothing(
    table: &mut TokenTable,
    handles: Vec<CancellationToken>,
    key: u128,
    i: int,
)
    requires
        call_ensures(TokenTable::cancel_all, (table,), handles),
    ensures
        !final(table)@.contains_key(key),
        handles@.len() == old(table)@.dom().len(),
        0 <= i < handles@.len() ==> crate::outside::known_cancelled(handles@[i]),
        old(table)@.contains_key(key) ==> exists|k: int|
            0 <= k < handles@.len() && crate::outside::covers(
                #[trigger] handles@[k],
                old(table)@[key],
            ),
{
    if old(table)@.contains_key(key) {
        assert(crate::tables::among(handles@, old(table)@[key]));
    }
}

} // verus!
