//! Laws of the agent runner.

use tokio_util::sync::CancellationToken;
use vstd::prelude::*;

use crate::agent::{
    Agent, AgentError, AgentOutcome, AgentResult, AgentStatus, AgentUsageMetrics,
    AgentUsageSummary,
};
use crate::agent_runner::{
    loop_step, persist, progress_start, progress_step, AgentRunner, CommitEnd, CommitOutcome,
    DispatchProgress, EffectAction, EffectEnd, EmitRoute, LoopEvent, LoopState, PersistPlan, Wake,
};
use crate::ids::{AgentId, EventId, RunId, ToolCallId};
use crate::protocol::{
    AgentCommand, AgentEffect, AgentEvent, AgentEventEnvelope, EventVisibility, SessionMutation,
};
use crate::session_runtime::live_state::LiveStateTable;

verus! {

// ---------------------------------------------------------------------------
// The mailbox loop
// ---------------------------------------------------------------------------

/// A cancelled loop cancels every run that has not ended: whatever the agent
/// is doing, it is sent the command to cancel, and only an agent that was
/// cancelled, completed or failed is sent none.
pub proof fn cancelling_reaches_every_run_that_has_not_ended(
    runner: &AgentRunner,
    state: &mut LoopState,
    taken: Option<AgentCommand>,
    cancel: Option<AgentCommand>,
    ended: bool,
)
    requires
        *old(state) is Cancelling,
        call_ensures(AgentRunner::take_command, (runner, state), taken),
        call_ensures(AgentRunner::cancel_run, (runner,), cancel),
        call_ensures(AgentRunner::is_terminal, (runner,), ended),
    ensures
        ({
            let status = runner.agent.state.status;
            &&& taken == Some(AgentCommand::Cancel) <==> status != AgentStatus::Cancelled && status
                != AgentStatus::Completed && status != AgentStatus::Failed
            &&& taken is Some ==> taken == Some(AgentCommand::Cancel)
        }),
        cancel == taken,
        ended <==> cancel is None,
        *final(state) is Cancelling,
{
}

/// A command that arrived is handed out once: the first taking gives it, and
/// the next one gives nothing.
pub proof fn a_command_is_taken_once(
    runner: &AgentRunner,
    command: Option<AgentCommand>,
    first_state: &mut LoopState,
    first: Option<AgentCommand>,
    second_state: &mut LoopState,
    second: Option<AgentCommand>,
)
    requires
        *old(first_state) == LoopState::Handling(command),
        call_ensures(AgentRunner::take_command, (runner, first_state), first),
        *old(second_state) == *final(first_state),
        call_ensures(AgentRunner::take_command, (runner, second_state), second),
    ensures
        first == command,
        second is None,
        *final(second_state) == *final(first_state),
        *final(first_state) is Handling,
{
}

/// A loop that handles no command, drains no queue and cancels no run applies
/// nothing, and taking a command moves it nowhere.
pub proof fn only_a_working_loop_applies_commands(
    runner: &AgentRunner,
    state: &mut LoopState,
    taken: Option<AgentCommand>,
)
    requires
        !(*old(state) is Handling),
        call_ensures(AgentRunner::take_command, (runner, state), taken),
    ensures
        *final(state) == *old(state),
        taken == Some(AgentCommand::StartNextQueuedRun) <==> *old(state) is Draining,
        taken is Some ==> *old(state) is Draining || *old(state) is Cancelling,
{
}

/// A loop that has not stopped stops for these causes and no others: nobody
/// is left to send to it, its mailbox is closed, a failure was fatal, the run
/// that it cancelled has been dispatched, or it is to live for one run only
/// and that run is over.
pub proof fn the_loop_stops_only_for_cause(
    state: LoopState,
    event: LoopEvent,
    long_lived: bool,
    next: LoopState,
)
    requires
        call_ensures(loop_step, (state, event, long_lived), next),
        !(state is Stopped),
    ensures
        next is Stopped <==> {
            ||| state is Top && (event matches LoopEvent::Observed { senders, .. } && senders == 1)
            ||| state is Waiting && (event matches LoopEvent::Woke { wake, .. } && wake is Closed)
            ||| state is Cancelling && event is Dispatched
            ||| (state is Handling || state is Draining) && (
            event matches LoopEvent::Dispatched { fatal, .. } && fatal)
            ||| state is Handling && !long_lived && (
            event matches LoopEvent::Dispatched { finished_run, .. } && finished_run)
        },
{
}

/// A stopped loop stays stopped.
pub proof fn a_stopped_loop_stays_stopped(event: LoopEvent, long_lived: bool, next: LoopState)
    requires
        call_ensures(loop_step, (LoopState::Stopped, event, long_lived), next),
    ensures
        next is Stopped,
{
}

/// The loop starts to handle a command exactly when one arrived while it
/// waited and the token was not cancelled, and it handles that command.
pub proof fn only_an_arrived_command_is_handled(
    state: LoopState,
    event: LoopEvent,
    long_lived: bool,
    next: LoopState,
    command: AgentCommand,
)
    requires
        call_ensures(loop_step, (state, event, long_lived), next),
        !(state is Handling),
    ensures
        next == LoopState::Handling(Some(command)) <==> state is Waiting && event == (
        LoopEvent::Woke { wake: Wake::Command(command), cancelled: false }),
        next is Handling ==> next->Handling_0 is Some,
{
}

/// The loop turns to cancelling exactly when it sees the token cancelled: at
/// the top with senders left, as what ended a wait, or right after a command
/// arrived.
pub proof fn cancellation_is_seen_at_the_top_and_after_a_wait(
    state: LoopState,
    event: LoopEvent,
    long_lived: bool,
    next: LoopState,
)
    requires
        call_ensures(loop_step, (state, event, long_lived), next),
        !(state is Cancelling),
    ensures
        next is Cancelling <==> {
            ||| state is Top && (event matches LoopEvent::Observed { senders, cancelled } && senders
                != 1 && cancelled)
            ||| state is Waiting && (event matches LoopEvent::Woke { wake, cancelled } && (wake
                is Cancelled || wake is Command && cancelled))
        },
{
}

/// The loop waits exactly when it came round to the top with senders left and
/// the token not cancelled; it drains the queue exactly when a run of a
/// long-lived runner finished; and it comes round to the top after a wait
/// without result, after effects that finished no run, and after a drain.
pub proof fn the_loop_comes_round(
    state: LoopState,
    event: LoopEvent,
    long_lived: bool,
    next: LoopState,
)
    requires
        call_ensures(loop_step, (state, event, long_lived), next),
    ensures
        !(state is Waiting) ==> (next is Waiting <==> state is Top && (
        event matches LoopEvent::Observed { senders, cancelled } && senders != 1 && !cancelled)),
        !(state is Draining) ==> (next is Draining <==> state is Handling && long_lived && (
        event matches LoopEvent::Dispatched { finished_run, fatal } && finished_run && !fatal)),
        !(state is Top) ==> (next is Top <==> {
            ||| state is Waiting && (event matches LoopEvent::Woke { wake, .. } && wake is Tick)
            ||| state is Handling && (
            event matches LoopEvent::Dispatched { finished_run, fatal } && !finished_run && !fatal)
            ||| state is Draining && (event matches LoopEvent::Dispatched { fatal, .. } && !fatal)
        }),
{
}

/// An event that does not belong to the state changes nothing.
pub proof fn a_stray_event_changes_nothing(
    state: LoopState,
    event: LoopEvent,
    long_lived: bool,
    next: LoopState,
)
    requires
        call_ensures(loop_step, (state, event, long_lived), next),
        event is Observed ==> !(state is Top),
        event is Woke ==> !(state is Waiting),
        event is Dispatched ==> state is Top || state is Waiting || state is Stopped,
    ensures
        next == state,
{
}

// ---------------------------------------------------------------------------
// The runner
// ---------------------------------------------------------------------------

/// A fresh runner has nothing in flight, no result, and none of the features
/// that are chosen later; it counts its events from zero.
pub proof fn a_fresh_runner_has_no_features(
    agent: Agent,
    cancel: CancellationToken,
    runner: AgentRunner,
)
    requires
        call_ensures(AgentRunner::new, (agent, cancel), runner),
    ensures
        runner.agent == agent && runner.cancel == cancel,
        runner.agent_sequence == 0,
        forall|key: u128|
            !(#[trigger] runner.backend_tokens@.contains_key(key))
                && !runner.tool_tokens@.contains_key(key),
        runner.final_result is None,
        !runner.supervised && !runner.stored && !runner.committed && !runner.survives_runs,
        !runner.fatal_error,
{
}

/// Each choice sets its own feature and no other, so that the order in which
/// they are made does not matter.
pub proof fn features_are_independent(
    runner: AgentRunner,
    long_lived: bool,
    supervised: AgentRunner,
    stored: AgentRunner,
    committed: AgentRunner,
    lasting: AgentRunner,
    all: AgentRunner,
)
    requires
        call_ensures(AgentRunner::with_supervision, (runner,), supervised),
        call_ensures(AgentRunner::with_session_store, (supervised,), stored),
        call_ensures(AgentRunner::with_committer, (stored,), committed),
        call_ensures(AgentRunner::long_lived, (committed, long_lived), all),
        call_ensures(AgentRunner::long_lived, (runner, long_lived), lasting),
    ensures
        supervised.supervised && supervised.stored == runner.stored && supervised.committed
            == runner.committed && supervised.survives_runs == runner.survives_runs,
        stored.stored && stored.committed == runner.committed && stored.survives_runs
            == runner.survives_runs,
        committed.committed && committed.survives_runs == runner.survives_runs,
        all.supervised && all.stored && all.committed && all.survives_runs == long_lived,
        lasting.survives_runs == long_lived && lasting.supervised == runner.supervised
            && lasting.stored == runner.stored && lasting.committed == runner.committed,
        all.agent == runner.agent && all.cancel == runner.cancel && all.agent_sequence
            == runner.agent_sequence && all.final_result == runner.final_result && all.fatal_error
            == runner.fatal_error && all.backend_tokens == runner.backend_tokens && all.tool_tokens
            == runner.tool_tokens,
{
}

/// A result is taken once: what a finished run left is handed out by the
/// first taking, and nothing by the next.
pub proof fn a_result_is_taken_once(
    first_runner: &mut AgentRunner,
    first: Option<Result<AgentResult, AgentError>>,
    second_runner: &mut AgentRunner,
    second: Option<Result<AgentResult, AgentError>>,
)
    requires
        call_ensures(AgentRunner::take_final_result, (first_runner,), first),
        *old(second_runner) == *final(first_runner),
        call_ensures(AgentRunner::take_final_result, (second_runner,), second),
    ensures
        first == old(first_runner).final_result,
        second is None,
        final(first_runner).agent == old(first_runner).agent,
        final(first_runner).backend_tokens == old(first_runner).backend_tokens,
        final(first_runner).tool_tokens == old(first_runner).tool_tokens,
        *final(second_runner) == *final(first_runner),
{
}

/// What a finished run leaves: the result itself, unless the agent failed;
/// then its last error, or, where it left none, an error that carries the
/// summary of the result. No other effect touches what was left before.
pub proof fn a_finished_run_is_remembered_truthfully(
    runner: &mut AgentRunner,
    effect: AgentEffect,
    r: (EffectAction, bool),
)
    requires
        call_ensures(AgentRunner::dispatch_effect, (runner, effect), r),
    ensures
        r.1 <==> effect is FinishRun,
        !(effect is FinishRun) ==> final(runner).final_result == old(runner).final_result,
        effect matches AgentEffect::FinishRun { result } ==> {
            &&& r.0 is Nothing
            &&& old(runner).agent.state.status != AgentStatus::Failed ==> final(runner).final_result
                == Some(Ok::<AgentResult, AgentError>(result))
            &&& old(runner).agent.state.status == AgentStatus::Failed
                ==> match old(runner).agent.state.last_error {
                Some(error) => final(runner).final_result == Some(
                    Err::<AgentResult, AgentError>(error),
                ),
                None => final(runner).final_result matches Some(Err(error)) && error.message@
                    == result.summary@ && error.code@ == "FAILED"@ && error.details is None,
            }
        },
{
}

/// Every effect that the runner cannot carry out by itself is handed on as it
/// is; a child is cancelled only where there is a supervisor to do it.
pub proof fn an_effect_is_handed_on_as_it_is(
    runner: &mut AgentRunner,
    effect: AgentEffect,
    r: (EffectAction, bool),
)
    requires
        call_ensures(AgentRunner::dispatch_effect, (runner, effect), r),
    ensures
        r.0 is ExecuteBackend <==> effect is ExecuteBackend,
        r.0 is ExecuteBackend ==> r.0->ExecuteBackend_0 == effect->ExecuteBackend_request,
        r.0 is ExecuteTool <==> effect is ExecuteTool,
        r.0 is ExecuteTool ==> r.0->ExecuteTool_0 == effect->ExecuteTool_request,
        r.0 is Emit <==> effect is Emit,
        r.0 is Emit ==> r.0->Emit_0 == effect->event,
        r.0 is Spawn <==> effect is SpawnAgent,
        r.0 is Spawn ==> r.0->Spawn_0 == effect->spec,
        r.0 is Persist <==> effect is Persist,
        r.0 is Persist ==> r.0->Persist_0 == effect->mutation,
        r.0 is CancelChild <==> effect is CancelChild && old(runner).supervised,
        r.0 is CancelChild ==> r.0->CancelChild_0 == effect->agent_id,
        r.0 is Cancelled <==> effect is CancelBackend || effect is CancelTool,
{
}

/// Cancelling a backend request or a tool call forgets that piece of work and
/// no other, and hands back a cancelled handle on it where it was in flight.
/// No other effect touches what is in flight, and none touches the agent, its
/// numbering or the runner's features.
pub proof fn cancelling_forgets_that_work_only(
    runner: &mut AgentRunner,
    effect: AgentEffect,
    r: (EffectAction, bool),
    key: u128,
)
    requires
        call_ensures(AgentRunner::dispatch_effect, (runner, effect), r),
    ensures
        final(runner).agent == old(runner).agent,
        final(runner).agent_sequence == old(runner).agent_sequence,
        final(runner).cancel == old(runner).cancel,
        final(runner).fatal_error == old(runner).fatal_error,
        final(runner).supervised == old(runner).supervised,
        final(runner).stored == old(runner).stored,
        final(runner).committed == old(runner).committed,
        final(runner).survives_runs == old(runner).survives_runs,
        final(runner).backend_tokens@.contains_key(key)
            <==> old(runner).backend_tokens@.contains_key(key) && effect
            != (AgentEffect::CancelBackend {
            run_id: RunId(key),
        }),
        final(runner).tool_tokens@.contains_key(key) <==> old(runner).tool_tokens@.contains_key(
            key,
        ) && effect != (AgentEffect::CancelTool { call_id: ToolCallId(key) }),
        final(runner).backend_tokens@.contains_key(key) ==> final(runner).backend_tokens@[key]
            == old(runner).backend_tokens@[key],
        final(runner).tool_tokens@.contains_key(key) ==> final(runner).tool_tokens@[key]
            == old(runner).tool_tokens@[key],
        effect == (AgentEffect::CancelBackend { run_id: RunId(key) }) ==> (
        r.0->Cancelled_0 is Some <==> old(runner).backend_tokens@.contains_key(key)),
        effect == (AgentEffect::CancelTool { call_id: ToolCallId(key) }) ==> (r.0->Cancelled_0
            is Some <==> old(runner).tool_tokens@.contains_key(key)),
        r.0 matches EffectAction::Cancelled(Some(token)) ==> crate::outside::known_cancelled(token),
        effect == (AgentEffect::CancelBackend { run_id: RunId(key) })
            && old(runner).backend_tokens@.contains_key(key) ==> crate::outside::covers(
            r.0->Cancelled_0->0,
            old(runner).backend_tokens@[key],
        ),
        effect == (AgentEffect::CancelTool { call_id: ToolCallId(key) })
            && old(runner).tool_tokens@.contains_key(key) ==> crate::outside::covers(
            r.0->Cancelled_0->0,
            old(runner).tool_tokens@[key],
        ),
{
    match effect {
        AgentEffect::CancelBackend { run_id } => {
            assert(run_id.0 == key ==> run_id == RunId(key));
        },
        AgentEffect::CancelTool { call_id } => {
            assert(call_id.0 == key ==> call_id == ToolCallId(key));
        },
        _ => {},
    }
}

/// Work that is cancelled by name is forgotten, that one only, whatever else
/// the runner holds; the cancelled handle is there exactly where the work was
/// in flight.
pub proof fn work_cancelled_by_name_is_forgotten(
    backend: &mut AgentRunner,
    run_id: RunId,
    backend_handle: Option<CancellationToken>,
    tool: &mut AgentRunner,
    call_id: ToolCallId,
    tool_handle: Option<CancellationToken>,
    key: u128,
)
    requires
        call_ensures(AgentRunner::cancel_backend, (backend, run_id), backend_handle),
        call_ensures(AgentRunner::cancel_tool, (tool, call_id), tool_handle),
    ensures
        backend_handle is Some <==> old(backend).backend_tokens@.contains_key(run_id.0),
        tool_handle is Some <==> old(tool).tool_tokens@.contains_key(call_id.0),
        backend_handle is Some ==> crate::outside::known_cancelled(backend_handle->0)
            && crate::outside::covers(backend_handle->0, old(backend).backend_tokens@[run_id.0]),
        tool_handle is Some ==> crate::outside::known_cancelled(tool_handle->0)
            && crate::outside::covers(tool_handle->0, old(tool).tool_tokens@[call_id.0]),
        final(backend).backend_tokens@.contains_key(key)
            <==> old(backend).backend_tokens@.contains_key(key) && key != run_id.0,
        final(tool).tool_tokens@.contains_key(key) <==> old(tool).tool_tokens@.contains_key(key)
            && key != call_id.0,
        final(backend).tool_tokens == old(backend).tool_tokens,
        final(tool).backend_tokens == old(tool).backend_tokens,
        final(backend).agent == old(backend).agent && final(tool).agent == old(tool).agent,
{
}

// ---------------------------------------------------------------------------
// Dispatching a list of effects
// ---------------------------------------------------------------------------

/// Once the rest of a list is dropped nothing changes any more; until that,
/// only a finished run and an event that could not be committed end the run,
/// and only the latter drops the rest.
pub proof fn progress_only_grows(
    start: DispatchProgress,
    progress: DispatchProgress,
    end: EffectEnd,
    next: DispatchProgress,
)
    requires
        call_ensures(progress_start, (), start),
        call_ensures(progress_step, (progress, end), next),
    ensures
        !start.finish && !start.stopped,
        progress.finish && !progress.stopped ==> next.finish,
        progress.stopped ==> next == progress,
        !progress.stopped ==> (next.stopped <==> end == EffectEnd::EmitFailed),
        !progress.stopped && !progress.finish ==> (next.finish <==> end != EffectEnd::Done),
{
}

// ---------------------------------------------------------------------------
// Publishing events
// ---------------------------------------------------------------------------

/// The envelope of an emitted event, whichever way it goes.
pub open spec fn emitted(route: EmitRoute) -> AgentEventEnvelope {
    match route {
        EmitRoute::Commit(envelope) => envelope,
        EmitRoute::Direct { envelope, persist } => envelope,
    }
}

/// Two events that an agent emits one after the other carry consecutive
/// numbers, which start over only at the end of the count, and each carries
/// its origin: the session, the agent, its parent and the run at that time.
pub proof fn emitted_events_are_numbered_in_order(
    runner: &mut AgentRunner,
    event: AgentEvent,
    event_id: EventId,
    now: u64,
    table: &mut LiveStateTable,
    first: EmitRoute,
    later: &mut AgentRunner,
    later_event: AgentEvent,
    later_id: EventId,
    later_now: u64,
    later_table: &mut LiveStateTable,
    second: EmitRoute,
)
    requires
        call_ensures(AgentRunner::emit, (runner, event, event_id, now, table), first),
        *old(later) == *final(runner),
        call_ensures(
            AgentRunner::emit,
            (later, later_event, later_id, later_now, later_table),
            second,
        ),
    ensures
        emitted(first).agent_sequence == old(runner).agent_sequence,
        old(runner).agent_sequence < u64::MAX ==> emitted(second).agent_sequence == emitted(
            first,
        ).agent_sequence + 1,
        old(runner).agent_sequence == u64::MAX ==> emitted(second).agent_sequence == 0,
        emitted(first).event == event && emitted(second).event == later_event,
        emitted(first).event_id == event_id && emitted(first).timestamp == now,
        emitted(first).session_id == old(runner).agent.session_id,
        emitted(first).agent_id == old(runner).agent.id,
        emitted(first).parent_agent_id == old(runner).agent.parent_id,
        emitted(first).run_id == old(runner).agent.state.active_run,
        emitted(first).session_sequence is None,
        emitted(first).visibility == EventVisibility::User,
        final(runner).agent == old(runner).agent,
        final(runner).final_result == old(runner).final_result,
        final(runner).backend_tokens == old(runner).backend_tokens,
        final(runner).tool_tokens == old(runner).tool_tokens,
        final(runner).fatal_error == old(runner).fatal_error,
{
}

/// With a committer every event goes to it. Without one an event goes straight
/// to observers, and it is first appended to the durable history unless it
/// only shows work in progress.
pub proof fn progress_events_are_not_stored(
    runner: &mut AgentRunner,
    event: AgentEvent,
    event_id: EventId,
    now: u64,
    table: &mut LiveStateTable,
    route: EmitRoute,
    durable: bool,
)
    requires
        call_ensures(AgentRunner::emit, (runner, event, event_id, now, table), route),
        call_ensures(AgentEvent::is_durable, (&event,), durable),
    ensures
        route is Commit <==> old(runner).committed,
        route matches EmitRoute::Direct { envelope, persist } ==> persist == durable,
        !durable <==> {
            ||| event is AssistantTextDelta
            ||| event is ReasoningDelta
            ||| event is ToolCallProgress
            ||| event is ToolCallRequested
            ||| event is BackendRequestStarted
            ||| event is AssistantMessageStarted
        },
{
}

/// How a run ended is seen at once by whoever looks at the agent, and nothing
/// else of what is seen changes; an event that ends no run changes nothing.
pub proof fn the_end_of_a_run_is_seen(
    runner: &mut AgentRunner,
    event: AgentEvent,
    event_id: EventId,
    now: u64,
    table: &mut LiveStateTable,
    route: EmitRoute,
    other: AgentId,
)
    requires
        call_ensures(AgentRunner::emit, (runner, event, event_id, now, table), route),
    ensures
        !(event is Completed) && !(event is Failed) ==> final(table)@ == old(table)@,
        ({
            let seen = final(table).state_of(old(runner).agent.id);
            let before = old(table).state_of(old(runner).agent.id);
            &&& event matches AgentEvent::Completed { outcome } ==> seen.last_outcome == Some(
                outcome,
            )
            &&& event is Failed ==> seen.last_outcome == Some(AgentOutcome::Failed)
            &&& seen.status == before.status
            &&& seen.current_operation == before.current_operation
            &&& seen.last_error == before.last_error
            &&& seen.usage == before.usage
            &&& seen.total_requests == before.total_requests
            &&& seen.total_cost_usd == before.total_cost_usd
        }),
        other != old(runner).agent.id ==> final(table).state_of(other)
            == old(table).state_of(other),
{
    assert(other != old(runner).agent.id ==> other.0 != old(runner).agent.id.0);
}

/// An event is published exactly when it was committed, as it came back from
/// the committer; a checkpoint is due exactly at the end of a run, at the
/// number of the event that ended it. A committed event leaves the runner as
/// it was.
pub proof fn only_committed_events_are_published(
    runner: &mut AgentRunner,
    outcome: CommitOutcome,
    table: &mut LiveStateTable,
    metrics: AgentUsageMetrics,
    usage: AgentUsageSummary,
    end: CommitEnd,
)
    requires
        call_ensures(AgentRunner::finish_commit, (runner, outcome, table, metrics, usage), end),
    ensures
        end is Publish <==> outcome is Committed,
        outcome matches CommitOutcome::Committed(envelope) ==> {
            &&& end->Publish_0.envelope == envelope
            &&& envelope.event is Completed || envelope.event is Failed
                ==> end->Publish_0.checkpoint == envelope.session_sequence
            &&& !(envelope.event is Completed) && !(envelope.event is Failed)
                ==> end->Publish_0.checkpoint is None
            &&& *final(runner) == *old(runner)
            &&& final(table)@ == old(table)@
        },
{
}

/// A commit that failed, or was refused, leaves nothing in flight, fails the
/// agent with an error that says which of the two it was, makes that error
/// the result of the run and shows it to whoever looks at the agent. The
/// identity of the agent, its capabilities and its budget stay.
pub proof fn an_uncommitted_event_is_a_failure_of_the_agent(
    runner: &mut AgentRunner,
    outcome: CommitOutcome,
    table: &mut LiveStateTable,
    metrics: AgentUsageMetrics,
    usage: AgentUsageSummary,
    end: CommitEnd,
    key: u128,
)
    requires
        call_ensures(AgentRunner::finish_commit, (runner, outcome, table, metrics, usage), end),
        !(outcome is Committed),
    ensures
        end is Fatal,
        final(runner).fatal_error,
        !final(runner).backend_tokens@.contains_key(key),
        !final(runner).tool_tokens@.contains_key(key),
        old(runner).backend_tokens@.contains_key(key) ==> exists|i: int|
            0 <= i < end->Fatal_0@.len() && crate::outside::known_cancelled(
                end->Fatal_0@[i],
            ) && crate::outside::covers(
                #[trigger] end->Fatal_0@[i],
                old(runner).backend_tokens@[key],
            ),
        old(runner).tool_tokens@.contains_key(key) ==> exists|i: int|
            0 <= i < end->Fatal_0@.len() && crate::outside::known_cancelled(
                end->Fatal_0@[i],
            ) && crate::outside::covers(
                #[trigger] end->Fatal_0@[i],
                old(runner).tool_tokens@[key],
            ),
        final(runner).agent.state.status == AgentStatus::Failed,
        final(runner).agent.state.active_run is None,
        final(runner).agent.state.pending_tools@.len() == 0,
        final(runner).agent.state.pending_permissions@.len() == 0,
        final(runner).agent.state.last_error is Some,
        final(runner).final_result == Some(
            Err::<AgentResult, AgentError>(final(runner).agent.state.last_error->0),
        ),
        outcome is Rejected ==> final(runner).agent.state.last_error->0.code@
            == "PERSISTENCE_COMMIT_REJECTED"@ && final(runner).agent.state.last_error->0.message@
            == "strict event commit rejected publication"@,
        outcome matches CommitOutcome::Failed(reason) ==> {
            let error = final(runner).agent.state.last_error->0;
            &&& error.code@ == "PERSISTENCE_COMMIT_FAILED"@
            &&& error.message@ == "strict event commit failed: "@ + reason@
        },
        final(table).state_of(old(runner).agent.id).status == AgentStatus::Failed,
        final(table).state_of(old(runner).agent.id).last_error
            == final(runner).agent.state.last_error,
        final(table).state_of(old(runner).agent.id).last_outcome == old(table).state_of(
            old(runner).agent.id,
        ).last_outcome,
        final(runner).agent.id == old(runner).agent.id,
        final(runner).agent.parent_id == old(runner).agent.parent_id,
        final(runner).agent.session_id == old(runner).agent.session_id,
        final(runner).agent.capabilities == old(runner).agent.capabilities,
        final(runner).agent.budget == old(runner).agent.budget,
        final(runner).agent_sequence == old(runner).agent_sequence,
        final(runner).committed == old(runner).committed,
{
    let handles = end->Fatal_0@;
    if old(runner).backend_tokens@.contains_key(key) {
        assert(crate::tables::among(handles, old(runner).backend_tokens@[key]));
        let i = choose|i: int|
            0 <= i < handles.len() && crate::outside::covers(
                #[trigger] handles[i],
                old(runner).backend_tokens@[key],
            );
        assert(crate::outside::known_cancelled(handles[i]));
    }
    if old(runner).tool_tokens@.contains_key(key) {
        assert(crate::tables::among(handles, old(runner).tool_tokens@[key]));
        let i = choose|i: int|
            0 <= i < handles.len() && crate::outside::covers(
                #[trigger] handles[i],
                old(runner).tool_tokens@[key],
            );
        assert(crate::outside::known_cancelled(handles[i]));
    }
}

/// A runner that fails fatally fails with the code and the message it is given:
/// they are its agent's last error and the result of its run, nothing is left
/// in flight, and it is seen as failed.
pub proof fn a_fatal_failure_is_told_as_it_is(
    runner: &mut AgentRunner,
    code: &str,
    message: String,
    table: &mut LiveStateTable,
    metrics: AgentUsageMetrics,
    usage: AgentUsageSummary,
    handles: Vec<CancellationToken>,
    key: u128,
    other: AgentId,
)
    requires
        call_ensures(
            AgentRunner::fail_fatally,
            (runner, code, message, table, metrics, usage),
            handles,
        ),
    ensures
        final(runner).fatal_error,
        final(runner).agent.state.status == AgentStatus::Failed,
        final(runner).agent.state.last_error is Some,
        final(runner).agent.state.last_error->0.code@ == code@,
        final(runner).agent.state.last_error->0.message@ == message@,
        final(runner).agent.state.last_error->0.details is None,
        final(runner).agent.state.messages == old(runner).agent.state.messages,
        final(runner).agent.state.children == old(runner).agent.state.children,
        final(runner).agent.state.depth == old(runner).agent.state.depth,
        final(runner).agent.state.active_run is None,
        final(runner).final_result == Some(
            Err::<AgentResult, AgentError>(final(runner).agent.state.last_error->0),
        ),
        !final(runner).backend_tokens@.contains_key(key),
        !final(runner).tool_tokens@.contains_key(key),
        handles@.len() == old(runner).backend_tokens@.dom().len()
            + old(runner).tool_tokens@.dom().len(),
        old(runner).backend_tokens@.contains_key(key) ==> exists|i: int|
            0 <= i < handles@.len() && crate::outside::known_cancelled(handles@[i])
                && crate::outside::covers(
                #[trigger] handles@[i],
                old(runner).backend_tokens@[key],
            ),
        old(runner).tool_tokens@.contains_key(key) ==> exists|i: int|
            0 <= i < handles@.len() && crate::outside::known_cancelled(handles@[i])
                && crate::outside::covers(#[trigger] handles@[i], old(runner).tool_tokens@[key]),
        final(runner).survives_runs == old(runner).survives_runs,
        final(runner).supervised == old(runner).supervised,
        final(runner).stored == old(runner).stored,
        final(runner).cancel == old(runner).cancel,
        ({
            let seen = final(table).state_of(old(runner).agent.id);
            &&& seen.status == AgentStatus::Failed
            &&& seen.last_error == final(runner).agent.state.last_error
            &&& seen.usage == usage
            &&& seen.total_requests == metrics.total_requests
            &&& seen.total_cost_usd == metrics.total_cost
        }),
        other != old(runner).agent.id ==> final(table).state_of(other)
            == old(table).state_of(other),
{
    assert(other != old(runner).agent.id ==> other.0 != old(runner).agent.id.0);
}

/// Something is written to the durable history exactly when there is a store
/// and the transcript is valid, and it is what was asked for.
pub proof fn an_invalid_transcript_is_never_written(
    stored: bool,
    transcript_valid: bool,
    mutation: SessionMutation,
    plan: PersistPlan,
)
    requires
        call_ensures(persist, (stored, transcript_valid, mutation), plan),
    ensures
        plan is Append || plan is SaveSnapshot <==> stored && transcript_valid,
        plan is NoStore <==> !stored,
        plan matches PersistPlan::Append(envelope) ==> mutation == SessionMutation::AppendEvent(
            envelope,
        ),
        plan matches PersistPlan::SaveSnapshot(text) ==> mutation == SessionMutation::SaveSnapshot(
            text,
        ),
{
}

} // verus!
