//! Laws of sessions: what a command does, and what is shown.

use vstd::prelude::*;

use crate::agent::{
    Agent, AgentOutcome, AgentStatus, AgentUsageMetrics, AgentUsageSummary, BackendBinding,
    BackendDescriptor, UserInput,
};
use crate::agent_runner::AgentRunner;
use crate::ids::{AgentId, PermissionId, SessionId};
use crate::laws::permissions::called;
use crate::protocol::{AgentCommand, AgentEventEnvelope, PermissionDecision};
use crate::scheduler::SchedulerConfig;
use crate::session_client::{
    metrics_from_live, session_status_from_live, snapshot, SessionSnapshot as ClientSnapshot,
    SnapshotTexts,
};
use crate::session_runtime::construction::{root_agent, root_binding};
use crate::session_runtime::event_bus::{
    bus_step, BusStep, PollStep, Received, SessionEventBus,
};
use crate::session_runtime::live_state::{AgentLiveState, LiveStateTable};
use crate::session_runtime::projection::DurableSessionSnapshot;
use crate::session_runtime::restoration::{restore_state, StoredAgent};
use crate::session_runtime::runtime::{
    cancel_run_command, delivery_outcome, follow_up_command, resolve_permission_command,
    show_error, show_status, steer_command, SessionRuntime,
};
use crate::session_runtime::types::{
    SessionCommand, SessionError, SessionSnapshot, SessionState, SessionStatus,
};
use crate::tools::AgentToolset;

verus! {

// ---------------------------------------------------------------------------
// Commands
// ---------------------------------------------------------------------------

/// Every session command is answered with the agent command of its own name
/// and with its own payload. The one exception is a prompt to a cancelled
/// session, which is turned down.
pub proof fn a_command_reaches_the_root_agent_as_itself<W>(
    runtime: &mut SessionRuntime<W>,
    command: SessionCommand,
    cancelled: bool,
    r: Result<AgentCommand, SessionError>,
)
    requires
        call_ensures(
            SessionRuntime::<W>::send_command_when,
            (runtime, command, cancelled),
            r,
        ),
    ensures
        r is Err <==> command is Prompt && cancelled,
        r is Err ==> r->Err_0 is Cancelled,
        r is Ok && r->Ok_0 is StartRun <==> command is Prompt && !cancelled,
        r is Ok && r->Ok_0 is SpawnChild <==> command is SpawnChild,
        r is Ok && r->Ok_0 is Cancel <==> command is Cancel,
        r is Ok && r->Ok_0 is Pause <==> command is Pause,
        r is Ok && r->Ok_0 is Resume <==> command is Resume,
        r is Ok && r->Ok_0 is ConfigureExecution <==> command is ConfigureExecution,
        r is Ok && command is Prompt ==> r->Ok_0->StartRun_input == command->Prompt_0,
        command is SpawnChild ==> r->Ok_0->spec == command->SpawnChild_0,
        command is ConfigureExecution ==> r->Ok_0->params == command->ConfigureExecution_0,
{
}

/// Two session commands that are answered alike are the same command: none is
/// taken for another.
pub proof fn no_command_is_taken_for_another<W>(
    first_runtime: &mut SessionRuntime<W>,
    first: SessionCommand,
    first_cancelled: bool,
    second_runtime: &mut SessionRuntime<W>,
    second: SessionCommand,
    second_cancelled: bool,
    answer: AgentCommand,
)
    requires
        call_ensures(
            SessionRuntime::<W>::send_command_when,
            (first_runtime, first, first_cancelled),
            Ok(answer),
        ),
        call_ensures(
            SessionRuntime::<W>::send_command_when,
            (second_runtime, second, second_cancelled),
            Ok(answer),
        ),
    ensures
        first == second,
{
}

/// A command that is neither a prompt nor a cancellation leaves the session as
/// it is.
pub proof fn only_prompts_and_cancellation_touch_the_session<W>(
    runtime: &mut SessionRuntime<W>,
    command: SessionCommand,
    cancelled: bool,
    r: Result<AgentCommand, SessionError>,
)
    requires
        call_ensures(
            SessionRuntime::<W>::send_command_when,
            (runtime, command, cancelled),
            r,
        ),
        !(command is Cancel),
        command is Prompt ==> cancelled,
    ensures
        *final(runtime) == *old(runtime),
{
}

/// A prompt takes a session to running whatever it was before, except that a
/// failed session stays failed. What went wrong before is forgotten where the
/// session starts again, and so is how the root agent's last run ended; nothing
/// else that is shown of any agent changes, and nothing else of the session.
pub proof fn a_prompt_starts_the_session<W>(
    runtime: &mut SessionRuntime<W>,
    input: UserInput,
    r: Result<AgentCommand, SessionError>,
    other: AgentId,
)
    requires
        call_ensures(
            SessionRuntime::<W>::send_command_when,
            (runtime, SessionCommand::Prompt(input), false),
            r,
        ),
    ensures
        ({
            let before = old(runtime).state;
            let after = final(runtime).state;
            let root = before.root_agent_id;
            let shown = final(runtime).live_state.state_of(root);
            let was = old(runtime).live_state.state_of(root);
            &&& before.status == SessionStatus::Failed ==> after.status == SessionStatus::Failed
            &&& before.status != SessionStatus::Failed ==> after.status == SessionStatus::Running
            &&& before.status == SessionStatus::Failed || before.status == SessionStatus::Running
                ==> after.error == before.error
            &&& before.status != SessionStatus::Failed && before.status != SessionStatus::Running
                ==> after.error is None
            &&& before.status != SessionStatus::Failed ==> shown.last_outcome is None
            &&& before.status == SessionStatus::Failed ==> shown.last_outcome == was.last_outcome
            &&& shown.status == was.status
            &&& shown.last_error == was.last_error
            &&& shown.current_operation == was.current_operation
            &&& shown.usage == was.usage
            &&& shown.total_requests == was.total_requests
            &&& shown.total_cost_usd == was.total_cost_usd
            &&& other != root ==> final(runtime).live_state.state_of(other)
                == old(runtime).live_state.state_of(other)
            &&& after.agents == before.agents
            &&& after.root_agent_id == root
            &&& final(runtime).session_id == old(runtime).session_id
            &&& final(runtime).cancellation == old(runtime).cancellation
            &&& final(runtime).projection == old(runtime).projection
            &&& final(runtime).agent_supervisor == old(runtime).agent_supervisor
            &&& final(runtime).stored == old(runtime).stored
            &&& final(runtime).bus_cancel == old(runtime).bus_cancel
            &&& final(runtime).event_bus == old(runtime).event_bus
        }),
{
    assert(other != old(runtime).state.root_agent_id ==> other.0
        != old(runtime).state.root_agent_id.0);
}

/// Cancelling, by command or directly, cancels the session's tokens and tells
/// the root agent; the session is cancelled from then on unless it failed, and
/// its observers stay connected.
pub proof fn cancelling_ends_a_session<W>(
    runtime: &mut SessionRuntime<W>,
    cancelled: bool,
    r: Result<AgentCommand, SessionError>,
    direct: &mut SessionRuntime<W>,
    told: AgentCommand,
)
    requires
        call_ensures(
            SessionRuntime::<W>::send_command_when,
            (runtime, SessionCommand::Cancel, cancelled),
            r,
        ),
        call_ensures(SessionRuntime::<W>::cancel, (direct,), told),
    ensures
        r == Ok::<_, SessionError>(AgentCommand::Cancel),
        told == AgentCommand::Cancel,
        crate::outside::known_cancelled(final(runtime).cancellation.root()),
        crate::outside::known_cancelled(final(direct).cancellation.root()),
        old(runtime).state.status == SessionStatus::Failed ==> final(runtime).state.status
            == SessionStatus::Failed,
        old(runtime).state.status != SessionStatus::Failed ==> final(runtime).state.status
            == SessionStatus::Cancelled,
        old(direct).state.status == SessionStatus::Failed ==> final(direct).state.status
            == SessionStatus::Failed,
        old(direct).state.status != SessionStatus::Failed ==> final(direct).state.status
            == SessionStatus::Cancelled,
        final(runtime).state.error == old(runtime).state.error,
        final(direct).state.error == old(direct).state.error,
        final(runtime).bus_cancel == old(runtime).bus_cancel,
        final(direct).bus_cancel == old(direct).bus_cancel,
        final(direct).live_state == old(direct).live_state,
        final(runtime).live_state == old(runtime).live_state,
{
}

/// A command to a session that is known to be cancelled is turned down exactly
/// when it is a prompt; without any request for cancellation every command is
/// accepted.
pub proof fn a_cancelled_session_turns_prompts_down<W>(
    runtime: &mut SessionRuntime<W>,
    command: SessionCommand,
    r: Result<AgentCommand, SessionError>,
)
    requires
        call_ensures(SessionRuntime::<W>::send_command, (runtime, command), r),
    ensures
        old(runtime).cancellation.known_cancelled() ==> (r is Err <==> command is Prompt),
        !crate::outside::cancel_requested(old(runtime).cancellation.root()) ==> r is Ok,
        r is Err ==> command is Prompt && *final(runtime) == *old(runtime),
        r is Ok && command is Prompt ==> r->Ok_0 == (AgentCommand::StartRun {
            input: command->Prompt_0,
        }),
        command is SpawnChild ==> r == Ok::<_, SessionError>(
            AgentCommand::SpawnChild { spec: command->SpawnChild_0 },
        ),
        command is Pause ==> r == Ok::<_, SessionError>(AgentCommand::Pause),
        command is Resume ==> r == Ok::<_, SessionError>(AgentCommand::Resume),
        command is Cancel ==> r == Ok::<_, SessionError>(AgentCommand::Cancel),
        command is ConfigureExecution ==> r == Ok::<_, SessionError>(
            AgentCommand::ConfigureExecution { params: command->ConfigureExecution_0 },
        ),
{
}

/// The commands that go past the session each stand for what they are called,
/// with what they were given; a send succeeds exactly when it was delivered.
pub proof fn direct_commands_are_what_they_are_called(
    cancel: AgentCommand,
    input: UserInput,
    steer: AgentCommand,
    follow_up: AgentCommand,
    id: PermissionId,
    decision: PermissionDecision,
    resolve: AgentCommand,
    delivered: bool,
    outcome: Result<(), SessionError>,
)
    requires
        call_ensures(cancel_run_command, (), cancel),
        call_ensures(steer_command, (input,), steer),
        call_ensures(follow_up_command, (input,), follow_up),
        call_ensures(resolve_permission_command, (id, decision), resolve),
        call_ensures(delivery_outcome, (delivered,), outcome),
    ensures
        cancel is Cancel,
        steer is Steer && steer->Steer_input == input,
        follow_up is FollowUp && follow_up->FollowUp_input == input,
        resolve is PermissionResolved && resolve->id == id && resolve->decision == decision,
        outcome is Ok <==> delivered,
        outcome is Err ==> outcome->Err_0 is ChannelClosed,
{
}

/// A session that is marked as failed is failed, for the given reason, and
/// nothing else of it changes.
pub proof fn a_marked_session_is_failed<W>(runtime: &mut SessionRuntime<W>, error: String)
    requires
        call_ensures(SessionRuntime::<W>::mark_failed, (runtime, error), ()),
    ensures
        final(runtime).state.status == SessionStatus::Failed,
        final(runtime).state.error == Some(error),
        final(runtime).state.agents == old(runtime).state.agents,
        final(runtime).state.root_agent_id == old(runtime).state.root_agent_id,
        final(runtime).cancellation == old(runtime).cancellation,
        final(runtime).live_state == old(runtime).live_state,
        final(runtime).projection == old(runtime).projection,
        final(runtime).bus_cancel == old(runtime).bus_cancel,
{
}

/// Shutting down cancels the session and its event bus, and leaves what the
/// session shows alone.
pub proof fn a_shutdown_stops_everything<W>(runtime: &mut SessionRuntime<W>)
    requires
        call_ensures(SessionRuntime::<W>::shutdown, (runtime,), ()),
    ensures
        crate::outside::known_cancelled(final(runtime).bus_cancel),
        crate::outside::known_cancelled(final(runtime).cancellation.root()),
        final(runtime).state == old(runtime).state,
        final(runtime).live_state == old(runtime).live_state,
        final(runtime).projection == old(runtime).projection,
{
}

// ---------------------------------------------------------------------------
// What is shown
// ---------------------------------------------------------------------------

/// Whether an agent of this status is in the middle of something.
pub open spec fn busy(status: AgentStatus) -> bool {
    ||| status == AgentStatus::PreparingContext
    ||| status == AgentStatus::WaitingForBackend
    ||| status == AgentStatus::Streaming
    ||| status == AgentStatus::Executing
    ||| status == AgentStatus::WaitingForPermission
    ||| status == AgentStatus::WaitingForChildren
    ||| status == AgentStatus::Paused
}

/// What a session shows: a failure of the session comes first, its
/// cancellation next, and what its root agent is doing last. An idle agent
/// shows a completed session exactly after a successful run, and otherwise
/// leaves the session's own status.
pub proof fn what_a_session_shows(
    status: SessionStatus,
    cancelled: bool,
    live: &AgentLiveState,
    r: SessionStatus,
)
    requires
        call_ensures(show_status, (status, cancelled, live), r),
    ensures
        status == SessionStatus::Failed ==> r == SessionStatus::Failed,
        status != SessionStatus::Failed && cancelled ==> r == SessionStatus::Cancelled,
        status != SessionStatus::Failed && !cancelled ==> {
            &&& busy(live.status) ==> r == SessionStatus::Running
            &&& live.status == AgentStatus::Completed ==> r == SessionStatus::Running
            &&& live.status == AgentStatus::Failed ==> r == SessionStatus::Failed
            &&& live.status == AgentStatus::Cancelled ==> r == SessionStatus::Cancelled
            &&& live.status == AgentStatus::Idle && live.last_outcome == Some(AgentOutcome::Success)
                ==> r == SessionStatus::Completed
            &&& live.status == AgentStatus::Idle && live.last_outcome != Some(AgentOutcome::Success)
                ==> r == status
        },
{
}

/// What a session says went wrong: its own error where it has one, else its
/// root agent's, and nothing where neither has one.
pub proof fn what_went_wrong_is_shown(
    error: &Option<String>,
    live: &AgentLiveState,
    r: Option<String>,
)
    requires
        call_ensures(show_error, (error, live), r),
    ensures
        *error is Some ==> r == *error,
        *error is None && live.last_error is Some ==> r == Some(live.last_error->0.message),
        *error is None && live.last_error is None ==> r is None,
{
}

/// A snapshot of a session shows the status and the error that its state and
/// its root agent's live state stand for, and counts its agents.
pub proof fn a_session_snapshot_shows_the_session<W>(
    runtime: &SessionRuntime<W>,
    cancelled: bool,
    r: SessionSnapshot,
    live: AgentLiveState,
    status: SessionStatus,
    error: Option<String>,
)
    requires
        call_ensures(SessionRuntime::<W>::snapshot_when, (runtime, cancelled), r),
        call_ensures(
            SessionRuntime::<W>::agent_live_state,
            (runtime, runtime.state.root_agent_id),
            live,
        ),
        call_ensures(show_status, (runtime.state.status, cancelled, &live), status),
        call_ensures(show_error, (&runtime.state.error, &live), error),
    ensures
        r.session_id == runtime.session_id,
        r.root_agent_id == runtime.state.root_agent_id,
        r.agent_count == runtime.state.agents@.len(),
        r.status == status,
        r.error == error,
{
}

/// A snapshot taken now is a snapshot for what the session's cancellation
/// reports: cancelled where that is known, not cancelled where nobody asked
/// for it.
pub proof fn a_snapshot_taken_now_is_up_to_date<W>(
    runtime: &SessionRuntime<W>,
    now: SessionSnapshot,
    cancelled: SessionSnapshot,
    running: SessionSnapshot,
)
    requires
        call_ensures(SessionRuntime::<W>::state_snapshot, (runtime,), now),
        call_ensures(SessionRuntime::<W>::snapshot_when, (runtime, true), cancelled),
        call_ensures(SessionRuntime::<W>::snapshot_when, (runtime, false), running),
    ensures
        now.status == cancelled.status || now.status == running.status,
        runtime.cancellation.known_cancelled() ==> now.status == cancelled.status,
        !crate::outside::cancel_requested(runtime.cancellation.root()) ==> now.status
            == running.status,
        now.session_id == cancelled.session_id,
        now.root_agent_id == cancelled.root_agent_id,
        now.agent_count == cancelled.agent_count,
        now.error == cancelled.error,
{
    let live = runtime.live_state.state_of(runtime.state.root_agent_id);
    let reported = choose|reported: bool|
        now.status == #[trigger] crate::session_runtime::runtime::shown_status(
            runtime.state.status,
            reported,
            live,
        ) && (runtime.cancellation.known_cancelled() ==> reported) && (reported
            ==> crate::outside::cancel_requested(runtime.cancellation.root()));
    if reported {
        assert(now.status == cancelled.status);
    } else {
        assert(now.status == running.status);
    }
}

/// A checkpoint is made exactly where there is a store, of this session, its
/// root, its workspace and every projected agent, at the given number and time.
pub proof fn a_checkpoint_takes_a_store<W>(
    runtime: &SessionRuntime<W>,
    workspace_identity: String,
    at_sequence: u64,
    now: u64,
    schema_version: u32,
    r: Option<DurableSessionSnapshot>,
    i: int,
)
    requires
        call_ensures(
            SessionRuntime::<W>::checkpoint,
            (runtime, workspace_identity, at_sequence, now, schema_version),
            r,
        ),
    ensures
        r is Some <==> runtime.stored,
        r matches Some(snapshot) ==> {
            &&& snapshot.session_id == runtime.session_id
            &&& snapshot.root_agent_id == runtime.state.root_agent_id
            &&& snapshot.session_sequence == at_sequence
            &&& snapshot.timestamp == now
            &&& snapshot.schema_version == schema_version
            &&& snapshot.metadata.workspace_identity == Some(workspace_identity)
            &&& !snapshot.metadata.compacted
            &&& snapshot.metadata.compaction_generation == 0
            &&& snapshot.agents@.len() == runtime.projection@.len()
            &&& 0 <= i < snapshot.agents@.len() ==> snapshot.agents@[i].agent_id
                == runtime.projection@[i].agent_id && snapshot.agents@[i].status
                == runtime.projection@[i].status && snapshot.agents@[i].messages@
                == runtime.projection@[i].messages@ && snapshot.agents@[i].usage
                == runtime.projection@[i].usage && snapshot.agents@[i].capabilities
                == runtime.projection@[i].capabilities && snapshot.agents@[i].parent_id
                == runtime.projection@[i].parent_id && snapshot.agents@[i].backend
                == runtime.projection@[i].backend && crate::text::texts(
                snapshot.metadata.integration_references@,
            ).contains(
                runtime.projection@[i].backend.reference.integration@ + "::"@
                    + runtime.projection@[i].backend.descriptor.name@,
            )
            &&& snapshot.metadata.credential_profiles@.len() == 0
            &&& snapshot.metadata.tool_policy_ids@.len() == 0
        },
{
    if r is Some && 0 <= i < r->0.agents@.len() {
        assert(r->0.agents@[i].same_as(runtime.projection@[i]));
        assert(runtime.projection@[i].reference()
            == runtime.projection@[i].backend.reference.integration@ + "::"@
            + runtime.projection@[i].backend.descriptor.name@);
    }
}

/// What a live state says of a session by itself: a busy agent says running;
/// one that was cancelled, failed or completed says so; an idle one says how
/// its last run ended, and where there was none the fallback stands.
pub proof fn what_a_live_state_says(live: &AgentLiveState, fallback: SessionStatus, r: SessionStatus)
    requires
        call_ensures(session_status_from_live, (live, fallback), r),
    ensures
        busy(live.status) ==> r == SessionStatus::Running,
        live.status == AgentStatus::Cancelled ==> r == SessionStatus::Cancelled,
        live.status == AgentStatus::Failed ==> r == SessionStatus::Failed,
        live.status == AgentStatus::Completed ==> r == SessionStatus::Completed,
        live.status == AgentStatus::Idle ==> match live.last_outcome {
            Some(AgentOutcome::Success) => r == SessionStatus::Completed,
            Some(AgentOutcome::Failed) => r == SessionStatus::Failed,
            Some(AgentOutcome::Cancelled) => r == SessionStatus::Cancelled,
            None => r == fallback,
        },
{
}

/// The usage that a client sees: the agent's own requests and cost, and the
/// runs, tool calls and tokens of the whole tree below it.
pub proof fn what_a_client_sees_of_usage(live: &AgentLiveState, r: AgentUsageMetrics)
    requires
        call_ensures(metrics_from_live, (live,), r),
    ensures
        r.total_requests == live.total_requests,
        r.total_cost == live.total_cost_usd,
        r.total_runs == live.usage.inclusive_usage.total_runs,
        r.total_tool_calls == live.usage.inclusive_usage.total_tool_calls,
        r.total_tokens == live.usage.inclusive_usage.total_tokens,
{
}

/// What a client sees of a session: its identity, its root agent's usage, and
/// the status that the root agent's live state says, where the session is not
/// shown as failed; what the session itself shows stands where the live state
/// says nothing. The context is the root agent's.
pub proof fn what_a_client_sees<W>(
    runtime: &SessionRuntime<W>,
    cancelled: bool,
    texts: SnapshotTexts,
    now: u64,
    r: ClientSnapshot,
    shown: SessionSnapshot,
    live: AgentLiveState,
    said: SessionStatus,
    metrics: AgentUsageMetrics,
)
    requires
        call_ensures(snapshot::<W>, (runtime, cancelled, texts, now), r),
        call_ensures(SessionRuntime::<W>::snapshot_when, (runtime, cancelled), shown),
        call_ensures(
            SessionRuntime::<W>::agent_live_state,
            (runtime, runtime.state.root_agent_id),
            live,
        ),
        call_ensures(session_status_from_live, (&live, shown.status), said),
        call_ensures(metrics_from_live, (&live,), metrics),
    ensures
        shown.status == SessionStatus::Failed ==> r.status == SessionStatus::Failed,
        shown.status != SessionStatus::Failed ==> r.status == said,
        r.session_id == runtime.session_id,
        r.root_agent_id == runtime.state.root_agent_id,
        r.timestamp == now,
        r.root_agent_status.agent_id == texts.root_agent,
        r.root_agent_status.timestamp == texts.now,
        r.root_agent_status.metrics == metrics,
        r.usage.session_id == texts.session,
        r.usage.timestamp == texts.now,
        r.usage.cumulative.total_tokens == metrics.total_tokens,
        r.usage.cumulative.total_cost == metrics.total_cost,
        r.usage.cumulative.total_requests == metrics.total_requests,
        runtime.state.agents@.contains_key(runtime.state.root_agent_id.0) ==> {
            let context = runtime.state.agents@[runtime.state.root_agent_id.0].state.context;
            &&& r.context.generation == context.generation
            &&& r.context.estimated_tokens == context.last_estimated_tokens
            &&& r.context.checkpoint == context.active_checkpoint
            &&& r.context.covered_through == context.covered_through
            &&& r.context.pinned_items == context.pinned_items
            &&& r.context.last_compacted_at == context.last_compacted_at
        },
        !runtime.state.agents@.contains_key(runtime.state.root_agent_id.0) ==> r.context.generation
            == 0 && r.context.estimated_tokens is None && r.context.pinned_items == 0
            && r.context.checkpoint is None && r.context.covered_through is None
            && r.context.last_compacted_at is None,
{
}

/// A message of a session error says what happened.
pub proof fn a_session_error_says_what_happened(error: &SessionError, r: String)
    requires
        call_ensures(SessionError::message, (error,), r),
    ensures
        *error is SessionNotFound ==> r@ == "session not found"@,
        *error is Cancelled ==> r@ == "operation cancelled"@,
        *error is ChannelClosed ==> r@ == "command channel closed"@,
        *error is InvalidState ==> r@ == "invalid state: expected "@ + error->expected@
            + ", actual "@ + error->actual@,
{
}

// ---------------------------------------------------------------------------
// Live states
// ---------------------------------------------------------------------------

/// What was set of an agent is what is read of it, and of no other agent; an
/// agent that was never heard of is idle, with nothing used and nothing wrong.
pub proof fn a_live_state_is_read_back(
    table: &mut LiveStateTable,
    agent: AgentId,
    state: AgentLiveState,
    other: AgentId,
    read: AgentLiveState,
    before: AgentLiveState,
    fresh: LiveStateTable,
    unknown: AgentLiveState,
)
    requires
        call_ensures(LiveStateTable::set, (table, agent, state), ()),
        call_ensures(LiveStateTable::get, (final(table), other), read),
        call_ensures(LiveStateTable::get, (old(table), other), before),
        call_ensures(LiveStateTable::new, (), fresh),
        call_ensures(LiveStateTable::get, (&fresh, other), unknown),
    ensures
        other == agent ==> read == state,
        other != agent ==> read == before,
        unknown.status == AgentStatus::Idle,
        unknown.current_operation is None,
        unknown.last_outcome is None,
        unknown.last_error is None,
        unknown.total_requests == 0,
        unknown.total_cost_usd is None,
        unknown.usage.inclusive_usage.total_runs == 0,
        unknown.usage.self_usage.total_runs == 0,
        unknown.usage.descendant_usage.total_runs == 0,
{
    assert(other != agent ==> other.0 != agent.0);
}

/// By default nothing is known of an agent: it is idle, and nothing was done,
/// used or went wrong.
pub proof fn by_default_nothing_is_known_of_an_agent(r: AgentLiveState)
    requires
        call_ensures(AgentLiveState::default, (), r),
    ensures
        r.status == AgentStatus::Idle,
        r.current_operation is None,
        r.last_outcome is None,
        r.last_error is None,
        r.total_requests == 0,
        r.total_cost_usd is None,
        r.usage.self_usage.total_requests == 0,
        r.usage.self_usage.total_tokens is None,
        r.usage.inclusive_usage == r.usage.self_usage,
        r.usage.descendant_usage == r.usage.self_usage,
{
}

/// What an agent publishes after a transition: its status, operation, error
/// and usage, while how its last run ended stays. Publishing how a run ended,
/// or forgetting it, changes just that.
pub proof fn transitions_and_outcomes_are_published_apart(
    published: &mut LiveStateTable,
    agent: &Agent,
    metrics: AgentUsageMetrics,
    usage: AgentUsageSummary,
    ended: &mut LiveStateTable,
    outcome: AgentOutcome,
    cleared: &mut LiveStateTable,
    other: AgentId,
)
    requires
        call_ensures(LiveStateTable::publish_status, (published, agent, metrics, usage), ()),
        call_ensures(LiveStateTable::publish_outcome, (ended, agent.id, outcome), ()),
        call_ensures(LiveStateTable::clear_outcome, (cleared, agent.id), ()),
    ensures
        ({
            let was = old(published).state_of(agent.id);
            let is = final(published).state_of(agent.id);
            &&& is.status == agent.state.status
            &&& is.current_operation == agent.state.current_operation
            &&& is.last_error == agent.state.last_error
            &&& is.usage == usage
            &&& is.total_requests == metrics.total_requests
            &&& is.total_cost_usd == metrics.total_cost
            &&& is.last_outcome == was.last_outcome
        }),
        ({
            let was = old(ended).state_of(agent.id);
            let is = final(ended).state_of(agent.id);
            &&& is.last_outcome == Some(outcome)
            &&& is.status == was.status
            &&& is.current_operation == was.current_operation
            &&& is.last_error == was.last_error
            &&& is.usage == was.usage
            &&& is.total_requests == was.total_requests
            &&& is.total_cost_usd == was.total_cost_usd
        }),
        ({
            let was = old(cleared).state_of(agent.id);
            let is = final(cleared).state_of(agent.id);
            &&& is.last_outcome is None
            &&& is.status == was.status
            &&& is.current_operation == was.current_operation
            &&& is.last_error == was.last_error
            &&& is.usage == was.usage
            &&& is.total_requests == was.total_requests
            &&& is.total_cost_usd == was.total_cost_usd
        }),
        other != agent.id ==> final(published).state_of(other) == old(published).state_of(other)
            && final(ended).state_of(other) == old(ended).state_of(other)
                && final(cleared).state_of(other) == old(cleared).state_of(other),
{
    assert(other != agent.id ==> other.0 != agent.id.0);
}

// ---------------------------------------------------------------------------
// Runners and agents
// ---------------------------------------------------------------------------

/// The runner of an agent is long-lived exactly when the agent has no parent,
/// persists and commits exactly where there is a store, always has a
/// supervisor, and starts with nothing in flight. Its agent shows as unheard
/// of, and the runner is cancelled with its session.
pub proof fn a_root_runner_outlives_its_runs<W>(
    runtime: &mut SessionRuntime<W>,
    agent: Agent,
    capabilities: String,
    usage: String,
    runner: AgentRunner,
    key: u128,
)
    requires
        old(runtime).wf(),
        call_ensures(
            SessionRuntime::<W>::spawn_runner,
            (runtime, agent, capabilities, usage),
            runner,
        ),
    ensures
        runner.agent == agent,
        runner.survives_runs <==> agent.parent_id is None,
        runner.stored <==> old(runtime).stored,
        runner.committed <==> old(runtime).stored,
        runner.supervised,
        !runner.fatal_error,
        runner.final_result is None,
        runner.agent_sequence == 0,
        !runner.backend_tokens@.contains_key(key),
        !runner.tool_tokens@.contains_key(key),
        crate::outside::descends(runner.cancel, old(runtime).cancellation.root()),
        final(runtime).agent_supervisor.tokens().contains_key(agent.id.0),
        final(runtime).live_state.state_of(agent.id).status == AgentStatus::Idle,
        final(runtime).live_state.state_of(agent.id).last_outcome is None,
        final(runtime).live_state.state_of(agent.id).last_error is None,
        key != agent.id.0 ==> (final(runtime).live_state@.contains_key(key)
            <==> old(runtime).live_state@.contains_key(key)),
        crate::outside::known_cancelled(runner.cancel) <==> crate::outside::known_cancelled(
            old(runtime).cancellation.root(),
        ),
        exists|k: int|
            0 <= k < final(runtime).projection@.len()
                && (#[trigger] final(runtime).projection@[k]).agent_id == agent.id
                && final(runtime).projection@[k].status
                == agent.state.status && final(runtime).projection@[k].capabilities == capabilities
                && final(runtime).projection@[k].usage == usage,
        final(runtime).agent_supervisor.agents() == old(runtime).agent_supervisor.agents(),
        key != agent.id.0 ==> (final(runtime).agent_supervisor.tokens().contains_key(key)
            <==> old(runtime).agent_supervisor.tokens().contains_key(key)),
        crate::outside::covers(
            final(runtime).agent_supervisor.tokens()[agent.id.0],
            runner.cancel,
        ),
        crate::outside::descends(
            final(runtime).agent_supervisor.tokens()[agent.id.0],
            old(runtime).cancellation.root(),
        ),
        crate::outside::known_cancelled(final(runtime).agent_supervisor.tokens()[agent.id.0])
            <==> crate::outside::known_cancelled(old(runtime).cancellation.root()),
        key != agent.id.0 && old(runtime).agent_supervisor.tokens().contains_key(key)
            ==> final(runtime).agent_supervisor.tokens()[key]
            == old(runtime).agent_supervisor.tokens()[key],
        final(runtime).agent_supervisor.children(agent.id)
            == old(runtime).agent_supervisor.children(agent.id),
        final(runtime).agent_supervisor.capabilities()
            == old(runtime).agent_supervisor.capabilities(),
        final(runtime).agent_supervisor.workspaces()
            == old(runtime).agent_supervisor.workspaces(),
        final(runtime).agent_supervisor.agent_limit()
            == old(runtime).agent_supervisor.agent_limit(),
        final(runtime).session_id == old(runtime).session_id,
        final(runtime).event_bus == old(runtime).event_bus,
        final(runtime).bus_cancel == old(runtime).bus_cancel,
        final(runtime).state == old(runtime).state,
        final(runtime).cancellation == old(runtime).cancellation,
        final(runtime).stored == old(runtime).stored,
{
    assert(final(runtime).agent_supervisor.tokens().dom().contains(agent.id.0));
    assert(final(runtime).agent_supervisor.tokens().dom().contains(key)
        == final(runtime).agent_supervisor.tokens().contains_key(key));
    assert(old(runtime).agent_supervisor.tokens().dom().contains(key)
        == old(runtime).agent_supervisor.tokens().contains_key(key));
    crate::session_runtime::projection::a_checkpoint_saves_what_was_published(
        old(runtime).projection@,
        final(runtime).projection@,
        agent,
        capabilities,
        usage,
    );
    let after = final(runtime).projection@;
    let k = choose|k: int| #[trigger]
        crate::session_runtime::projection::projection_at(after, agent.id, k) && after[k].projects(
            agent,
            capabilities,
            usage,
        );
    assert(after[k].agent_id == agent.id);
}

/// Publishing an agent updates what is shown of it and what a checkpoint saves
/// of it, together, and nothing else of the session.
pub proof fn shown_and_saved_go_together<W>(
    runtime: &mut SessionRuntime<W>,
    runner: &AgentRunner,
    metrics: AgentUsageMetrics,
    usage: AgentUsageSummary,
    capabilities: String,
    usage_text: String,
)
    requires
        old(runtime).wf(),
        call_ensures(
            SessionRuntime::<W>::publish_status,
            (runtime, runner, metrics, usage, capabilities, usage_text),
            (),
        ),
    ensures
        final(runtime).live_state.state_of(runner.agent.id).status == runner.agent.state.status,
        final(runtime).live_state.state_of(runner.agent.id).usage == usage,
        final(runtime).live_state.state_of(runner.agent.id).last_error
            == runner.agent.state.last_error,
        final(runtime).live_state.state_of(runner.agent.id).total_cost_usd == metrics.total_cost,
        final(runtime).live_state.state_of(runner.agent.id).current_operation
            == runner.agent.state.current_operation,
        final(runtime).live_state.state_of(runner.agent.id).last_outcome
            == old(runtime).live_state.state_of(runner.agent.id).last_outcome,
        final(runtime).live_state.state_of(runner.agent.id).total_requests
            == metrics.total_requests,
        exists|k: int|
            0 <= k < final(runtime).projection@.len()
                && (#[trigger] final(runtime).projection@[k]).agent_id == runner.agent.id
                && final(runtime).projection@[k].status
                == runner.agent.state.status && final(runtime).projection@[k].messages@
                == runner.agent.state.messages@ && final(runtime).projection@[k].capabilities
                == capabilities && final(runtime).projection@[k].usage == usage_text,
        final(runtime).state == old(runtime).state,
        final(runtime).cancellation == old(runtime).cancellation,
        final(runtime).agent_supervisor == old(runtime).agent_supervisor,
        final(runtime).event_bus == old(runtime).event_bus,
{
    crate::session_runtime::projection::a_checkpoint_saves_what_was_published(
        old(runtime).projection@,
        final(runtime).projection@,
        runner.agent,
        capabilities,
        usage_text,
    );
    let after = final(runtime).projection@;
    let k = choose|k: int| #[trigger]
        crate::session_runtime::projection::projection_at(after, runner.agent.id, k)
            && after[k].projects(runner.agent, capabilities, usage_text);
    assert(after[k].agent_id == runner.agent.id);
}

/// Whether a toolset has an enabled tool of that name.
pub open spec fn enabled(toolset: AgentToolset, name: Seq<char>) -> bool {
    exists|i: int| called(toolset, name, i) && toolset.tools@[i].capability.policy.enabled
}

proof fn enabled_tools(toolset: AgentToolset, name: Seq<char>)
    ensures
        toolset.enables(name) <==> enabled(toolset, name),
{
    if toolset.enables(name) {
        let i = choose|i: int|
            0 <= i < toolset.tools@.len() && (#[trigger] toolset.tools@[i]).named(name)
                && toolset.tools@[i].capability.policy.enabled;
        assert(called(toolset, name, i));
    }
    if enabled(toolset, name) {
        let i = choose|i: int|
            called(toolset, name, i) && toolset.tools@[i].capability.policy.enabled;
        assert(toolset.tools@[i].named(name));
    }
}

/// A root agent may read, write and search the workspace exactly as far as it
/// has an enabled tool for it: `fs.read`, `fs.edit` and `workspace.search`. It
/// may spawn children, eight levels deep, has no budget to keep, no parent,
/// and nothing behind it.
pub proof fn a_root_agent_may_do_what_its_tools_do(
    session_id: SessionId,
    id: AgentId,
    backend: BackendBinding,
    toolset: AgentToolset,
    r: Agent,
)
    requires
        call_ensures(root_agent, (session_id, id, backend, toolset), r),
    ensures
        r.capabilities.workspace.can_read <==> enabled(toolset, "fs.read"@),
        r.capabilities.workspace.can_write <==> enabled(toolset, "fs.edit"@),
        r.capabilities.workspace.can_search <==> enabled(toolset, "workspace.search"@),
        r.capabilities.tools == toolset,
        r.capabilities.can_spawn_agents,
        r.capabilities.max_child_depth == Some(8u32),
        r.id == id && r.session_id == session_id && r.parent_id is None,
        r.backend == backend,
        r.state.status == AgentStatus::Idle,
        r.state.depth == 0,
        r.state.messages@.len() == 0,
        r.state.children@.len() == 0,
        r.state.active_run is None,
        r.state.last_error is None,
        r.state.queued_inputs@.len() == 0,
        r.state.system_prompt@.len() == 0,
        r.usage.runs == 0 && r.usage.tool_calls == 0 && r.usage.records@.len() == 0
            && r.usage.child_usage@.len() == 0,
        r.budget.max_input_tokens is None && r.budget.max_output_tokens is None
            && r.budget.max_total_tokens is None && r.budget.max_cost_usd is None
            && r.budget.max_requests is None && r.budget.max_tool_calls is None
            && r.budget.max_children is None && r.budget.max_depth is None,
{
    enabled_tools(toolset, "fs.read"@);
    enabled_tools(toolset, "fs.edit"@);
    enabled_tools(toolset, "workspace.search"@);
}

/// A root agent is bound to the backend it is given, under the integration and
/// configuration it is given, and to no particular model.
pub proof fn a_root_agent_is_bound_as_asked(
    integration: String,
    configuration: String,
    descriptor: BackendDescriptor,
    r: BackendBinding,
)
    requires
        call_ensures(root_binding, (integration, configuration, descriptor), r),
    ensures
        r.reference.integration == integration,
        r.reference.configuration == configuration,
        r.reference.model is None,
        r.descriptor == descriptor,
{
}

/// A fresh session holds its root agent and no other, is idle, shows nothing,
/// and is recorded under the identifier of the registered integration, or
/// under a fresh one where there is none.
pub proof fn a_fresh_session_holds_its_root_agent<W>(
    session_id: SessionId,
    root_agent_id: AgentId,
    registered: Option<String>,
    fresh: String,
    configuration: String,
    descriptor: BackendDescriptor,
    toolset: AgentToolset,
    scheduler: &SchedulerConfig,
    stored: bool,
    r: (SessionRuntime<W>, Agent),
    key: u128,
)
    requires
        call_ensures(
            SessionRuntime::<W>::new_with_scheduler_and_integration_id,
            (
                session_id,
                root_agent_id,
                registered,
                fresh,
                configuration,
                descriptor,
                toolset,
                scheduler,
                stored,
            ),
            r,
        ),
    ensures
        r.0.session_id == session_id,
        r.0.stored == stored,
        r.0.state.root_agent_id == root_agent_id,
        r.0.state.status == SessionStatus::Idle,
        r.0.state.error is None,
        r.0.state.agents@.contains_key(key) <==> key == root_agent_id.0,
        !r.0.live_state@.contains_key(key),
        r.0.projection@.len() == 0,
        !r.0.agent_supervisor.tokens().contains_key(key),
        !r.0.agent_supervisor.agents().contains_key(key),
        r.0.agent_supervisor.agent_limit() == Some(scheduler.max_agents_per_session),
        r.0.event_bus.next() == 0,
        !crate::outside::known_cancelled(r.0.cancellation.root()),
        !crate::outside::known_cancelled(r.0.bus_cancel),
        r.1.id == root_agent_id,
        r.1.capabilities.tools == toolset,
        registered is Some ==> r.1.backend.reference.integration == registered->0,
        registered is None ==> r.1.backend.reference.integration == fresh,
        r.1.backend.reference.configuration == configuration,
        r.1.backend.descriptor == descriptor,
        r.0.state.agents@[root_agent_id.0].id == root_agent_id,
{
    assert(r.0.state.agents@.dom().contains(key) <==> key == root_agent_id.0);
}

/// A backend that was injected without a registered integration is recorded
/// under the fresh identifier, in a session with the store and the number of
/// agents that it is given.
pub proof fn an_injected_backend_is_recorded_under_a_fresh_identifier<W>(
    session_id: SessionId,
    root_agent_id: AgentId,
    fresh: String,
    configuration: String,
    descriptor: BackendDescriptor,
    toolset: AgentToolset,
    scheduler: &SchedulerConfig,
    stored: bool,
    r: (SessionRuntime<W>, Agent),
)
    requires
        call_ensures(
            SessionRuntime::<W>::new_with_scheduler,
            (
                session_id,
                root_agent_id,
                fresh,
                configuration,
                descriptor,
                toolset,
                scheduler,
                stored,
            ),
            r,
        ),
    ensures
        r.0.stored == stored,
        r.0.session_id == session_id,
        r.0.state.root_agent_id == root_agent_id,
        r.0.state.status == SessionStatus::Idle,
        r.0.agent_supervisor.agent_limit() == Some(scheduler.max_agents_per_session),
        r.1.id == root_agent_id,
        r.1.backend.reference.integration == fresh,
        r.1.backend.reference.configuration == configuration,
        r.1.backend.descriptor == descriptor,
        r.1.capabilities.tools == toolset,
{
}

/// Without a scheduler and without a toolset a session takes the defaults: no
/// tools, no store, and the default number of agents.
pub proof fn a_plain_session_takes_the_defaults<W>(
    session_id: SessionId,
    root_agent_id: AgentId,
    fresh: String,
    configuration: String,
    descriptor: BackendDescriptor,
    toolset: AgentToolset,
    plain: (SessionRuntime<W>, Agent),
    equipped: (SessionRuntime<W>, Agent),
    defaults: SchedulerConfig,
)
    requires
        call_ensures(
            SessionRuntime::<W>::new,
            (session_id, root_agent_id, fresh, configuration, descriptor),
            plain,
        ),
        call_ensures(
            SessionRuntime::<W>::new_with_toolset,
            (session_id, root_agent_id, fresh, configuration, descriptor, toolset),
            equipped,
        ),
        call_ensures(SchedulerConfig::default, (), defaults),
    ensures
        plain.1.capabilities.tools.tools@.len() == 0,
        equipped.1.capabilities.tools == toolset,
        !plain.0.stored && !equipped.0.stored,
        plain.0.agent_supervisor.agent_limit() == Some(defaults.max_agents_per_session),
        equipped.0.agent_supervisor.agent_limit() == Some(defaults.max_agents_per_session),
        plain.1.backend.reference.integration == fresh,
        equipped.1.backend.reference.integration == fresh,
        plain.0.session_id == session_id && equipped.0.session_id == session_id,
        plain.0.state.root_agent_id == root_agent_id && equipped.0.state.root_agent_id
            == root_agent_id,
{
}

/// A restored session is idle and without error, holds an agent exactly for
/// every stored identifier, as its last entry tells it, and has the last
/// stored agent without a parent for its root.
pub proof fn a_restored_session_holds_the_stored_agents(
    session_id: SessionId,
    stored: Vec<StoredAgent>,
    r: SessionState,
    i: int,
)
    requires
        call_ensures(restore_state, (session_id, stored), r),
        0 <= i < stored@.len(),
        forall|j: int|
            i < j < stored@.len() ==> (#[trigger] stored@[j]).stored.agent_id
                != stored@[i].stored.agent_id,
    ensures
        r.status == SessionStatus::Idle,
        r.error is None,
        r.agents@.contains_key(stored@[i].stored.agent_id.0),
        r.agents@[stored@[i].stored.agent_id.0].id == stored@[i].stored.agent_id,
        r.agents@[stored@[i].stored.agent_id.0].session_id == session_id,
        r.agents@[stored@[i].stored.agent_id.0].parent_id == stored@[i].stored.parent_id,
        r.agents@[stored@[i].stored.agent_id.0].state.messages@ == stored@[i].stored.messages@,
        r.agents@[stored@[i].stored.agent_id.0].state.status == stored@[i].stored.status,
        r.agents@[stored@[i].stored.agent_id.0].state.depth == stored@[i].stored.depth,
        r.agents@[stored@[i].stored.agent_id.0].budget == stored@[i].stored.budget,
        r.agents@[stored@[i].stored.agent_id.0].backend == stored@[i].stored.backend,
        stored@[i].stored.parent_id is None && (forall|j: int|
            i < j < stored@.len() ==> (#[trigger] stored@[j]).stored.parent_id is Some)
            ==> r.root_agent_id == stored@[i].stored.agent_id,
        exists|k: int|
            0 <= k < stored@.len() && (#[trigger] stored@[k]).stored.agent_id == r.root_agent_id
                && stored@[k].stored.parent_id is None,
{
    let all = stored@;
    let n = all.len() as int;
    let id = all[i].stored.agent_id.0;
    assert forall|j: int| i < j < n implies (#[trigger] all[j]).stored.agent_id.0 != id by {
        assert(all[j].stored.agent_id != all[i].stored.agent_id);
    }
    assert(crate::session_runtime::restoration::last_entry(all, n, id, i));
    let k = choose|k: int| #[trigger]
        crate::session_runtime::restoration::root_entry(all, n, k) && all[k].stored.agent_id
            == r.root_agent_id;
    assert(all[k].stored.agent_id == r.root_agent_id);
    if all[i].stored.parent_id is None && (forall|j: int|
        i < j < n ==> (#[trigger] all[j]).stored.parent_id is Some) {
        if k < i {
            assert(all[i].stored.parent_id is Some);
        } else if i < k {
            assert(all[k].stored.parent_id is Some);
        }
    }
}

/// A session that is rebuilt from a snapshot is that session, idle, with the
/// store and the number of agents that it is given and with every stored agent,
/// the one without a parent for its root; it shows nothing yet, and nothing of
/// it is cancelled.
pub proof fn a_session_is_rebuilt_from_its_snapshot<W>(
    session_id: SessionId,
    agents: Vec<StoredAgent>,
    scheduler: &SchedulerConfig,
    stored: bool,
    r: SessionRuntime<W>,
    i: int,
    key: u128,
)
    requires
        call_ensures(
            SessionRuntime::<W>::from_stored,
            (session_id, agents, scheduler, stored),
            r,
        ),
        0 <= i < agents@.len(),
        forall|j: int|
            i < j < agents@.len() ==> (#[trigger] agents@[j]).stored.agent_id
                != agents@[i].stored.agent_id,
    ensures
        r.session_id == session_id,
        r.stored == stored,
        r.state.status == SessionStatus::Idle,
        r.state.error is None,
        r.agent_supervisor.agent_limit() == Some(scheduler.max_agents_per_session),
        r.agent_supervisor.session() == session_id,
        !r.agent_supervisor.tokens().contains_key(key),
        !r.agent_supervisor.agents().contains_key(key),
        !r.live_state@.contains_key(key),
        r.projection@.len() == 0,
        r.event_bus.next() == 0,
        !crate::outside::known_cancelled(r.cancellation.root()),
        !crate::outside::known_cancelled(r.bus_cancel),
        r.state.agents@.contains_key(agents@[i].stored.agent_id.0),
        r.state.agents@[agents@[i].stored.agent_id.0].id == agents@[i].stored.agent_id,
        r.state.agents@[agents@[i].stored.agent_id.0].parent_id == agents@[i].stored.parent_id,
        r.state.agents@[agents@[i].stored.agent_id.0].state.messages@
            == agents@[i].stored.messages@,
        r.state.agents@[agents@[i].stored.agent_id.0].budget == agents@[i].stored.budget,
        exists|k: int|
            0 <= k < agents@.len() && (#[trigger] agents@[k]).stored.agent_id
                == r.state.root_agent_id && agents@[k].stored.parent_id is None,
{
    let all = agents@;
    let n = all.len() as int;
    let id = all[i].stored.agent_id.0;
    assert forall|j: int| i < j < n implies (#[trigger] all[j]).stored.agent_id.0 != id by {
        assert(all[j].stored.agent_id != all[i].stored.agent_id);
    }
    assert(crate::session_runtime::restoration::last_entry(all, n, id, i));
    let k = choose|k: int| #[trigger]
        crate::session_runtime::restoration::root_entry(all, n, k) && all[k].stored.agent_id
            == r.state.root_agent_id;
    assert(all[k].stored.agent_id == r.state.root_agent_id);
}

/// No agent is in a restored session that was not stored.
pub proof fn a_restored_session_holds_no_other_agent(
    session_id: SessionId,
    stored: Vec<StoredAgent>,
    r: SessionState,
    key: u128,
)
    requires
        call_ensures(restore_state, (session_id, stored), r),
        r.agents@.contains_key(key),
    ensures
        exists|k: int| 0 <= k < stored@.len() && (#[trigger] stored@[k]).stored.agent_id.0 == key,
{
    let n = stored@.len() as int;
    let k = choose|k: int| crate::session_runtime::restoration::last_entry(stored@, n, key, k);
    assert(stored@[k].stored.agent_id.0 == key);
}

/// A runner publishes its own agent.
pub proof fn a_runner_publishes_its_own_agent(
    runner: &AgentRunner,
    table: &mut LiveStateTable,
    metrics: AgentUsageMetrics,
    usage: AgentUsageSummary,
    other: AgentId,
)
    requires
        call_ensures(AgentRunner::publish_status, (runner, table, metrics, usage), ()),
    ensures
        ({
            let seen = final(table).state_of(runner.agent.id);
            &&& seen.status == runner.agent.state.status
            &&& seen.current_operation == runner.agent.state.current_operation
            &&& seen.last_error == runner.agent.state.last_error
            &&& seen.usage == usage
            &&& seen.total_requests == metrics.total_requests
            &&& seen.total_cost_usd == metrics.total_cost
            &&& seen.last_outcome == old(table).state_of(runner.agent.id).last_outcome
        }),
        other != runner.agent.id ==> final(table).state_of(other) == old(table).state_of(other),
{
    assert(other != runner.agent.id ==> other.0 != runner.agent.id.0);
}

// ---------------------------------------------------------------------------
// The event bus
// ---------------------------------------------------------------------------

/// An event is forwarded as it came, under the number its committer gave it,
/// or else under the next number of the bus, which then goes up by one and
/// starts over only at its end. Nothing but an event without a number uses a
/// number up.
pub proof fn an_event_is_forwarded_under_its_number(
    bus: &mut SessionEventBus,
    received: Received,
    r: PollStep,
)
    requires
        call_ensures(SessionEventBus::poll, (bus, received), r),
    ensures
        r is Forward <==> received is Event,
        r is KeepStream <==> received is Empty,
        r is DropStream <==> received is Closed,
        r is Continue <==> received is Lagged,
        received matches Received::Event(envelope) ==> {
            let sent = r->Forward_0;
            &&& envelope.session_sequence is Some ==> sent == envelope && final(bus).next()
                == old(bus).next()
            &&& envelope.session_sequence is None ==> sent == (AgentEventEnvelope {
                session_sequence: Some(old(bus).next()),
                ..envelope
            })
            &&& envelope.session_sequence is None && old(bus).next() < u64::MAX
                ==> final(bus).next() == old(bus).next() + 1
            &&& envelope.session_sequence is None && old(bus).next() == u64::MAX
                ==> final(bus).next() == 0
        },
        !(received is Event) ==> final(bus).next() == old(bus).next(),
{
}

/// A bus counts from zero. It stops, after a last round, exactly when it is
/// cancelled; it polls again at once exactly while there is something to
/// forward, and sleeps otherwise.
pub proof fn a_bus_drains_before_it_stops(
    fresh: SessionEventBus,
    cancelled: bool,
    had_data: bool,
    r: BusStep,
)
    requires
        call_ensures(SessionEventBus::new, (), fresh),
        call_ensures(bus_step, (cancelled, had_data), r),
    ensures
        fresh.next() == 0,
        r == BusStep::DrainAndStop <==> cancelled,
        r == BusStep::Yield <==> had_data && !cancelled,
        r == BusStep::Sleep <==> !had_data && !cancelled,
{
}

} // verus!
