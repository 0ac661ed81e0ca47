//! The runtime of one session: its state, its cancellation, and what its
//! agents publish.

use tokio_util::sync::CancellationToken;
use vstd::prelude::*;

use crate::agent::{
    Agent, AgentOutcome, AgentStatus, AgentUsageMetrics, AgentUsageSummary, UserInput,
};
use crate::agent_runner::AgentRunner;
use crate::agent_supervisor::AgentSupervisor;
use crate::cancellation::SessionCancellation;
use crate::ids::{AgentId, PermissionId, SessionId};
use crate::outside::{cancel_token, clone_token, new_token};
use crate::protocol::{AgentCommand, PermissionDecision};
use crate::session_runtime::event_bus::SessionEventBus;
use crate::session_runtime::live_state::{AgentLiveState, LiveStateTable};
use crate::session_runtime::projection::{
    self, build_snapshot, AgentProjectionTable, DurableSessionSnapshot, StoredAgentState,
};
use crate::session_runtime::types::{
    SessionCommand, SessionError, SessionSnapshot, SessionState, SessionStatus,
};

verus! {

broadcast use vstd::std_specs::hash::group_hash_axioms;

/// The runtime of one session. `W` is a handle on a workspace.
pub struct SessionRuntime<W> {
    pub session_id: SessionId,
    pub state: SessionState,
    /// The root of the session's cancellation.
    pub cancellation: SessionCancellation,
    pub event_bus: SessionEventBus,
    pub agent_supervisor: AgentSupervisor<W>,
    pub live_state: LiveStateTable,
    pub projection: AgentProjectionTable,
    /// Whether a durable store is configured, and with it a committer.
    pub stored: bool,
    /// Stops the event bus. Apart from the session's cancellation, so that
    /// observers still see how a cancelled session ends.
    pub bus_cancel: CancellationToken,
}

/// The command to the root agent that a session command stands for.
pub open spec fn agent_command(command: SessionCommand) -> AgentCommand {
    match command {
        SessionCommand::Prompt(input) => AgentCommand::StartRun { input },
        SessionCommand::SpawnChild(spec) => AgentCommand::SpawnChild { spec },
        SessionCommand::Cancel => AgentCommand::Cancel,
        SessionCommand::Pause => AgentCommand::Pause,
        SessionCommand::Resume => AgentCommand::Resume,
        SessionCommand::ConfigureExecution(params) => AgentCommand::ConfigureExecution { params },
    }
}

/// Whether a prompt takes a session of this status to running.
pub open spec fn prompt_starts(status: SessionStatus) -> bool {
    status == SessionStatus::Idle || status == SessionStatus::Completed || status
        == SessionStatus::Cancelled
}

/// What a prompt makes of a session's state: a session that is idle,
/// completed or cancelled runs again, and what went wrong before is forgotten.
pub open spec fn prompted(state: SessionState) -> SessionState {
    if prompt_starts(state.status) {
        SessionState { status: SessionStatus::Running, error: None, ..state }
    } else {
        state
    }
}

/// The status that a session shows, from its own status, its cancellation
/// and its root agent. A failed session is never shown as anything else.
pub open spec fn shown_status(
    status: SessionStatus,
    cancelled: bool,
    live: AgentLiveState,
) -> SessionStatus {
    if status == SessionStatus::Failed {
        SessionStatus::Failed
    } else if cancelled {
        SessionStatus::Cancelled
    } else if live.status == AgentStatus::Failed {
        SessionStatus::Failed
    } else if live.status == AgentStatus::Cancelled {
        SessionStatus::Cancelled
    } else if live.status == AgentStatus::Idle {
        if live.last_outcome == Some(AgentOutcome::Success) {
            SessionStatus::Completed
        } else {
            status
        }
    } else {
        SessionStatus::Running
    }
}

/// The error that a session shows: its own, else its root agent's.
pub open spec fn shown_error(error: Option<String>, live: AgentLiveState) -> Option<String> {
    match error {
        Some(text) => Some(text),
        None => match live.last_error {
            Some(e) => Some(e.message),
            None => None,
        },
    }
}

/// Decides the status that a session shows.
pub fn show_status(status: SessionStatus, cancelled: bool, live: &AgentLiveState) -> (r:
    SessionStatus)
    ensures
        r == shown_status(status, cancelled, *live),
{
    match status {
        SessionStatus::Failed => {
            return SessionStatus::Failed;
        },
        _ => {},
    }
    if cancelled {
        return SessionStatus::Cancelled;
    }
    match live.status {
        AgentStatus::Failed => SessionStatus::Failed,
        AgentStatus::Cancelled => SessionStatus::Cancelled,
        AgentStatus::Idle => {
            match live.last_outcome {
                Some(AgentOutcome::Success) => SessionStatus::Completed,
                _ => status,
            }
        },
        _ => SessionStatus::Running,
    }
}

/// Decides the error that a session shows.
pub fn show_error(error: &Option<String>, live: &AgentLiveState) -> (r: Option<String>)
    ensures
        r == shown_error(*error, *live),
{
    match error {
        Some(text) => Some(text.clone()),
        None => {
            match &live.last_error {
                Some(e) => Some(e.message.clone()),
                None => None,
            }
        },
    }
}

/// Turns the outcome of a send into the mailbox into the answer to the
/// caller.
pub fn delivery_outcome(delivered: bool) -> (r: Result<(), SessionError>)
    ensures
        r == if delivered {
            Ok::<(), SessionError>(())
        } else {
            Err::<(), SessionError>(SessionError::ChannelClosed)
        },
{
    if delivered {
        Ok(())
    } else {
        Err(SessionError::ChannelClosed)
    }
}

/// The command that cancels only the root agent's active run.
pub fn cancel_run_command() -> (r: AgentCommand)
    ensures
        r == AgentCommand::Cancel,
{
    AgentCommand::Cancel
}

/// The command that steers the active run.
pub fn steer_command(input: UserInput) -> (r: AgentCommand)
    ensures
        r == (AgentCommand::Steer { input }),
{
    AgentCommand::Steer { input }
}

/// The command that queues a follow-up prompt.
pub fn follow_up_command(input: UserInput) -> (r: AgentCommand)
    ensures
        r == (AgentCommand::FollowUp { input }),
{
    AgentCommand::FollowUp { input }
}

/// The command that answers a permission request.
pub fn resolve_permission_command(id: PermissionId, decision: PermissionDecision) -> (r:
    AgentCommand)
    ensures
        r == (AgentCommand::PermissionResolved { id, decision }),
{
    AgentCommand::PermissionResolved { id, decision }
}

impl<W> SessionRuntime<W> {
    /// Whether the supervisor and the projections are well-formed, and the
    /// session's cancellation is a root that governs the token of every agent.
    pub open spec fn wf(&self) -> bool {
        &&& self.cancellation.wf()
        &&& self.agent_supervisor.wf()
        &&& self.projection.wf()
        &&& self.agent_supervisor.governed()
        &&& forall|token: CancellationToken| #[trigger]
            self.agent_supervisor.session_cancel().governs(token) <==> self.cancellation.governs(
                token,
            )
    }

    /// Whether this is what cancelling `before` leaves: the cancellation has
    /// fired, and the session is cancelled unless it failed.
    pub open spec fn cancelled_from(self, before: Self) -> bool {
        &&& self.cancellation.cancelled_from(before.cancellation)
        &&& self == SessionRuntime {
            cancellation: self.cancellation,
            state: if before.state.status == SessionStatus::Failed {
                before.state
            } else {
                SessionState { status: SessionStatus::Cancelled, ..before.state }
            },
            ..before
        }
    }

    /// Whether this is what `command` leaves of `before`, and `answer` the
    /// answer to it, where `cancelled` is what the session's cancellation
    /// reports. A prompt is turned down once the session is cancelled;
    /// otherwise the session runs at once, and how the root agent's last run
    /// ended is forgotten, unless the session failed.
    pub open spec fn commanded(
        self,
        before: Self,
        command: SessionCommand,
        cancelled: bool,
        answer: Result<AgentCommand, SessionError>,
    ) -> bool {
        match command {
            SessionCommand::Prompt(_) => if cancelled {
                &&& answer == Err::<AgentCommand, SessionError>(SessionError::Cancelled)
                &&& self == before
            } else {
                let root = before.state.root_agent_id;
                &&& answer == Ok::<AgentCommand, SessionError>(agent_command(command))
                &&& self.live_state@ == if before.state.status == SessionStatus::Failed {
                    before.live_state@
                } else {
                    before.live_state@.insert(
                        root.0,
                        AgentLiveState { last_outcome: None, ..before.live_state.state_of(root) },
                    )
                }
                &&& self == SessionRuntime {
                    state: prompted(before.state),
                    live_state: self.live_state,
                    ..before
                }
            },
            SessionCommand::Cancel => {
                &&& answer == Ok::<AgentCommand, SessionError>(agent_command(command))
                &&& self.cancelled_from(before)
            },
            _ => {
                &&& answer == Ok::<AgentCommand, SessionError>(agent_command(command))
                &&& self == before
            },
        }
    }

    /// Assembles a session around its state, in which at most `max_agents`
    /// agents run. Agents are added one by one with [`Self::spawn_runner`].
    pub(crate) fn assemble(
        session_id: SessionId,
        state: SessionState,
        stored: bool,
        max_agents: usize,
    ) -> (r: Self)
        ensures
            r.wf(),
            !r.cancellation.known_cancelled(),
            !crate::outside::known_cancelled(r.bus_cancel),
            !r.agent_supervisor.session_cancel().known_cancelled(),
            r.agent_supervisor.agent_limit() == Some(max_agents),
            r.session_id == session_id,
            r.state == state,
            r.stored == stored,
            r.event_bus.next() == 0,
            r.live_state@ == Map::<u128, AgentLiveState>::empty(),
            r.projection@ == Seq::<StoredAgentState>::empty(),
            r.agent_supervisor.agents() == Map::<
                u128,
                crate::agent_supervisor::AgentHandle,
            >::empty(),
            r.agent_supervisor.tokens() == Map::<u128, CancellationToken>::empty(),
            r.agent_supervisor.session() == session_id,
    {
        let cancellation = SessionCancellation::new();
        let agent_supervisor = AgentSupervisor::new(
            session_id,
            cancellation.clone(),
        ).with_agent_limit(max_agents);
        SessionRuntime {
            session_id,
            state,
            cancellation,
            event_bus: SessionEventBus::new(),
            agent_supervisor,
            live_state: LiveStateTable::new(),
            projection: AgentProjectionTable::new(),
            stored,
            bus_cancel: new_token(),
        }
    }

    /// Makes the runner of an agent and wires it into the session: its token
    /// below the session's is registered, its live state starts anew, and its
    /// projection is published. A root runner is long-lived; any other one
    /// ends with its run. With a store, the runner persists and commits.
    ///
    /// `capabilities` and `usage` are the agent's encoded capabilities and
    /// usage.
    pub fn spawn_runner(&mut self, agent: Agent, capabilities: String, usage: String) -> (r:
        AgentRunner)
        requires
            old(self).wf(),
        ensures
            final(self).wf(),
            r.agent == agent,
            r.agent_sequence == 0,
            r.final_result is None,
            !r.fatal_error,
            r.supervised,
            r.survives_runs == (agent.parent_id is None),
            r.stored == old(self).stored,
            r.committed == old(self).stored,
            r.backend_tokens@ == Map::<u128, CancellationToken>::empty(),
            r.tool_tokens@ == Map::<u128, CancellationToken>::empty(),
            old(self).cancellation.governs(r.cancel),
            old(self).cancellation.governs(final(self).agent_supervisor.tokens()[agent.id.0]),
            crate::outside::covers(final(self).agent_supervisor.tokens()[agent.id.0], r.cancel),
            crate::outside::descends(r.cancel, r.cancel),
            crate::outside::known_cancelled(r.cancel) <==> old(
                self,
            ).cancellation.known_cancelled(),
            final(self).live_state@ == old(self).live_state@.insert(
                agent.id.0,
                crate::session_runtime::live_state::unknown_live_state(),
            ),
            projection::projected(
                old(self).projection@,
                final(self).projection@,
                agent,
                capabilities,
                usage,
            ),
            final(self).agent_supervisor.tokens().dom() == old(
                self).agent_supervisor.tokens().dom().insert(agent.id.0),
            crate::outside::known_cancelled(final(self).agent_supervisor.tokens()[agent.id.0])
                <==> old(self).cancellation.known_cancelled(),
            forall|id: u128|
                id != agent.id.0 && old(self).agent_supervisor.tokens().contains_key(id)
                    ==> #[trigger] final(self).agent_supervisor.tokens()[id] == old(
                    self,
                ).agent_supervisor.tokens()[id],
            final(self).agent_supervisor.agents() == old(self).agent_supervisor.agents(),
            forall|parent: AgentId| #[trigger]
                final(self).agent_supervisor.children(parent) == old(
                    self,
                ).agent_supervisor.children(parent),
            final(self).agent_supervisor.same_but_children(&old(self).agent_supervisor),
            final(self).session_id == old(self).session_id,
            final(self).state == old(self).state,
            final(self).cancellation == old(self).cancellation,
            final(self).event_bus == old(self).event_bus,
            final(self).stored == old(self).stored,
            final(self).bus_cancel == old(self).bus_cancel,
    {
        let token = self.cancellation.child_token();
        self.agent_supervisor.register_agent_token(agent.id, clone_token(&token));
        self.live_state.set(agent.id, AgentLiveState::default());
        self.projection.publish(&agent, capabilities, usage);
        let is_root = agent.parent_id.is_none();
        let mut runner = AgentRunner::new(agent, token).with_supervision().long_lived(is_root);
        if self.stored {
            runner = runner.with_session_store().with_committer();
        }
        runner
    }

    /// Publishes an agent after a transition: its live state for observers and
    /// its projection for checkpoints, so that a checkpoint is truthful at any
    /// time. `capabilities` and `usage_text` are the agent's encoded
    /// capabilities and usage.
    pub fn publish_status(
        &mut self,
        runner: &AgentRunner,
        metrics: AgentUsageMetrics,
        usage: AgentUsageSummary,
        capabilities: String,
        usage_text: String,
    )
        requires
            old(self).wf(),
        ensures
            final(self).wf(),
            final(self).live_state@ == old(self).live_state@.insert(
                runner.agent.id.0,
                crate::session_runtime::live_state::published(
                    old(self).live_state.state_of(runner.agent.id),
                    runner.agent,
                    metrics,
                    usage,
                ),
            ),
            projection::projected(
                old(self).projection@,
                final(self).projection@,
                runner.agent,
                capabilities,
                usage_text,
            ),
            *final(self) == (SessionRuntime {
                live_state: final(self).live_state,
                projection: final(self).projection,
                ..*old(self)
            }),
    {
        runner.publish_status(&mut self.live_state, metrics, usage);
        self.projection.publish(&runner.agent, capabilities, usage_text);
    }

    /// Turns a session command into the command for the root agent, given what
    /// the session's cancellation reports.
    pub fn send_command_when(&mut self, command: SessionCommand, cancelled: bool) -> (r: Result<
        AgentCommand,
        SessionError,
    >)
        ensures
            final(self).commanded(*old(self), command, cancelled, r),
            old(self).wf() ==> final(self).wf(),
    {
        match command {
            SessionCommand::Prompt(input) => {
                if cancelled {
                    return Err(SessionError::Cancelled);
                }
                match self.state.status {
                    SessionStatus::Failed => {},
                    SessionStatus::Running => {
                        self.live_state.clear_outcome(self.state.root_agent_id);
                    },
                    _ => {
                        self.live_state.clear_outcome(self.state.root_agent_id);
                        self.state.status = SessionStatus::Running;
                        self.state.error = None;
                    },
                }
                Ok(AgentCommand::StartRun { input })
            },
            SessionCommand::SpawnChild(spec) => Ok(AgentCommand::SpawnChild { spec }),
            SessionCommand::Cancel => Ok(self.cancel()),
            SessionCommand::Pause => Ok(AgentCommand::Pause),
            SessionCommand::Resume => Ok(AgentCommand::Resume),
            SessionCommand::ConfigureExecution(params) => Ok(
                AgentCommand::ConfigureExecution { params },
            ),
        }
    }

    /// Turns a session command into the command for the root agent. A prompt
    /// is turned down once the session is cancelled; otherwise it takes the
    /// session to running at once, unless it failed. Cancelling cancels the
    /// entire session.
    pub fn send_command(&mut self, command: SessionCommand) -> (r: Result<
        AgentCommand,
        SessionError,
    >)
        ensures
            exists|cancelled: bool| #[trigger]
                final(self).commanded(*old(self), command, cancelled, r) && (old(
                    self,
                ).cancellation.known_cancelled() ==> cancelled) && (cancelled
                    ==> crate::outside::cancel_requested(old(self).cancellation.root())),
            old(self).wf() ==> final(self).wf(),
    {
        let cancelled = self.cancellation.is_cancelled();
        self.send_command_when(command, cancelled)
    }

    /// Marks the session as failed.
    pub fn mark_failed(&mut self, error: String)
        ensures
            *final(self) == (SessionRuntime {
                state: SessionState {
                    status: SessionStatus::Failed,
                    error: Some(error),
                    ..old(self).state
                },
                ..*old(self)
            }),
    {
        self.state.status = SessionStatus::Failed;
        self.state.error = Some(error);
    }

    /// Cancels the session: its cancellation fires, the root agent is told,
    /// and the session shows as cancelled at once, unless it failed. The
    /// event bus keeps running.
    pub fn cancel(&mut self) -> (r: AgentCommand)
        ensures
            r == AgentCommand::Cancel,
            old(self).wf() ==> final(self).wf(),
            final(self).cancelled_from(*old(self)),
    {
        self.cancellation.cancel();
        match self.state.status {
            SessionStatus::Failed => {},
            _ => {
                self.state.status = SessionStatus::Cancelled;
            },
        }
        AgentCommand::Cancel
    }

    /// Stops everything, the event bus included.
    pub fn shutdown(&mut self)
        ensures
            old(self).wf() ==> final(self).wf(),
            final(self).cancellation.cancelled_from(old(self).cancellation),
            crate::outside::known_cancelled(final(self).bus_cancel),
            *final(self) == (SessionRuntime {
                cancellation: final(self).cancellation,
                bus_cancel: final(self).bus_cancel,
                ..*old(self)
            }),
    {
        self.cancellation.cancel();
        cancel_token(&mut self.bus_cancel);
    }

    /// What the session shows, given what its cancellation reports.
    pub fn snapshot_when(&self, cancelled: bool) -> (r: SessionSnapshot)
        ensures
            ({
                let live = self.live_state.state_of(self.state.root_agent_id);
                &&& r.session_id == self.session_id
                &&& r.status == shown_status(self.state.status, cancelled, live)
                &&& r.root_agent_id == self.state.root_agent_id
                &&& r.agent_count == self.state.agents@.len()
                &&& r.error == shown_error(self.state.error, live)
            }),
    {
        let live = self.live_state.get(self.state.root_agent_id);
        SessionSnapshot {
            session_id: self.session_id,
            status: show_status(self.state.status, cancelled, &live),
            root_agent_id: self.state.root_agent_id,
            agent_count: self.state.agents.len(),
            error: show_error(&self.state.error, &live),
        }
    }

    /// What the session shows now. A session known to be cancelled shows so,
    /// unless it failed.
    pub fn state_snapshot(&self) -> (r: SessionSnapshot)
        ensures
            ({
                let live = self.live_state.state_of(self.state.root_agent_id);
                &&& r.session_id == self.session_id
                &&& exists|cancelled: bool|
                    r.status == #[trigger] shown_status(self.state.status, cancelled, live) && (
                    self.cancellation.known_cancelled() ==> cancelled) && (cancelled
                        ==> crate::outside::cancel_requested(self.cancellation.root()))
                &&& r.root_agent_id == self.state.root_agent_id
                &&& r.agent_count == self.state.agents@.len()
                &&& r.error == shown_error(self.state.error, live)
            }),
    {
        let cancelled = self.cancellation.is_cancelled();
        self.snapshot_when(cancelled)
    }

    /// The live state of an agent; that of an unknown agent is the default.
    pub fn agent_live_state(&self, agent_id: AgentId) -> (r: AgentLiveState)
        ensures
            r == self.live_state.state_of(agent_id),
    {
        self.live_state.get(agent_id)
    }

    /// Builds the snapshot that a checkpoint at a sequence number saves; none
    /// without a store.
    pub fn checkpoint(
        &self,
        workspace_identity: String,
        at_sequence: u64,
        now: u64,
        schema_version: u32,
    ) -> (r: Option<DurableSessionSnapshot>)
        ensures
            r is Some <==> self.stored,
            r matches Some(snapshot) ==> {
                &&& snapshot.session_id == self.session_id
                &&& snapshot.root_agent_id == self.state.root_agent_id
                &&& projection::same_states(snapshot.agents@, self.projection@)
                &&& snapshot.session_sequence == at_sequence
                &&& snapshot.timestamp == now
                &&& snapshot.schema_version == schema_version
                &&& snapshot.metadata.workspace_identity == Some(workspace_identity)
                &&& projection::lists_references(
                    crate::text::texts(snapshot.metadata.integration_references@),
                    self.projection@,
                )
                &&& snapshot.metadata.credential_profiles@.len() == 0
                &&& snapshot.metadata.tool_policy_ids@.len() == 0
                &&& !snapshot.metadata.compacted
                &&& snapshot.metadata.compaction_generation == 0
            },
    {
        if !self.stored {
            return None;
        }
        Some(
            build_snapshot(
                self.session_id,
                self.state.root_agent_id,
                &self.projection,
                workspace_identity,
                at_sequence,
                now,
                schema_version,
                false,
                0,
            ),
        )
    }
}

/// A failed session stays failed for every observer: neither cancelling it
/// nor anything its agents publish shows it as anything else.
pub proof fn a_failed_session_is_shown_as_failed(cancelled: bool, live: AgentLiveState)
    ensures
        shown_status(SessionStatus::Failed, cancelled, live) == SessionStatus::Failed,
{
}

/// From the moment a prompt is sent the session is shown as running, unless
/// its root agent stands failed or cancelled: how an earlier run ended no
/// longer counts.
pub proof fn a_prompt_is_shown_as_running<W>(
    before: SessionRuntime<W>,
    after: SessionRuntime<W>,
    input: UserInput,
    answer: Result<AgentCommand, SessionError>,
)
    requires
        after.commanded(before, SessionCommand::Prompt(input), false, answer),
        before.state.status != SessionStatus::Failed,
        ({
            let status = before.live_state.state_of(before.state.root_agent_id).status;
            status != AgentStatus::Failed && status != AgentStatus::Cancelled
        }),
    ensures
        answer == Ok::<AgentCommand, SessionError>(AgentCommand::StartRun { input }),
        shown_status(
            after.state.status,
            false,
            after.live_state.state_of(after.state.root_agent_id),
        ) == SessionStatus::Running,
{
}

/// Cancelling a session is for good: it is shown as cancelled unless it
/// failed, whatever its agents publish, and no later prompt is accepted.
pub proof fn a_cancelled_session_accepts_no_prompt<W>(
    before: SessionRuntime<W>,
    cancelled: SessionRuntime<W>,
    after: SessionRuntime<W>,
    input: UserInput,
    reported: bool,
    answer: Result<AgentCommand, SessionError>,
    live: AgentLiveState,
)
    requires
        cancelled.cancelled_from(before),
        cancelled.cancellation.known_cancelled() ==> reported,
        after.commanded(cancelled, SessionCommand::Prompt(input), reported, answer),
    ensures
        answer == Err::<AgentCommand, SessionError>(SessionError::Cancelled),
        after == cancelled,
        shown_status(cancelled.state.status, reported, live) == if before.state.status
            == SessionStatus::Failed {
            SessionStatus::Failed
        } else {
            SessionStatus::Cancelled
        },
{
}

/// Cancelling a session reaches every agent in it: each one's token is below
/// the root that was cancelled, and the session sees it as cancelled from then
/// on.
pub proof fn a_cancelled_session_reaches_every_agent<W>(
    before: SessionRuntime<W>,
    after: SessionRuntime<W>,
    id: u128,
)
    requires
        before.wf(),
        after.cancelled_from(before),
        before.agent_supervisor.tokens().contains_key(id),
    ensures
        after.wf(),
        after.cancellation.known_cancelled(),
        after.cancellation.governs(after.agent_supervisor.tokens()[id]),
{
    assert(before.cancellation.governs(before.agent_supervisor.tokens()[id]));
    assert forall|token: CancellationToken| #[trigger]
        after.agent_supervisor.session_cancel().governs(
            token,
        ) <==> after.cancellation.governs(token) by {
        assert(before.cancellation.governs(token) <==> after.cancellation.governs(token));
    }
}

/// Cancelling a session reaches every backend request and every tool call of
/// its agents: each one's token is below the runner's, and with it below the
/// root that was cancelled, so that the session sees it as cancelled from then
/// on.
pub proof fn a_cancelled_session_reaches_every_request<W>(
    before: SessionRuntime<W>,
    after: SessionRuntime<W>,
    runner: AgentRunner,
    token: CancellationToken,
)
    requires
        before.wf(),
        after.cancelled_from(before),
        before.cancellation.governs(runner.cancel),
        crate::agent_supervisor::below(token, runner.cancel),
    ensures
        after.cancellation.wf(),
        after.cancellation.known_cancelled(),
        after.cancellation.governs(token),
{
    assert(crate::outside::descends(runner.cancel, before.cancellation.root()));
    assert(before.cancellation.governs(token));
}

/// Cancelling a session reaches every request and tool call of the children
/// that its agents spawn, however deep: a child's token is below its parent's,
/// and what the child starts is below the child's.
pub proof fn a_cancelled_session_reaches_what_children_start<W>(
    before: SessionRuntime<W>,
    after: SessionRuntime<W>,
    parent: AgentId,
    child: CancellationToken,
    token: CancellationToken,
)
    requires
        before.wf(),
        after.cancelled_from(before),
        crate::agent_supervisor::below(child, before.agent_supervisor.token_source(parent)),
        crate::agent_supervisor::below(token, child),
    ensures
        after.cancellation.wf(),
        after.cancellation.known_cancelled(),
        after.cancellation.governs(child),
        after.cancellation.governs(token),
{
    crate::agent_supervisor::every_child_is_below_its_session(
        &before.agent_supervisor,
        parent,
        child,
        token,
    );
    assert(before.cancellation.governs(child));
    assert(before.cancellation.governs(token));
}

/// A root agent that failed is never shown as a completed session.
pub proof fn a_failed_agent_is_never_shown_as_completed(
    status: SessionStatus,
    cancelled: bool,
    live: AgentLiveState,
)
    requires
        live.status == AgentStatus::Failed,
    ensures
        shown_status(status, cancelled, live) != SessionStatus::Completed,
{
}

} // verus!
