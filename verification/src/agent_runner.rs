//! The runtime loop of a single agent, as decisions.
//!
//! A driver owns the mailbox, the backend and the tools; everything that has
//! to be decided between two awaits stands here: when the loop goes on or
//! stops, what an effect asks for, what is published and what is not, and
//! what a failure leaves behind.

use tokio_util::sync::CancellationToken;
use vstd::prelude::*;

use crate::agent::{
    Agent, AgentError, AgentResult, AgentStatus, AgentUsageMetrics, AgentUsageSummary, UserInput,
};
use crate::ids::{AgentId, EventId, RequestId, RunId, ToolCallId};
use crate::json::Json;
use crate::outside::child_token;
use crate::permissions::{self, PermissionOutcome, PermissionPolicy};
use crate::protocol::{
    AgentCommand, AgentEffect, AgentEvent, AgentEventEnvelope, EventVisibility, ExecutionError,
    ExecutionEvent, ExecutionRequest, ExecutionResult, SessionMutation, SpawnAgentSpec, SpawnMode,
    ToolResult,
};
use crate::session_runtime::live_state::LiveStateTable;
use crate::spawn_tool::{self, build_spawn_spec, SpawnToolArgs, AGENT_SPAWN_TOOL_NAME};
use crate::tables::{self, TokenTable};
use crate::text::{self, concat2, str_eq};
use crate::tools::{ToolError, ToolRequest};

verus! {

/// Capacity of an agent's command mailbox.
pub const COMMAND_CAPACITY: usize = 64;

/// Capacity of an agent's event channel.
pub const EVENT_CAPACITY: usize = 256;

/// How long an idle loop waits before it looks around again.
pub const POLL_MILLIS: u64 = 250;

/// The tool that starts an operating-system process for each call.
pub const SHELL_TOOL_NAME: &'static str = "shell.exec";

// ---------------------------------------------------------------------------
// The mailbox loop
// ---------------------------------------------------------------------------

/// Where the mailbox loop stands.
pub enum LoopState {
    /// At the top of an iteration.
    Top,
    /// Waiting for a command, for cancellation, or for the poll interval.
    Waiting,
    /// Applying a command and dispatching its effects; `None` once the command
    /// was taken to be applied.
    Handling(Option<AgentCommand>),
    /// Starting the next queued run after one finished.
    Draining,
    /// Cancelling the active run before the loop ends.
    Cancelling,
    /// The loop has ended.
    Stopped,
}

/// What ended a wait.
pub enum Wake {
    /// A command arrived.
    Command(AgentCommand),
    /// The mailbox is closed.
    Closed,
    /// The runner's token was cancelled.
    Cancelled,
    /// The poll interval passed.
    Tick,
}

/// What the driver observed.
pub enum LoopEvent {
    /// The number of senders left, the loop's own one counted, and whether
    /// the runner's token is cancelled.
    Observed { senders: usize, cancelled: bool },
    /// A wait ended; `cancelled` is what the token says right after.
    Woke { wake: Wake, cancelled: bool },
    /// The effects of a command were dispatched.
    Dispatched { finished_run: bool, fatal: bool },
}

/// Where the loop stands after an event. A one-shot runner ends with its
/// first finished run; a long-lived one starts the next queued run and goes
/// on. A fatal failure ends both.
pub open spec fn loop_next(state: LoopState, event: LoopEvent, long_lived: bool) -> LoopState {
    match (state, event) {
        (LoopState::Top, LoopEvent::Observed { senders, cancelled }) => if senders == 1 {
            LoopState::Stopped
        } else if cancelled {
            LoopState::Cancelling
        } else {
            LoopState::Waiting
        },
        (LoopState::Waiting, LoopEvent::Woke { wake, cancelled }) => match wake {
            Wake::Closed => LoopState::Stopped,
            Wake::Cancelled => LoopState::Cancelling,
            Wake::Tick => LoopState::Top,
            Wake::Command(command) => if cancelled {
                LoopState::Cancelling
            } else {
                LoopState::Handling(Some(command))
            },
        },
        (LoopState::Handling(_), LoopEvent::Dispatched { finished_run, fatal }) => if fatal {
            LoopState::Stopped
        } else if finished_run && !long_lived {
            LoopState::Stopped
        } else if finished_run {
            LoopState::Draining
        } else {
            LoopState::Top
        },
        (LoopState::Draining, LoopEvent::Dispatched { finished_run, fatal }) => if fatal {
            LoopState::Stopped
        } else {
            LoopState::Top
        },
        (LoopState::Cancelling, LoopEvent::Dispatched { finished_run, fatal }) => {
            LoopState::Stopped
        },
        (other, _) => other,
    }
}

/// Advances the mailbox loop. An event that does not belong to the state is
/// ignored.
pub fn loop_step(state: LoopState, event: LoopEvent, long_lived: bool) -> (r: LoopState)
    ensures
        r == loop_next(state, event, long_lived),
{
    match (state, event) {
        (LoopState::Top, LoopEvent::Observed { senders, cancelled }) => {
            if senders == 1 {
                LoopState::Stopped
            } else if cancelled {
                LoopState::Cancelling
            } else {
                LoopState::Waiting
            }
        },
        (LoopState::Waiting, LoopEvent::Woke { wake, cancelled }) => {
            match wake {
                Wake::Closed => LoopState::Stopped,
                Wake::Cancelled => LoopState::Cancelling,
                Wake::Tick => LoopState::Top,
                Wake::Command(command) => {
                    if cancelled {
                        LoopState::Cancelling
                    } else {
                        LoopState::Handling(Some(command))
                    }
                },
            }
        },
        (LoopState::Handling(_), LoopEvent::Dispatched { finished_run, fatal }) => {
            if fatal {
                LoopState::Stopped
            } else if finished_run && !long_lived {
                LoopState::Stopped
            } else if finished_run {
                LoopState::Draining
            } else {
                LoopState::Top
            }
        },
        (LoopState::Draining, LoopEvent::Dispatched { finished_run: _, fatal }) => {
            if fatal {
                LoopState::Stopped
            } else {
                LoopState::Top
            }
        },
        (LoopState::Cancelling, LoopEvent::Dispatched { finished_run: _, fatal: _ }) => {
            LoopState::Stopped
        },
        (other, _) => other,
    }
}

/// A finished run never ends a long-lived runner: only a lost mailbox,
/// cancellation or a fatal failure does.
pub proof fn a_finished_run_leaves_a_long_lived_runner_alive(
    state: LoopState,
    finished_run: bool,
)
    requires
        state is Handling || state is Draining,
    ensures
        !(loop_next(state, LoopEvent::Dispatched { finished_run, fatal: false }, true) is Stopped),
        state is Handling && finished_run ==> loop_next(
            state,
            LoopEvent::Dispatched { finished_run, fatal: false },
            true,
        ) is Draining,
{
}

/// A one-shot runner ends with the first run that finishes.
pub proof fn a_finished_run_ends_a_one_shot_runner(state: LoopState, fatal: bool)
    requires
        state is Handling,
    ensures
        loop_next(state, LoopEvent::Dispatched { finished_run: true, fatal }, false) is Stopped,
{
}

/// A fatal failure ends every runner, long-lived or not.
pub proof fn a_fatal_failure_ends_every_runner(
    state: LoopState,
    finished_run: bool,
    long_lived: bool,
)
    requires
        state is Handling || state is Draining || state is Cancelling,
    ensures
        loop_next(state, LoopEvent::Dispatched { finished_run, fatal: true }, long_lived) is Stopped,
{
}

/// Once the token is cancelled no further command is handled: from the top
/// of the loop and from a wait it goes to cancelling the run, or ends.
pub proof fn cancellation_handles_no_further_command(
    state: LoopState,
    senders: usize,
    wake: Wake,
    long_lived: bool,
)
    requires
        state is Top || state is Waiting,
    ensures
        !(loop_next(state, LoopEvent::Observed { senders, cancelled: true }, long_lived)
            is Handling),
        !(loop_next(state, LoopEvent::Woke { wake, cancelled: true }, long_lived) is Handling),
{
}

// ---------------------------------------------------------------------------
// The runner
// ---------------------------------------------------------------------------

/// What a runner keeps between two awaits.
pub struct AgentRunner {
    pub agent: Agent,
    /// Sequence number of the agent's next event.
    pub agent_sequence: u64,
    /// The runner's own token.
    pub cancel: CancellationToken,
    /// Tokens of backend requests in flight, by run.
    pub backend_tokens: TokenTable,
    /// Tokens of tool calls in flight, by call.
    pub tool_tokens: TokenTable,
    /// How the most recently finished run ended.
    pub final_result: Option<Result<AgentResult, AgentError>>,
    /// Whether a supervisor is there to spawn and cancel children.
    pub supervised: bool,
    /// Whether a session store is there for `Persist` effects.
    pub stored: bool,
    /// Whether events go through the session's committer.
    pub committed: bool,
    /// Whether the session's integrity was lost.
    pub fatal_error: bool,
    /// Whether the runner survives a finished run.
    pub survives_runs: bool,
}

/// Whether a status is one that an agent does not leave by itself.
pub open spec fn terminal(status: AgentStatus) -> bool {
    status == AgentStatus::Cancelled || status == AgentStatus::Completed || status
        == AgentStatus::Failed
}

/// How a finished run is remembered: as the error of a failed agent, else as
/// its result.
pub open spec fn run_ending(
    status: AgentStatus,
    last_error: Option<AgentError>,
    result: AgentResult,
    ending: Result<AgentResult, AgentError>,
) -> bool {
    if status == AgentStatus::Failed {
        match last_error {
            Some(error) => ending == Err::<AgentResult, AgentError>(error),
            None => ending matches Err(error) && error.message == result.summary && error.code@
                == "FAILED"@ && error.details is None,
        }
    } else {
        ending == Ok::<AgentResult, AgentError>(result)
    }
}

/// A long-lived runner whose run finished, however it ended, starts the next
/// queued run before it waits for anything else.
pub proof fn a_finished_run_is_followed_by_the_next_queued_one(
    runner: AgentRunner,
    command: Option<AgentCommand>,
)
    ensures
        runner.command_in(
            loop_next(
                LoopState::Handling(command),
                LoopEvent::Dispatched { finished_run: true, fatal: false },
                true,
            ),
        ) == Some(AgentCommand::StartNextQueuedRun),
{
}

/// What is left for the driver to do about an effect.
pub enum EffectAction {
    /// Send the request to the backend.
    ExecuteBackend(ExecutionRequest),
    /// Run the tool.
    ExecuteTool(ToolRequest),
    /// Publish the event.
    Emit(AgentEvent),
    /// Ask the supervisor to cancel the child.
    CancelChild(AgentId),
    /// Spawn a child.
    Spawn(SpawnAgentSpec),
    /// Change the durable history.
    Persist(SessionMutation),
    /// Nothing: what was in flight is cancelled through this handle.
    Cancelled(Option<CancellationToken>),
    /// Nothing.
    Nothing,
}

/// Whether `handle` is what is left of cancelling the work under `key`: a
/// cancelled handle on its token, where the work was in flight.
pub open spec fn cancels(
    handle: Option<CancellationToken>,
    tokens: Map<u128, CancellationToken>,
    key: u128,
) -> bool {
    &&& handle is Some <==> tokens.contains_key(key)
    &&& handle matches Some(token) ==> crate::outside::known_cancelled(token)
        && crate::outside::covers(token, tokens[key])
}

/// Whether `handles` are what is left of cancelling everything under
/// `tokens`: only cancelled handles, and one on every token.
pub open spec fn cancels_all(
    handles: Seq<CancellationToken>,
    tokens: Map<u128, CancellationToken>,
) -> bool {
    &&& forall|i: int|
        0 <= i < handles.len() ==> crate::outside::known_cancelled(#[trigger] handles[i])
    &&& forall|k: u128| #[trigger]
        tokens.contains_key(k) ==> tables::among(handles, tokens[k])
}

impl AgentRunner {
    /// Everything that stays the same while events, tokens and results move.
    pub open spec fn same_setup(&self, other: &Self) -> bool {
        &&& self.cancel == other.cancel
        &&& self.supervised == other.supervised
        &&& self.stored == other.stored
        &&& self.committed == other.committed
        &&& self.survives_runs == other.survives_runs
    }

    /// A one-shot runner without supervisor, store or committer.
    pub fn new(agent: Agent, cancel: CancellationToken) -> (r: Self)
        ensures
            r.agent == agent,
            r.agent_sequence == 0,
            r.cancel == cancel,
            r.backend_tokens@ == Map::<u128, CancellationToken>::empty(),
            r.tool_tokens@ == Map::<u128, CancellationToken>::empty(),
            r.final_result is None,
            !r.supervised,
            !r.stored,
            !r.committed,
            !r.fatal_error,
            !r.survives_runs,
    {
        AgentRunner {
            agent,
            agent_sequence: 0,
            cancel,
            backend_tokens: TokenTable::new(),
            tool_tokens: TokenTable::new(),
            final_result: None,
            supervised: false,
            stored: false,
            committed: false,
            fatal_error: false,
            survives_runs: false,
        }
    }

    /// Enables spawning and cancelling children.
    pub fn with_supervision(self) -> (r: Self)
        ensures
            r == (AgentRunner { supervised: true, ..self }),
    {
        let mut runner = self;
        runner.supervised = true;
        runner
    }

    /// Enables `Persist` effects.
    pub fn with_session_store(self) -> (r: Self)
        ensures
            r == (AgentRunner { stored: true, ..self }),
    {
        let mut runner = self;
        runner.stored = true;
        runner
    }

    /// Sends events through the session's committer.
    pub fn with_committer(self) -> (r: Self)
        ensures
            r == (AgentRunner { committed: true, ..self }),
    {
        let mut runner = self;
        runner.committed = true;
        runner
    }

    /// Chooses whether the runner survives a finished run.
    pub fn long_lived(self, long_lived: bool) -> (r: Self)
        ensures
            r == (AgentRunner { survives_runs: long_lived, ..self }),
    {
        let mut runner = self;
        runner.survives_runs = long_lived;
        runner
    }

    /// Takes how the most recently finished run ended.
    pub fn take_final_result(&mut self) -> (r: Option<Result<AgentResult, AgentError>>)
        ensures
            r == old(self).final_result,
            *final(self) == (AgentRunner { final_result: None, ..*old(self) }),
    {
        self.final_result.take()
    }

    /// Tells whether the agent is in a terminal status.
    pub fn is_terminal(&self) -> (r: bool)
        ensures
            r == terminal(self.agent.state.status),
    {
        match self.agent.state.status {
            AgentStatus::Cancelled => true,
            AgentStatus::Completed => true,
            AgentStatus::Failed => true,
            _ => false,
        }
    }

    /// The command that cancels the active run, unless the agent already
    /// reached a terminal status.
    pub fn cancel_run(&self) -> (r: Option<AgentCommand>)
        ensures
            r == (if terminal(self.agent.state.status) {
                None
            } else {
                Some(AgentCommand::Cancel)
            }),
    {
        if self.is_terminal() {
            None
        } else {
            Some(AgentCommand::Cancel)
        }
    }

    /// The command that the loop applies in a state: the one that arrived, the
    /// start of the next queued run, or the one that cancels the active run.
    pub open spec fn command_in(&self, state: LoopState) -> Option<AgentCommand> {
        match state {
            LoopState::Handling(command) => command,
            LoopState::Draining => Some(AgentCommand::StartNextQueuedRun),
            LoopState::Cancelling => if terminal(self.agent.state.status) {
                None
            } else {
                Some(AgentCommand::Cancel)
            },
            _ => None,
        }
    }

    /// Takes the command that the loop applies in a state.
    pub fn take_command(&self, state: &mut LoopState) -> (r: Option<AgentCommand>)
        ensures
            r == self.command_in(*old(state)),
            *final(state) == if *old(state) is Handling {
                LoopState::Handling(None)
            } else {
                *old(state)
            },
    {
        match state {
            LoopState::Handling(command) => command.take(),
            LoopState::Draining => Some(AgentCommand::StartNextQueuedRun),
            LoopState::Cancelling => self.cancel_run(),
            _ => None,
        }
    }

    /// Publishes the agent's status after a transition.
    pub fn publish_status(
        &self,
        table: &mut LiveStateTable,
        metrics: AgentUsageMetrics,
        usage: AgentUsageSummary,
    )
        ensures
            final(table)@ == old(table)@.insert(
                self.agent.id.0,
                crate::session_runtime::live_state::published(
                    old(table).state_of(self.agent.id),
                    self.agent,
                    metrics,
                    usage,
                ),
            ),
    {
        table.publish_status(&self.agent, metrics, usage);
    }

    /// Handles what can be handled of an effect at once, and says what is
    /// left to do. The flag tells whether the effect finished the run.
    pub fn dispatch_effect(&mut self, effect: AgentEffect) -> (r: (EffectAction, bool))
        ensures
            final(self).agent == old(self).agent,
            final(self).agent_sequence == old(self).agent_sequence,
            final(self).fatal_error == old(self).fatal_error,
            final(self).same_setup(old(self)),
            r.1 == (effect is FinishRun),
            match effect {
                AgentEffect::FinishRun { result } => {
                    &&& final(self).final_result matches Some(ending)
                    &&& run_ending(
                        old(self).agent.state.status,
                        old(self).agent.state.last_error,
                        result,
                        ending,
                    )
                },
                _ => final(self).final_result == old(self).final_result,
            },
            match effect {
                AgentEffect::CancelBackend { run_id } => final(self).backend_tokens@ == old(
                    self,
                ).backend_tokens@.remove(run_id.0),
                _ => final(self).backend_tokens@ == old(self).backend_tokens@,
            },
            match effect {
                AgentEffect::CancelTool { call_id } => final(self).tool_tokens@ == old(
                    self,
                ).tool_tokens@.remove(call_id.0),
                _ => final(self).tool_tokens@ == old(self).tool_tokens@,
            },
            match effect {
                AgentEffect::ExecuteBackend { request } => r.0 == EffectAction::ExecuteBackend(
                    request,
                ),
                AgentEffect::ExecuteTool { request } => r.0 == EffectAction::ExecuteTool(request),
                AgentEffect::Emit { event } => r.0 == EffectAction::Emit(event),
                AgentEffect::FinishRun { .. } => r.0 == EffectAction::Nothing,
                AgentEffect::CancelBackend { run_id } => r.0 matches EffectAction::Cancelled(handle)
                    && cancels(handle, old(self).backend_tokens@, run_id.0),
                AgentEffect::CancelTool { call_id } => r.0 matches EffectAction::Cancelled(handle)
                    && cancels(handle, old(self).tool_tokens@, call_id.0),
                AgentEffect::CancelChild { agent_id } => r.0 == if old(self).supervised {
                    EffectAction::CancelChild(agent_id)
                } else {
                    EffectAction::Nothing
                },
                AgentEffect::SpawnAgent { spec } => r.0 == EffectAction::Spawn(spec),
                AgentEffect::RequestPermission { .. } => r.0 == EffectAction::Nothing,
                AgentEffect::Persist { mutation } => r.0 == EffectAction::Persist(mutation),
            },
    {
        match effect {
            AgentEffect::ExecuteBackend { request } => (
                EffectAction::ExecuteBackend(request),
                false,
            ),
            AgentEffect::ExecuteTool { request } => (EffectAction::ExecuteTool(request), false),
            AgentEffect::Emit { event } => (EffectAction::Emit(event), false),
            AgentEffect::FinishRun { result } => {
                let ending = match self.agent.state.status {
                    AgentStatus::Failed => Err(
                        match &self.agent.state.last_error {
                            Some(error) => error.clone(),
                            None => AgentError {
                                message: result.summary,
                                code: "FAILED".to_owned(),
                                details: None,
                            },
                        },
                    ),
                    _ => Ok(result),
                };
                self.final_result = Some(ending);
                (EffectAction::Nothing, true)
            },
            AgentEffect::CancelBackend { run_id } => {
                (EffectAction::Cancelled(self.cancel_backend(run_id)), false)
            },
            AgentEffect::CancelTool { call_id } => {
                (EffectAction::Cancelled(self.cancel_tool(call_id)), false)
            },
            AgentEffect::CancelChild { agent_id } => {
                if self.supervised {
                    (EffectAction::CancelChild(agent_id), false)
                } else {
                    (EffectAction::Nothing, false)
                }
            },
            AgentEffect::SpawnAgent { spec } => (EffectAction::Spawn(spec), false),
            AgentEffect::RequestPermission { id: _ } => (EffectAction::Nothing, false),
            AgentEffect::Persist { mutation } => (EffectAction::Persist(mutation), false),
        }
    }

    /// Cancels the backend request of a run, if it is in flight, and forgets
    /// it.
    pub fn cancel_backend(&mut self, run_id: RunId) -> (r: Option<CancellationToken>)
        ensures
            cancels(r, old(self).backend_tokens@, run_id.0),
            final(self).backend_tokens@ == old(self).backend_tokens@.remove(run_id.0),
            *final(self) == (AgentRunner {
                backend_tokens: final(self).backend_tokens,
                ..*old(self)
            }),
    {
        self.backend_tokens.cancel(run_id.0)
    }

    /// Cancels a tool call, if it is in flight, and forgets it.
    pub fn cancel_tool(&mut self, call_id: ToolCallId) -> (r: Option<CancellationToken>)
        ensures
            cancels(r, old(self).tool_tokens@, call_id.0),
            final(self).tool_tokens@ == old(self).tool_tokens@.remove(call_id.0),
            *final(self) == (AgentRunner { tool_tokens: final(self).tool_tokens, ..*old(self) }),
    {
        self.tool_tokens.cancel(call_id.0)
    }
}

// ---------------------------------------------------------------------------
// Dispatching a list of effects
// ---------------------------------------------------------------------------

/// How an effect ended.
#[derive(Clone, Copy, Debug, PartialEq, Eq, Structural)]
pub enum EffectEnd {
    /// It was carried out.
    Done,
    /// It finished the run.
    Finished,
    /// The event could not be committed.
    EmitFailed,
}

/// How far a list of effects was dispatched.
#[derive(Clone, Copy, Debug, PartialEq, Eq, Structural)]
pub struct DispatchProgress {
    /// Whether the run is over.
    pub finish: bool,
    /// Whether the rest of the list is dropped.
    pub stopped: bool,
}

/// The progress after one more effect.
pub open spec fn progress_next(progress: DispatchProgress, end: EffectEnd) -> DispatchProgress {
    if progress.stopped {
        progress
    } else {
        match end {
            EffectEnd::Done => progress,
            EffectEnd::Finished => DispatchProgress { finish: true, stopped: false },
            EffectEnd::EmitFailed => DispatchProgress { finish: true, stopped: true },
        }
    }
}

/// The progress after a list of effects.
pub open spec fn progress_after(ends: Seq<EffectEnd>) -> DispatchProgress
    decreases ends.len(),
{
    if ends.len() == 0 {
        DispatchProgress { finish: false, stopped: false }
    } else {
        progress_next(progress_after(ends.drop_last()), ends.last())
    }
}

/// No effect has been dispatched yet.
pub fn progress_start() -> (r: DispatchProgress)
    ensures
        r == progress_after(Seq::<EffectEnd>::empty()),
{
    DispatchProgress { finish: false, stopped: false }
}

/// Accounts for one more effect. After an event that could not be committed
/// nothing more of the list is carried out.
pub fn progress_step(progress: DispatchProgress, end: EffectEnd) -> (r: DispatchProgress)
    ensures
        r == progress_next(progress, end),
{
    if progress.stopped {
        return progress;
    }
    match end {
        EffectEnd::Done => progress,
        EffectEnd::Finished => DispatchProgress { finish: true, stopped: false },
        EffectEnd::EmitFailed => DispatchProgress { finish: true, stopped: true },
    }
}

/// A list of effects finishes the run exactly when one of them does or an
/// event could not be committed; it is cut short exactly by the latter.
pub proof fn a_list_finishes_with_its_run_or_a_failed_commit(ends: Seq<EffectEnd>)
    ensures
        progress_after(ends).stopped <==> ends.contains(EffectEnd::EmitFailed),
        progress_after(ends).finish <==> ends.contains(EffectEnd::EmitFailed) || ends.contains(
            EffectEnd::Finished,
        ),
    decreases ends.len(),
{
    if ends.len() > 0 {
        let rest = ends.drop_last();
        a_list_finishes_with_its_run_or_a_failed_commit(rest);
        assert(ends == rest.push(ends.last()));
        assert forall|e: EffectEnd| #[trigger] ends.contains(e) <==> rest.contains(e) || ends.last()
            == e by {
            if rest.contains(e) {
                let i = choose|i: int| 0 <= i < rest.len() && rest[i] == e;
                assert(ends[i] == e);
            }
            if ends.last() == e {
                assert(ends[ends.len() - 1] == e);
            }
            if ends.contains(e) {
                let i = choose|i: int| 0 <= i < ends.len() && ends[i] == e;
                if i < rest.len() {
                    assert(rest[i] == e);
                }
            }
        }
    }
}

// ---------------------------------------------------------------------------
// Publishing events
// ---------------------------------------------------------------------------

/// Where an event goes.
pub enum EmitRoute {
    /// Through the session's committer.
    Commit(AgentEventEnvelope),
    /// Straight to observers; `persist` tells whether it is first appended to
    /// the durable history.
    Direct { envelope: AgentEventEnvelope, persist: bool },
}

/// What the committer answered.
pub enum CommitOutcome {
    /// The event has its final sequence number and may be published.
    Committed(AgentEventEnvelope),
    /// Persistence failed under the strict policy: the event must not be
    /// published.
    Rejected,
    /// The commit itself failed.
    Failed(String),
}

/// The sequence number after another one; the count starts over at its end.
pub open spec fn number_after(number: u64) -> u64 {
    if number == u64::MAX {
        0
    } else {
        (number + 1) as u64
    }
}

/// The sequence number of an agent's event `k` places after one numbered
/// `number`.
pub open spec fn number_of(number: u64, k: nat) -> u64
    decreases k,
{
    if k == 0 {
        number
    } else {
        number_after(number_of(number, (k - 1) as nat))
    }
}

/// An agent's events are numbered one by one, so that their numbers tell
/// their order, up to the end of the count.
pub proof fn agent_numbers_count_up(number: u64, k: nat)
    requires
        number + k <= u64::MAX,
    ensures
        number_of(number, k) == number + k,
    decreases k,
{
    if k > 0 {
        agent_numbers_count_up(number, (k - 1) as nat);
    }
}

/// What is published of a committed event.
pub struct Publication {
    pub envelope: AgentEventEnvelope,
    /// The sequence number at which a checkpoint is due, for the end of a run.
    pub checkpoint: Option<u64>,
}

/// How publishing a committed event ends.
pub enum CommitEnd {
    /// The event is published.
    Publish(Publication),
    /// The runner failed; what was in flight is cancelled through these
    /// handles.
    Fatal(Vec<CancellationToken>),
}

impl AgentRunner {
    /// Whether the envelope carries the agent's next event.
    pub open spec fn envelops(
        &self,
        envelope: AgentEventEnvelope,
        event: AgentEvent,
        event_id: EventId,
        now: u64,
    ) -> bool {
        &&& envelope.event_id == event_id
        &&& envelope.session_id == self.agent.session_id
        &&& envelope.agent_id == self.agent.id
        &&& envelope.parent_agent_id == self.agent.parent_id
        &&& envelope.run_id == self.agent.state.active_run
        &&& envelope.agent_sequence == self.agent_sequence
        &&& envelope.session_sequence is None
        &&& envelope.timestamp == now
        &&& envelope.visibility == EventVisibility::User
        &&& envelope.event == event
    }

    /// Starts to publish an event: the outcome of an ended run is recorded,
    /// the event gets the agent's next sequence number, and the way it goes
    /// is chosen.
    pub fn emit(
        &mut self,
        event: AgentEvent,
        event_id: EventId,
        now: u64,
        table: &mut LiveStateTable,
    ) -> (r: EmitRoute)
        ensures
            match event.outcome() {
                Some(outcome) => final(table)@ == old(table)@.insert(
                    old(self).agent.id.0,
                    (crate::session_runtime::live_state::AgentLiveState {
                        last_outcome: Some(outcome),
                        ..old(table).state_of(old(self).agent.id)
                    }),
                ),
                None => final(table)@ == old(table)@,
            },
            *final(self) == (AgentRunner {
                agent_sequence: final(self).agent_sequence,
                ..*old(self)
            }),
            final(self).agent_sequence == number_after(old(self).agent_sequence),
            if old(self).committed {
                r matches EmitRoute::Commit(envelope) && old(self).envelops(
                    envelope,
                    event,
                    event_id,
                    now,
                )
            } else {
                r matches EmitRoute::Direct { envelope, persist } && old(self).envelops(
                    envelope,
                    event,
                    event_id,
                    now,
                ) && persist == event.durable()
            },
    {
        match event.run_outcome() {
            Some(outcome) => {
                table.publish_outcome(self.agent.id, outcome);
            },
            None => {},
        }
        let persist = event.is_durable();
        let envelope = AgentEventEnvelope {
            event_id,
            session_id: self.agent.session_id,
            agent_id: self.agent.id,
            parent_agent_id: self.agent.parent_id,
            run_id: self.agent.state.active_run,
            agent_sequence: self.agent_sequence,
            session_sequence: None,
            timestamp: now,
            visibility: EventVisibility::User,
            event,
        };
        if self.agent_sequence == u64::MAX {
            self.agent_sequence = 0;
        } else {
            self.agent_sequence = self.agent_sequence + 1;
        }
        if self.committed {
            EmitRoute::Commit(envelope)
        } else {
            EmitRoute::Direct { envelope, persist }
        }
    }

    /// Whether this is `before` after a fatal failure with the given code and
    /// message.
    pub open spec fn failed_fatally(
        &self,
        before: &Self,
        code: Seq<char>,
        message: Seq<char>,
    ) -> bool {
        let error = self.agent.state.last_error;
        &&& self.fatal_error
        &&& self.same_setup(before)
        &&& self.agent_sequence == before.agent_sequence
        &&& self.backend_tokens@ == Map::<u128, CancellationToken>::empty()
        &&& self.tool_tokens@ == Map::<u128, CancellationToken>::empty()
        &&& error matches Some(e) && e.code@ == code && e.message@ == message && e.details is None
        &&& self.final_result == Some(Err::<AgentResult, AgentError>(error->0))
        &&& self.agent.state.status == AgentStatus::Failed
        &&& self.agent.state.active_run is None
        &&& self.agent.state.pending_tools@.len() == 0
        &&& self.agent.state.pending_permissions@.len() == 0
        &&& self.agent == (Agent {
            state: crate::agent::AgentState {
                status: AgentStatus::Failed,
                active_run: None,
                pending_tools: self.agent.state.pending_tools,
                pending_permissions: self.agent.state.pending_permissions,
                last_error: error,
                ..before.agent.state
            },
            ..before.agent
        })
    }

    /// Ends the runner after the session's integrity was lost: everything in
    /// flight is cancelled, the agent fails truthfully, the failure becomes
    /// its final result, and its status is published. The cancelled handles
    /// are handed back.
    pub fn fail_fatally(
        &mut self,
        code: &str,
        message: String,
        table: &mut LiveStateTable,
        metrics: AgentUsageMetrics,
        usage: AgentUsageSummary,
    ) -> (r: Vec<CancellationToken>)
        ensures
            final(self).failed_fatally(old(self), code@, message@),
            final(table)@ == old(table)@.insert(
                old(self).agent.id.0,
                crate::session_runtime::live_state::published(
                    old(table).state_of(old(self).agent.id),
                    final(self).agent,
                    metrics,
                    usage,
                ),
            ),
            r@.len() == old(self).backend_tokens@.dom().len() + old(self).tool_tokens@.dom().len(),
            cancels_all(r@, old(self).backend_tokens@),
            cancels_all(r@, old(self).tool_tokens@),
    {
        self.fatal_error = true;
        let mut cancelled = self.backend_tokens.cancel_all();
        let mut tools = self.tool_tokens.cancel_all();
        let ghost first = cancelled@;
        let ghost second = tools@;
        cancelled.append(&mut tools);
        proof {
            assert forall|k: u128| #[trigger]
                old(self).backend_tokens@.contains_key(k) implies tables::among(
                cancelled@,
                old(self).backend_tokens@[k],
            ) by {
                let token = old(self).backend_tokens@[k];
                let i = choose|i: int|
                    0 <= i < first.len() && crate::outside::covers(#[trigger] first[i], token);
                assert(crate::outside::covers(cancelled@[i], token));
            }
            assert forall|k: u128| #[trigger]
                old(self).tool_tokens@.contains_key(k) implies tables::among(
                cancelled@,
                old(self).tool_tokens@[k],
            ) by {
                let token = old(self).tool_tokens@[k];
                let i = choose|i: int|
                    0 <= i < second.len() && crate::outside::covers(#[trigger] second[i], token);
                assert(cancelled@[first.len() + i] == second[i]);
                assert(crate::outside::covers(cancelled@[first.len() + i], token));
            }
        }
        let error = AgentError { message, code: code.to_owned(), details: None };
        self.agent.state.status = AgentStatus::Failed;
        self.agent.state.active_run = None;
        self.agent.state.pending_tools = Vec::new();
        self.agent.state.pending_permissions = Vec::new();
        self.agent.state.last_error = Some(error.clone());
        self.final_result = Some(Err(error));
        self.publish_status(table, metrics, usage);
        cancelled
    }

    /// Finishes publishing a committed event: a committed event is published,
    /// with a checkpoint where it ends a run; one that was not is fatal.
    pub fn finish_commit(
        &mut self,
        outcome: CommitOutcome,
        table: &mut LiveStateTable,
        metrics: AgentUsageMetrics,
        usage: AgentUsageSummary,
    ) -> (r: CommitEnd)
        ensures
            match outcome {
                CommitOutcome::Committed(envelope) => {
                    &&& *final(self) == *old(self)
                    &&& final(table)@ == old(table)@
                    &&& r matches CommitEnd::Publish(publication)
                    &&& publication.envelope == envelope
                    &&& publication.checkpoint == if envelope.event.terminal() {
                        envelope.session_sequence
                    } else {
                        None
                    }
                },
                CommitOutcome::Rejected => final(self).failed_fatally(
                    old(self),
                    "PERSISTENCE_COMMIT_REJECTED"@,
                    "strict event commit rejected publication"@,
                ),
                CommitOutcome::Failed(error) => final(self).failed_fatally(
                    old(self),
                    "PERSISTENCE_COMMIT_FAILED"@,
                    "strict event commit failed: "@ + error@,
                ),
            },
            !(outcome is Committed) ==> {
                &&& r matches CommitEnd::Fatal(handles)
                &&& cancels_all(handles@, old(self).backend_tokens@)
                &&& cancels_all(handles@, old(self).tool_tokens@)
                &&& final(table)@ == old(table)@.insert(
                    old(self).agent.id.0,
                    crate::session_runtime::live_state::published(
                        old(table).state_of(old(self).agent.id),
                        final(self).agent,
                        metrics,
                        usage,
                    ),
                )
            },
    {
        match outcome {
            CommitOutcome::Committed(envelope) => {
                let terminal = match envelope.event.run_outcome() {
                    Some(_) => true,
                    None => false,
                };
                let checkpoint = if terminal {
                    envelope.session_sequence
                } else {
                    None
                };
                CommitEnd::Publish(Publication { envelope, checkpoint })
            },
            CommitOutcome::Rejected => CommitEnd::Fatal(
                self.fail_fatally(
                    "PERSISTENCE_COMMIT_REJECTED",
                    "strict event commit rejected publication".to_owned(),
                    table,
                    metrics,
                    usage,
                ),
            ),
            CommitOutcome::Failed(error) => CommitEnd::Fatal(
                self.fail_fatally(
                    "PERSISTENCE_COMMIT_FAILED",
                    concat2("strict event commit failed: ", error.as_str()),
                    table,
                    metrics,
                    usage,
                ),
            ),
        }
    }
}

/// An event that was not committed is never published, leaves nothing in
/// flight, and is seen as a failure by whoever looks at the agent.
pub proof fn an_uncommitted_event_fails_the_runner(
    before: AgentRunner,
    after: AgentRunner,
    code: Seq<char>,
    message: Seq<char>,
    state: LoopState,
    finished_run: bool,
)
    requires
        after.failed_fatally(&before, code, message),
        state is Handling || state is Draining || state is Cancelling,
    ensures
        after.backend_tokens@.dom().len() == 0,
        after.tool_tokens@.dom().len() == 0,
        terminal(after.agent.state.status),
        after.final_result matches Some(Err(_)),
        loop_next(
            state,
            LoopEvent::Dispatched { finished_run, fatal: after.fatal_error },
            after.survives_runs,
        ) is Stopped,
{
}

// ---------------------------------------------------------------------------
// Persisting
// ---------------------------------------------------------------------------

/// What is done about a change to the durable history.
pub enum PersistPlan {
    /// No store is configured.
    NoStore,
    /// The transcript is invalid; nothing is written.
    RefuseInvalidTranscript,
    /// Append the event.
    Append(AgentEventEnvelope),
    /// Save the snapshot, where its text decodes; drop it otherwise.
    SaveSnapshot(String),
}

/// Decides what is done about a change to the durable history.
pub fn persist(stored: bool, transcript_valid: bool, mutation: SessionMutation) -> (r: PersistPlan)
    ensures
        r == (if !stored {
            PersistPlan::NoStore
        } else if !transcript_valid {
            PersistPlan::RefuseInvalidTranscript
        } else {
            match mutation {
                SessionMutation::AppendEvent(envelope) => PersistPlan::Append(envelope),
                SessionMutation::SaveSnapshot(payload) => PersistPlan::SaveSnapshot(payload),
            }
        }),
{
    if !stored {
        return PersistPlan::NoStore;
    }
    if !transcript_valid {
        return PersistPlan::RefuseInvalidTranscript;
    }
    match mutation {
        SessionMutation::AppendEvent(envelope) => PersistPlan::Append(envelope),
        SessionMutation::SaveSnapshot(payload) => PersistPlan::SaveSnapshot(payload),
    }
}

// ---------------------------------------------------------------------------
// Backend requests
// ---------------------------------------------------------------------------

/// What is done about a backend request.
pub enum BackendDispatch {
    /// The request is turned down; the command reports it to the agent.
    Refused(AgentCommand),
    /// The request runs under its own token.
    Started { request: ExecutionRequest, token: CancellationToken },
}

/// Where the driver of a backend request stands.
#[derive(Clone, Copy, Debug, PartialEq, Eq, Structural)]
pub enum BackendDriver {
    /// Waiting for a global backend permit.
    WaitingForPermit,
    /// Waiting for a permit of the backend itself.
    WaitingForBackend,
    /// The backend executes the request.
    Executing,
    /// The request was given up before it was sent.
    Abandoned,
}

/// Advances the driver of a backend request: both waits for capacity give up
/// when the run is cancelled, so that a queued request never runs later.
pub fn backend_driver_step(driver: BackendDriver, cancelled: bool) -> (r: BackendDriver)
    ensures
        r == (match driver {
            BackendDriver::WaitingForPermit => if cancelled {
                BackendDriver::Abandoned
            } else {
                BackendDriver::WaitingForBackend
            },
            BackendDriver::WaitingForBackend => if cancelled {
                BackendDriver::Abandoned
            } else {
                BackendDriver::Executing
            },
            other => other,
        }),
{
    match driver {
        BackendDriver::WaitingForPermit => {
            if cancelled {
                BackendDriver::Abandoned
            } else {
                BackendDriver::WaitingForBackend
            }
        },
        BackendDriver::WaitingForBackend => {
            if cancelled {
                BackendDriver::Abandoned
            } else {
                BackendDriver::Executing
            }
        },
        other => other,
    }
}

/// Whether the event is the last one of its request.
pub open spec fn ends_request(event: ExecutionEvent) -> bool {
    event is Completed || event is Error
}

/// Keeps track of whether a last event has been forwarded.
pub fn forward_event(terminal_forwarded: bool, event: &ExecutionEvent) -> (r: bool)
    ensures
        r == (terminal_forwarded || ends_request(*event)),
{
    let ends = match event {
        ExecutionEvent::Completed { .. } => true,
        ExecutionEvent::Error { .. } => true,
        _ => false,
    };
    terminal_forwarded || ends
}

/// Whether a last event is among `events`.
pub open spec fn any_ends_request(events: Seq<ExecutionEvent>) -> bool {
    exists|i: int| 0 <= i < events.len() && ends_request(#[trigger] events[i])
}

/// The command that ends a request whose backend returned without sending a
/// last event; none where one was forwarded.
pub fn synthesize_terminal(
    terminal_forwarded: bool,
    run_id: RunId,
    request_id: RequestId,
    outcome: Result<ExecutionResult, ExecutionError>,
) -> (r: Option<AgentCommand>)
    ensures
        r == (if terminal_forwarded {
            None
        } else {
            Some(
                AgentCommand::BackendEvent { run_id, event: closing_event(request_id, outcome) },
            )
        }),
{
    if terminal_forwarded {
        return None;
    }
    let event = match outcome {
        Ok(result) => ExecutionEvent::Completed { request_id, result },
        Err(error) => ExecutionEvent::Error { request_id, error },
    };
    Some(AgentCommand::BackendEvent { run_id, event })
}

/// What [`forward_event`] keeps track of after a list of events.
pub open spec fn terminal_after(events: Seq<ExecutionEvent>) -> bool
    decreases events.len(),
{
    if events.len() == 0 {
        false
    } else {
        terminal_after(events.drop_last()) || ends_request(events.last())
    }
}

/// The event that ends a request whose backend returned `outcome`.
pub open spec fn closing_event(
    request_id: RequestId,
    outcome: Result<ExecutionResult, ExecutionError>,
) -> ExecutionEvent {
    match outcome {
        Ok(result) => ExecutionEvent::Completed { request_id, result },
        Err(error) => ExecutionEvent::Error { request_id, error },
    }
}

/// The events that an agent sees of a request: those that were forwarded, and
/// a last one where none of them was.
pub open spec fn events_seen(
    forwarded: Seq<ExecutionEvent>,
    request_id: RequestId,
    outcome: Result<ExecutionResult, ExecutionError>,
) -> Seq<ExecutionEvent> {
    if terminal_after(forwarded) {
        forwarded
    } else {
        forwarded.push(closing_event(request_id, outcome))
    }
}

proof fn terminal_after_finds_the_last_event(events: Seq<ExecutionEvent>)
    ensures
        terminal_after(events) == any_ends_request(events),
    decreases events.len(),
{
    if events.len() > 0 {
        let rest = events.drop_last();
        terminal_after_finds_the_last_event(rest);
        if any_ends_request(rest) {
            let i = choose|i: int| 0 <= i < rest.len() && ends_request(#[trigger] rest[i]);
            assert(ends_request(events[i]));
        }
        if ends_request(events.last()) {
            assert(ends_request(events[events.len() - 1]));
        }
        if any_ends_request(events) {
            let i = choose|i: int| 0 <= i < events.len() && ends_request(#[trigger] events[i]);
            if i < rest.len() {
                assert(ends_request(rest[i]));
            }
        }
    }
}

/// However a backend behaves, once it has returned the agent sees its request
/// end: by what was forwarded, or else by what the backend returned. Forwarded
/// events come first and stay in order.
pub proof fn every_request_is_seen_to_end(
    forwarded: Seq<ExecutionEvent>,
    request_id: RequestId,
    outcome: Result<ExecutionResult, ExecutionError>,
)
    ensures
        any_ends_request(events_seen(forwarded, request_id, outcome)),
        events_seen(forwarded, request_id, outcome).take(forwarded.len() as int) == forwarded,
        !any_ends_request(forwarded) ==> events_seen(forwarded, request_id, outcome).last()
            == closing_event(request_id, outcome),
        any_ends_request(forwarded) ==> events_seen(forwarded, request_id, outcome) == forwarded,
{
    terminal_after_finds_the_last_event(forwarded);
    let seen = events_seen(forwarded, request_id, outcome);
    assert(seen.take(forwarded.len() as int) =~= forwarded);
    if !any_ends_request(forwarded) {
        assert(ends_request(seen[forwarded.len() as int]));
    }
}

impl AgentRunner {
    /// Starts a backend request. With an invalid transcript it is turned down
    /// with an ordinary backend error; otherwise it gets a token of its own
    /// below the runner's, filed under its run.
    pub fn execute_backend(&mut self, request: ExecutionRequest, transcript: Result<(), String>) -> (r:
        BackendDispatch)
        ensures
            match transcript {
                Err(error) => {
                    &&& *final(self) == *old(self)
                    &&& r matches BackendDispatch::Refused(command)
                    &&& command matches AgentCommand::BackendEvent { run_id, event }
                    &&& run_id == request.run_id
                    &&& event matches ExecutionEvent::Error { request_id, error: refusal }
                    &&& request_id == request.request_id
                    &&& refusal matches ExecutionError::InvalidRequest { message }
                    &&& message@ == "invalid transcript: "@ + error@
                },
                Ok(_) => {
                    &&& r matches BackendDispatch::Started { request: started, token }
                    &&& started == request
                    &&& crate::outside::descends(token, token)
                    &&& crate::agent_supervisor::below(token, old(self).cancel)
                    &&& crate::outside::known_cancelled(token)
                        <==> crate::outside::known_cancelled(old(self).cancel)
                    &&& crate::outside::covers(
                        final(self).backend_tokens@[request.run_id.0],
                        token,
                    )
                    &&& *final(self) == (AgentRunner {
                        backend_tokens: final(self).backend_tokens,
                        ..*old(self)
                    })
                    &&& final(self).backend_tokens@.dom() == old(self).backend_tokens@.dom().insert(
                        request.run_id.0,
                    )
                    &&& forall|k: u128|
                        k != request.run_id.0 && old(self).backend_tokens@.contains_key(k)
                            ==> #[trigger] final(self).backend_tokens@[k]
                            == old(self).backend_tokens@[k]
                },
            },
    {
        match transcript {
            Err(error) => {
                let event = ExecutionEvent::Error {
                    request_id: request.request_id,
                    error: ExecutionError::InvalidRequest {
                        message: concat2("invalid transcript: ", error.as_str()),
                    },
                };
                BackendDispatch::Refused(
                    AgentCommand::BackendEvent { run_id: request.run_id, event },
                )
            },
            Ok(_) => {
                let token = child_token(&self.cancel);
                self.backend_tokens.insert(request.run_id.0, crate::outside::clone_token(&token));
                BackendDispatch::Started { request, token }
            },
        }
    }
}

// ---------------------------------------------------------------------------
// Tool calls
// ---------------------------------------------------------------------------

/// What is done about a tool call.
pub enum ToolDispatch {
    /// The call is turned down; the command reports it to the agent.
    Refused(AgentCommand),
    /// The call spawns a child instead of reaching an executor.
    SpawnChild { call_id: ToolCallId, arguments: String },
    /// The call runs under its own token; `needs_process` tells whether it
    /// takes a process permit besides the tool permit.
    Started { request: ToolRequest, token: CancellationToken, needs_process: bool },
}

/// Where the driver of a tool call stands.
#[derive(Clone, Copy, Debug, PartialEq, Eq, Structural)]
pub enum ToolDriver {
    /// Waiting for a tool permit.
    WaitingForPermit,
    /// Waiting for a process permit.
    WaitingForProcess,
    /// The executor runs the call.
    Executing,
    /// The call was given up before it reached the executor.
    Abandoned,
}

/// Advances the driver of a tool call: a call that starts a process takes a
/// process permit too, and every wait gives up on cancellation.
pub fn tool_driver_step(driver: ToolDriver, needs_process: bool, cancelled: bool) -> (r: ToolDriver)
    ensures
        r == (match driver {
            ToolDriver::WaitingForPermit => if cancelled {
                ToolDriver::Abandoned
            } else if needs_process {
                ToolDriver::WaitingForProcess
            } else {
                ToolDriver::Executing
            },
            ToolDriver::WaitingForProcess => if cancelled {
                ToolDriver::Abandoned
            } else {
                ToolDriver::Executing
            },
            other => other,
        }),
{
    match driver {
        ToolDriver::WaitingForPermit => {
            if cancelled {
                ToolDriver::Abandoned
            } else if needs_process {
                ToolDriver::WaitingForProcess
            } else {
                ToolDriver::Executing
            }
        },
        ToolDriver::WaitingForProcess => {
            if cancelled {
                ToolDriver::Abandoned
            } else {
                ToolDriver::Executing
            }
        },
        other => other,
    }
}

/// The errors that a tool executor reports.
#[derive(Clone, Copy, Debug, PartialEq, Eq, Structural)]
pub enum ExecutorError {
    ExecutionFailed,
    PermissionDenied,
    Timeout,
    Internal,
}

/// How an executor's error is reported to the agent.
pub fn to_protocol_tool_error(error: ExecutorError) -> (r: ToolError)
    ensures
        r == (match error {
            ExecutorError::ExecutionFailed => ToolError::ExecutionFailed,
            ExecutorError::PermissionDenied => ToolError::PermissionDenied,
            ExecutorError::Timeout => ToolError::Timeout,
            ExecutorError::Internal => ToolError::Internal,
        }),
{
    match error {
        ExecutorError::ExecutionFailed => ToolError::ExecutionFailed,
        ExecutorError::PermissionDenied => ToolError::PermissionDenied,
        ExecutorError::Timeout => ToolError::Timeout,
        ExecutorError::Internal => ToolError::Internal,
    }
}

/// What an executor hands back.
pub struct ExecutorOutput {
    pub output: Json,
    pub is_error: bool,
}

/// The command that reports a tool call to the agent. `outcome` is `None`
/// where no executor is registered for the tool.
pub fn tool_report(call_id: ToolCallId, outcome: Option<Result<ExecutorOutput, ExecutorError>>) -> (r:
    AgentCommand)
    ensures
        match outcome {
            None => r == (AgentCommand::ToolFailed { call_id, error: ToolError::ExecutionFailed }),
            Some(Ok(done)) => r == (AgentCommand::ToolCompleted {
                call_id,
                result: ToolResult { call_id, output: done.output, is_error: done.is_error },
            }),
            Some(Err(error)) => r == (AgentCommand::ToolFailed {
                call_id,
                error: match error {
                    ExecutorError::ExecutionFailed => ToolError::ExecutionFailed,
                    ExecutorError::PermissionDenied => ToolError::PermissionDenied,
                    ExecutorError::Timeout => ToolError::Timeout,
                    ExecutorError::Internal => ToolError::Internal,
                },
            }),
        },
{
    match outcome {
        None => AgentCommand::ToolFailed { call_id, error: ToolError::ExecutionFailed },
        Some(Ok(done)) => AgentCommand::ToolCompleted {
            call_id,
            result: ToolResult { call_id, output: done.output, is_error: done.is_error },
        },
        Some(Err(error)) => AgentCommand::ToolFailed {
            call_id,
            error: to_protocol_tool_error(error),
        },
    }
}

impl AgentRunner {
    /// Starts a tool call. A call of a tool that the agent lacks, or that is
    /// disabled or denied, is turned down before anything else happens, whatever
    /// the state machine decided. `agent.spawn` never reaches an executor; every
    /// other call gets a token of its own below the runner's, filed under the
    /// call.
    pub fn execute_tool(&mut self, request: ToolRequest) -> (r: ToolDispatch)
        ensures
            if permissions::denied(old(self).agent.capabilities, request.call.name@) {
                &&& *final(self) == *old(self)
                &&& r == ToolDispatch::Refused(
                    AgentCommand::ToolFailed {
                        call_id: request.call.id,
                        error: ToolError::PermissionDenied,
                    },
                )
            } else if request.call.name@ == "agent.spawn"@ {
                &&& *final(self) == *old(self)
                &&& r == (ToolDispatch::SpawnChild {
                    call_id: request.call.id,
                    arguments: request.call.arguments,
                })
            } else {
                &&& r matches ToolDispatch::Started { request: started, token, needs_process }
                &&& started == request
                &&& needs_process == (request.call.name@ == "shell.exec"@)
                &&& crate::outside::descends(token, token)
                &&& crate::agent_supervisor::below(token, old(self).cancel)
                &&& crate::outside::known_cancelled(token)
                    <==> crate::outside::known_cancelled(old(self).cancel)
                &&& crate::outside::covers(final(self).tool_tokens@[request.call.id.0], token)
                &&& *final(self) == (AgentRunner {
                    tool_tokens: final(self).tool_tokens,
                    ..*old(self)
                })
                &&& final(self).tool_tokens@.dom() == old(self).tool_tokens@.dom().insert(
                    request.call.id.0,
                )
                &&& forall|k: u128|
                    k != request.call.id.0 && old(self).tool_tokens@.contains_key(k)
                        ==> #[trigger] final(self).tool_tokens@[k] == old(self).tool_tokens@[k]
            },
    {
        match PermissionPolicy.evaluate(&self.agent.capabilities, request.call.name.as_str()) {
            PermissionOutcome::Denied(_) => {
                return ToolDispatch::Refused(
                    AgentCommand::ToolFailed {
                        call_id: request.call.id,
                        error: ToolError::PermissionDenied,
                    },
                );
            },
            _ => {},
        }
        if str_eq(request.call.name.as_str(), AGENT_SPAWN_TOOL_NAME) {
            return ToolDispatch::SpawnChild {
                call_id: request.call.id,
                arguments: request.call.arguments,
            };
        }
        let token = child_token(&self.cancel);
        self.tool_tokens.insert(request.call.id.0, crate::outside::clone_token(&token));
        let needs_process = str_eq(request.call.name.as_str(), SHELL_TOOL_NAME);
        ToolDispatch::Started { request, token, needs_process }
    }
}

// ---------------------------------------------------------------------------
// Spawning children
// ---------------------------------------------------------------------------

/// What a spawn led to, for the caller that asked for it.
pub struct ToolSpawnOutcome {
    pub child_id: AgentId,
    /// The child's result or why it is missing, where the child was awaited.
    pub awaited: Option<Result<AgentResult, String>>,
}

/// What follows a successful spawn, in this order.
pub struct SpawnFollowUp {
    /// The first command to the child, where it was given a task and can be
    /// reached.
    pub start: Option<AgentCommand>,
    /// The command that tells the parent's state machine about the child.
    pub spawned: AgentCommand,
    /// Whether the child is awaited.
    pub awaiting: bool,
}

impl AgentRunner {
    /// Checks that a child can be spawned at all.
    pub fn begin_spawn(&self) -> (r: Result<(), String>)
        ensures
            if self.supervised {
                r == Ok::<(), String>(())
            } else {
                r matches Err(message) && message@ == "SpawnAgent requested without a supervisor"@
            },
    {
        if self.supervised {
            Ok(())
        } else {
            Err("SpawnAgent requested without a supervisor".to_owned())
        }
    }
}

/// What follows a spawn: the child's task is sent to it before the parent
/// hears of the child, and before anything waits for it.
pub fn spawn_agent(
    child: Result<AgentId, String>,
    mode: SpawnMode,
    task: Option<String>,
    reachable: bool,
) -> (r: Result<SpawnFollowUp, String>)
    ensures
        match child {
            Err(error) => r == Err::<SpawnFollowUp, String>(error),
            Ok(child_id) => {
                &&& r matches Ok(follow_up)
                &&& follow_up.awaiting == (mode == SpawnMode::AwaitResult)
                &&& follow_up.spawned == (AgentCommand::ChildSpawned {
                    agent_id: child_id,
                    awaiting: mode == SpawnMode::AwaitResult,
                })
                &&& match task {
                    Some(text) if reachable => follow_up.start == Some(
                        AgentCommand::StartRun { input: UserInput { text, attachments: None } },
                    ),
                    _ => follow_up.start is None,
                }
            },
        },
{
    match child {
        Err(error) => Err(error),
        Ok(child_id) => {
            let awaiting = match mode {
                SpawnMode::AwaitResult => true,
                SpawnMode::Concurrent => false,
            };
            let start = match task {
                Some(text) => {
                    if reachable {
                        Some(
                            AgentCommand::StartRun {
                                input: UserInput { text, attachments: None },
                            },
                        )
                    } else {
                        None
                    }
                },
                None => None,
            };
            Ok(
                SpawnFollowUp {
                    start,
                    spawned: AgentCommand::ChildSpawned { agent_id: child_id, awaiting },
                    awaiting,
                },
            )
        },
    }
}

/// What follows the wait for a child. A wait that fails is reported to the
/// parent's state machine as the child's failure.
pub fn finish_spawn(child_id: AgentId, awaited: Option<Result<AgentResult, String>>) -> (r: (
    Option<AgentCommand>,
    ToolSpawnOutcome,
))
    ensures
        r.1.child_id == child_id,
        match awaited {
            None => r.0 is None && r.1.awaited is None,
            Some(Ok(result)) => r.0 is None && r.1.awaited == Some(Ok::<AgentResult, String>(result)),
            Some(Err(message)) => {
                &&& r.0 matches Some(command)
                &&& command matches AgentCommand::ChildFailed { agent_id, error }
                &&& agent_id == child_id
                &&& error.message == message
                &&& error.code@ == "CHILD_AWAIT_FAILED"@
                &&& error.details is None
                &&& r.1.awaited == Some(Err::<AgentResult, String>(message))
            },
        },
{
    match awaited {
        None => (None, ToolSpawnOutcome { child_id, awaited: None }),
        Some(Ok(result)) => (None, ToolSpawnOutcome { child_id, awaited: Some(Ok(result)) }),
        Some(Err(message)) => {
            let error = AgentError {
                message: message.clone(),
                code: "CHILD_AWAIT_FAILED".to_owned(),
                details: None,
            };
            (
                Some(AgentCommand::ChildFailed { agent_id: child_id, error }),
                ToolSpawnOutcome { child_id, awaited: Some(Err(message)) },
            )
        },
    }
}

/// How a call of the spawn tool goes on.
pub enum SpawnToolStart {
    /// The call is turned down; the command reports it to the agent.
    Rejected(AgentCommand),
    /// A child is to be spawned; the warnings go into the reply.
    Spawn { spec: SpawnAgentSpec, warnings: Vec<String> },
}

/// Whether a member of an object holds the given text.
pub open spec fn text_member(member: (String, Json), key: Seq<char>, value: Seq<char>) -> bool {
    member.0@ == key && (member.1 matches Json::Text(text) && text@ == value)
}

/// Whether a member of an object holds the given list of texts.
pub open spec fn list_member(member: (String, Json), key: Seq<char>, values: Seq<Seq<char>>) -> bool {
    &&& member.0@ == key
    &&& member.1 matches Json::List(items) && items@.len() == values.len() && forall|i: int|
        0 <= i < items@.len() ==> (#[trigger] items@[i] matches Json::Text(text) && text@
            == values[i])
}

/// Whether `output` is the object of one member that reports an error.
pub open spec fn reports_error(output: Json, message: Seq<char>) -> bool {
    output matches Json::Object(members) && members@.len() == 1 && text_member(
        members@[0],
        "error"@,
        message,
    )
}

/// Whether `output` reports a spawned child: its identifier, how it stands,
/// what is to be said about it, and the warnings, where there are any.
pub open spec fn reports_child(
    output: Json,
    child_text: Seq<char>,
    status: Seq<char>,
    key: Seq<char>,
    value: Seq<char>,
    warnings: Seq<Seq<char>>,
) -> bool {
    &&& output matches Json::Object(members)
    &&& members@.len() == if warnings.len() == 0 {
        3
    } else {
        4int
    }
    &&& text_member(members@[0], "child_agent_id"@, child_text)
    &&& text_member(members@[1], "status"@, status)
    &&& text_member(members@[2], key, value)
    &&& warnings.len() > 0 ==> list_member(members@[3], "warnings"@, warnings)
}

fn text_entry(key: &str, value: &str) -> (r: (String, Json))
    ensures
        text_member(r, key@, value@),
{
    (key.to_owned(), Json::Text(value.to_owned()))
}

fn list_entry(key: &str, values: &Vec<String>) -> (r: (String, Json))
    ensures
        list_member(r, key@, text::texts(values@)),
{
    let mut items: Vec<Json> = Vec::new();
    let mut i: usize = 0;
    while i < values.len()
        invariant
            i <= values@.len(),
            items@.len() == i,
            forall|j: int|
                0 <= j < i ==> (#[trigger] items@[j] matches Json::Text(text) && text@
                    == values@[j]@),
        decreases values@.len() - i,
    {
        items.push(Json::Text(values[i].clone()));
        i = i + 1;
    }
    (key.to_owned(), Json::List(items))
}

impl AgentRunner {
    /// Starts an `agent.spawn` call. `args` are the decoded arguments, or why
    /// they could not be decoded. A call that is turned down is answered with
    /// a result that reports the reason, never with a tool failure, so that
    /// the model can correct itself.
    pub fn execute_spawn_tool(
        &self,
        call_id: ToolCallId,
        args: Result<SpawnToolArgs, String>,
    ) -> (r: SpawnToolStart)
        ensures
            match spawn_tool::rejection(args) {
                Some(message) => {
                    &&& r matches SpawnToolStart::Rejected(command)
                    &&& command matches AgentCommand::ToolCompleted { call_id: id, result }
                    &&& id == call_id
                    &&& result.call_id == call_id
                    &&& result.is_error
                    &&& reports_error(result.output, message)
                },
                None => {
                    &&& r matches SpawnToolStart::Spawn { spec, warnings }
                    &&& spawn_tool::requests(
                        spec,
                        args->Ok_0,
                        self.agent.capabilities.tools,
                        self.agent.budget,
                    )
                    &&& text::texts(warnings@) == spawn_tool::warnings_for(
                        self.agent.capabilities.tools,
                        args->Ok_0.tools,
                    )
                },
            },
    {
        match build_spawn_spec(args, &self.agent) {
            Ok((spec, warnings)) => SpawnToolStart::Spawn { spec, warnings },
            Err(message) => {
                let mut members: Vec<(String, Json)> = Vec::new();
                members.push(text_entry("error", message.as_str()));
                SpawnToolStart::Rejected(
                    AgentCommand::ToolCompleted {
                        call_id,
                        result: ToolResult {
                            call_id,
                            output: Json::Object(members),
                            is_error: true,
                        },
                    },
                )
            },
        }
    }
}

/// The reply to an `agent.spawn` call. A call that could not spawn a child is
/// answered with a result that reports the reason, never with a tool failure,
/// so that the model can correct itself. `child_text` is how the child's
/// identifier is printed.
pub fn spawn_tool_reply(
    call_id: ToolCallId,
    outcome: Result<ToolSpawnOutcome, String>,
    child_text: &str,
    warnings: &Vec<String>,
) -> (r: AgentCommand)
    ensures
        r matches AgentCommand::ToolCompleted { call_id: id, result } && id == call_id
            && result.call_id == call_id && match outcome {
            Err(message) => result.is_error && reports_error(result.output, message@),
            Ok(spawned) => match spawned.awaited {
                None => !result.is_error && reports_child(
                    result.output,
                    child_text@,
                    "spawned"@,
                    "note"@,
                    "running concurrently; its own completion will appear as ChildAgentCompleted"@,
                    text::texts(warnings@),
                ),
                Some(Ok(done)) => !result.is_error && reports_child(
                    result.output,
                    child_text@,
                    "completed"@,
                    "summary"@,
                    done.summary@,
                    text::texts(warnings@),
                ),
                Some(Err(message)) => result.is_error && reports_child(
                    result.output,
                    child_text@,
                    "failed"@,
                    "error"@,
                    message@,
                    text::texts(warnings@),
                ),
            },
        },
{
    let mut members: Vec<(String, Json)> = Vec::new();
    let is_error = match outcome {
        Err(message) => {
            members.push(text_entry("error", message.as_str()));
            return AgentCommand::ToolCompleted {
                call_id,
                result: ToolResult { call_id, output: Json::Object(members), is_error: true },
            };
        },
        Ok(spawned) => {
            members.push(text_entry("child_agent_id", child_text));
            match spawned.awaited {
                None => {
                    members.push(text_entry("status", "spawned"));
                    members.push(
                        text_entry(
                            "note",
                            "running concurrently; its own completion will appear as ChildAgentCompleted",
                        ),
                    );
                    false
                },
                Some(Ok(done)) => {
                    members.push(text_entry("status", "completed"));
                    members.push(text_entry("summary", done.summary.as_str()));
                    false
                },
                Some(Err(message)) => {
                    members.push(text_entry("status", "failed"));
                    members.push(text_entry("error", message.as_str()));
                    true
                },
            }
        },
    };
    if warnings.len() > 0 {
        members.push(list_entry("warnings", warnings));
    }
    AgentCommand::ToolCompleted {
        call_id,
        result: ToolResult { call_id, output: Json::Object(members), is_error },
    }
}

} // verus!
