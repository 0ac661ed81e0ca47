//! Commands, effects and events exchanged between an agent's state machine
//! and the runtime that drives it.

use vstd::prelude::*;

use crate::agent::{
    AgentError, AgentOutcome, AgentResult, AgentStatus, BackendReference, ExecutionParams, UserInput,
};
use crate::budget::AgentBudget;
use crate::ids::{AgentId, EventId, PermissionId, RequestId, RunId, SessionId, ToolCallId, ToolId};
use crate::json::Json;
use crate::tools::{ToolCall, ToolError, ToolRequest};

verus! {

/// What a child may do with its parent's workspace.
#[derive(Clone, Copy, Debug, PartialEq, Eq, Structural)]
pub enum WorkspacePolicy {
    /// Share the parent's workspace.
    Inherit,
    /// See the parent's workspace without changing it.
    ReadOnly,
    /// Work on a copy.
    Snapshot,
    /// Work on a worktree of its own.
    NewWorktree,
}

/// Whether the spawner waits for the child.
#[derive(Clone, Copy, Debug, PartialEq, Eq, Structural)]
pub enum SpawnMode {
    AwaitResult,
    Concurrent,
}

/// Which backend a child runs on.
#[derive(Debug)]
pub enum BackendPolicy {
    Inherit,
    Explicit(BackendReference),
}

/// Which of its parent's tools a child gets.
#[derive(Debug)]
pub enum ToolInheritance {
    InheritAll,
    Subset(Vec<ToolId>),
}

/// A request to spawn a child agent.
#[derive(Debug)]
pub struct SpawnAgentSpec {
    pub role: Option<String>,
    pub backend: BackendPolicy,
    pub tools: ToolInheritance,
    pub workspace: WorkspacePolicy,
    pub budget: AgentBudget,
    pub mode: SpawnMode,
    pub task: Option<String>,
    pub execution_params: ExecutionParams,
}

/// The user's answer to a permission request.
#[derive(Clone, Copy, Debug, PartialEq, Eq, Structural)]
pub enum PermissionDecision {
    Approve,
    Deny,
}

/// Why a backend request failed.
#[derive(Debug)]
pub enum ExecutionError {
    Cancelled,
    InvalidRequest { message: String },
    BackendError { message: String, code: String },
}

/// The end of a successful backend request. Usage and cost are kept as the
/// text of a JSON value.
#[derive(Debug)]
pub struct ExecutionResult {
    pub request_id: RequestId,
    pub usage: String,
    pub cost: String,
    pub finish_reason: String,
}

/// What a backend reports while it executes a request.
#[derive(Debug)]
pub enum ExecutionEvent {
    TextDelta { request_id: RequestId, delta: String },
    ReasoningDelta { request_id: RequestId, delta: String },
    ToolCallRequested { request_id: RequestId, call: ToolCall },
    UsageUpdated { request_id: RequestId, usage: String },
    Completed { request_id: RequestId, result: ExecutionResult },
    Error { request_id: RequestId, error: ExecutionError },
}

/// The outcome of a tool call.
#[derive(Debug)]
pub struct ToolResult {
    pub call_id: ToolCallId,
    pub output: Json,
    pub is_error: bool,
}

/// A command to an agent's state machine.
#[derive(Debug)]
pub enum AgentCommand {
    StartRun { input: UserInput },
    StartNextQueuedRun,
    Steer { input: UserInput },
    FollowUp { input: UserInput },
    Cancel,
    Pause,
    Resume,
    ConfigureExecution { params: ExecutionParams },
    SpawnChild { spec: SpawnAgentSpec },
    BackendEvent { run_id: RunId, event: ExecutionEvent },
    ToolCompleted { call_id: ToolCallId, result: ToolResult },
    ToolFailed { call_id: ToolCallId, error: ToolError },
    PermissionResolved { id: PermissionId, decision: PermissionDecision },
    ChildSpawned { agent_id: AgentId, awaiting: bool },
    ChildCompleted { agent_id: AgentId, result: AgentResult },
    ChildFailed { agent_id: AgentId, error: AgentError },
}

/// Something that happened to an agent. Payloads that the runtime only
/// forwards are kept as the text of a JSON value.
#[derive(Debug)]
pub enum AgentEvent {
    StateChanged { status: AgentStatus },
    RunStarted { run_id: RunId },
    BackendRequestStarted { payload: String },
    AssistantMessageStarted { payload: String },
    AssistantTextDelta { delta: String },
    AssistantMessageCompleted { payload: String },
    ReasoningDelta { delta: String },
    ToolCallRequested { payload: String },
    ToolCallStarted { payload: String },
    ToolCallProgress { payload: String },
    ToolCallCompleted { payload: String },
    PermissionRequested { payload: String },
    UsageUpdated { payload: String },
    ChildAgentSpawned { agent_id: AgentId },
    ChildAgentCompleted { payload: String },
    Failed { error: AgentError },
    Completed { outcome: AgentOutcome },
}

impl AgentEvent {
    /// Whether the event belongs to the durable history of a session. Text
    /// and reasoning deltas, tool progress, tool-call requests and the start
    /// of a request or a message are for live observers only.
    pub open spec fn durable(self) -> bool {
        match self {
            AgentEvent::BackendRequestStarted { .. } => false,
            AgentEvent::AssistantMessageStarted { .. } => false,
            AgentEvent::AssistantTextDelta { .. } => false,
            AgentEvent::ReasoningDelta { .. } => false,
            AgentEvent::ToolCallRequested { .. } => false,
            AgentEvent::ToolCallProgress { .. } => false,
            _ => true,
        }
    }

    /// Whether the event ends a run.
    pub open spec fn terminal(self) -> bool {
        self is Completed || self is Failed
    }

    /// The outcome that the event reports of the run, if it ends one.
    pub open spec fn outcome(self) -> Option<AgentOutcome> {
        match self {
            AgentEvent::Completed { outcome } => Some(outcome),
            AgentEvent::Failed { .. } => Some(AgentOutcome::Failed),
            _ => None,
        }
    }

    /// Tells whether the event belongs to the durable history of a session.
    pub fn is_durable(&self) -> (r: bool)
        ensures
            r == self.durable(),
    {
        match self {
            AgentEvent::BackendRequestStarted { .. } => false,
            AgentEvent::AssistantMessageStarted { .. } => false,
            AgentEvent::AssistantTextDelta { .. } => false,
            AgentEvent::ReasoningDelta { .. } => false,
            AgentEvent::ToolCallRequested { .. } => false,
            AgentEvent::ToolCallProgress { .. } => false,
            _ => true,
        }
    }

    /// The outcome that the event reports of the run, if it ends one.
    pub fn run_outcome(&self) -> (r: Option<AgentOutcome>)
        ensures
            r == self.outcome(),
    {
        match self {
            AgentEvent::Completed { outcome } => Some(*outcome),
            AgentEvent::Failed { .. } => Some(AgentOutcome::Failed),
            _ => None,
        }
    }
}

impl Clone for AgentEvent {
    fn clone(&self) -> (r: Self)
        ensures
            r == *self,
    {
        match self {
            AgentEvent::StateChanged { status } => AgentEvent::StateChanged { status: *status },
            AgentEvent::RunStarted { run_id } => AgentEvent::RunStarted { run_id: *run_id },
            AgentEvent::BackendRequestStarted { payload } => AgentEvent::BackendRequestStarted { payload: payload.clone() },
            AgentEvent::AssistantMessageStarted { payload } => AgentEvent::AssistantMessageStarted { payload: payload.clone() },
            AgentEvent::AssistantTextDelta { delta } => AgentEvent::AssistantTextDelta { delta: delta.clone() },
            AgentEvent::AssistantMessageCompleted { payload } => AgentEvent::AssistantMessageCompleted { payload: payload.clone() },
            AgentEvent::ReasoningDelta { delta } => AgentEvent::ReasoningDelta { delta: delta.clone() },
            AgentEvent::ToolCallRequested { payload } => AgentEvent::ToolCallRequested { payload: payload.clone() },
            AgentEvent::ToolCallStarted { payload } => AgentEvent::ToolCallStarted { payload: payload.clone() },
            AgentEvent::ToolCallProgress { payload } => AgentEvent::ToolCallProgress { payload: payload.clone() },
            AgentEvent::ToolCallCompleted { payload } => AgentEvent::ToolCallCompleted { payload: payload.clone() },
            AgentEvent::PermissionRequested { payload } => AgentEvent::PermissionRequested { payload: payload.clone() },
            AgentEvent::UsageUpdated { payload } => AgentEvent::UsageUpdated { payload: payload.clone() },
            AgentEvent::ChildAgentSpawned { agent_id } => AgentEvent::ChildAgentSpawned { agent_id: *agent_id },
            AgentEvent::ChildAgentCompleted { payload } => AgentEvent::ChildAgentCompleted { payload: payload.clone() },
            AgentEvent::Failed { error } => AgentEvent::Failed { error: error.clone() },
            AgentEvent::Completed { outcome } => AgentEvent::Completed { outcome: *outcome },
        }
    }
}

/// Who gets to see an event.
#[derive(Clone, Copy, Debug, PartialEq, Eq, Structural)]
pub enum EventVisibility {
    User,
    Developer,
    Internal,
}

/// An event with its origin and its place in the streams. The time is in
/// milliseconds.
#[derive(Debug)]
pub struct AgentEventEnvelope {
    pub event_id: EventId,
    pub session_id: SessionId,
    pub agent_id: AgentId,
    pub parent_agent_id: Option<AgentId>,
    pub run_id: Option<RunId>,
    pub agent_sequence: u64,
    pub session_sequence: Option<u64>,
    pub timestamp: u64,
    pub visibility: EventVisibility,
    pub event: AgentEvent,
}

impl Clone for AgentEventEnvelope {
    fn clone(&self) -> (r: Self)
        ensures
            r == *self,
    {
        AgentEventEnvelope {
            event_id: self.event_id,
            session_id: self.session_id,
            agent_id: self.agent_id,
            parent_agent_id: self.parent_agent_id,
            run_id: self.run_id,
            agent_sequence: self.agent_sequence,
            session_sequence: self.session_sequence,
            timestamp: self.timestamp,
            visibility: self.visibility,
            event: self.event.clone(),
        }
    }
}

/// A change to the durable history of a session. A snapshot is the text of a
/// JSON value.
#[derive(Debug)]
pub enum SessionMutation {
    AppendEvent(AgentEventEnvelope),
    SaveSnapshot(String),
}

/// A request to a backend. What is sent is the text of a JSON value.
#[derive(Debug)]
pub struct ExecutionRequest {
    pub request_id: RequestId,
    pub run_id: RunId,
    pub payload: String,
}

/// What an agent's state machine asks the runtime to do.
#[derive(Debug)]
pub enum AgentEffect {
    ExecuteBackend { request: ExecutionRequest },
    ExecuteTool { request: ToolRequest },
    Emit { event: AgentEvent },
    FinishRun { result: AgentResult },
    CancelBackend { run_id: RunId },
    CancelTool { call_id: ToolCallId },
    CancelChild { agent_id: AgentId },
    SpawnAgent { spec: SpawnAgentSpec },
    RequestPermission { id: PermissionId },
    Persist { mutation: SessionMutation },
}

} // verus!
