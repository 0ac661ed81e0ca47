//! An agent: its identity, state, capabilities, budget and backend binding.

use vstd::prelude::*;

use crate::budget::{AgentBudget, UsdAmount};
use crate::ids::{AgentId, BackendId, PermissionId, RunId, SessionId, ToolCallId};
use crate::text::clone_opt;
use crate::tools::{AgentToolset, ToolCall};

verus! {

/// Where an agent stands.
#[derive(Clone, Copy, Debug, PartialEq, Eq, Structural)]
pub enum AgentStatus {
    Idle,
    PreparingContext,
    WaitingForBackend,
    Streaming,
    Executing,
    WaitingForPermission,
    WaitingForChildren,
    Paused,
    Cancelled,
    Failed,
    Completed,
}

/// How a run ended.
#[derive(Clone, Copy, Debug, PartialEq, Eq, Structural)]
pub enum AgentOutcome {
    Success,
    Failed,
    Cancelled,
}

/// What a backend can do.
#[derive(Clone, Copy, Debug, PartialEq, Eq, Structural)]
pub struct BackendCapabilities {
    pub streaming: bool,
    pub reasoning_stream: bool,
    pub tool_calls: bool,
    pub parallel_tool_calls: bool,
    pub host_managed_tools: bool,
    pub backend_managed_tools: bool,
    pub permissions: bool,
    pub images: bool,
    pub resumable_sessions: bool,
    pub native_subagents: bool,
    pub model_switching: bool,
    pub exact_usage: bool,
    pub exact_cost: bool,
}

/// The capabilities of a backend that promises nothing.
pub open spec fn no_backend_capabilities() -> BackendCapabilities {
    BackendCapabilities {
        streaming: false,
        reasoning_stream: false,
        tool_calls: false,
        parallel_tool_calls: false,
        host_managed_tools: false,
        backend_managed_tools: false,
        permissions: false,
        images: false,
        resumable_sessions: false,
        native_subagents: false,
        model_switching: false,
        exact_usage: false,
        exact_cost: false,
    }
}

impl Default for BackendCapabilities {
    /// Promises nothing.
    fn default() -> (r: Self)
        ensures
            r == no_backend_capabilities(),
    {
        BackendCapabilities {
            streaming: false,
            reasoning_stream: false,
            tool_calls: false,
            parallel_tool_calls: false,
            host_managed_tools: false,
            backend_managed_tools: false,
            permissions: false,
            images: false,
            resumable_sessions: false,
            native_subagents: false,
            model_switching: false,
            exact_usage: false,
            exact_cost: false,
        }
    }
}

/// Names the integration, its configuration and optionally the model that an
/// agent runs on. The two identifiers are kept as text.
#[derive(Debug)]
pub struct BackendReference {
    pub integration: String,
    pub configuration: String,
    pub model: Option<String>,
}

impl Clone for BackendReference {
    fn clone(&self) -> (r: Self)
        ensures
            r == *self,
    {
        BackendReference {
            integration: self.integration.clone(),
            configuration: self.configuration.clone(),
            model: clone_opt(&self.model),
        }
    }
}

/// What is known of a backend instance.
#[derive(Debug)]
pub struct BackendDescriptor {
    pub id: BackendId,
    pub name: String,
    pub description: String,
    pub capabilities: BackendCapabilities,
}

impl Clone for BackendDescriptor {
    fn clone(&self) -> (r: Self)
        ensures
            r == *self,
    {
        BackendDescriptor {
            id: self.id,
            name: self.name.clone(),
            description: self.description.clone(),
            capabilities: self.capabilities,
        }
    }
}

/// The backend that an agent is bound to.
#[derive(Debug)]
pub struct BackendBinding {
    pub reference: BackendReference,
    pub descriptor: BackendDescriptor,
}

impl Clone for BackendBinding {
    fn clone(&self) -> (r: Self)
        ensures
            r == *self,
    {
        BackendBinding { reference: self.reference.clone(), descriptor: self.descriptor.clone() }
    }
}

/// What an agent may do with the workspace.
#[derive(Clone, Copy, Debug, PartialEq, Eq, Structural)]
pub struct WorkspaceCapabilities {
    pub can_read: bool,
    pub can_write: bool,
    pub can_search: bool,
}

/// What an agent may do.
#[derive(Debug)]
pub struct AgentCapabilities {
    pub tools: AgentToolset,
    pub can_spawn_agents: bool,
    pub max_child_depth: Option<u32>,
    pub workspace: WorkspaceCapabilities,
    pub backend: BackendCapabilities,
}

impl AgentCapabilities {
    /// Whether two capability sets grant the same.
    pub open spec fn same_as(self, other: AgentCapabilities) -> bool {
        &&& self.tools.tools@ == other.tools.tools@
        &&& self.can_spawn_agents == other.can_spawn_agents
        &&& self.max_child_depth == other.max_child_depth
        &&& self.workspace == other.workspace
        &&& self.backend == other.backend
    }

    /// Whether nothing is granted.
    pub open spec fn grants_nothing(self) -> bool {
        &&& self.tools.tools@.len() == 0
        &&& !self.can_spawn_agents
        &&& self.max_child_depth is None
        &&& self.workspace == (WorkspaceCapabilities {
            can_read: false,
            can_write: false,
            can_search: false,
        })
        &&& self.backend == no_backend_capabilities()
    }

    /// A capability set that grants nothing.
    pub fn none() -> (r: Self)
        ensures
            r.grants_nothing(),
    {
        AgentCapabilities {
            tools: AgentToolset::empty(),
            can_spawn_agents: false,
            max_child_depth: None,
            workspace: WorkspaceCapabilities {
                can_read: false,
                can_write: false,
                can_search: false,
            },
            backend: BackendCapabilities::default(),
        }
    }
}

impl Clone for AgentCapabilities {
    fn clone(&self) -> (r: Self)
        ensures
            r.same_as(*self),
    {
        AgentCapabilities {
            tools: self.tools.clone(),
            can_spawn_agents: self.can_spawn_agents,
            max_child_depth: self.max_child_depth,
            workspace: self.workspace,
            backend: self.backend,
        }
    }
}

/// Totals of what an agent consumed. Unknown totals are `None`.
#[derive(Clone, Copy, Debug, PartialEq, Eq, Structural)]
pub struct AgentUsageMetrics {
    pub total_runs: u64,
    pub total_requests: u64,
    pub total_tool_calls: u64,
    pub total_tokens: Option<u64>,
    pub total_cost: Option<UsdAmount>,
}

/// Nothing was consumed, and no tokens or cost are known.
pub open spec fn no_usage() -> AgentUsageMetrics {
    AgentUsageMetrics {
        total_runs: 0,
        total_requests: 0,
        total_tool_calls: 0,
        total_tokens: None,
        total_cost: None,
    }
}

impl Default for AgentUsageMetrics {
    fn default() -> (r: Self)
        ensures
            r == no_usage(),
    {
        AgentUsageMetrics {
            total_runs: 0,
            total_requests: 0,
            total_tool_calls: 0,
            total_tokens: None,
            total_cost: None,
        }
    }
}

/// What an agent consumed itself, through its descendants, and in all.
#[derive(Clone, Copy, Debug, PartialEq, Eq, Structural)]
pub struct AgentUsageSummary {
    pub self_usage: AgentUsageMetrics,
    pub descendant_usage: AgentUsageMetrics,
    pub inclusive_usage: AgentUsageMetrics,
}

/// The summary of an agent that consumed nothing.
pub open spec fn no_usage_summary() -> AgentUsageSummary {
    AgentUsageSummary {
        self_usage: no_usage(),
        descendant_usage: no_usage(),
        inclusive_usage: no_usage(),
    }
}

impl Default for AgentUsageSummary {
    fn default() -> (r: Self)
        ensures
            r == no_usage_summary(),
    {
        AgentUsageSummary {
            self_usage: AgentUsageMetrics::default(),
            descendant_usage: AgentUsageMetrics::default(),
            inclusive_usage: AgentUsageMetrics::default(),
        }
    }
}

/// An error that ended a run. The details are the text of a JSON value.
#[derive(Debug)]
pub struct AgentError {
    pub message: String,
    pub code: String,
    pub details: Option<String>,
}

impl Clone for AgentError {
    fn clone(&self) -> (r: Self)
        ensures
            r == *self,
    {
        AgentError {
            message: self.message.clone(),
            code: self.code.clone(),
            details: clone_opt(&self.details),
        }
    }
}

/// Copies an optional error.
pub fn clone_opt_error(error: &Option<AgentError>) -> (r: Option<AgentError>)
    ensures
        r == *error,
{
    match error {
        Some(e) => Some(e.clone()),
        None => None,
    }
}

/// What a finished agent hands to its parent.
#[derive(Debug)]
pub struct AgentResult {
    pub summary: String,
    pub usage: AgentUsageSummary,
}

impl Clone for AgentResult {
    fn clone(&self) -> (r: Self)
        ensures
            r == *self,
    {
        AgentResult { summary: self.summary.clone(), usage: self.usage }
    }
}

/// Input of a user. The attachments, if any, are kept as the text of a JSON
/// value.
#[derive(Debug)]
pub struct UserInput {
    pub text: String,
    pub attachments: Option<String>,
}

impl Clone for UserInput {
    fn clone(&self) -> (r: Self)
        ensures
            r == *self,
    {
        UserInput { text: self.text.clone(), attachments: clone_opt(&self.attachments) }
    }
}

/// Settings of a backend request. Settings other than the model are kept as
/// the text of a JSON value; `None` stands for the defaults.
#[derive(Debug)]
pub struct ExecutionParams {
    pub model: Option<String>,
    pub settings: Option<String>,
}

impl Clone for ExecutionParams {
    fn clone(&self) -> (r: Self)
        ensures
            r == *self,
    {
        ExecutionParams { model: clone_opt(&self.model), settings: clone_opt(&self.settings) }
    }
}

impl Default for ExecutionParams {
    fn default() -> (r: Self)
        ensures
            r.model is None,
            r.settings is None,
    {
        ExecutionParams { model: None, settings: None }
    }
}

/// A tool call that has been started and not finished. The time is in
/// milliseconds.
#[derive(Debug)]
pub struct PendingToolCall {
    pub call: ToolCall,
    pub started_at: u64,
}

impl Clone for PendingToolCall {
    fn clone(&self) -> (r: Self)
        ensures
            r == *self,
    {
        PendingToolCall { call: self.call.clone(), started_at: self.started_at }
    }
}

/// A pending tool call under its identifier.
#[derive(Debug)]
pub struct PendingToolEntry {
    pub id: ToolCallId,
    pub pending: PendingToolCall,
}

impl Clone for PendingToolEntry {
    fn clone(&self) -> (r: Self)
        ensures
            r == *self,
    {
        PendingToolEntry { id: self.id, pending: self.pending.clone() }
    }
}

/// A pending permission request under its identifier, as the text of a JSON
/// value.
#[derive(Debug)]
pub struct PendingPermissionEntry {
    pub id: PermissionId,
    pub request: String,
}

impl Clone for PendingPermissionEntry {
    fn clone(&self) -> (r: Self)
        ensures
            r == *self,
    {
        PendingPermissionEntry { id: self.id, request: self.request.clone() }
    }
}

/// Bookkeeping of the prepared context. Identifiers and times are kept as
/// text.
#[derive(Debug)]
pub struct ContextState {
    pub generation: u64,
    pub last_estimated_tokens: Option<u64>,
    pub active_checkpoint: Option<String>,
    pub covered_through: Option<String>,
    /// How many items are pinned.
    pub pinned_items: usize,
    pub last_compacted_at: Option<String>,
}

impl ContextState {
    /// Whether no context has been prepared.
    pub open spec fn is_fresh(self) -> bool {
        &&& self.generation == 0
        &&& self.last_estimated_tokens is None
        &&& self.active_checkpoint is None
        &&& self.covered_through is None
        &&& self.pinned_items == 0
        &&& self.last_compacted_at is None
    }
}

impl Default for ContextState {
    fn default() -> (r: Self)
        ensures
            r.is_fresh(),
    {
        ContextState {
            generation: 0,
            last_estimated_tokens: None,
            active_checkpoint: None,
            covered_through: None,
            pinned_items: 0,
            last_compacted_at: None,
        }
    }
}

impl Clone for ContextState {
    fn clone(&self) -> (r: Self)
        ensures
            r == *self,
    {
        ContextState {
            generation: self.generation,
            last_estimated_tokens: self.last_estimated_tokens,
            active_checkpoint: clone_opt(&self.active_checkpoint),
            covered_through: clone_opt(&self.covered_through),
            pinned_items: self.pinned_items,
            last_compacted_at: clone_opt(&self.last_compacted_at),
        }
    }
}

/// The state of an agent. An operation and a message are kept as the text of
/// a JSON value.
#[derive(Debug)]
pub struct AgentState {
    pub status: AgentStatus,
    pub current_operation: Option<String>,
    pub system_prompt: String,
    pub execution_params: ExecutionParams,
    pub messages: Vec<String>,
    pub context: ContextState,
    pub active_run: Option<RunId>,
    pub queued_inputs: Vec<UserInput>,
    pub pending_tools: Vec<PendingToolEntry>,
    pub pending_permissions: Vec<PendingPermissionEntry>,
    pub children: Vec<AgentId>,
    pub last_error: Option<AgentError>,
    pub transition_sequence: u64,
    pub depth: u32,
}

impl AgentState {
    /// Whether the state is that of an agent that has not done anything and
    /// runs with the default settings.
    pub open spec fn is_fresh(self) -> bool {
        &&& self.is_unused()
        &&& self.execution_params.model is None
        &&& self.execution_params.settings is None
    }

    /// Whether the state is that of an agent that has not done anything.
    pub open spec fn is_unused(self) -> bool {
        &&& self.status == AgentStatus::Idle
        &&& self.current_operation is None
        &&& self.messages@.len() == 0
        &&& self.context.is_fresh()
        &&& self.active_run is None
        &&& self.queued_inputs@.len() == 0
        &&& self.pending_tools@.len() == 0
        &&& self.pending_permissions@.len() == 0
        &&& self.children@.len() == 0
        &&& self.last_error is None
        &&& self.transition_sequence == 0
    }
}

impl AgentState {
    /// Whether two states hold the same.
    pub open spec fn same_as(self, other: AgentState) -> bool {
        &&& self.status == other.status
        &&& self.current_operation == other.current_operation
        &&& self.system_prompt == other.system_prompt
        &&& self.execution_params == other.execution_params
        &&& self.messages@ == other.messages@
        &&& self.context == other.context
        &&& self.active_run == other.active_run
        &&& self.queued_inputs@ == other.queued_inputs@
        &&& self.pending_tools@ == other.pending_tools@
        &&& self.pending_permissions@ == other.pending_permissions@
        &&& self.children@ == other.children@
        &&& self.last_error == other.last_error
        &&& self.transition_sequence == other.transition_sequence
        &&& self.depth == other.depth
    }
}

impl Clone for AgentState {
    fn clone(&self) -> (r: Self)
        ensures
            r.same_as(*self),
    {
        let messages = self.messages.clone();
        let queued_inputs = self.queued_inputs.clone();
        let pending_tools = self.pending_tools.clone();
        let pending_permissions = self.pending_permissions.clone();
        let children = self.children.clone();
        assert(messages@ =~= self.messages@);
        assert(queued_inputs@ =~= self.queued_inputs@);
        assert(pending_tools@ =~= self.pending_tools@);
        assert(pending_permissions@ =~= self.pending_permissions@);
        assert(children@ =~= self.children@);
        AgentState {
            status: self.status,
            current_operation: clone_opt(&self.current_operation),
            system_prompt: self.system_prompt.clone(),
            execution_params: self.execution_params.clone(),
            messages,
            context: self.context.clone(),
            active_run: self.active_run,
            queued_inputs,
            pending_tools,
            pending_permissions,
            children,
            last_error: clone_opt_error(&self.last_error),
            transition_sequence: self.transition_sequence,
            depth: self.depth,
        }
    }
}

/// Usage reported by a child, under the child's identifier.
#[derive(Clone, Copy, Debug, PartialEq, Eq, Structural)]
pub struct ChildUsage {
    pub child: AgentId,
    pub usage: AgentUsageSummary,
}

/// What an agent recorded of its consumption. A usage record is kept as the
/// text of a JSON value.
#[derive(Debug)]
pub struct UsageLedger {
    pub records: Vec<String>,
    pub tool_calls: u64,
    pub runs: u64,
    pub child_usage: Vec<ChildUsage>,
}

impl UsageLedger {
    /// Whether nothing has been recorded.
    pub open spec fn is_empty_ledger(self) -> bool {
        &&& self.records@.len() == 0
        &&& self.tool_calls == 0
        &&& self.runs == 0
        &&& self.child_usage@.len() == 0
    }
}

impl UsageLedger {
    /// Whether two ledgers hold the same.
    pub open spec fn same_as(self, other: UsageLedger) -> bool {
        &&& self.records@ == other.records@
        &&& self.tool_calls == other.tool_calls
        &&& self.runs == other.runs
        &&& self.child_usage@ == other.child_usage@
    }
}

impl Clone for UsageLedger {
    fn clone(&self) -> (r: Self)
        ensures
            r.same_as(*self),
    {
        let records = self.records.clone();
        let child_usage = self.child_usage.clone();
        assert(records@ =~= self.records@);
        assert(child_usage@ =~= self.child_usage@);
        UsageLedger { records, tool_calls: self.tool_calls, runs: self.runs, child_usage }
    }
}

impl Default for UsageLedger {
    fn default() -> (r: Self)
        ensures
            r.is_empty_ledger(),
    {
        UsageLedger { records: Vec::new(), tool_calls: 0, runs: 0, child_usage: Vec::new() }
    }
}

/// An agent.
#[derive(Debug)]
pub struct Agent {
    pub id: AgentId,
    pub session_id: SessionId,
    pub parent_id: Option<AgentId>,
    pub state: AgentState,
    pub backend: BackendBinding,
    pub capabilities: AgentCapabilities,
    pub usage: UsageLedger,
    pub budget: AgentBudget,
}

impl Agent {
    /// Whether two agents are the same in every respect.
    pub open spec fn same_as(self, other: Agent) -> bool {
        &&& self.id == other.id
        &&& self.session_id == other.session_id
        &&& self.parent_id == other.parent_id
        &&& self.state.same_as(other.state)
        &&& self.backend == other.backend
        &&& self.capabilities.same_as(other.capabilities)
        &&& self.usage.same_as(other.usage)
        &&& self.budget == other.budget
    }

    /// An agent that has not done anything.
    pub fn new(
        id: AgentId,
        session_id: SessionId,
        parent_id: Option<AgentId>,
        depth: u32,
        system_prompt: String,
        backend: BackendBinding,
        capabilities: AgentCapabilities,
        budget: AgentBudget,
    ) -> (r: Self)
        ensures
            r.id == id,
            r.session_id == session_id,
            r.parent_id == parent_id,
            r.state.is_fresh(),
            r.state.depth == depth,
            r.state.system_prompt == system_prompt,
            r.backend == backend,
            r.capabilities == capabilities,
            r.usage.is_empty_ledger(),
            r.budget == budget,
    {
        Agent {
            id,
            session_id,
            parent_id,
            state: AgentState {
                status: AgentStatus::Idle,
                current_operation: None,
                system_prompt,
                execution_params: ExecutionParams::default(),
                messages: Vec::new(),
                context: ContextState::default(),
                active_run: None,
                queued_inputs: Vec::new(),
                pending_tools: Vec::new(),
                pending_permissions: Vec::new(),
                children: Vec::new(),
                last_error: None,
                transition_sequence: 0,
                depth,
            },
            backend,
            capabilities,
            usage: UsageLedger::default(),
            budget,
        }
    }
}

impl Clone for Agent {
    fn clone(&self) -> (r: Self)
        ensures
            r.same_as(*self),
    {
        Agent {
            id: self.id,
            session_id: self.session_id,
            parent_id: self.parent_id,
            state: self.state.clone(),
            backend: self.backend.clone(),
            capabilities: self.capabilities.clone(),
            usage: self.usage.clone(),
            budget: self.budget,
        }
    }
}

} // verus!
