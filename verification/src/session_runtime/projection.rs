//! Durable projection of agents: what a snapshot stores of an agent, and how
//! an agent comes back from it.
//!
//! Capabilities and usage are stored as the text of a JSON value. Decoding
//! the members that hold a toolset, backend capabilities, usage records or
//! usage metrics happens outside; the shape around them is read here.

use vstd::prelude::*;

use crate::agent::{
    clone_opt_error, Agent, AgentCapabilities, AgentError, AgentStatus,
    AgentUsageMetrics, AgentUsageSummary, BackendBinding, BackendCapabilities, ChildUsage,
    ExecutionParams, PendingPermissionEntry, PendingToolEntry, UsageLedger,
    WorkspaceCapabilities,
};
use crate::budget::AgentBudget;
use crate::ids::{AgentId, RunId, SessionId};
use crate::json::Json;
use crate::sorting::{self, insert_sorted};
use crate::text::{self, clone_opt, concat2, concat3};
use crate::tools::AgentToolset;

verus! {

/// What a snapshot stores of an agent.
#[derive(Debug)]
pub struct StoredAgentState {
    pub agent_id: AgentId,
    pub parent_id: Option<AgentId>,
    pub status: AgentStatus,
    pub current_operation: Option<String>,
    pub system_prompt: String,
    pub execution_params: ExecutionParams,
    pub messages: Vec<String>,
    pub active_run: Option<RunId>,
    pub pending_tools: Vec<PendingToolEntry>,
    pub pending_permissions: Vec<PendingPermissionEntry>,
    pub children: Vec<AgentId>,
    pub last_error: Option<AgentError>,
    pub transition_sequence: u64,
    pub depth: u32,
    pub backend: BackendBinding,
    /// Configuration of the backend; `None` stands for JSON's `null`.
    pub backend_config: Option<String>,
    pub budget: AgentBudget,
    /// The capabilities, as the text of a JSON value.
    pub capabilities: String,
    /// The usage ledger, as the text of a JSON value.
    pub usage: String,
}

impl StoredAgentState {
    /// Whether two stored states hold the same.
    pub open spec fn same_as(self, other: StoredAgentState) -> bool {
        &&& self.agent_id == other.agent_id
        &&& self.parent_id == other.parent_id
        &&& self.status == other.status
        &&& self.current_operation == other.current_operation
        &&& self.system_prompt == other.system_prompt
        &&& self.execution_params == other.execution_params
        &&& self.messages@ == other.messages@
        &&& self.active_run == other.active_run
        &&& self.pending_tools@ == other.pending_tools@
        &&& self.pending_permissions@ == other.pending_permissions@
        &&& self.children@ == other.children@
        &&& self.last_error == other.last_error
        &&& self.transition_sequence == other.transition_sequence
        &&& self.depth == other.depth
        &&& self.backend == other.backend
        &&& self.backend_config == other.backend_config
        &&& self.budget == other.budget
        &&& self.capabilities == other.capabilities
        &&& self.usage == other.usage
    }

    /// Whether this is what a snapshot stores of `agent`, its capabilities
    /// and usage being encoded as given.
    pub open spec fn projects(self, agent: Agent, capabilities: String, usage: String) -> bool {
        &&& self.agent_id == agent.id
        &&& self.parent_id == agent.parent_id
        &&& self.status == agent.state.status
        &&& self.current_operation == agent.state.current_operation
        &&& self.system_prompt == agent.state.system_prompt
        &&& self.execution_params == agent.state.execution_params
        &&& self.messages@ == agent.state.messages@
        &&& self.active_run == agent.state.active_run
        &&& self.pending_tools@ == agent.state.pending_tools@
        &&& self.pending_permissions@ == agent.state.pending_permissions@
        &&& self.children@ == agent.state.children@
        &&& self.last_error == agent.state.last_error
        &&& self.transition_sequence == agent.state.transition_sequence
        &&& self.depth == agent.state.depth
        &&& self.backend == agent.backend
        &&& self.backend_config is None
        &&& self.budget == agent.budget
        &&& self.capabilities == capabilities
        &&& self.usage == usage
    }

    /// The reference by which the agent's integration is found again.
    pub open spec fn reference(self) -> Seq<char> {
        self.backend.reference.integration@ + "::"@ + self.backend.descriptor.name@
    }
}

impl Clone for StoredAgentState {
    fn clone(&self) -> (r: Self)
        ensures
            r.same_as(*self),
    {
        let messages = self.messages.clone();
        let pending_tools = self.pending_tools.clone();
        let pending_permissions = self.pending_permissions.clone();
        let children = self.children.clone();
        assert(messages@ =~= self.messages@);
        assert(pending_tools@ =~= self.pending_tools@);
        assert(pending_permissions@ =~= self.pending_permissions@);
        assert(children@ =~= self.children@);
        StoredAgentState {
            agent_id: self.agent_id,
            parent_id: self.parent_id,
            status: self.status,
            current_operation: clone_opt(&self.current_operation),
            system_prompt: self.system_prompt.clone(),
            execution_params: self.execution_params.clone(),
            messages,
            active_run: self.active_run,
            pending_tools,
            pending_permissions,
            children,
            last_error: clone_opt_error(&self.last_error),
            transition_sequence: self.transition_sequence,
            depth: self.depth,
            backend: self.backend.clone(),
            backend_config: clone_opt(&self.backend_config),
            budget: self.budget,
            capabilities: self.capabilities.clone(),
            usage: self.usage.clone(),
        }
    }
}

/// Projects an agent into what a snapshot stores of it.
pub fn stored_agent_state(agent: &Agent, capabilities: String, usage: String) -> (r:
    StoredAgentState)
    ensures
        r.projects(*agent, capabilities, usage),
{
    let messages = agent.state.messages.clone();
    let pending_tools = agent.state.pending_tools.clone();
    let pending_permissions = agent.state.pending_permissions.clone();
    let children = agent.state.children.clone();
    assert(messages@ =~= agent.state.messages@);
    assert(pending_tools@ =~= agent.state.pending_tools@);
    assert(pending_permissions@ =~= agent.state.pending_permissions@);
    assert(children@ =~= agent.state.children@);
    StoredAgentState {
        agent_id: agent.id,
        parent_id: agent.parent_id,
        status: agent.state.status,
        current_operation: clone_opt(&agent.state.current_operation),
        system_prompt: agent.state.system_prompt.clone(),
        execution_params: agent.state.execution_params.clone(),
        messages,
        active_run: agent.state.active_run,
        pending_tools,
        pending_permissions,
        children,
        last_error: clone_opt_error(&agent.state.last_error),
        transition_sequence: agent.state.transition_sequence,
        depth: agent.state.depth,
        backend: agent.backend.clone(),
        backend_config: None,
        budget: agent.budget,
        capabilities,
        usage,
    }
}

/// The projections of a session's agents, one per agent.
#[derive(Debug)]
pub struct AgentProjectionTable {
    entries: Vec<StoredAgentState>,
}

impl View for AgentProjectionTable {
    type V = Seq<StoredAgentState>;

    closed spec fn view(&self) -> Seq<StoredAgentState> {
        self.entries@
    }
}

/// Whether `entries[i]` is the projection of `agent`.
pub open spec fn projection_at(entries: Seq<StoredAgentState>, agent: AgentId, i: int) -> bool {
    0 <= i < entries.len() && entries[i].agent_id == agent
}

/// Whether `after` is `before` with the projection of `agent` in it, in the
/// place of an earlier one or at the end. `capabilities` and `usage` are the
/// agent's encoded capabilities and usage.
pub open spec fn projected(
    before: Seq<StoredAgentState>,
    after: Seq<StoredAgentState>,
    agent: Agent,
    capabilities: String,
    usage: String,
) -> bool {
    exists|stored: StoredAgentState| #[trigger]
        stored.projects(agent, capabilities, usage) && put_in(before, after, stored)
}

/// Whether `after` is `before` with `stored` in it, in the place of an earlier
/// projection of the same agent or at the end.
pub open spec fn put_in(
    before: Seq<StoredAgentState>,
    after: Seq<StoredAgentState>,
    stored: StoredAgentState,
) -> bool {
    if exists|i: int| projection_at(before, stored.agent_id, i) {
        exists|i: int| #[trigger]
            projection_at(before, stored.agent_id, i) && after == before.update(i, stored)
    } else {
        after == before.push(stored)
    }
}

/// What an agent's runner published last is what a checkpoint saves of it; the
/// projections of other agents stay.
pub proof fn a_checkpoint_saves_what_was_published(
    before: Seq<StoredAgentState>,
    after: Seq<StoredAgentState>,
    agent: Agent,
    capabilities: String,
    usage: String,
)
    requires
        projected(before, after, agent, capabilities, usage),
    ensures
        exists|i: int| #[trigger]
            projection_at(after, agent.id, i) && after[i].projects(agent, capabilities, usage),
        forall|other: AgentId, i: int|
            other != agent.id ==> (#[trigger] projection_at(after, other, i) <==> projection_at(
                before,
                other,
                i,
            )),
        forall|other: AgentId, i: int| #[trigger]
            projection_at(before, other, i) && other != agent.id ==> after[i] == before[i],
{
    let stored = choose|stored: StoredAgentState| #[trigger]
        stored.projects(agent, capabilities, usage) && put_in(before, after, stored);
    if exists|i: int| projection_at(before, stored.agent_id, i) {
        let i = choose|i: int| #[trigger]
            projection_at(before, stored.agent_id, i) && after == before.update(i, stored);
        assert(projection_at(after, agent.id, i));
    } else {
        assert(projection_at(after, agent.id, before.len() as int));
    }
}

impl AgentProjectionTable {
    /// No agent is projected twice.
    pub open spec fn wf(&self) -> bool {
        forall|i: int, j: int|
            0 <= i < j < self@.len() ==> (#[trigger] self@[i]).agent_id != (
            #[trigger] self@[j]).agent_id
    }

    /// No agent is projected.
    pub fn new() -> (r: Self)
        ensures
            r@ == Seq::<StoredAgentState>::empty(),
            r.wf(),
    {
        AgentProjectionTable { entries: Vec::new() }
    }

    /// The number of projected agents.
    pub fn len(&self) -> (r: usize)
        ensures
            r == self@.len(),
    {
        self.entries.len()
    }

    /// The projection at a position.
    pub fn at(&self, i: usize) -> (r: &StoredAgentState)
        requires
            i < self@.len(),
        ensures
            *r == self@[i as int],
    {
        &self.entries[i]
    }

    /// Sets the projection of an agent, in place where there already is one.
    pub fn insert(&mut self, stored: StoredAgentState)
        requires
            old(self).wf(),
        ensures
            final(self).wf(),
            put_in(old(self)@, final(self)@, stored),
    {
        let mut i: usize = 0;
        while i < self.entries.len()
            invariant
                i <= self.entries@.len(),
                self@ == old(self)@,
                old(self).wf(),
                forall|j: int| 0 <= j < i ==> (#[trigger] self@[j]).agent_id != stored.agent_id,
            decreases self.entries@.len() - i,
        {
            if self.entries[i].agent_id == stored.agent_id {
                assert(projection_at(old(self)@, stored.agent_id, i as int));
                self.entries.set(i, stored);
                return ;
            }
            i = i + 1;
        }
        assert forall|k: int| !(#[trigger] projection_at(old(self)@, stored.agent_id, k)) by {}
        self.entries.push(stored);
    }

    /// Publishes an agent's projection.
    pub fn publish(&mut self, agent: &Agent, capabilities: String, usage: String)
        requires
            old(self).wf(),
        ensures
            final(self).wf(),
            projected(old(self)@, final(self)@, *agent, capabilities, usage),
    {
        let stored = stored_agent_state(agent, capabilities, usage);
        let ghost kept = stored;
        self.insert(stored);
        assert(kept.projects(*agent, capabilities, usage));
    }
}

// ---------------------------------------------------------------------------
// Snapshots
// ---------------------------------------------------------------------------

/// What a snapshot depends on. References only, never secrets.
#[derive(Debug)]
pub struct DurableSessionMetadata {
    pub workspace_identity: Option<String>,
    pub integration_references: Vec<String>,
    pub credential_profiles: Vec<String>,
    pub tool_policy_ids: Vec<String>,
    pub compacted: bool,
    pub compaction_generation: u64,
}

/// A durable snapshot of a session. The time is in milliseconds.
#[derive(Debug)]
pub struct DurableSessionSnapshot {
    pub session_id: SessionId,
    pub root_agent_id: AgentId,
    pub agents: Vec<StoredAgentState>,
    pub session_sequence: u64,
    pub timestamp: u64,
    pub schema_version: u32,
    pub metadata: DurableSessionMetadata,
}

/// Whether `references` lists the references of `agents`, each once, in
/// ascending order.
pub open spec fn lists_references(
    references: Seq<Seq<char>>,
    agents: Seq<StoredAgentState>,
) -> bool {
    &&& sorting::ascending(references)
    &&& forall|text: Seq<char>| #[trigger]
        references.contains(text) <==> exists|i: int|
            0 <= i < agents.len() && (#[trigger] agents[i]).reference() == text
}

/// The references of the projected agents, sorted and without repetition.
fn collect_references(table: &AgentProjectionTable) -> (r: Vec<String>)
    ensures
        lists_references(text::texts(r@), table@),
{
    let mut references: Vec<String> = Vec::new();
    let mut i: usize = 0;
    assert(text::texts(references@) =~= Seq::empty());
    while i < table.len()
        invariant
            i <= table@.len(),
            lists_references(text::texts(references@), table@.take(i as int)),
        decreases table@.len() - i,
    {
        let stored = table.at(i);
        let reference = concat3(
            stored.backend.reference.integration.as_str(),
            "::",
            stored.backend.descriptor.name.as_str(),
        );
        let ghost before = text::texts(references@);
        insert_sorted(&mut references, reference);
        proof {
            let after = text::texts(references@);
            let agents = table@.take(i + 1);
            assert forall|t: Seq<char>| #[trigger] after.contains(t) <==> exists|k: int|
                0 <= k < agents.len() && (#[trigger] agents[k]).reference() == t by {
                assert(after.contains(t) <==> before.contains(t) || t == stored.reference());
                if before.contains(t) {
                    let k = choose|k: int|
                        0 <= k < table@.take(i as int).len() && (#[trigger] table@.take(
                            i as int,
                        )[k]).reference() == t;
                    assert(agents[k].reference() == t);
                }
                if t == stored.reference() {
                    assert(agents[i as int].reference() == t);
                }
                if exists|k: int|
                    0 <= k < agents.len() && (#[trigger] agents[k]).reference() == t {
                    let k = choose|k: int|
                        0 <= k < agents.len() && (#[trigger] agents[k]).reference() == t;
                    if k < i {
                        assert(table@.take(i as int)[k].reference() == t);
                        assert(before.contains(t));
                    }
                }
            }
        }
        i = i + 1;
    }
    assert(table@.take(table@.len() as int) =~= table@);
    references
}

/// Whether two lists of stored states hold the same, entry by entry.
pub open spec fn same_states(a: Seq<StoredAgentState>, b: Seq<StoredAgentState>) -> bool {
    &&& a.len() == b.len()
    &&& forall|i: int| 0 <= i < a.len() ==> (#[trigger] a[i]).same_as(b[i])
}

/// Builds a snapshot from the live projections. It records the workspace it
/// was taken under and, for every projected agent, the reference by which its
/// integration is found again.
pub fn build_snapshot(
    session_id: SessionId,
    root_agent_id: AgentId,
    projection: &AgentProjectionTable,
    workspace_identity: String,
    at_sequence: u64,
    now: u64,
    schema_version: u32,
    compacted: bool,
    compaction_generation: u64,
) -> (r: DurableSessionSnapshot)
    ensures
        r.session_id == session_id,
        r.root_agent_id == root_agent_id,
        same_states(r.agents@, projection@),
        r.session_sequence == at_sequence,
        r.timestamp == now,
        r.schema_version == schema_version,
        r.metadata.workspace_identity == Some(workspace_identity),
        lists_references(text::texts(r.metadata.integration_references@), projection@),
        r.metadata.credential_profiles@.len() == 0,
        r.metadata.tool_policy_ids@.len() == 0,
        r.metadata.compacted == compacted,
        r.metadata.compaction_generation == compaction_generation,
{
    let agents = projection.entries.clone();
    DurableSessionSnapshot {
        session_id,
        root_agent_id,
        agents,
        session_sequence: at_sequence,
        timestamp: now,
        schema_version,
        metadata: DurableSessionMetadata {
            workspace_identity: Some(workspace_identity),
            integration_references: collect_references(projection),
            credential_profiles: Vec::new(),
            tool_policy_ids: Vec::new(),
            compacted,
            compaction_generation,
        },
    }
}

// ---------------------------------------------------------------------------
// Capabilities
// ---------------------------------------------------------------------------

/// What decoding the members of stored capabilities gave: the toolset under
/// `tools` and the backend capabilities under `backend`, or why they could
/// not be decoded. What stands here for a missing member is not looked at.
pub struct DecodedCapabilities {
    pub tools: Result<AgentToolset, String>,
    pub backend: Result<BackendCapabilities, String>,
}

/// The first reason why stored capabilities cannot be restored, in the order
/// in which the members are read.
pub open spec fn capabilities_error(value: Json, decoded: DecodedCapabilities) -> Option<Seq<char>> {
    let tools = value.member_view("tools"@);
    let can_spawn = value.member_view("can_spawn_agents"@);
    let depth = value.member_view("max_child_depth"@);
    let workspace = value.member_view("workspace"@);
    let backend = value.member_view("backend"@);
    if value.members() is None {
        Some("capabilities projection is not an object"@)
    } else if tools is None {
        Some(missing_field("tools"@))
    } else if decoded.tools is Err {
        Some("invalid `tools` projection: "@ + decoded.tools->Err_0@)
    } else if can_spawn is None {
        Some(missing_field("can_spawn_agents"@))
    } else if can_spawn->0.bool_view() is None {
        Some("`can_spawn_agents` is not a boolean"@)
    } else if depth is None {
        Some(missing_field("max_child_depth"@))
    } else if depth->0 != Json::Null && depth->0.u64_view() is None {
        Some("`max_child_depth` is not an integer"@)
    } else if workspace is None {
        Some(missing_field("workspace"@))
    } else if workspace->0.members() is None {
        Some("`workspace` is not an object"@)
    } else if workspace_flag(workspace->0, "can_read"@) is None {
        Some(not_a_workspace_flag("can_read"@))
    } else if workspace_flag(workspace->0, "can_write"@) is None {
        Some(not_a_workspace_flag("can_write"@))
    } else if workspace_flag(workspace->0, "can_search"@) is None {
        Some(not_a_workspace_flag("can_search"@))
    } else if backend is None {
        Some(missing_field("backend"@))
    } else if decoded.backend is Err {
        Some("invalid `backend` projection: "@ + decoded.backend->Err_0@)
    } else {
        None
    }
}

/// The message about a missing member.
pub open spec fn missing_field(key: Seq<char>) -> Seq<char> {
    "missing field `"@ + key + "`"@
}

/// The message about a workspace flag that is missing or no boolean.
pub open spec fn not_a_workspace_flag(key: Seq<char>) -> Seq<char> {
    "`workspace."@ + key + "` is not a boolean"@
}

/// A flag of stored workspace capabilities.
pub open spec fn workspace_flag(workspace: Json, key: Seq<char>) -> Option<bool> {
    match workspace.member_view(key) {
        Some(value) => value.bool_view(),
        None => None,
    }
}

/// Whether `capabilities` are what readable stored capabilities stand for.
/// A stored depth is reduced to 32 bits.
pub open spec fn decodes_capabilities(
    capabilities: AgentCapabilities,
    value: Json,
    decoded: DecodedCapabilities,
) -> bool {
    let depth = value.member_view("max_child_depth"@)->0;
    let workspace = value.member_view("workspace"@)->0;
    &&& decoded.tools == Ok::<AgentToolset, String>(capabilities.tools)
    &&& value.member_view("can_spawn_agents"@)->0.bool_view() == Some(capabilities.can_spawn_agents)
    &&& capabilities.max_child_depth == if depth == Json::Null {
        None
    } else {
        Some(depth.u64_view()->0 as u32)
    }
    &&& workspace_flag(workspace, "can_read"@) == Some(capabilities.workspace.can_read)
    &&& workspace_flag(workspace, "can_write"@) == Some(capabilities.workspace.can_write)
    &&& workspace_flag(workspace, "can_search"@) == Some(capabilities.workspace.can_search)
    &&& decoded.backend == Ok::<BackendCapabilities, String>(capabilities.backend)
}

fn missing(key: &str) -> (r: String)
    ensures
        r@ == missing_field(key@),
{
    concat3("missing field `", key, "`")
}

fn read_workspace_flag(workspace: &Json, key: &str) -> (r: Result<bool, String>)
    ensures
        match workspace_flag(*workspace, key@) {
            Some(flag) => r == Ok::<bool, String>(flag),
            None => r matches Err(text) && text@ == not_a_workspace_flag(key@),
        },
{
    let flag = match workspace.get(key) {
        Some(value) => value.as_bool(),
        None => None,
    };
    match flag {
        Some(flag) => Ok(flag),
        None => Err(concat3("`workspace.", key, "` is not a boolean")),
    }
}

/// Tells whether a value is an object.
fn is_object(value: &Json) -> (r: bool)
    ensures
        r == (value.members() is Some),
{
    match value {
        Json::Object(_) => true,
        _ => false,
    }
}

/// Reads stored capabilities.
pub fn try_capabilities(value: &Json, decoded: DecodedCapabilities) -> (r: Result<
    AgentCapabilities,
    String,
>)
    ensures
        match capabilities_error(*value, decoded) {
            Some(message) => r matches Err(text) && text@ == message,
            None => r matches Ok(capabilities) && decodes_capabilities(
                capabilities,
                *value,
                decoded,
            ),
        },
{
    if !is_object(value) {
        return Err("capabilities projection is not an object".to_owned());
    }
    if value.get("tools").is_none() {
        return Err(missing("tools"));
    }
    let tools = match decoded.tools {
        Ok(tools) => tools,
        Err(error) => {
            return Err(concat2("invalid `tools` projection: ", error.as_str()));
        },
    };
    let can_spawn_agents = match value.get("can_spawn_agents") {
        None => {
            return Err(missing("can_spawn_agents"));
        },
        Some(member) => {
            match member.as_bool() {
                Some(flag) => flag,
                None => {
                    return Err("`can_spawn_agents` is not a boolean".to_owned());
                },
            }
        },
    };
    let max_child_depth: Option<u32> = match value.get("max_child_depth") {
        None => {
            return Err(missing("max_child_depth"));
        },
        Some(member) => {
            match member {
                Json::Null => None,
                _ => {
                    match member.as_u64() {
                        Some(depth) => Some(
                            #[verifier::truncate]
                            (depth as u32),
                        ),
                        None => {
                            return Err("`max_child_depth` is not an integer".to_owned());
                        },
                    }
                },
            }
        },
    };
    let workspace = match value.get("workspace") {
        None => {
            return Err(missing("workspace"));
        },
        Some(member) => member,
    };
    if !is_object(workspace) {
        return Err("`workspace` is not an object".to_owned());
    }
    let can_read = match read_workspace_flag(workspace, "can_read") {
        Ok(flag) => flag,
        Err(error) => {
            return Err(error);
        },
    };
    let can_write = match read_workspace_flag(workspace, "can_write") {
        Ok(flag) => flag,
        Err(error) => {
            return Err(error);
        },
    };
    let can_search = match read_workspace_flag(workspace, "can_search") {
        Ok(flag) => flag,
        Err(error) => {
            return Err(error);
        },
    };
    if value.get("backend").is_none() {
        return Err(missing("backend"));
    }
    let backend = match decoded.backend {
        Ok(backend) => backend,
        Err(error) => {
            return Err(concat2("invalid `backend` projection: ", error.as_str()));
        },
    };
    Ok(
        AgentCapabilities {
            tools,
            can_spawn_agents,
            max_child_depth,
            workspace: WorkspaceCapabilities { can_read, can_write, can_search },
            backend,
        },
    )
}

/// Whether `capabilities` are what stored capabilities are restored to:
/// nothing is granted where they cannot be read.
pub open spec fn restores_capabilities(
    capabilities: AgentCapabilities,
    value: Json,
    decoded: DecodedCapabilities,
) -> bool {
    if capabilities_error(value, decoded) is Some {
        capabilities.grants_nothing()
    } else {
        decodes_capabilities(capabilities, value, decoded)
    }
}

/// Restores stored capabilities. Where they cannot be read, nothing is
/// granted, so that a restore can still go on without escalating.
pub fn capabilities_from_value(value: &Json, decoded: DecodedCapabilities) -> (r:
    AgentCapabilities)
    ensures
        restores_capabilities(r, *value, decoded),
{
    match try_capabilities(value, decoded) {
        Ok(capabilities) => capabilities,
        Err(_) => AgentCapabilities::none(),
    }
}

// ---------------------------------------------------------------------------
// Usage
// ---------------------------------------------------------------------------

/// What decoding one entry of stored child usage gave: the child's
/// identifier under its key, and the metrics of its members.
pub struct DecodedChildUsage {
    pub child: Result<AgentId, String>,
    pub self_usage: Result<AgentUsageMetrics, String>,
    pub descendant_usage: Result<AgentUsageMetrics, String>,
    pub inclusive_usage: Result<AgentUsageMetrics, String>,
}

/// What decoding the members of a stored ledger gave: the usage records, an
/// empty list where there is no such member, and the entries of the child
/// usage in their order.
pub struct DecodedUsage {
    pub records: Result<Vec<String>, String>,
    pub children: Vec<DecodedChildUsage>,
}

/// The first reason why a stored usage summary cannot be restored.
pub open spec fn summary_error(value: Json, decoded: DecodedChildUsage) -> Option<Seq<char>> {
    if value.members() is None {
        Some("child usage summary is not an object"@)
    } else if value.member_view("self_usage"@) is None {
        Some(missing_field("self_usage"@))
    } else if decoded.self_usage is Err {
        Some("invalid `self_usage` projection: "@ + decoded.self_usage->Err_0@)
    } else if value.member_view("descendant_usage"@) is None {
        Some(missing_field("descendant_usage"@))
    } else if decoded.descendant_usage is Err {
        Some("invalid `descendant_usage` projection: "@ + decoded.descendant_usage->Err_0@)
    } else if value.member_view("inclusive_usage"@) is None {
        Some(missing_field("inclusive_usage"@))
    } else if decoded.inclusive_usage is Err {
        Some("invalid `inclusive_usage` projection: "@ + decoded.inclusive_usage->Err_0@)
    } else {
        None
    }
}

/// The summary that a readable stored usage summary stands for.
pub open spec fn decoded_summary(decoded: DecodedChildUsage) -> AgentUsageSummary {
    AgentUsageSummary {
        self_usage: decoded.self_usage->Ok_0,
        descendant_usage: decoded.descendant_usage->Ok_0,
        inclusive_usage: decoded.inclusive_usage->Ok_0,
    }
}

/// Reads a stored usage summary.
pub fn usage_summary_from_value(value: &Json, decoded: &DecodedChildUsage) -> (r: Result<
    AgentUsageSummary,
    String,
>)
    ensures
        match summary_error(*value, *decoded) {
            Some(message) => r matches Err(text) && text@ == message,
            None => r == Ok::<AgentUsageSummary, String>(decoded_summary(*decoded)),
        },
{
    if !is_object(value) {
        return Err("child usage summary is not an object".to_owned());
    }
    if value.get("self_usage").is_none() {
        return Err(missing("self_usage"));
    }
    let self_usage = match &decoded.self_usage {
        Ok(metrics) => *metrics,
        Err(error) => {
            return Err(concat2("invalid `self_usage` projection: ", error.as_str()));
        },
    };
    if value.get("descendant_usage").is_none() {
        return Err(missing("descendant_usage"));
    }
    let descendant_usage = match &decoded.descendant_usage {
        Ok(metrics) => *metrics,
        Err(error) => {
            return Err(concat2("invalid `descendant_usage` projection: ", error.as_str()));
        },
    };
    if value.get("inclusive_usage").is_none() {
        return Err(missing("inclusive_usage"));
    }
    let inclusive_usage = match &decoded.inclusive_usage {
        Ok(metrics) => *metrics,
        Err(error) => {
            return Err(concat2("invalid `inclusive_usage` projection: ", error.as_str()));
        },
    };
    Ok(AgentUsageSummary { self_usage, descendant_usage, inclusive_usage })
}

/// The members of the stored child usage; none where it is missing or no
/// object.
pub open spec fn child_members(value: Json) -> Seq<(String, Json)> {
    match value.member_view("child_usage"@) {
        Some(Json::Object(members)) => members@,
        _ => Seq::empty(),
    }
}

/// Why entry `i` of the stored child usage cannot be restored, if so.
pub open spec fn child_error(
    members: Seq<(String, Json)>,
    children: Seq<DecodedChildUsage>,
    i: int,
) -> Option<Seq<char>> {
    match children[i].child {
        Err(error) => Some(
            "invalid child_usage key "@ + text::debug_text(members[i].0@) + ": "@ + error@,
        ),
        Ok(_) => summary_error(members[i].1, children[i]),
    }
}

/// The first reason why the first `n` entries of the stored child usage
/// cannot be restored.
pub open spec fn children_error(
    members: Seq<(String, Json)>,
    children: Seq<DecodedChildUsage>,
    n: int,
) -> Option<Seq<char>>
    decreases n,
{
    if n <= 0 {
        None
    } else {
        match children_error(members, children, n - 1) {
            Some(message) => Some(message),
            None => child_error(members, children, n - 1),
        }
    }
}

/// `entries` with the usage of one more child; a child that is already there
/// gets the new usage in its place.
pub open spec fn with_child(entries: Seq<ChildUsage>, child: AgentId, usage: AgentUsageSummary) -> Seq<
    ChildUsage,
>
    decreases entries.len(),
{
    if entries.len() == 0 {
        seq![ChildUsage { child, usage }]
    } else if entries[0].child == child {
        seq![ChildUsage { child, usage }] + entries.drop_first()
    } else {
        seq![entries[0]] + with_child(entries.drop_first(), child, usage)
    }
}

/// The child usage that the first `n` readable entries stand for.
pub open spec fn decoded_children(children: Seq<DecodedChildUsage>, n: int) -> Seq<ChildUsage>
    decreases n,
{
    if n <= 0 {
        Seq::empty()
    } else {
        with_child(
            decoded_children(children, n - 1),
            children[n - 1].child->Ok_0,
            decoded_summary(children[n - 1]),
        )
    }
}

/// A counter of a stored ledger; zero where it is missing or no integer, as
/// in ledgers stored before the counter existed.
pub open spec fn counter(value: Json, key: Seq<char>) -> u64 {
    match value.member_view(key) {
        Some(member) => match member.u64_view() {
            Some(n) => n,
            None => 0,
        },
        None => 0,
    }
}

/// The first reason why a stored ledger cannot be restored.
pub open spec fn usage_error(value: Json, decoded: DecodedUsage) -> Option<Seq<char>> {
    if value.members() is None {
        Some("usage projection is not an object"@)
    } else if decoded.records is Err {
        Some("invalid `records` projection: "@ + decoded.records->Err_0@)
    } else {
        children_error(
            child_members(value),
            decoded.children@,
            child_members(value).len() as int,
        )
    }
}

/// Whether `ledger` is what a readable stored ledger stands for.
pub open spec fn decodes_usage(ledger: UsageLedger, value: Json, decoded: DecodedUsage) -> bool {
    &&& decoded.records == Ok::<Vec<String>, String>(ledger.records)
    &&& ledger.tool_calls == counter(value, "tool_calls"@)
    &&& ledger.runs == counter(value, "runs"@)
    &&& ledger.child_usage@ == decoded_children(
        decoded.children@,
        child_members(value).len() as int,
    )
}

proof fn with_child_at(entries: Seq<ChildUsage>, child: AgentId, usage: AgentUsageSummary, k: int)
    requires
        0 <= k < entries.len(),
        entries[k].child == child,
        forall|j: int| 0 <= j < k ==> (#[trigger] entries[j]).child != child,
    ensures
        with_child(entries, child, usage) == entries.update(k, ChildUsage { child, usage }),
    decreases entries.len(),
{
    if k > 0 {
        let rest = entries.drop_first();
        assert(entries[0].child != child);
        assert forall|j: int| 0 <= j < k - 1 implies (#[trigger] rest[j]).child != child by {
            assert(rest[j] == entries[j + 1]);
        }
        with_child_at(rest, child, usage, k - 1);
    }
    assert(with_child(entries, child, usage) =~= entries.update(k, ChildUsage { child, usage }));
}

proof fn with_child_at_end(entries: Seq<ChildUsage>, child: AgentId, usage: AgentUsageSummary)
    requires
        forall|j: int| 0 <= j < entries.len() ==> (#[trigger] entries[j]).child != child,
    ensures
        with_child(entries, child, usage) == entries.push(ChildUsage { child, usage }),
    decreases entries.len(),
{
    if entries.len() > 0 {
        let rest = entries.drop_first();
        assert(entries[0].child != child);
        assert forall|j: int| 0 <= j < rest.len() implies (#[trigger] rest[j]).child != child by {
            assert(rest[j] == entries[j + 1]);
        }
        with_child_at_end(rest, child, usage);
    }
    assert(with_child(entries, child, usage) =~= entries.push(ChildUsage { child, usage }));
}

/// Sets the usage of a child.
pub fn put_child_usage(entries: &mut Vec<ChildUsage>, child: AgentId, usage: AgentUsageSummary)
    ensures
        final(entries)@ == with_child(old(entries)@, child, usage),
{
    let mut i: usize = 0;
    while i < entries.len()
        invariant
            i <= entries@.len(),
            entries@ == old(entries)@,
            forall|j: int| 0 <= j < i ==> (#[trigger] entries@[j]).child != child,
        decreases entries@.len() - i,
    {
        if entries[i].child == child {
            proof {
                with_child_at(entries@, child, usage, i as int);
            }
            entries.set(i, ChildUsage { child, usage });
            return ;
        }
        i = i + 1;
    }
    proof {
        with_child_at_end(entries@, child, usage);
    }
    entries.push(ChildUsage { child, usage });
}

fn read_counter(value: &Json, key: &str) -> (r: u64)
    ensures
        r == counter(*value, key@),
{
    match value.get(key) {
        Some(member) => {
            match member.as_u64() {
                Some(n) => n,
                None => 0,
            }
        },
        None => 0,
    }
}

proof fn children_error_is_kept(
    members: Seq<(String, Json)>,
    children: Seq<DecodedChildUsage>,
    k: int,
    n: int,
)
    requires
        0 <= k <= n,
        children_error(members, children, k) is Some,
    ensures
        children_error(members, children, n) == children_error(members, children, k),
    decreases n - k,
{
    if k < n {
        children_error_is_kept(members, children, k, n - 1);
    }
}

fn read_children(members: &Vec<(String, Json)>, children: &Vec<DecodedChildUsage>) -> (r: Result<
    Vec<ChildUsage>,
    String,
>)
    requires
        members@.len() <= children@.len(),
    ensures
        match children_error(members@, children@, members@.len() as int) {
            Some(message) => r matches Err(text) && text@ == message,
            None => r matches Ok(entries) && entries@ == decoded_children(
                children@,
                members@.len() as int,
            ),
        },
{
    let mut entries: Vec<ChildUsage> = Vec::new();
    let mut i: usize = 0;
    while i < members.len()
        invariant
            i <= members@.len(),
            members@.len() <= children@.len(),
            children_error(members@, children@, i as int) is None,
            entries@ == decoded_children(children@, i as int),
        decreases members@.len() - i,
    {
        let decoded = &children[i];
        match &decoded.child {
            Err(error) => {
                proof {
                    assert(children_error(members@, children@, i + 1) is Some);
                    children_error_is_kept(members@, children@, i + 1, members@.len() as int);
                }
                let head = concat3(
                    "invalid child_usage key ",
                    crate::text::quoted(members[i].0.as_str()).as_str(),
                    ": ",
                );
                return Err(concat2(head.as_str(), error.as_str()));
            },
            Ok(child) => {
                match usage_summary_from_value(&members[i].1, decoded) {
                    Err(error) => {
                        proof {
                            assert(children_error(members@, children@, i + 1) is Some);
                            children_error_is_kept(
                                members@,
                                children@,
                                i + 1,
                                members@.len() as int,
                            );
                        }
                        return Err(error);
                    },
                    Ok(usage) => {
                        put_child_usage(&mut entries, *child, usage);
                    },
                }
            },
        }
        i = i + 1;
    }
    Ok(entries)
}

/// Reads a stored ledger.
pub fn try_usage(value: &Json, decoded: DecodedUsage) -> (r: Result<UsageLedger, String>)
    requires
        child_members(*value).len() <= decoded.children@.len(),
    ensures
        match usage_error(*value, decoded) {
            Some(message) => r matches Err(text) && text@ == message,
            None => r matches Ok(ledger) && decodes_usage(ledger, *value, decoded),
        },
{
    if !is_object(value) {
        return Err("usage projection is not an object".to_owned());
    }
    let records = match decoded.records {
        Ok(records) => records,
        Err(error) => {
            return Err(concat2("invalid `records` projection: ", error.as_str()));
        },
    };
    let child_usage = match value.get("child_usage") {
        Some(Json::Object(members)) => {
            match read_children(members, &decoded.children) {
                Ok(entries) => entries,
                Err(error) => {
                    return Err(error);
                },
            }
        },
        _ => Vec::new(),
    };
    let tool_calls: u64 = read_counter(value, "tool_calls");
    let runs: u64 = read_counter(value, "runs");
    Ok(UsageLedger { records, tool_calls, runs, child_usage })
}

/// Whether `ledger` is what a stored ledger is restored to: an empty one
/// where it cannot be read.
pub open spec fn restores_usage(ledger: UsageLedger, value: Json, decoded: DecodedUsage) -> bool {
    if usage_error(value, decoded) is Some {
        ledger.is_empty_ledger()
    } else {
        decodes_usage(ledger, value, decoded)
    }
}

/// Restores a stored ledger. Where it cannot be read, an empty one takes its
/// place.
pub fn usage_from_value(value: &Json, decoded: DecodedUsage) -> (r: UsageLedger)
    requires
        child_members(*value).len() <= decoded.children@.len(),
    ensures
        restores_usage(r, *value, decoded),
{
    match try_usage(value, decoded) {
        Ok(ledger) => ledger,
        Err(_) => UsageLedger::default(),
    }
}

} // verus!
