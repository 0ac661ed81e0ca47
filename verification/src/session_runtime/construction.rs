//! The root agent of a fresh session.

use std::collections::HashMap;

use tokio_util::sync::CancellationToken;
use vstd::prelude::*;

use crate::agent::{
    Agent, AgentCapabilities, BackendBinding, BackendCapabilities, BackendDescriptor,
    BackendReference, WorkspaceCapabilities,
};
use crate::agent_supervisor::AgentHandle;
use crate::budget::{self, AgentBudget};
use crate::ids::{AgentId, SessionId};
use crate::scheduler::SchedulerConfig;
use crate::session_runtime::live_state::AgentLiveState;
use crate::session_runtime::projection::StoredAgentState;
use crate::session_runtime::runtime::SessionRuntime;
use crate::session_runtime::types::{SessionState, SessionStatus};
use crate::tools::AgentToolset;

verus! {

broadcast use vstd::std_specs::hash::group_hash_axioms;

/// How deep the descendants of a root agent may nest.
pub const ROOT_MAX_CHILD_DEPTH: u32 = 8;

/// What a root agent may do with the workspace: what its enabled tools do.
pub open spec fn workspace_capabilities(toolset: AgentToolset) -> WorkspaceCapabilities {
    WorkspaceCapabilities {
        can_read: toolset.enables("fs.read"@),
        can_write: toolset.enables("fs.edit"@),
        can_search: toolset.enables("workspace.search"@),
    }
}

/// Whether `agent` is the root agent of a fresh session.
pub open spec fn is_root_agent(
    agent: Agent,
    session_id: SessionId,
    id: AgentId,
    backend: BackendBinding,
    toolset: AgentToolset,
) -> bool {
    &&& agent.id == id
    &&& agent.session_id == session_id
    &&& agent.parent_id is None
    &&& agent.state.is_fresh()
    &&& agent.state.depth == 0
    &&& agent.state.system_prompt@.len() == 0
    &&& agent.backend == backend
    &&& agent.capabilities.tools == toolset
    &&& agent.capabilities.can_spawn_agents
    &&& agent.capabilities.max_child_depth == Some(8u32)
    &&& agent.capabilities.workspace == workspace_capabilities(toolset)
    &&& agent.capabilities.backend == crate::agent::no_backend_capabilities()
    &&& agent.usage.is_empty_ledger()
    &&& agent.budget == budget::unlimited()
}

/// The binding of a root agent. `integration` is the identifier under which
/// the backend's integration is registered, or a fresh one where the backend
/// was injected without any; only the former lets the session be restored by
/// that identifier.
pub fn root_binding(
    integration: String,
    configuration: String,
    descriptor: BackendDescriptor,
) -> (r: BackendBinding)
    ensures
        r.reference.integration == integration,
        r.reference.configuration == configuration,
        r.reference.model is None,
        r.descriptor == descriptor,
{
    BackendBinding {
        reference: BackendReference { integration, configuration, model: None },
        descriptor,
    }
}

/// Makes the root agent of a fresh session.
pub fn root_agent(
    session_id: SessionId,
    id: AgentId,
    backend: BackendBinding,
    toolset: AgentToolset,
) -> (r: Agent)
    ensures
        is_root_agent(r, session_id, id, backend, toolset),
{
    let workspace = WorkspaceCapabilities {
        can_read: toolset.has_enabled("fs.read"),
        can_write: toolset.has_enabled("fs.edit"),
        can_search: toolset.has_enabled("workspace.search"),
    };
    Agent::new(
        id,
        session_id,
        None,
        0,
        String::new(),
        backend,
        AgentCapabilities {
            tools: toolset,
            can_spawn_agents: true,
            max_child_depth: Some(ROOT_MAX_CHILD_DEPTH),
            workspace,
            backend: BackendCapabilities::default(),
        },
        AgentBudget::default(),
    )
}

/// Whether `runtime` is a fresh session around the root agent `root`, which
/// is bound to the backend of `descriptor` under `integration`. At most
/// `max_agents` agents may run in it.
pub open spec fn is_fresh_session<W>(
    runtime: SessionRuntime<W>,
    root: Agent,
    session_id: SessionId,
    root_agent_id: AgentId,
    integration: String,
    configuration: String,
    descriptor: BackendDescriptor,
    toolset: AgentToolset,
    max_agents: usize,
) -> bool {
    &&& runtime.wf()
    &&& !runtime.cancellation.known_cancelled()
    &&& !crate::outside::known_cancelled(runtime.bus_cancel)
    &&& !runtime.agent_supervisor.session_cancel().known_cancelled()
    &&& runtime.agent_supervisor.agent_limit() == Some(max_agents)
    &&& runtime.session_id == session_id
    &&& is_root_agent(root, session_id, root_agent_id, root.backend, toolset)
    &&& root.backend.reference.integration == integration
    &&& root.backend.reference.configuration == configuration
    &&& root.backend.reference.model is None
    &&& root.backend.descriptor == descriptor
    &&& runtime.state.agents@.dom() == Set::<u128>::empty().insert(root_agent_id.0)
    &&& runtime.state.agents@[root_agent_id.0].same_as(root)
    &&& runtime.state.root_agent_id == root_agent_id
    &&& runtime.state.status == SessionStatus::Idle
    &&& runtime.state.error is None
    &&& runtime.event_bus.next() == 0
    &&& runtime.live_state@ == Map::<u128, AgentLiveState>::empty()
    &&& runtime.projection@ == Seq::<StoredAgentState>::empty()
    &&& runtime.agent_supervisor.agents() == Map::<u128, AgentHandle>::empty()
    &&& runtime.agent_supervisor.tokens() == Map::<u128, CancellationToken>::empty()
    &&& runtime.agent_supervisor.session() == session_id
}

impl<W> SessionRuntime<W> {
    /// A fresh session whose root agent has no tools and which no store keeps.
    /// See [`Self::new_with_scheduler`] for `fresh_integration_id`.
    pub fn new(
        session_id: SessionId,
        root_agent_id: AgentId,
        fresh_integration_id: String,
        configuration: String,
        descriptor: BackendDescriptor,
    ) -> (r: (Self, Agent))
        ensures
            !r.0.stored,
            r.1.capabilities.tools.tools@.len() == 0,
            is_fresh_session(
                r.0,
                r.1,
                session_id,
                root_agent_id,
                fresh_integration_id,
                configuration,
                descriptor,
                r.1.capabilities.tools,
                32,
            ),
    {
        Self::new_with_toolset(
            session_id,
            root_agent_id,
            fresh_integration_id,
            configuration,
            descriptor,
            AgentToolset::empty(),
        )
    }

    /// A fresh session whose root agent has the given tools and which no store
    /// keeps. See [`Self::new_with_scheduler`] for `fresh_integration_id`.
    pub fn new_with_toolset(
        session_id: SessionId,
        root_agent_id: AgentId,
        fresh_integration_id: String,
        configuration: String,
        descriptor: BackendDescriptor,
        root_toolset: AgentToolset,
    ) -> (r: (Self, Agent))
        ensures
            !r.0.stored,
            is_fresh_session(
                r.0,
                r.1,
                session_id,
                root_agent_id,
                fresh_integration_id,
                configuration,
                descriptor,
                root_toolset,
                32,
            ),
    {
        Self::new_with_scheduler(
            session_id,
            root_agent_id,
            fresh_integration_id,
            configuration,
            descriptor,
            root_toolset,
            &SchedulerConfig::default(),
            false,
        )
    }

    /// A fresh session around a backend that was injected without a registered
    /// integration. It is recorded under `fresh_integration_id`, which
    /// resolves nowhere.
    pub fn new_with_scheduler(
        session_id: SessionId,
        root_agent_id: AgentId,
        fresh_integration_id: String,
        configuration: String,
        descriptor: BackendDescriptor,
        root_toolset: AgentToolset,
        scheduler: &SchedulerConfig,
        stored: bool,
    ) -> (r: (Self, Agent))
        ensures
            r.0.stored == stored,
            is_fresh_session(
                r.0,
                r.1,
                session_id,
                root_agent_id,
                fresh_integration_id,
                configuration,
                descriptor,
                root_toolset,
                scheduler.max_agents_per_session,
            ),
    {
        Self::new_with_scheduler_and_integration_id(
            session_id,
            root_agent_id,
            None,
            fresh_integration_id,
            configuration,
            descriptor,
            root_toolset,
            scheduler,
            stored,
        )
    }

    /// Assembles a fresh session around a new root agent, which still has to
    /// get its runner with [`Self::spawn_runner`].
    ///
    /// `backend_integration_id` is the identifier under which the backend's
    /// integration is registered. A backend that was injected without one is
    /// recorded under `fresh_integration_id`, which resolves nowhere, so that
    /// such a session is never restored with another one's backend.
    ///
    /// `scheduler` limits how many agents may run in the session.
    pub fn new_with_scheduler_and_integration_id(
        session_id: SessionId,
        root_agent_id: AgentId,
        backend_integration_id: Option<String>,
        fresh_integration_id: String,
        configuration: String,
        descriptor: BackendDescriptor,
        root_toolset: AgentToolset,
        scheduler: &SchedulerConfig,
        stored: bool,
    ) -> (r: (Self, Agent))
        ensures
            r.0.stored == stored,
            is_fresh_session(
                r.0,
                r.1,
                session_id,
                root_agent_id,
                match backend_integration_id {
                    Some(integration) => integration,
                    None => fresh_integration_id,
                },
                configuration,
                descriptor,
                root_toolset,
                scheduler.max_agents_per_session,
            ),
    {
        let integration = match backend_integration_id {
            Some(integration) => integration,
            None => fresh_integration_id,
        };
        let binding = root_binding(integration, configuration, descriptor);
        let agent = root_agent(session_id, root_agent_id, binding, root_toolset);
        let mut agents: HashMap<u128, Agent> = HashMap::new();
        agents.insert(root_agent_id.0, agent.clone());
        assert(agents@.dom() =~= Set::<u128>::empty().insert(root_agent_id.0));
        let state = SessionState {
            agents,
            root_agent_id,
            status: SessionStatus::Idle,
            error: None,
        };
        (
            SessionRuntime::assemble(
                session_id,
                state,
                stored,
                scheduler.max_agents_per_session,
            ),
            agent,
        )
    }
}

} // verus!
