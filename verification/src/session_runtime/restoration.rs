//! Rebuilding a session's agents from a stored snapshot.

use std::collections::HashMap;

use tokio_util::sync::CancellationToken;
use vstd::prelude::*;

use crate::agent::{Agent, AgentState, ContextState};
use crate::agent_supervisor::AgentHandle;
use crate::ids::{AgentId, SessionId};
use crate::json::Json;
use crate::scheduler::SchedulerConfig;
use crate::session_runtime::live_state::AgentLiveState;
use crate::session_runtime::projection::{
    self, capabilities_from_value, usage_from_value, DecodedCapabilities, DecodedUsage,
    StoredAgentState,
};
use crate::session_runtime::runtime::SessionRuntime;
use crate::session_runtime::types::{SessionState, SessionStatus};

verus! {

broadcast use vstd::std_specs::hash::group_hash_axioms;

/// A stored agent together with what decoding its capabilities and its usage
/// gave.
pub struct StoredAgent {
    pub stored: StoredAgentState,
    pub capabilities: Json,
    pub decoded_capabilities: DecodedCapabilities,
    pub usage: Json,
    pub decoded_usage: DecodedUsage,
}

impl StoredAgent {
    /// Whether every entry of the stored child usage was decoded.
    pub open spec fn valid(self) -> bool {
        projection::child_members(self.usage).len() <= self.decoded_usage.children@.len()
    }

    /// Whether `agent` is what the stored agent is restored to. Everything
    /// that was stored comes back; queued input and the prepared context are
    /// not stored and start anew.
    pub open spec fn restores(self, agent: Agent, session_id: SessionId) -> bool {
        &&& agent.id == self.stored.agent_id
        &&& agent.session_id == session_id
        &&& agent.parent_id == self.stored.parent_id
        &&& agent.state.status == self.stored.status
        &&& agent.state.current_operation == self.stored.current_operation
        &&& agent.state.system_prompt == self.stored.system_prompt
        &&& agent.state.execution_params == self.stored.execution_params
        &&& agent.state.messages@ == self.stored.messages@
        &&& agent.state.context.is_fresh()
        &&& agent.state.active_run == self.stored.active_run
        &&& agent.state.queued_inputs@.len() == 0
        &&& agent.state.pending_tools@ == self.stored.pending_tools@
        &&& agent.state.pending_permissions@ == self.stored.pending_permissions@
        &&& agent.state.children@ == self.stored.children@
        &&& agent.state.last_error == self.stored.last_error
        &&& agent.state.transition_sequence == self.stored.transition_sequence
        &&& agent.state.depth == self.stored.depth
        &&& agent.backend == self.stored.backend
        &&& agent.budget == self.stored.budget
        &&& projection::restores_capabilities(
            agent.capabilities,
            self.capabilities,
            self.decoded_capabilities,
        )
        &&& projection::restores_usage(agent.usage, self.usage, self.decoded_usage)
    }
}

/// Restores one agent.
pub fn agent_from_stored(session_id: SessionId, stored_agent: StoredAgent) -> (r: Agent)
    requires
        stored_agent.valid(),
    ensures
        stored_agent.restores(r, session_id),
{
    let capabilities = capabilities_from_value(
        &stored_agent.capabilities,
        stored_agent.decoded_capabilities,
    );
    let usage = usage_from_value(&stored_agent.usage, stored_agent.decoded_usage);
    let stored = stored_agent.stored;
    Agent {
        id: stored.agent_id,
        session_id,
        parent_id: stored.parent_id,
        state: AgentState {
            status: stored.status,
            current_operation: stored.current_operation,
            system_prompt: stored.system_prompt,
            execution_params: stored.execution_params,
            messages: stored.messages,
            context: ContextState::default(),
            active_run: stored.active_run,
            queued_inputs: Vec::new(),
            pending_tools: stored.pending_tools,
            pending_permissions: stored.pending_permissions,
            children: stored.children,
            last_error: stored.last_error,
            transition_sequence: stored.transition_sequence,
            depth: stored.depth,
        },
        backend: stored.backend,
        capabilities,
        usage,
        budget: stored.budget,
    }
}

/// Whether `stored[i]` is the last entry of agent `id` among the first `n`.
pub open spec fn last_entry(stored: Seq<StoredAgent>, n: int, id: u128, i: int) -> bool {
    &&& 0 <= i < n
    &&& stored[i].stored.agent_id.0 == id
    &&& forall|j: int| i < j < n ==> (#[trigger] stored[j]).stored.agent_id.0 != id
}

/// Whether `stored[i]` is the last entry without a parent among the first
/// `n`: the root of the session.
pub open spec fn root_entry(stored: Seq<StoredAgent>, n: int, i: int) -> bool {
    &&& 0 <= i < n
    &&& stored[i].stored.parent_id is None
    &&& forall|j: int| i < j < n ==> (#[trigger] stored[j]).stored.parent_id is Some
}

/// Whether a stored snapshot has a root agent.
pub open spec fn has_root(stored: Seq<StoredAgent>) -> bool {
    exists|i: int| 0 <= i < stored.len() && (#[trigger] stored[i]).stored.parent_id is None
}

/// Whether `agents` holds the restored agents of the first `n` entries; of
/// two entries of one agent the later one counts.
pub open spec fn holds_restored(
    agents: Map<u128, Agent>,
    stored: Seq<StoredAgent>,
    n: int,
    session_id: SessionId,
) -> bool {
    &&& forall|id: u128| #[trigger]
        agents.contains_key(id) ==> exists|i: int| last_entry(stored, n, id, i)
    &&& forall|id: u128, i: int| #[trigger]
        last_entry(stored, n, id, i) ==> agents.contains_key(id) && stored[i].restores(
            agents[id],
            session_id,
        )
}

/// Rebuilds the state of a session from its stored agents. The root is the
/// stored agent without a parent. The session starts idle: it accepts new
/// commands instead of resuming a run that was in flight.
pub fn restore_state(session_id: SessionId, stored_agents: Vec<StoredAgent>) -> (r: SessionState)
    requires
        forall|i: int| 0 <= i < stored_agents@.len() ==> (#[trigger] stored_agents@[i]).valid(),
        has_root(stored_agents@),
    ensures
        holds_restored(
            r.agents@,
            stored_agents@,
            stored_agents@.len() as int,
            session_id,
        ),
        exists|i: int| #[trigger]
            root_entry(stored_agents@, stored_agents@.len() as int, i)
                && stored_agents@[i].stored.agent_id == r.root_agent_id,
        r.status == SessionStatus::Idle,
        r.error is None,
{
    let ghost all = stored_agents@;
    let mut agents: HashMap<u128, Agent> = HashMap::new();
    let mut root: Option<AgentId> = None;
    let ghost mut done: int = 0;
    let mut rest = crate::tables::reversed(stored_agents);
    assert(all.skip(0) =~= all);
    while rest.len() > 0
        invariant
            0 <= done <= all.len(),
            rest@ == all.skip(done).reverse(),
            forall|i: int| 0 <= i < all.len() ==> (#[trigger] all[i]).valid(),
            holds_restored(agents@, all, done, session_id),
            match root {
                Some(id) => exists|i: int| #[trigger]
                    root_entry(all, done, i) && all[i].stored.agent_id == id,
                None => forall|i: int| 0 <= i < done ==> (#[trigger] all[i]).stored.parent_id is Some,
            },
        decreases rest@.len(),
    {
        proof {
            assert(rest@.last() == all[done]);
            assert(rest@.drop_last() =~= all.skip(done + 1).reverse());
        }
        match rest.pop() {
            Some(entry) => {
                let agent = agent_from_stored(session_id, entry);
                let id = agent.id;
                let ghost before = agents@;
                let ghost root_before = root;
                match agent.parent_id {
                    None => {
                        root = Some(id);
                        assert(root_entry(all, done + 1, done));
                    },
                    Some(_) => {},
                }
                agents.insert(id.0, agent);
                proof {
                    entry_added(before, agents@, all, done, session_id);
                    if agent.parent_id is Some && root_before is Some {
                        let i = choose|i: int| #[trigger]
                            root_entry(all, done, i) && all[i].stored.agent_id == root_before->0;
                        assert(root_entry(all, done + 1, i));
                    }
                    done = done + 1;
                }
            },
            None => {},
        }
    }
    assert(done == all.len());
    match root {
        Some(root_agent_id) => SessionState {
            agents,
            root_agent_id,
            status: SessionStatus::Idle,
            error: None,
        },
        None => {
            proof {
                let i = choose|i: int|
                    0 <= i < all.len() && (#[trigger] all[i]).stored.parent_id is None;
                assert(false);
            }
            SessionState {
                agents,
                root_agent_id: AgentId(0),
                status: SessionStatus::Idle,
                error: None,
            }
        },
    }
}

impl<W> SessionRuntime<W> {
    /// Rebuilds a session from its stored agents. Each of them still has to
    /// get its runner, the root first, with [`Self::spawn_runner`]. `scheduler`
    /// limits how many agents may run in the session.
    pub fn from_stored(
        session_id: SessionId,
        stored_agents: Vec<StoredAgent>,
        scheduler: &SchedulerConfig,
        stored: bool,
    ) -> (r: Self)
        requires
            forall|i: int|
                0 <= i < stored_agents@.len() ==> (#[trigger] stored_agents@[i]).valid(),
            has_root(stored_agents@),
        ensures
            r.wf(),
            !r.cancellation.known_cancelled(),
            !crate::outside::known_cancelled(r.bus_cancel),
            !r.agent_supervisor.session_cancel().known_cancelled(),
            r.agent_supervisor.agent_limit() == Some(scheduler.max_agents_per_session),
            r.session_id == session_id,
            r.stored == stored,
            holds_restored(
                r.state.agents@,
                stored_agents@,
                stored_agents@.len() as int,
                session_id,
            ),
            exists|i: int| #[trigger]
                root_entry(stored_agents@, stored_agents@.len() as int, i)
                    && stored_agents@[i].stored.agent_id == r.state.root_agent_id,
            r.state.status == SessionStatus::Idle,
            r.state.error is None,
            r.event_bus.next() == 0,
            r.live_state@ == Map::<u128, AgentLiveState>::empty(),
            r.projection@ == Seq::<StoredAgentState>::empty(),
            r.agent_supervisor.agents() == Map::<u128, AgentHandle>::empty(),
            r.agent_supervisor.tokens() == Map::<u128, CancellationToken>::empty(),
            r.agent_supervisor.session() == session_id,
    {
        let state = restore_state(session_id, stored_agents);
        SessionRuntime::assemble(session_id, state, stored, scheduler.max_agents_per_session)
    }
}

proof fn entry_added(
    before: Map<u128, Agent>,
    after: Map<u128, Agent>,
    stored: Seq<StoredAgent>,
    n: int,
    session_id: SessionId,
)
    requires
        0 <= n < stored.len(),
        holds_restored(before, stored, n, session_id),
        exists|agent: Agent|
            stored[n].restores(agent, session_id) && after == #[trigger] before.insert(
                stored[n].stored.agent_id.0,
                agent,
            ),
    ensures
        holds_restored(after, stored, n + 1, session_id),
{
    let id = stored[n].stored.agent_id.0;
    let m: int = n + 1;
    assert(last_entry(stored, m, id, n));
    assert forall|k: u128| #[trigger] after.contains_key(k) implies exists|i: int|
        last_entry(stored, m, k, i) by {
        if k != id {
            assert(before.contains_key(k));
            let i = choose|i: int| last_entry(stored, n, k, i);
            assert(last_entry(stored, m, k, i));
        }
    }
    assert forall|k: u128, i: int| #[trigger] last_entry(stored, m, k, i) implies after.contains_key(
        k,
    ) && stored[i].restores(after[k], session_id) by {
        if k != id {
            assert(i != n);
            assert(last_entry(stored, n, k, i));
        } else {
            if i < n {
                assert(stored[n].stored.agent_id.0 != k);
            }
        }
    }
}

/// What a snapshot stores of an agent comes back unchanged: an agent whose
/// projection is stored and restored is the same in everything but the input
/// that was queued and the prepared context, provided that its encoded
/// capabilities and usage decode to what they were.
pub proof fn a_stored_agent_comes_back(
    agent: Agent,
    entry: StoredAgent,
    capabilities_text: String,
    usage_text: String,
    restored: Agent,
)
    requires
        entry.stored.projects(agent, capabilities_text, usage_text),
        projection::capabilities_error(entry.capabilities, entry.decoded_capabilities) is None,
        projection::decodes_capabilities(
            agent.capabilities,
            entry.capabilities,
            entry.decoded_capabilities,
        ),
        projection::usage_error(entry.usage, entry.decoded_usage) is None,
        projection::decodes_usage(agent.usage, entry.usage, entry.decoded_usage),
        entry.restores(restored, agent.session_id),
    ensures
        restored.same_as(
            (Agent {
                state: (AgentState {
                    queued_inputs: restored.state.queued_inputs,
                    context: restored.state.context,
                    ..agent.state
                }),
                ..agent
            }),
        ),
{
}

/// Stored capabilities that cannot be read never escalate: the restored agent
/// is granted nothing.
pub proof fn unreadable_capabilities_grant_nothing(
    entry: StoredAgent,
    restored: Agent,
    session_id: SessionId,
)
    requires
        entry.restores(restored, session_id),
        projection::capabilities_error(entry.capabilities, entry.decoded_capabilities) is Some,
    ensures
        restored.capabilities.grants_nothing(),
{
}

} // verus!
