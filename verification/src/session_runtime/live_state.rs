//! Live, continuously updated per-agent status and usage.

use std::collections::HashMap;

use vstd::prelude::*;

use crate::agent::{
    clone_opt_error, Agent, AgentError, AgentOutcome, AgentStatus, AgentUsageMetrics,
    AgentUsageSummary,
};
use crate::budget::UsdAmount;
use crate::ids::AgentId;
use crate::text::clone_opt;

verus! {

broadcast use vstd::std_specs::hash::group_hash_axioms;

/// A live projection of one agent's status, operation, outcome and usage.
#[derive(Debug)]
pub struct AgentLiveState {
    pub status: AgentStatus,
    /// What the agent is doing, as the text of a JSON value.
    pub current_operation: Option<String>,
    /// How the most recent run ended. An agent is idle again after a run, so
    /// only this tells a finished run from none at all.
    pub last_outcome: Option<AgentOutcome>,
    /// The most recent unrecoverable error.
    pub last_error: Option<AgentError>,
    pub usage: AgentUsageSummary,
    pub total_requests: u64,
    pub total_cost_usd: Option<UsdAmount>,
}

/// The live state of an agent that has not been heard of.
pub open spec fn unknown_live_state() -> AgentLiveState {
    AgentLiveState {
        status: AgentStatus::Idle,
        current_operation: None,
        last_outcome: None,
        last_error: None,
        usage: crate::agent::no_usage_summary(),
        total_requests: 0,
        total_cost_usd: None,
    }
}

impl Default for AgentLiveState {
    fn default() -> (r: Self)
        ensures
            r == unknown_live_state(),
    {
        AgentLiveState {
            status: AgentStatus::Idle,
            current_operation: None,
            last_outcome: None,
            last_error: None,
            usage: AgentUsageSummary::default(),
            total_requests: 0,
            total_cost_usd: None,
        }
    }
}

impl Clone for AgentLiveState {
    fn clone(&self) -> (r: Self)
        ensures
            r == *self,
    {
        AgentLiveState {
            status: self.status,
            current_operation: clone_opt(&self.current_operation),
            last_outcome: self.last_outcome,
            last_error: clone_opt_error(&self.last_error),
            usage: self.usage,
            total_requests: self.total_requests,
            total_cost_usd: self.total_cost_usd,
        }
    }
}

/// The live states of a session's agents.
#[derive(Debug)]
pub struct LiveStateTable {
    entries: HashMap<u128, AgentLiveState>,
}

impl View for LiveStateTable {
    type V = Map<u128, AgentLiveState>;

    closed spec fn view(&self) -> Map<u128, AgentLiveState> {
        self.entries@
    }
}

/// What an agent's runner publishes of it: everything but the outcome of its
/// last run.
pub open spec fn published(
    before: AgentLiveState,
    agent: Agent,
    metrics: AgentUsageMetrics,
    usage: AgentUsageSummary,
) -> AgentLiveState {
    AgentLiveState {
        status: agent.state.status,
        current_operation: agent.state.current_operation,
        last_outcome: before.last_outcome,
        last_error: agent.state.last_error,
        usage,
        total_requests: metrics.total_requests,
        total_cost_usd: metrics.total_cost,
    }
}

impl LiveStateTable {
    /// The live state of an agent; that of an unknown agent is the default.
    pub open spec fn state_of(&self, agent: AgentId) -> AgentLiveState {
        if self@.contains_key(agent.0) {
            self@[agent.0]
        } else {
            unknown_live_state()
        }
    }

    /// No agent is known.
    pub fn new() -> (r: Self)
        ensures
            r@ == Map::<u128, AgentLiveState>::empty(),
    {
        LiveStateTable { entries: HashMap::new() }
    }

    /// The live state of an agent; that of an unknown agent is the default.
    pub fn get(&self, agent: AgentId) -> (r: AgentLiveState)
        ensures
            r == self.state_of(agent),
    {
        match self.entries.get(&agent.0) {
            Some(state) => state.clone(),
            None => AgentLiveState::default(),
        }
    }

    /// Sets the live state of an agent.
    pub fn set(&mut self, agent: AgentId, state: AgentLiveState)
        ensures
            final(self)@ == old(self)@.insert(agent.0, state),
    {
        self.entries.insert(agent.0, state);
    }

    /// Publishes an agent's status, operation, error and usage after a
    /// transition. The outcome of its last run stays.
    pub fn publish_status(
        &mut self,
        agent: &Agent,
        metrics: AgentUsageMetrics,
        usage: AgentUsageSummary,
    )
        ensures
            final(self)@ == old(self)@.insert(
                agent.id.0,
                published(old(self).state_of(agent.id), *agent, metrics, usage),
            ),
    {
        let before = self.get(agent.id);
        self.set(
            agent.id,
            AgentLiveState {
                status: agent.state.status,
                current_operation: clone_opt(&agent.state.current_operation),
                last_outcome: before.last_outcome,
                last_error: clone_opt_error(&agent.state.last_error),
                usage,
                total_requests: metrics.total_requests,
                total_cost_usd: metrics.total_cost,
            },
        );
    }

    /// Forgets how an agent's last run ended. Everything else stays.
    pub fn clear_outcome(&mut self, agent: AgentId)
        ensures
            final(self)@ == old(self)@.insert(
                agent.0,
                (AgentLiveState { last_outcome: None, ..old(self).state_of(agent) }),
            ),
    {
        let mut state = self.get(agent);
        state.last_outcome = None;
        self.set(agent, state);
    }

    /// Publishes how an agent's run ended. Everything else stays.
    pub fn publish_outcome(&mut self, agent: AgentId, outcome: AgentOutcome)
        ensures
            final(self)@ == old(self)@.insert(
                agent.0,
                (AgentLiveState { last_outcome: Some(outcome), ..old(self).state_of(agent) }),
            ),
    {
        let mut state = self.get(agent);
        state.last_outcome = Some(outcome);
        self.set(agent, state);
    }
}

} // verus!
