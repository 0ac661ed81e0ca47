//! Hierarchical supervision and child-agent spawning for one session.

use std::collections::HashMap;

use tokio_util::sync::CancellationToken;
use vstd::prelude::*;

use crate::agent::{
    Agent, AgentCapabilities, AgentError, AgentResult, AgentStatus, AgentUsageSummary,
    BackendBinding, BackendDescriptor, BackendReference,
};
use crate::budget::{check_child_budget, AgentBudget, BudgetError, BudgetField};
use crate::cancellation::SessionCancellation;
use crate::ids::{AgentId, EventId, SessionId};
use crate::integration::IntegrationError;
use crate::outside::{cancel_token, child_token, clone_token};
use crate::protocol::{
    AgentCommand, AgentEvent, AgentEventEnvelope, BackendPolicy, EventVisibility, SpawnAgentSpec,
    SpawnMode,
};
use crate::text::{concat3, concat2};

verus! {

broadcast use vstd::std_specs::hash::group_hash_axioms;

/// What the supervisor keeps of a live child.
pub struct AgentHandle {
    pub parent_id: Option<AgentId>,
    pub depth: u32,
    pub cancel: CancellationToken,
}

/// The result of spawning, by spawn mode.
#[derive(Debug)]
pub enum SpawnOutcome {
    /// The child was awaited and handed back its result.
    Awaited(AgentResult),
    /// The child runs on its own.
    Detached(AgentId),
}

/// Why a child could not be spawned or awaited. Errors of the capability
/// rules and of the workspace are kept as text.
#[derive(Debug)]
pub enum SupervisorError {
    Budget(BudgetError),
    Capability(String),
    Integration(IntegrationError),
    Workspace(String),
    ParentNotFound(AgentId),
    SpawnNotAllowed(AgentId),
    BudgetEscalation(BudgetField),
    ChildResultLost(AgentId),
    /// The session runs as many agents as it may, and none of them ended while
    /// the spawn waited.
    AgentLimit(usize),
}

impl SupervisorError {
    /// The message shown to a caller; `subject` is how the budget error, the
    /// limit or the identifier of the agent that the error is about is printed.
    pub open spec fn message_view(self, subject: Seq<char>) -> Seq<char> {
        match self {
            SupervisorError::Budget(_) => "budget: "@ + subject,
            SupervisorError::Capability(error) => "capability: "@ + error@,
            SupervisorError::Integration(error) => "integration: "@ + error.message_view(),
            SupervisorError::Workspace(error) => "workspace: "@ + error@,
            SupervisorError::ParentNotFound(_) => "parent agent not found: "@ + subject,
            SupervisorError::SpawnNotAllowed(_) => "agent "@ + subject
                + " is not allowed to spawn children"@,
            SupervisorError::BudgetEscalation(field) => "child budget is looser than its parent for "@
                + field.name_view(),
            SupervisorError::ChildResultLost(_) => "child "@ + subject
                + " finished without producing a result"@,
            SupervisorError::AgentLimit(_) => "session already runs its maximum of "@ + subject
                + " agents"@,
        }
    }

    /// The message shown to a caller; `subject` is how the budget error, the
    /// limit or the identifier of the agent that the error is about is printed.
    pub fn message(&self, subject: &str) -> (r: String)
        ensures
            r@ == self.message_view(subject@),
    {
        match self {
            SupervisorError::Budget(_) => concat2("budget: ", subject),
            SupervisorError::Capability(error) => concat2("capability: ", error.as_str()),
            SupervisorError::Integration(error) => concat2(
                "integration: ",
                error.message().as_str(),
            ),
            SupervisorError::Workspace(error) => concat2("workspace: ", error.as_str()),
            SupervisorError::ParentNotFound(_) => concat2("parent agent not found: ", subject),
            SupervisorError::SpawnNotAllowed(_) => concat3(
                "agent ",
                subject,
                " is not allowed to spawn children",
            ),
            SupervisorError::BudgetEscalation(field) => concat2(
                "child budget is looser than its parent for ",
                field.name(),
            ),
            SupervisorError::ChildResultLost(_) => concat3(
                "child ",
                subject,
                " finished without producing a result",
            ),
            SupervisorError::AgentLimit(_) => concat3(
                "session already runs its maximum of ",
                subject,
                " agents",
            ),
        }
    }
}

/// How far the work outside this library got for a child that passed the
/// gate: the backend is made or inherited first, then the capabilities are
/// derived, then the workspace is prepared. `W` is a handle on a workspace.
pub enum SpawnWork<W> {
    /// The backend could not be made.
    BackendFailed(IntegrationError),
    /// The requested tools may not be passed on.
    CapabilitiesRefused(String),
    /// The workspace could not be prepared.
    WorkspaceFailed(String),
    /// Everything is ready under a fresh identifier.
    Ready {
        child_id: AgentId,
        descriptor: BackendDescriptor,
        capabilities: AgentCapabilities,
        workspace: W,
    },
}

/// What a spawn request does next.
#[derive(Debug)]
pub enum SpawnAdmission {
    /// Go ahead.
    Ready,
    /// Wait for an agent of the session to end, and ask again.
    Wait,
    /// Give up.
    Refused(SupervisorError),
}

/// A child that was spawned and registered, and waits to be started.
pub struct SpawnedChild {
    /// The child itself.
    pub agent: Agent,
    /// The child's own token.
    pub cancel: CancellationToken,
    /// Whether the child deregisters itself when it ends.
    pub detached: bool,
    /// The event that tells observers about the child.
    pub announcement: AgentEventEnvelope,
}

/// Checks that a child's budget is no looser than its parent's.
pub fn validate_child_budget(parent: &AgentBudget, child: &AgentBudget) -> (r: Result<
    (),
    SupervisorError,
>)
    requires
        parent.valid(),
        child.valid(),
    ensures
        match r {
            Ok(_) => child.within(*parent),
            Err(error) => error matches SupervisorError::BudgetEscalation(field)
                && child.first_looser(*parent, field),
        },
{
    match check_child_budget(parent, child) {
        Ok(_) => Ok(()),
        Err(field) => Err(SupervisorError::BudgetEscalation(field)),
    }
}

/// The reference of the backend that a child runs on.
pub open spec fn child_reference(policy: BackendPolicy, parent: BackendReference) -> BackendReference {
    match policy {
        BackendPolicy::Inherit => parent,
        BackendPolicy::Explicit(reference) => reference,
    }
}

/// Whether `token` is below `source` and below everything that `source` is
/// below.
pub open spec fn below(token: CancellationToken, source: CancellationToken) -> bool {
    &&& crate::outside::descends(token, source)
    &&& forall|ancestor: CancellationToken| #[trigger]
        crate::outside::descends(source, ancestor) ==> crate::outside::descends(token, ancestor)
}

/// Supervises the agents of one session. `W` is a handle on a workspace.
pub struct AgentSupervisor<W> {
    session_id: SessionId,
    session_cancel: SessionCancellation,
    agent_limit: Option<usize>,
    agents: HashMap<u128, AgentHandle>,
    children_of: HashMap<u128, Vec<AgentId>>,
    child_capabilities: HashMap<u128, AgentCapabilities>,
    child_workspaces: HashMap<u128, W>,
    agent_tokens: HashMap<u128, CancellationToken>,
}

impl<W> AgentSupervisor<W> {
    /// The session.
    pub closed spec fn session(&self) -> SessionId {
        self.session_id
    }

    /// The root of the session's cancellation.
    pub closed spec fn session_cancel(&self) -> SessionCancellation {
        self.session_cancel
    }

    /// How many agents the session may run at once; no limit where it is
    /// `None`.
    pub closed spec fn agent_limit(&self) -> Option<usize> {
        self.agent_limit
    }

    /// The live children.
    pub closed spec fn agents(&self) -> Map<u128, AgentHandle> {
        self.agents@
    }

    /// The live children of `parent`, oldest first.
    pub closed spec fn children(&self, parent: AgentId) -> Seq<AgentId> {
        if self.children_of@.contains_key(parent.0) {
            self.children_of@[parent.0]@
        } else {
            Seq::empty()
        }
    }

    /// The capabilities that children were spawned with.
    pub closed spec fn capabilities(&self) -> Map<u128, AgentCapabilities> {
        self.child_capabilities@
    }

    /// The workspaces that children were spawned with.
    pub closed spec fn workspaces(&self) -> Map<u128, W> {
        self.child_workspaces@
    }

    /// The tokens of the agents that run, the session's root among them, from
    /// which children derive theirs.
    pub closed spec fn tokens(&self) -> Map<u128, CancellationToken> {
        self.agent_tokens@
    }

    /// The list of an agent's children holds exactly the live agents whose
    /// parent it is, each once.
    pub open spec fn wf(&self) -> bool {
        &&& forall|parent: AgentId, i: int|
            0 <= i < self.children(parent).len() ==> {
                let child = #[trigger] self.children(parent)[i];
                self.agents().contains_key(child.0) && self.agents()[child.0].parent_id == Some(
                    parent,
                )
            }
        &&& forall|id: u128| #[trigger]
            self.agents().contains_key(id) ==> (self.agents()[id].parent_id matches Some(parent)
                ==> self.children(parent).contains(AgentId(id)))
        &&& forall|parent: AgentId| #[trigger] self.children(parent).no_duplicates()
    }

    /// Every agent's token is cancelled together with the session.
    pub open spec fn governed(&self) -> bool {
        forall|id: u128| #[trigger]
            self.tokens().contains_key(id) ==> self.session_cancel().governs(self.tokens()[id])
    }

    /// Everything but the live children and their lists is as in `other`.
    pub open spec fn same_but_children(&self, other: &Self) -> bool {
        &&& self.session() == other.session()
        &&& self.session_cancel() == other.session_cancel()
        &&& self.agent_limit() == other.agent_limit()
        &&& self.capabilities() == other.capabilities()
        &&& self.workspaces() == other.workspaces()
    }

    /// Whether the session runs as many agents as it may.
    pub open spec fn is_full(&self) -> bool {
        match self.agent_limit() {
            Some(max) => self.tokens().dom().len() >= max,
            None => false,
        }
    }

    /// The answer to a spawn request before any work is done for it.
    pub open spec fn gate(&self, parent: Agent, child_budget: AgentBudget) -> Option<
        SupervisorError,
    > {
        let full = parent.budget.another_child(
            self.children(parent.id).len(),
            parent.state.depth,
        );
        if !parent.capabilities.can_spawn_agents {
            Some(SupervisorError::SpawnNotAllowed(parent.id))
        } else if full is Some {
            Some(SupervisorError::Budget(full->0))
        } else if !child_budget.within(parent.budget) {
            Some(
                SupervisorError::BudgetEscalation(
                    choose|field: BudgetField| child_budget.first_looser(parent.budget, field),
                ),
            )
        } else if self.is_full() {
            Some(SupervisorError::AgentLimit(self.agent_limit()->0))
        } else {
            None
        }
    }

    /// No agent is supervised yet, and any number may be.
    pub fn new(session_id: SessionId, session_cancel: SessionCancellation) -> (r: Self)
        ensures
            r.wf(),
            r.session() == session_id,
            r.session_cancel() == session_cancel,
            r.agent_limit() is None,
            r.agents() == Map::<u128, AgentHandle>::empty(),
            forall|parent: AgentId| (#[trigger] r.children(parent)).len() == 0,
            r.capabilities() == Map::<u128, AgentCapabilities>::empty(),
            r.workspaces() == Map::<u128, W>::empty(),
            r.tokens() == Map::<u128, CancellationToken>::empty(),
            r.governed(),
    {
        AgentSupervisor {
            session_id,
            session_cancel,
            agent_limit: None,
            agents: HashMap::new(),
            children_of: HashMap::new(),
            child_capabilities: HashMap::new(),
            child_workspaces: HashMap::new(),
            agent_tokens: HashMap::new(),
        }
    }

    /// Limits how many agents the session may run at once. Beyond the limit
    /// no child is spawned; a spawn waits for a place with
    /// [`Self::spawn_admission`].
    pub fn with_agent_limit(self, max: usize) -> (r: Self)
        ensures
            r.agent_limit() == Some(max),
            r.session() == self.session(),
            r.session_cancel() == self.session_cancel(),
            r.agents() == self.agents(),
            forall|parent: AgentId| #[trigger] r.children(parent) == self.children(parent),
            r.capabilities() == self.capabilities(),
            r.workspaces() == self.workspaces(),
            r.tokens() == self.tokens(),
            self.wf() ==> r.wf(),
            self.governed() ==> r.governed(),
    {
        let mut r = self;
        r.agent_limit = Some(max);
        proof {
            assert forall|parent: AgentId| #[trigger] r.children(parent) == self.children(
                parent,
            ) by {}
            if self.wf() {
                cancelling_keeps_the_lists(&self, &r);
            }
            assert forall|id: u128| #[trigger]
                r.tokens().contains_key(id) implies self.tokens().contains_key(id) by {}
        }
        r
    }

    /// Registers the token of an agent that already exists, notably the
    /// session's root, so that its children derive theirs from it.
    pub fn register_agent_token(&mut self, agent_id: AgentId, token: CancellationToken)
        ensures
            final(self).tokens() == old(self).tokens().insert(agent_id.0, token),
            final(self).agents() == old(self).agents(),
            forall|parent: AgentId| #[trigger]
                final(self).children(parent) == old(self).children(parent),
            final(self).same_but_children(old(self)),
            old(self).wf() ==> final(self).wf(),
            old(self).governed() && old(self).session_cancel().governs(token)
                ==> final(self).governed(),
    {
        self.agent_tokens.insert(agent_id.0, token);
        proof {
            if old(self).wf() {
                cancelling_keeps_the_lists(old(self), self);
            }
            assert forall|id: u128| id != agent_id.0 && #[trigger]
                self.tokens().contains_key(id) implies old(self).tokens().contains_key(id)
                && self.tokens()[id] == old(self).tokens()[id] by {}
        }
    }

    /// The number of live children of `parent`.
    fn child_count(&self, parent: AgentId) -> (r: usize)
        ensures
            r == self.children(parent).len(),
    {
        match self.children_of.get(&parent.0) {
            Some(ids) => ids.len(),
            None => 0,
        }
    }

    /// Checks that the parent's budget leaves room for one more child.
    pub fn max_children_depth_check(
        &self,
        parent_id: AgentId,
        parent_depth: u32,
        parent_budget: &AgentBudget,
    ) -> (r: Result<(), SupervisorError>)
        ensures
            match parent_budget.another_child(self.children(parent_id).len(), parent_depth) {
                Some(error) => r == Err::<(), SupervisorError>(SupervisorError::Budget(error)),
                None => r == Ok::<(), SupervisorError>(()),
            },
    {
        let current: usize = self.child_count(parent_id);
        if let Err(error) = parent_budget.check_children(current) {
            return Err(SupervisorError::Budget(error));
        }
        if let Err(error) = parent_budget.check_depth(parent_depth) {
            return Err(SupervisorError::Budget(error));
        }
        Ok(())
    }

    /// Decides whether a parent may spawn a child with this budget, before
    /// any work is done for the child.
    pub fn check_spawn(&self, parent: &Agent, child_budget: &AgentBudget) -> (r: Result<
        (),
        SupervisorError,
    >)
        requires
            parent.budget.valid(),
            child_budget.valid(),
        ensures
            match self.gate(*parent, *child_budget) {
                Some(error) => r == Err::<(), SupervisorError>(error),
                None => r == Ok::<(), SupervisorError>(()),
            },
    {
        if !parent.capabilities.can_spawn_agents {
            return Err(SupervisorError::SpawnNotAllowed(parent.id));
        }
        match self.max_children_depth_check(parent.id, parent.state.depth, &parent.budget) {
            Ok(_) => {},
            Err(error) => {
                return Err(error);
            },
        }
        match validate_child_budget(&parent.budget, child_budget) {
            Ok(_) => {},
            Err(error) => {
                proof {
                    let field = error->BudgetEscalation_0;
                    let first = choose|f: BudgetField| child_budget.first_looser(parent.budget, f);
                    crate::budget::the_first_looser_limit_is_unique(
                        parent.budget,
                        *child_budget,
                        first,
                        field,
                    );
                }
                return Err(error);
            },
        }
        match self.agent_limit {
            Some(max) => {
                if self.agent_tokens.len() >= max {
                    return Err(SupervisorError::AgentLimit(max));
                }
            },
            None => {},
        }
        Ok(())
    }

    /// Decides what a spawn request does that has waited for `waited` so far.
    /// Only a full session makes it wait, and no longer than `timeout`: an
    /// agent that awaits its child keeps its own place meanwhile, so a wait
    /// without an end could be one for itself.
    pub fn spawn_admission(
        &self,
        parent: &Agent,
        child_budget: &AgentBudget,
        cancelled: bool,
        waited: u64,
        timeout: u64,
    ) -> (r: SpawnAdmission)
        requires
            parent.budget.valid(),
            child_budget.valid(),
        ensures
            match self.gate(*parent, *child_budget) {
                None => r == SpawnAdmission::Ready,
                Some(SupervisorError::AgentLimit(max)) => r == if !cancelled && waited < timeout {
                    SpawnAdmission::Wait
                } else {
                    SpawnAdmission::Refused(SupervisorError::AgentLimit(max))
                },
                Some(error) => r == SpawnAdmission::Refused(error),
            },
    {
        match self.check_spawn(parent, child_budget) {
            Ok(_) => SpawnAdmission::Ready,
            Err(SupervisorError::AgentLimit(max)) => {
                if !cancelled && waited < timeout {
                    SpawnAdmission::Wait
                } else {
                    SpawnAdmission::Refused(SupervisorError::AgentLimit(max))
                }
            },
            Err(error) => SpawnAdmission::Refused(error),
        }
    }

    /// Registers a live child.
    pub fn register(
        &mut self,
        parent_id: Option<AgentId>,
        child_id: AgentId,
        depth: u32,
        cancel: CancellationToken,
    )
        requires
            old(self).wf(),
            !old(self).agents().contains_key(child_id.0),
        ensures
            final(self).wf(),
            final(self).agents() == old(self).agents().insert(
                child_id.0,
                AgentHandle { parent_id, depth, cancel },
            ),
            forall|parent: AgentId| #[trigger]
                final(self).children(parent) == if parent_id == Some(parent) {
                    old(self).children(parent).push(child_id)
                } else {
                    old(self).children(parent)
                },
            final(self).tokens() == old(self).tokens(),
            final(self).same_but_children(old(self)),
    {
        self.agents.insert(child_id.0, AgentHandle { parent_id, depth, cancel });
        if let Some(parent) = parent_id {
            let ids: Vec<AgentId> = match self.children_of.remove(&parent.0) {
                Some(ids) => ids,
                None => Vec::new(),
            };
            let mut ids = ids;
            ids.push(child_id);
            self.children_of.insert(parent.0, ids);
        }
        proof {
            assert forall|parent: AgentId| #[trigger]
                self.children(parent) == if parent_id == Some(parent) {
                    old(self).children(parent).push(child_id)
                } else {
                    old(self).children(parent)
                } by {
                if let Some(p) = parent_id {
                    if p != parent {
                        assert(p.0 != parent.0);
                    }
                }
            }
            registration_keeps_the_lists(old(self), self, parent_id, child_id);
        }
    }

    /// Takes a child off its parent's list.
    fn unlist(&mut self, parent: AgentId, child_id: AgentId)
        ensures
            forall|p: AgentId| #[trigger]
                final(self).children(p) == if p == parent {
                    without(old(self).children(p), child_id)
                } else {
                    old(self).children(p)
                },
            final(self).agents() == old(self).agents(),
            final(self).tokens() == old(self).tokens(),
            final(self).same_but_children(old(self)),
    {
        match self.children_of.remove(&parent.0) {
            Some(ids) => {
                let kept = retain_others(&ids, child_id);
                self.children_of.insert(parent.0, kept);
            },
            None => {},
        }
        proof {
            assert forall|p: AgentId| #[trigger]
                self.children(p) == if p == parent {
                    without(old(self).children(p), child_id)
                } else {
                    old(self).children(p)
                } by {
                if p != parent {
                    assert(p.0 != parent.0);
                } else {
                    assert(without(Seq::<AgentId>::empty(), child_id) =~= Seq::empty());
                }
            }
        }
    }

    /// Takes a live child out of the bookkeeping, where it is still there.
    fn remove_child(&mut self, child_id: AgentId) -> (r: Option<AgentHandle>)
        requires
            old(self).wf(),
        ensures
            final(self).wf(),
            match r {
                Some(handle) => old(self).agents().contains_key(child_id.0) && handle == old(
                    self,
                ).agents()[child_id.0],
                None => !old(self).agents().contains_key(child_id.0),
            },
            final(self).agents() == old(self).agents().remove(child_id.0),
            forall|p: AgentId| #[trigger]
                final(self).children(p) == without(old(self).children(p), child_id),
            final(self).tokens() == old(self).tokens(),
            final(self).same_but_children(old(self)),
    {
        let removed = self.agents.remove(&child_id.0);
        match removed {
            Some(handle) => {
                if let Some(parent) = handle.parent_id {
                    self.unlist(parent, child_id);
                }
                proof {
                    removal_keeps_the_lists(old(self), self, child_id);
                }
                Some(handle)
            },
            None => {
                proof {
                    removal_keeps_the_lists(old(self), self, child_id);
                }
                None
            },
        }
    }

    /// Takes a child that ended out of the bookkeeping, together with its
    /// token. Deregistering a child that is not there does nothing else.
    pub fn deregister(&mut self, child_id: AgentId)
        requires
            old(self).wf(),
        ensures
            final(self).wf(),
            final(self).agents() == old(self).agents().remove(child_id.0),
            forall|p: AgentId| #[trigger]
                final(self).children(p) == without(old(self).children(p), child_id),
            final(self).tokens() == old(self).tokens().remove(child_id.0),
            final(self).same_but_children(old(self)),
            old(self).governed() ==> final(self).governed(),
    {
        let _ = self.remove_child(child_id);
        let ghost mid = *self;
        let _ = self.agent_tokens.remove(&child_id.0);
        proof {
            assert forall|p: AgentId| #[trigger] self.children(p) == mid.children(p) by {}
            cancelling_keeps_the_lists(&mid, self);
        }
    }

    /// Starts to await a child: it leaves the bookkeeping at once, while its
    /// token stays until it ended.
    pub fn begin_await(&mut self, child_id: AgentId) -> (r: Result<AgentHandle, SupervisorError>)
        requires
            old(self).wf(),
        ensures
            final(self).wf(),
            if old(self).agents().contains_key(child_id.0) {
                r == Ok::<AgentHandle, SupervisorError>(old(self).agents()[child_id.0])
            } else {
                r == Err::<AgentHandle, SupervisorError>(
                    SupervisorError::ChildResultLost(child_id),
                )
            },
            final(self).agents() == old(self).agents().remove(child_id.0),
            forall|p: AgentId| #[trigger]
                final(self).children(p) == without(old(self).children(p), child_id),
            final(self).tokens() == old(self).tokens(),
            final(self).same_but_children(old(self)),
    {
        match self.remove_child(child_id) {
            Some(handle) => Ok(handle),
            None => Err(SupervisorError::ChildResultLost(child_id)),
        }
    }

    /// Ends the wait for a child: its token goes, and the result it left is
    /// handed on, if it left one.
    pub fn end_await(&mut self, child_id: AgentId, left: Option<AgentResult>) -> (r: Result<
        AgentResult,
        SupervisorError,
    >)
        ensures
            match left {
                Some(result) => r == Ok::<AgentResult, SupervisorError>(result),
                None => r == Err::<AgentResult, SupervisorError>(
                    SupervisorError::ChildResultLost(child_id),
                ),
            },
            final(self).tokens() == old(self).tokens().remove(child_id.0),
            final(self).agents() == old(self).agents(),
            forall|p: AgentId| #[trigger] final(self).children(p) == old(self).children(p),
            final(self).same_but_children(old(self)),
            old(self).wf() ==> final(self).wf(),
            old(self).governed() ==> final(self).governed(),
    {
        let _ = self.agent_tokens.remove(&child_id.0);
        proof {
            assert forall|p: AgentId| #[trigger] self.children(p) == old(self).children(p) by {}
            if old(self).wf() {
                cancelling_keeps_the_lists(old(self), self);
            }
            assert forall|id: u128| #[trigger] self.tokens().contains_key(id) implies old(
                self,
            ).tokens().contains_key(id) && self.tokens()[id] == old(self).tokens()[id] by {}
        }
        match left {
            Some(result) => Ok(result),
            None => Err(SupervisorError::ChildResultLost(child_id)),
        }
    }

    /// The capabilities that a child was spawned with.
    pub fn child_capabilities(&self, child_id: AgentId) -> (r: Option<&AgentCapabilities>)
        ensures
            match r {
                Some(c) => self.capabilities().contains_key(child_id.0)
                    && self.capabilities()[child_id.0] == *c,
                None => !self.capabilities().contains_key(child_id.0),
            },
    {
        self.child_capabilities.get(&child_id.0)
    }

    /// The workspace that a child was spawned with.
    pub fn child_workspace(&self, child_id: AgentId) -> (r: Option<&W>)
        ensures
            match r {
                Some(w) => self.workspaces().contains_key(child_id.0)
                    && self.workspaces()[child_id.0] == *w,
                None => !self.workspaces().contains_key(child_id.0),
            },
    {
        self.child_workspaces.get(&child_id.0)
    }

    /// Tells whether a child is live.
    pub fn is_live(&self, child_id: AgentId) -> (r: bool)
        ensures
            r == self.agents().contains_key(child_id.0),
    {
        self.agents.contains_key(&child_id.0)
    }

    /// Cancels one child's subtree. The child stays registered, and nothing
    /// else changes.
    pub fn cancel_child(&mut self, child_id: AgentId) -> (r: Result<(), SupervisorError>)
        requires
            old(self).wf(),
        ensures
            final(self).wf(),
            final(self).agents().dom() == old(self).agents().dom(),
            forall|id: u128|
                old(self).agents().contains_key(id) && id != child_id.0
                    ==> #[trigger] final(self).agents()[id] == old(self).agents()[id],
            forall|p: AgentId| #[trigger] final(self).children(p) == old(self).children(p),
            final(self).tokens() == old(self).tokens(),
            final(self).same_but_children(old(self)),
            if old(self).agents().contains_key(child_id.0) {
                let before = old(self).agents()[child_id.0];
                let after = final(self).agents()[child_id.0];
                &&& r == Ok::<(), SupervisorError>(())
                &&& after.parent_id == before.parent_id
                &&& after.depth == before.depth
                &&& crate::outside::known_cancelled(after.cancel)
                &&& crate::outside::covers(after.cancel, before.cancel)
            } else {
                r == Err::<(), SupervisorError>(SupervisorError::ChildResultLost(child_id))
            },
    {
        match self.agents.remove(&child_id.0) {
            Some(handle) => {
                let mut handle = handle;
                cancel_token(&mut handle.cancel);
                self.agents.insert(child_id.0, handle);
                assert(self.agents().dom() =~= old(self).agents().dom());
                proof {
                    cancelling_keeps_the_lists(old(self), self);
                }
                Ok(())
            },
            None => {
                assert(self.agents() =~= old(self).agents());
                proof {
                    cancelling_keeps_the_lists(old(self), self);
                }
                Err(SupervisorError::ChildResultLost(child_id))
            },
        }
    }

    /// The token from which the children of `parent` derive theirs: its own,
    /// or the session's root where it was never registered.
    pub open spec fn token_source(&self, parent: AgentId) -> CancellationToken {
        if self.tokens().contains_key(parent.0) {
            self.tokens()[parent.0]
        } else {
            self.session_cancel().root()
        }
    }

    /// Derives a child token for a child of `parent`.
    fn derive_token(&self, parent: AgentId) -> (r: CancellationToken)
        ensures
            crate::outside::descends(r, r),
            crate::outside::descends(r, self.token_source(parent)),
            forall|ancestor: CancellationToken| #[trigger]
                crate::outside::descends(self.token_source(parent), ancestor)
                    ==> crate::outside::descends(r, ancestor),
            crate::outside::known_cancelled(r) <==> crate::outside::known_cancelled(
                self.token_source(parent),
            ),
    {
        match self.agent_tokens.get(&parent.0) {
            Some(token) => child_token(token),
            None => self.session_cancel.child_token(),
        }
    }

    /// Spawns a child: gate, backend, capabilities, workspace, cancellation,
    /// construction, registration and announcement, in that order. The first
    /// step that fails decides the error, and then nothing has changed.
    ///
    /// The returned child is registered; its task may be started from then on.
    pub fn spawn_child(
        &mut self,
        parent: &Agent,
        spec: SpawnAgentSpec,
        work: SpawnWork<W>,
        event_id: EventId,
        now: u64,
    ) -> (r: Result<SpawnedChild, SupervisorError>)
        requires
            old(self).wf(),
            parent.budget.valid(),
            spec.budget.valid(),
            parent.state.depth < u32::MAX,
            work matches SpawnWork::Ready { child_id, .. } ==> !old(self).agents().contains_key(
                child_id.0,
            ),
        ensures
            final(self).wf(),
            old(self).governed() ==> final(self).governed(),
            match (old(self).gate(*parent, spec.budget), work) {
                (Some(error), _) => {
                    &&& r == Err::<SpawnedChild, SupervisorError>(error)
                    &&& *final(self) == *old(self)
                },
                (None, SpawnWork::BackendFailed(error)) => {
                    &&& r == Err::<SpawnedChild, SupervisorError>(SupervisorError::Integration(error))
                    &&& *final(self) == *old(self)
                },
                (None, SpawnWork::CapabilitiesRefused(error)) => {
                    &&& r == Err::<SpawnedChild, SupervisorError>(SupervisorError::Capability(error))
                    &&& *final(self) == *old(self)
                },
                (None, SpawnWork::WorkspaceFailed(error)) => {
                    &&& r == Err::<SpawnedChild, SupervisorError>(SupervisorError::Workspace(error))
                    &&& *final(self) == *old(self)
                },
                (None, SpawnWork::Ready { child_id, descriptor, capabilities, workspace }) => {
                    &&& r matches Ok(child)
                    &&& is_child_of(child.agent, *parent, spec)
                    &&& child.agent.id == child_id
                    &&& child.agent.backend.descriptor == descriptor
                    &&& child.agent.capabilities == capabilities
                    &&& child.detached == (spec.mode == SpawnMode::Concurrent)
                    &&& announces(child.announcement, *parent, child_id, event_id, now)
                    &&& final(self).agents().dom() == old(self).agents().dom().insert(child_id.0)
                    &&& final(self).agents()[child_id.0].parent_id == Some(parent.id)
                    &&& final(self).agents()[child_id.0].depth == parent.state.depth + 1
                    &&& forall|id: u128|
                        old(self).agents().contains_key(id) ==> #[trigger] final(self).agents()[id]
                            == old(self).agents()[id]
                    &&& forall|p: AgentId| #[trigger]
                        final(self).children(p) == if p == parent.id {
                            old(self).children(p).push(child_id)
                        } else {
                            old(self).children(p)
                        }
                    &&& final(self).capabilities().dom() == old(self).capabilities().dom().insert(
                        child_id.0,
                    )
                    &&& final(self).capabilities()[child_id.0].same_as(capabilities)
                    &&& forall|id: u128|
                        id != child_id.0 && old(self).capabilities().contains_key(id)
                            ==> #[trigger] final(self).capabilities()[id]
                            == old(self).capabilities()[id]
                    &&& final(self).workspaces() == old(self).workspaces().insert(
                        child_id.0,
                        workspace,
                    )
                    &&& final(self).tokens().dom() == old(self).tokens().dom().insert(child_id.0)
                    &&& forall|id: u128|
                        id != child_id.0 && old(self).tokens().contains_key(id)
                            ==> #[trigger] final(self).tokens()[id] == old(self).tokens()[id]
                    &&& final(self).session() == old(self).session()
                    &&& final(self).session_cancel() == old(self).session_cancel()
                    &&& final(self).agent_limit() == old(self).agent_limit()
                    &&& below(child.cancel, old(self).token_source(parent.id))
                    &&& below(
                        final(self).tokens()[child_id.0],
                        old(self).token_source(parent.id),
                    )
                    &&& crate::outside::covers(
                        final(self).agents()[child_id.0].cancel,
                        child.cancel,
                    )
                    &&& crate::outside::descends(
                        child.cancel,
                        final(self).agents()[child_id.0].cancel,
                    )
                    &&& crate::outside::descends(
                        final(self).tokens()[child_id.0],
                        final(self).agents()[child_id.0].cancel,
                    )
                    &&& crate::outside::known_cancelled(child.cancel)
                        <==> crate::outside::known_cancelled(old(self).token_source(parent.id))
                    &&& crate::outside::known_cancelled(final(self).agents()[child_id.0].cancel)
                        <==> crate::outside::known_cancelled(old(self).token_source(parent.id))
                    &&& crate::outside::known_cancelled(final(self).tokens()[child_id.0])
                        <==> crate::outside::known_cancelled(old(self).token_source(parent.id))
                },
            },
    {
        match self.check_spawn(parent, &spec.budget) {
            Ok(_) => {},
            Err(error) => {
                return Err(error);
            },
        }
        let (child_id, descriptor, capabilities, workspace) = match work {
            SpawnWork::BackendFailed(error) => {
                return Err(SupervisorError::Integration(error));
            },
            SpawnWork::CapabilitiesRefused(error) => {
                return Err(SupervisorError::Capability(error));
            },
            SpawnWork::WorkspaceFailed(error) => {
                return Err(SupervisorError::Workspace(error));
            },
            SpawnWork::Ready { child_id, descriptor, capabilities, workspace } => (
                child_id,
                descriptor,
                capabilities,
                workspace,
            ),
        };
        let cancel = self.derive_token(parent.id);
        let depth: u32 = parent.state.depth + 1;
        let reference = match spec.backend {
            BackendPolicy::Inherit => parent.backend.reference.clone(),
            BackendPolicy::Explicit(reference) => reference,
        };
        let system_prompt = match spec.role {
            Some(role) => role,
            None => String::new(),
        };
        self.register(Some(parent.id), child_id, depth, clone_token(&cancel));
        let ghost mid = *self;
        self.child_capabilities.insert(child_id.0, capabilities.clone());
        self.child_workspaces.insert(child_id.0, workspace);
        self.agent_tokens.insert(child_id.0, clone_token(&cancel));
        proof {
            assert forall|p: AgentId| #[trigger] self.children(p) == mid.children(p) by {}
            cancelling_keeps_the_lists(&mid, self);
            if old(self).governed() {
                let source = old(self).token_source(parent.id);
                assert(crate::outside::descends(self.tokens()[child_id.0], source));
                assert forall|id: u128| #[trigger]
                    self.tokens().contains_key(id) implies self.session_cancel().governs(
                    self.tokens()[id],
                ) by {
                    if id != child_id.0 {
                        assert(old(self).tokens().contains_key(id));
                    } else if old(self).tokens().contains_key(parent.id.0) {
                        assert(old(self).session_cancel().governs(source));
                    }
                }
            }
        }
        let mut agent = Agent::new(
            child_id,
            parent.session_id,
            Some(parent.id),
            depth,
            system_prompt,
            BackendBinding { reference, descriptor },
            capabilities,
            spec.budget,
        );
        agent.state.execution_params = spec.execution_params;
        let detached = match spec.mode {
            SpawnMode::Concurrent => true,
            SpawnMode::AwaitResult => false,
        };
        let announcement = AgentEventEnvelope {
            event_id,
            session_id: parent.session_id,
            agent_id: parent.id,
            parent_agent_id: parent.parent_id,
            run_id: None,
            agent_sequence: 0,
            session_sequence: None,
            timestamp: now,
            visibility: EventVisibility::User,
            event: AgentEvent::ChildAgentSpawned { agent_id: child_id },
        };
        Ok(SpawnedChild { agent, cancel, detached, announcement })
    }
}

/// `ids` without `id`.
pub open spec fn without(ids: Seq<AgentId>, id: AgentId) -> Seq<AgentId> {
    ids.filter(|other: AgentId| other != id)
}

/// Keeps every identifier but `id`.
fn retain_others(ids: &Vec<AgentId>, id: AgentId) -> (r: Vec<AgentId>)
    ensures
        r@ == without(ids@, id),
{
    let mut kept: Vec<AgentId> = Vec::new();
    let mut i: usize = 0;
    assert(without(ids@.take(0), id) =~= Seq::empty()) by {
        reveal(Seq::filter);
    }
    while i < ids.len()
        invariant
            i <= ids@.len(),
            kept@ == without(ids@.take(i as int), id),
        decreases ids@.len() - i,
    {
        proof {
            reveal(Seq::filter);
            assert(ids@.take(i + 1).drop_last() =~= ids@.take(i as int));
            assert(ids@.take(i + 1).last() == ids@[i as int]);
        }
        if ids[i] != id {
            kept.push(ids[i]);
        }
        i = i + 1;
    }
    assert(ids@.take(ids@.len() as int) =~= ids@);
    kept
}

/// What is left without an identifier: exactly the others.
proof fn without_holds_the_others(ids: Seq<AgentId>, id: AgentId)
    ensures
        forall|other: AgentId| #[trigger]
            without(ids, id).contains(other) <==> ids.contains(other) && other != id,
        ids.no_duplicates() ==> without(ids, id).no_duplicates(),
        !ids.contains(id) ==> without(ids, id) == ids,
    decreases ids.len(),
{
    reveal(Seq::filter);
    let keep = |other: AgentId| other != id;
    if ids.len() > 0 {
        let rest = ids.drop_last();
        without_holds_the_others(rest, id);
        assert(ids == rest.push(ids.last()));
        assert forall|other: AgentId| #[trigger] without(ids, id).contains(other) <==> ids.contains(
            other,
        ) && other != id by {
            if ids.last() != id {
                assert(without(ids, id) == without(rest, id).push(ids.last()));
                if without(ids, id).contains(other) {
                    let k = choose|k: int|
                        0 <= k < without(ids, id).len() && without(ids, id)[k] == other;
                    if k < without(rest, id).len() {
                        assert(without(rest, id).contains(other));
                        let m = choose|m: int| 0 <= m < rest.len() && rest[m] == other;
                        assert(ids[m] == other);
                    } else {
                        assert(ids[ids.len() - 1] == other);
                    }
                }
                if ids.contains(other) && other != id {
                    let m = choose|m: int| 0 <= m < ids.len() && ids[m] == other;
                    if m < rest.len() {
                        assert(rest[m] == other);
                        assert(without(rest, id).contains(other));
                        let k = choose|k: int|
                            0 <= k < without(rest, id).len() && without(rest, id)[k] == other;
                        assert(without(ids, id)[k] == other);
                    } else {
                        assert(without(ids, id)[without(rest, id).len() as int] == other);
                    }
                }
            } else {
                assert(without(ids, id) == without(rest, id));
                if ids.contains(other) && other != id {
                    let m = choose|m: int| 0 <= m < ids.len() && ids[m] == other;
                    assert(rest[m] == other);
                }
                if rest.contains(other) {
                    let m = choose|m: int| 0 <= m < rest.len() && rest[m] == other;
                    assert(ids[m] == other);
                }
            }
        }
        if ids.no_duplicates() {
            assert(rest.no_duplicates());
            if ids.last() != id {
                assert(!without(rest, id).contains(ids.last())) by {
                    if rest.contains(ids.last()) {
                        let m = choose|m: int| 0 <= m < rest.len() && rest[m] == ids.last();
                        assert(ids[m] == ids[ids.len() - 1]);
                    }
                }
                let w = without(rest, id);
                assert forall|a: int, b: int|
                    0 <= a < w.push(ids.last()).len() && 0 <= b < w.push(ids.last()).len() && a
                        != b implies w.push(ids.last())[a] != w.push(ids.last())[b] by {
                    if a == w.len() {
                        assert(w.contains(w[b]));
                    }
                    if b == w.len() {
                        assert(w.contains(w[a]));
                    }
                }
            }
        }
        if !ids.contains(id) {
            assert(ids.last() != id) by {
                assert(ids[ids.len() - 1] == ids.last());
            }
            assert(!rest.contains(id)) by {
                if rest.contains(id) {
                    let m = choose|m: int| 0 <= m < rest.len() && rest[m] == id;
                    assert(ids[m] == id);
                }
            }
        }
    } else {
        assert(without(ids, id) =~= ids);
    }
}

proof fn registration_keeps_the_lists<W>(
    before: &AgentSupervisor<W>,
    after: &AgentSupervisor<W>,
    parent_id: Option<AgentId>,
    child_id: AgentId,
)
    requires
        before.wf(),
        !before.agents().contains_key(child_id.0),
        after.agents().dom() == before.agents().dom().insert(child_id.0),
        after.agents()[child_id.0].parent_id == parent_id,
        forall|id: u128|
            before.agents().contains_key(id) ==> #[trigger] after.agents()[id]
                == before.agents()[id],
        forall|parent: AgentId| #[trigger]
            after.children(parent) == if parent_id == Some(parent) {
                before.children(parent).push(child_id)
            } else {
                before.children(parent)
            },
    ensures
        after.wf(),
{
    assert forall|parent: AgentId, i: int| 0 <= i < after.children(parent).len() implies {
        let child = #[trigger] after.children(parent)[i];
        after.agents().contains_key(child.0) && after.agents()[child.0].parent_id == Some(parent)
    } by {
        if i < before.children(parent).len() {
            assert(after.children(parent)[i] == before.children(parent)[i]);
        }
    }
    assert forall|id: u128| #[trigger] after.agents().contains_key(id) implies (
    after.agents()[id].parent_id matches Some(parent) ==> after.children(parent).contains(
        AgentId(id),
    )) by {
        if let Some(parent) = after.agents()[id].parent_id {
            if id == child_id.0 {
                assert(after.children(parent).last() == child_id);
                assert(after.children(parent)[after.children(parent).len() - 1] == AgentId(id));
            } else {
                assert(before.agents().contains_key(id));
                assert(before.children(parent).contains(AgentId(id)));
                let k = choose|k: int|
                    0 <= k < before.children(parent).len() && before.children(parent)[k] == AgentId(
                        id,
                    );
                assert(after.children(parent)[k] == AgentId(id));
            }
        }
    }
    assert forall|parent: AgentId| #[trigger] after.children(parent).no_duplicates() by {
        assert(before.children(parent).no_duplicates());
        if parent_id == Some(parent) {
            assert forall|i: int| 0 <= i < before.children(parent).len() implies (
            #[trigger] before.children(parent)[i]) != child_id by {
                assert(before.agents().contains_key(before.children(parent)[i].0));
            }
        }
    }
}

proof fn removal_keeps_the_lists<W>(
    before: &AgentSupervisor<W>,
    after: &AgentSupervisor<W>,
    child_id: AgentId,
)
    requires
        before.wf(),
        after.agents() == before.agents().remove(child_id.0),
        forall|p: AgentId| #[trigger]
            after.children(p) == if before.agents().contains_key(child_id.0)
                && before.agents()[child_id.0].parent_id == Some(p) {
                without(before.children(p), child_id)
            } else {
                before.children(p)
            },
    ensures
        after.wf(),
        forall|p: AgentId| #[trigger] after.children(p) == without(before.children(p), child_id),
{
    assert forall|p: AgentId| #[trigger] after.children(p) == without(
        before.children(p),
        child_id,
    ) by {
        without_holds_the_others(before.children(p), child_id);
        if !(before.agents().contains_key(child_id.0) && before.agents()[child_id.0].parent_id
            == Some(p)) {
            if before.children(p).contains(child_id) {
                let k = choose|k: int|
                    0 <= k < before.children(p).len() && before.children(p)[k] == child_id;
                assert(before.children(p)[k] == child_id);
                assert(false);
            }
        }
    }
    assert forall|parent: AgentId, i: int| 0 <= i < after.children(parent).len() implies {
        let child = #[trigger] after.children(parent)[i];
        after.agents().contains_key(child.0) && after.agents()[child.0].parent_id == Some(parent)
    } by {
        without_holds_the_others(before.children(parent), child_id);
        let child = after.children(parent)[i];
        assert(after.children(parent).contains(child));
        assert(without(before.children(parent), child_id).contains(child));
        let k = choose|k: int|
            0 <= k < before.children(parent).len() && before.children(parent)[k] == child;
        assert(before.children(parent)[k] == child);
        assert(child.0 != child_id.0);
    }
    assert forall|id: u128| #[trigger] after.agents().contains_key(id) implies (
    after.agents()[id].parent_id matches Some(parent) ==> after.children(parent).contains(
        AgentId(id),
    )) by {
        assert(before.agents().contains_key(id));
        if let Some(parent) = after.agents()[id].parent_id {
            without_holds_the_others(before.children(parent), child_id);
            assert(before.children(parent).contains(AgentId(id)));
            assert(AgentId(id) != child_id);
            assert(without(before.children(parent), child_id).contains(AgentId(id)));
        }
    }
    assert forall|parent: AgentId| #[trigger] after.children(parent).no_duplicates() by {
        assert(before.children(parent).no_duplicates());
        without_holds_the_others(before.children(parent), child_id);
    }
}

proof fn cancelling_keeps_the_lists<W>(before: &AgentSupervisor<W>, after: &AgentSupervisor<W>)
    requires
        before.wf(),
        after.agents().dom() == before.agents().dom(),
        forall|id: u128|
            before.agents().contains_key(id) ==> #[trigger] after.agents()[id].parent_id
                == before.agents()[id].parent_id,
        forall|p: AgentId| #[trigger] after.children(p) == before.children(p),
    ensures
        after.wf(),
{
    assert forall|parent: AgentId, i: int| 0 <= i < after.children(parent).len() implies {
        let child = #[trigger] after.children(parent)[i];
        after.agents().contains_key(child.0) && after.agents()[child.0].parent_id == Some(parent)
    } by {
        assert(before.children(parent)[i] == after.children(parent)[i]);
    }
    assert forall|id: u128| #[trigger] after.agents().contains_key(id) implies (
    after.agents()[id].parent_id matches Some(parent) ==> after.children(parent).contains(
        AgentId(id),
    )) by {
        assert(before.agents().contains_key(id));
    }
    assert forall|parent: AgentId| #[trigger] after.children(parent).no_duplicates() by {
        assert(before.children(parent).no_duplicates());
    }
}

/// Whether `agent` is the child of `parent` that `spec` asks for, before it
/// has done anything.
pub open spec fn is_child_of(agent: Agent, parent: Agent, spec: SpawnAgentSpec) -> bool {
    &&& agent.session_id == parent.session_id
    &&& agent.parent_id == Some(parent.id)
    &&& agent.state.is_unused()
    &&& agent.state.execution_params == spec.execution_params
    &&& agent.state.depth == parent.state.depth + 1
    &&& agent.state.system_prompt@ == (match spec.role {
        Some(role) => role@,
        None => Seq::<char>::empty(),
    })
    &&& agent.backend.reference == child_reference(spec.backend, parent.backend.reference)
    &&& agent.budget == spec.budget
    &&& agent.usage.is_empty_ledger()
}

/// Whether the envelope tells observers of `parent` about its new child.
pub open spec fn announces(
    envelope: AgentEventEnvelope,
    parent: Agent,
    child_id: AgentId,
    event_id: EventId,
    now: u64,
) -> bool {
    &&& envelope.event_id == event_id
    &&& envelope.session_id == parent.session_id
    &&& envelope.agent_id == parent.id
    &&& envelope.parent_agent_id == parent.parent_id
    &&& envelope.run_id is None
    &&& envelope.agent_sequence == 0
    &&& envelope.session_sequence is None
    &&& envelope.timestamp == now
    &&& envelope.visibility == EventVisibility::User
    &&& envelope.event == (AgentEvent::ChildAgentSpawned { agent_id: child_id })
}

/// The name of a status.
pub open spec fn status_name(status: AgentStatus) -> Seq<char> {
    match status {
        AgentStatus::Idle => "Idle"@,
        AgentStatus::PreparingContext => "PreparingContext"@,
        AgentStatus::WaitingForBackend => "WaitingForBackend"@,
        AgentStatus::Streaming => "Streaming"@,
        AgentStatus::Executing => "Executing"@,
        AgentStatus::WaitingForPermission => "WaitingForPermission"@,
        AgentStatus::WaitingForChildren => "WaitingForChildren"@,
        AgentStatus::Paused => "Paused"@,
        AgentStatus::Cancelled => "Cancelled"@,
        AgentStatus::Failed => "Failed"@,
        AgentStatus::Completed => "Completed"@,
    }
}

fn name_of(status: AgentStatus) -> (r: &'static str)
    ensures
        r@ == status_name(status),
{
    match status {
        AgentStatus::Idle => "Idle",
        AgentStatus::PreparingContext => "PreparingContext",
        AgentStatus::WaitingForBackend => "WaitingForBackend",
        AgentStatus::Streaming => "Streaming",
        AgentStatus::Executing => "Executing",
        AgentStatus::WaitingForPermission => "WaitingForPermission",
        AgentStatus::WaitingForChildren => "WaitingForChildren",
        AgentStatus::Paused => "Paused",
        AgentStatus::Cancelled => "Cancelled",
        AgentStatus::Failed => "Failed",
        AgentStatus::Completed => "Completed",
    }
}

/// What a child that ended tells its parent, and the result that an awaiting
/// spawner receives. `child_text` is how the child's identifier is printed,
/// `outcome` what its last run ended with, `status` where it stands.
pub fn child_completion(
    child_id: AgentId,
    child_text: &str,
    outcome: Option<Result<AgentResult, AgentError>>,
    status: AgentStatus,
) -> (r: (AgentCommand, AgentResult))
    ensures
        match outcome {
            Some(Ok(result)) => {
                &&& r.0 == (AgentCommand::ChildCompleted { agent_id: child_id, result })
                &&& r.1 == result
            },
            Some(Err(error)) => {
                &&& r.0 == (AgentCommand::ChildFailed { agent_id: child_id, error })
                &&& r.1.summary@ == "child "@ + child_text@ + " failed"@
                &&& r.1.usage == crate::agent::no_usage_summary()
            },
            None => {
                &&& r.0 matches AgentCommand::ChildCompleted { agent_id, result }
                &&& agent_id == child_id
                &&& result == r.1
                &&& r.1.summary@ == "child "@ + child_text@ + " finished with status "@
                    + status_name(status)
                &&& r.1.usage == crate::agent::no_usage_summary()
            },
        },
{
    match outcome {
        Some(Ok(result)) => (
            AgentCommand::ChildCompleted { agent_id: child_id, result: result.clone() },
            result,
        ),
        Some(Err(error)) => (
            AgentCommand::ChildFailed { agent_id: child_id, error },
            AgentResult {
                summary: concat3("child ", child_text, " failed"),
                usage: AgentUsageSummary::default(),
            },
        ),
        None => {
            let result = AgentResult {
                summary: concat2(
                    concat3("child ", child_text, " finished with status ").as_str(),
                    name_of(status),
                ),
                usage: AgentUsageSummary::default(),
            };
            (AgentCommand::ChildCompleted { agent_id: child_id, result: result.clone() }, result)
        },
    }
}

/// What a driver does once a child is spawned, by spawn mode.
#[derive(Clone, Copy, Debug, PartialEq, Eq, Structural)]
pub enum DriveStep {
    /// Report the child as detached.
    Detach(AgentId),
    /// Await the child and report its result.
    Await(AgentId),
}

/// Decides between awaiting a spawned child and leaving it on its own.
pub fn drive_step(mode: SpawnMode, child_id: AgentId) -> (r: DriveStep)
    ensures
        r == (match mode {
            SpawnMode::Concurrent => DriveStep::Detach(child_id),
            SpawnMode::AwaitResult => DriveStep::Await(child_id),
        }),
{
    match mode {
        SpawnMode::Concurrent => DriveStep::Detach(child_id),
        SpawnMode::AwaitResult => DriveStep::Await(child_id),
    }
}

/// What a driver reports in the end.
pub fn drive_outcome(step: DriveStep, awaited: Result<AgentResult, SupervisorError>) -> (r: Result<
    SpawnOutcome,
    SupervisorError,
>)
    ensures
        match (step, awaited) {
            (DriveStep::Detach(child_id), _) => r == Ok::<SpawnOutcome, SupervisorError>(
                SpawnOutcome::Detached(child_id),
            ),
            (DriveStep::Await(_), Ok(result)) => r == Ok::<SpawnOutcome, SupervisorError>(
                SpawnOutcome::Awaited(result),
            ),
            (DriveStep::Await(_), Err(error)) => r == Err::<SpawnOutcome, SupervisorError>(error),
        },
{
    match step {
        DriveStep::Detach(child_id) => Ok(SpawnOutcome::Detached(child_id)),
        DriveStep::Await(_) => {
            match awaited {
                Ok(result) => Ok(SpawnOutcome::Awaited(result)),
                Err(error) => Err(error),
            }
        },
    }
}

/// A gate that lets a spawn pass has found the parent allowed to spawn, room
/// for one more child under the parent's limits and for one more agent in the
/// session, and a child budget that is no looser than the parent's.
pub proof fn a_spawn_that_passes_respects_every_limit<W>(
    supervisor: &AgentSupervisor<W>,
    parent: Agent,
    child_budget: AgentBudget,
)
    requires
        supervisor.gate(parent, child_budget) is None,
    ensures
        parent.capabilities.can_spawn_agents,
        parent.budget.max_children matches Some(max) ==> supervisor.children(parent.id).len() + 1
            <= max,
        parent.budget.max_depth matches Some(max) ==> parent.state.depth + 1 <= max,
        child_budget.within(parent.budget),
        supervisor.agent_limit() matches Some(max) ==> supervisor.tokens().dom().len() + 1 <= max,
{
}

/// A token that a child of `parent` gets is cancelled together with the
/// session, and so is every token below it.
pub proof fn every_child_is_below_its_session<W>(
    supervisor: &AgentSupervisor<W>,
    parent: AgentId,
    child: CancellationToken,
    token: CancellationToken,
)
    requires
        supervisor.governed(),
        below(child, supervisor.token_source(parent)),
        below(token, child),
    ensures
        supervisor.session_cancel().governs(child),
        supervisor.session_cancel().governs(token),
{
    let source = supervisor.token_source(parent);
    if supervisor.tokens().contains_key(parent.0) {
        assert(supervisor.session_cancel().governs(source));
    }
    assert(crate::outside::descends(child, supervisor.session_cancel().root()));
}

/// Cancelling children never cancels the session: whatever happens to the
/// children and their lists, a session that was not known to be cancelled
/// still is not, and the same tokens are below it.
pub proof fn cancelling_children_leaves_the_session_alone<W>(history: Seq<AgentSupervisor<W>>)
    requires
        history.len() > 0,
        forall|i: int|
            0 < i < history.len() ==> (#[trigger] history[i]).same_but_children(&history[i - 1]),
    ensures
        history.last().session_cancel() == history[0].session_cancel(),
        !history[0].session_cancel().known_cancelled()
            ==> !history.last().session_cancel().known_cancelled(),
    decreases history.len(),
{
    if history.len() > 1 {
        let earlier = history.drop_last();
        assert forall|i: int| 0 < i < earlier.len() implies (
        #[trigger] earlier[i]).same_but_children(&earlier[i - 1]) by {
            assert(history[i].same_but_children(&history[i - 1]));
        }
        cancelling_children_leaves_the_session_alone(earlier);
        assert(history[history.len() - 1].same_but_children(&history[history.len() - 2]));
    }
}

/// Cancelling a child reaches its whole subtree: whatever derives its token
/// from the child's, such as its own requests, tool calls and children, is
/// below the cancelled handle.
pub proof fn cancelling_a_child_reaches_its_descendants(
    before: AgentHandle,
    after: AgentHandle,
    child_token: CancellationToken,
    token: CancellationToken,
)
    requires
        crate::outside::descends(child_token, before.cancel),
        below(token, child_token),
        crate::outside::known_cancelled(after.cancel),
        crate::outside::covers(after.cancel, before.cancel),
    ensures
        crate::outside::known_cancelled(after.cancel),
        crate::outside::descends(child_token, after.cancel),
        crate::outside::descends(token, after.cancel),
{
}

/// Registering a child and deregistering it again leaves the lists of
/// children as they were.
pub proof fn deregistering_undoes_registering(ids: Seq<AgentId>, child_id: AgentId)
    requires
        !ids.contains(child_id),
    ensures
        without(ids.push(child_id), child_id) == ids,
{
    reveal(Seq::filter);
    without_holds_the_others(ids, child_id);
    assert(ids.push(child_id).drop_last() =~= ids);
}

} // verus!
