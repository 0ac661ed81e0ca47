//! Restoring a stored session: in which order the stages come, which backends
//! have to be made again, and what a stage that fails is answered with.

use vstd::prelude::*;

use crate::agent::BackendReference;
use crate::ids::{AgentId, SessionId};
use crate::integration::{self, IntegrationRegistry};
use crate::session_manager::errors::SessionManagerError;
use crate::session_runtime::projection::{DurableSessionSnapshot, StoredAgentState};
use crate::text::{self, clone_opt, concat2, concat3, str_eq};

verus! {

/// How far the work outside this library got: the session is loaded, its
/// events are validated, its snapshot is brought to the current version and
/// brought up to date with the events, and the restore policy is asked.
pub enum RestoreWork {
    LoadFailed(String),
    ValidationFailed(String),
    SnapshotMissing,
    MigrationFailed(String),
    ReplayFailed(String),
    Rejected(String),
    Ready(DurableSessionSnapshot),
}

// ---------------------------------------------------------------------------
// The order of the stages
// ---------------------------------------------------------------------------

/// Where a restore stands.
#[derive(Clone, Copy, Debug, PartialEq, Eq, Structural)]
pub enum RestoreStage {
    /// The stored session is read and brought up to date, and the restore
    /// policy is asked about it.
    Assessing,
    /// The backends of its agents are made again.
    MakingBackends,
    /// A session permit is taken.
    TakingPermit,
    /// The session is built and registered.
    Building,
    /// The session runs again.
    Restored,
    /// The restore failed.
    Refused,
}

/// What came of a stage.
#[derive(Clone, Copy, Debug, PartialEq, Eq, Structural)]
pub enum RestoreEvent {
    /// The stored session was assessed.
    Assessed { accepted: bool },
    /// A backend was made again.
    BackendMade,
    /// A backend could not be made again.
    BackendFailed,
    /// No backend is left to be made; `root` tells whether the root agent has
    /// one.
    BackendsDone { root: bool },
    /// A session permit was taken.
    PermitTaken,
    /// The session was built and registered.
    Built,
}

/// Where a restore stands after an event.
pub open spec fn restore_next(stage: RestoreStage, event: RestoreEvent) -> RestoreStage {
    match (stage, event) {
        (RestoreStage::Assessing, RestoreEvent::Assessed { accepted }) => if accepted {
            RestoreStage::MakingBackends
        } else {
            RestoreStage::Refused
        },
        (RestoreStage::MakingBackends, RestoreEvent::BackendFailed) => RestoreStage::Refused,
        (RestoreStage::MakingBackends, RestoreEvent::BackendsDone { root }) => if root {
            RestoreStage::TakingPermit
        } else {
            RestoreStage::Refused
        },
        (RestoreStage::TakingPermit, RestoreEvent::PermitTaken) => RestoreStage::Building,
        (RestoreStage::Building, RestoreEvent::Built) => RestoreStage::Restored,
        (other, _) => other,
    }
}

/// Advances a restore. An event that does not belong to the stage is ignored.
pub fn restore_step(stage: RestoreStage, event: RestoreEvent) -> (r: RestoreStage)
    ensures
        r == restore_next(stage, event),
{
    match (stage, event) {
        (RestoreStage::Assessing, RestoreEvent::Assessed { accepted }) => {
            if accepted {
                RestoreStage::MakingBackends
            } else {
                RestoreStage::Refused
            }
        },
        (RestoreStage::MakingBackends, RestoreEvent::BackendFailed) => RestoreStage::Refused,
        (RestoreStage::MakingBackends, RestoreEvent::BackendsDone { root }) => {
            if root {
                RestoreStage::TakingPermit
            } else {
                RestoreStage::Refused
            }
        },
        (RestoreStage::TakingPermit, RestoreEvent::PermitTaken) => RestoreStage::Building,
        (RestoreStage::Building, RestoreEvent::Built) => RestoreStage::Restored,
        (other, _) => other,
    }
}

/// What the assessment of a stored session comes to: it is accepted exactly
/// where every stage of the work succeeded, the policy's answer among them.
pub fn assessment(work: &RestoreWork) -> (r: RestoreEvent)
    ensures
        r == (RestoreEvent::Assessed { accepted: *work is Ready }),
{
    match work {
        RestoreWork::Ready(_) => RestoreEvent::Assessed { accepted: true },
        _ => RestoreEvent::Assessed { accepted: false },
    }
}

/// Where a restore stands after some events.
pub open spec fn stage_after(events: Seq<RestoreEvent>) -> RestoreStage
    decreases events.len(),
{
    if events.len() == 0 {
        RestoreStage::Assessing
    } else {
        restore_next(stage_after(events.drop_last()), events.last())
    }
}

/// How far a stage is; a refusal has no place in the order.
pub open spec fn stage_rank(stage: RestoreStage) -> int {
    match stage {
        RestoreStage::Assessing => 0,
        RestoreStage::MakingBackends => 1,
        RestoreStage::TakingPermit => 2,
        RestoreStage::Building => 3,
        RestoreStage::Restored => 4,
        RestoreStage::Refused => -1,
    }
}

/// A refusal is for good: whatever follows it, no backend is made and no
/// permit is taken.
pub proof fn nothing_follows_a_refusal(events: Seq<RestoreEvent>, n: int)
    requires
        0 <= n <= events.len(),
        stage_after(events.take(n)) == RestoreStage::Refused,
    ensures
        stage_after(events) == RestoreStage::Refused,
    decreases events.len() - n,
{
    if n < events.len() {
        assert(events.take(n + 1).drop_last() =~= events.take(n));
        nothing_follows_a_refusal(events, n + 1);
    } else {
        assert(events.take(n) =~= events);
    }
}

/// The stages come in order. A backend is made only after the restore policy
/// accepted the session; a permit is taken only after that and once every
/// backend is made, the root's among them; and the session is built only once
/// the permit is taken.
pub proof fn the_stages_come_in_order(events: Seq<RestoreEvent>)
    ensures
        stage_rank(stage_after(events)) >= 1 ==> exists|i: int|
            0 <= i < events.len() && #[trigger] events[i] == (RestoreEvent::Assessed {
                accepted: true,
            }) && stage_after(events.take(i)) == RestoreStage::Assessing,
        stage_rank(stage_after(events)) >= 2 ==> exists|i: int|
            0 <= i < events.len() && #[trigger] events[i] == (RestoreEvent::BackendsDone {
                root: true,
            }) && stage_after(events.take(i)) == RestoreStage::MakingBackends,
        stage_rank(stage_after(events)) >= 3 ==> exists|i: int|
            0 <= i < events.len() && #[trigger] events[i] == RestoreEvent::PermitTaken
                && stage_after(events.take(i)) == RestoreStage::TakingPermit,
    decreases events.len(),
{
    if events.len() > 0 {
        let earlier = events.drop_last();
        let k = events.len() - 1;
        the_stages_come_in_order(earlier);
        assert(events.take(k) =~= earlier);
        assert forall|i: int| 0 <= i < earlier.len() implies #[trigger] earlier[i] == events[i]
            && earlier.take(i) == events.take(i) by {
            assert(earlier.take(i) =~= events.take(i));
        }
        if stage_rank(stage_after(earlier)) >= 1 {
            let i = choose|i: int|
                0 <= i < earlier.len() && #[trigger] earlier[i] == (RestoreEvent::Assessed {
                    accepted: true,
                }) && stage_after(earlier.take(i)) == RestoreStage::Assessing;
            assert(events[i] == earlier[i]);
        }
        if stage_rank(stage_after(earlier)) >= 2 {
            let i = choose|i: int|
                0 <= i < earlier.len() && #[trigger] earlier[i] == (RestoreEvent::BackendsDone {
                    root: true,
                }) && stage_after(earlier.take(i)) == RestoreStage::MakingBackends;
            assert(events[i] == earlier[i]);
        }
        if stage_rank(stage_after(earlier)) >= 3 {
            let i = choose|i: int|
                0 <= i < earlier.len() && #[trigger] earlier[i] == RestoreEvent::PermitTaken
                    && stage_after(earlier.take(i)) == RestoreStage::TakingPermit;
            assert(events[i] == earlier[i]);
        }
        assert(events[k] == events.last());
    }
}

/// The answer to a restore from how far the work got.
pub fn restore_outcome(id: SessionId, work: RestoreWork) -> (r: Result<
    DurableSessionSnapshot,
    SessionManagerError,
>)
    ensures
        r is Ok <==> work is Ready,
        match work {
            RestoreWork::LoadFailed(error) => r == Err::<
                DurableSessionSnapshot,
                SessionManagerError,
            >(SessionManagerError::Store(error)),
            RestoreWork::ValidationFailed(error) => r == Err::<
                DurableSessionSnapshot,
                SessionManagerError,
            >(SessionManagerError::RestoreValidation(error)),
            RestoreWork::SnapshotMissing => r == Err::<DurableSessionSnapshot, SessionManagerError>(
                SessionManagerError::NoSnapshot(id),
            ),
            RestoreWork::MigrationFailed(error) => r == Err::<
                DurableSessionSnapshot,
                SessionManagerError,
            >(SessionManagerError::SnapshotMigration(error)),
            RestoreWork::ReplayFailed(error) => r == Err::<
                DurableSessionSnapshot,
                SessionManagerError,
            >(SessionManagerError::RestoreValidation(error)),
            RestoreWork::Rejected(error) => r == Err::<DurableSessionSnapshot, SessionManagerError>(
                SessionManagerError::RestoreRejected(error),
            ),
            RestoreWork::Ready(snapshot) => r == Ok::<DurableSessionSnapshot, SessionManagerError>(
                snapshot,
            ),
        },
{
    match work {
        RestoreWork::LoadFailed(error) => Err(SessionManagerError::Store(error)),
        RestoreWork::ValidationFailed(error) => Err(SessionManagerError::RestoreValidation(error)),
        RestoreWork::SnapshotMissing => Err(SessionManagerError::NoSnapshot(id)),
        RestoreWork::MigrationFailed(error) => Err(SessionManagerError::SnapshotMigration(error)),
        RestoreWork::ReplayFailed(error) => Err(SessionManagerError::RestoreValidation(error)),
        RestoreWork::Rejected(error) => Err(SessionManagerError::RestoreRejected(error)),
        RestoreWork::Ready(snapshot) => Ok(snapshot),
    }
}

/// The key under which agents share a backend: integration and
/// configuration.
pub open spec fn reference_key(reference: BackendReference) -> Seq<char> {
    reference.integration@ + "::"@ + reference.configuration@
}

/// The key under which agents share a backend.
pub fn backend_reference_key(reference: &BackendReference) -> (r: String)
    ensures
        r@ == reference_key(*reference),
{
    concat3(reference.integration.as_str(), "::", reference.configuration.as_str())
}

/// The key of an agent's backend.
pub open spec fn agent_key(agent: StoredAgentState) -> Seq<char> {
    reference_key(agent.backend.reference)
}

/// Whether the registry can make an agent's backend again: by the stored
/// identifier, or by the name of the backend.
pub open spec fn can_recreate<F>(
    registry: IntegrationRegistry<F>,
    agent: StoredAgentState,
) -> bool {
    integration::has_id(registry@, agent.backend.reference.integration@) || registry.describes(
        agent.backend.descriptor.name@,
    )
}

/// Whether `id` is the integration that makes an agent's backend again.
pub open spec fn recreates<F>(
    registry: IntegrationRegistry<F>,
    agent: StoredAgentState,
    id: Seq<char>,
) -> bool {
    if integration::has_id(registry@, agent.backend.reference.integration@) {
        id == agent.backend.reference.integration@
    } else {
        exists|i: int| #[trigger]
            registry.first_described(agent.backend.descriptor.name@, i) && registry@[i].id@ == id
    }
}

/// Whether the error says that nothing can make an agent's backend again.
pub open spec fn says_unmatched(error: SessionManagerError, agent: StoredAgentState) -> bool {
    error matches SessionManagerError::BackendCreation { integration, message } && integration@
        == agent.backend.reference.integration@ && message@
        == "no registered integration matches backend "@ + agent.backend.descriptor.name@
}

/// Finds the integration that makes an agent's backend again.
pub fn resolve_integration<F>(registry: &IntegrationRegistry<F>, agent: &StoredAgentState) -> (r:
    Result<String, SessionManagerError>)
    ensures
        match r {
            Ok(id) => can_recreate(*registry, *agent) && recreates(*registry, *agent, id@),
            Err(error) => !can_recreate(*registry, *agent) && says_unmatched(error, *agent),
        },
{
    let persisted = &agent.backend.reference.integration;
    if registry.contains(persisted.as_str()) {
        return Ok(persisted.clone());
    }
    match registry.id_for_descriptor_name(agent.backend.descriptor.name.as_str()) {
        Some(id) => {
            proof {
                let i = choose|i: int| #[trigger]
                    registry.first_described(agent.backend.descriptor.name@, i) && registry@[i].id
                        == id;
                assert(registry@[i].descriptor_name@ == agent.backend.descriptor.name@);
            }
            Ok(id)
        },
        None => Err(
            SessionManagerError::BackendCreation {
                integration: persisted.clone(),
                message: concat2(
                    "no registered integration matches backend ",
                    agent.backend.descriptor.name.as_str(),
                ),
            },
        ),
    }
}

/// Which backends have been made again so far.
pub struct BackendRestore {
    keys: Vec<String>,
    next: usize,
}

/// What has to be done next.
pub enum BackendStep {
    /// Every agent has its backend.
    Done,
    /// Make this backend.
    Create { key: String, integration: String, config: Option<String> },
    /// Nothing can make the next backend.
    Failed(SessionManagerError),
}

/// Whether every agent of the first `n` has its key among `keys`.
pub open spec fn covered(keys: Seq<Seq<char>>, agents: Seq<StoredAgentState>, n: int) -> bool {
    forall|i: int| 0 <= i < n ==> keys.contains(agent_key(#[trigger] agents[i]))
}

impl BackendRestore {
    /// The keys of the backends that have been made again.
    pub closed spec fn keys(&self) -> Seq<Seq<char>> {
        text::texts(self.keys@)
    }

    /// How many agents have been looked at.
    pub closed spec fn next(&self) -> nat {
        self.next as nat
    }

    /// Every agent looked at has its backend, and no backend is made twice.
    pub open spec fn wf(&self, agents: Seq<StoredAgentState>) -> bool {
        &&& self.next() <= agents.len()
        &&& covered(self.keys(), agents, self.next() as int)
        &&& self.keys().no_duplicates()
    }

    /// No backend has been made again.
    pub fn new() -> (r: Self)
        ensures
            r.next() == 0,
            r.keys() == Seq::<Seq<char>>::empty(),
            forall|agents: Seq<StoredAgentState>| #[trigger] r.wf(agents),
    {
        let r = BackendRestore { keys: Vec::new(), next: 0 };
        assert(r.keys() =~= Seq::<Seq<char>>::empty());
        r
    }

    /// Tells whether a backend has been made again.
    pub fn has(&self, key: &str) -> (r: bool)
        ensures
            r == self.keys().contains(key@),
    {
        let mut i: usize = 0;
        while i < self.keys.len()
            invariant
                i <= self.keys@.len(),
                forall|j: int| 0 <= j < i ==> (#[trigger] self.keys@[j])@ != key@,
            decreases self.keys@.len() - i,
        {
            if str_eq(self.keys[i].as_str(), key) {
                assert(self.keys()[i as int] == key@);
                return true;
            }
            i = i + 1;
        }
        proof {
            if self.keys().contains(key@) {
                let j = choose|j: int| 0 <= j < self.keys().len() && self.keys()[j] == key@;
                assert(self.keys@[j]@ == key@);
            }
        }
        false
    }

    /// Finds the next backend that has to be made again. Agents that share an
    /// integration and a configuration share a backend.
    pub fn step<F>(&mut self, agents: &Vec<StoredAgentState>, registry: &IntegrationRegistry<F>) -> (r:
        BackendStep)
        requires
            old(self).wf(agents@),
        ensures
            match r {
                BackendStep::Done => {
                    &&& final(self).wf(agents@)
                    &&& final(self).next() == agents@.len()
                    &&& final(self).keys() == old(self).keys()
                },
                BackendStep::Create { key, integration, config } => {
                    let i = final(self).next() - 1;
                    &&& final(self).wf(agents@)
                    &&& old(self).next() <= i < agents@.len()
                    &&& covered(old(self).keys(), agents@, i)
                    &&& key@ == agent_key(agents@[i])
                    &&& !old(self).keys().contains(key@)
                    &&& final(self).keys() == old(self).keys().push(key@)
                    &&& can_recreate(*registry, agents@[i])
                    &&& recreates(*registry, agents@[i], integration@)
                    &&& config == agents@[i].backend_config
                },
                BackendStep::Failed(error) => {
                    let i = final(self).next() as int;
                    &&& final(self).wf(agents@)
                    &&& old(self).next() <= i < agents@.len()
                    &&& final(self).keys() == old(self).keys()
                    &&& !old(self).keys().contains(agent_key(agents@[i]))
                    &&& !can_recreate(*registry, agents@[i])
                    &&& says_unmatched(error, agents@[i])
                },
            },
    {
        let ghost before = self.keys();
        while self.next < agents.len()
            invariant
                self.wf(agents@),
                self.keys() == before,
                before == old(self).keys(),
                old(self).next() <= self.next(),
            decreases agents@.len() - self.next,
        {
            let agent = &agents[self.next];
            let key = backend_reference_key(&agent.backend.reference);
            if self.has(key.as_str()) {
                self.next = self.next + 1;
                assert(self.keys() == before);
                assert(covered(self.keys(), agents@, self.next() as int));
            } else {
                match resolve_integration(registry, agent) {
                    Err(error) => {
                        return BackendStep::Failed(error);
                    },
                    Ok(id) => {
                        self.keys.push(key.clone());
                        self.next = self.next + 1;
                        proof {
                            assert(self.keys() =~= before.push(key@));
                            keys_pushed(before, key@, agents@, self.next() as int);
                        }
                        return BackendStep::Create {
                            key,
                            integration: id,
                            config: clone_opt(&agent.backend_config),
                        };
                    },
                }
            }
        }
        BackendStep::Done
    }
}

proof fn keys_pushed(
    before: Seq<Seq<char>>,
    key: Seq<char>,
    agents: Seq<StoredAgentState>,
    n: int,
)
    requires
        1 <= n <= agents.len(),
        covered(before, agents, n - 1),
        before.no_duplicates(),
        !before.contains(key),
        agent_key(agents[n - 1]) == key,
    ensures
        covered(before.push(key), agents, n),
        before.push(key).no_duplicates(),
{
    let after = before.push(key);
    assert forall|i: int| 0 <= i < n implies after.contains(agent_key(#[trigger] agents[i])) by {
        if i < n - 1 {
            assert(before.contains(agent_key(agents[i])));
            let k = choose|k: int| 0 <= k < before.len() && before[k] == agent_key(agents[i]);
            assert(after[k] == agent_key(agents[i]));
        } else {
            assert(after[before.len() as int] == key);
        }
    }
    assert forall|a: int, b: int| 0 <= a < after.len() && 0 <= b < after.len() && a != b implies after[a]
        != after[b] by {
        if a == before.len() {
            assert(before.contains(before[b]));
        } else if b == before.len() {
            assert(before.contains(before[a]));
        }
    }
}

/// The answer to a backend that could not be made.
pub fn creation_failed(integration: String, message: String) -> (r: SessionManagerError)
    ensures
        r == (SessionManagerError::BackendCreation { integration, message }),
{
    SessionManagerError::BackendCreation { integration, message }
}

/// Whether `agents[i]` is the first agent called `root`.
pub open spec fn first_agent(agents: Seq<StoredAgentState>, root: AgentId, i: int) -> bool {
    &&& 0 <= i < agents.len()
    &&& agents[i].agent_id == root
    &&& forall|j: int| 0 <= j < i ==> (#[trigger] agents[j]).agent_id != root
}

/// The key of the root agent's backend, which the session runs on by
/// default.
pub fn root_backend_key(
    id: SessionId,
    root: AgentId,
    agents: &Vec<StoredAgentState>,
    backends: &BackendRestore,
) -> (r: Result<String, SessionManagerError>)
    ensures
        match r {
            Ok(key) => exists|i: int| #[trigger]
                first_agent(agents@, root, i) && key@ == agent_key(agents@[i])
                    && backends.keys().contains(key@),
            Err(error) => {
                ||| error == SessionManagerError::NoSnapshot(id) && forall|i: int|
                    0 <= i < agents@.len() ==> (#[trigger] agents@[i]).agent_id != root
                ||| exists|i: int| #[trigger]
                    first_agent(agents@, root, i) && !backends.keys().contains(
                        agent_key(agents@[i]),
                    ) && (error matches SessionManagerError::BackendCreation {
                        integration,
                        message,
                    } && integration == agents@[i].backend.reference.integration && message@
                        == "root agent's backend was not re-created"@)
            },
        },
{
    let mut i: usize = 0;
    while i < agents.len()
        invariant
            i <= agents@.len(),
            forall|j: int| 0 <= j < i ==> (#[trigger] agents@[j]).agent_id != root,
        decreases agents@.len() - i,
    {
        if agents[i].agent_id == root {
            let reference = &agents[i].backend.reference;
            let key = backend_reference_key(reference);
            assert(first_agent(agents@, root, i as int));
            if backends.has(key.as_str()) {
                return Ok(key);
            }
            return Err(
                SessionManagerError::BackendCreation {
                    integration: reference.integration.clone(),
                    message: "root agent's backend was not re-created".to_owned(),
                },
            );
        }
        i = i + 1;
    }
    Err(SessionManagerError::NoSnapshot(id))
}

/// Once every agent has been looked at, every agent has its backend, and so
/// has the root.
pub proof fn a_finished_restore_has_every_backend(
    backends: BackendRestore,
    agents: Seq<StoredAgentState>,
    i: int,
)
    requires
        backends.wf(agents),
        backends.next() == agents.len(),
        0 <= i < agents.len(),
    ensures
        backends.keys().contains(agent_key(agents[i])),
{
    assert(covered(backends.keys(), agents, agents.len() as int));
}

/// The reference that a snapshot records of an agent resolves exactly where
/// its backend can be made again, for identifiers without colons whose
/// recorded reference is not itself registered.
pub proof fn resolved_references_can_be_recreated<F>(
    registry: IntegrationRegistry<F>,
    agent: StoredAgentState,
)
    requires
        crate::restore::colon_free(agent.backend.reference.integration@),
        !integration::has_id(registry@, agent.reference()),
    ensures
        crate::restore::integration_found(registry, agent.reference()) <==> can_recreate(
            registry,
            agent,
        ),
{
    let id = agent.backend.reference.integration@;
    let name = agent.backend.descriptor.name@;
    let reference = agent.reference();
    let k = id.len() as int;
    reveal_strlit("::");
    if can_recreate(registry, agent) {
        crate::restore::recorded_references_are_found(registry, agent);
    }
    if crate::restore::integration_found(registry, reference) {
        let j = choose|j: int| #[trigger]
            crate::restore::first_separator(reference, j) && (integration::has_id(
                registry@,
                reference.take(j),
            ) || registry.describes(reference.skip(j + 2)));
        assert(crate::restore::separator_at(reference, k));
        if j < k {
            assert(reference[j] == id[j]);
        } else if k < j {
            assert(!crate::restore::separator_at(reference, k));
        }
        assert(reference.take(k) =~= id);
        assert(reference.skip(k + 2) =~= name);
    }
}

} // verus!
