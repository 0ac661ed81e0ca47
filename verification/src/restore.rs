//! Resolving what a stored session depends on against the current host.
//!
//! Resolution is truthful: the workspace resolves only where the stored
//! identity is the live one, an integration only where the registry has it,
//! and whatever this host does not record is reported as missing.

use vstd::prelude::*;

use crate::ids::SessionId;
use crate::integration::{self, IntegrationRegistry};
use crate::session_runtime::projection::{self, DurableSessionMetadata, StoredAgentState};
use crate::text::{self, str_eq};

verus! {

/// What a stored session can depend on.
#[derive(Clone, Copy, Debug, PartialEq, Eq, Structural)]
pub enum DependencyKind {
    Workspace,
    Integration,
    CredentialProfile,
    ToolPolicy,
}

/// One dependency of a stored session.
#[derive(Debug)]
pub struct Dependency {
    pub kind: DependencyKind,
    pub reference: String,
}

/// Which dependencies of a stored session the host has, and which it lacks.
#[derive(Debug)]
pub struct RestoreReport {
    pub session_id: SessionId,
    pub resolved: Vec<Dependency>,
    pub missing: Vec<Dependency>,
}

/// A dependency and whether the host has it.
pub struct Verdict {
    pub kind: DependencyKind,
    pub reference: Seq<char>,
    pub found: bool,
}

/// The dependencies as kinds and texts.
pub open spec fn listed(dependencies: Seq<Dependency>) -> Seq<(DependencyKind, Seq<char>)> {
    Seq::new(
        dependencies.len(),
        |i: int| (dependencies[i].kind, dependencies[i].reference@),
    )
}

/// The dependencies among `verdicts` that were found (or not), in order.
pub open spec fn select(verdicts: Seq<Verdict>, found: bool) -> Seq<(DependencyKind, Seq<char>)>
    decreases verdicts.len(),
{
    if verdicts.len() == 0 {
        Seq::empty()
    } else {
        let rest = select(verdicts.drop_last(), found);
        if verdicts.last().found == found {
            rest.push((verdicts.last().kind, verdicts.last().reference))
        } else {
            rest
        }
    }
}

/// Whether `::` stands at position `k`.
pub open spec fn separator_at(s: Seq<char>, k: int) -> bool {
    0 <= k && k + 1 < s.len() && s[k] == ':' && s[k + 1] == ':'
}

/// Whether the first `::` stands at position `k`.
pub open spec fn first_separator(s: Seq<char>, k: int) -> bool {
    separator_at(s, k) && forall|j: int| 0 <= j < k ==> !(#[trigger] separator_at(s, j))
}

/// Whether the registry has the integration that a reference names: the
/// reference itself is registered, or it reads `id::name` and either the
/// identifier is registered or a factory makes backends of that name.
pub open spec fn integration_found<F>(
    registry: IntegrationRegistry<F>,
    reference: Seq<char>,
) -> bool {
    ||| integration::has_id(registry@, reference)
    ||| exists|k: int| #[trigger]
        first_separator(reference, k) && (integration::has_id(registry@, reference.take(k))
            || registry.describes(reference.skip(k + 2)))
}

/// The verdicts on a list of references that are never found.
pub open spec fn never_found(kind: DependencyKind, references: Seq<Seq<char>>) -> Seq<Verdict> {
    Seq::new(
        references.len(),
        |i: int| Verdict { kind, reference: references[i], found: false },
    )
}

/// The verdicts on a list of integration references.
pub open spec fn integration_verdicts<F>(
    registry: IntegrationRegistry<F>,
    references: Seq<Seq<char>>,
) -> Seq<Verdict> {
    Seq::new(
        references.len(),
        |i: int|
            Verdict {
                kind: DependencyKind::Integration,
                reference: references[i],
                found: integration_found(registry, references[i]),
            },
    )
}

/// The verdict on the stored workspace identity, where there is one.
pub open spec fn workspace_verdict(identity: Option<String>, root: Seq<char>) -> Seq<Verdict> {
    match identity {
        Some(stored) => seq![
            Verdict {
                kind: DependencyKind::Workspace,
                reference: stored@,
                found: stored@ == root,
            },
        ],
        None => Seq::empty(),
    }
}

/// The verdicts on everything that a stored session depends on, in the order
/// in which they are reported.
pub open spec fn verdicts<F>(
    registry: IntegrationRegistry<F>,
    root: Seq<char>,
    metadata: DurableSessionMetadata,
) -> Seq<Verdict> {
    workspace_verdict(metadata.workspace_identity, root) + integration_verdicts(
        registry,
        text::texts(metadata.integration_references@),
    ) + never_found(
        DependencyKind::CredentialProfile,
        text::texts(metadata.credential_profiles@),
    ) + never_found(DependencyKind::ToolPolicy, text::texts(metadata.tool_policy_ids@))
}

impl RestoreReport {
    /// Whether the report is the one on the given verdicts.
    pub open spec fn reports(self, verdicts: Seq<Verdict>) -> bool {
        &&& listed(self.resolved@) == select(verdicts, true)
        &&& listed(self.missing@) == select(verdicts, false)
    }

    /// A report without dependencies.
    pub fn new(session_id: SessionId) -> (r: Self)
        ensures
            r.session_id == session_id,
            r.resolved@.len() == 0,
            r.missing@.len() == 0,
    {
        RestoreReport { session_id, resolved: Vec::new(), missing: Vec::new() }
    }

    /// Tells whether nothing is missing.
    pub fn is_complete(&self) -> (r: bool)
        ensures
            r == (self.missing@.len() == 0),
    {
        self.missing.len() == 0
    }

    /// Notes one dependency.
    fn note(&mut self, kind: DependencyKind, reference: &String, found: bool, Ghost(before): Ghost<
        Seq<Verdict>,
    >)
        requires
            old(self).reports(before),
        ensures
            final(self).session_id == old(self).session_id,
            final(self).reports(before.push(Verdict { kind, reference: reference@, found })),
    {
        let dependency = Dependency { kind, reference: reference.clone() };
        let ghost after = before.push(Verdict { kind, reference: reference@, found });
        assert(after.drop_last() =~= before);
        if found {
            self.resolved.push(dependency);
            assert(listed(self.resolved@) =~= select(after, true));
        } else {
            self.missing.push(dependency);
            assert(listed(self.missing@) =~= select(after, false));
        }
    }
}

/// Finds the first `::`.
fn find_separator(s: &str) -> (r: Option<usize>)
    ensures
        match r {
            Some(k) => first_separator(s@, k as int),
            None => forall|k: int| !(#[trigger] separator_at(s@, k)),
        },
{
    let chars = text::to_chars(s);
    let n: usize = chars.len();
    let mut i: usize = 0;
    while i < n
        invariant
            chars@ == s@,
            n == s@.len(),
            i <= n,
            forall|j: int| 0 <= j < i ==> !(#[trigger] separator_at(s@, j)),
        decreases n - i,
    {
        if i + 1 < n && chars[i] == ':' && chars[i + 1] == ':' {
            assert(separator_at(s@, i as int));
            return Some(i);
        }
        assert(!separator_at(s@, i as int));
        i = i + 1;
    }
    None
}

/// Tells whether the registry has the integration that a reference names.
pub fn resolves_integration<F>(registry: &IntegrationRegistry<F>, reference: &str) -> (r: bool)
    ensures
        r == integration_found(*registry, reference@),
{
    if registry.contains(reference) {
        return true;
    }
    match find_separator(reference) {
        Some(k) => {
            let n: usize = reference.unicode_len();
            let id = reference.substring_char(0, k);
            let name = reference.substring_char(k + 2, n);
            proof {
                assert(id@ =~= reference@.take(k as int));
                assert(name@ =~= reference@.skip(k + 2));
                assert forall|j: int| #[trigger] first_separator(reference@, j) implies j == k by {
                    if j < k {
                        assert(!separator_at(reference@, j));
                    } else if k < j {
                        assert(!separator_at(reference@, k as int));
                    }
                }
                assert(first_separator(reference@, k as int));
            }
            if registry.contains(id) {
                return true;
            }
            match registry.id_for_descriptor_name(name) {
                Some(_) => true,
                None => false,
            }
        },
        None => {
            assert forall|k: int| !(#[trigger] first_separator(reference@, k)) by {}
            false
        },
    }
}

/// Resolves dependencies against the current host. Made from the canonical
/// identity of the live workspace.
#[derive(Debug)]
pub struct HostRestoreResolver {
    workspace_root: String,
}

impl HostRestoreResolver {
    /// The canonical identity of the live workspace.
    pub closed spec fn root(&self) -> Seq<char> {
        self.workspace_root@
    }

    /// A resolver for the live workspace.
    pub fn new(workspace_root: String) -> (r: Self)
        ensures
            r.root() == workspace_root@,
    {
        HostRestoreResolver { workspace_root }
    }

    /// Reports which dependencies of a stored session this host has.
    pub fn resolve<F>(
        &self,
        session_id: SessionId,
        metadata: &DurableSessionMetadata,
        registry: &IntegrationRegistry<F>,
    ) -> (r: RestoreReport)
        ensures
            r.session_id == session_id,
            r.reports(verdicts(*registry, self.root(), *metadata)),
    {
        let mut report = RestoreReport::new(session_id);
        let ghost mut seen: Seq<Verdict> = Seq::empty();
        assert(listed(report.resolved@) =~= select(seen, true));
        assert(listed(report.missing@) =~= select(seen, false));
        match &metadata.workspace_identity {
            Some(stored) => {
                let found = str_eq(stored.as_str(), self.workspace_root.as_str());
                report.note(DependencyKind::Workspace, stored, found, Ghost(seen));
                proof {
                    seen =
                    seen.push(
                        Verdict {
                            kind: DependencyKind::Workspace,
                            reference: stored@,
                            found,
                        },
                    );
                }
            },
            None => {},
        }
        let ghost workspace = workspace_verdict(metadata.workspace_identity, self.root());
        assert(seen =~= workspace);
        let ghost integrations = integration_verdicts(
            *registry,
            text::texts(metadata.integration_references@),
        );
        let mut i: usize = 0;
        assert(workspace + integrations.take(0) =~= workspace);
        while i < metadata.integration_references.len()
            invariant
                i <= metadata.integration_references@.len(),
                integrations == integration_verdicts(
                    *registry,
                    text::texts(metadata.integration_references@),
                ),
                report.session_id == session_id,
                report.reports(workspace + integrations.take(i as int)),
            decreases metadata.integration_references@.len() - i,
        {
            let reference = &metadata.integration_references[i];
            let found = resolves_integration(registry, reference.as_str());
            report.note(
                DependencyKind::Integration,
                reference,
                found,
                Ghost(workspace + integrations.take(i as int)),
            );
            proof {
                assert(integrations[i as int] == (Verdict {
                    kind: DependencyKind::Integration,
                    reference: reference@,
                    found,
                }));
                assert((workspace + integrations.take(i as int)).push(integrations[i as int])
                    =~= workspace + integrations.take(i + 1));
            }
            i = i + 1;
        }
        assert(integrations.take(i as int) =~= integrations);
        let ghost so_far = workspace + integrations;
        let report = note_missing(
            report,
            DependencyKind::CredentialProfile,
            &metadata.credential_profiles,
            Ghost(so_far),
        );
        let ghost profiles = never_found(
            DependencyKind::CredentialProfile,
            text::texts(metadata.credential_profiles@),
        );
        note_missing(
            report,
            DependencyKind::ToolPolicy,
            &metadata.tool_policy_ids,
            Ghost(so_far + profiles),
        )
    }
}

/// Notes every reference of a list as missing.
fn note_missing(
    report: RestoreReport,
    kind: DependencyKind,
    references: &Vec<String>,
    Ghost(before): Ghost<Seq<Verdict>>,
) -> (r: RestoreReport)
    requires
        report.reports(before),
    ensures
        r.session_id == report.session_id,
        r.reports(before + never_found(kind, text::texts(references@))),
{
    let mut report = report;
    let ghost all = never_found(kind, text::texts(references@));
    let ghost id = report.session_id;
    let mut i: usize = 0;
    assert(before + all.take(0) =~= before);
    while i < references.len()
        invariant
            i <= references@.len(),
            all == never_found(kind, text::texts(references@)),
            report.session_id == id,
            report.reports(before + all.take(i as int)),
        decreases references@.len() - i,
    {
        report.note(kind, &references[i], false, Ghost(before + all.take(i as int)));
        proof {
            assert(all[i as int] == (Verdict {
                kind,
                reference: references@[i as int]@,
                found: false,
            }));
            assert((before + all.take(i as int)).push(all[i as int]) =~= before + all.take(i + 1));
        }
        i = i + 1;
    }
    assert(all.take(i as int) =~= all);
    report
}

/// Nothing is passed over: every dependency is reported as resolved or as
/// missing.
pub proof fn every_dependency_is_reported(verdicts: Seq<Verdict>)
    ensures
        select(verdicts, true).len() + select(verdicts, false).len() == verdicts.len(),
    decreases verdicts.len(),
{
    if verdicts.len() > 0 {
        every_dependency_is_reported(verdicts.drop_last());
    }
}

/// A report misses nothing exactly when every dependency was found.
pub proof fn nothing_is_missing_when_all_is_found(verdicts: Seq<Verdict>)
    ensures
        select(verdicts, false).len() == 0 <==> forall|i: int|
            0 <= i < verdicts.len() ==> (#[trigger] verdicts[i]).found,
    decreases verdicts.len(),
{
    if verdicts.len() > 0 {
        let rest = verdicts.drop_last();
        nothing_is_missing_when_all_is_found(rest);
        if select(verdicts, false).len() == 0 {
            assert forall|i: int| 0 <= i < verdicts.len() implies (#[trigger] verdicts[i]).found by {
                if i < rest.len() {
                    assert(rest[i].found);
                }
            }
        }
        if forall|i: int| 0 <= i < verdicts.len() ==> (#[trigger] verdicts[i]).found {
            assert forall|i: int| 0 <= i < rest.len() implies (#[trigger] rest[i]).found by {
                assert(verdicts[i].found);
            }
            assert(verdicts[verdicts.len() - 1].found);
        }
    }
}

/// Whether a text is free of colons, as printed identifiers are.
pub open spec fn colon_free(s: Seq<char>) -> bool {
    forall|i: int| 0 <= i < s.len() ==> (#[trigger] s[i]) != ':'
}

/// The reference that a snapshot records of an agent is found on every host
/// that has the agent's integration registered by its identifier or by the
/// name of its backend.
pub proof fn recorded_references_are_found<F>(
    registry: IntegrationRegistry<F>,
    agent: StoredAgentState,
)
    requires
        colon_free(agent.backend.reference.integration@),
        integration::has_id(registry@, agent.backend.reference.integration@) || registry.describes(
            agent.backend.descriptor.name@,
        ),
    ensures
        integration_found(registry, agent.reference()),
{
    let id = agent.backend.reference.integration@;
    let name = agent.backend.descriptor.name@;
    let reference = agent.reference();
    let k = id.len() as int;
    reveal_strlit("::");
    assert(reference[k] == ':');
    assert(reference[k + 1] == ':');
    assert forall|j: int| 0 <= j < k implies !(#[trigger] separator_at(reference, j)) by {
        assert(reference[j] == id[j]);
    }
    assert(first_separator(reference, k));
    assert(reference.take(k) =~= id);
    assert(reference.skip(k + 2) =~= name);
}

/// A session that is stored and restored on the same host has all it depends
/// on: the report on a snapshot misses nothing when the workspace is the one
/// it was taken under and every agent's integration is registered.
pub proof fn a_snapshot_resolves_on_its_own_host<F>(
    registry: IntegrationRegistry<F>,
    root: Seq<char>,
    metadata: DurableSessionMetadata,
    agents: Seq<StoredAgentState>,
    report: RestoreReport,
)
    requires
        metadata.workspace_identity matches Some(identity) ==> identity@ == root,
        projection::lists_references(text::texts(metadata.integration_references@), agents),
        metadata.credential_profiles@.len() == 0,
        metadata.tool_policy_ids@.len() == 0,
        forall|i: int|
            0 <= i < agents.len() ==> {
                let agent = #[trigger] agents[i];
                colon_free(agent.backend.reference.integration@) && (integration::has_id(
                    registry@,
                    agent.backend.reference.integration@,
                ) || registry.describes(agent.backend.descriptor.name@))
            },
        report.reports(verdicts(registry, root, metadata)),
    ensures
        report.missing@.len() == 0,
{
    let all = verdicts(registry, root, metadata);
    let references = text::texts(metadata.integration_references@);
    let w = workspace_verdict(metadata.workspace_identity, root);
    let g = integration_verdicts(registry, references);
    assert(all =~= w + g);
    assert forall|i: int| 0 <= i < all.len() implies (#[trigger] all[i]).found by {
        if i >= w.len() {
            let text = references[i - w.len()];
            assert(all[i] == g[i - w.len()]);
            assert(references.contains(text));
            let k = choose|k: int|
                0 <= k < agents.len() && (#[trigger] agents[k]).reference() == text;
            recorded_references_are_found(registry, agents[k]);
        } else {
            assert(all[i] == w[i]);
        }
    }
    nothing_is_missing_when_all_is_found(all);
    assert(listed(report.missing@).len() == report.missing@.len());
}

} // verus!
