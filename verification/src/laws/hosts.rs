//! Laws of a host: its integrations, its sessions, and what it takes to
//! restore one.

use vstd::prelude::*;

use crate::agent::BackendReference;
use crate::ids::{AgentId, SessionId};
use crate::integration::{
    self, creation_outcome, FactoryEntry, IntegrationError, IntegrationRegistry,
};
use crate::restore::{
    self, resolves_integration, DependencyKind, HostRestoreResolver, RestoreReport, Verdict,
};
use crate::scheduler::CapacityError;
use crate::session_manager::contracts::{
    RestoreStart, SessionLifecycle, SessionRegistry, SessionRestorer,
};
use crate::session_manager::errors::SessionManagerError;
use crate::session_manager::manager::{
    close_all_sessions, finish_close, initial_checkpoint_failure, unclosed, CloseOutcome,
    SessionManager,
};
use crate::session_manager::registry::ActiveSessionRegistry;
use crate::session_manager::restorer::{
    assessment, backend_reference_key, creation_failed, resolve_integration, restore_outcome,
    restore_step, root_backend_key, BackendRestore, BackendStep, RestoreEvent, RestoreStage,
    RestoreWork,
};
use crate::session_manager::supervisor::{RootTaskEnd, SessionSupervisor};
use crate::session_runtime::projection::{
    DurableSessionMetadata, DurableSessionSnapshot, StoredAgentState,
};
use crate::text;

verus! {

// ---------------------------------------------------------------------------
// Integrations
// ---------------------------------------------------------------------------

/// A registered factory is found under its identifier, in the place of the one
/// that was there; every other identifier leads where it led before.
pub proof fn a_factory_is_found_under_its_identifier<F>(
    registry: &mut IntegrationRegistry<F>,
    entry: FactoryEntry<F>,
    id: &str,
    before: Option<&F>,
    after: Option<&F>,
    there: bool,
)
    requires
        old(registry).wf(),
        call_ensures(IntegrationRegistry::<F>::register, (registry, entry), ()),
        call_ensures(IntegrationRegistry::<F>::get, (old(registry), id), before),
        call_ensures(IntegrationRegistry::<F>::get, (final(registry), id), after),
        call_ensures(IntegrationRegistry::<F>::contains, (final(registry), id), there),
    ensures
        id@ == entry.id@ ==> after is Some && *after->0 == entry.factory,
        id@ != entry.id@ ==> (after is Some <==> before is Some),
        id@ != entry.id@ && after is Some ==> *after->0 == *before->0,
        there <==> after is Some,
{
    let entries = old(registry)@;
    let all = final(registry)@;
    integration::putting_an_entry_in(entries, entry);
    if id@ == entry.id@ {
        let k = choose|k: int| 0 <= k < all.len() && all[k] == entry;
        the_factory_of_an_identifier(*final(registry), k);
    } else if integration::has_id(entries, id@) {
        let i = choose|i: int| 0 <= i < entries.len() && (#[trigger] entries[i]).id@ == id@;
        the_factory_of_an_identifier(*old(registry), i);
        assert(entries.contains(entries[i]));
        assert(all.contains(entries[i]));
        let k = choose|k: int| 0 <= k < all.len() && all[k] == entries[i];
        the_factory_of_an_identifier(*final(registry), k);
    }
}

proof fn the_factory_of_an_identifier<F>(registry: IntegrationRegistry<F>, i: int)
    requires
        registry.wf(),
        0 <= i < registry@.len(),
    ensures
        registry.factory(registry@[i].id@) == Some(registry@[i].factory),
{
    let id = registry@[i].id@;
    assert(integration::has_id(registry@, id));
    let k = choose|k: int| 0 <= k < registry@.len() && (#[trigger] registry@[k]).id@ == id;
    if k < i {
        assert(registry@[k].id@ != registry@[i].id@);
    } else if i < k {
        assert(registry@[i].id@ != registry@[k].id@);
    }
}

/// An empty registry has nothing.
pub proof fn an_empty_registry_has_nothing<F>(
    registry: IntegrationRegistry<F>,
    id: &str,
    there: bool,
    named: Option<String>,
)
    requires
        call_ensures(IntegrationRegistry::<F>::new, (), registry),
        call_ensures(IntegrationRegistry::<F>::contains, (&registry, id), there),
        call_ensures(IntegrationRegistry::<F>::id_for_descriptor_name, (&registry, id), named),
    ensures
        !there,
        named is None,
{
    if let Some(found) = named {
        let i = choose|i: int| #[trigger]
            registry.first_described(id@, i) && registry@[i].id == found;
        assert(registry.first_described(id@, i));
    }
}

proof fn identifiers_taken_in<F>(
    entries: Seq<FactoryEntry<F>>,
    others: Seq<FactoryEntry<F>>,
    id: Seq<char>,
)
    requires
        integration::distinct_ids(entries),
    ensures
        integration::distinct_ids(integration::with_entries(entries, others)),
        integration::has_id(integration::with_entries(entries, others), id) <==> (
        integration::has_id(entries, id) || integration::has_id(others, id)),
    decreases others.len(),
{
    if others.len() > 0 {
        let rest = others.drop_last();
        let last = others.last();
        let mid = integration::with_entries(entries, rest);
        identifiers_taken_in(entries, rest, id);
        integration::putting_an_entry_in(mid, last);
        if integration::has_id(rest, id) {
            let i = choose|i: int| 0 <= i < rest.len() && (#[trigger] rest[i]).id@ == id;
            assert(others[i].id@ == id);
        }
        if integration::has_id(others, id) && id != last.id@ {
            let i = choose|i: int| 0 <= i < others.len() && (#[trigger] others[i]).id@ == id;
            assert(rest[i].id@ == id);
        }
        if id == last.id@ {
            assert(others[others.len() - 1].id@ == id);
        }
    }
}

proof fn an_entry_taken_in<F>(
    entries: Seq<FactoryEntry<F>>,
    others: Seq<FactoryEntry<F>>,
    k: int,
)
    requires
        integration::distinct_ids(entries),
        0 <= k < others.len(),
        forall|j: int| k < j < others.len() ==> (#[trigger] others[j]).id@ != others[k].id@,
    ensures
        integration::with_entries(entries, others).contains(others[k]),
    decreases others.len(),
{
    let rest = others.drop_last();
    let last = others.last();
    let mid = integration::with_entries(entries, rest);
    identifiers_taken_in(entries, rest, last.id@);
    integration::putting_an_entry_in(mid, last);
    if k < rest.len() {
        assert(others[others.len() - 1].id@ != others[k].id@);
        assert forall|j: int| k < j < rest.len() implies (#[trigger] rest[j]).id@
            != rest[k].id@ by {
            assert(others[j].id@ != others[k].id@);
        }
        an_entry_taken_in(entries, rest, k);
    }
}

proof fn an_entry_kept<F>(
    entries: Seq<FactoryEntry<F>>,
    others: Seq<FactoryEntry<F>>,
    k: int,
)
    requires
        integration::distinct_ids(entries),
        0 <= k < entries.len(),
        !integration::has_id(others, entries[k].id@),
    ensures
        integration::with_entries(entries, others).contains(entries[k]),
    decreases others.len(),
{
    if others.len() > 0 {
        let own = entries[k].id@;
        let rest = others.drop_last();
        let last = others.last();
        let mid = integration::with_entries(entries, rest);
        identifiers_taken_in(entries, rest, last.id@);
        integration::putting_an_entry_in(mid, last);
        if integration::has_id(rest, own) {
            let i = choose|i: int| 0 <= i < rest.len() && (#[trigger] rest[i]).id@ == own;
            assert(others[i].id@ == own);
        }
        assert(others[others.len() - 1].id@ != own);
        an_entry_kept(entries, rest, k);
    }
}

/// A registry that takes another one in has every factory of either, and of
/// two under one identifier the other's.
pub proof fn a_registry_takes_another_one_in<F>(
    registry: &mut IntegrationRegistry<F>,
    other: IntegrationRegistry<F>,
    id: &str,
    own: Option<&F>,
    others: Option<&F>,
    after: Option<&F>,
)
    requires
        old(registry).wf(),
        other.wf(),
        call_ensures(IntegrationRegistry::<F>::extend_from, (registry, other), ()),
        call_ensures(IntegrationRegistry::<F>::get, (old(registry), id), own),
        call_ensures(IntegrationRegistry::<F>::get, (&other, id), others),
        call_ensures(IntegrationRegistry::<F>::get, (final(registry), id), after),
    ensures
        after is Some <==> own is Some || others is Some,
        others is Some ==> *after->0 == *others->0,
        others is None && own is Some ==> *after->0 == *own->0,
{
    let entries = old(registry)@;
    let all = final(registry)@;
    identifiers_taken_in(entries, other@, id@);
    if integration::has_id(other@, id@) {
        let k = choose|k: int| 0 <= k < other@.len() && (#[trigger] other@[k]).id@ == id@;
        the_factory_of_an_identifier(other, k);
        assert forall|j: int| k < j < other@.len() implies (#[trigger] other@[j]).id@
            != other@[k].id@ by {
            assert(other@[k].id@ != other@[j].id@);
        }
        an_entry_taken_in(entries, other@, k);
        let m = choose|m: int| 0 <= m < all.len() && all[m] == other@[k];
        the_factory_of_an_identifier(*final(registry), m);
    } else if integration::has_id(entries, id@) {
        let k = choose|k: int| 0 <= k < entries.len() && (#[trigger] entries[k]).id@ == id@;
        the_factory_of_an_identifier(*old(registry), k);
        an_entry_kept(entries, other@, k);
        let m = choose|m: int| 0 <= m < all.len() && all[m] == entries[k];
        the_factory_of_an_identifier(*final(registry), m);
    }
}

/// Looking a backend up by its name gives the identifier of the first factory
/// that makes backends of that name, and nothing exactly when there is none.
pub proof fn a_backend_is_found_by_its_name<F>(
    registry: &IntegrationRegistry<F>,
    name: &str,
    r: Option<String>,
    i: int,
)
    requires
        call_ensures(IntegrationRegistry::<F>::id_for_descriptor_name, (registry, name), r),
        0 <= i < registry@.len(),
    ensures
        registry@[i].descriptor_name@ == name@ ==> r is Some,
        registry@[i].descriptor_name@ == name@ && (forall|j: int|
            0 <= j < i ==> (#[trigger] registry@[j]).descriptor_name@ != name@) ==> r == Some(
            registry@[i].id,
        ),
        r is Some ==> exists|k: int|
            0 <= k < registry@.len() && (#[trigger] registry@[k]).descriptor_name@ == name@
                && registry@[k].id == r->0,
{
    if let Some(id) = r {
        let k = choose|k: int| #[trigger]
            registry.first_described(name@, k) && registry@[k].id == id;
        assert(registry@[k].descriptor_name@ == name@);
        if registry@[i].descriptor_name@ == name@ && (forall|j: int|
            0 <= j < i ==> (#[trigger] registry@[j]).descriptor_name@ != name@) {
            if k < i {
                assert(registry@[k].descriptor_name@ != name@);
            } else if i < k {
                assert(registry@[i].descriptor_name@ != name@);
            }
        }
    }
}

/// A backend is made exactly when its integration is registered and its factory
/// succeeds; an error names the integration, and what the factory said.
pub proof fn a_backend_is_made_or_told_why<B>(
    id: &str,
    registered: bool,
    made: Result<B, String>,
    r: Result<B, IntegrationError>,
)
    requires
        call_ensures(creation_outcome::<B>, (id, registered, made), r),
    ensures
        r is Ok <==> registered && made is Ok,
        r is Ok ==> r->Ok_0 == made->Ok_0,
        !registered ==> r->Err_0 is NotRegistered && r->Err_0->NotRegistered_0@ == id@,
        registered && made is Err ==> r->Err_0 is Creation && r->Err_0->integration@ == id@
            && r->Err_0->message == made->Err_0,
{
}

/// An integration error says what happened.
pub proof fn an_integration_error_says_what_happened(error: &IntegrationError, r: String)
    requires
        call_ensures(IntegrationError::message, (error,), r),
    ensures
        error is NotRegistered ==> r@ == "integration is not registered: "@
            + error->NotRegistered_0@,
        error is RegistryPoisoned ==> r@ == "integration registry lock was poisoned"@,
        error is Creation ==> r@ == "failed to create integration "@ + error->integration@ + ": "@
            + error->message@,
{
}

// ---------------------------------------------------------------------------
// What a stored session depends on
// ---------------------------------------------------------------------------

/// A reference resolves exactly when it is itself an identifier that is
/// registered, or reads, up to its first double colon, as one, or, behind it,
/// as the name of a backend that some factory makes.
pub proof fn a_reference_resolves_by_identifier_or_by_name<F>(
    registry: &IntegrationRegistry<F>,
    reference: &str,
    r: bool,
    id: Seq<char>,
    name: Seq<char>,
)
    requires
        call_ensures(resolves_integration::<F>, (registry, reference), r),
    ensures
        registers(*registry, reference@) ==> r,
        reference@ == id + "::"@ + name && restore::colon_free(id) ==> (r <==> registers(
            *registry,
            reference@,
        ) || registers(*registry, id) || makes(*registry, name)),
        restore::colon_free(reference@) ==> (r <==> registers(*registry, reference@)),
{
    reveal_strlit("::");
    assert(registers(*registry, reference@) <==> integration::has_id(registry@, reference@));
    assert(registers(*registry, id) <==> integration::has_id(registry@, id));
    if reference@ == id + "::"@ + name && restore::colon_free(id) {
        let k = id.len() as int;
        assert(reference@[k] == ':');
        assert(reference@[k + 1] == ':');
        assert forall|j: int| 0 <= j < k implies !(#[trigger] restore::separator_at(
            reference@,
            j,
        )) by {
            assert(reference@[j] == id[j]);
        }
        assert(restore::first_separator(reference@, k));
        assert(reference@.take(k) =~= id);
        assert(reference@.skip(k + 2) =~= name);
        assert forall|j: int| #[trigger] restore::first_separator(reference@, j) implies j == k by {
            if j < k {
                assert(!restore::separator_at(reference@, j));
            } else if k < j {
                assert(!restore::separator_at(reference@, k));
            }
        }
    }
    if restore::colon_free(reference@) {
        assert forall|j: int| !(#[trigger] restore::first_separator(reference@, j)) by {
            if restore::separator_at(reference@, j) {
                assert(reference@[j] == ':');
            }
        }
    }
}

/// Whether a factory is registered under an identifier.
pub open spec fn registers<F>(registry: IntegrationRegistry<F>, id: Seq<char>) -> bool {
    exists|i: int| 0 <= i < registry@.len() && (#[trigger] registry@[i]).id@ == id
}

/// Whether some factory makes backends of a name.
pub open spec fn makes<F>(registry: IntegrationRegistry<F>, name: Seq<char>) -> bool {
    exists|i: int| 0 <= i < registry@.len() && (#[trigger] registry@[i]).descriptor_name@ == name
}

/// Whether a list of dependencies names one.
pub open spec fn names(
    dependencies: Seq<crate::restore::Dependency>,
    kind: DependencyKind,
    reference: Seq<char>,
) -> bool {
    exists|i: int|
        0 <= i < dependencies.len() && (#[trigger] dependencies[i]).kind == kind
            && dependencies[i].reference@ == reference
}

proof fn selected_verdicts_are_listed(verdicts: Seq<Verdict>, found: bool, k: int)
    requires
        0 <= k < verdicts.len(),
        verdicts[k].found == found,
    ensures
        restore::select(verdicts, found).contains((verdicts[k].kind, verdicts[k].reference)),
    decreases verdicts.len(),
{
    let all = restore::select(verdicts, found);
    let rest = verdicts.drop_last();
    let before = restore::select(rest, found);
    if k == verdicts.len() - 1 {
        assert(all[all.len() - 1] == (verdicts[k].kind, verdicts[k].reference));
    } else {
        selected_verdicts_are_listed(rest, found, k);
        let m = choose|m: int|
            0 <= m < before.len() && before[m] == (verdicts[k].kind, verdicts[k].reference);
        assert(all[m] == before[m]);
    }
}

proof fn listed_verdicts_were_selected(verdicts: Seq<Verdict>, found: bool, m: int) -> (k: int)
    requires
        0 <= m < restore::select(verdicts, found).len(),
    ensures
        0 <= k < verdicts.len(),
        verdicts[k].found == found,
        restore::select(verdicts, found)[m] == (verdicts[k].kind, verdicts[k].reference),
    decreases verdicts.len(),
{
    let rest = verdicts.drop_last();
    let before = restore::select(rest, found);
    if m < before.len() {
        listed_verdicts_were_selected(rest, found, m)
    } else {
        verdicts.len() - 1
    }
}

proof fn a_listed_verdict_is_named(
    dependencies: Seq<crate::restore::Dependency>,
    verdicts: Seq<Verdict>,
    found: bool,
    k: int,
)
    requires
        restore::listed(dependencies) == restore::select(verdicts, found),
        0 <= k < verdicts.len(),
        verdicts[k].found == found,
    ensures
        names(dependencies, verdicts[k].kind, verdicts[k].reference),
{
    selected_verdicts_are_listed(verdicts, found, k);
    let all = restore::listed(dependencies);
    let m = choose|m: int|
        0 <= m < all.len() && all[m] == (verdicts[k].kind, verdicts[k].reference);
    assert(dependencies[m].kind == verdicts[k].kind);
}

/// The report on a stored session is truthful. The stored workspace is resolved
/// exactly when it is the live one, and an integration exactly when its
/// reference resolves; credentials and tool policies, of which a host has no
/// record, are always missing. Nothing is left out.
pub proof fn a_report_is_truthful<F>(
    resolver: &HostRestoreResolver,
    session_id: SessionId,
    metadata: &DurableSessionMetadata,
    registry: &IntegrationRegistry<F>,
    report: RestoreReport,
    i: int,
    reference: &str,
    resolves: bool,
)
    requires
        call_ensures(
            HostRestoreResolver::resolve::<F>,
            (resolver, session_id, metadata, registry),
            report,
        ),
        0 <= i < metadata.integration_references@.len(),
        reference@ == metadata.integration_references@[i]@,
        call_ensures(resolves_integration::<F>, (registry, reference), resolves),
    ensures
        report.session_id == session_id,
        resolves ==> names(report.resolved@, DependencyKind::Integration, reference@),
        !resolves ==> names(report.missing@, DependencyKind::Integration, reference@),
{
    let all = restore::verdicts(*registry, resolver.root(), *metadata);
    let workspace = restore::workspace_verdict(metadata.workspace_identity, resolver.root());
    let references = text::texts(metadata.integration_references@);
    let verdicts = restore::integration_verdicts(*registry, references);
    let k = workspace.len() + i;
    assert(references[i] == reference@);
    assert(all[k] == verdicts[i]);
    if resolves {
        a_listed_verdict_is_named(report.resolved@, all, true, k as int);
    } else {
        a_listed_verdict_is_named(report.missing@, all, false, k as int);
    }
}

/// The stored workspace is resolved exactly when it is the live one.
pub proof fn a_workspace_resolves_where_it_is<F>(
    resolver: &HostRestoreResolver,
    session_id: SessionId,
    metadata: &DurableSessionMetadata,
    registry: &IntegrationRegistry<F>,
    report: RestoreReport,
    stored: String,
)
    requires
        call_ensures(
            HostRestoreResolver::resolve::<F>,
            (resolver, session_id, metadata, registry),
            report,
        ),
        metadata.workspace_identity == Some(stored),
    ensures
        stored@ == resolver.root() ==> names(
            report.resolved@,
            DependencyKind::Workspace,
            stored@,
        ),
        stored@ != resolver.root() ==> names(report.missing@, DependencyKind::Workspace, stored@),
        report.missing@.len() == 0 ==> stored@ == resolver.root(),
{
    let all = restore::verdicts(*registry, resolver.root(), *metadata);
    let workspace = restore::workspace_verdict(metadata.workspace_identity, resolver.root());
    assert(all[0] == workspace[0]);
    if stored@ == resolver.root() {
        a_listed_verdict_is_named(report.resolved@, all, true, 0);
    } else {
        a_listed_verdict_is_named(report.missing@, all, false, 0);
    }
}

/// Credentials and tool policies are never resolved, and never left out.
pub proof fn what_a_host_does_not_record_is_missing<F>(
    resolver: &HostRestoreResolver,
    session_id: SessionId,
    metadata: &DurableSessionMetadata,
    registry: &IntegrationRegistry<F>,
    report: RestoreReport,
    i: int,
)
    requires
        call_ensures(
            HostRestoreResolver::resolve::<F>,
            (resolver, session_id, metadata, registry),
            report,
        ),
        0 <= i,
    ensures
        i < metadata.credential_profiles@.len() ==> names(
            report.missing@,
            DependencyKind::CredentialProfile,
            metadata.credential_profiles@[i]@,
        ),
        i < metadata.tool_policy_ids@.len() ==> names(
            report.missing@,
            DependencyKind::ToolPolicy,
            metadata.tool_policy_ids@[i]@,
        ),
        forall|m: int|
            0 <= m < report.resolved@.len() ==> (#[trigger] report.resolved@[m]).kind
                == DependencyKind::Workspace || report.resolved@[m].kind
                == DependencyKind::Integration,
{
    let all = restore::verdicts(*registry, resolver.root(), *metadata);
    let w = restore::workspace_verdict(metadata.workspace_identity, resolver.root());
    let g = restore::integration_verdicts(
        *registry,
        text::texts(metadata.integration_references@),
    );
    let c = restore::never_found(
        DependencyKind::CredentialProfile,
        text::texts(metadata.credential_profiles@),
    );
    let t = restore::never_found(
        DependencyKind::ToolPolicy,
        text::texts(metadata.tool_policy_ids@),
    );
    if i < c.len() {
        let k = w.len() + g.len() + i;
        assert(all[k] == c[i]);
        a_listed_verdict_is_named(report.missing@, all, false, k as int);
    }
    if i < t.len() {
        let k = w.len() + g.len() + c.len() + i;
        assert(all[k] == t[i]);
        a_listed_verdict_is_named(report.missing@, all, false, k as int);
    }
    assert forall|m: int| 0 <= m < report.resolved@.len() implies (
    #[trigger] report.resolved@[m]).kind == DependencyKind::Workspace || report.resolved@[m].kind
        == DependencyKind::Integration by {
        let listed = restore::listed(report.resolved@);
        assert(listed[m].0 == report.resolved@[m].kind);
        let k = listed_verdicts_were_selected(all, true, m);
        if k < w.len() {
            assert(all[k] == w[k]);
        } else if k < w.len() + g.len() {
            assert(all[k] == g[k - w.len()]);
        } else if k < w.len() + g.len() + c.len() {
            assert(all[k] == c[k - w.len() - g.len()]);
        } else {
            assert(all[k] == t[k - w.len() - g.len() - c.len()]);
        }
    }
}

/// The place of a kind in a report: the workspace, integrations, credentials,
/// tool policies.
pub open spec fn place(kind: DependencyKind) -> int {
    match kind {
        DependencyKind::Workspace => 0,
        DependencyKind::Integration => 1,
        DependencyKind::CredentialProfile => 2,
        DependencyKind::ToolPolicy => 3,
    }
}

proof fn selected_verdicts_stay_in_order(verdicts: Seq<Verdict>, found: bool, m: int, n: int) -> (
    at: (int, int))
    requires
        0 <= m < n < restore::select(verdicts, found).len(),
    ensures
        0 <= at.0 < at.1 < verdicts.len(),
        restore::select(verdicts, found)[m] == (verdicts[at.0].kind, verdicts[at.0].reference),
        restore::select(verdicts, found)[n] == (verdicts[at.1].kind, verdicts[at.1].reference),
    decreases verdicts.len(),
{
    let rest = verdicts.drop_last();
    let before = restore::select(rest, found);
    if n < before.len() {
        selected_verdicts_stay_in_order(rest, found, m, n)
    } else {
        let k = listed_verdicts_were_selected(rest, found, m);
        (k, verdicts.len() - 1)
    }
}

proof fn verdicts_come_by_kind<F>(
    registry: IntegrationRegistry<F>,
    root: Seq<char>,
    metadata: DurableSessionMetadata,
    a: int,
    b: int,
)
    requires
        0 <= a < b < restore::verdicts(registry, root, metadata).len(),
    ensures
        place(restore::verdicts(registry, root, metadata)[a].kind) <= place(
            restore::verdicts(registry, root, metadata)[b].kind,
        ),
{
    let w = restore::workspace_verdict(metadata.workspace_identity, root);
    let g = restore::integration_verdicts(
        registry,
        text::texts(metadata.integration_references@),
    );
    let c = restore::never_found(
        DependencyKind::CredentialProfile,
        text::texts(metadata.credential_profiles@),
    );
    let t = restore::never_found(
        DependencyKind::ToolPolicy,
        text::texts(metadata.tool_policy_ids@),
    );
    let all = restore::verdicts(registry, root, metadata);
    assert forall|k: int| 0 <= k < all.len() implies place((#[trigger] all[k]).kind) == if k
        < w.len() {
        0int
    } else if k < w.len() + g.len() {
        1
    } else if k < w.len() + g.len() + c.len() {
        2
    } else {
        3
    } by {
        if k < w.len() {
            assert(all[k] == w[k]);
        } else if k < w.len() + g.len() {
            assert(all[k] == g[k - w.len()]);
        } else if k < w.len() + g.len() + c.len() {
            assert(all[k] == c[k - w.len() - g.len()]);
        } else {
            assert(all[k] == t[k - w.len() - g.len() - c.len()]);
        }
    }
    assert(place(all[a].kind) <= place(all[b].kind));
}

/// A report goes by kind, in both of its lists: the workspace comes first, and
/// then integrations, credentials and tool policies.
pub proof fn a_report_goes_by_kind<F>(
    resolver: &HostRestoreResolver,
    session_id: SessionId,
    metadata: &DurableSessionMetadata,
    registry: &IntegrationRegistry<F>,
    report: RestoreReport,
    m: int,
    n: int,
)
    requires
        call_ensures(
            HostRestoreResolver::resolve::<F>,
            (resolver, session_id, metadata, registry),
            report,
        ),
        0 <= m < n,
    ensures
        n < report.resolved@.len() ==> place(report.resolved@[m].kind) <= place(
            report.resolved@[n].kind,
        ),
        n < report.missing@.len() ==> place(report.missing@[m].kind) <= place(
            report.missing@[n].kind,
        ),
{
    let all = restore::verdicts(*registry, resolver.root(), *metadata);
    if n < report.resolved@.len() {
        let listed = restore::listed(report.resolved@);
        assert(listed[m].0 == report.resolved@[m].kind);
        assert(listed[n].0 == report.resolved@[n].kind);
        let at = selected_verdicts_stay_in_order(all, true, m, n);
        verdicts_come_by_kind(*registry, resolver.root(), *metadata, at.0, at.1);
    }
    if n < report.missing@.len() {
        let listed = restore::listed(report.missing@);
        assert(listed[m].0 == report.missing@[m].kind);
        assert(listed[n].0 == report.missing@[n].kind);
        let at = selected_verdicts_stay_in_order(all, false, m, n);
        verdicts_come_by_kind(*registry, resolver.root(), *metadata, at.0, at.1);
    }
}

/// A report lists every dependency once and is complete exactly when nothing is
/// missing; a fresh one is about its session and lists nothing.
pub proof fn a_report_is_complete_when_nothing_is_missing<F>(
    resolver: &HostRestoreResolver,
    session_id: SessionId,
    metadata: &DurableSessionMetadata,
    registry: &IntegrationRegistry<F>,
    report: RestoreReport,
    complete: bool,
    fresh: RestoreReport,
    root: String,
    made: HostRestoreResolver,
)
    requires
        call_ensures(
            HostRestoreResolver::resolve::<F>,
            (resolver, session_id, metadata, registry),
            report,
        ),
        call_ensures(RestoreReport::is_complete, (&report,), complete),
        call_ensures(RestoreReport::new, (session_id,), fresh),
        call_ensures(HostRestoreResolver::new, (root,), made),
    ensures
        complete <==> report.missing@.len() == 0,
        report.resolved@.len() + report.missing@.len() == (if metadata.workspace_identity is Some {
            1int
        } else {
            0
        }) + metadata.integration_references@.len() + metadata.credential_profiles@.len()
            + metadata.tool_policy_ids@.len(),
        fresh.session_id == session_id && fresh.resolved@.len() == 0 && fresh.missing@.len() == 0,
        made.root() == root@,
{
    let all = restore::verdicts(*registry, resolver.root(), *metadata);
    restore::every_dependency_is_reported(all);
    assert(restore::listed(report.resolved@).len() == report.resolved@.len());
    assert(restore::listed(report.missing@).len() == report.missing@.len());
}

// ---------------------------------------------------------------------------
// Active sessions
// ---------------------------------------------------------------------------

/// A registered session is found under its identifier and counted, together
/// with its permit; when it is removed, both are handed back, and every other
/// session is as it was before.
pub proof fn a_session_is_active_from_registration_to_removal<R, P>(
    registered: &mut ActiveSessionRegistry<R, P>,
    id: SessionId,
    runtime: R,
    permit: P,
    other: SessionId,
    before: Option<&R>,
    found: Option<&R>,
    there: bool,
    removed: &mut ActiveSessionRegistry<R, P>,
    handed: Option<(R, Option<P>)>,
    after: Option<&R>,
)
    requires
        old(registered).wf(),
        call_ensures(
            ActiveSessionRegistry::<R, P>::register,
            (registered, id, runtime, permit),
            (),
        ),
        call_ensures(ActiveSessionRegistry::<R, P>::get, (old(registered), other), before),
        call_ensures(ActiveSessionRegistry::<R, P>::get, (final(registered), other), found),
        call_ensures(ActiveSessionRegistry::<R, P>::contains, (final(registered), other), there),
        *old(removed) == *final(registered),
        call_ensures(ActiveSessionRegistry::<R, P>::remove, (removed, id), handed),
        call_ensures(ActiveSessionRegistry::<R, P>::get, (final(removed), other), after),
    ensures
        other == id ==> found is Some && *found->0 == runtime && after is None,
        other != id ==> (found is Some <==> before is Some) && (after is Some <==> before is Some),
        other != id && before is Some ==> *found->0 == *before->0 && *after->0 == *before->0,
        there <==> found is Some,
        handed == Some((runtime, Some(permit))),
{
    assert(other != id ==> other.0 != id.0);
}

/// The sessions are counted and listed as they are: each one once, and none
/// that is not active.
pub proof fn active_sessions_are_listed_once<R, P>(
    registry: &ActiveSessionRegistry<R, P>,
    count: usize,
    ids: Vec<SessionId>,
    id: SessionId,
    there: bool,
    fresh: ActiveSessionRegistry<R, P>,
    fresh_count: usize,
)
    requires
        call_ensures(ActiveSessionRegistry::<R, P>::count, (registry,), count),
        call_ensures(ActiveSessionRegistry::<R, P>::ids, (registry,), ids),
        call_ensures(ActiveSessionRegistry::<R, P>::contains, (registry, id), there),
        call_ensures(ActiveSessionRegistry::<R, P>::new, (), fresh),
        call_ensures(ActiveSessionRegistry::<R, P>::count, (&fresh,), fresh_count),
    ensures
        ids@.contains(id) <==> there,
        ids@.len() == count,
        ids@.no_duplicates(),
        fresh_count == 0,
{
}

/// A session is created exactly when its admission gave a permit, and is then
/// active under its identifier; a refused admission is passed on and changes
/// nothing.
pub proof fn a_session_is_created_under_its_permit<R, P>(
    manager: &mut SessionManager<R, P>,
    id: SessionId,
    admission: Result<P, CapacityError>,
    runtime: R,
    r: Result<(), SessionManagerError>,
    other: SessionId,
    found: Option<&R>,
    before: Option<&R>,
)
    requires
        old(manager).registry.wf(),
        call_ensures(
            SessionManager::<R, P>::create_session,
            (manager, id, admission, runtime),
            r,
        ),
        call_ensures(SessionManager::<R, P>::session_handle, (final(manager), other), found),
        call_ensures(SessionManager::<R, P>::session_handle, (old(manager), other), before),
    ensures
        r is Ok <==> admission is Ok,
        r is Err ==> r->Err_0 == SessionManagerError::AtCapacity(admission->Err_0)
            && *final(manager) == *old(manager),
        r is Ok && other == id ==> found is Some && *found->0 == runtime,
        r is Ok ==> final(manager).registry.permits().contains_key(id.0)
            && final(manager).registry.permits()[id.0] == admission->Ok_0,
        other != id || r is Err ==> (found is Some <==> before is Some),
        (other != id || r is Err) && found is Some ==> *found->0 == *before->0,
        final(manager).stored == old(manager).stored,
{
    assert(other != id ==> other.0 != id.0);
}

/// A session is closed exactly when it is active: it is handed back with its
/// permit, and neither is left behind. Any other session stays.
pub proof fn a_closed_session_hands_its_permit_back<R, P>(
    manager: &mut SessionManager<R, P>,
    id: SessionId,
    r: Result<(R, Option<P>), SessionManagerError>,
    other: SessionId,
    found: Option<&R>,
    before: Option<&R>,
)
    requires
        old(manager).registry.wf(),
        call_ensures(SessionManager::<R, P>::close_session, (manager, id), r),
        call_ensures(SessionManager::<R, P>::session_handle, (final(manager), other), found),
        call_ensures(SessionManager::<R, P>::session_handle, (old(manager), other), before),
    ensures
        r is Ok <==> old(manager).registry.sessions().contains_key(id.0),
        r is Ok ==> r->Ok_0.0 == old(manager).registry.sessions()[id.0] && r->Ok_0.1 == Some(
            old(manager).registry.permits()[id.0],
        ),
        r is Err ==> r->Err_0 == SessionManagerError::NotFound(id),
        other == id ==> found is None,
        !final(manager).registry.permits().contains_key(id.0),
        other != id ==> (found is Some <==> before is Some),
        other != id && found is Some ==> *found->0 == *before->0,
        final(manager).stored == old(manager).stored,
{
    assert(other != id ==> other.0 != id.0);
}

/// A restore is supported exactly where there is a store. A session that is
/// active is used as it is, and any other one is loaded.
pub proof fn an_active_session_is_not_loaded_again<R, P>(
    manager: &SessionManager<R, P>,
    id: SessionId,
    r: Result<RestoreStart<R>, SessionManagerError>,
    handle: Option<&R>,
)
    requires
        call_ensures(SessionManager::<R, P>::restore_session, (manager, id), r),
        call_ensures(SessionManager::<R, P>::session_handle, (manager, id), handle),
    ensures
        r is Ok <==> manager.stored,
        r is Err ==> r->Err_0 is RestoreNotSupported,
        r is Ok && handle is Some ==> r->Ok_0 is Active && *r->Ok_0->Active_0 == *handle->0,
        r is Ok && handle is None ==> r->Ok_0 is Load,
{
}

/// A restored session is active under its permit, and every other one stays.
pub proof fn a_restored_session_is_active<R, P>(
    manager: &mut SessionManager<R, P>,
    id: SessionId,
    runtime: R,
    permit: P,
    key: u128,
)
    requires
        old(manager).registry.wf(),
        call_ensures(
            SessionManager::<R, P>::finish_restore,
            (manager, id, runtime, permit),
            (),
        ),
    ensures
        final(manager).registry.sessions().contains_key(id.0),
        final(manager).registry.sessions()[id.0] == runtime,
        final(manager).registry.permits()[id.0] == permit,
        key != id.0 ==> (final(manager).registry.sessions().contains_key(key)
            <==> old(manager).registry.sessions().contains_key(key)),
        key != id.0 && old(manager).registry.sessions().contains_key(key)
            ==> final(manager).registry.sessions()[key] == old(manager).registry.sessions()[key],
        final(manager).stored == old(manager).stored,
{
}

/// A manager starts without sessions, with a store exactly when it is told so.
pub proof fn a_manager_starts_empty<R, P>(
    plain: SessionManager<R, P>,
    stored: bool,
    asked: SessionManager<R, P>,
    equipped: SessionManager<R, P>,
    count: usize,
    ids: Vec<SessionId>,
)
    requires
        call_ensures(SessionManager::<R, P>::new, (), plain),
        call_ensures(SessionManager::<R, P>::new_with_store, (stored,), asked),
        call_ensures(SessionManager::<R, P>::with_session_store, (plain,), equipped),
        call_ensures(SessionManager::<R, P>::active_session_count, (&plain,), count),
        call_ensures(SessionManager::<R, P>::active_session_ids, (&plain,), ids),
    ensures
        !plain.stored,
        asked.stored == stored,
        equipped.stored,
        equipped.registry == plain.registry,
        count == 0,
        ids@.len() == 0,
{
}

/// A manager counts and lists its sessions as they are: each active one once,
/// and no other.
pub proof fn a_manager_lists_its_sessions_once<R, P>(
    manager: &SessionManager<R, P>,
    count: usize,
    ids: Vec<SessionId>,
    id: SessionId,
    handle: Option<&R>,
)
    requires
        call_ensures(SessionManager::<R, P>::active_session_count, (manager,), count),
        call_ensures(SessionManager::<R, P>::active_session_ids, (manager,), ids),
        call_ensures(SessionManager::<R, P>::session_handle, (manager, id), handle),
    ensures
        ids@.contains(id) <==> handle is Some,
        ids@.len() == count,
        ids@.no_duplicates(),
{
}

/// A permit goes with its session and with no other: closing one session leaves
/// the permits of all the others where they are.
pub proof fn other_permits_stay<R, P>(
    manager: &mut SessionManager<R, P>,
    id: SessionId,
    r: Result<(R, Option<P>), SessionManagerError>,
    registry: &mut ActiveSessionRegistry<R, P>,
    handed: Option<(R, Option<P>)>,
    key: u128,
)
    requires
        old(manager).registry.wf(),
        old(registry).wf(),
        call_ensures(SessionManager::<R, P>::close_session, (manager, id), r),
        call_ensures(ActiveSessionRegistry::<R, P>::remove, (registry, id), handed),
    ensures
        final(manager).registry.permits().contains_key(key) <==> old(manager).registry.permits().contains_key(key) && key != id.0,
        final(manager).registry.permits().contains_key(key)
            ==> final(manager).registry.permits()[key] == old(manager).registry.permits()[key],
        final(registry).permits().contains_key(key) <==> old(registry).permits().contains_key(key)
            && key != id.0,
        final(registry).permits().contains_key(key) ==> final(registry).permits()[key] == old(registry).permits()[key],
        handed is Some <==> old(registry).sessions().contains_key(id.0),
{
}

/// A fresh session fails for its first checkpoint exactly where there is a
/// store and it could not be saved; closing fails exactly where the last one
/// could not.
pub proof fn a_failed_checkpoint_is_told(
    stored: bool,
    checkpoint: Result<(), String>,
    first: Option<String>,
    id: SessionId,
    last: Result<(), SessionManagerError>,
)
    requires
        call_ensures(initial_checkpoint_failure, (stored, checkpoint), first),
        call_ensures(finish_close, (id, checkpoint), last),
    ensures
        first is Some <==> stored && checkpoint is Err,
        first is Some ==> first->0@ == "initial durable checkpoint failed: "@ + checkpoint->Err_0@,
        last is Ok <==> checkpoint is Ok,
        last is Err ==> last->Err_0 == (SessionManagerError::CloseCheckpointFailed {
            session: id,
            error: checkpoint->Err_0,
        }),
{
}

proof fn the_unclosed_are_the_others(ids: Seq<SessionId>, outcomes: Seq<CloseOutcome>, n: int)
    requires
        0 <= n <= ids.len(),
        ids.len() == outcomes.len(),
    ensures
        forall|id: SessionId| #[trigger]
            unclosed(ids.take(n), outcomes).contains(id) <==> exists|i: int|
                0 <= i < n && #[trigger] ids[i] == id && outcomes[i] != CloseOutcome::Closed,
    decreases n,
{
    let here = unclosed(ids.take(n), outcomes);
    if n > 0 {
        the_unclosed_are_the_others(ids, outcomes, n - 1);
        assert(ids.take(n).drop_last() =~= ids.take(n - 1));
        assert(ids.take(n).last() == ids[n - 1]);
        let rest = unclosed(ids.take(n - 1), outcomes);
        assert forall|id: SessionId| #[trigger] here.contains(id) <==> exists|i: int|
            0 <= i < n && #[trigger] ids[i] == id && outcomes[i] != CloseOutcome::Closed by {
            if here.contains(id) {
                let k = choose|k: int| 0 <= k < here.len() && here[k] == id;
                if k < rest.len() {
                    assert(rest[k] == id);
                    assert(rest.contains(id));
                    let i = choose|i: int|
                        0 <= i < n - 1 && #[trigger] ids[i] == id && outcomes[i]
                            != CloseOutcome::Closed;
                    assert(ids[i] == id);
                } else {
                    assert(ids[n - 1] == id);
                }
            }
            if exists|i: int|
                0 <= i < n && #[trigger] ids[i] == id && outcomes[i] != CloseOutcome::Closed {
                let i = choose|i: int|
                    0 <= i < n && #[trigger] ids[i] == id && outcomes[i] != CloseOutcome::Closed;
                if i < n - 1 {
                    assert(rest.contains(id));
                    let k = choose|k: int| 0 <= k < rest.len() && rest[k] == id;
                    assert(here[k] == id);
                } else {
                    assert(here[here.len() - 1] == id);
                }
            }
        }
    }
}

/// A drain leaves behind exactly the sessions that did not close cleanly,
/// whether closing them failed or took too long.
pub proof fn a_drain_leaves_what_did_not_close(
    ids: &Vec<SessionId>,
    outcomes: &Vec<CloseOutcome>,
    r: Vec<SessionId>,
    id: SessionId,
)
    requires
        ids@.len() == outcomes@.len(),
        call_ensures(close_all_sessions, (ids, outcomes), r),
    ensures
        r@.contains(id) <==> exists|i: int|
            0 <= i < ids@.len() && #[trigger] ids@[i] == id && (outcomes@[i] == CloseOutcome::Failed
                || outcomes@[i] == CloseOutcome::TimedOut),
{
    the_unclosed_are_the_others(ids@, outcomes@, ids@.len() as int);
    assert(ids@.take(ids@.len() as int) =~= ids@);
    if r@.contains(id) {
        let i = choose|i: int|
            0 <= i < ids@.len() && #[trigger] ids@[i] == id && outcomes@[i] != CloseOutcome::Closed;
        assert(ids@[i] == id);
    }
}

/// A drain goes through its sessions one by one: one more session is left
/// behind, at the end, exactly when it did not close cleanly.
pub proof fn a_drain_goes_one_by_one(
    ids: &Vec<SessionId>,
    outcomes: &Vec<CloseOutcome>,
    r: Vec<SessionId>,
    id: SessionId,
    outcome: CloseOutcome,
    more: &Vec<SessionId>,
    more_outcomes: &Vec<CloseOutcome>,
    more_r: Vec<SessionId>,
)
    requires
        ids@.len() == outcomes@.len(),
        call_ensures(close_all_sessions, (ids, outcomes), r),
        more@ == ids@.push(id),
        more_outcomes@ == outcomes@.push(outcome),
        call_ensures(close_all_sessions, (more, more_outcomes), more_r),
    ensures
        outcome == CloseOutcome::Closed ==> more_r@ == r@,
        outcome != CloseOutcome::Closed ==> more_r@ == r@.push(id),
        ids@.len() == 0 ==> r@.len() == 0,
{
    assert(more@.drop_last() =~= ids@);
    earlier_outcomes_count(ids@, outcomes@, more_outcomes@);
}

proof fn earlier_outcomes_count(
    ids: Seq<SessionId>,
    outcomes: Seq<CloseOutcome>,
    more: Seq<CloseOutcome>,
)
    requires
        ids.len() <= outcomes.len() <= more.len(),
        forall|i: int| 0 <= i < ids.len() ==> (#[trigger] outcomes[i]) == more[i],
    ensures
        unclosed(ids, outcomes) == unclosed(ids, more),
    decreases ids.len(),
{
    if ids.len() > 0 {
        assert(outcomes[ids.len() - 1] == more[ids.len() - 1]);
        earlier_outcomes_count(ids.drop_last(), outcomes, more);
    }
}

/// A session fails with its root task exactly when the task died, with what it
/// died of.
pub proof fn only_a_dead_root_task_fails_its_session(end: RootTaskEnd, r: Option<String>)
    requires
        call_ensures(SessionSupervisor::supervise, (end,), r),
    ensures
        r is Some <==> end is Died,
        r is Some ==> r->0 == end->Died_0,
{
}

/// An error of session management says what happened, and to which session.
pub proof fn a_manager_error_says_what_happened(
    error: &SessionManagerError,
    session: &str,
    r: String,
    inner: String,
)
    requires
        call_ensures(SessionManagerError::message, (error, session), r),
        error is AtCapacity ==> call_ensures(
            CapacityError::message,
            (&error->AtCapacity_0,),
            inner,
        ),
    ensures
        error is NotFound ==> r@ == "session "@ + session@ + " not found"@,
        error is RestoreNotSupported ==> r@
            == "session restore requires a configured session store"@,
        error is Store ==> r@ == "session store error: "@ + error->Store_0@,
        error is NoSnapshot ==> r@ == "session "@ + session@
            + " has no stored snapshot to restore from"@,
        error is RestoreValidation ==> r@ == "stored session failed replay validation: "@
            + error->RestoreValidation_0@,
        error is SnapshotMigration ==> r@ == "stored snapshot is not migratable: "@
            + error->SnapshotMigration_0@,
        error is RestoreRejected ==> r@ == "restore rejected: "@ + error->RestoreRejected_0@,
        error is BackendCreation ==> r@ == "failed to re-create backend for integration "@
            + error->integration@ + ": "@ + error->message@,
        error is CloseCheckpointFailed ==> r@ == "session "@ + session@
            + " was removed but its final checkpoint failed to persist: "@ + error->error@,
        error is AtCapacity ==> r@ == "session admission rejected: "@ + inner@,
{
}

// ---------------------------------------------------------------------------
// Restoring
// ---------------------------------------------------------------------------

/// A restore moves on by one stage, and only by what the stage waits for: the
/// assessment, the last of the backends, the permit, the building. It is
/// refused exactly when the assessment did not accept it, a backend could not
/// be made, or the root has none; and what is refused or restored stays so.
pub proof fn a_restore_moves_one_stage_at_a_time(
    stage: RestoreStage,
    event: RestoreEvent,
    r: RestoreStage,
)
    requires
        call_ensures(restore_step, (stage, event), r),
    ensures
        r == RestoreStage::Restored <==> stage == RestoreStage::Restored || stage
            == RestoreStage::Building && event == RestoreEvent::Built,
        r == RestoreStage::Building <==> stage == RestoreStage::Building && event
            != RestoreEvent::Built || stage == RestoreStage::TakingPermit && event
            == RestoreEvent::PermitTaken,
        r == RestoreStage::TakingPermit <==> stage == RestoreStage::TakingPermit && event
            != RestoreEvent::PermitTaken || stage == RestoreStage::MakingBackends && event == (
        RestoreEvent::BackendsDone { root: true }),
        r == RestoreStage::Refused <==> {
            ||| stage == RestoreStage::Refused
            ||| stage == RestoreStage::Assessing && event == (RestoreEvent::Assessed {
                accepted: false,
            })
            ||| stage == RestoreStage::MakingBackends && event == RestoreEvent::BackendFailed
            ||| stage == RestoreStage::MakingBackends && event == (RestoreEvent::BackendsDone {
                root: false,
            })
        },
        r == RestoreStage::Assessing ==> stage == RestoreStage::Assessing && !(event is Assessed),
        r == RestoreStage::MakingBackends ==> stage == RestoreStage::MakingBackends || stage
            == RestoreStage::Assessing && event == (RestoreEvent::Assessed { accepted: true }),
{
}

/// A stored session is accepted exactly when all the work on it was done, and
/// then comes out as it was read; each stage that failed has an error of its
/// own.
pub proof fn a_stored_session_is_accepted_or_told_why(
    id: SessionId,
    work: RestoreWork,
    event: RestoreEvent,
    r: Result<DurableSessionSnapshot, SessionManagerError>,
)
    requires
        call_ensures(assessment, (&work,), event),
        call_ensures(restore_outcome, (id, work), r),
    ensures
        event is Assessed,
        event->accepted <==> work is Ready,
        r is Ok <==> work is Ready,
        r is Ok ==> r->Ok_0 == work->Ready_0,
        work is LoadFailed ==> r->Err_0 == SessionManagerError::Store(work->LoadFailed_0),
        work is ValidationFailed ==> r->Err_0 == SessionManagerError::RestoreValidation(
            work->ValidationFailed_0,
        ),
        work is SnapshotMissing ==> r->Err_0 == SessionManagerError::NoSnapshot(id),
        work is MigrationFailed ==> r->Err_0 == SessionManagerError::SnapshotMigration(
            work->MigrationFailed_0,
        ),
        work is ReplayFailed ==> r->Err_0 == SessionManagerError::RestoreValidation(
            work->ReplayFailed_0,
        ),
        work is Rejected ==> r->Err_0 == SessionManagerError::RestoreRejected(work->Rejected_0),
{
}

/// Agents share a backend exactly when they run on the same integration under
/// the same configuration; neither the model nor anything else counts. This
/// holds of identifiers without colons.
pub proof fn agents_share_a_backend_by_integration_and_configuration(
    a: &BackendReference,
    b: &BackendReference,
    a_key: String,
    b_key: String,
)
    requires
        call_ensures(backend_reference_key, (a,), a_key),
        call_ensures(backend_reference_key, (b,), b_key),
        restore::colon_free(a.integration@),
        restore::colon_free(b.integration@),
    ensures
        a_key@ == b_key@ <==> a.integration@ == b.integration@ && a.configuration@
            == b.configuration@,
        a_key@ == a.integration@ + "::"@ + a.configuration@,
{
    reveal_strlit("::");
    let n = a.integration@.len() as int;
    let m = b.integration@.len() as int;
    if a_key@ == b_key@ {
        assert(a_key@[n] == ':');
        assert(b_key@[m] == ':');
        if n < m {
            assert(b_key@[n] == b.integration@[n]);
        } else if m < n {
            assert(a_key@[m] == a.integration@[m]);
        }
        assert(a.integration@ =~= a_key@.take(n));
        assert(b.integration@ =~= b_key@.take(m));
        assert(a.configuration@ =~= a_key@.skip(n + 2));
        assert(b.configuration@ =~= b_key@.skip(m + 2));
    }
}

/// A backend is made again by the integration it was stored under, where that
/// is registered; otherwise by the first one that makes backends of its name;
/// and where there is none, the error says so.
pub proof fn a_backend_is_made_again_by_identifier_or_by_name<F>(
    registry: &IntegrationRegistry<F>,
    agent: &StoredAgentState,
    r: Result<String, SessionManagerError>,
    name: &str,
    named: Option<String>,
)
    requires
        call_ensures(resolve_integration::<F>, (registry, agent), r),
        name@ == agent.backend.descriptor.name@,
        call_ensures(IntegrationRegistry::<F>::id_for_descriptor_name, (registry, name), named),
    ensures
        registers(*registry, agent.backend.reference.integration@) ==> r is Ok && r->Ok_0@
            == agent.backend.reference.integration@,
        !registers(*registry, agent.backend.reference.integration@) ==> (r is Ok <==> named
            is Some),
        !registers(*registry, agent.backend.reference.integration@) && named is Some ==> r->Ok_0@
            == named->0@,
        r is Err ==> r->Err_0 is BackendCreation && r->Err_0->integration@
            == agent.backend.reference.integration@ && r->Err_0->message@
            == "no registered integration matches backend "@ + agent.backend.descriptor.name@,
{
    let id = agent.backend.reference.integration@;
    assert(registers(*registry, id) <==> integration::has_id(registry@, id));
    if !registers(*registry, id) {
        if let Some(found) = named {
            let i = choose|i: int| #[trigger]
                registry.first_described(name@, i) && registry@[i].id == found;
            assert(registry@[i].descriptor_name@ == name@);
            assert(registry.describes(name@));
            if r is Ok {
                let k = choose|k: int| #[trigger]
                    registry.first_described(name@, k) && registry@[k].id@ == r->Ok_0@;
                if k < i {
                    assert(registry@[k].descriptor_name@ != name@);
                } else if i < k {
                    assert(registry@[i].descriptor_name@ != name@);
                }
            }
        }
    }
}

/// Backends are made again in the order of the agents, one for each key: the
/// next one is that of the first agent whose key has none yet. When all is
/// done every agent has its backend, and none was made twice.
pub proof fn every_agent_gets_its_backend_once<F>(
    restore: &mut BackendRestore,
    agents: &Vec<StoredAgentState>,
    registry: &IntegrationRegistry<F>,
    r: BackendStep,
    i: int,
    key: String,
    fresh: BackendRestore,
)
    requires
        old(restore).wf(agents@),
        call_ensures(BackendRestore::step::<F>, (restore, agents, registry), r),
        0 <= i < agents@.len(),
        call_ensures(backend_reference_key, (&agents@[i].backend.reference,), key),
        call_ensures(BackendRestore::new, (), fresh),
    ensures
        r is Done ==> final(restore).keys().contains(key@),
        r is Done || r is Failed ==> final(restore).keys() == old(restore).keys(),
        r is Create ==> !old(restore).keys().contains(r->key@) && final(restore).keys()
            == old(restore).keys().push(r->key@),
        r is Create && i < final(restore).next() - 1 ==> old(restore).keys().contains(key@),
        r is Create && i == final(restore).next() - 1 ==> r->key@ == key@ && r->config
            == agents@[i].backend_config,
        r is Failed && i < final(restore).next() ==> old(restore).keys().contains(key@),
        r is Failed && i == final(restore).next() ==> !old(restore).keys().contains(key@)
            && !registers(*registry, agents@[i].backend.reference.integration@) && !makes(
            *registry,
            agents@[i].backend.descriptor.name@,
        ),
        r is Create && i == final(restore).next() - 1 && registers(
            *registry,
            agents@[i].backend.reference.integration@,
        ) ==> r->integration@ == agents@[i].backend.reference.integration@,
        final(restore).keys().no_duplicates(),
        fresh.keys().len() == 0 && fresh.next() == 0,
{
    assert(crate::session_manager::restorer::agent_key(agents@[i]) == key@);
    assert(registers(*registry, agents@[i].backend.reference.integration@)
        <==> integration::has_id(registry@, agents@[i].backend.reference.integration@));
    assert(makes(*registry, agents@[i].backend.descriptor.name@) <==> registry.describes(
        agents@[i].backend.descriptor.name@,
    ));
}

/// A backend counts as made exactly when its key is among those made; what
/// could not be made is told by its integration and the reason.
pub proof fn made_backends_are_known_by_key(
    restore: &BackendRestore,
    key: &str,
    r: bool,
    integration: String,
    message: String,
    error: SessionManagerError,
)
    requires
        call_ensures(BackendRestore::has, (restore, key), r),
        call_ensures(creation_failed, (integration, message), error),
    ensures
        r <==> restore.keys().contains(key@),
        error is BackendCreation && error->integration == integration && error->message == message,
{
}

/// The root's backend is found exactly when the root is among the agents and
/// its backend was made again; otherwise the error tells the two apart.
pub proof fn the_root_has_its_backend_or_there_is_none(
    id: SessionId,
    root: AgentId,
    agents: &Vec<StoredAgentState>,
    backends: &BackendRestore,
    r: Result<String, SessionManagerError>,
    i: int,
    key: String,
)
    requires
        call_ensures(root_backend_key, (id, root, agents, backends), r),
        0 <= i < agents@.len(),
        call_ensures(backend_reference_key, (&agents@[i].backend.reference,), key),
    ensures
        agents@[i].agent_id == root && (forall|j: int|
            0 <= j < i ==> (#[trigger] agents@[j]).agent_id != root) ==> (r is Ok
            <==> backends.keys().contains(key@)),
        agents@[i].agent_id == root && (forall|j: int|
            0 <= j < i ==> (#[trigger] agents@[j]).agent_id != root) && r is Ok ==> r->Ok_0@
            == key@,
        agents@[i].agent_id == root && (forall|j: int|
            0 <= j < i ==> (#[trigger] agents@[j]).agent_id != root) && r is Err ==> r->Err_0
            is BackendCreation && r->Err_0->integration == agents@[i].backend.reference.integration
            && r->Err_0->message@ == "root agent's backend was not re-created"@,
        (forall|j: int| 0 <= j < agents@.len() ==> (#[trigger] agents@[j]).agent_id != root) ==> r
            is Err && r->Err_0 == SessionManagerError::NoSnapshot(id),
{
    let here = agents@[i].agent_id == root && (forall|j: int|
        0 <= j < i ==> (#[trigger] agents@[j]).agent_id != root);
    assert(crate::session_manager::restorer::agent_key(agents@[i]) == key@);
    if here {
        assert forall|k: int| #[trigger]
            crate::session_manager::restorer::first_agent(agents@, root, k) implies k == i by {
            if k < i {
                assert(agents@[k].agent_id != root);
            } else if i < k {
                assert(agents@[i].agent_id != root);
            }
        }
    }
}

} // verus!
