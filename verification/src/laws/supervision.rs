//! Laws of supervision: who may spawn, what a child is, and what is kept of
//! it.

use tokio_util::sync::CancellationToken;
use vstd::prelude::*;

use crate::agent::{Agent, AgentCapabilities, AgentError, AgentResult, AgentStatus};
use crate::agent_supervisor::{
    below, child_completion, drive_outcome, drive_step, validate_child_budget, AgentHandle,
    AgentSupervisor, DriveStep, SpawnAdmission, SpawnOutcome, SpawnWork, SpawnedChild,
    SupervisorError,
};
use crate::budget::{self, check_child_budget, AgentBudget, BudgetError, BudgetField};
use crate::cancellation::SessionCancellation;
use crate::ids::{AgentId, EventId, SessionId};
use crate::laws::budgets::{escalates, the_first_looser_limit_is_named};
use crate::protocol::{AgentCommand, AgentEvent, EventVisibility, SpawnAgentSpec, SpawnMode};

verus! {

// ---------------------------------------------------------------------------
// Who may spawn
// ---------------------------------------------------------------------------

/// Whether a parent already has as many children as its budget allows.
pub open spec fn has_enough_children<W>(supervisor: AgentSupervisor<W>, parent: Agent) -> bool {
    parent.budget.max_children is Some && supervisor.children(parent.id).len()
        >= parent.budget.max_children->0
}

/// Whether a parent sits as deep as its budget allows.
pub open spec fn is_deep_enough(parent: Agent) -> bool {
    parent.budget.max_depth is Some && parent.state.depth >= parent.budget.max_depth->0
}

/// Whether a session runs as many agents as it may.
pub open spec fn runs_enough<W>(supervisor: AgentSupervisor<W>) -> bool {
    supervisor.agent_limit() is Some && supervisor.tokens().dom().len()
        >= supervisor.agent_limit()->0
}

proof fn escalating_is_not_being_within(parent: AgentBudget, child: AgentBudget)
    ensures
        child.within(parent) <==> !escalates(parent, child),
{
    assert(BudgetField::MaxInputTokens.kept(parent, child) <==> !crate::laws::budgets::looser(
        parent.max_input_tokens,
        child.max_input_tokens,
    ));
    assert(BudgetField::MaxOutputTokens.kept(parent, child) <==> !crate::laws::budgets::looser(
        parent.max_output_tokens,
        child.max_output_tokens,
    ));
    assert(BudgetField::MaxTotalTokens.kept(parent, child) <==> !crate::laws::budgets::looser(
        parent.max_total_tokens,
        child.max_total_tokens,
    ));
    assert(BudgetField::MaxCostUsd.kept(parent, child) <==> !crate::laws::budgets::looser_money(
        parent.max_cost_usd,
        child.max_cost_usd,
    ));
    assert(BudgetField::MaxRequests.kept(parent, child) <==> !crate::laws::budgets::looser(
        parent.max_requests,
        child.max_requests,
    ));
    assert(BudgetField::MaxToolCalls.kept(parent, child) <==> !crate::laws::budgets::looser(
        parent.max_tool_calls,
        child.max_tool_calls,
    ));
    assert(BudgetField::MaxChildren.kept(parent, child) <==> !crate::laws::budgets::looser_small(
        parent.max_children,
        child.max_children,
    ));
    assert(BudgetField::MaxDepth.kept(parent, child) <==> !crate::laws::budgets::looser_small(
        parent.max_depth,
        child.max_depth,
    ));
    if !escalates(parent, child) {
        assert forall|field: BudgetField| #[trigger] field.kept(parent, child) by {}
    }
}

/// A parent may spawn a child exactly when it may spawn at all, has room for
/// one more child and one more level, asks for a budget no looser than its
/// own, and the session has a place left; what stands in the way is named, the
/// first of them in this order.
pub proof fn a_spawn_is_allowed_or_told_why<W>(
    supervisor: &AgentSupervisor<W>,
    parent: &Agent,
    child_budget: &AgentBudget,
    r: Result<(), SupervisorError>,
    named: Result<(), BudgetField>,
)
    requires
        parent.budget.valid(),
        child_budget.valid(),
        supervisor.children(parent.id).len() <= usize::MAX,
        call_ensures(AgentSupervisor::<W>::check_spawn, (supervisor, parent, child_budget), r),
        call_ensures(check_child_budget, (&parent.budget, child_budget), named),
    ensures
        ({
            let allowed = parent.capabilities.can_spawn_agents;
            let enough = has_enough_children(*supervisor, *parent);
            let deep = is_deep_enough(*parent);
            let loose = escalates(parent.budget, *child_budget);
            let full = runs_enough(*supervisor);
            &&& r is Ok <==> allowed && !enough && !deep && !loose && !full
            &&& !allowed ==> r is Err && r->Err_0 == SupervisorError::SpawnNotAllowed(parent.id)
            &&& allowed && enough ==> r is Err && r->Err_0 == SupervisorError::Budget(
                BudgetError::TooManyChildren {
                    current: supervisor.children(parent.id).len() as usize,
                    max: parent.budget.max_children->0,
                },
            )
            &&& allowed && !enough && deep ==> r is Err && r->Err_0 == SupervisorError::Budget(
                BudgetError::DepthExceeded {
                    depth: parent.state.depth,
                    max: parent.budget.max_depth->0,
                },
            )
            &&& allowed && !enough && !deep && loose ==> r is Err && named is Err
                && r->Err_0 == SupervisorError::BudgetEscalation(named->Err_0)
            &&& allowed && !enough && !deep && !loose && full ==> r is Err && r->Err_0
                == SupervisorError::AgentLimit(supervisor.agent_limit()->0)
        }),
{
    escalating_is_not_being_within(parent.budget, *child_budget);
    the_first_looser_limit_is_named(&parent.budget, child_budget, named);
    if named is Err {
        let first = choose|f: BudgetField| child_budget.first_looser(parent.budget, f);
        assert(child_budget.first_looser(parent.budget, named->Err_0));
        budget::the_first_looser_limit_is_unique(
            parent.budget,
            *child_budget,
            first,
            named->Err_0,
        );
    }
}

/// The room that a parent has for children and levels is decided by its budget
/// alone.
pub proof fn room_for_children_is_a_matter_of_budget<W>(
    supervisor: &AgentSupervisor<W>,
    parent: &Agent,
    r: Result<(), SupervisorError>,
)
    requires
        supervisor.children(parent.id).len() <= usize::MAX,
        call_ensures(
            AgentSupervisor::<W>::max_children_depth_check,
            (supervisor, parent.id, parent.state.depth, &parent.budget),
            r,
        ),
    ensures
        r is Ok <==> !has_enough_children(*supervisor, *parent) && !is_deep_enough(*parent),
        r is Err ==> r->Err_0 is Budget,
        has_enough_children(*supervisor, *parent) ==> r->Err_0->Budget_0 is TooManyChildren,
        !has_enough_children(*supervisor, *parent) && is_deep_enough(*parent)
            ==> r->Err_0->Budget_0 is DepthExceeded,
{
}

/// A child's budget is refused with the limit that the budget rules name.
pub proof fn an_escalating_budget_is_refused_by_name(
    parent: &AgentBudget,
    child: &AgentBudget,
    r: Result<(), SupervisorError>,
    named: Result<(), BudgetField>,
)
    requires
        parent.valid(),
        child.valid(),
        call_ensures(validate_child_budget, (parent, child), r),
        call_ensures(check_child_budget, (parent, child), named),
    ensures
        r is Ok <==> !escalates(*parent, *child),
        r is Ok <==> named is Ok,
        named matches Err(field) ==> r->Err_0 == SupervisorError::BudgetEscalation(field),
{
    the_first_looser_limit_is_named(parent, child, named);
    escalating_is_not_being_within(*parent, *child);
    if named is Err && r is Err {
        budget::the_first_looser_limit_is_unique(
            *parent,
            *child,
            named->Err_0,
            r->Err_0->BudgetEscalation_0,
        );
    }
    if named is Err && r is Ok {
        assert(!(named->Err_0).kept(*parent, *child));
    }
    if named is Ok && r is Err {
        assert(!(r->Err_0->BudgetEscalation_0).kept(*parent, *child));
    }
}

/// A spawn goes ahead exactly when it is allowed. It waits exactly while the
/// one thing in its way is that the session is full, it is not cancelled and
/// its time is not up; in every other case it is refused, for what is in its
/// way.
pub proof fn a_spawn_waits_for_a_place_only<W>(
    supervisor: &AgentSupervisor<W>,
    parent: &Agent,
    child_budget: &AgentBudget,
    cancelled: bool,
    waited: u64,
    timeout: u64,
    r: SpawnAdmission,
    allowed: Result<(), SupervisorError>,
)
    requires
        parent.budget.valid(),
        child_budget.valid(),
        call_ensures(
            AgentSupervisor::<W>::spawn_admission,
            (supervisor, parent, child_budget, cancelled, waited, timeout),
            r,
        ),
        call_ensures(
            AgentSupervisor::<W>::check_spawn,
            (supervisor, parent, child_budget),
            allowed,
        ),
    ensures
        r is Ready <==> allowed is Ok,
        r is Wait <==> allowed is Err && allowed->Err_0 is AgentLimit && !cancelled && waited
            < timeout,
        r is Refused ==> allowed is Err && r->Refused_0 == allowed->Err_0,
{
}

// ---------------------------------------------------------------------------
// What a child is
// ---------------------------------------------------------------------------

/// A spawn succeeds exactly when it is allowed and everything was made ready
/// for the child; otherwise the first step that failed is the error, and
/// nothing has changed.
pub proof fn a_spawn_succeeds_or_changes_nothing<W>(
    supervisor: &mut AgentSupervisor<W>,
    parent: &Agent,
    spec: SpawnAgentSpec,
    work: SpawnWork<W>,
    event_id: EventId,
    now: u64,
    r: Result<SpawnedChild, SupervisorError>,
    allowed: Result<(), SupervisorError>,
)
    requires
        parent.budget.valid(),
        spec.budget.valid(),
        call_ensures(
            AgentSupervisor::<W>::spawn_child,
            (supervisor, parent, spec, work, event_id, now),
            r,
        ),
        call_ensures(
            AgentSupervisor::<W>::check_spawn,
            (old(supervisor), parent, &spec.budget),
            allowed,
        ),
    ensures
        r is Ok <==> allowed is Ok && work is Ready,
        r is Err ==> *final(supervisor) == *old(supervisor),
        allowed is Err ==> r is Err && r->Err_0 == allowed->Err_0,
        allowed is Ok && work is BackendFailed ==> r is Err && r->Err_0
            == SupervisorError::Integration(work->BackendFailed_0),
        allowed is Ok && work is CapabilitiesRefused ==> r is Err && r->Err_0
            == SupervisorError::Capability(work->CapabilitiesRefused_0),
        allowed is Ok && work is WorkspaceFailed ==> r is Err && r->Err_0
            == SupervisorError::Workspace(work->WorkspaceFailed_0),
{
}

/// A spawned child is its parent's: one level below it, in its session, with
/// the budget, the settings and the role that were asked for, on the parent's
/// backend or the one asked for, with just the capabilities derived for it, and
/// with nothing behind it. It deregisters itself exactly when it runs on its
/// own.
pub proof fn a_spawned_child_is_as_asked_for<W>(
    supervisor: &mut AgentSupervisor<W>,
    parent: &Agent,
    spec: SpawnAgentSpec,
    work: SpawnWork<W>,
    event_id: EventId,
    now: u64,
    child: SpawnedChild,
)
    requires
        call_ensures(
            AgentSupervisor::<W>::spawn_child,
            (supervisor, parent, spec, work, event_id, now),
            Ok(child),
        ),
    ensures
        work is Ready,
        child.agent.id == work->child_id,
        child.agent.parent_id == Some(parent.id),
        child.agent.session_id == parent.session_id,
        child.agent.state.depth == parent.state.depth + 1,
        child.agent.state.status == AgentStatus::Idle,
        child.agent.state.messages@.len() == 0,
        child.agent.state.children@.len() == 0,
        child.agent.state.pending_tools@.len() == 0,
        child.agent.state.queued_inputs@.len() == 0,
        child.agent.state.active_run is None,
        child.agent.state.last_error is None,
        child.agent.state.execution_params == spec.execution_params,
        spec.role is Some ==> child.agent.state.system_prompt@ == spec.role->0@,
        spec.role is None ==> child.agent.state.system_prompt@.len() == 0,
        child.agent.budget == spec.budget,
        child.agent.capabilities == work->capabilities,
        child.agent.backend.descriptor == work->descriptor,
        spec.backend is Inherit ==> child.agent.backend.reference == parent.backend.reference,
        spec.backend is Explicit ==> child.agent.backend.reference == spec.backend->Explicit_0,
        child.agent.usage.runs == 0 && child.agent.usage.tool_calls == 0
            && child.agent.usage.records@.len() == 0 && child.agent.usage.child_usage@.len() == 0,
        child.detached <==> spec.mode == SpawnMode::Concurrent,
        child.announcement.event == (AgentEvent::ChildAgentSpawned { agent_id: work->child_id }),
        child.announcement.agent_id == parent.id,
        child.announcement.parent_agent_id == parent.parent_id,
        child.announcement.session_id == parent.session_id,
        child.announcement.event_id == event_id,
        child.announcement.timestamp == now,
        child.announcement.session_sequence is None,
        child.announcement.visibility == EventVisibility::User,
{
}

/// A spawned child is listed last among its parent's children and under no
/// other parent, takes one place in the session, and is cancelled together
/// with its parent. Its capabilities and its workspace are kept; everything
/// kept of other agents stays.
pub proof fn a_spawned_child_is_kept<W>(
    supervisor: &mut AgentSupervisor<W>,
    parent: &Agent,
    spec: SpawnAgentSpec,
    work: SpawnWork<W>,
    event_id: EventId,
    now: u64,
    child: SpawnedChild,
    other: AgentId,
    key: u128,
)
    requires
        call_ensures(
            AgentSupervisor::<W>::spawn_child,
            (supervisor, parent, spec, work, event_id, now),
            Ok(child),
        ),
    ensures
        ({
            let before = *old(supervisor);
            let after = *final(supervisor);
            let id = work->child_id;
            &&& after.children(parent.id) == before.children(parent.id).push(id)
            &&& other != parent.id ==> after.children(other) == before.children(other)
            &&& after.agents().contains_key(key) <==> before.agents().contains_key(key) || key
                == id.0
            &&& after.agents()[id.0].parent_id == Some(parent.id)
            &&& after.agents()[id.0].depth == parent.state.depth + 1
            &&& before.agents().contains_key(key) ==> after.agents()[key] == before.agents()[key]
            &&& after.tokens().contains_key(key) <==> before.tokens().contains_key(key) || key
                == id.0
            &&& before.tokens().contains_key(key) && key != id.0 ==> after.tokens()[key]
                == before.tokens()[key]
            &&& after.workspaces().contains_key(id.0) && after.workspaces()[id.0] == work->workspace
            &&& key != id.0 && before.workspaces().contains_key(key) ==> after.workspaces()[key]
                == before.workspaces()[key]
            &&& after.capabilities().contains_key(id.0)
            &&& after.capabilities()[id.0].tools.tools@ == work->capabilities.tools.tools@
            &&& after.capabilities()[id.0].workspace == work->capabilities.workspace
            &&& after.capabilities()[id.0].can_spawn_agents == work->capabilities.can_spawn_agents
            &&& after.capabilities()[id.0].max_child_depth == work->capabilities.max_child_depth
            &&& after.capabilities()[id.0].backend == work->capabilities.backend
            &&& key != id.0 && before.capabilities().contains_key(key)
                ==> after.capabilities()[key] == before.capabilities()[key]
            &&& after.agent_limit() == before.agent_limit()
            &&& after.session() == before.session()
            &&& before.tokens().contains_key(parent.id.0) ==> crate::outside::descends(
                child.cancel,
                before.tokens()[parent.id.0],
            )
            &&& !before.tokens().contains_key(parent.id.0) ==> crate::outside::descends(
                child.cancel,
                before.session_cancel().root(),
            )
            &&& crate::outside::descends(child.cancel, after.agents()[id.0].cancel)
        }),
{
    let before = *old(supervisor);
    let after = *final(supervisor);
    assert(after.agents().dom().contains(key) == after.agents().contains_key(key));
    assert(before.agents().dom().contains(key) == before.agents().contains_key(key));
    assert(after.tokens().dom().contains(key) == after.tokens().contains_key(key));
    assert(before.tokens().dom().contains(key) == before.tokens().contains_key(key));
    assert(after.capabilities().dom().contains(work->child_id.0));
}

// ---------------------------------------------------------------------------
// What is kept of a child
// ---------------------------------------------------------------------------

/// A new supervisor keeps nothing and has no limit; a limit is the one thing
/// that setting one changes.
pub proof fn a_limit_is_all_that_setting_one_changes<W>(
    session_id: SessionId,
    cancel: SessionCancellation,
    fresh: AgentSupervisor<W>,
    max: usize,
    limited: AgentSupervisor<W>,
    parent: AgentId,
    key: u128,
)
    requires
        call_ensures(AgentSupervisor::<W>::new, (session_id, cancel), fresh),
        call_ensures(AgentSupervisor::<W>::with_agent_limit, (fresh, max), limited),
    ensures
        fresh.agent_limit() is None,
        limited.agent_limit() == Some(max),
        fresh.session() == session_id && limited.session() == session_id,
        fresh.session_cancel() == cancel && limited.session_cancel() == cancel,
        fresh.children(parent).len() == 0 && limited.children(parent).len() == 0,
        !fresh.agents().contains_key(key) && !limited.agents().contains_key(key),
        !fresh.tokens().contains_key(key) && !limited.tokens().contains_key(key),
        !fresh.capabilities().contains_key(key) && !limited.capabilities().contains_key(key),
        !fresh.workspaces().contains_key(key) && !limited.workspaces().contains_key(key),
{
}

/// A child that is registered and deregistered again leaves everything as it
/// was: the live children, every list of children and, where its token was
/// filed in between, the tokens.
pub proof fn a_child_leaves_no_trace<W>(
    registered: &mut AgentSupervisor<W>,
    parent_id: Option<AgentId>,
    child_id: AgentId,
    depth: u32,
    cancel: CancellationToken,
    filed: &mut AgentSupervisor<W>,
    token: CancellationToken,
    left: &mut AgentSupervisor<W>,
    other: AgentId,
    key: u128,
)
    requires
        old(registered).wf(),
        !old(registered).agents().contains_key(child_id.0),
        !old(registered).tokens().contains_key(child_id.0),
        call_ensures(
            AgentSupervisor::<W>::register,
            (registered, parent_id, child_id, depth, cancel),
            (),
        ),
        *old(filed) == *final(registered),
        call_ensures(
            AgentSupervisor::<W>::register_agent_token,
            (filed, child_id, token),
            (),
        ),
        *old(left) == *final(filed),
        call_ensures(AgentSupervisor::<W>::deregister, (left, child_id), ()),
    ensures
        final(registered).agents().contains_key(child_id.0),
        final(registered).agents()[child_id.0] == (AgentHandle { parent_id, depth, cancel }),
        parent_id == Some(other) ==> final(registered).children(other)
            == old(registered).children(other).push(child_id),
        parent_id != Some(other) ==> final(registered).children(other)
            == old(registered).children(other),
        final(registered).tokens() == old(registered).tokens(),
        final(filed).tokens().contains_key(child_id.0),
        final(filed).tokens()[child_id.0] == token,
        final(filed).agents() == final(registered).agents(),
        final(left).agents().contains_key(key) <==> old(registered).agents().contains_key(key),
        final(left).agents().contains_key(key) ==> final(left).agents()[key]
            == old(registered).agents()[key],
        final(left).tokens().contains_key(key) <==> old(registered).tokens().contains_key(key),
        final(left).children(other) == old(registered).children(other),
        final(left).capabilities() == old(registered).capabilities(),
        final(left).workspaces() == old(registered).workspaces(),
        final(left).session_cancel() == old(registered).session_cancel(),
        final(left).agent_limit() == old(registered).agent_limit(),
{
    let ids = old(registered).children(other);
    assert(!ids.contains(child_id)) by {
        if ids.contains(child_id) {
            let k = choose|k: int| 0 <= k < ids.len() && ids[k] == child_id;
            assert(old(registered).children(other)[k] == child_id);
        }
    }
    crate::agent_supervisor::deregistering_undoes_registering(ids, child_id);
    removing_an_absent_one(ids, child_id);
    assert(final(left).children(other) == crate::agent_supervisor::without(
        final(registered).children(other),
        child_id,
    ));
}

proof fn removing_an_absent_one(ids: Seq<AgentId>, id: AgentId)
    requires
        !ids.contains(id),
    ensures
        crate::agent_supervisor::without(ids, id) == ids,
    decreases ids.len(),
{
    reveal(Seq::filter);
    if ids.len() > 0 {
        let rest = ids.drop_last();
        assert(!rest.contains(id)) by {
            if rest.contains(id) {
                let k = choose|k: int| 0 <= k < rest.len() && rest[k] == id;
                assert(ids[k] == id);
            }
        }
        removing_an_absent_one(rest, id);
        assert(ids[ids.len() - 1] == ids.last());
        assert(rest.push(ids.last()) =~= ids);
    } else {
        assert(crate::agent_supervisor::without(ids, id) =~= ids);
    }
}

/// A child that is deregistered, or awaited, leaves its parent's list, and the
/// other children stay on it, in their order; no other list has it either.
pub proof fn the_other_children_stay_in_order<W>(
    left: &mut AgentSupervisor<W>,
    awaited: &mut AgentSupervisor<W>,
    child_id: AgentId,
    handle: Result<AgentHandle, SupervisorError>,
    parent: AgentId,
    other: AgentId,
    key: u128,
)
    requires
        old(left).wf(),
        old(awaited).wf(),
        call_ensures(AgentSupervisor::<W>::deregister, (left, child_id), ()),
        call_ensures(AgentSupervisor::<W>::begin_await, (awaited, child_id), handle),
    ensures
        final(left).children(parent) == old(left).children(parent).filter(
            |id: AgentId| id != child_id,
        ),
        final(awaited).children(parent) == old(awaited).children(parent).filter(
            |id: AgentId| id != child_id,
        ),
        final(left).agents().contains_key(key) <==> old(left).agents().contains_key(key) && key
            != child_id.0,
        final(left).agents().contains_key(key) ==> final(left).agents()[key]
            == old(left).agents()[key],
        final(awaited).agents().contains_key(key) ==> final(awaited).agents()[key]
            == old(awaited).agents()[key],
        final(left).tokens().contains_key(key) <==> old(left).tokens().contains_key(key) && key
            != child_id.0,
        final(left).tokens().contains_key(key) ==> final(left).tokens()[key]
            == old(left).tokens()[key],
        final(left).capabilities() == old(left).capabilities(),
        final(left).workspaces() == old(left).workspaces(),
        final(left).agent_limit() == old(left).agent_limit(),
        final(left).session_cancel() == old(left).session_cancel(),
        final(awaited).agent_limit() == old(awaited).agent_limit(),
        final(awaited).session_cancel() == old(awaited).session_cancel(),
        final(awaited).capabilities() == old(awaited).capabilities(),
        final(awaited).workspaces() == old(awaited).workspaces(),
{
    others_stay(old(left).children(parent), child_id);
    others_stay(old(awaited).children(parent), child_id);
}

proof fn others_stay(ids: Seq<AgentId>, child_id: AgentId)
    ensures
        crate::agent_supervisor::without(ids, child_id) == ids.filter(
            |id: AgentId| id != child_id,
        ),
    decreases ids.len(),
{
    reveal(Seq::filter);
    if ids.len() > 0 {
        others_stay(ids.drop_last(), child_id);
    }
}

/// A child that is awaited leaves the lists at once and keeps its place in the
/// session until the wait ends; a child that is not there cannot be awaited.
/// What the child left is handed on as it is.
pub proof fn an_awaited_child_keeps_its_place<W>(
    begun: &mut AgentSupervisor<W>,
    child_id: AgentId,
    handle: Result<AgentHandle, SupervisorError>,
    ended: &mut AgentSupervisor<W>,
    left: Option<AgentResult>,
    r: Result<AgentResult, SupervisorError>,
    parent: AgentId,
    key: u128,
)
    requires
        old(begun).wf(),
        call_ensures(AgentSupervisor::<W>::begin_await, (begun, child_id), handle),
        *old(ended) == *final(begun),
        call_ensures(AgentSupervisor::<W>::end_await, (ended, child_id, left), r),
    ensures
        handle is Ok <==> old(begun).agents().contains_key(child_id.0),
        handle is Ok ==> handle->Ok_0 == old(begun).agents()[child_id.0],
        handle is Err ==> handle->Err_0 == SupervisorError::ChildResultLost(child_id),
        final(begun).agents().contains_key(key) <==> old(begun).agents().contains_key(key) && key
            != child_id.0,
        final(begun).tokens() == old(begun).tokens(),
        final(ended).children(parent) == final(begun).children(parent),
        final(ended).capabilities() == old(begun).capabilities(),
        final(ended).workspaces() == old(begun).workspaces(),
        final(ended).agent_limit() == old(begun).agent_limit(),
        final(ended).session_cancel() == old(begun).session_cancel(),
        final(ended).tokens().contains_key(key) ==> final(ended).tokens()[key]
            == old(begun).tokens()[key],
        final(ended).agents() == final(begun).agents(),
        final(ended).tokens().contains_key(key) <==> old(begun).tokens().contains_key(key) && key
            != child_id.0,
        r is Ok <==> left is Some,
        r is Ok ==> r->Ok_0 == left->0,
        r is Err ==> r->Err_0 == SupervisorError::ChildResultLost(child_id),
{
}

/// Cancelling a child cancels its token, and with it everything below, and
/// leaves the child where it is; every other child, every list, every place in
/// the session and the session itself stay as they are.
pub proof fn cancelling_a_child_touches_that_child_only<W>(
    supervisor: &mut AgentSupervisor<W>,
    child_id: AgentId,
    r: Result<(), SupervisorError>,
    other: AgentId,
    key: u128,
)
    requires
        old(supervisor).wf(),
        call_ensures(AgentSupervisor::<W>::cancel_child, (supervisor, child_id), r),
    ensures
        r is Ok <==> old(supervisor).agents().contains_key(child_id.0),
        r is Err ==> r->Err_0 == SupervisorError::ChildResultLost(child_id),
        final(supervisor).agents().contains_key(key) <==> old(supervisor).agents().contains_key(
            key,
        ),
        old(supervisor).agents().contains_key(key) && key != child_id.0
            ==> final(supervisor).agents()[key] == old(supervisor).agents()[key],
        r is Ok ==> crate::outside::known_cancelled(final(supervisor).agents()[child_id.0].cancel)
            && crate::outside::covers(
            final(supervisor).agents()[child_id.0].cancel,
            old(supervisor).agents()[child_id.0].cancel,
        ),
        r is Ok ==> final(supervisor).agents()[child_id.0].parent_id
            == old(supervisor).agents()[child_id.0].parent_id
            && final(supervisor).agents()[child_id.0].depth
            == old(supervisor).agents()[child_id.0].depth,
        final(supervisor).children(other) == old(supervisor).children(other),
        final(supervisor).tokens() == old(supervisor).tokens(),
        final(supervisor).session_cancel() == old(supervisor).session_cancel(),
        final(supervisor).agent_limit() == old(supervisor).agent_limit(),
        final(supervisor).capabilities() == old(supervisor).capabilities(),
        final(supervisor).workspaces() == old(supervisor).workspaces(),
{
    assert(final(supervisor).agents().dom().contains(key)
        == final(supervisor).agents().contains_key(key));
    assert(old(supervisor).agents().dom().contains(key) == old(supervisor).agents().contains_key(
        key,
    ));
}

/// What a supervisor keeps of a child is read as it was kept.
pub proof fn what_is_kept_of_a_child_is_read<W>(
    supervisor: &AgentSupervisor<W>,
    child_id: AgentId,
    capabilities: Option<&AgentCapabilities>,
    workspace: Option<&W>,
    live: bool,
)
    requires
        call_ensures(AgentSupervisor::<W>::child_capabilities, (supervisor, child_id), capabilities),
        call_ensures(AgentSupervisor::<W>::child_workspace, (supervisor, child_id), workspace),
        call_ensures(AgentSupervisor::<W>::is_live, (supervisor, child_id), live),
    ensures
        capabilities is Some <==> supervisor.capabilities().contains_key(child_id.0),
        capabilities is Some ==> *capabilities->0 == supervisor.capabilities()[child_id.0],
        workspace is Some <==> supervisor.workspaces().contains_key(child_id.0),
        workspace is Some ==> *workspace->0 == supervisor.workspaces()[child_id.0],
        live <==> supervisor.agents().contains_key(child_id.0),
{
}

/// The lists of children and the live children always agree: a child is on an
/// agent's list exactly when it is live and that agent is its parent, and it is
/// there once.
pub proof fn lists_and_live_children_agree<W>(
    supervisor: &AgentSupervisor<W>,
    parent: AgentId,
    child: AgentId,
    i: int,
    j: int,
)
    requires
        supervisor.wf(),
    ensures
        supervisor.children(parent).contains(child) <==> supervisor.agents().contains_key(child.0)
            && supervisor.agents()[child.0].parent_id == Some(parent),
        0 <= i < j < supervisor.children(parent).len() ==> supervisor.children(parent)[i]
            != supervisor.children(parent)[j],
{
    let ids = supervisor.children(parent);
    if ids.contains(child) {
        let k = choose|k: int| 0 <= k < ids.len() && ids[k] == child;
        assert(supervisor.children(parent)[k] == child);
    }
    if supervisor.agents().contains_key(child.0) && supervisor.agents()[child.0].parent_id == Some(
        parent,
    ) {
        assert(AgentId(child.0) == child);
    }
    assert(ids.no_duplicates());
}

// ---------------------------------------------------------------------------
// How a child ends
// ---------------------------------------------------------------------------

/// A parent hears of every child that ended, under the child's identifier: as
/// failed, with the child's own error, exactly when its last run failed, and
/// as completed otherwise. An awaiting spawner gets the same result, and where
/// there was none, one that says how the child stands.
pub proof fn a_parent_hears_how_its_child_ended(
    child_id: AgentId,
    child_text: &str,
    outcome: Option<Result<AgentResult, AgentError>>,
    status: AgentStatus,
    r: (AgentCommand, AgentResult),
)
    requires
        call_ensures(child_completion, (child_id, child_text, outcome, status), r),
    ensures
        r.0 is ChildFailed <==> outcome is Some && outcome->0 is Err,
        r.0 is ChildCompleted <==> !(outcome is Some && outcome->0 is Err),
        r.0 is ChildFailed ==> r.0->ChildFailed_agent_id == child_id && r.0->ChildFailed_error
            == outcome->0->Err_0 && r.1.summary@ == "child "@ + child_text@ + " failed"@,
        r.0 is ChildCompleted ==> r.0->ChildCompleted_agent_id == child_id
            && r.0->ChildCompleted_result == r.1,
        outcome is Some && outcome->0 is Ok ==> r.1 == outcome->0->Ok_0,
        outcome is None && status == AgentStatus::Idle ==> r.1.summary@ == "child "@ + child_text@
            + " finished with status "@ + "Idle"@,
        outcome is None && status == AgentStatus::Cancelled ==> r.1.summary@ == "child "@
            + child_text@ + " finished with status "@ + "Cancelled"@,
        outcome is None && status == AgentStatus::Failed ==> r.1.summary@ == "child "@ + child_text@
            + " finished with status "@ + "Failed"@,
        outcome is None && status == AgentStatus::Completed ==> r.1.summary@ == "child "@
            + child_text@ + " finished with status "@ + "Completed"@,
        outcome is None && status == AgentStatus::Paused ==> r.1.summary@ == "child "@ + child_text@
            + " finished with status "@ + "Paused"@,
        outcome is None && status == AgentStatus::PreparingContext ==> r.1.summary@ == "child "@
            + child_text@ + " finished with status "@ + "PreparingContext"@,
        outcome is None && status == AgentStatus::WaitingForBackend ==> r.1.summary@ == "child "@
            + child_text@ + " finished with status "@ + "WaitingForBackend"@,
        outcome is None && status == AgentStatus::Streaming ==> r.1.summary@ == "child "@
            + child_text@ + " finished with status "@ + "Streaming"@,
        outcome is None && status == AgentStatus::Executing ==> r.1.summary@ == "child "@
            + child_text@ + " finished with status "@ + "Executing"@,
        outcome is None && status == AgentStatus::WaitingForPermission ==> r.1.summary@ == "child "@
            + child_text@ + " finished with status "@ + "WaitingForPermission"@,
        outcome is None && status == AgentStatus::WaitingForChildren ==> r.1.summary@ == "child "@
            + child_text@ + " finished with status "@ + "WaitingForChildren"@,
        !(outcome is Some && outcome->0 is Ok) ==> r.1.usage.self_usage.total_runs == 0
            && r.1.usage.self_usage.total_requests == 0 && r.1.usage.self_usage.total_tool_calls
            == 0 && r.1.usage.self_usage.total_tokens is None && r.1.usage.self_usage.total_cost
            is None && r.1.usage.inclusive_usage == r.1.usage.self_usage
            && r.1.usage.descendant_usage == r.1.usage.self_usage,
{
}

/// A child is left on its own exactly when it was asked to run concurrently,
/// and is reported as such whatever a wait for it would have given; otherwise
/// it is awaited, and what the wait gave is reported.
pub proof fn only_concurrent_children_are_left_on_their_own(
    mode: SpawnMode,
    child_id: AgentId,
    step: DriveStep,
    awaited: Result<AgentResult, SupervisorError>,
    r: Result<SpawnOutcome, SupervisorError>,
)
    requires
        call_ensures(drive_step, (mode, child_id), step),
        call_ensures(drive_outcome, (step, awaited), r),
    ensures
        mode == SpawnMode::Concurrent ==> step == DriveStep::Detach(child_id) && r is Ok && r->Ok_0
            == SpawnOutcome::Detached(child_id),
        mode == SpawnMode::AwaitResult ==> step == DriveStep::Await(child_id) && (r is Ok
            <==> awaited is Ok),
        mode == SpawnMode::AwaitResult && awaited is Ok ==> r->Ok_0 == SpawnOutcome::Awaited(
            awaited->Ok_0,
        ),
        mode == SpawnMode::AwaitResult && awaited is Err ==> r->Err_0 == awaited->Err_0,
{
}

/// A supervisor's error says what went wrong, and about what.
pub proof fn a_supervisor_error_says_what_went_wrong(
    error: &SupervisorError,
    subject: &str,
    r: String,
    inner: String,
    name: &'static str,
)
    requires
        call_ensures(SupervisorError::message, (error, subject), r),
        error is Integration ==> call_ensures(
            crate::integration::IntegrationError::message,
            (&error->Integration_0,),
            inner,
        ),
        error is BudgetEscalation ==> call_ensures(
            BudgetField::name,
            (error->BudgetEscalation_0,),
            name,
        ),
    ensures
        error is Budget ==> r@ == "budget: "@ + subject@,
        error is Capability ==> r@ == "capability: "@ + error->Capability_0@,
        error is Integration ==> r@ == "integration: "@ + inner@,
        error is Workspace ==> r@ == "workspace: "@ + error->Workspace_0@,
        error is ParentNotFound ==> r@ == "parent agent not found: "@ + subject@,
        error is SpawnNotAllowed ==> r@ == "agent "@ + subject@
            + " is not allowed to spawn children"@,
        error is BudgetEscalation ==> r@ == "child budget is looser than its parent for "@ + name@,
        error is ChildResultLost ==> r@ == "child "@ + subject@
            + " finished without producing a result"@,
        error is AgentLimit ==> r@ == "session already runs its maximum of "@ + subject@
            + " agents"@,
{
}

/// A child token is below its source and below whatever that is below.
pub proof fn below_is_transitive(
    top: CancellationToken,
    middle: CancellationToken,
    bottom: CancellationToken,
)
    requires
        below(middle, top),
        below(bottom, middle),
    ensures
        below(bottom, top),
        crate::outside::descends(bottom, top),
{
}

} // verus!
