use harness_runtime::agent::{
    Agent, AgentCapabilities, AgentError, AgentResult, AgentStatus, AgentUsageSummary,
    BackendBinding, BackendCapabilities, BackendDescriptor, BackendReference, ExecutionParams,
    WorkspaceCapabilities,
};
use harness_runtime::agent_supervisor::{
    child_completion, drive_outcome, drive_step, AgentSupervisor, DriveStep, SpawnAdmission,
    SpawnOutcome, SpawnWork, SupervisorError,
};
use harness_runtime::budget::{AgentBudget, BudgetError, BudgetField};
use harness_runtime::cancellation::SessionCancellation;
use harness_runtime::ids::{AgentId, BackendId, EventId, SessionId, ToolId};
use harness_runtime::integration::IntegrationError;
use harness_runtime::protocol::{
    AgentCommand, AgentEvent, BackendPolicy, SpawnAgentSpec, SpawnMode, ToolInheritance,
    WorkspacePolicy,
};
use harness_runtime::tools::{
    AgentToolset, PermissionMode, ToolCapability, ToolDescriptor, ToolEntry, ToolPolicy,
};

fn descriptor(name: &str) -> BackendDescriptor {
    BackendDescriptor {
        id: BackendId(9),
        name: name.to_string(),
        description: "fake".to_string(),
        capabilities: BackendCapabilities::default(),
    }
}

fn reference(integration: &str) -> BackendReference {
    BackendReference {
        integration: integration.to_string(),
        configuration: "configuration".to_string(),
        model: None,
    }
}

fn capabilities(tools: Vec<ToolEntry>) -> AgentCapabilities {
    AgentCapabilities {
        tools: AgentToolset { tools },
        can_spawn_agents: true,
        max_child_depth: Some(5),
        workspace: WorkspaceCapabilities { can_read: true, can_write: true, can_search: true },
        backend: BackendCapabilities::default(),
    }
}

fn parent(budget: AgentBudget) -> Agent {
    Agent::new(
        AgentId(1),
        SessionId(2),
        None,
        0,
        "parent".to_string(),
        BackendBinding { reference: reference("parent-integration"), descriptor: descriptor("fake") },
        capabilities(vec![]),
        budget,
    )
}

fn spec(mode: SpawnMode) -> SpawnAgentSpec {
    SpawnAgentSpec {
        role: Some("child".to_string()),
        backend: BackendPolicy::Inherit,
        tools: ToolInheritance::Subset(vec![]),
        workspace: WorkspacePolicy::Inherit,
        budget: AgentBudget::default(),
        mode,
        task: None,
        execution_params: ExecutionParams::default(),
    }
}

fn ready(id: u128, capabilities: AgentCapabilities) -> SpawnWork<&'static str> {
    SpawnWork::Ready {
        child_id: AgentId(id),
        descriptor: descriptor("fake"),
        capabilities,
        workspace: "workspace",
    }
}

fn supervisor() -> AgentSupervisor<&'static str> {
    AgentSupervisor::new(SessionId(2), SessionCancellation::new())
}

#[test]
fn max_children_gate_rejects_third_child() {
    let cancel = SessionCancellation::new();
    let mut supervisor: AgentSupervisor<()> = AgentSupervisor::new(SessionId(2), cancel.clone());
    let parent_id = AgentId(1);
    let budget = AgentBudget { max_children: Some(2), ..Default::default() };

    for i in 0..2 {
        let child_id = AgentId(10 + i);
        supervisor.register(Some(parent_id), child_id, 1, cancel.child_token());
    }

    let error = supervisor
        .max_children_depth_check(parent_id, 0, &budget)
        .expect_err("third child must be rejected");
    assert!(matches!(error, SupervisorError::Budget(BudgetError::TooManyChildren { .. })));
}

#[test]
fn a_deregistered_child_makes_room() {
    let mut supervisor = supervisor();
    let parent = parent(AgentBudget { max_children: Some(1), ..Default::default() });
    let mut child_spec = spec(SpawnMode::Concurrent);
    child_spec.budget = parent.budget;
    let work = ready(10, capabilities(vec![]));
    let child = supervisor.spawn_child(&parent, child_spec, work, EventId(5), 6);
    assert!(child.is_ok());
    assert!(matches!(
        supervisor.check_spawn(&parent, &parent.budget),
        Err(SupervisorError::Budget(BudgetError::TooManyChildren { current: 1, max: 1 }))
    ));
    supervisor.deregister(AgentId(10));
    assert!(supervisor.check_spawn(&parent, &parent.budget).is_ok());
    assert!(!supervisor.is_live(AgentId(10)));
}

#[test]
fn the_depth_gate_counts_the_whole_tree() {
    let supervisor = supervisor();
    let mut parent = parent(AgentBudget { max_depth: Some(2), ..Default::default() });
    parent.state.depth = 1;
    assert!(supervisor.check_spawn(&parent, &parent.budget).is_ok());
    parent.state.depth = 2;
    assert!(matches!(
        supervisor.check_spawn(&parent, &parent.budget),
        Err(SupervisorError::Budget(BudgetError::DepthExceeded { depth: 2, max: 2 }))
    ));
}

#[test]
fn the_gate_asks_for_permission_before_budgets() {
    let supervisor = supervisor();
    let mut parent = parent(AgentBudget { max_requests: Some(1), max_depth: Some(0), ..Default::default() });
    assert!(matches!(
        supervisor.check_spawn(&parent, &AgentBudget::default()),
        Err(SupervisorError::Budget(_))
    ));
    parent.budget.max_depth = None;
    assert!(matches!(
        supervisor.check_spawn(&parent, &AgentBudget::default()),
        Err(SupervisorError::BudgetEscalation(BudgetField::MaxRequests))
    ));
    parent.capabilities.can_spawn_agents = false;
    parent.budget.max_depth = Some(0);
    assert!(matches!(
        supervisor.check_spawn(&parent, &AgentBudget::default()),
        Err(SupervisorError::SpawnNotAllowed(AgentId(1)))
    ));
}

#[test]
fn a_spawned_child_is_made_as_asked() {
    let mut supervisor = supervisor();
    let parent = parent(AgentBudget::default());
    let id = ToolId(7);
    let tool = ToolEntry {
        id,
        capability: ToolCapability {
            descriptor: ToolDescriptor {
                id,
                name: "fs.read".to_string(),
                description: "Read files".to_string(),
                input_schema: "{}".to_string(),
            },
            policy: ToolPolicy { permission: PermissionMode::Allow, enabled: true },
            delegatable: true,
        },
    };
    let mut child_spec = spec(SpawnMode::AwaitResult);
    child_spec.execution_params.model = Some("small".to_string());
    child_spec.budget.max_requests = Some(3);
    let child = supervisor
        .spawn_child(&parent, child_spec, ready(10, capabilities(vec![tool])), EventId(5), 6)
        .expect("spawn child should succeed");

    assert_eq!(child.agent.id, AgentId(10));
    assert_eq!(child.agent.parent_id, Some(AgentId(1)));
    assert_eq!(child.agent.session_id, SessionId(2));
    assert_eq!(child.agent.state.depth, 1);
    assert_eq!(child.agent.state.system_prompt, "child");
    assert_eq!(child.agent.state.execution_params.model.as_deref(), Some("small"));
    assert_eq!(child.agent.backend.reference.integration, "parent-integration");
    assert_eq!(child.agent.budget.max_requests, Some(3));
    assert!(!child.detached);
    assert!(supervisor.is_live(AgentId(10)));
    let kept = supervisor.child_capabilities(AgentId(10)).expect("capabilities are kept");
    assert_eq!(kept.tools.tools.len(), 1);
    assert_eq!(kept.tools.tools[0].id, id);
    assert_eq!(supervisor.child_workspace(AgentId(10)), Some(&"workspace"));
    assert!(supervisor.child_workspace(AgentId(11)).is_none());

    let envelope = child.announcement;
    assert_eq!(envelope.event_id, EventId(5));
    assert_eq!(envelope.agent_id, AgentId(1));
    assert_eq!(envelope.timestamp, 6);
    assert!(matches!(envelope.event, AgentEvent::ChildAgentSpawned { agent_id: AgentId(10) }));
}

#[test]
fn an_explicit_backend_is_recorded() {
    let mut supervisor = supervisor();
    let parent = parent(AgentBudget::default());
    let mut child_spec = spec(SpawnMode::Concurrent);
    child_spec.backend = BackendPolicy::Explicit(reference("other"));
    child_spec.role = None;
    let child = supervisor
        .spawn_child(&parent, child_spec, ready(10, capabilities(vec![])), EventId(5), 6)
        .expect("spawn child should succeed");
    assert_eq!(child.agent.backend.reference.integration, "other");
    assert_eq!(child.agent.state.system_prompt, "");
    assert!(child.detached);
}

#[test]
fn a_failed_stage_spawns_nothing() {
    let mut supervisor = supervisor();
    let parent = parent(AgentBudget::default());
    let backend = SpawnWork::BackendFailed(IntegrationError::NotRegistered("x".to_string()));
    assert!(matches!(
        supervisor.spawn_child(&parent, spec(SpawnMode::Concurrent), backend, EventId(5), 6),
        Err(SupervisorError::Integration(IntegrationError::NotRegistered(_)))
    ));
    let refused = SpawnWork::CapabilitiesRefused("no".to_string());
    assert!(matches!(
        supervisor.spawn_child(&parent, spec(SpawnMode::Concurrent), refused, EventId(5), 6),
        Err(SupervisorError::Capability(_))
    ));
    let workspace = SpawnWork::WorkspaceFailed("no".to_string());
    assert!(matches!(
        supervisor.spawn_child(&parent, spec(SpawnMode::Concurrent), workspace, EventId(5), 6),
        Err(SupervisorError::Workspace(_))
    ));
    assert!(!supervisor.is_live(AgentId(10)));
}

#[test]
fn cancelling_a_session_reaches_children_and_grandchildren() {
    let mut cancel = SessionCancellation::new();
    let mut supervisor: AgentSupervisor<&str> = AgentSupervisor::new(SessionId(2), cancel.clone());
    let parent = parent(AgentBudget::default());
    let child = supervisor
        .spawn_child(&parent, spec(SpawnMode::Concurrent), ready(10, capabilities(vec![])), EventId(5), 6)
        .expect("spawn child");
    let grandchild = supervisor
        .spawn_child(&child.agent, spec(SpawnMode::Concurrent), ready(11, capabilities(vec![])), EventId(5), 6)
        .expect("spawn grandchild");
    assert!(!grandchild.cancel.is_cancelled());
    cancel.cancel();
    assert!(child.cancel.is_cancelled());
    assert!(grandchild.cancel.is_cancelled());
}

#[test]
fn cancelling_a_child_cancels_its_subtree_only() {
    let mut supervisor = supervisor();
    let parent = parent(AgentBudget::default());
    let child = supervisor
        .spawn_child(&parent, spec(SpawnMode::Concurrent), ready(10, capabilities(vec![])), EventId(5), 6)
        .expect("spawn child");
    let sibling = supervisor
        .spawn_child(&parent, spec(SpawnMode::Concurrent), ready(11, capabilities(vec![])), EventId(5), 6)
        .expect("spawn sibling");
    let grandchild = supervisor
        .spawn_child(&child.agent, spec(SpawnMode::Concurrent), ready(12, capabilities(vec![])), EventId(5), 6)
        .expect("spawn grandchild");
    assert!(supervisor.cancel_child(AgentId(10)).is_ok());
    assert!(child.cancel.is_cancelled());
    assert!(grandchild.cancel.is_cancelled());
    assert!(!sibling.cancel.is_cancelled());
    assert!(supervisor.is_live(AgentId(10)));
    assert!(matches!(
        supervisor.cancel_child(AgentId(99)),
        Err(SupervisorError::ChildResultLost(AgentId(99)))
    ));
}

#[test]
fn a_child_derives_its_token_from_a_registered_parent() {
    let cancel = SessionCancellation::new();
    let mut supervisor: AgentSupervisor<&str> = AgentSupervisor::new(SessionId(2), cancel.clone());
    let parent = parent(AgentBudget::default());
    let token = cancel.child_token();
    supervisor.register_agent_token(parent.id, token.clone());
    let child = supervisor
        .spawn_child(&parent, spec(SpawnMode::Concurrent), ready(10, capabilities(vec![])), EventId(5), 6)
        .expect("spawn child");
    token.cancel();
    assert!(child.cancel.is_cancelled());
    assert!(!cancel.is_cancelled());
}

#[test]
fn an_awaited_child_leaves_the_books_once() {
    let mut supervisor = supervisor();
    let parent = parent(AgentBudget::default());
    supervisor
        .spawn_child(&parent, spec(SpawnMode::AwaitResult), ready(10, capabilities(vec![])), EventId(5), 6)
        .expect("spawn child");
    assert!(supervisor.begin_await(AgentId(10)).is_ok());
    assert!(!supervisor.is_live(AgentId(10)));
    assert!(matches!(
        supervisor.begin_await(AgentId(10)),
        Err(SupervisorError::ChildResultLost(AgentId(10)))
    ));
    let result = AgentResult { summary: "done".to_string(), usage: AgentUsageSummary::default() };
    assert_eq!(supervisor.end_await(AgentId(10), Some(result)).expect("result").summary, "done");
    assert!(matches!(
        supervisor.end_await(AgentId(10), None),
        Err(SupervisorError::ChildResultLost(AgentId(10)))
    ));
}

#[test]
fn a_child_reports_how_it_ended() {
    let result = AgentResult { summary: "done".to_string(), usage: AgentUsageSummary::default() };
    let (command, handed) =
        child_completion(AgentId(10), "AgentId(10)", Some(Ok(result)), AgentStatus::Idle);
    assert!(matches!(command, AgentCommand::ChildCompleted { agent_id: AgentId(10), .. }));
    assert_eq!(handed.summary, "done");

    let error =
        AgentError { message: "m".to_string(), code: "c".to_string(), details: None };
    let (command, handed) =
        child_completion(AgentId(10), "AgentId(10)", Some(Err(error)), AgentStatus::Failed);
    assert!(matches!(command, AgentCommand::ChildFailed { agent_id: AgentId(10), .. }));
    assert_eq!(handed.summary, "child AgentId(10) failed");

    let (command, handed) =
        child_completion(AgentId(10), "AgentId(10)", None, AgentStatus::Cancelled);
    assert!(matches!(command, AgentCommand::ChildCompleted { agent_id: AgentId(10), .. }));
    assert_eq!(handed.summary, "child AgentId(10) finished with status Cancelled");
}

#[test]
fn a_driver_awaits_or_detaches() {
    let detach = drive_step(SpawnMode::Concurrent, AgentId(10));
    assert_eq!(detach, DriveStep::Detach(AgentId(10)));
    let lost = || Err(SupervisorError::ChildResultLost(AgentId(10)));
    assert!(matches!(
        drive_outcome(detach, lost()),
        Ok(SpawnOutcome::Detached(AgentId(10)))
    ));
    let wait = drive_step(SpawnMode::AwaitResult, AgentId(10));
    assert_eq!(wait, DriveStep::Await(AgentId(10)));
    let result = AgentResult { summary: "done".to_string(), usage: AgentUsageSummary::default() };
    assert!(matches!(drive_outcome(wait, Ok(result)), Ok(SpawnOutcome::Awaited(_))));
    assert!(matches!(
        drive_outcome(wait, lost()),
        Err(SupervisorError::ChildResultLost(AgentId(10)))
    ));
}

#[test]
fn spawn_child_emits_child_agent_spawned_event() {
    let mut supervisor = supervisor();
    let parent = parent(AgentBudget::default());
    let child = supervisor
        .spawn_child(
            &parent,
            spec(SpawnMode::Concurrent),
            ready(10, capabilities(vec![])),
            EventId(5),
            6,
        )
        .expect("root should spawn child A1");
    assert!(
        matches!(child.announcement.event, AgentEvent::ChildAgentSpawned { agent_id } if agent_id == AgentId(10)),
        "ChildAgentSpawned should be emitted for the new child"
    );
}

#[test]
fn supervisor_errors_have_messages() {
    let cases = vec![
        (
            SupervisorError::Budget(BudgetError::DepthExceeded { depth: 2, max: 2 }),
            "budget: it",
        ),
        (SupervisorError::Capability("no".to_string()), "capability: no"),
        (
            SupervisorError::Integration(IntegrationError::NotRegistered("x".to_string())),
            "integration: integration is not registered: x",
        ),
        (SupervisorError::Workspace("gone".to_string()), "workspace: gone"),
        (SupervisorError::ParentNotFound(AgentId(1)), "parent agent not found: it"),
        (
            SupervisorError::SpawnNotAllowed(AgentId(1)),
            "agent it is not allowed to spawn children",
        ),
        (
            SupervisorError::BudgetEscalation(BudgetField::MaxTotalTokens),
            "child budget is looser than its parent for max_total_tokens",
        ),
        (
            SupervisorError::ChildResultLost(AgentId(1)),
            "child it finished without producing a result",
        ),
    ];
    for (error, message) in cases {
        assert_eq!(error.message("it"), message);
    }
}

#[test]
fn a_session_runs_no_more_agents_than_it_may() {
    let cancel = SessionCancellation::new();
    let mut supervisor: AgentSupervisor<&str> =
        AgentSupervisor::new(SessionId(2), cancel.clone()).with_agent_limit(2);
    let parent = parent(AgentBudget::default());
    supervisor.register_agent_token(parent.id, cancel.child_token());
    let work = ready(10, capabilities(vec![]));
    assert!(supervisor
        .spawn_child(&parent, spec(SpawnMode::Concurrent), work, EventId(5), 6)
        .is_ok());
    let work = ready(11, capabilities(vec![]));
    let error = supervisor
        .spawn_child(&parent, spec(SpawnMode::Concurrent), work, EventId(5), 6)
        .err()
        .expect("the session is full");
    assert!(matches!(error, SupervisorError::AgentLimit(2)));
    assert_eq!(error.message("2"), "session already runs its maximum of 2 agents");
    assert!(!supervisor.is_live(AgentId(11)));
    supervisor.deregister(AgentId(10));
    assert!(supervisor.check_spawn(&parent, &parent.budget).is_ok());
}

#[test]
fn a_session_without_a_limit_runs_any_number_of_agents() {
    let mut supervisor = supervisor();
    let parent = parent(AgentBudget::default());
    for id in 0..40 {
        let work = ready(100 + id, capabilities(vec![]));
        assert!(supervisor
            .spawn_child(&parent, spec(SpawnMode::Concurrent), work, EventId(5), 6)
            .is_ok());
    }
}

#[test]
fn cancelling_a_child_leaves_its_session_running() {
    let cancel = SessionCancellation::new();
    let mut supervisor: AgentSupervisor<&str> = AgentSupervisor::new(SessionId(2), cancel.clone());
    let parent = parent(AgentBudget::default());
    let work = ready(10, capabilities(vec![]));
    let child = supervisor
        .spawn_child(&parent, spec(SpawnMode::Concurrent), work, EventId(5), 6)
        .expect("spawned");
    assert!(!child.cancel.is_cancelled());
    assert!(supervisor.cancel_child(AgentId(10)).is_ok());
    assert!(child.cancel.is_cancelled());
    assert!(!cancel.is_cancelled());
}

#[test]
fn a_spawn_waits_for_a_place_but_not_for_ever() {
    let cancel = SessionCancellation::new();
    let mut supervisor: AgentSupervisor<&str> =
        AgentSupervisor::new(SessionId(2), cancel.clone()).with_agent_limit(2);
    let mut parent = parent(AgentBudget::default());
    supervisor.register_agent_token(parent.id, cancel.child_token());
    let budget = AgentBudget::default();
    assert!(matches!(
        supervisor.spawn_admission(&parent, &budget, false, 0, 10),
        SpawnAdmission::Ready
    ));
    let work = ready(10, capabilities(vec![]));
    assert!(supervisor
        .spawn_child(&parent, spec(SpawnMode::Concurrent), work, EventId(5), 6)
        .is_ok());
    assert!(matches!(
        supervisor.spawn_admission(&parent, &budget, false, 9, 10),
        SpawnAdmission::Wait
    ));
    for (cancelled, waited) in [(false, 10), (false, 11), (true, 0)] {
        assert!(matches!(
            supervisor.spawn_admission(&parent, &budget, cancelled, waited, 10),
            SpawnAdmission::Refused(SupervisorError::AgentLimit(2))
        ));
    }
    supervisor.deregister(AgentId(10));
    assert!(matches!(
        supervisor.spawn_admission(&parent, &budget, true, 11, 10),
        SpawnAdmission::Ready
    ));
    parent.capabilities.can_spawn_agents = false;
    assert!(matches!(
        supervisor.spawn_admission(&parent, &budget, false, 0, 10),
        SpawnAdmission::Refused(SupervisorError::SpawnNotAllowed(AgentId(1)))
    ));
}
