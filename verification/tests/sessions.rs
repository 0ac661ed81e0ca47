use harness_runtime::agent::{
    Agent, AgentCapabilities, AgentError, AgentOutcome, AgentStatus, AgentUsageMetrics,
    AgentUsageSummary, BackendBinding, BackendCapabilities, BackendDescriptor, BackendReference, ExecutionParams,
    UserInput,
};
use harness_runtime::agent_runner::{BackendDispatch, ToolDispatch};
use harness_runtime::agent_supervisor::SupervisorError;
use harness_runtime::budget::{AgentBudget, UsdAmount};
use harness_runtime::ids::{
    AgentId, BackendId, EventId, PermissionId, RequestId, RunId, SessionId, ToolCallId, ToolId,
};
use harness_runtime::protocol::{
    AgentCommand, AgentEvent, AgentEventEnvelope, EventVisibility, ExecutionRequest,
    PermissionDecision,
};
use harness_runtime::scheduler::{CapacityError, SchedulerConfig};
use harness_runtime::session_client::{
    metrics_from_live, session_status_from_live, snapshot, SessionSnapshot as ClientSnapshot,
    SnapshotTexts,
};
use harness_runtime::session_manager::contracts::{
    RestoreStart, SessionLifecycle, SessionRegistry, SessionRestorer, SessionService,
};
use harness_runtime::session_manager::manager::{
    close_all_sessions, finish_close, initial_checkpoint_failure, CloseOutcome,
};
use harness_runtime::session_manager::supervisor::RootTaskEnd;
use harness_runtime::session_manager::{SessionManager, SessionManagerError, SessionSupervisor};
use harness_runtime::session_runtime::event_bus::{bus_step, BusStep, PollStep, Received};
use harness_runtime::session_runtime::runtime::{
    cancel_run_command, delivery_outcome, follow_up_command, resolve_permission_command,
    steer_command,
};
use harness_runtime::session_runtime::{
    AgentLiveState, SessionCommand, SessionError, SessionEventBus, SessionRuntime, SessionStatus,
};
use harness_runtime::tools::{
    AgentToolset, PermissionMode, ToolCall, ToolCapability, ToolDescriptor, ToolEntry, ToolPolicy,
    ToolRequest,
};

fn descriptor() -> BackendDescriptor {
    BackendDescriptor {
        id: BackendId(3),
        name: "fake".to_string(),
        description: "fake".to_string(),
        capabilities: BackendCapabilities::default(),
    }
}

fn tool(id: u128, name: &str, enabled: bool) -> ToolEntry {
    let id = ToolId(id);
    ToolEntry {
        id,
        capability: ToolCapability {
            descriptor: ToolDescriptor {
                id,
                name: name.to_string(),
                description: String::new(),
                input_schema: "{}".to_string(),
            },
            policy: ToolPolicy { permission: PermissionMode::Allow, enabled },
            delegatable: true,
        },
    }
}

fn fresh(stored: bool) -> (SessionRuntime<()>, Agent) {
    SessionRuntime::new_with_scheduler_and_integration_id(
        SessionId(1),
        AgentId(2),
        Some("integration".to_string()),
        "fresh".to_string(),
        "configuration".to_string(),
        descriptor(),
        AgentToolset { tools: vec![tool(1, "fs.read", true), tool(2, "fs.edit", false)] },
        &SchedulerConfig::default(),
        stored,
    )
}

fn client_snapshot(runtime: &SessionRuntime<()>) -> ClientSnapshot {
    let texts = SnapshotTexts {
        session: "session-1".to_string(),
        root_agent: "agent-2".to_string(),
        now: "noon".to_string(),
    };
    snapshot(runtime, runtime.cancellation.is_cancelled(), texts, 12)
}

fn prompt(text: &str) -> SessionCommand {
    SessionCommand::Prompt(UserInput { text: text.to_string(), attachments: None })
}

fn envelope(event: AgentEvent, session_sequence: Option<u64>) -> AgentEventEnvelope {
    AgentEventEnvelope {
        event_id: EventId(1),
        session_id: SessionId(1),
        agent_id: AgentId(2),
        parent_agent_id: None,
        run_id: Some(RunId(3)),
        agent_sequence: 0,
        session_sequence,
        timestamp: 7,
        visibility: EventVisibility::User,
        event,
    }
}

#[test]
fn a_fresh_session_has_one_root_agent() {
    let (runtime, root) = fresh(true);
    assert_eq!(runtime.session_id, SessionId(1));
    assert_eq!(runtime.state.status, SessionStatus::Idle);
    assert_eq!(runtime.state.root_agent_id, AgentId(2));
    assert_eq!(runtime.state.agents.len(), 1);
    assert!(runtime.stored);
    assert_eq!(root.id, AgentId(2));
    assert_eq!(root.parent_id, None);
    assert_eq!(root.state.depth, 0);
    assert_eq!(root.backend.reference.integration, "integration");
    assert_eq!(root.backend.reference.configuration, "configuration");
    assert!(root.capabilities.can_spawn_agents);
    assert_eq!(root.capabilities.max_child_depth, Some(8));
    assert!(root.capabilities.workspace.can_read);
    assert!(!root.capabilities.workspace.can_write, "the tool is disabled");
    assert!(!root.capabilities.workspace.can_search);
}

#[test]
fn an_unregistered_backend_gets_a_fresh_integration() {
    let (_, root) = SessionRuntime::<()>::new_with_scheduler_and_integration_id(
        SessionId(1),
        AgentId(2),
        None,
        "fresh".to_string(),
        "configuration".to_string(),
        descriptor(),
        AgentToolset::empty(),
        &SchedulerConfig::default(),
        false,
    );
    assert_eq!(root.backend.reference.integration, "fresh");
}

#[test]
fn a_root_runner_is_wired_into_its_session() {
    let (mut runtime, root) = fresh(true);
    let runner = runtime.spawn_runner(root, "{}".to_string(), "{}".to_string());
    assert!(runner.survives_runs);
    assert!(runner.supervised);
    assert!(runner.stored);
    assert!(runner.committed);
    assert_eq!(runtime.projection.len(), 1);
    assert!(!runner.cancel.is_cancelled());
    runtime.cancel();
    assert!(runner.cancel.is_cancelled());
    assert!(!runtime.bus_cancel.is_cancelled(), "observers still see how the session ends");
    runtime.shutdown();
    assert!(runtime.bus_cancel.is_cancelled());
}

#[test]
fn a_child_runner_is_one_shot() {
    let (mut runtime, mut child) = fresh(false);
    child.id = AgentId(9);
    child.parent_id = Some(AgentId(2));
    let runner = runtime.spawn_runner(child, "{}".to_string(), "{}".to_string());
    assert!(!runner.survives_runs);
    assert!(!runner.stored);
    assert!(!runner.committed);
}

#[test]
fn a_prompt_takes_an_idle_session_to_running() {
    let (mut runtime, _) = fresh(false);
    for status in [SessionStatus::Idle, SessionStatus::Completed, SessionStatus::Cancelled] {
        runtime.state.status = status;
        let command = runtime.send_command_when(prompt("hello"), false).expect("accepted");
        assert!(matches!(command, AgentCommand::StartRun { input } if input.text == "hello"));
        assert_eq!(runtime.state.status, SessionStatus::Running);
    }
    for status in [SessionStatus::Running, SessionStatus::Failed] {
        runtime.state.status = status;
        assert!(runtime.send_command_when(prompt("hello"), false).is_ok());
        assert_eq!(runtime.state.status, status);
    }
}

#[test]
fn a_cancelled_session_takes_no_prompt() {
    let (mut runtime, _) = fresh(false);
    assert!(matches!(
        runtime.send_command_when(prompt("hello"), true),
        Err(SessionError::Cancelled)
    ));
    assert_eq!(runtime.state.status, SessionStatus::Idle);
    assert!(matches!(
        runtime.send_command_when(SessionCommand::Cancel, true),
        Ok(AgentCommand::Cancel)
    ));
}

#[test]
fn cancelling_by_command_cancels_the_entire_session() {
    let (mut runtime, root) = fresh(false);
    let runner = runtime.spawn_runner(root, "{}".to_string(), "{}".to_string());
    assert!(matches!(runtime.send_command(SessionCommand::Cancel), Ok(AgentCommand::Cancel)));
    assert!(runtime.cancellation.is_cancelled());
    assert!(runner.cancel.is_cancelled());
    assert_eq!(runtime.state.status, SessionStatus::Cancelled);
    assert_eq!(runtime.state_snapshot().status, SessionStatus::Cancelled);
    assert!(!runtime.bus_cancel.is_cancelled());
    assert!(matches!(runtime.send_command(prompt("hello")), Err(SessionError::Cancelled)));

    let (mut failed, _) = fresh(false);
    failed.mark_failed("root task died".to_string());
    assert!(failed.send_command(SessionCommand::Cancel).is_ok());
    assert!(failed.cancellation.is_cancelled());
    assert_eq!(failed.state.status, SessionStatus::Failed);
}

#[test]
fn a_prompt_after_a_successful_run_is_shown_as_running() {
    let (mut runtime, root) = fresh(false);
    runtime.spawn_runner(root, "{}".to_string(), "{}".to_string());
    assert!(runtime.send_command(prompt("first")).is_ok());
    for outcome in [AgentOutcome::Success, AgentOutcome::Failed, AgentOutcome::Cancelled] {
        runtime.live_state.publish_outcome(AgentId(2), outcome);
        assert!(runtime.send_command(prompt("next")).is_ok());
        assert_eq!(runtime.state_snapshot().status, SessionStatus::Running);
        assert_eq!(client_snapshot(&runtime).status, SessionStatus::Running);
    }
}

#[test]
fn a_failed_session_is_shown_as_failed_to_a_client() {
    let (mut runtime, _) = fresh(false);
    runtime.live_state.set(AgentId(2), live(AgentStatus::Idle, Some(AgentOutcome::Success)));
    assert_eq!(client_snapshot(&runtime).status, SessionStatus::Completed);
    runtime.mark_failed("root task died".to_string());
    assert_eq!(client_snapshot(&runtime).status, SessionStatus::Failed);
    assert!(runtime.send_command(prompt("hello")).is_ok());
    assert_eq!(client_snapshot(&runtime).status, SessionStatus::Failed);
}

#[test]
fn snapshot_reflects_in_flight_then_completed_status() {
    let (mut runtime, root) = fresh(false);
    let mut runner = runtime.spawn_runner(root, "{}".to_string(), "{}".to_string());
    assert!(runtime.send_command(prompt("hello")).is_ok());
    assert_eq!(client_snapshot(&runtime).status, SessionStatus::Running);

    let metrics = AgentUsageMetrics {
        total_runs: 1,
        total_requests: 1,
        total_tool_calls: 0,
        total_tokens: Some(7),
        total_cost: None,
    };
    let usage = AgentUsageSummary { inclusive_usage: metrics, ..AgentUsageSummary::default() };
    runner.agent.state.status = AgentStatus::Streaming;
    runtime.publish_status(&runner, metrics, usage, "{}".to_string(), "{}".to_string());
    assert_eq!(client_snapshot(&runtime).status, SessionStatus::Running);

    let event = AgentEvent::Completed { outcome: AgentOutcome::Success };
    runner.emit(event, EventId(1), 7, &mut runtime.live_state);
    runner.agent.state.status = AgentStatus::Idle;
    runtime.publish_status(&runner, metrics, usage, "{}".to_string(), "{}".to_string());
    let after = client_snapshot(&runtime);
    assert_eq!(after.status, SessionStatus::Completed);
    assert_eq!(after.root_agent_status.metrics.total_tokens, Some(7));
    assert_eq!(after.usage.cumulative.total_requests, 1);
}

#[test]
fn snapshot_reports_failed_status_truthfully() {
    let (mut runtime, root) = fresh(false);
    let mut runner = runtime.spawn_runner(root, "{}".to_string(), "{}".to_string());
    assert!(runtime.send_command(prompt("hello")).is_ok());
    let error = AgentError {
        message: "scripted failure".to_string(),
        code: "TEST_FAILURE".to_string(),
        details: None,
    };
    let event = AgentEvent::Failed { error };
    runner.emit(event, EventId(1), 7, &mut runtime.live_state);
    runner.agent.state.status = AgentStatus::Idle;
    runtime.publish_status(
        &runner,
        AgentUsageMetrics::default(),
        AgentUsageSummary::default(),
        "{}".to_string(),
        "{}".to_string(),
    );
    assert_eq!(client_snapshot(&runtime).status, SessionStatus::Failed);
    runner.agent.state.status = AgentStatus::Failed;
    runtime.publish_status(
        &runner,
        AgentUsageMetrics::default(),
        AgentUsageSummary::default(),
        "{}".to_string(),
        "{}".to_string(),
    );
    assert_eq!(client_snapshot(&runtime).status, SessionStatus::Failed);
}

#[test]
fn session_commands_become_agent_commands() {
    let (mut runtime, _) = fresh(false);
    assert!(matches!(
        runtime.send_command(SessionCommand::Pause),
        Ok(AgentCommand::Pause)
    ));
    assert!(matches!(
        runtime.send_command(SessionCommand::Resume),
        Ok(AgentCommand::Resume)
    ));
    let params = ExecutionParams { model: Some("m".to_string()), settings: None };
    assert!(matches!(
        runtime.send_command(SessionCommand::ConfigureExecution(params)),
        Ok(AgentCommand::ConfigureExecution { params }) if params.model.as_deref() == Some("m")
    ));
    assert!(matches!(cancel_run_command(), AgentCommand::Cancel));
    let input = || UserInput { text: "x".to_string(), attachments: None };
    assert!(matches!(steer_command(input()), AgentCommand::Steer { .. }));
    assert!(matches!(follow_up_command(input()), AgentCommand::FollowUp { .. }));
    assert!(matches!(
        resolve_permission_command(PermissionId(4), PermissionDecision::Deny),
        AgentCommand::PermissionResolved {
            id: PermissionId(4),
            decision: PermissionDecision::Deny
        }
    ));
}

#[test]
fn a_closed_mailbox_is_reported() {
    assert!(delivery_outcome(true).is_ok());
    assert!(matches!(delivery_outcome(false), Err(SessionError::ChannelClosed)));
}

#[test]
fn session_errors_have_messages() {
    assert_eq!(SessionError::SessionNotFound.message(), "session not found");
    assert_eq!(SessionError::Cancelled.message(), "operation cancelled");
    assert_eq!(SessionError::ChannelClosed.message(), "command channel closed");
    let error =
        SessionError::InvalidState { expected: "Idle".to_string(), actual: "Running".to_string() };
    assert_eq!(error.message(), "invalid state: expected Idle, actual Running");
}

#[test]
fn a_failed_session_stays_failed() {
    let (mut runtime, _) = fresh(false);
    runtime.mark_failed("root task died".to_string());
    runtime.cancel();
    let shown = runtime.state_snapshot();
    assert_eq!(shown.status, SessionStatus::Failed);
    assert_eq!(shown.error.as_deref(), Some("root task died"));
    assert_eq!(shown.agent_count, 1);
}

#[test]
fn a_cancelled_session_is_shown_at_once() {
    let (mut runtime, _) = fresh(false);
    assert_eq!(runtime.state_snapshot().status, SessionStatus::Idle);
    assert!(matches!(runtime.cancel(), AgentCommand::Cancel));
    assert_eq!(runtime.state_snapshot().status, SessionStatus::Cancelled);
}

fn live(status: AgentStatus, last_outcome: Option<AgentOutcome>) -> AgentLiveState {
    let mut live = AgentLiveState::default();
    live.status = status;
    live.last_outcome = last_outcome;
    live
}

#[test]
fn the_root_agent_shows_through() {
    let (mut runtime, _) = fresh(false);
    let cases = [
        (live(AgentStatus::Streaming, None), SessionStatus::Running),
        (live(AgentStatus::WaitingForPermission, None), SessionStatus::Running),
        (live(AgentStatus::Idle, Some(AgentOutcome::Success)), SessionStatus::Completed),
        (live(AgentStatus::Idle, Some(AgentOutcome::Failed)), SessionStatus::Idle),
        (live(AgentStatus::Idle, None), SessionStatus::Idle),
        (live(AgentStatus::Failed, None), SessionStatus::Failed),
        (live(AgentStatus::Cancelled, None), SessionStatus::Cancelled),
    ];
    for (state, expected) in cases {
        runtime.live_state.set(AgentId(2), state);
        assert_eq!(runtime.snapshot_when(false).status, expected);
    }
    let mut failed = live(AgentStatus::Failed, None);
    failed.last_error =
        Some(AgentError { message: "m".to_string(), code: "c".to_string(), details: None });
    runtime.live_state.set(AgentId(2), failed);
    assert_eq!(runtime.snapshot_when(false).error.as_deref(), Some("m"));
    assert_eq!(runtime.agent_live_state(AgentId(2)).status, AgentStatus::Failed);
    assert_eq!(runtime.agent_live_state(AgentId(77)).status, AgentStatus::Idle);
}

#[test]
fn a_client_sees_the_outcome_of_the_last_run() {
    let fallback = SessionStatus::Idle;
    let cases = [
        (live(AgentStatus::Idle, Some(AgentOutcome::Success)), SessionStatus::Completed),
        (live(AgentStatus::Idle, Some(AgentOutcome::Failed)), SessionStatus::Failed),
        (live(AgentStatus::Idle, Some(AgentOutcome::Cancelled)), SessionStatus::Cancelled),
        (live(AgentStatus::Idle, None), SessionStatus::Idle),
        (live(AgentStatus::PreparingContext, None), SessionStatus::Running),
        (live(AgentStatus::WaitingForBackend, None), SessionStatus::Running),
        (live(AgentStatus::Executing, None), SessionStatus::Running),
        (live(AgentStatus::WaitingForChildren, None), SessionStatus::Running),
        (live(AgentStatus::Paused, None), SessionStatus::Running),
        (live(AgentStatus::Completed, None), SessionStatus::Completed),
        (live(AgentStatus::Failed, Some(AgentOutcome::Success)), SessionStatus::Failed),
        (live(AgentStatus::Cancelled, None), SessionStatus::Cancelled),
    ];
    for (state, expected) in cases {
        assert_eq!(session_status_from_live(&state, fallback), expected);
    }
}

#[test]
fn a_client_snapshot_reports_usage_and_context() {
    let (mut runtime, _) = fresh(false);
    let mut state = live(AgentStatus::Idle, Some(AgentOutcome::Success));
    state.total_requests = 4;
    state.total_cost_usd = Some(UsdAmount { mantissa: 125, scale: 2 });
    state.usage.inclusive_usage = AgentUsageMetrics {
        total_runs: 1,
        total_requests: 9,
        total_tool_calls: 2,
        total_tokens: Some(30),
        total_cost: None,
    };
    let metrics = metrics_from_live(&state);
    assert_eq!(metrics.total_requests, 4);
    assert_eq!(metrics.total_tool_calls, 2);
    runtime.live_state.set(AgentId(2), state);
    if let Some(root) = runtime.state.agents.get_mut(&2) {
        root.state.context.generation = 5;
        root.state.context.pinned_items = 6;
    }
    let texts = SnapshotTexts {
        session: "session-1".to_string(),
        root_agent: "agent-2".to_string(),
        now: "noon".to_string(),
    };
    let shown = snapshot(&runtime, false, texts, 12);
    assert_eq!(shown.status, SessionStatus::Completed);
    assert_eq!(shown.session_id, SessionId(1));
    assert_eq!(shown.root_agent_id, AgentId(2));
    assert_eq!(shown.timestamp, 12);
    assert_eq!(shown.usage.cumulative.total_tokens, Some(30));
    assert_eq!(shown.usage.cumulative.total_requests, 4);
    assert_eq!(shown.usage.session_id, "session-1");
    assert_eq!(shown.root_agent_status.agent_id, "agent-2");
    assert_eq!(shown.root_agent_status.metrics, metrics);
    assert_eq!(shown.context.generation, 5);
    assert_eq!(shown.context.pinned_items, 6);
}

#[test]
fn the_bus_numbers_what_is_not_numbered() {
    let mut bus = SessionEventBus::new();
    let event = || AgentEvent::RunStarted { run_id: RunId(3) };
    let mut number = |sequence: Option<u64>| match bus.poll(Received::Event(envelope(event(), sequence))) {
        PollStep::Forward(forwarded) => forwarded.session_sequence,
        _ => panic!("an event is forwarded"),
    };
    assert_eq!(number(None), Some(0));
    assert_eq!(number(Some(41)), Some(41));
    assert_eq!(number(None), Some(1));
    assert_eq!(number(None), Some(2));
}

#[test]
fn the_bus_keeps_quiet_streams_and_drops_closed_ones() {
    let mut bus = SessionEventBus::new();
    assert!(matches!(bus.poll(Received::Empty), PollStep::KeepStream));
    assert!(matches!(bus.poll(Received::Closed), PollStep::DropStream));
    assert!(matches!(bus.poll(Received::Lagged(3)), PollStep::Continue));
    assert_eq!(bus_step(true, true), BusStep::DrainAndStop);
    assert_eq!(bus_step(false, true), BusStep::Yield);
    assert_eq!(bus_step(false, false), BusStep::Sleep);
}

fn manager(stored: bool) -> SessionManager<&'static str, u32> {
    SessionManager::new_with_store(stored)
}

#[test]
fn a_created_session_is_active_under_its_permit() {
    let mut manager = manager(true);
    assert!(manager.create_session(SessionId(1), Ok(11), "one").is_ok());
    assert!(manager.create_session(SessionId(2), Ok(22), "two").is_ok());
    assert_eq!(manager.active_session_count(), 2);
    assert_eq!(manager.session_handle(SessionId(1)), Some(&"one"));
    assert_eq!(manager.session_handle(SessionId(3)), None);
    let mut ids: Vec<u128> = manager.active_session_ids().iter().map(|id| id.0).collect();
    ids.sort();
    assert_eq!(ids, vec![1, 2]);
    assert_eq!(manager.close_session(SessionId(1)).expect("active"), ("one", Some(11)));
    assert!(matches!(
        manager.close_session(SessionId(1)),
        Err(SessionManagerError::NotFound(SessionId(1)))
    ));
    assert_eq!(manager.active_session_count(), 1);
}

#[test]
fn a_rejected_admission_creates_nothing() {
    let mut manager = manager(true);
    let full = CapacityError { kind: "session", waited: 2_000_000_000 };
    let error = manager.create_session(SessionId(1), Err(full), "one").expect_err("rejected");
    assert_eq!(
        error.message("s"),
        "session admission rejected: at capacity: no session permit became available within 2s"
    );
    assert_eq!(manager.active_session_count(), 0);
}

#[test]
fn a_restore_needs_a_store_and_an_inactive_session() {
    assert!(matches!(
        manager(false).restore_session(SessionId(1)),
        Err(SessionManagerError::RestoreNotSupported)
    ));
    let mut manager = manager(true);
    assert!(matches!(manager.restore_session(SessionId(1)), Ok(RestoreStart::Load)));
    manager.finish_restore(SessionId(1), "restored", 5);
    assert!(matches!(
        manager.restore_session(SessionId(1)),
        Ok(RestoreStart::Active(&"restored"))
    ));
}

fn active<R, P, S: SessionService<R, P>>(service: &S) -> usize {
    service.active_session_count()
}

#[test]
fn a_manager_is_a_session_service() {
    assert_eq!(active::<&'static str, u32, _>(&manager(true)), 0);
}

#[test]
fn a_failed_first_checkpoint_fails_the_session() {
    let failed = || Err("disk full".to_string());
    assert_eq!(
        initial_checkpoint_failure(true, failed()),
        Some("initial durable checkpoint failed: disk full".to_string())
    );
    assert_eq!(initial_checkpoint_failure(false, failed()), None);
    assert_eq!(initial_checkpoint_failure(true, Ok(())), None);
}

#[test]
fn a_failed_last_checkpoint_surfaces() {
    assert!(finish_close(SessionId(1), Ok(())).is_ok());
    let error = finish_close(SessionId(1), Err("disk full".to_string())).expect_err("failed");
    assert_eq!(
        error.message("s-1"),
        "session s-1 was removed but its final checkpoint failed to persist: disk full"
    );
}

#[test]
fn a_drain_lists_what_did_not_close() {
    let ids = vec![SessionId(1), SessionId(2), SessionId(3)];
    let outcomes = vec![CloseOutcome::Failed, CloseOutcome::Closed, CloseOutcome::TimedOut];
    assert_eq!(close_all_sessions(&ids, &outcomes), vec![SessionId(1), SessionId(3)]);
    assert!(close_all_sessions(&vec![], &vec![]).is_empty());
}

#[test]
fn only_a_task_that_died_fails_its_session() {
    assert_eq!(SessionSupervisor::supervise(RootTaskEnd::Returned), None);
    assert_eq!(
        SessionSupervisor::supervise(RootTaskEnd::Died("panicked".to_string())),
        Some("panicked".to_string())
    );
}

#[test]
fn manager_errors_have_messages() {
    let cases = vec![
        (SessionManagerError::NotFound(SessionId(1)), "session s not found"),
        (
            SessionManagerError::RestoreNotSupported,
            "session restore requires a configured session store",
        ),
        (SessionManagerError::Store("e".to_string()), "session store error: e"),
        (
            SessionManagerError::NoSnapshot(SessionId(1)),
            "session s has no stored snapshot to restore from",
        ),
        (
            SessionManagerError::RestoreValidation("e".to_string()),
            "stored session failed replay validation: e",
        ),
        (
            SessionManagerError::SnapshotMigration("e".to_string()),
            "stored snapshot is not migratable: e",
        ),
        (SessionManagerError::RestoreRejected("e".to_string()), "restore rejected: e"),
        (
            SessionManagerError::BackendCreation {
                integration: "i".to_string(),
                message: "m".to_string(),
            },
            "failed to re-create backend for integration i: m",
        ),
    ];
    for (error, message) in cases {
        assert_eq!(error.message("s"), message);
    }
}

#[test]
fn a_checkpoint_needs_a_store() {
    let (runtime, _) = fresh(false);
    assert!(runtime.checkpoint("/w".to_string(), 3, 4, 2).is_none());
}

#[test]
fn a_checkpoint_records_agents_and_references() {
    let (mut runtime, root) = fresh(true);
    let second = Agent::new(
        AgentId(8),
        SessionId(1),
        Some(AgentId(2)),
        1,
        String::new(),
        BackendBinding {
            reference: BackendReference {
                integration: "another".to_string(),
                configuration: "c".to_string(),
                model: None,
            },
            descriptor: descriptor(),
        },
        AgentCapabilities::none(),
        AgentBudget::default(),
    );
    let mut third = second.clone();
    third.id = AgentId(9);
    runtime.spawn_runner(root, "caps".to_string(), "usage".to_string());
    runtime.spawn_runner(second, "{}".to_string(), "{}".to_string());
    runtime.spawn_runner(third, "{}".to_string(), "{}".to_string());
    let saved = runtime.checkpoint("/w".to_string(), 3, 4, 2).expect("stored");
    assert_eq!(saved.session_id, SessionId(1));
    assert_eq!(saved.root_agent_id, AgentId(2));
    assert_eq!(saved.session_sequence, 3);
    assert_eq!(saved.timestamp, 4);
    assert_eq!(saved.schema_version, 2);
    assert_eq!(saved.metadata.workspace_identity.as_deref(), Some("/w"));
    assert_eq!(
        saved.metadata.integration_references,
        vec!["another::fake".to_string(), "integration::fake".to_string()]
    );
    assert!(saved.metadata.credential_profiles.is_empty());
    assert!(!saved.metadata.compacted);
    let ids: Vec<u128> = saved.agents.iter().map(|a| a.agent_id.0).collect();
    assert_eq!(ids, vec![2, 8, 9]);
    assert_eq!(saved.agents[0].capabilities, "caps");
    assert_eq!(saved.agents[0].usage, "usage");
}

#[test]
fn an_injected_backend_gets_no_tools_and_no_store_unless_asked() {
    let make = || ("fresh".to_string(), "configuration".to_string(), descriptor());
    let (integration, configuration, backend) = make();
    let (runtime, root) =
        SessionRuntime::<()>::new(SessionId(1), AgentId(2), integration, configuration, backend);
    assert!(!runtime.stored);
    assert!(root.capabilities.tools.tools.is_empty());
    assert!(!root.capabilities.workspace.can_read);
    assert_eq!(root.backend.reference.integration, "fresh");
    assert_eq!(root.backend.reference.configuration, "configuration");

    let (integration, configuration, backend) = make();
    let tools = AgentToolset { tools: vec![tool(1, "workspace.search", true)] };
    let (runtime, root) = SessionRuntime::<()>::new_with_toolset(
        SessionId(1),
        AgentId(2),
        integration,
        configuration,
        backend,
        tools,
    );
    assert!(!runtime.stored);
    assert_eq!(root.capabilities.tools.tools.len(), 1);
    assert!(root.capabilities.workspace.can_search);

    let (integration, configuration, backend) = make();
    let (runtime, root) = SessionRuntime::<()>::new_with_scheduler(
        SessionId(1),
        AgentId(2),
        integration,
        configuration,
        backend,
        AgentToolset::empty(),
        &SchedulerConfig::default(),
        true,
    );
    assert!(runtime.stored);
    assert_eq!(root.backend.reference.integration, "fresh");
}

#[test]
fn a_store_can_be_configured_later() {
    let manager: SessionManager<&'static str, u32> = SessionManager::new();
    assert!(matches!(
        manager.restore_session(SessionId(1)),
        Err(SessionManagerError::RestoreNotSupported)
    ));
    let manager = manager.with_session_store();
    assert!(matches!(manager.restore_session(SessionId(1)), Ok(RestoreStart::Load)));
}

#[test]
fn initial_checkpoint_failure_is_a_truthful_session_failure() {
    let (mut runtime, root) = fresh(true);
    runtime.spawn_runner(root, "{}".to_string(), "{}".to_string());
    let error = initial_checkpoint_failure(true, Err("snapshot rejected".to_string()))
        .expect("the store failed");
    runtime.mark_failed(error);
    let snapshot = runtime.state_snapshot();
    assert_eq!(snapshot.status, SessionStatus::Failed);
    assert!(snapshot
        .error
        .is_some_and(|error| error.contains("initial durable checkpoint failed")));
}

#[test]
fn close_session_surfaces_a_failed_final_checkpoint_instead_of_swallowing_it() {
    let mut manager = manager(true);
    let session_id = SessionId(1);
    manager.create_session(session_id, Ok(7), "runtime").expect("admitted");
    assert_eq!(manager.active_session_ids(), vec![session_id]);
    let (runtime, permit) = manager.close_session(session_id).expect("active");
    assert_eq!((runtime, permit), ("runtime", Some(7)));
    let result = finish_close(session_id, Err("snapshot rejected".to_string()));
    assert!(matches!(
        result,
        Err(SessionManagerError::CloseCheckpointFailed { session, .. }) if session == session_id
    ));
    assert!(manager.session_handle(session_id).is_none());
    assert!(matches!(
        manager.close_session(session_id),
        Err(SessionManagerError::NotFound(id)) if id == session_id
    ));
}

#[test]
fn a_checkpoint_saves_what_was_published_last() {
    let (mut runtime, root) = fresh(true);
    let mut runner = runtime.spawn_runner(root, "{}".to_string(), "{}".to_string());
    runner.agent.state.status = AgentStatus::Streaming;
    runner.agent.state.messages.push("hello".to_string());
    let metrics = AgentUsageMetrics { total_requests: 2, ..AgentUsageMetrics::default() };
    runtime.publish_status(
        &runner,
        metrics,
        Default::default(),
        "capabilities".to_string(),
        "usage".to_string(),
    );
    let live = runtime.agent_live_state(AgentId(2));
    assert_eq!(live.status, AgentStatus::Streaming);
    assert_eq!(live.total_requests, 2);
    let saved = runtime.checkpoint("/root".to_string(), 9, 10, 1).expect("a store");
    assert_eq!(saved.agents.len(), 1);
    assert_eq!(saved.agents[0].status, AgentStatus::Streaming);
    assert_eq!(saved.agents[0].messages, vec!["hello".to_string()]);
    assert_eq!(saved.agents[0].capabilities, "capabilities");
    assert_eq!(saved.agents[0].usage, "usage");
}

#[test]
fn a_session_takes_its_agent_limit_from_the_scheduler() {
    let mut config = SchedulerConfig::default();
    config.max_agents_per_session = 1;
    let (mut runtime, root) = SessionRuntime::<()>::new_with_scheduler(
        SessionId(1),
        AgentId(2),
        "fresh".to_string(),
        "configuration".to_string(),
        descriptor(),
        AgentToolset::empty(),
        &config,
        false,
    );
    let budget = AgentBudget::default();
    assert!(runtime.agent_supervisor.check_spawn(&root, &budget).is_ok());
    let runner = runtime.spawn_runner(root, "{}".to_string(), "{}".to_string());
    assert!(matches!(
        runtime.agent_supervisor.check_spawn(&runner.agent, &budget),
        Err(SupervisorError::AgentLimit(1))
    ));
    let (mut usual, root) = fresh(false);
    let runner = usual.spawn_runner(root, "{}".to_string(), "{}".to_string());
    assert!(usual.agent_supervisor.check_spawn(&runner.agent, &budget).is_ok());
}

#[test]
fn cancelling_a_session_reaches_what_its_runners_started() {
    let (mut runtime, root) = fresh(false);
    let mut runner = runtime.spawn_runner(root, "{}".to_string(), "{}".to_string());
    let request = ExecutionRequest {
        request_id: RequestId(5),
        run_id: RunId(6),
        payload: "{}".to_string(),
    };
    let backend = match runner.execute_backend(request, Ok(())) {
        BackendDispatch::Started { token, .. } => token,
        BackendDispatch::Refused(_) => panic!("the transcript is valid"),
    };
    let call = ToolRequest {
        call: ToolCall {
            id: ToolCallId(7),
            name: "fs.read".to_string(),
            arguments: "{}".to_string(),
        },
        permission: PermissionMode::Allow,
    };
    let tool = match runner.execute_tool(call) {
        ToolDispatch::Started { token, .. } => token,
        _ => panic!("an ordinary tool"),
    };
    assert!(!runtime.cancellation.has_cancelled(&backend));
    assert!(!runtime.cancellation.has_cancelled(&tool));
    runtime.cancel();
    assert!(runtime.cancellation.has_cancelled(&backend));
    assert!(runtime.cancellation.has_cancelled(&tool));
}
