use harness_runtime::agent::{
    Agent, AgentCapabilities, AgentError, AgentOutcome, AgentResult, AgentStatus,
    AgentUsageMetrics, AgentUsageSummary, BackendBinding, BackendCapabilities, BackendDescriptor,
    BackendReference, UserInput,
};
use harness_runtime::agent_runner::{
    backend_driver_step, finish_spawn, forward_event, loop_step, persist, progress_start,
    progress_step, spawn_agent, spawn_tool_reply, synthesize_terminal, to_protocol_tool_error,
    tool_driver_step, tool_report, AgentRunner, BackendDispatch, BackendDriver, CommitEnd, CommitOutcome,
    EffectAction, EffectEnd, EmitRoute, ExecutorError, ExecutorOutput, LoopEvent, LoopState,
    PersistPlan, SpawnToolStart, ToolDispatch, ToolDriver, ToolSpawnOutcome, Wake,
};
use harness_runtime::budget::AgentBudget;
use harness_runtime::cancellation::SessionCancellation;
use harness_runtime::ids::{
    AgentId, BackendId, EventId, PermissionId, RequestId, RunId, SessionId, ToolCallId, ToolId,
};
use harness_runtime::json::Json;
use harness_runtime::protocol::{
    AgentCommand, AgentEffect, AgentEvent, AgentEventEnvelope, EventVisibility, ExecutionError,
    ExecutionEvent, ExecutionRequest, ExecutionResult, SessionMutation, SpawnMode,
};
use harness_runtime::session_runtime::LiveStateTable;
use harness_runtime::spawn_tool::SpawnToolArgs;
use harness_runtime::tools::{
    AgentToolset, PermissionMode, ToolCall, ToolCapability, ToolDescriptor, ToolEntry, ToolError,
    ToolPolicy, ToolRequest,
};

fn tool(id: u128, name: &str, permission: PermissionMode, enabled: bool) -> ToolEntry {
    ToolEntry {
        id: ToolId(id),
        capability: ToolCapability {
            descriptor: ToolDescriptor {
                id: ToolId(id),
                name: name.to_string(),
                description: String::new(),
                input_schema: "{}".to_string(),
            },
            policy: ToolPolicy { permission, enabled },
            delegatable: true,
        },
    }
}

fn capabilities() -> AgentCapabilities {
    let mut tools = AgentToolset::empty();
    tools.insert(tool(1, "fs.read", PermissionMode::Allow, true));
    tools.insert(tool(2, "shell.exec", PermissionMode::Ask, true));
    tools.insert(tool(3, "agent.spawn", PermissionMode::Allow, true));
    tools.insert(tool(4, "fs.edit", PermissionMode::Allow, false));
    tools.insert(tool(5, "web.fetch", PermissionMode::Deny, true));
    AgentCapabilities { tools, ..AgentCapabilities::none() }
}

fn agent() -> Agent {
    Agent::new(
        AgentId(1),
        SessionId(2),
        None,
        0,
        String::new(),
        BackendBinding {
            reference: BackendReference {
                integration: "integration".to_string(),
                configuration: "configuration".to_string(),
                model: None,
            },
            descriptor: BackendDescriptor {
                id: BackendId(3),
                name: "fake".to_string(),
                description: "fake".to_string(),
                capabilities: BackendCapabilities::default(),
            },
        },
        capabilities(),
        AgentBudget::default(),
    )
}

fn runner() -> AgentRunner {
    AgentRunner::new(agent(), SessionCancellation::new().child_token())
}

fn result(summary: &str) -> AgentResult {
    AgentResult { summary: summary.to_string(), usage: AgentUsageSummary::default() }
}

fn error(code: &str) -> AgentError {
    AgentError { message: "it broke".to_string(), code: code.to_string(), details: None }
}

fn request(run: u128) -> ExecutionRequest {
    ExecutionRequest { request_id: RequestId(50), run_id: RunId(run), payload: "{}".to_string() }
}

fn tool_request(id: u128, name: &str) -> ToolRequest {
    ToolRequest {
        call: ToolCall {
            id: ToolCallId(id),
            name: name.to_string(),
            arguments: "{\"task\":\"go\"}".to_string(),
        },
        permission: PermissionMode::Allow,
    }
}

fn input(text: &str) -> UserInput {
    UserInput { text: text.to_string(), attachments: None }
}

fn start() -> AgentCommand {
    AgentCommand::StartRun { input: input("first") }
}

fn done(request: u128) -> ExecutionEvent {
    ExecutionEvent::Completed {
        request_id: RequestId(request),
        result: ExecutionResult {
            request_id: RequestId(request),
            usage: "{}".to_string(),
            cost: "{}".to_string(),
            finish_reason: "end_turn".to_string(),
        },
    }
}

fn delta(request: u128) -> ExecutionEvent {
    ExecutionEvent::TextDelta { request_id: RequestId(request), delta: "partial".to_string() }
}

fn observed(senders: usize, cancelled: bool) -> LoopEvent {
    LoopEvent::Observed { senders, cancelled }
}

fn woke(wake: Wake, cancelled: bool) -> LoopEvent {
    LoopEvent::Woke { wake, cancelled }
}

fn dispatched(finished_run: bool, fatal: bool) -> LoopEvent {
    LoopEvent::Dispatched { finished_run, fatal }
}

#[test]
fn an_idle_loop_waits_and_looks_around_again() {
    let state = loop_step(LoopState::Top, observed(2, false), true);
    assert!(matches!(state, LoopState::Waiting));
    let state = loop_step(state, woke(Wake::Tick, false), true);
    assert!(matches!(state, LoopState::Top));
}

#[test]
fn a_loop_ends_with_its_mailbox() {
    assert!(matches!(loop_step(LoopState::Top, observed(1, false), true), LoopState::Stopped));
    assert!(matches!(loop_step(LoopState::Top, observed(1, true), true), LoopState::Stopped));
    assert!(matches!(
        loop_step(LoopState::Waiting, woke(Wake::Closed, false), true),
        LoopState::Stopped
    ));
}

#[test]
fn cancellation_goes_before_a_command() {
    assert!(matches!(
        loop_step(LoopState::Waiting, woke(Wake::Command(start()), true), true),
        LoopState::Cancelling
    ));
    assert!(matches!(
        loop_step(LoopState::Waiting, woke(Wake::Cancelled, true), true),
        LoopState::Cancelling
    ));
    assert!(matches!(loop_step(LoopState::Top, observed(2, true), true), LoopState::Cancelling));
    assert!(matches!(
        loop_step(LoopState::Cancelling, dispatched(false, false), true),
        LoopState::Stopped
    ));
}

#[test]
fn a_long_lived_runner_goes_on_after_a_run() {
    let state = loop_step(LoopState::Waiting, woke(Wake::Command(start()), false), true);
    assert!(matches!(state, LoopState::Handling(Some(AgentCommand::StartRun { .. }))));
    let state = loop_step(state, dispatched(true, false), true);
    assert!(matches!(state, LoopState::Draining));
    let state = loop_step(state, dispatched(true, false), true);
    assert!(matches!(state, LoopState::Top));
}

#[test]
fn a_one_shot_runner_ends_with_its_run() {
    let state = loop_step(LoopState::Handling(Some(start())), dispatched(false, false), false);
    assert!(matches!(state, LoopState::Top));
    let state = loop_step(LoopState::Handling(Some(start())), dispatched(true, false), false);
    assert!(matches!(state, LoopState::Stopped));
}

#[test]
fn a_fatal_failure_ends_a_long_lived_runner() {
    assert!(matches!(
        loop_step(LoopState::Handling(Some(start())), dispatched(false, true), true),
        LoopState::Stopped
    ));
    assert!(matches!(
        loop_step(LoopState::Draining, dispatched(false, true), true),
        LoopState::Stopped
    ));
}

#[test]
fn a_run_is_cancelled_unless_it_is_over() {
    let mut runner = runner();
    assert!(matches!(runner.cancel_run(), Some(AgentCommand::Cancel)));
    for status in [AgentStatus::Cancelled, AgentStatus::Completed, AgentStatus::Failed] {
        runner.agent.state.status = status;
        assert!(runner.cancel_run().is_none());
        assert!(runner.is_terminal());
    }
}

#[test]
fn a_finished_run_is_remembered_until_taken() {
    let mut runner = runner();
    let (action, finished) = runner.dispatch_effect(AgentEffect::FinishRun { result: result("ok") });
    assert!(finished);
    assert!(matches!(action, EffectAction::Nothing));
    assert_eq!(runner.take_final_result().expect("ended").expect("succeeded").summary, "ok");
    assert!(runner.take_final_result().is_none());
}

#[test]
fn a_failed_run_is_remembered_as_its_error() {
    let mut runner = runner();
    runner.agent.state.status = AgentStatus::Failed;
    runner.dispatch_effect(AgentEffect::FinishRun { result: result("why") });
    let ending = runner.take_final_result().expect("ended").expect_err("failed");
    assert_eq!((ending.message.as_str(), ending.code.as_str()), ("why", "FAILED"));

    runner.agent.state.last_error = Some(error("E"));
    runner.dispatch_effect(AgentEffect::FinishRun { result: result("why") });
    let ending = runner.take_final_result().expect("ended").expect_err("failed");
    assert_eq!(ending.code, "E");
}

#[test]
fn effects_ask_for_what_they_are() {
    let mut runner = runner();
    let mut left = |effect: AgentEffect| {
        let (action, finished) = runner.dispatch_effect(effect);
        assert!(!finished);
        action
    };
    assert!(matches!(
        left(AgentEffect::ExecuteBackend { request: request(1) }),
        EffectAction::ExecuteBackend(r) if r.run_id == RunId(1)
    ));
    assert!(matches!(
        left(AgentEffect::ExecuteTool { request: tool_request(1, "t") }),
        EffectAction::ExecuteTool(_)
    ));
    assert!(matches!(
        left(AgentEffect::Emit { event: AgentEvent::RunStarted { run_id: RunId(1) } }),
        EffectAction::Emit(AgentEvent::RunStarted { run_id: RunId(1) })
    ));
    assert!(matches!(
        left(AgentEffect::RequestPermission { id: PermissionId(1) }),
        EffectAction::Nothing
    ));
    assert!(matches!(
        left(AgentEffect::Persist { mutation: SessionMutation::SaveSnapshot("{}".to_string()) }),
        EffectAction::Persist(SessionMutation::SaveSnapshot(_))
    ));
    assert!(matches!(
        left(AgentEffect::CancelChild { agent_id: AgentId(5) }),
        EffectAction::Nothing
    ));
}

#[test]
fn only_a_supervised_runner_cancels_children() {
    let mut runner = runner().with_supervision();
    let (action, _) = runner.dispatch_effect(AgentEffect::CancelChild { agent_id: AgentId(5) });
    assert!(matches!(action, EffectAction::CancelChild(AgentId(5))));
}

#[test]
fn spawning_needs_a_supervisor() {
    assert_eq!(
        runner().begin_spawn(),
        Err("SpawnAgent requested without a supervisor".to_string())
    );
    assert_eq!(runner().with_supervision().begin_spawn(), Ok(()));
}

#[test]
fn a_list_of_effects_is_cut_short_by_a_failed_commit() {
    let mut progress = progress_start();
    progress = progress_step(progress, EffectEnd::Done);
    assert!(!progress.finish);
    let finished = progress_step(progress, EffectEnd::Finished);
    assert!(finished.finish && !finished.stopped);
    let failed = progress_step(progress, EffectEnd::EmitFailed);
    assert!(failed.finish && failed.stopped);
    assert_eq!(progress_step(failed, EffectEnd::Done), failed);
}

#[test]
fn events_are_numbered_one_by_one() {
    let mut runner = runner();
    let mut table = LiveStateTable::new();
    for expected in 0..3 {
        let event = AgentEvent::RunStarted { run_id: RunId(1) };
        match runner.emit(event, EventId(expected as u128), 7, &mut table) {
            EmitRoute::Direct { envelope, persist } => {
                assert_eq!(envelope.agent_sequence, expected);
                assert_eq!(envelope.session_sequence, None);
                assert_eq!(envelope.agent_id, AgentId(1));
                assert_eq!(envelope.session_id, SessionId(2));
                assert_eq!(envelope.timestamp, 7);
                assert_eq!(envelope.visibility, EventVisibility::User);
                assert!(persist);
            }
            EmitRoute::Commit(_) => panic!("no committer is configured"),
        }
    }
    runner.agent_sequence = u64::MAX;
    runner.emit(AgentEvent::RunStarted { run_id: RunId(1) }, EventId(9), 7, &mut table);
    assert_eq!(runner.agent_sequence, 0);
}

#[test]
fn deltas_are_never_stored() {
    let mut runner = runner();
    let mut table = LiveStateTable::new();
    let ephemeral = vec![
        AgentEvent::BackendRequestStarted { payload: String::new() },
        AgentEvent::AssistantMessageStarted { payload: String::new() },
        AgentEvent::AssistantTextDelta { delta: "x".to_string() },
        AgentEvent::ReasoningDelta { delta: "x".to_string() },
        AgentEvent::ToolCallRequested { payload: String::new() },
        AgentEvent::ToolCallProgress { payload: String::new() },
    ];
    for event in ephemeral {
        match runner.emit(event, EventId(1), 7, &mut table) {
            EmitRoute::Direct { persist, .. } => assert!(!persist),
            EmitRoute::Commit(_) => panic!("no committer is configured"),
        }
    }
    let durable = vec![
        AgentEvent::StateChanged { status: AgentStatus::Idle },
        AgentEvent::RunStarted { run_id: RunId(1) },
        AgentEvent::AssistantMessageCompleted { payload: String::new() },
        AgentEvent::ToolCallStarted { payload: String::new() },
        AgentEvent::ToolCallCompleted { payload: String::new() },
        AgentEvent::PermissionRequested { payload: String::new() },
        AgentEvent::UsageUpdated { payload: String::new() },
        AgentEvent::ChildAgentSpawned { agent_id: AgentId(2) },
        AgentEvent::ChildAgentCompleted { payload: String::new() },
        AgentEvent::Failed { error: error("E") },
        AgentEvent::Completed { outcome: AgentOutcome::Success },
    ];
    for event in durable {
        assert!(event.is_durable());
    }
}

#[test]
fn the_end_of_a_run_is_published_as_its_outcome() {
    let mut runner = runner().with_committer();
    let mut table = LiveStateTable::new();
    let route = runner.emit(
        AgentEvent::Completed { outcome: AgentOutcome::Cancelled },
        EventId(1),
        7,
        &mut table,
    );
    assert!(matches!(route, EmitRoute::Commit(_)));
    assert_eq!(table.get(AgentId(1)).last_outcome, Some(AgentOutcome::Cancelled));
    runner.emit(AgentEvent::Failed { error: error("E") }, EventId(2), 7, &mut table);
    assert_eq!(table.get(AgentId(1)).last_outcome, Some(AgentOutcome::Failed));
    assert_eq!(table.get(AgentId(9)).last_outcome, None);
}

fn envelope(event: AgentEvent, session_sequence: Option<u64>) -> AgentEventEnvelope {
    AgentEventEnvelope {
        event_id: EventId(1),
        session_id: SessionId(2),
        agent_id: AgentId(1),
        parent_agent_id: None,
        run_id: None,
        agent_sequence: 0,
        session_sequence,
        timestamp: 7,
        visibility: EventVisibility::User,
        event,
    }
}

#[test]
fn a_committed_end_of_a_run_asks_for_a_checkpoint() {
    let mut runner = runner();
    let mut table = LiveStateTable::new();
    let mut publish = |event: AgentEvent, sequence: Option<u64>| {
        match runner.finish_commit(
            CommitOutcome::Committed(envelope(event, sequence)),
            &mut table,
            AgentUsageMetrics::default(),
            AgentUsageSummary::default(),
        ) {
            CommitEnd::Publish(publication) => publication.checkpoint,
            CommitEnd::Fatal(_) => panic!("the event was committed"),
        }
    };
    let ended = || AgentEvent::Completed { outcome: AgentOutcome::Success };
    assert_eq!(publish(ended(), Some(4)), Some(4));
    assert_eq!(publish(ended(), None), None);
    assert_eq!(publish(AgentEvent::Failed { error: error("E") }, Some(5)), Some(5));
    assert_eq!(publish(AgentEvent::RunStarted { run_id: RunId(1) }, Some(6)), None);
}

#[test]
fn a_failed_commit_fails_the_agent_truthfully() {
    let session = SessionCancellation::new();
    let mut runner = AgentRunner::new(agent(), session.child_token()).with_committer();
    let mut table = LiveStateTable::new();
    let backend = match runner.execute_backend(request(1), Ok(())) {
        BackendDispatch::Started { token, .. } => token,
        BackendDispatch::Refused(_) => panic!("the transcript is valid"),
    };
    let tool = match runner.execute_tool(tool_request(1, "fs.read")) {
        ToolDispatch::Started { token, .. } => token,
        _ => panic!("an ordinary tool"),
    };
    runner.agent.state.active_run = Some(RunId(1));
    let mut metrics = AgentUsageMetrics::default();
    metrics.total_requests = 3;
    let published = runner.finish_commit(
        CommitOutcome::Failed("disk full".to_string()),
        &mut table,
        metrics,
        AgentUsageSummary::default(),
    );
    let handles = match published {
        CommitEnd::Fatal(handles) => handles,
        CommitEnd::Publish(_) => panic!("the event was not committed"),
    };
    assert_eq!(handles.len(), 2);
    assert!(handles.iter().all(|handle| handle.is_cancelled()));
    assert!(runner.fatal_error);
    assert!(backend.is_cancelled());
    assert!(tool.is_cancelled());
    assert!(!session.is_cancelled());
    assert_eq!(runner.agent.state.status, AgentStatus::Failed);
    assert_eq!(runner.agent.state.active_run, None);
    let live = table.get(AgentId(1));
    assert_eq!(live.status, AgentStatus::Failed);
    assert_eq!(live.total_requests, 3);
    assert_eq!(live.last_error.expect("an error").code, "PERSISTENCE_COMMIT_FAILED");
    let ending = runner.take_final_result().expect("ended").expect_err("failed");
    assert_eq!(ending.code, "PERSISTENCE_COMMIT_FAILED");
    assert_eq!(ending.message, "strict event commit failed: disk full");
}

#[test]
fn a_rejected_commit_is_fatal_too() {
    let mut runner = runner().with_committer();
    let mut table = LiveStateTable::new();
    let published = runner.finish_commit(
        CommitOutcome::Rejected,
        &mut table,
        AgentUsageMetrics::default(),
        AgentUsageSummary::default(),
    );
    assert!(matches!(published, CommitEnd::Fatal(_)));
    let ending = runner.take_final_result().expect("ended").expect_err("failed");
    assert_eq!(ending.code, "PERSISTENCE_COMMIT_REJECTED");
    assert_eq!(ending.message, "strict event commit rejected publication");
}

#[test]
fn nothing_is_persisted_of_an_invalid_transcript() {
    let mutation = || SessionMutation::SaveSnapshot("{}".to_string());
    assert!(matches!(persist(false, true, mutation()), PersistPlan::NoStore));
    assert!(matches!(persist(true, false, mutation()), PersistPlan::RefuseInvalidTranscript));
    assert!(matches!(persist(true, true, mutation()), PersistPlan::SaveSnapshot(_)));
    let append = SessionMutation::AppendEvent(envelope(
        AgentEvent::RunStarted { run_id: RunId(1) },
        None,
    ));
    assert!(matches!(persist(true, true, append), PersistPlan::Append(_)));
}

#[test]
fn an_invalid_transcript_turns_a_request_down() {
    let mut runner = runner();
    match runner.execute_backend(request(1), Err("dangling tool call".to_string())) {
        BackendDispatch::Refused(AgentCommand::BackendEvent { run_id, event }) => {
            assert_eq!(run_id, RunId(1));
            match event {
                ExecutionEvent::Error {
                    request_id,
                    error: ExecutionError::InvalidRequest { message },
                } => {
                    assert_eq!(request_id, RequestId(50));
                    assert_eq!(message, "invalid transcript: dangling tool call");
                }
                other => panic!("expected an invalid request, got {other:?}"),
            }
        }
        _ => panic!("expected a refusal"),
    }
    assert!(runner.cancel_backend(RunId(1)).is_none());
}

#[test]
fn a_request_can_be_cancelled_by_its_run() {
    let mut runner = runner();
    let token = match runner.execute_backend(request(1), Ok(())) {
        BackendDispatch::Started { token, .. } => token,
        BackendDispatch::Refused(_) => panic!("the transcript is valid"),
    };
    assert!(!token.is_cancelled());
    let (action, _) = runner.dispatch_effect(AgentEffect::CancelBackend { run_id: RunId(1) });
    match action {
        EffectAction::Cancelled(Some(handle)) => assert!(handle.is_cancelled()),
        _ => panic!("the request was in flight"),
    }
    let (action, _) = runner.dispatch_effect(AgentEffect::CancelBackend { run_id: RunId(1) });
    assert!(matches!(action, EffectAction::Cancelled(None)), "it was forgotten");
    assert!(token.is_cancelled());
    assert!(runner.cancel_backend(RunId(1)).is_none());
}

#[test]
fn cancelling_the_session_reaches_requests_and_tool_calls() {
    let mut session = SessionCancellation::new();
    let mut runner = AgentRunner::new(agent(), session.child_token());
    let backend = match runner.execute_backend(request(1), Ok(())) {
        BackendDispatch::Started { token, .. } => token,
        BackendDispatch::Refused(_) => panic!("the transcript is valid"),
    };
    let tool = match runner.execute_tool(tool_request(1, "fs.read")) {
        ToolDispatch::Started { token, .. } => token,
        _ => panic!("an ordinary tool"),
    };
    session.cancel();
    assert!(backend.is_cancelled());
    assert!(tool.is_cancelled());
}

#[test]
fn a_queued_request_never_runs_after_cancellation() {
    assert_eq!(
        backend_driver_step(BackendDriver::WaitingForPermit, false),
        BackendDriver::WaitingForBackend
    );
    assert_eq!(
        backend_driver_step(BackendDriver::WaitingForBackend, false),
        BackendDriver::Executing
    );
    for driver in [BackendDriver::WaitingForPermit, BackendDriver::WaitingForBackend] {
        assert_eq!(backend_driver_step(driver, true), BackendDriver::Abandoned);
    }
    assert_eq!(
        backend_driver_step(BackendDriver::Abandoned, false),
        BackendDriver::Abandoned
    );
}

#[test]
fn a_request_is_always_seen_to_end() {
    let mut forwarded = false;
    forwarded = forward_event(forwarded, &delta(50));
    assert!(!forwarded);
    let failed = ExecutionError::BackendError {
        message: "stream disconnected".to_string(),
        code: "SCRIPTED_DISCONNECT".to_string(),
    };
    let command = synthesize_terminal(forwarded, RunId(1), RequestId(50), Err(failed));
    assert!(matches!(
        command,
        Some(AgentCommand::BackendEvent {
            run_id: RunId(1),
            event: ExecutionEvent::Error { request_id: RequestId(50), .. }
        })
    ));
    forwarded = forward_event(forwarded, &done(50));
    assert!(forwarded);
    forwarded = forward_event(forwarded, &delta(50));
    assert!(forwarded);
    let again = ExecutionError::Cancelled;
    assert!(synthesize_terminal(forwarded, RunId(1), RequestId(50), Err(again)).is_none());
}

#[test]
fn a_returned_result_ends_a_silent_request() {
    let result = match done(50) {
        ExecutionEvent::Completed { result, .. } => result,
        _ => unreachable!(),
    };
    match synthesize_terminal(false, RunId(1), RequestId(50), Ok(result)) {
        Some(AgentCommand::BackendEvent {
            event: ExecutionEvent::Completed { request_id, result },
            ..
        }) => {
            assert_eq!(request_id, RequestId(50));
            assert_eq!(result.finish_reason, "end_turn");
        }
        other => panic!("expected a completion, got {other:?}"),
    }
}

#[test]
fn only_the_shell_takes_a_process_permit() {
    let mut runner = runner();
    for (name, process) in [("shell.exec", true), ("fs.read", false)] {
        match runner.execute_tool(tool_request(1, name)) {
            ToolDispatch::Started { needs_process, .. } => assert_eq!(needs_process, process),
            _ => panic!("an ordinary tool"),
        }
    }
    assert_eq!(
        tool_driver_step(ToolDriver::WaitingForPermit, true, false),
        ToolDriver::WaitingForProcess
    );
    assert_eq!(
        tool_driver_step(ToolDriver::WaitingForPermit, false, false),
        ToolDriver::Executing
    );
    assert_eq!(
        tool_driver_step(ToolDriver::WaitingForProcess, true, false),
        ToolDriver::Executing
    );
    for driver in [ToolDriver::WaitingForPermit, ToolDriver::WaitingForProcess] {
        assert_eq!(tool_driver_step(driver, true, true), ToolDriver::Abandoned);
    }
}

#[test]
fn a_tool_that_the_policy_denies_never_runs() {
    let mut runner = runner();
    for name in ["fs.edit", "web.fetch", "git.log", ""] {
        match runner.execute_tool(tool_request(7, name)) {
            ToolDispatch::Refused(AgentCommand::ToolFailed { call_id, error }) => {
                assert_eq!(call_id, ToolCallId(7));
                assert_eq!(error, ToolError::PermissionDenied);
            }
            _ => panic!("{name} is denied"),
        }
        assert!(runner.cancel_tool(ToolCallId(7)).is_none(), "nothing is in flight");
    }
    runner.agent.capabilities = AgentCapabilities::none();
    for name in ["fs.read", "shell.exec", "agent.spawn"] {
        assert!(matches!(
            runner.execute_tool(tool_request(7, name)),
            ToolDispatch::Refused(AgentCommand::ToolFailed {
                call_id: ToolCallId(7),
                error: ToolError::PermissionDenied
            })
        ));
    }
}

#[test]
fn a_loop_takes_the_command_of_its_state_once() {
    let mut runner = runner();
    let mut state = LoopState::Handling(Some(start()));
    assert!(matches!(
        runner.take_command(&mut state),
        Some(AgentCommand::StartRun { input }) if input.text == "first"
    ));
    assert!(matches!(state, LoopState::Handling(None)));
    assert!(runner.take_command(&mut state).is_none());

    let mut state = LoopState::Draining;
    assert!(matches!(
        runner.take_command(&mut state),
        Some(AgentCommand::StartNextQueuedRun)
    ));
    assert!(matches!(state, LoopState::Draining));

    let mut state = LoopState::Cancelling;
    assert!(matches!(runner.take_command(&mut state), Some(AgentCommand::Cancel)));
    runner.agent.state.status = AgentStatus::Completed;
    assert!(runner.take_command(&mut state).is_none());
    assert!(matches!(state, LoopState::Cancelling));

    for mut state in [LoopState::Top, LoopState::Waiting, LoopState::Stopped] {
        assert!(runner.take_command(&mut state).is_none());
    }
}

#[test]
fn a_tool_call_can_be_cancelled() {
    let mut runner = runner();
    let token = match runner.execute_tool(tool_request(4, "fs.read")) {
        ToolDispatch::Started { token, .. } => token,
        _ => panic!("an ordinary tool"),
    };
    runner.dispatch_effect(AgentEffect::CancelTool { call_id: ToolCallId(4) });
    assert!(token.is_cancelled());
}

#[test]
fn a_spawn_call_never_reaches_an_executor() {
    let mut runner = runner();
    match runner.execute_tool(tool_request(4, "agent.spawn")) {
        ToolDispatch::SpawnChild { call_id, arguments } => {
            assert_eq!(call_id, ToolCallId(4));
            assert_eq!(arguments, "{\"task\":\"go\"}");
        }
        _ => panic!("agent.spawn has no executor"),
    }
    assert!(runner.cancel_tool(ToolCallId(4)).is_none());
}

#[test]
fn a_tool_call_is_reported_as_it_ended() {
    let call_id = ToolCallId(4);
    assert!(matches!(
        tool_report(call_id, None),
        AgentCommand::ToolFailed { call_id: ToolCallId(4), error: ToolError::ExecutionFailed }
    ));
    assert!(matches!(
        tool_report(call_id, Some(Err(ExecutorError::Timeout))),
        AgentCommand::ToolFailed { error: ToolError::Timeout, .. }
    ));
    let output = ExecutorOutput { output: Json::Bool(true), is_error: true };
    match tool_report(call_id, Some(Ok(output))) {
        AgentCommand::ToolCompleted { call_id, result } => {
            assert_eq!(call_id, ToolCallId(4));
            assert_eq!(result.call_id, ToolCallId(4));
            assert!(result.is_error);
            assert!(matches!(result.output, Json::Bool(true)));
        }
        other => panic!("expected a completion, got {other:?}"),
    }
}

#[test]
fn every_executor_error_has_its_counterpart() {
    let pairs = [
        (ExecutorError::ExecutionFailed, ToolError::ExecutionFailed),
        (ExecutorError::PermissionDenied, ToolError::PermissionDenied),
        (ExecutorError::Timeout, ToolError::Timeout),
        (ExecutorError::Internal, ToolError::Internal),
    ];
    for (from, to) in pairs {
        assert_eq!(to_protocol_tool_error(from), to);
    }
}

#[test]
fn a_spawned_child_is_started_before_it_is_awaited() {
    let follow_up =
        spawn_agent(Ok(AgentId(7)), SpawnMode::AwaitResult, Some("go".to_string()), true)
            .expect("spawned");
    assert!(follow_up.awaiting);
    assert!(matches!(
        follow_up.start,
        Some(AgentCommand::StartRun { input }) if input.text == "go"
    ));
    assert!(matches!(
        follow_up.spawned,
        AgentCommand::ChildSpawned { agent_id: AgentId(7), awaiting: true }
    ));
    let idle = spawn_agent(Ok(AgentId(7)), SpawnMode::Concurrent, None, true).expect("spawned");
    assert!(idle.start.is_none());
    assert!(!idle.awaiting);
    let unreachable_child =
        spawn_agent(Ok(AgentId(7)), SpawnMode::Concurrent, Some("go".to_string()), false)
            .expect("spawned");
    assert!(unreachable_child.start.is_none());
    let refused = spawn_agent(Err("no".to_string()), SpawnMode::Concurrent, None, true);
    assert_eq!(refused.err(), Some("no".to_string()));
}

#[test]
fn a_failed_wait_is_the_childs_failure() {
    let (command, outcome) = finish_spawn(AgentId(7), Some(Err("lost".to_string())));
    match command {
        Some(AgentCommand::ChildFailed { agent_id, error }) => {
            assert_eq!(agent_id, AgentId(7));
            assert_eq!(error.code, "CHILD_AWAIT_FAILED");
            assert_eq!(error.message, "lost");
        }
        other => panic!("expected a failure, got {other:?}"),
    }
    assert_eq!(outcome.awaited.expect("awaited").err(), Some("lost".to_string()));
    let (command, outcome) = finish_spawn(AgentId(7), None);
    assert!(command.is_none());
    assert!(outcome.awaited.is_none());
    let (command, outcome) = finish_spawn(AgentId(7), Some(Ok(result("done"))));
    assert!(command.is_none());
    assert_eq!(outcome.awaited.expect("awaited").expect("succeeded").summary, "done");
}

fn texts(value: &Json) -> Vec<(String, String)> {
    match value {
        Json::Object(members) => members
            .iter()
            .map(|(key, value)| match value {
                Json::Text(text) => (key.clone(), text.clone()),
                Json::List(items) => (key.clone(), format!("{} items", items.len())),
                other => panic!("unexpected member {other:?}"),
            })
            .collect(),
        other => panic!("expected an object, got {other:?}"),
    }
}

fn reply(
    outcome: Result<ToolSpawnOutcome, String>,
    warnings: &Vec<String>,
) -> (bool, Vec<(String, String)>) {
    match spawn_tool_reply(ToolCallId(4), outcome, "child-7", warnings) {
        AgentCommand::ToolCompleted { call_id: ToolCallId(4), result } => {
            (result.is_error, texts(&result.output))
        }
        other => panic!("expected a completion, got {other:?}"),
    }
}

fn pair(key: &str, value: &str) -> (String, String) {
    (key.to_string(), value.to_string())
}

#[test]
fn a_spawn_call_is_answered_with_what_happened() {
    let none: Vec<String> = vec![];
    let child_id = AgentId(7);
    assert_eq!(
        reply(Ok(ToolSpawnOutcome { child_id, awaited: None }), &none),
        (
            false,
            vec![
                pair("child_agent_id", "child-7"),
                pair("status", "spawned"),
                pair(
                    "note",
                    "running concurrently; its own completion will appear as ChildAgentCompleted"
                ),
            ]
        )
    );
    assert_eq!(
        reply(
            Ok(ToolSpawnOutcome { child_id, awaited: Some(Ok(result("done"))) }),
            &vec!["careful".to_string()]
        ),
        (
            false,
            vec![
                pair("child_agent_id", "child-7"),
                pair("status", "completed"),
                pair("summary", "done"),
                pair("warnings", "1 items"),
            ]
        )
    );
    assert_eq!(
        reply(Ok(ToolSpawnOutcome { child_id, awaited: Some(Err("lost".to_string())) }), &none),
        (
            true,
            vec![
                pair("child_agent_id", "child-7"),
                pair("status", "failed"),
                pair("error", "lost"),
            ]
        )
    );
    assert_eq!(
        reply(Err("too deep".to_string()), &vec!["careful".to_string()]),
        (true, vec![pair("error", "too deep")])
    );
}

#[test]
fn a_spawn_call_with_bad_arguments_is_a_result_not_a_failure() {
    let start = runner().execute_spawn_tool(ToolCallId(4), Err("missing field".to_string()));
    match start {
        SpawnToolStart::Rejected(AgentCommand::ToolCompleted { call_id, result }) => {
            assert_eq!(call_id, ToolCallId(4));
            assert!(result.is_error);
            assert_eq!(
                texts(&result.output),
                vec![pair("error", "invalid agent.spawn arguments: missing field")]
            );
        }
        _ => panic!("expected a rejection"),
    }
}

#[test]
fn a_good_spawn_call_becomes_a_request() {
    let args = SpawnToolArgs {
        task: "go".to_string(),
        role: Some("auditor".to_string()),
        tools: Some(vec!["fs.read".to_string(), "git.log".to_string()]),
        workspace: None,
        mode: None,
        budget: None,
        model: None,
    };
    match runner().execute_spawn_tool(ToolCallId(4), Ok(args)) {
        SpawnToolStart::Spawn { spec, warnings } => {
            assert_eq!(spec.task.as_deref(), Some("go"));
            assert_eq!(spec.role.as_deref(), Some("auditor"));
            assert_eq!(warnings.len(), 1);
        }
        SpawnToolStart::Rejected(_) => panic!("the arguments are fine"),
    }
}

#[test]
fn a_transition_is_published() {
    let mut runner = runner();
    let mut table = LiveStateTable::new();
    runner.agent.state.status = AgentStatus::Streaming;
    let mut metrics = AgentUsageMetrics::default();
    metrics.total_requests = 2;
    runner.publish_status(&mut table, metrics, AgentUsageSummary::default());
    let live = table.get(AgentId(1));
    assert_eq!(live.status, AgentStatus::Streaming);
    assert_eq!(live.total_requests, 2);
}

#[test]
fn strict_commit_failure_terminates_with_truthful_failed_state() {
    let mut runner = runner().with_committer().long_lived(true);
    let mut table = LiveStateTable::new();
    runner.agent.state.active_run = Some(RunId(1));
    let event = AgentEvent::RunStarted { run_id: RunId(1) };
    let envelope = match runner.emit(event, EventId(1), 5, &mut table) {
        EmitRoute::Commit(envelope) => envelope,
        EmitRoute::Direct { .. } => panic!("a committer is configured"),
    };
    assert_eq!(envelope.session_sequence, None);
    let published = runner.finish_commit(
        CommitOutcome::Failed("append rejected".to_string()),
        &mut table,
        AgentUsageMetrics::default(),
        AgentUsageSummary::default(),
    );
    assert!(matches!(published, CommitEnd::Fatal(_)));
    let progress = progress_step(progress_start(), EffectEnd::EmitFailed);
    assert!(progress.stopped);
    let state = loop_step(
        LoopState::Handling(Some(start())),
        LoopEvent::Dispatched { finished_run: progress.finish, fatal: runner.fatal_error },
        runner.survives_runs,
    );
    assert!(matches!(state, LoopState::Stopped), "a long-lived runner ends too");
    assert_eq!(runner.agent.state.status, AgentStatus::Failed);
    assert!(runner.agent.state.active_run.is_none());
    let error = runner
        .take_final_result()
        .expect("fatal result")
        .expect_err("strict persistence failure must be an error");
    assert_eq!(error.code, "PERSISTENCE_COMMIT_FAILED");
    assert_eq!(table.get(AgentId(1)).status, AgentStatus::Failed);
}
