//! Laws of backend requests, tool calls and spawned children.

use vstd::prelude::*;

use crate::agent::AgentResult;
use crate::agent_runner::{
    backend_driver_step, finish_spawn, forward_event, spawn_agent, spawn_tool_reply,
    synthesize_terminal, to_protocol_tool_error, tool_driver_step, tool_report, AgentRunner,
    BackendDispatch, BackendDriver, ExecutorError, ExecutorOutput, SpawnFollowUp, SpawnToolStart,
    ToolDispatch, ToolDriver, ToolSpawnOutcome,
};
use crate::ids::{AgentId, RequestId, RunId, ToolCallId};
use crate::json::Json;
use crate::laws::permissions::{called, first_called};
use crate::protocol::{
    AgentCommand, ExecutionError, ExecutionEvent, ExecutionRequest, ExecutionResult,
    SpawnAgentSpec, SpawnMode,
};
use crate::spawn_tool::{build_spawn_spec, SpawnToolArgs};
use crate::text;
use crate::tools::{PermissionMode, ToolError, ToolRequest};

verus! {

// ---------------------------------------------------------------------------
// Drivers
// ---------------------------------------------------------------------------

/// A backend request executes after both permits, and only then; a request
/// that is cancelled while it waits for either is given up and stays so.
/// Cancellation never takes back a request that executes.
pub proof fn a_queued_request_never_runs_once_cancelled(
    driver: BackendDriver,
    cancelled: bool,
    next: BackendDriver,
    later: BackendDriver,
)
    requires
        call_ensures(backend_driver_step, (driver, cancelled), next),
        call_ensures(backend_driver_step, (next, false), later),
    ensures
        driver == BackendDriver::WaitingForPermit && !cancelled ==> next
            == BackendDriver::WaitingForBackend && later == BackendDriver::Executing,
        driver == BackendDriver::WaitingForBackend && !cancelled ==> next
            == BackendDriver::Executing,
        driver == BackendDriver::Executing <==> next == BackendDriver::Executing && !(driver
            == BackendDriver::WaitingForBackend && !cancelled),
        cancelled && driver != BackendDriver::Executing ==> next == BackendDriver::Abandoned
            && later == BackendDriver::Abandoned,
        driver == BackendDriver::Abandoned ==> next == BackendDriver::Abandoned,
{
}

/// A tool call executes after the tool permit, and after a process permit
/// besides where it needs one; a call that is cancelled while it waits for
/// either is given up and stays so.
pub proof fn a_queued_call_never_runs_once_cancelled(
    driver: ToolDriver,
    needs_process: bool,
    cancelled: bool,
    next: ToolDriver,
    later: ToolDriver,
)
    requires
        call_ensures(tool_driver_step, (driver, needs_process, cancelled), next),
        call_ensures(tool_driver_step, (next, needs_process, false), later),
    ensures
        driver == ToolDriver::WaitingForPermit && !cancelled && needs_process ==> next
            == ToolDriver::WaitingForProcess && later == ToolDriver::Executing,
        driver == ToolDriver::WaitingForPermit && !cancelled && !needs_process ==> next
            == ToolDriver::Executing,
        driver == ToolDriver::WaitingForProcess && !cancelled ==> next == ToolDriver::Executing,
        driver == ToolDriver::Executing ==> next == ToolDriver::Executing,
        cancelled && driver != ToolDriver::Executing ==> next == ToolDriver::Abandoned && later
            == ToolDriver::Abandoned,
        driver == ToolDriver::Abandoned ==> next == ToolDriver::Abandoned,
{
}

// ---------------------------------------------------------------------------
// Backend requests
// ---------------------------------------------------------------------------

/// A request is known to have ended once it completed or failed, and only
/// then; what is known is never forgotten.
pub proof fn only_a_last_event_ends_a_request(before: bool, event: &ExecutionEvent, after: bool)
    requires
        call_ensures(forward_event, (before, event), after),
    ensures
        before ==> after,
        !before ==> (after <==> *event is Completed || *event is Error),
{
}

/// A request that was not seen to end is ended with what its backend
/// returned, under its own run and request; one that was is left alone. What
/// ends it counts as a last event.
pub proof fn what_a_backend_returns_ends_its_request(
    seen: bool,
    run_id: RunId,
    request_id: RequestId,
    outcome: Result<ExecutionResult, ExecutionError>,
    r: Option<AgentCommand>,
    ends: bool,
)
    requires
        call_ensures(synthesize_terminal, (seen, run_id, request_id, outcome), r),
        r matches Some(AgentCommand::BackendEvent { event, .. }) ==> call_ensures(
            forward_event,
            (false, &event),
            ends,
        ),
    ensures
        r is None <==> seen,
        r is Some ==> r->0 is BackendEvent && r->0->BackendEvent_run_id == run_id && ends,
        r is Some && outcome is Ok ==> r->0->BackendEvent_event == (ExecutionEvent::Completed {
            request_id,
            result: outcome->Ok_0,
        }),
        r is Some && outcome is Err ==> r->0->BackendEvent_event == (ExecutionEvent::Error {
            request_id,
            error: outcome->Err_0,
        }),
{
}

/// A request starts exactly when the transcript is valid, as it was asked
/// for; otherwise the agent is told about its own request and run, with the
/// reason, and nothing is in flight that was not before.
pub proof fn a_request_starts_with_a_valid_transcript(
    runner: &mut AgentRunner,
    request: ExecutionRequest,
    transcript: Result<(), String>,
    r: BackendDispatch,
    key: u128,
)
    requires
        call_ensures(AgentRunner::execute_backend, (runner, request, transcript), r),
    ensures
        r is Started <==> transcript is Ok,
        r is Started ==> r->request == request,
        final(runner).backend_tokens@.contains_key(key)
            <==> old(runner).backend_tokens@.contains_key(key) || r is Started && key
            == request.run_id.0,
        r is Started ==> crate::outside::descends(r->token, old(runner).cancel)
            && crate::agent_supervisor::below(r->token, old(runner).cancel),
        r is Started ==> (crate::outside::known_cancelled(r->token)
            <==> crate::outside::known_cancelled(old(runner).cancel)),
        final(runner).agent_sequence == old(runner).agent_sequence,
        final(runner).final_result == old(runner).final_result,
        final(runner).cancel == old(runner).cancel,
        r is Started ==> crate::outside::covers(
            final(runner).backend_tokens@[request.run_id.0],
            r->token,
        ),
        old(runner).backend_tokens@.contains_key(key) && key != request.run_id.0
            ==> final(runner).backend_tokens@[key] == old(runner).backend_tokens@[key],
        final(runner).tool_tokens == old(runner).tool_tokens,
        final(runner).agent == old(runner).agent,
        transcript matches Err(reason) ==> {
            &&& *final(runner) == *old(runner)
            &&& r matches BackendDispatch::Refused(AgentCommand::BackendEvent { run_id, event })
            &&& run_id == request.run_id
            &&& event matches ExecutionEvent::Error {
                request_id,
                error: ExecutionError::InvalidRequest { message },
            }
            &&& request_id == request.request_id
            &&& message@ == "invalid transcript: "@ + reason@
        },
{
    assert(final(runner).backend_tokens@.dom().contains(key)
        == final(runner).backend_tokens@.contains_key(key));
    assert(old(runner).backend_tokens@.dom().contains(key)
        == old(runner).backend_tokens@.contains_key(key));
}

// ---------------------------------------------------------------------------
// Tool calls
// ---------------------------------------------------------------------------

/// An executor's error is reported as the error of the same name.
pub proof fn an_executor_error_keeps_its_name(error: ExecutorError, r: ToolError)
    requires
        call_ensures(to_protocol_tool_error, (error,), r),
    ensures
        r == ToolError::ExecutionFailed <==> error == ExecutorError::ExecutionFailed,
        r == ToolError::PermissionDenied <==> error == ExecutorError::PermissionDenied,
        r == ToolError::Timeout <==> error == ExecutorError::Timeout,
        r == ToolError::Internal <==> error == ExecutorError::Internal,
{
}

/// Every call is reported to the agent under its own identifier: as completed
/// exactly when an executor handed something back, with just that, and as
/// failed otherwise, with the executor's own error, or as an execution failure
/// where there is no executor.
pub proof fn every_tool_call_is_reported(
    call_id: ToolCallId,
    outcome: Option<Result<ExecutorOutput, ExecutorError>>,
    r: AgentCommand,
    reported: ToolError,
)
    requires
        call_ensures(tool_report, (call_id, outcome), r),
        outcome matches Some(Err(error)) ==> call_ensures(
            to_protocol_tool_error,
            (error,),
            reported,
        ),
    ensures
        r is ToolCompleted <==> (outcome is Some && outcome->0 is Ok),
        r is ToolFailed <==> !(outcome is Some && outcome->0 is Ok),
        r is ToolCompleted ==> r->ToolCompleted_call_id == call_id
            && r->ToolCompleted_result.call_id == call_id && r->ToolCompleted_result.output
            == outcome->0->Ok_0.output && r->ToolCompleted_result.is_error
            == outcome->0->Ok_0.is_error,
        r is ToolFailed ==> r->ToolFailed_call_id == call_id,
        outcome is None ==> r->ToolFailed_error == ToolError::ExecutionFailed,
        outcome is Some && outcome->0 is Err ==> r->ToolFailed_error == reported,
{
}

/// A call is refused exactly when the agent has no tool of that name, or the
/// first one is disabled or denied, and nothing changes that way.
pub proof fn a_call_is_refused_by_the_toolset(
    runner: &mut AgentRunner,
    request: ToolRequest,
    r: ToolDispatch,
)
    requires
        call_ensures(AgentRunner::execute_tool, (runner, request), r),
    ensures
        ({
            let tools = old(runner).agent.capabilities.tools;
            let name = request.call.name@;
            &&& (forall|i: int| !called(tools, name, i)) ==> r is Refused
            &&& forall|i: int| #[trigger]
                first_called(tools, name, i) ==> (r is Refused <==> {
                    ||| !tools.tools@[i].capability.policy.enabled
                    ||| tools.tools@[i].capability.policy.permission == PermissionMode::Deny
                })
        }),
        r is Refused ==> *final(runner) == *old(runner) && r->Refused_0 == (
        AgentCommand::ToolFailed {
            call_id: request.call.id,
            error: ToolError::PermissionDenied,
        }),
{
    let tools = old(runner).agent.capabilities.tools;
    let name = request.call.name@;
    if forall|i: int| !called(tools, name, i) {
        assert forall|i: int| 0 <= i < tools.tools@.len() implies !(
        #[trigger] tools.tools@[i]).named(name) by {
            assert(!called(tools, name, i));
        }
        assert(tools.lacks(name));
    }
    assert forall|i: int| #[trigger] first_called(tools, name, i) implies (r is Refused <==> {
        ||| !tools.tools@[i].capability.policy.enabled
        ||| tools.tools@[i].capability.policy.permission == PermissionMode::Deny
    }) by {
        assert(tools.tools@[i].named(name));
        assert forall|j: int| 0 <= j < i implies !(#[trigger] tools.tools@[j]).named(name) by {
            assert(!called(tools, name, j));
        }
        assert(tools.first_named(name, i));
        assert(!tools.lacks(name));
        if crate::permissions::denied(old(runner).agent.capabilities, name) {
            let k = choose|k: int| #[trigger]
                tools.first_named(name, k) && {
                    let policy = tools.tools@[k].capability.policy;
                    !policy.enabled || policy.permission == PermissionMode::Deny
                };
            crate::permissions::the_first_tool_of_a_name_is_unique(tools, name, i, k);
        }
    }
}

/// Of the calls that are not refused, those of `agent.spawn` spawn a child
/// and leave nothing in flight; every other one is in flight under its own
/// identifier until it is done, and takes a process permit exactly when it
/// calls `shell.exec`.
pub proof fn a_call_in_flight_is_filed_under_its_identifier(
    runner: &mut AgentRunner,
    request: ToolRequest,
    r: ToolDispatch,
    key: u128,
)
    requires
        call_ensures(AgentRunner::execute_tool, (runner, request), r),
        !(r is Refused),
    ensures
        r is SpawnChild <==> request.call.name@ == "agent.spawn"@,
        r is SpawnChild ==> *final(runner) == *old(runner) && r->SpawnChild_call_id
            == request.call.id && r->SpawnChild_arguments == request.call.arguments,
        r is Started ==> r->Started_request == request,
        r is Started ==> (r->Started_needs_process <==> request.call.name@ == "shell.exec"@),
        r is Started ==> crate::outside::covers(
            final(runner).tool_tokens@[request.call.id.0],
            r->Started_token,
        ) && crate::agent_supervisor::below(r->Started_token, old(runner).cancel)
            && crate::outside::descends(r->Started_token, old(runner).cancel),
        r is Started ==> (crate::outside::known_cancelled(r->Started_token)
            <==> crate::outside::known_cancelled(old(runner).cancel)),
        final(runner).agent_sequence == old(runner).agent_sequence,
        final(runner).final_result == old(runner).final_result,
        final(runner).cancel == old(runner).cancel,
        final(runner).tool_tokens@.contains_key(key) <==> old(runner).tool_tokens@.contains_key(key)
            || r is Started && key == request.call.id.0,
        old(runner).tool_tokens@.contains_key(key) && key != request.call.id.0
            ==> final(runner).tool_tokens@[key] == old(runner).tool_tokens@[key],
        final(runner).backend_tokens == old(runner).backend_tokens,
        final(runner).agent == old(runner).agent,
{
    assert(final(runner).tool_tokens@.dom().contains(key)
        == final(runner).tool_tokens@.contains_key(key));
    assert(old(runner).tool_tokens@.dom().contains(key) == old(runner).tool_tokens@.contains_key(
        key,
    ));
}

// ---------------------------------------------------------------------------
// Spawned children
// ---------------------------------------------------------------------------

/// Without a supervisor nothing can be spawned; with one there is no
/// objection.
pub proof fn spawning_takes_a_supervisor(runner: &AgentRunner, r: Result<(), String>)
    requires
        call_ensures(AgentRunner::begin_spawn, (runner,), r),
    ensures
        r is Ok <==> runner.supervised,
        r matches Err(message) ==> message@ == "SpawnAgent requested without a supervisor"@,
{
}

/// A spawned child is announced to its parent under its own identifier, as
/// awaited exactly when it was to be awaited, and it is sent its task exactly
/// when it has one and can be reached. A failed spawn is passed on.
pub proof fn a_spawned_child_gets_its_task(
    child: Result<AgentId, String>,
    mode: SpawnMode,
    task: Option<String>,
    reachable: bool,
    r: Result<SpawnFollowUp, String>,
)
    requires
        call_ensures(spawn_agent, (child, mode, task, reachable), r),
    ensures
        r is Ok <==> child is Ok,
        child matches Err(error) ==> r->Err_0 == error,
        child matches Ok(id) ==> {
            let follow = r->Ok_0;
            &&& follow.awaiting <==> mode == SpawnMode::AwaitResult
            &&& follow.spawned is ChildSpawned
            &&& follow.spawned->ChildSpawned_agent_id == id
            &&& follow.spawned->awaiting == follow.awaiting
            &&& follow.start is Some <==> task is Some && reachable
            &&& follow.start matches Some(command) ==> command is StartRun
                && command->StartRun_input.text == task->0
                && command->StartRun_input.attachments is None
        },
{
}

/// The end of a wait for a child is handed back as it came, under the child's
/// identifier; the parent is told of a failed child exactly when the wait
/// failed, and with the same message.
pub proof fn a_failed_wait_is_a_failed_child(
    child_id: AgentId,
    awaited: Option<Result<AgentResult, String>>,
    r: (Option<AgentCommand>, ToolSpawnOutcome),
)
    requires
        call_ensures(finish_spawn, (child_id, awaited), r),
    ensures
        r.1.child_id == child_id,
        r.1.awaited == awaited,
        r.0 is Some <==> awaited is Some && awaited->0 is Err,
        r.0 matches Some(command) ==> command is ChildFailed && command->ChildFailed_agent_id
            == child_id && command->ChildFailed_error.message == awaited->0->Err_0
            && command->ChildFailed_error.code@ == "CHILD_AWAIT_FAILED"@
            && command->ChildFailed_error.details is None,
{
}

/// A spawn call goes on to a child exactly when its arguments are accepted,
/// with the request that they stand for; otherwise the agent gets a result
/// under the call's identifier that is marked as an error and holds the reason
/// under `error`, never a failed tool.
pub proof fn a_rejected_spawn_call_is_answered(
    runner: &AgentRunner,
    call_id: ToolCallId,
    args: Result<SpawnToolArgs, String>,
    r: SpawnToolStart,
    built: Result<(SpawnAgentSpec, Vec<String>), String>,
)
    requires
        call_ensures(AgentRunner::execute_spawn_tool, (runner, call_id, args), r),
        call_ensures(build_spawn_spec, (args, &runner.agent), built),
    ensures
        r is Spawn <==> built is Ok,
        built matches Ok((spec, warnings)) ==> {
            &&& r->spec.role == spec.role
            &&& r->spec.workspace == spec.workspace
            &&& r->spec.mode == spec.mode
            &&& r->spec.budget == spec.budget
            &&& r->spec.task == spec.task
            &&& r->spec.execution_params.model == spec.execution_params.model
            &&& crate::laws::delegation::handed(r->spec.tools) == crate::laws::delegation::handed(
                spec.tools,
            )
            &&& text::texts(r->warnings@) == text::texts(warnings@)
        },
        built matches Err(message) ==> {
            &&& r matches SpawnToolStart::Rejected(
                AgentCommand::ToolCompleted { call_id: id, result },
            )
            &&& id == call_id
            &&& result.call_id == call_id
            &&& result.is_error
            &&& says(result.output, "error"@, message@)
        },
{
    if built is Err {
        match r {
            SpawnToolStart::Rejected(AgentCommand::ToolCompleted { call_id: id, result }) => {
                match result.output {
                    Json::Object(members) => {
                        assert(holds_text(members@[0], "error"@, built->Err_0@));
                    },
                    _ => {},
                }
            },
            _ => {},
        }
    }
}

/// Whether a member of an object is called `key` and holds the text `value`.
pub open spec fn holds_text(member: (String, Json), key: Seq<char>, value: Seq<char>) -> bool {
    member.0@ == key && (member.1 matches Json::Text(text) && text@ == value)
}

/// Whether an object says `value` under `key`.
pub open spec fn says(output: Json, key: Seq<char>, value: Seq<char>) -> bool {
    output matches Json::Object(members) && exists|i: int|
        0 <= i < members@.len() && holds_text(#[trigger] members@[i], key, value)
}

/// Whether an object has a member called `key`.
pub open spec fn mentions(output: Json, key: Seq<char>) -> bool {
    output matches Json::Object(members) && exists|i: int|
        0 <= i < members@.len() && (#[trigger] members@[i]).0@ == key
}

/// The reply to a spawn call is a result under the call's identifier. It is
/// marked as an error exactly when nothing was spawned or the awaited child
/// has no result. It names the child wherever there is one, says whether it
/// was spawned, completed or failed, with its summary or its error, and lists
/// the warnings where there are any.
pub proof fn a_spawn_call_is_answered(
    call_id: ToolCallId,
    outcome: Result<ToolSpawnOutcome, String>,
    child_text: &str,
    warnings: &Vec<String>,
    r: AgentCommand,
)
    requires
        call_ensures(spawn_tool_reply, (call_id, outcome, child_text, warnings), r),
    ensures
        r is ToolCompleted,
        r->ToolCompleted_call_id == call_id,
        r->ToolCompleted_result.call_id == call_id,
        r->ToolCompleted_result.is_error <==> (outcome is Err || outcome is Ok && (
        outcome->Ok_0.awaited is Some && outcome->Ok_0.awaited->0 is Err)),
        ({
            let output = r->ToolCompleted_result.output;
            &&& outcome matches Err(message) ==> says(output, "error"@, message@)
            &&& outcome is Ok ==> says(output, "child_agent_id"@, child_text@)
            &&& outcome is Ok && outcome->Ok_0.awaited is None ==> says(
                output,
                "status"@,
                "spawned"@,
            ) && says(
                output,
                "note"@,
                "running concurrently; its own completion will appear as ChildAgentCompleted"@,
            )
            &&& outcome is Ok && outcome->Ok_0.awaited is Some
                && outcome->Ok_0.awaited->0 is Ok ==> says(
                output,
                "status"@,
                "completed"@,
            ) && says(output, "summary"@, outcome->Ok_0.awaited->0->Ok_0.summary@)
            &&& outcome is Ok && outcome->Ok_0.awaited is Some && outcome->Ok_0.awaited->0 is Err
                ==> says(output, "status"@, "failed"@) && says(
                output,
                "error"@,
                outcome->Ok_0.awaited->0->Err_0@,
            )
            &&& outcome is Ok && warnings@.len() > 0 ==> mentions(output, "warnings"@)
        }),
{
    let output = r->ToolCompleted_result.output;
    let members = output->Object_0@;
    match outcome {
        Err(message) => {
            assert(holds_text(members[0], "error"@, message@));
        },
        Ok(spawned) => {
            assert(holds_text(members[0], "child_agent_id"@, child_text@));
            match spawned.awaited {
                None => {
                    assert(holds_text(members[1], "status"@, "spawned"@));
                    assert(holds_text(
                        members[2],
                        "note"@,
                        "running concurrently; its own completion will appear as ChildAgentCompleted"@,
                    ));
                },
                Some(Ok(done)) => {
                    assert(holds_text(members[1], "status"@, "completed"@));
                    assert(holds_text(members[2], "summary"@, done.summary@));
                },
                Some(Err(message)) => {
                    assert(holds_text(members[1], "status"@, "failed"@));
                    assert(holds_text(members[2], "error"@, message@));
                },
            }
            if warnings@.len() > 0 {
                assert(text::texts(warnings@).len() > 0);
                assert(members[3].0@ == "warnings"@);
            }
        },
    }
}

/// The warnings of a reply are there exactly where there are any, all of
/// them, in order and word for word.
pub proof fn a_reply_lists_the_warnings(
    call_id: ToolCallId,
    outcome: Result<ToolSpawnOutcome, String>,
    child_text: &str,
    warnings: &Vec<String>,
    r: AgentCommand,
)
    requires
        call_ensures(spawn_tool_reply, (call_id, outcome, child_text, warnings), r),
        outcome is Ok,
    ensures
        ({
            let members = r->ToolCompleted_result.output->Object_0@;
            &&& members.len() == if warnings@.len() == 0 { 3int } else { 4 }
            &&& warnings@.len() > 0 ==> {
                &&& members[3].0@ == "warnings"@
                &&& members[3].1 is List
                &&& members[3].1->List_0@.len() == warnings@.len()
                &&& forall|i: int|
                    0 <= i < warnings@.len() ==> (#[trigger] members[3].1->List_0@[i]
                        matches Json::Text(text) && text@ == warnings@[i]@)
            }
        }),
{
    let all = text::texts(warnings@);
    assert(all.len() == warnings@.len());
    let members = r->ToolCompleted_result.output->Object_0@;
    if warnings@.len() > 0 {
        assert forall|i: int| 0 <= i < warnings@.len() implies (
        #[trigger] members[3].1->List_0@[i] matches Json::Text(text) && text@ == warnings@[i]@) by {
            assert(all[i] == warnings@[i]@);
        }
    }
}

} // verus!
