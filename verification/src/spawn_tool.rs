//! The `agent.spawn` tool: a model-facing entry point for spawning a child
//! agent.
//!
//! This module turns the arguments of a tool call into a [`SpawnAgentSpec`]
//! under least-privilege defaults. It grants nothing by itself: budgets,
//! depth and capabilities are enforced where the child is spawned.

use vstd::prelude::*;

use crate::agent::{Agent, ExecutionParams};
use crate::budget::{self, merge_budget_defaults, AgentBudget};
use crate::ids::ToolId;
use crate::protocol::{BackendPolicy, SpawnAgentSpec, SpawnMode, ToolInheritance, WorkspacePolicy};
use crate::text::{self, concat2, concat3, is_blank, quoted, str_eq};
use crate::tools::{AgentToolset, ToolDescriptor};

verus! {

/// The name by which a model calls this tool.
pub const AGENT_SPAWN_TOOL_NAME: &'static str = "agent.spawn";

/// The arguments of an `agent.spawn` call.
#[derive(Debug)]
pub struct SpawnToolArgs {
    /// What the child should do: its first prompt.
    pub task: String,
    /// Role framing for the child.
    pub role: Option<String>,
    /// Explicit tool-name allowlist; a read-only default when omitted.
    pub tools: Option<Vec<String>>,
    /// `"inherit"`, `"read_only"` (the default), `"snapshot"` or
    /// `"new_worktree"`.
    pub workspace: Option<String>,
    /// `"await"` (the default) or `"concurrent"`.
    pub mode: Option<String>,
    /// Limits to tighten; every limit left open is the parent's own.
    pub budget: Option<AgentBudget>,
    /// Another model on the parent's provider.
    pub model: Option<String>,
}

/// The tool names that a child gets when the call names none: read-only
/// tools, as far as the parent may pass them on.
pub open spec fn default_delegated_tool_names() -> Seq<Seq<char>> {
    seq![
        "fs.read"@,
        "workspace.search"@,
        "git.status"@,
        "git.diff"@,
        "git.log"@,
        "git.show"@,
        "web.fetch"@,
    ]
}

/// The tool called `name` that a child may get, if there is one.
pub open spec fn grant(toolset: AgentToolset, name: Seq<char>) -> Option<ToolId> {
    if exists|i: int| toolset.first_grantable(name, i) {
        Some(toolset.tools@[choose|i: int| toolset.first_grantable(name, i)].id)
    } else {
        None
    }
}

/// The tools granted for a list of names, in the order of the names.
pub open spec fn granted(toolset: AgentToolset, names: Seq<Seq<char>>) -> Seq<ToolId>
    decreases names.len(),
{
    if names.len() == 0 {
        Seq::empty()
    } else {
        let rest = granted(toolset, names.drop_last());
        match grant(toolset, names.last()) {
            Some(id) => rest.push(id),
            None => rest,
        }
    }
}

/// The warning about a name that was not granted.
pub open spec fn refusal(name: Seq<char>) -> Seq<char> {
    "tool "@ + text::debug_text(name)
        + " was not granted to the spawned child (not present, not delegatable, or disabled on the parent)"@
}

/// The warnings for a list of names, in the order of the names.
pub open spec fn refusals(toolset: AgentToolset, names: Seq<Seq<char>>) -> Seq<Seq<char>>
    decreases names.len(),
{
    if names.len() == 0 {
        Seq::empty()
    } else {
        let rest = refusals(toolset, names.drop_last());
        match grant(toolset, names.last()) {
            Some(_) => rest,
            None => rest.push(refusal(names.last())),
        }
    }
}

/// The names that a call asks for: its own list, or the default one.
pub open spec fn asked_names(requested: Option<Vec<String>>) -> Seq<Seq<char>> {
    match requested {
        Some(names) => text::texts(names@),
        None => default_delegated_tool_names(),
    }
}

/// The warnings of a call: only a name that the call lists itself is warned
/// about.
pub open spec fn warnings_for(toolset: AgentToolset, requested: Option<Vec<String>>) -> Seq<
    Seq<char>,
> {
    match requested {
        Some(names) => refusals(toolset, text::texts(names@)),
        None => Seq::empty(),
    }
}

/// The workspace policy that a call names.
pub open spec fn workspace_policy(name: Option<String>) -> Option<WorkspacePolicy> {
    match name {
        None => Some(WorkspacePolicy::ReadOnly),
        Some(text) => if text@ == "read_only"@ {
            Some(WorkspacePolicy::ReadOnly)
        } else if text@ == "inherit"@ {
            Some(WorkspacePolicy::Inherit)
        } else if text@ == "snapshot"@ {
            Some(WorkspacePolicy::Snapshot)
        } else if text@ == "new_worktree"@ {
            Some(WorkspacePolicy::NewWorktree)
        } else {
            None
        },
    }
}

/// The spawn mode that a call names.
pub open spec fn spawn_mode(name: Option<String>) -> Option<SpawnMode> {
    match name {
        None => Some(SpawnMode::AwaitResult),
        Some(text) => if text@ == "await"@ {
            Some(SpawnMode::AwaitResult)
        } else if text@ == "concurrent"@ {
            Some(SpawnMode::Concurrent)
        } else {
            None
        },
    }
}

/// The budget of the child that a call describes.
pub open spec fn child_budget(requested: Option<AgentBudget>, parent: AgentBudget) -> AgentBudget {
    match requested {
        Some(b) => budget::merged(b, parent),
        None => parent,
    }
}

/// Why a call is turned down before anything is spawned, if it is.
pub open spec fn rejection(args: Result<SpawnToolArgs, String>) -> Option<Seq<char>> {
    match args {
        Err(error) => Some("invalid agent.spawn arguments: "@ + error@),
        Ok(a) => if text::blank(a.task@) {
            Some("agent.spawn requires a non-empty `task`"@)
        } else if workspace_policy(a.workspace) is None {
            Some(
                "invalid `workspace` value "@ + text::debug_text(a.workspace->0@)
                    + "; expected one of \"inherit\" | \"read_only\" | \"snapshot\" | \"new_worktree\""@,
            )
        } else if spawn_mode(a.mode) is None {
            Some(
                "invalid `mode` value "@ + text::debug_text(a.mode->0@)
                    + "; expected \"await\" or \"concurrent\""@,
            )
        } else {
            None
        },
    }
}

/// Whether `spec` is the request that accepted arguments stand for.
pub open spec fn requests(
    spec: SpawnAgentSpec,
    args: SpawnToolArgs,
    toolset: AgentToolset,
    parent_budget: AgentBudget,
) -> bool {
    &&& spec.role == args.role
    &&& spec.backend == BackendPolicy::Inherit
    &&& spec.tools matches ToolInheritance::Subset(ids) && ids@ == granted(
        toolset,
        asked_names(args.tools),
    )
    &&& Some(spec.workspace) == workspace_policy(args.workspace)
    &&& Some(spec.mode) == spawn_mode(args.mode)
    &&& spec.budget == child_budget(args.budget, parent_budget)
    &&& spec.task == Some(args.task)
    &&& spec.execution_params.model == args.model
    &&& spec.execution_params.settings is None
}

/// The first grantable tool of a given name is unique.
proof fn first_grantable_is_unique(toolset: AgentToolset, name: Seq<char>, i: int, j: int)
    requires
        toolset.first_grantable(name, i),
        toolset.first_grantable(name, j),
    ensures
        i == j,
{
    if i < j {
        assert(!toolset.tools@[i].grantable(name));
    } else if j < i {
        assert(!toolset.tools@[j].grantable(name));
    }
}

/// Finds the tool called `name` that a child may get.
fn find_delegatable_tool_id(toolset: &AgentToolset, name: &str) -> (r: Option<ToolId>)
    ensures
        r == grant(*toolset, name@),
{
    match toolset.find_grantable(name) {
        Some(index) => {
            proof {
                let i = choose|i: int| toolset.first_grantable(name@, i);
                first_grantable_is_unique(*toolset, name@, i, index as int);
            }
            Some(toolset.tools[index].id)
        },
        None => {
            assert forall|i: int| !toolset.first_grantable(name@, i) by {}
            None
        },
    }
}

/// The default tool names as strings.
fn default_names() -> (r: Vec<String>)
    ensures
        text::texts(r@) == default_delegated_tool_names(),
{
    let mut names: Vec<String> = Vec::new();
    names.push("fs.read".to_owned());
    names.push("workspace.search".to_owned());
    names.push("git.status".to_owned());
    names.push("git.diff".to_owned());
    names.push("git.log".to_owned());
    names.push("git.show".to_owned());
    names.push("web.fetch".to_owned());
    assert(text::texts(names@) =~= default_delegated_tool_names());
    names
}

/// Grants what can be granted of a list of names, and words a warning for
/// each of the others.
fn grant_names(toolset: &AgentToolset, names: &Vec<String>) -> (r: (Vec<ToolId>, Vec<String>))
    ensures
        r.0@ == granted(*toolset, text::texts(names@)),
        text::texts(r.1@) == refusals(*toolset, text::texts(names@)),
{
    let mut ids: Vec<ToolId> = Vec::new();
    let mut warnings: Vec<String> = Vec::new();
    let mut i: usize = 0;
    let ghost all = text::texts(names@);
    assert(all.take(0) =~= Seq::empty());
    assert(text::texts(warnings@) =~= Seq::empty());
    while i < names.len()
        invariant
            i <= names@.len(),
            all == text::texts(names@),
            ids@ == granted(*toolset, all.take(i as int)),
            text::texts(warnings@) == refusals(*toolset, all.take(i as int)),
        decreases names@.len() - i,
    {
        proof {
            assert(all.take(i + 1).drop_last() == all.take(i as int));
            assert(all.take(i + 1).last() == names@[i as int]@);
        }
        let name = names[i].as_str();
        match find_delegatable_tool_id(toolset, name) {
            Some(id) => {
                ids.push(id);
            },
            None => {
                let ghost before = warnings@;
                warnings.push(
                    concat3(
                        "tool ",
                        quoted(name).as_str(),
                        " was not granted to the spawned child (not present, not delegatable, or disabled on the parent)",
                    ),
                );
                assert(text::texts(warnings@) =~= text::texts(before).push(refusal(name@)));
            },
        }
        i = i + 1;
    }
    assert(all.take(names@.len() as int) =~= all);
    (ids, warnings)
}

/// Resolves requested tool names against the parent's own toolset.
///
/// A name that the parent lacks, may not pass on, or has disabled is left
/// out and, where the call listed it, reported back. Without a list the
/// read-only default is filtered the same way, with no warnings.
pub fn resolve_tool_inheritance(requested: &Option<Vec<String>>, toolset: &AgentToolset) -> (r: (
    ToolInheritance,
    Vec<String>,
))
    ensures
        r.0 matches ToolInheritance::Subset(ids) && ids@ == granted(
            *toolset,
            asked_names(*requested),
        ),
        text::texts(r.1@) == warnings_for(*toolset, *requested),
{
    match requested {
        Some(names) => {
            let (ids, warnings) = grant_names(toolset, names);
            (ToolInheritance::Subset(ids), warnings)
        },
        None => {
            let (ids, _) = grant_names(toolset, &default_names());
            let warnings: Vec<String> = Vec::new();
            assert(text::texts(warnings@) =~= Seq::empty());
            (ToolInheritance::Subset(ids), warnings)
        },
    }
}

fn parse_workspace(name: &Option<String>) -> (r: Option<WorkspacePolicy>)
    ensures
        r == workspace_policy(*name),
{
    match name {
        None => Some(WorkspacePolicy::ReadOnly),
        Some(text) => {
            if str_eq(text.as_str(), "read_only") {
                Some(WorkspacePolicy::ReadOnly)
            } else if str_eq(text.as_str(), "inherit") {
                Some(WorkspacePolicy::Inherit)
            } else if str_eq(text.as_str(), "snapshot") {
                Some(WorkspacePolicy::Snapshot)
            } else if str_eq(text.as_str(), "new_worktree") {
                Some(WorkspacePolicy::NewWorktree)
            } else {
                None
            }
        },
    }
}

fn parse_mode(name: &Option<String>) -> (r: Option<SpawnMode>)
    ensures
        r == spawn_mode(*name),
{
    match name {
        None => Some(SpawnMode::AwaitResult),
        Some(text) => {
            if str_eq(text.as_str(), "await") {
                Some(SpawnMode::AwaitResult)
            } else if str_eq(text.as_str(), "concurrent") {
                Some(SpawnMode::Concurrent)
            } else {
                None
            }
        },
    }
}

/// The text of an optional string that is there.
fn present(text: &Option<String>) -> (r: &str)
    requires
        text is Some,
    ensures
        r@ == text->0@,
{
    match text {
        Some(t) => t.as_str(),
        None => "",
    }
}

/// Validates the arguments of a tool call and builds the spawn request under
/// the delegation defaults. The arguments arrive decoded, or with the reason
/// why they could not be decoded.
///
/// Returns the request together with a warning for each explicitly listed
/// tool that could not be granted.
pub fn build_spawn_spec(args: Result<SpawnToolArgs, String>, parent: &Agent) -> (r: Result<
    (SpawnAgentSpec, Vec<String>),
    String,
>)
    ensures
        match rejection(args) {
            Some(message) => r matches Err(text) && text@ == message,
            None => r matches Ok((spec, warnings)) && requests(
                spec,
                args->Ok_0,
                parent.capabilities.tools,
                parent.budget,
            ) && text::texts(warnings@) == warnings_for(
                parent.capabilities.tools,
                args->Ok_0.tools,
            ),
        },
{
    let a = match args {
        Ok(a) => a,
        Err(error) => {
            return Err(concat2("invalid agent.spawn arguments: ", error.as_str()));
        },
    };
    if is_blank(a.task.as_str()) {
        return Err("agent.spawn requires a non-empty `task`".to_owned());
    }
    let workspace = match parse_workspace(&a.workspace) {
        Some(policy) => policy,
        None => {
            return Err(
                concat3(
                    "invalid `workspace` value ",
                    quoted(present(&a.workspace)).as_str(),
                    "; expected one of \"inherit\" | \"read_only\" | \"snapshot\" | \"new_worktree\"",
                ),
            );
        },
    };
    let mode = match parse_mode(&a.mode) {
        Some(mode) => mode,
        None => {
            return Err(
                concat3(
                    "invalid `mode` value ",
                    quoted(present(&a.mode)).as_str(),
                    "; expected \"await\" or \"concurrent\"",
                ),
            );
        },
    };
    let (tools, warnings) = resolve_tool_inheritance(&a.tools, &parent.capabilities.tools);
    let budget = match a.budget {
        Some(requested) => merge_budget_defaults(requested, &parent.budget),
        None => parent.budget,
    };
    let spec = SpawnAgentSpec {
        role: a.role,
        backend: BackendPolicy::Inherit,
        tools,
        workspace,
        budget,
        mode,
        task: Some(a.task),
        execution_params: ExecutionParams { model: a.model, settings: None },
    };
    Ok((spec, warnings))
}

/// What a model is told about this tool.
pub const AGENT_SPAWN_DESCRIPTION: &'static str = "Delegate a subtask to a new child agent. Use this to break work into independently-scoped pieces (e.g. a focused research task, a code-review pass) rather than doing everything in this conversation. The child starts with a least-privilege, read-only tool set and a read-only view of the workspace unless you explicitly request otherwise.";

/// The JSON schema of the arguments.
pub const AGENT_SPAWN_INPUT_SCHEMA: &'static str = "{\"type\":\"object\",\"properties\":{\"task\":{\"type\":\"string\",\"description\":\"What the child agent should do — its first prompt.\"},\"role\":{\"type\":\"string\",\"description\":\"Optional role/system-prompt framing for the child, e.g. \\\"code auditor\\\".\"},\"tools\":{\"type\":\"array\",\"items\":{\"type\":\"string\"},\"description\":\"Optional explicit tool-name allowlist for the child. Omit for a conservative read-only default; only tools you already have, marked delegatable, can be granted.\"},\"workspace\":{\"type\":\"string\",\"enum\":[\"inherit\",\"read_only\",\"snapshot\",\"new_worktree\"],\"description\":\"Workspace policy for the child. Defaults to \\\"read_only\\\".\"},\"mode\":{\"type\":\"string\",\"enum\":[\"await\",\"concurrent\"],\"description\":\"\\\"await\\\" (default) blocks until the child finishes and returns its result here. \\\"concurrent\\\" returns immediately; the child continues in the background.\"},\"budget\":{\"type\":\"object\",\"description\":\"Optional budget overrides for the child (tightens, never loosens, whatever budget you yourself have).\"},\"model\":{\"type\":\"string\",\"description\":\"Optional model override for the child, e.g. a smaller/cheaper model for a simple subtask. Selects a different model on your own provider only — there is no way to request a different provider/backend through this tool.\"}},\"required\":[\"task\"]}";

/// The descriptor that makes `agent.spawn` callable by a model. The tool has
/// no executor: the runner intercepts calls of this name.
pub fn agent_spawn_tool_descriptor(id: ToolId) -> (r: ToolDescriptor)
    ensures
        r.id == id,
        r.name@ == "agent.spawn"@,
        r.description@ == AGENT_SPAWN_DESCRIPTION@,
        r.input_schema@ == AGENT_SPAWN_INPUT_SCHEMA@,
{
    ToolDescriptor {
        id,
        name: AGENT_SPAWN_TOOL_NAME.to_owned(),
        description: AGENT_SPAWN_DESCRIPTION.to_owned(),
        input_schema: AGENT_SPAWN_INPUT_SCHEMA.to_owned(),
    }
}

/// Whether the toolset has a delegatable, enabled tool under `id`.
pub open spec fn may_pass_on(toolset: AgentToolset, id: ToolId) -> bool {
    exists|i: int|
        0 <= i < toolset.tools@.len() && (#[trigger] toolset.tools@[i]).id == id
            && toolset.tools@[i].capability.delegatable
            && toolset.tools@[i].capability.policy.enabled
}

/// A child is never granted a tool that its parent lacks, may not pass on, or
/// has disabled: the one tool under the granted identifier may be passed on.
pub proof fn grants_never_escalate(toolset: AgentToolset, names: Seq<Seq<char>>, k: int)
    requires
        0 <= k < granted(toolset, names).len(),
    ensures
        may_pass_on(toolset, granted(toolset, names)[k]),
        toolset.wf() ==> forall|i: int|
            0 <= i < toolset.tools@.len() && (#[trigger] toolset.tools@[i]).id == granted(
                toolset,
                names,
            )[k] ==> toolset.tools@[i].capability.delegatable
                && toolset.tools@[i].capability.policy.enabled,
    decreases names.len(),
{
    let rest = granted(toolset, names.drop_last());
    match grant(toolset, names.last()) {
        Some(id) => {
            if k < rest.len() {
                grants_never_escalate(toolset, names.drop_last(), k);
            } else {
                let i = choose|i: int| toolset.first_grantable(names.last(), i);
                assert(toolset.tools@[i].id == id);
            }
        },
        None => {
            grants_never_escalate(toolset, names.drop_last(), k);
        },
    }
}

/// Every name of a list is either granted or warned about, never both and
/// never passed over.
pub proof fn every_name_is_granted_or_warned_about(toolset: AgentToolset, names: Seq<Seq<char>>)
    ensures
        granted(toolset, names).len() + refusals(toolset, names).len() == names.len(),
    decreases names.len(),
{
    if names.len() > 0 {
        every_name_is_granted_or_warned_about(toolset, names.drop_last());
    }
}

/// A call that leaves the budget alone asks for a budget that is never looser
/// than the parent's.
pub proof fn a_call_without_a_budget_never_escalates(parent: AgentBudget)
    ensures
        child_budget(None, parent).within(parent),
{
    budget::inheriting_the_parent_budget_is_accepted(parent);
}

} // verus!
