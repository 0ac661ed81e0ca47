//! Laws of delegation: which tools, which workspace and which budget a child
//! gets.

use vstd::prelude::*;

use crate::agent::Agent;
use crate::ids::ToolId;
use crate::protocol::{SpawnAgentSpec, SpawnMode, ToolInheritance, WorkspacePolicy};
use crate::spawn_tool::{
    self, agent_spawn_tool_descriptor, build_spawn_spec, resolve_tool_inheritance, SpawnToolArgs,
};
use crate::text;
use crate::tools::{AgentToolset, ToolDescriptor};

verus! {

/// Whether entry `i` of a toolset is a tool called `name` that is enabled and
/// may be passed on.
pub open spec fn offered(toolset: AgentToolset, name: Seq<char>, i: int) -> bool {
    &&& 0 <= i < toolset.tools@.len()
    &&& toolset.tools@[i].capability.descriptor.name@ == name
    &&& toolset.tools@[i].capability.delegatable
    &&& toolset.tools@[i].capability.policy.enabled
}

/// Whether entry `i` is the first one of that name that may be passed on.
pub open spec fn first_offered(toolset: AgentToolset, name: Seq<char>, i: int) -> bool {
    offered(toolset, name, i) && forall|j: int| 0 <= j < i ==> !offered(toolset, name, j)
}

/// Whether a name is one of the tools that only read.
pub open spec fn only_reads(name: Seq<char>) -> bool {
    ||| name == "fs.read"@
    ||| name == "workspace.search"@
    ||| name == "git.status"@
    ||| name == "git.diff"@
    ||| name == "git.log"@
    ||| name == "git.show"@
    ||| name == "web.fetch"@
}

/// Whether a tool under `id` only reads, is enabled and may be passed on.
pub open spec fn reads_with(toolset: AgentToolset, id: ToolId) -> bool {
    exists|i: int|
        0 <= i < toolset.tools@.len() && (#[trigger] toolset.tools@[i]).id == id
            && toolset.tools@[i].capability.delegatable
            && toolset.tools@[i].capability.policy.enabled && only_reads(
            toolset.tools@[i].capability.descriptor.name@,
        )
}

/// The tools that a spawn request hands to the child.
pub open spec fn handed(tools: ToolInheritance) -> Seq<ToolId> {
    match tools {
        ToolInheritance::Subset(ids) => ids@,
        ToolInheritance::InheritAll => Seq::empty(),
    }
}

proof fn offers_agree(toolset: AgentToolset, name: Seq<char>)
    ensures
        forall|i: int| #[trigger]
            toolset.first_grantable(name, i) <==> first_offered(toolset, name, i),
        (exists|i: int| offered(toolset, name, i)) ==> exists|i: int|
            first_offered(toolset, name, i),
{
    assert forall|i: int| #[trigger]
        toolset.first_grantable(name, i) <==> first_offered(toolset, name, i) by {
        if toolset.first_grantable(name, i) {
            assert forall|j: int| 0 <= j < i implies !offered(toolset, name, j) by {
                assert(!toolset.tools@[j].grantable(name));
            }
        }
        if first_offered(toolset, name, i) {
            assert forall|j: int| 0 <= j < i implies !(#[trigger] toolset.tools@[j]).grantable(
                name,
            ) by {
                assert(!offered(toolset, name, j));
            }
        }
    }
    if exists|i: int| offered(toolset, name, i) {
        let i = choose|i: int| offered(toolset, name, i);
        least_offer(toolset, name, i);
    }
}

proof fn least_offer(toolset: AgentToolset, name: Seq<char>, i: int)
    requires
        offered(toolset, name, i),
    ensures
        exists|k: int| first_offered(toolset, name, k),
    decreases i,
{
    if exists|j: int| 0 <= j < i && offered(toolset, name, j) {
        let j = choose|j: int| 0 <= j < i && offered(toolset, name, j);
        least_offer(toolset, name, j);
    } else {
        assert(first_offered(toolset, name, i));
    }
}

/// Every granted tool is the first offer of one of the names.
proof fn a_grant_has_a_name(toolset: AgentToolset, names: Seq<Seq<char>>, k: int) -> (at: (int, int))
    requires
        0 <= k < spawn_tool::granted(toolset, names).len(),
    ensures
        0 <= at.0 < names.len(),
        first_offered(toolset, names[at.0], at.1),
        toolset.tools@[at.1].id == spawn_tool::granted(toolset, names)[k],
    decreases names.len(),
{
    let rest = spawn_tool::granted(toolset, names.drop_last());
    offers_agree(toolset, names.last());
    if k < rest.len() {
        a_grant_has_a_name(toolset, names.drop_last(), k)
    } else {
        let i = choose|i: int| toolset.first_grantable(names.last(), i);
        assert(toolset.first_grantable(names.last(), i));
        (names.len() - 1, i)
    }
}

/// Every name with an offer has its first offer granted.
proof fn an_offer_is_granted(toolset: AgentToolset, names: Seq<Seq<char>>, n: int, i: int)
    requires
        0 <= n < names.len(),
        first_offered(toolset, names[n], i),
    ensures
        spawn_tool::granted(toolset, names).contains(toolset.tools@[i].id),
    decreases names.len(),
{
    let all = spawn_tool::granted(toolset, names);
    let rest = spawn_tool::granted(toolset, names.drop_last());
    if n == names.len() - 1 {
        offers_agree(toolset, names.last());
        assert(toolset.first_grantable(names.last(), i));
        let k = choose|k: int| toolset.first_grantable(names.last(), k);
        assert(first_offered(toolset, names.last(), k));
        assert(k == i) by {
            if k < i {
                assert(!offered(toolset, names.last(), k));
            } else if i < k {
                assert(!offered(toolset, names.last(), i));
            }
        }
        assert(all[all.len() - 1] == toolset.tools@[i].id);
    } else {
        an_offer_is_granted(toolset, names.drop_last(), n, i);
        let p = choose|p: int| 0 <= p < rest.len() && rest[p] == toolset.tools@[i].id;
        assert(all[p] == toolset.tools@[i].id);
    }
}

proof fn the_names_that_only_read()
    ensures
        forall|n: int|
            0 <= n < spawn_tool::default_delegated_tool_names().len() ==> only_reads(
                #[trigger] spawn_tool::default_delegated_tool_names()[n],
            ),
        forall|name: Seq<char>| #[trigger]
            only_reads(name) ==> spawn_tool::default_delegated_tool_names().contains(name),
        !only_reads("shell.exec"@),
        !only_reads("fs.edit"@),
        !only_reads("fs.write"@),
        !only_reads("agent.spawn"@),
{
    let names = spawn_tool::default_delegated_tool_names();
    assert forall|name: Seq<char>| #[trigger] only_reads(name) implies names.contains(name) by {
        assert(names[0] == "fs.read"@);
        assert(names[1] == "workspace.search"@);
        assert(names[2] == "git.status"@);
        assert(names[3] == "git.diff"@);
        assert(names[4] == "git.log"@);
        assert(names[5] == "git.show"@);
        assert(names[6] == "web.fetch"@);
    }
    reveal_strlit("fs.read");
    reveal_strlit("workspace.search");
    reveal_strlit("git.status");
    reveal_strlit("git.diff");
    reveal_strlit("git.log");
    reveal_strlit("git.show");
    reveal_strlit("web.fetch");
    reveal_strlit("shell.exec");
    reveal_strlit("fs.edit");
    reveal_strlit("fs.write");
    reveal_strlit("agent.spawn");
    assert("fs.read"@.len() == 7);
    assert("workspace.search"@.len() == 16);
    assert("git.status"@.len() == 10);
    assert("git.diff"@.len() == 8);
    assert("git.log"@.len() == 7);
    assert("git.show"@.len() == 8);
    assert("web.fetch"@.len() == 9);
    assert("shell.exec"@.len() == 10);
    assert("fs.edit"@.len() == 7);
    assert("fs.write"@.len() == 8);
    assert("agent.spawn"@.len() == 11);
    assert("shell.exec"@[0] == 's');
    assert("git.status"@[0] == 'g');
    assert("fs.edit"@[3] == 'e');
    assert("fs.read"@[3] == 'r');
    assert("git.log"@[0] == 'g');
    assert("git.show"@[0] == 'g');
    assert("git.diff"@[0] == 'g');
    assert("fs.write"@[0] == 'f');
}

/// A call that lists no tools is granted tools that only read, and nothing
/// else: every granted tool is enabled, may be passed on, and is one of those
/// that only read. No shell, no editor and no further spawning is ever among
/// them. Each of them that the parent may pass on is granted, and nothing is
/// warned about.
pub proof fn without_a_list_only_reading_tools_are_granted(
    requested: &Option<Vec<String>>,
    toolset: &AgentToolset,
    r: (ToolInheritance, Vec<String>),
)
    requires
        call_ensures(resolve_tool_inheritance, (requested, toolset), r),
        *requested is None,
    ensures
        r.0 is Subset,
        r.1@.len() == 0,
        forall|k: int|
            0 <= k < handed(r.0).len() ==> reads_with(*toolset, #[trigger] handed(r.0)[k]),
        toolset.wf() ==> forall|i: int|
            #![trigger toolset.tools@[i]]
            0 <= i < toolset.tools@.len() && handed(r.0).contains(toolset.tools@[i].id) ==> {
                let name = toolset.tools@[i].capability.descriptor.name@;
                &&& only_reads(name)
                &&& name != "shell.exec"@
                &&& name != "fs.edit"@
                &&& name != "fs.write"@
                &&& name != "agent.spawn"@
            },
        forall|name: Seq<char>, i: int|
            only_reads(name) && first_offered(*toolset, name, i) ==> handed(r.0).contains(
                #[trigger] toolset.tools@[i].id,
            ) && #[trigger] only_reads(name),
{
    let names = spawn_tool::default_delegated_tool_names();
    let ids = handed(r.0);
    the_names_that_only_read();
    assert(text::texts(r.1@).len() == 0);
    assert forall|k: int| 0 <= k < ids.len() implies reads_with(*toolset, #[trigger] ids[k]) by {
        let at = a_grant_has_a_name(*toolset, names, k);
        assert(toolset.tools@[at.1].id == ids[k]);
    }
    if toolset.wf() {
        assert forall|i: int|
            #![trigger toolset.tools@[i]]
            0 <= i < toolset.tools@.len() && ids.contains(toolset.tools@[i].id) implies only_reads(
            toolset.tools@[i].capability.descriptor.name@,
        ) by {
            let k = choose|k: int| 0 <= k < ids.len() && ids[k] == toolset.tools@[i].id;
            let at = a_grant_has_a_name(*toolset, names, k);
            assert(toolset.tools@[at.1].id == toolset.tools@[i].id);
            if at.1 < i {
                assert(toolset.tools@[at.1].id != toolset.tools@[i].id);
            } else if i < at.1 {
                assert(toolset.tools@[i].id != toolset.tools@[at.1].id);
            }
        }
    }
    assert forall|name: Seq<char>, i: int|
        only_reads(name) && first_offered(*toolset, name, i) implies ids.contains(
        #[trigger] toolset.tools@[i].id,
    ) && #[trigger] only_reads(name) by {
        let n = choose|n: int| 0 <= n < names.len() && names[n] == name;
        an_offer_is_granted(*toolset, names, n, i);
    }
}

/// A name that a call lists is granted exactly when the parent has an enabled
/// tool of that name that it may pass on; the first such tool is granted.
/// Otherwise the name is warned about, once, and nothing is granted.
pub proof fn a_listed_name_is_granted_or_warned_about(
    requested: &Option<Vec<String>>,
    toolset: &AgentToolset,
    r: (ToolInheritance, Vec<String>),
    name: Seq<char>,
)
    requires
        call_ensures(resolve_tool_inheritance, (requested, toolset), r),
        *requested is Some,
        text::texts((*requested)->0@) == seq![name],
    ensures
        (exists|i: int| offered(*toolset, name, i)) ==> handed(r.0).len() == 1 && r.1@.len() == 0
            && exists|i: int|
            first_offered(*toolset, name, i) && handed(r.0)[0] == toolset.tools@[i].id,
        !(exists|i: int| offered(*toolset, name, i)) ==> handed(r.0).len() == 0 && r.1@.len() == 1
            && r.1@[0]@ == "tool "@ + text::debug_text(name)
            + " was not granted to the spawned child (not present, not delegatable, or disabled on the parent)"@,
{
    offers_agree(*toolset, name);
    assert(seq![name].drop_last() =~= Seq::empty());
    assert(seq![name].last() == name);
    assert(spawn_tool::granted(*toolset, Seq::empty()).len() == 0);
    assert(spawn_tool::refusals(*toolset, Seq::empty()).len() == 0);
    if exists|i: int| offered(*toolset, name, i) {
        let i = choose|i: int| first_offered(*toolset, name, i);
        assert(toolset.first_grantable(name, i));
        let k = choose|k: int| toolset.first_grantable(name, k);
        assert(first_offered(*toolset, name, k));
        assert(text::texts(r.1@).len() == 0);
    } else {
        assert forall|i: int| !toolset.first_grantable(name, i) by {
            if toolset.first_grantable(name, i) {
                assert(first_offered(*toolset, name, i));
            }
        }
        assert(text::texts(r.1@).len() == 1);
        assert(text::texts(r.1@)[0] == r.1@[0]@);
    }
}

proof fn grants_of_a_joined_list(toolset: AgentToolset, a: Seq<Seq<char>>, b: Seq<Seq<char>>)
    ensures
        spawn_tool::granted(toolset, a + b) == spawn_tool::granted(toolset, a)
            + spawn_tool::granted(toolset, b),
        spawn_tool::refusals(toolset, a + b) == spawn_tool::refusals(toolset, a)
            + spawn_tool::refusals(toolset, b),
    decreases b.len(),
{
    if b.len() == 0 {
        assert(a + b =~= a);
        assert(spawn_tool::granted(toolset, a) + spawn_tool::granted(toolset, b)
            =~= spawn_tool::granted(toolset, a));
        assert(spawn_tool::refusals(toolset, a) + spawn_tool::refusals(toolset, b)
            =~= spawn_tool::refusals(toolset, a));
    } else {
        grants_of_a_joined_list(toolset, a, b.drop_last());
        assert((a + b).drop_last() =~= a + b.drop_last());
        assert((a + b).last() == b.last());
        assert(spawn_tool::granted(toolset, a + b) =~= spawn_tool::granted(toolset, a)
            + spawn_tool::granted(toolset, b));
        assert(spawn_tool::refusals(toolset, a + b) =~= spawn_tool::refusals(toolset, a)
            + spawn_tool::refusals(toolset, b));
    }
}

/// Names are looked at one after the other: what a list is granted and warned
/// about is what its first part is, followed by what the rest is.
pub proof fn names_are_granted_one_by_one(
    toolset: &AgentToolset,
    first: &Option<Vec<String>>,
    first_result: (ToolInheritance, Vec<String>),
    rest: &Option<Vec<String>>,
    rest_result: (ToolInheritance, Vec<String>),
    all: &Option<Vec<String>>,
    all_result: (ToolInheritance, Vec<String>),
)
    requires
        *first is Some && *rest is Some && *all is Some,
        text::texts((*all)->0@) == text::texts((*first)->0@) + text::texts((*rest)->0@),
        call_ensures(resolve_tool_inheritance, (first, toolset), first_result),
        call_ensures(resolve_tool_inheritance, (rest, toolset), rest_result),
        call_ensures(resolve_tool_inheritance, (all, toolset), all_result),
    ensures
        handed(all_result.0) == handed(first_result.0) + handed(rest_result.0),
        text::texts(all_result.1@) == text::texts(first_result.1@) + text::texts(rest_result.1@),
{
    grants_of_a_joined_list(
        *toolset,
        text::texts((*first)->0@),
        text::texts((*rest)->0@),
    );
}

/// Whether an optional text is given and reads `word`.
pub open spec fn reads(text: Option<String>, word: Seq<char>) -> bool {
    text matches Some(given) && given@ == word
}

proof fn words_differ()
    ensures
        "read_only"@ != "inherit"@,
        "read_only"@ != "snapshot"@,
        "read_only"@ != "new_worktree"@,
        "inherit"@ != "snapshot"@,
        "inherit"@ != "new_worktree"@,
        "snapshot"@ != "new_worktree"@,
        "await"@ != "concurrent"@,
{
    reveal_strlit("read_only");
    reveal_strlit("inherit");
    reveal_strlit("snapshot");
    reveal_strlit("new_worktree");
    reveal_strlit("await");
    reveal_strlit("concurrent");
    assert("read_only"@.len() == 9);
    assert("inherit"@.len() == 7);
    assert("snapshot"@.len() == 8);
    assert("new_worktree"@.len() == 12);
    assert("await"@.len() == 5);
    assert("concurrent"@.len() == 10);
}

/// A call is accepted exactly when its arguments could be read, it names a
/// task that is not white space only, and its workspace and its mode, where
/// given, are known words.
pub proof fn a_call_is_accepted_or_told_why(
    args: Result<SpawnToolArgs, String>,
    parent: &Agent,
    r: Result<(SpawnAgentSpec, Vec<String>), String>,
)
    requires
        call_ensures(build_spawn_spec, (args, parent), r),
    ensures
        r is Ok <==> (args matches Ok(a) && !text::blank(a.task@) && (a.workspace is Some ==> {
            ||| reads(a.workspace, "inherit"@)
            ||| reads(a.workspace, "read_only"@)
            ||| reads(a.workspace, "snapshot"@)
            ||| reads(a.workspace, "new_worktree"@)
        }) && (a.mode is Some ==> reads(a.mode, "await"@) || reads(a.mode, "concurrent"@))),
        args matches Err(error) ==> r->Err_0@ == "invalid agent.spawn arguments: "@ + error@,
        args matches Ok(a) && text::blank(a.task@) ==> r->Err_0@
            == "agent.spawn requires a non-empty `task`"@,
        args matches Ok(a) && !text::blank(a.task@) && (a.workspace matches Some(word) && word@
            != "inherit"@ && word@ != "read_only"@ && word@ != "snapshot"@ && word@
            != "new_worktree"@) ==> r->Err_0@ == "invalid `workspace` value "@ + text::debug_text(
            args->Ok_0.workspace->0@,
        )
            + "; expected one of \"inherit\" | \"read_only\" | \"snapshot\" | \"new_worktree\""@,
        args matches Ok(a) && !text::blank(a.task@) && a.workspace is None && (
        a.mode matches Some(word) && word@ != "await"@ && word@ != "concurrent"@) ==> r->Err_0@
            == "invalid `mode` value "@ + text::debug_text(args->Ok_0.mode->0@)
            + "; expected \"await\" or \"concurrent\""@,
{
}

/// An accepted call becomes a request for a child that runs on the parent's
/// backend, with the role, the task and the model that the call names. The
/// workspace is read-only and the child is awaited unless the call says
/// otherwise, and each word stands for its own policy.
pub proof fn an_accepted_call_is_taken_at_its_word(
    args: SpawnToolArgs,
    parent: &Agent,
    r: Result<(SpawnAgentSpec, Vec<String>), String>,
)
    requires
        call_ensures(build_spawn_spec, (Ok(args), parent), r),
        r is Ok,
    ensures
        ({
            let spec = r->Ok_0.0;
            &&& spec.role == args.role
            &&& spec.task == Some(args.task)
            &&& spec.execution_params.model == args.model
            &&& spec.execution_params.settings is None
            &&& spec.backend is Inherit
            &&& spec.workspace == WorkspacePolicy::ReadOnly <==> args.workspace is None || reads(
                args.workspace,
                "read_only"@,
            )
            &&& spec.workspace == WorkspacePolicy::Inherit <==> reads(args.workspace, "inherit"@)
            &&& spec.workspace == WorkspacePolicy::Snapshot <==> reads(args.workspace, "snapshot"@)
            &&& spec.workspace == WorkspacePolicy::NewWorktree <==> reads(
                args.workspace,
                "new_worktree"@,
            )
            &&& spec.mode == SpawnMode::AwaitResult <==> args.mode is None || reads(
                args.mode,
                "await"@,
            )
            &&& spec.mode == SpawnMode::Concurrent <==> reads(args.mode, "concurrent"@)
        }),
{
    words_differ();
}

/// The tools and the warnings of an accepted call are those that its list of
/// names is resolved to against the parent's toolset.
pub proof fn an_accepted_call_gets_what_its_names_resolve_to(
    args: SpawnToolArgs,
    parent: &Agent,
    r: Result<(SpawnAgentSpec, Vec<String>), String>,
    resolved: (ToolInheritance, Vec<String>),
)
    requires
        call_ensures(build_spawn_spec, (Ok(args), parent), r),
        r is Ok,
        call_ensures(
            resolve_tool_inheritance,
            (&args.tools, &parent.capabilities.tools),
            resolved,
        ),
    ensures
        r->Ok_0.0.tools is Subset,
        handed(r->Ok_0.0.tools) == handed(resolved.0),
        text::texts(r->Ok_0.1@) == text::texts(resolved.1@),
{
}

/// The budget of an accepted call keeps every limit that the call sets, and
/// every limit that the call leaves open is the parent's own.
pub proof fn an_accepted_call_keeps_the_limits_it_sets(
    args: SpawnToolArgs,
    parent: &Agent,
    r: Result<(SpawnAgentSpec, Vec<String>), String>,
)
    requires
        call_ensures(build_spawn_spec, (Ok(args), parent), r),
        r is Ok,
    ensures
        ({
            let budget = r->Ok_0.0.budget;
            &&& args.budget is None ==> budget == parent.budget
            &&& args.budget matches Some(set) ==> crate::laws::budgets::fills_in(
                set,
                parent.budget,
                budget,
            )
        }),
{
}

/// The tool under which children are spawned is described by the name that a
/// runner intercepts, under the identifier it is given.
pub proof fn the_spawn_tool_is_described_by_its_name(id: ToolId, r: ToolDescriptor)
    requires
        call_ensures(agent_spawn_tool_descriptor, (id,), r),
    ensures
        r.id == id,
        r.name@ == spawn_tool::AGENT_SPAWN_TOOL_NAME@,
        r.description@ == spawn_tool::AGENT_SPAWN_DESCRIPTION@,
        r.input_schema@ == spawn_tool::AGENT_SPAWN_INPUT_SCHEMA@,
        spawn_tool::AGENT_SPAWN_TOOL_NAME@ == "agent.spawn"@,
{
}

} // verus!
