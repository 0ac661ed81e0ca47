//! Laws of toolsets and of the permission policy.

use vstd::prelude::*;

use crate::agent::AgentCapabilities;
use crate::permissions::{PermissionOutcome, PermissionPolicy};
use crate::tools::{AgentToolset, PermissionMode, ToolEntry};

verus! {

/// Whether entry `i` of a toolset is called `name`.
pub open spec fn called(toolset: AgentToolset, name: Seq<char>, i: int) -> bool {
    0 <= i < toolset.tools@.len() && toolset.tools@[i].capability.descriptor.name@ == name
}

/// Whether entry `i` of a toolset is the first one called `name`.
pub open spec fn first_called(toolset: AgentToolset, name: Seq<char>, i: int) -> bool {
    called(toolset, name, i) && forall|j: int| 0 <= j < i ==> !called(toolset, name, j)
}

/// Among the tools of one name there is a first one.
pub proof fn a_first_one_is_called(toolset: AgentToolset, name: Seq<char>, i: int)
    requires
        called(toolset, name, i),
    ensures
        exists|k: int| first_called(toolset, name, k),
    decreases i,
{
    if exists|j: int| 0 <= j < i && called(toolset, name, j) {
        let j = choose|j: int| 0 <= j < i && called(toolset, name, j);
        a_first_one_is_called(toolset, name, j);
    } else {
        assert(first_called(toolset, name, i));
    }
}

proof fn firsts_agree(toolset: AgentToolset, name: Seq<char>)
    ensures
        forall|i: int| #[trigger]
            toolset.first_named(name, i) <==> first_called(toolset, name, i),
        toolset.lacks(name) <==> forall|i: int| !called(toolset, name, i),
{
    assert forall|i: int| #[trigger]
        toolset.first_named(name, i) <==> first_called(toolset, name, i) by {
        if toolset.first_named(name, i) {
            assert forall|j: int| 0 <= j < i implies !called(toolset, name, j) by {
                assert(!toolset.tools@[j].named(name));
            }
        }
        if first_called(toolset, name, i) {
            assert forall|j: int| 0 <= j < i implies !(#[trigger] toolset.tools@[j]).named(
                name,
            ) by {
                assert(!called(toolset, name, j));
            }
        }
    }
    if toolset.lacks(name) {
        assert forall|i: int| !called(toolset, name, i) by {
            if 0 <= i < toolset.tools@.len() {
                assert(!toolset.tools@[i].named(name));
            }
        }
    }
    if forall|i: int| !called(toolset, name, i) {
        assert forall|i: int| 0 <= i < toolset.tools@.len() implies !(
        #[trigger] toolset.tools@[i]).named(name) by {
            assert(!called(toolset, name, i));
        }
    }
}

/// The first tool of a name decides about a call: it runs without asking
/// exactly when that tool is enabled and allowed, it is put to the user
/// exactly when the tool is enabled and is to be asked about, and it is denied
/// in every other case, with a message that names the tool.
pub proof fn the_first_tool_of_a_name_decides(
    policy: &PermissionPolicy,
    capabilities: &AgentCapabilities,
    tool_name: &str,
    r: PermissionOutcome,
    i: int,
)
    requires
        call_ensures(PermissionPolicy::evaluate, (policy, capabilities, tool_name), r),
        first_called(capabilities.tools, tool_name@, i),
    ensures
        ({
            let mode = capabilities.tools.tools@[i].capability.policy;
            &&& r is Allow <==> mode.enabled && mode.permission == PermissionMode::Allow
            &&& r is RequiresApproval <==> mode.enabled && mode.permission == PermissionMode::Ask
            &&& r is Denied <==> !mode.enabled || mode.permission == PermissionMode::Deny
            &&& r matches PermissionOutcome::RequiresApproval(text) ==> text@ == "Tool '"@
                + tool_name@ + "' requires user approval"@
            &&& r matches PermissionOutcome::Denied(text) ==> text@ == "Tool '"@ + tool_name@ + (
            if mode.enabled {
                "' is denied by policy"@
            } else {
                "' is not enabled in the agent's toolset"@
            })
        }),
{
    firsts_agree(capabilities.tools, tool_name@);
    assert(capabilities.tools.first_named(tool_name@, i));
}

/// A tool that the agent does not have is denied.
pub proof fn a_missing_tool_is_denied(
    policy: &PermissionPolicy,
    capabilities: &AgentCapabilities,
    tool_name: &str,
    r: PermissionOutcome,
)
    requires
        call_ensures(PermissionPolicy::evaluate, (policy, capabilities, tool_name), r),
        forall|i: int| !called(capabilities.tools, tool_name@, i),
    ensures
        r matches PermissionOutcome::Denied(text) && text@ == "Tool '"@ + tool_name@
            + "' is not present in the agent's toolset"@,
{
    firsts_agree(capabilities.tools, tool_name@);
}

/// A tool is found by its name exactly when there is one of that name, and the
/// first one is found; it counts as enabled exactly when some tool of that
/// name is.
pub proof fn tools_are_found_by_name(
    toolset: &AgentToolset,
    name: &str,
    found: Option<usize>,
    enabled: bool,
)
    requires
        call_ensures(AgentToolset::find_named, (toolset, name), found),
        call_ensures(AgentToolset::has_enabled, (toolset, name), enabled),
    ensures
        found is None <==> forall|i: int| !called(*toolset, name@, i),
        found matches Some(at) ==> first_called(*toolset, name@, at as int),
        enabled <==> exists|i: int|
            called(*toolset, name@, i) && toolset.tools@[i].capability.policy.enabled,
{
    firsts_agree(*toolset, name@);
    if found is Some {
        assert(called(*toolset, name@, found->0 as int));
    }
    if enabled {
        let i = choose|i: int|
            0 <= i < toolset.tools@.len() && (#[trigger] toolset.tools@[i]).named(name@)
                && toolset.tools@[i].capability.policy.enabled;
        assert(called(*toolset, name@, i));
    }
    if exists|i: int| called(*toolset, name@, i) && toolset.tools@[i].capability.policy.enabled {
        let i = choose|i: int|
            called(*toolset, name@, i) && toolset.tools@[i].capability.policy.enabled;
        assert(toolset.tools@[i].named(name@));
    }
}

/// A tool that a child may get is found exactly when an enabled tool of that
/// name may be passed on, and the first such one is found.
pub proof fn tools_to_pass_on_are_found_by_name(
    toolset: &AgentToolset,
    name: &str,
    found: Option<usize>,
)
    requires
        call_ensures(AgentToolset::find_grantable, (toolset, name), found),
    ensures
        found is None <==> forall|i: int|
            #![trigger toolset.tools@[i]]
            called(*toolset, name@, i) ==> !toolset.tools@[i].capability.delegatable
                || !toolset.tools@[i].capability.policy.enabled,
        found matches Some(at) ==> called(*toolset, name@, at as int)
            && toolset.tools@[at as int].capability.delegatable
            && toolset.tools@[at as int].capability.policy.enabled,
        found matches Some(at) ==> forall|i: int|
            #![trigger toolset.tools@[i]]
            i < at && called(*toolset, name@, i) ==> !toolset.tools@[i].capability.delegatable
                || !toolset.tools@[i].capability.policy.enabled,
{
    if found is Some {
        let at = found->0 as int;
        assert(called(*toolset, name@, at));
        assert forall|i: int|
            #![trigger toolset.tools@[i]]
            i < at && called(*toolset, name@, i) implies !toolset.tools@[i].capability.delegatable
            || !toolset.tools@[i].capability.policy.enabled by {
            assert(!toolset.tools@[i].grantable(name@));
        }
    } else {
        assert forall|i: int|
            #![trigger toolset.tools@[i]]
            called(*toolset, name@, i) implies !toolset.tools@[i].capability.delegatable
            || !toolset.tools@[i].capability.policy.enabled by {
            assert(!toolset.tools@[i].grantable(name@));
        }
    }
}

/// An empty toolset has no tool of any name.
pub proof fn an_empty_toolset_has_no_tool(toolset: AgentToolset, name: &str, found: Option<usize>)
    requires
        call_ensures(AgentToolset::empty, (), toolset),
        call_ensures(AgentToolset::find_named, (&toolset, name), found),
    ensures
        toolset.tools@.len() == 0,
        found is None,
{
}

/// A tool that is put into a toolset is there under its identifier, alone,
/// and every other tool stays where it was.
pub proof fn a_tool_replaces_the_one_of_its_identifier(toolset: &mut AgentToolset, entry: ToolEntry)
    requires
        old(toolset).wf(),
        call_ensures(AgentToolset::insert, (toolset, entry), ()),
    ensures
        exists|i: int|
            0 <= i < final(toolset).tools@.len() && final(toolset).tools@[i] == entry,
        forall|i: int, j: int|
            0 <= i < j < final(toolset).tools@.len() ==> (#[trigger] final(toolset).tools@[i]).id
                != (#[trigger] final(toolset).tools@[j]).id,
        forall|i: int|
            0 <= i < old(toolset).tools@.len() && (#[trigger] old(toolset).tools@[i]).id
                != entry.id ==> final(toolset).tools@[i] == old(toolset).tools@[i],
        final(toolset).tools@.len() == old(toolset).tools@.len() + (if exists|i: int|
            0 <= i < old(toolset).tools@.len() && (#[trigger] old(toolset).tools@[i]).id
                == entry.id {
            0int
        } else {
            1
        }),
{
    if old(toolset).has_id(entry.id) {
        let i = choose|i: int|
            0 <= i < old(toolset).tools@.len() && (#[trigger] old(toolset).tools@[i]).id
                == entry.id;
        assert(final(toolset).tools@ == old(toolset).tools@.update(i, entry));
        assert(final(toolset).tools@[i] == entry);
    } else {
        assert(final(toolset).tools@ == old(toolset).tools@.push(entry));
        assert(final(toolset).tools@[old(toolset).tools@.len() as int] == entry);
    }
}

} // verus!
