//! Laws of what is stored of a session and what comes back from it.

use vstd::prelude::*;

use crate::agent::{
    Agent, AgentCapabilities, AgentUsageSummary, ChildUsage, UsageLedger, WorkspaceCapabilities,
};
use crate::ids::{AgentId, SessionId};
use crate::json::{self, Json, JsonNumber};
use crate::session_runtime::projection::{
    self, build_snapshot, capabilities_from_value, put_child_usage, stored_agent_state,
    try_capabilities, try_usage, usage_from_value, usage_summary_from_value, AgentProjectionTable,
    DecodedCapabilities, DecodedChildUsage, DecodedUsage, DurableSessionSnapshot, StoredAgentState,
};
use crate::session_runtime::restoration::{agent_from_stored, StoredAgent};
use crate::text;

verus! {

// ---------------------------------------------------------------------------
// JSON values
// ---------------------------------------------------------------------------

/// Whether a value is an object whose member `i` is called `key`, no earlier
/// one being called so.
pub open spec fn found_at(value: Json, key: Seq<char>, i: int) -> bool {
    value matches Json::Object(members) && 0 <= i < members@.len() && members@[i].0@ == key
        && forall|j: int| 0 <= j < i ==> (#[trigger] members@[j]).0@ != key
}

/// Whether a value is an object that holds `member` under `key`.
pub open spec fn holds(value: Json, key: Seq<char>, member: Json) -> bool {
    exists|i: int| #[trigger] found_at(value, key, i) && value->Object_0@[i].1 == member
}

/// Whether a value is an object that has a member called `key`.
pub open spec fn carries(value: Json, key: Seq<char>) -> bool {
    exists|member: Json| holds(value, key, member)
}

proof fn holds_is_member_view(value: Json, key: Seq<char>)
    ensures
        forall|member: Json| #[trigger]
            holds(value, key, member) <==> value.member_view(key) == Some(member),
        carries(value, key) <==> value.member_view(key) is Some,
{
    assert forall|member: Json| #[trigger]
        holds(value, key, member) <==> value.member_view(key) == Some(member) by {
        match value {
            Json::Object(members) => {
                if holds(value, key, member) {
                    let i = choose|i: int| #[trigger]
                        found_at(value, key, i) && value->Object_0@[i].1 == member;
                    assert(json::first_member(members@, key, i));
                    json::member_at(members@, key, i);
                }
                if value.member_view(key) == Some(member) {
                    let i = choose|i: int| json::first_member(members@, key, i);
                    assert(json::first_member(members@, key, i));
                    assert(found_at(value, key, i));
                }
            },
            _ => {},
        }
    }
    if value.member_view(key) is Some {
        assert(holds(value, key, value.member_view(key)->0));
    }
}

/// A member is found under its own name: looking a name up gives the value of
/// the first member of that name, and nothing where there is none or the value
/// is no object.
pub proof fn a_member_is_found_under_its_name(value: &Json, key: &str, r: Option<&Json>)
    requires
        call_ensures(Json::get, (value, key), r),
    ensures
        r is Some <==> carries(*value, key@),
        r matches Some(member) ==> holds(*value, key@, *member),
{
    holds_is_member_view(*value, key@);
}

/// Looking a name up among members gives what an object of these members holds
/// under it.
pub proof fn members_are_looked_up_by_name(
    members: &Vec<(String, Json)>,
    key: &str,
    r: Option<&Json>,
    i: int,
)
    requires
        call_ensures(json::lookup, (members, key), r),
        0 <= i < members@.len(),
    ensures
        members@[i].0@ == key@ ==> r is Some,
        members@[i].0@ == key@ && (forall|j: int|
            0 <= j < i ==> (#[trigger] members@[j]).0@ != key@) ==> r is Some && *r->0
            == members@[i].1,
        r is Some ==> exists|k: int|
            0 <= k < members@.len() && (#[trigger] members@[k]).0@ == key@ && members@[k].1 == *r->0,
{
    let value = Json::Object(*members);
    holds_is_member_view(value, key@);
    if r is Some {
        assert(holds(value, key@, *r->0));
        let k = choose|k: int| #[trigger]
            found_at(value, key@, k) && value->Object_0@[k].1 == *r->0;
        assert(members@[k].0@ == key@);
    }
    if members@[i].0@ == key@ {
        let first = a_first_member(members@, key@, i);
        assert(found_at(value, key@, first));
        assert(holds(value, key@, members@[first].1));
        if forall|j: int| 0 <= j < i ==> (#[trigger] members@[j]).0@ != key@ {
            assert(first == i);
        }
    }
}

proof fn a_first_member(members: Seq<(String, Json)>, key: Seq<char>, i: int) -> (k: int)
    requires
        0 <= i < members.len(),
        members[i].0@ == key,
    ensures
        0 <= k <= i,
        members[k].0@ == key,
        forall|j: int| 0 <= j < k ==> (#[trigger] members[j]).0@ != key,
    decreases i,
{
    if exists|j: int| 0 <= j < i && (#[trigger] members[j]).0@ == key {
        let j = choose|j: int| 0 <= j < i && (#[trigger] members[j]).0@ == key;
        a_first_member(members, key, j)
    } else {
        i
    }
}

/// Only a boolean reads as one, and only an integer that is not negative reads
/// as one; each reads as what it is.
pub proof fn values_read_as_what_they_are(value: &Json, flag: Option<bool>, number: Option<u64>)
    requires
        call_ensures(Json::as_bool, (value,), flag),
        call_ensures(Json::as_u64, (value,), number),
    ensures
        forall|b: bool| flag == Some(b) <==> *value == Json::Bool(b),
        forall|n: u64| number == Some(n) <==> *value == Json::Number(JsonNumber::Unsigned(n)),
{
}

// ---------------------------------------------------------------------------
// Capabilities
// ---------------------------------------------------------------------------

/// Whether a value is an object that stores workspace capabilities, each flag
/// under its own name.
pub open spec fn stores_workspace(
    value: Json,
    workspace: WorkspaceCapabilities,
) -> bool {
    &&& holds(value, "can_read"@, Json::Bool(workspace.can_read))
    &&& holds(value, "can_write"@, Json::Bool(workspace.can_write))
    &&& holds(value, "can_search"@, Json::Bool(workspace.can_search))
}

/// Whether a value is the object that a set of capabilities is stored as:
/// every capability under its own name.
pub open spec fn stores_capabilities(value: Json, capabilities: AgentCapabilities) -> bool {
    &&& carries(value, "tools"@)
    &&& carries(value, "backend"@)
    &&& holds(value, "can_spawn_agents"@, Json::Bool(capabilities.can_spawn_agents))
    &&& holds(
        value,
        "max_child_depth"@,
        match capabilities.max_child_depth {
            Some(depth) => Json::Number(JsonNumber::Unsigned(depth as u64)),
            None => Json::Null,
        },
    )
    &&& exists|workspace: Json| #[trigger]
        holds(value, "workspace"@, workspace) && stores_workspace(
            workspace,
            capabilities.workspace,
        )
}

proof fn views_of_capabilities(value: Json)
    ensures
        forall|member: Json| #[trigger]
            holds(value, "tools"@, member) <==> value.member_view("tools"@) == Some(member),
        carries(value, "tools"@) <==> value.member_view("tools"@) is Some,
        forall|member: Json| #[trigger]
            holds(value, "backend"@, member) <==> value.member_view("backend"@) == Some(member),
        carries(value, "backend"@) <==> value.member_view("backend"@) is Some,
        forall|member: Json| #[trigger]
            holds(value, "can_spawn_agents"@, member) <==> value.member_view("can_spawn_agents"@)
                == Some(member),
        carries(value, "can_spawn_agents"@) <==> value.member_view("can_spawn_agents"@) is Some,
        forall|member: Json| #[trigger]
            holds(value, "max_child_depth"@, member) <==> value.member_view("max_child_depth"@)
                == Some(member),
        carries(value, "max_child_depth"@) <==> value.member_view("max_child_depth"@) is Some,
        forall|member: Json| #[trigger]
            holds(value, "workspace"@, member) <==> value.member_view("workspace"@) == Some(member),
        carries(value, "workspace"@) <==> value.member_view("workspace"@) is Some,
        forall|member: Json| #[trigger]
            holds(value, "can_read"@, member) <==> value.member_view("can_read"@) == Some(member),
        forall|member: Json| #[trigger]
            holds(value, "can_write"@, member) <==> value.member_view("can_write"@) == Some(member),
        forall|member: Json| #[trigger]
            holds(value, "can_search"@, member) <==> value.member_view("can_search"@) == Some(
                member,
            ),
{
    holds_is_member_view(value, "tools"@);
    holds_is_member_view(value, "backend"@);
    holds_is_member_view(value, "can_spawn_agents"@);
    holds_is_member_view(value, "max_child_depth"@);
    holds_is_member_view(value, "workspace"@);
    holds_is_member_view(value, "can_read"@);
    holds_is_member_view(value, "can_write"@);
    holds_is_member_view(value, "can_search"@);
}

/// Reading the object that a set of capabilities is stored as gives back
/// exactly that set.
pub proof fn stored_capabilities_come_back(
    capabilities: AgentCapabilities,
    value: &Json,
    decoded: DecodedCapabilities,
    read: Result<AgentCapabilities, String>,
    restored: AgentCapabilities,
)
    requires
        stores_capabilities(*value, capabilities),
        decoded.tools == Ok::<_, String>(capabilities.tools),
        decoded.backend == Ok::<_, String>(capabilities.backend),
        call_ensures(try_capabilities, (value, decoded), read),
        call_ensures(capabilities_from_value, (value, decoded), restored),
    ensures
        read == Ok::<AgentCapabilities, String>(capabilities),
        restored == capabilities,
{
    views_of_capabilities(*value);
    let workspace = choose|workspace: Json| #[trigger]
        holds(*value, "workspace"@, workspace) && stores_workspace(
            workspace,
            capabilities.workspace,
        );
    views_of_capabilities(workspace);
    if let Some(depth) = capabilities.max_child_depth {
        assert((depth as u64) as u32 == depth);
    }
}

/// Whatever is read as capabilities was stored so: every restored flag is the
/// boolean stored under its own name, a restored depth is the number stored
/// for it, where that fits, and no limit on the depth comes from a stored
/// null only.
pub proof fn read_capabilities_were_stored_so(
    value: &Json,
    decoded: DecodedCapabilities,
    capabilities: AgentCapabilities,
    workspace: Json,
    stored_depth: u64,
)
    requires
        call_ensures(try_capabilities, (value, decoded), Ok(capabilities)),
        holds(*value, "workspace"@, workspace),
    ensures
        decoded.tools == Ok::<_, String>(capabilities.tools),
        decoded.backend == Ok::<_, String>(capabilities.backend),
        carries(*value, "tools"@) && carries(*value, "backend"@),
        holds(*value, "can_spawn_agents"@, Json::Bool(capabilities.can_spawn_agents)),
        holds(workspace, "can_read"@, Json::Bool(capabilities.workspace.can_read)),
        holds(workspace, "can_write"@, Json::Bool(capabilities.workspace.can_write)),
        holds(workspace, "can_search"@, Json::Bool(capabilities.workspace.can_search)),
        capabilities.max_child_depth is None <==> holds(*value, "max_child_depth"@, Json::Null),
        holds(*value, "max_child_depth"@, Json::Number(JsonNumber::Unsigned(stored_depth)))
            && stored_depth <= u32::MAX ==> capabilities.max_child_depth == Some(
            stored_depth as u32,
        ),
{
    views_of_capabilities(*value);
    views_of_capabilities(workspace);
}

/// Stored capabilities can be read exactly when every member is there and is
/// of its kind; otherwise nothing at all is granted.
pub proof fn unreadable_capabilities_are_no_capabilities(
    value: &Json,
    decoded: DecodedCapabilities,
    read: Result<AgentCapabilities, String>,
    restored: AgentCapabilities,
)
    requires
        call_ensures(try_capabilities, (value, decoded), read),
        call_ensures(capabilities_from_value, (value, decoded), restored),
    ensures
        read is Ok <==> {
            &&& carries(*value, "tools"@) && decoded.tools is Ok
            &&& carries(*value, "backend"@) && decoded.backend is Ok
            &&& exists|b: bool| holds(*value, "can_spawn_agents"@, Json::Bool(b))
            &&& holds(*value, "max_child_depth"@, Json::Null) || exists|n: u64|
                holds(*value, "max_child_depth"@, Json::Number(JsonNumber::Unsigned(n)))
            &&& exists|workspace: Json| #[trigger]
                holds(*value, "workspace"@, workspace) && (exists|b: bool|
                    holds(workspace, "can_read"@, Json::Bool(b))) && (exists|b: bool|
                    holds(workspace, "can_write"@, Json::Bool(b))) && (exists|b: bool|
                    holds(workspace, "can_search"@, Json::Bool(b)))
        },
        read is Err ==> restored.tools.tools@.len() == 0 && !restored.can_spawn_agents
            && restored.max_child_depth is None && !restored.workspace.can_read
            && !restored.workspace.can_write && !restored.workspace.can_search
            && !restored.backend.tool_calls && !restored.backend.streaming
            && !restored.backend.permissions && !restored.backend.native_subagents,
        read matches Ok(capabilities) ==> restored.tools == capabilities.tools
            && restored.can_spawn_agents == capabilities.can_spawn_agents
            && restored.max_child_depth == capabilities.max_child_depth && restored.workspace
            == capabilities.workspace && restored.backend == capabilities.backend,
{
    views_of_capabilities(*value);
    if carries(*value, "workspace"@) {
        let workspace = value.member_view("workspace"@)->0;
        assert(holds(*value, "workspace"@, workspace));
        views_of_capabilities(workspace);
        if read is Ok {
            let w = read->Ok_0.workspace;
            assert(holds(workspace, "can_read"@, Json::Bool(w.can_read)));
            assert(holds(workspace, "can_write"@, Json::Bool(w.can_write)));
            assert(holds(workspace, "can_search"@, Json::Bool(w.can_search)));
        }
        if carries(workspace, "can_read"@) || carries(workspace, "can_write"@) {
            assert(workspace is Object);
        }
    }
    if read is Ok {
        assert(holds(*value, "can_spawn_agents"@, Json::Bool(read->Ok_0.can_spawn_agents)));
        let depth = value.member_view("max_child_depth"@)->0;
        assert(holds(*value, "max_child_depth"@, depth));
        if depth != Json::Null {
            let n = depth.u64_view()->0;
            assert(depth == Json::Number(JsonNumber::Unsigned(n)));
            assert(holds(*value, "max_child_depth"@, Json::Number(JsonNumber::Unsigned(n))));
        }
    }
}

/// What is missing first, in the order in which capabilities are read, is
/// what the error names.
pub proof fn the_first_missing_capability_is_named(
    value: &Json,
    decoded: DecodedCapabilities,
    read: Result<AgentCapabilities, String>,
)
    requires
        call_ensures(try_capabilities, (value, decoded), read),
    ensures
        !(*value is Object) ==> read is Err && read->Err_0@
            == "capabilities projection is not an object"@,
        *value is Object && !carries(*value, "tools"@) ==> read is Err && read->Err_0@
            == "missing field `"@ + "tools"@ + "`"@,
        carries(*value, "tools"@) && decoded.tools is Err ==> read is Err && read->Err_0@
            == "invalid `tools` projection: "@ + decoded.tools->Err_0@,
        carries(*value, "tools"@) && decoded.tools is Ok
            && !carries(*value, "can_spawn_agents"@) ==> read
            is Err && read->Err_0@ == "missing field `"@ + "can_spawn_agents"@ + "`"@,
        carries(*value, "tools"@) && decoded.tools is Ok && holds(
            *value,
            "can_spawn_agents"@,
            Json::Null,
        ) ==> read is Err && read->Err_0@ == "`can_spawn_agents` is not a boolean"@,
{
    views_of_capabilities(*value);
}

/// Whether an object holds a boolean under `key`.
pub open spec fn holds_flag(value: Json, key: Seq<char>) -> bool {
    holds(value, key, Json::Bool(true)) || holds(value, key, Json::Bool(false))
}

proof fn a_flag_is_true_or_false(value: Json, key: Seq<char>)
    ensures
        holds_flag(value, key) <==> projection::workspace_flag(value, key) is Some,
{
    holds_is_member_view(value, key);
    if let Some(member) = value.member_view(key) {
        assert(holds(value, key, member));
        if let Json::Bool(b) = member {
            assert(b == true || b == false);
        }
    }
}

/// Behind the tools and the permission to spawn, the depth, the workspace with
/// its three flags, and the backend are read, in this order; the first that is
/// missing or not of its kind is what the error names.
pub proof fn the_first_unreadable_capability_is_named(
    value: &Json,
    decoded: DecodedCapabilities,
    read: Result<AgentCapabilities, String>,
    depth: Json,
    workspace: Json,
)
    requires
        call_ensures(try_capabilities, (value, decoded), read),
        carries(*value, "tools"@),
        decoded.tools is Ok,
        holds_flag(*value, "can_spawn_agents"@),
    ensures
        !carries(*value, "max_child_depth"@) ==> read is Err && read->Err_0@ == "missing field `"@
            + "max_child_depth"@ + "`"@,
        holds(*value, "max_child_depth"@, depth) ==> {
            let readable = depth == Json::Null || (depth is Number && depth->Number_0 is Unsigned);
            let flags = holds_flag(workspace, "can_read"@) && holds_flag(workspace, "can_write"@)
                && holds_flag(workspace, "can_search"@);
            let held = holds(*value, "workspace"@, workspace);
            &&& !readable ==> read is Err && read->Err_0@ == "`max_child_depth` is not an integer"@
            &&& readable && !carries(*value, "workspace"@) ==> read is Err && read->Err_0@
                == "missing field `"@ + "workspace"@ + "`"@
            &&& readable && held && !(workspace is Object) ==> read is Err && read->Err_0@
                == "`workspace` is not an object"@
            &&& readable && held && workspace is Object && !holds_flag(workspace, "can_read"@)
                ==> read is Err && read->Err_0@ == "`workspace."@ + "can_read"@
                + "` is not a boolean"@
            &&& readable && held && holds_flag(workspace, "can_read"@) && !holds_flag(
                workspace,
                "can_write"@,
            ) ==> read is Err && read->Err_0@ == "`workspace."@ + "can_write"@
                + "` is not a boolean"@
            &&& readable && held && holds_flag(workspace, "can_read"@) && holds_flag(
                workspace,
                "can_write"@,
            ) && !holds_flag(workspace, "can_search"@) ==> read is Err && read->Err_0@
                == "`workspace."@ + "can_search"@ + "` is not a boolean"@
            &&& readable && held && flags && !carries(*value, "backend"@) ==> read is Err
                && read->Err_0@ == "missing field `"@ + "backend"@ + "`"@
            &&& readable && held && flags && carries(*value, "backend"@) && decoded.backend is Err
                ==> read is Err && read->Err_0@ == "invalid `backend` projection: "@
                + decoded.backend->Err_0@
        },
{
    views_of_capabilities(*value);
    views_of_capabilities(workspace);
    a_flag_is_true_or_false(*value, "can_spawn_agents"@);
    a_flag_is_true_or_false(workspace, "can_read"@);
    a_flag_is_true_or_false(workspace, "can_write"@);
    a_flag_is_true_or_false(workspace, "can_search"@);
}

// ---------------------------------------------------------------------------
// Usage
// ---------------------------------------------------------------------------

/// Whether the decoded members of a stored usage summary are those of `usage`,
/// each under its own name.
pub open spec fn stores_summary(
    value: Json,
    decoded: DecodedChildUsage,
    usage: AgentUsageSummary,
) -> bool {
    &&& carries(value, "self_usage"@) && decoded.self_usage == Ok::<_, String>(usage.self_usage)
    &&& carries(value, "descendant_usage"@) && decoded.descendant_usage == Ok::<_, String>(
        usage.descendant_usage,
    )
    &&& carries(value, "inclusive_usage"@) && decoded.inclusive_usage == Ok::<_, String>(
        usage.inclusive_usage,
    )
}

/// A stored usage summary comes back as it was stored, and is readable exactly
/// when all three of its parts are there and decode.
pub proof fn a_stored_summary_comes_back(
    value: &Json,
    decoded: &DecodedChildUsage,
    r: Result<AgentUsageSummary, String>,
    usage: AgentUsageSummary,
)
    requires
        call_ensures(usage_summary_from_value, (value, decoded), r),
    ensures
        r == Ok::<_, String>(usage) <==> stores_summary(*value, *decoded, usage),
        r is Ok <==> carries(*value, "self_usage"@) && decoded.self_usage is Ok && carries(
            *value,
            "descendant_usage"@,
        ) && decoded.descendant_usage is Ok && carries(*value, "inclusive_usage"@)
            && decoded.inclusive_usage is Ok,
{
    holds_is_member_view(*value, "self_usage"@);
    holds_is_member_view(*value, "descendant_usage"@);
    holds_is_member_view(*value, "inclusive_usage"@);
}

/// The parts of a stored summary are read in order: an agent's own usage, that
/// of its descendants, and all of it; the first that is missing or does not
/// decode is what the error names.
pub proof fn the_first_unreadable_summary_part_is_named(
    value: &Json,
    decoded: &DecodedChildUsage,
    r: Result<AgentUsageSummary, String>,
)
    requires
        call_ensures(usage_summary_from_value, (value, decoded), r),
    ensures
        ({
            let own = carries(*value, "self_usage"@) && decoded.self_usage is Ok;
            let below = carries(*value, "descendant_usage"@) && decoded.descendant_usage is Ok;
            &&& !(*value is Object) ==> r is Err && r->Err_0@
                == "child usage summary is not an object"@
            &&& *value is Object && !carries(*value, "self_usage"@) ==> r is Err && r->Err_0@
                == "missing field `"@ + "self_usage"@ + "`"@
            &&& carries(*value, "self_usage"@) && decoded.self_usage is Err ==> r is Err
                && r->Err_0@ == "invalid `self_usage` projection: "@ + decoded.self_usage->Err_0@
            &&& own && !carries(*value, "descendant_usage"@) ==> r is Err && r->Err_0@
                == "missing field `"@ + "descendant_usage"@ + "`"@
            &&& own && carries(*value, "descendant_usage"@) && decoded.descendant_usage is Err ==> r
                is Err && r->Err_0@ == "invalid `descendant_usage` projection: "@
                + decoded.descendant_usage->Err_0@
            &&& own && below && !carries(*value, "inclusive_usage"@) ==> r is Err && r->Err_0@
                == "missing field `"@ + "inclusive_usage"@ + "`"@
            &&& own && below && carries(*value, "inclusive_usage"@) && decoded.inclusive_usage
                is Err ==> r is Err && r->Err_0@ == "invalid `inclusive_usage` projection: "@
                + decoded.inclusive_usage->Err_0@
        }),
{
    holds_is_member_view(*value, "self_usage"@);
    holds_is_member_view(*value, "descendant_usage"@);
    holds_is_member_view(*value, "inclusive_usage"@);
}

/// Whether `entries` has a usage of `child`.
pub open spec fn lists_child(entries: Seq<ChildUsage>, child: AgentId) -> bool {
    exists|i: int| 0 <= i < entries.len() && (#[trigger] entries[i]).child == child
}

proof fn putting_a_child_in(entries: Seq<ChildUsage>, child: AgentId, usage: AgentUsageSummary)
    ensures
        ({
            let after = projection::with_child(entries, child, usage);
            &&& after.len() == entries.len() + if lists_child(entries, child) { 0int } else { 1 }
            &&& after.contains(ChildUsage { child, usage })
            &&& forall|i: int|
                0 <= i < entries.len() && (#[trigger] entries[i]).child != child ==> after[i]
                    == entries[i]
            &&& !lists_child(entries, child) ==> after == entries.push(ChildUsage { child, usage })
        }),
    decreases entries.len(),
{
    let after = projection::with_child(entries, child, usage);
    let new = ChildUsage { child, usage };
    if entries.len() == 0 {
        assert(after[0] == new);
        assert(after =~= entries.push(new));
    } else if entries[0].child == child {
        assert(after[0] == new);
        assert(lists_child(entries, child));
    } else {
        let rest = entries.drop_first();
        let below = projection::with_child(rest, child, usage);
        putting_a_child_in(rest, child, usage);
        let k = choose|k: int| 0 <= k < below.len() && below[k] == new;
        assert(after[k + 1] == new);
        if lists_child(rest, child) {
            let i = choose|i: int| 0 <= i < rest.len() && (#[trigger] rest[i]).child == child;
            assert(entries[i + 1].child == child);
        }
        if lists_child(entries, child) {
            let i = choose|i: int| 0 <= i < entries.len() && (#[trigger] entries[i]).child == child;
            assert(rest[i - 1].child == child);
        }
        assert forall|i: int| 0 <= i < entries.len() && (#[trigger] entries[i]).child
            != child implies after[i] == entries[i] by {
            if i > 0 {
                assert(rest[i - 1] == entries[i]);
                assert(after[i] == below[i - 1]);
            }
        }
        if !lists_child(entries, child) {
            assert(after =~= entries.push(new));
        }
    }
}

/// Setting the usage of a child leaves every other child alone and counts no
/// child twice.
pub proof fn a_childs_usage_is_set_in_its_place(
    entries: &mut Vec<ChildUsage>,
    child: AgentId,
    usage: AgentUsageSummary,
)
    requires
        call_ensures(put_child_usage, (entries, child, usage), ()),
    ensures
        final(entries)@.contains(ChildUsage { child, usage }),
        final(entries)@.len() == old(entries)@.len() + if lists_child(old(entries)@, child) {
            0int
        } else {
            1
        },
        forall|i: int|
            0 <= i < old(entries)@.len() && (#[trigger] old(entries)@[i]).child != child
                ==> final(entries)@[i] == old(entries)@[i],
{
    putting_a_child_in(old(entries)@, child, usage);
}

/// Whether a value, with what its members decode to, is what a ledger is
/// stored as: every counter under its own name, and the usage of every child
/// under the child's identifier.
pub open spec fn stores_usage(value: Json, decoded: DecodedUsage, ledger: UsageLedger) -> bool {
    &&& decoded.records == Ok::<_, String>(ledger.records)
    &&& holds(value, "tool_calls"@, Json::Number(JsonNumber::Unsigned(ledger.tool_calls)))
    &&& holds(value, "runs"@, Json::Number(JsonNumber::Unsigned(ledger.runs)))
    &&& exists|children: Json| #[trigger]
        holds(value, "child_usage"@, children) && stores_children(
            children,
            decoded.children@,
            ledger.child_usage@,
        )
}

/// Whether an object holds the usage of each child of a list, in order.
pub open spec fn stores_children(
    value: Json,
    decoded: Seq<DecodedChildUsage>,
    children: Seq<ChildUsage>,
) -> bool {
    &&& value is Object
    &&& value->Object_0@.len() == children.len()
    &&& decoded.len() == children.len()
    &&& forall|i: int|
        0 <= i < children.len() ==> (#[trigger] decoded[i]).child == Ok::<_, String>(
            children[i].child,
        ) && stores_summary(value->Object_0@[i].1, decoded[i], children[i].usage)
    &&& forall|i: int, j: int|
        0 <= i < j < children.len() ==> (#[trigger] children[i]).child != (
        #[trigger] children[j]).child
}

proof fn children_come_back(
    members: Seq<(String, Json)>,
    decoded: Seq<DecodedChildUsage>,
    children: Seq<ChildUsage>,
    n: int,
)
    requires
        0 <= n <= children.len(),
        members.len() == children.len(),
        decoded.len() == children.len(),
        forall|i: int|
            0 <= i < children.len() ==> (#[trigger] decoded[i]).child == Ok::<_, String>(
                children[i].child,
            ) && stores_summary(members[i].1, decoded[i], children[i].usage),
        forall|i: int, j: int|
            0 <= i < j < children.len() ==> (#[trigger] children[i]).child != (
            #[trigger] children[j]).child,
    ensures
        projection::children_error(members, decoded, n) is None,
        projection::decoded_children(decoded, n) == children.take(n),
    decreases n,
{
    if n > 0 {
        children_come_back(members, decoded, children, n - 1);
        let value = members[n - 1].1;
        assert(decoded[n - 1].child == Ok::<_, String>(children[n - 1].child));
        holds_is_member_view(value, "self_usage"@);
        holds_is_member_view(value, "descendant_usage"@);
        holds_is_member_view(value, "inclusive_usage"@);
        let before = children.take(n - 1);
        putting_a_child_in(before, children[n - 1].child, children[n - 1].usage);
        assert(!lists_child(before, children[n - 1].child)) by {
            if lists_child(before, children[n - 1].child) {
                let i = choose|i: int|
                    0 <= i < before.len() && (#[trigger] before[i]).child == children[n - 1].child;
                assert(children[i].child != children[n - 1].child);
            }
        }
        assert(projection::decoded_summary(decoded[n - 1]) == children[n - 1].usage);
        assert(before.push(children[n - 1]) =~= children.take(n));
    } else {
        assert(children.take(0) =~= Seq::empty());
    }
}

/// A stored ledger comes back as it was: its records, each counter, and the
/// usage of every child.
pub proof fn a_stored_ledger_comes_back(
    ledger: UsageLedger,
    value: &Json,
    decoded: DecodedUsage,
    read: Result<UsageLedger, String>,
    restored: UsageLedger,
)
    requires
        stores_usage(*value, decoded, ledger),
        call_ensures(try_usage, (value, decoded), read),
        call_ensures(usage_from_value, (value, decoded), restored),
    ensures
        read is Ok,
        read->Ok_0.records == ledger.records && restored.records == ledger.records,
        read->Ok_0.tool_calls == ledger.tool_calls && restored.tool_calls == ledger.tool_calls,
        read->Ok_0.runs == ledger.runs && restored.runs == ledger.runs,
        read->Ok_0.child_usage@ == ledger.child_usage@ && restored.child_usage@
            == ledger.child_usage@,
{
    holds_is_member_view(*value, "tool_calls"@);
    holds_is_member_view(*value, "runs"@);
    holds_is_member_view(*value, "child_usage"@);
    let children = choose|children: Json| #[trigger]
        holds(*value, "child_usage"@, children) && stores_children(
            children,
            decoded.children@,
            ledger.child_usage@,
        );
    let members = children->Object_0@;
    assert(projection::child_members(*value) == members);
    children_come_back(members, decoded.children@, ledger.child_usage@, members.len() as int);
    assert(ledger.child_usage@.take(members.len() as int) =~= ledger.child_usage@);
}

/// A counter that was never stored is zero, and each counter is the number
/// stored under its own name, whatever the other one is. A ledger that is no
/// object, or whose records do not decode, cannot be read, and an empty one
/// takes its place.
pub proof fn counters_are_read_under_their_own_names(
    value: &Json,
    decoded: DecodedUsage,
    read: Result<UsageLedger, String>,
    restored: UsageLedger,
    n: u64,
)
    requires
        projection::child_members(*value).len() <= decoded.children@.len(),
        call_ensures(try_usage, (value, decoded), read),
        call_ensures(usage_from_value, (value, decoded), restored),
    ensures
        read is Ok && holds(*value, "tool_calls"@, Json::Number(JsonNumber::Unsigned(n)))
            ==> read->Ok_0.tool_calls == n,
        read is Ok && holds(*value, "runs"@, Json::Number(JsonNumber::Unsigned(n)))
            ==> read->Ok_0.runs == n,
        read is Ok && !carries(*value, "tool_calls"@) ==> read->Ok_0.tool_calls == 0,
        read is Ok && !carries(*value, "runs"@) ==> read->Ok_0.runs == 0,
        read is Ok && !carries(*value, "child_usage"@) ==> read->Ok_0.child_usage@.len() == 0,
        !(*value is Object) || decoded.records is Err ==> read is Err,
        *value is Object && decoded.records is Ok && !carries(*value, "child_usage"@)
            ==> read is Ok,
        read is Err ==> restored.records@.len() == 0 && restored.tool_calls == 0 && restored.runs
            == 0 && restored.child_usage@.len() == 0,
        read is Ok ==> restored.records == read->Ok_0.records && restored.tool_calls
            == read->Ok_0.tool_calls && restored.runs == read->Ok_0.runs && restored.child_usage@
            == read->Ok_0.child_usage@,
{
    holds_is_member_view(*value, "tool_calls"@);
    holds_is_member_view(*value, "runs"@);
    holds_is_member_view(*value, "child_usage"@);
}

/// Why entry `i` of a stored child usage could not be read, where it is the
/// first that could not: its key is no identifier, or its summary is
/// unreadable.
pub proof fn the_first_unreadable_child_is_named(
    value: &Json,
    decoded: DecodedUsage,
    read: Result<UsageLedger, String>,
    children: Json,
    i: int,
    summary: Result<AgentUsageSummary, String>,
)
    requires
        projection::child_members(*value).len() <= decoded.children@.len(),
        call_ensures(try_usage, (value, decoded), read),
        decoded.records is Ok,
        holds(*value, "child_usage"@, children),
        children is Object,
        0 <= i < children->Object_0@.len(),
        forall|j: int|
            0 <= j < i ==> (#[trigger] decoded.children@[j]).child is Ok && carries(
                children->Object_0@[j].1,
                "self_usage"@,
            ) && decoded.children@[j].self_usage is Ok && carries(
                children->Object_0@[j].1,
                "descendant_usage"@,
            ) && decoded.children@[j].descendant_usage is Ok && carries(
                children->Object_0@[j].1,
                "inclusive_usage"@,
            ) && decoded.children@[j].inclusive_usage is Ok,
        call_ensures(
            usage_summary_from_value,
            (&children->Object_0@[i].1, &decoded.children@[i]),
            summary,
        ),
    ensures
        decoded.children@[i].child is Err ==> read is Err && read->Err_0@
            == "invalid child_usage key "@ + text::debug_text(children->Object_0@[i].0@) + ": "@
            + decoded.children@[i].child->Err_0@,
        decoded.children@[i].child is Ok && summary is Err ==> read is Err && read->Err_0@
            == summary->Err_0@,
{
    holds_is_member_view(*value, "child_usage"@);
    let members = children->Object_0@;
    let all = decoded.children@;
    assert(projection::child_members(*value) == members);
    earlier_children_are_readable(members, all, i);
    assert(projection::children_error(members, all, i + 1) == projection::child_error(
        members,
        all,
        i,
    ));
    if projection::child_error(members, all, i) is Some {
        a_first_error_stays(members, all, i + 1, members.len() as int);
    }
}

proof fn earlier_children_are_readable(
    members: Seq<(String, Json)>,
    children: Seq<DecodedChildUsage>,
    n: int,
)
    requires
        0 <= n <= members.len(),
        forall|j: int|
            0 <= j < n ==> (#[trigger] children[j]).child is Ok && carries(
                members[j].1,
                "self_usage"@,
            ) && children[j].self_usage is Ok && carries(members[j].1, "descendant_usage"@)
                && children[j].descendant_usage is Ok && carries(members[j].1, "inclusive_usage"@)
                && children[j].inclusive_usage is Ok,
    ensures
        projection::children_error(members, children, n) is None,
    decreases n,
{
    if n > 0 {
        earlier_children_are_readable(members, children, n - 1);
        assert(children[n - 1].child is Ok);
        holds_is_member_view(members[n - 1].1, "self_usage"@);
        holds_is_member_view(members[n - 1].1, "descendant_usage"@);
        holds_is_member_view(members[n - 1].1, "inclusive_usage"@);
    }
}

proof fn a_first_error_stays(
    members: Seq<(String, Json)>,
    children: Seq<DecodedChildUsage>,
    k: int,
    n: int,
)
    requires
        0 <= k <= n,
        projection::children_error(members, children, k) is Some,
    ensures
        projection::children_error(members, children, n) == projection::children_error(
            members,
            children,
            k,
        ),
    decreases n - k,
{
    if k < n {
        a_first_error_stays(members, children, k, n - 1);
    }
}

/// A ledger that is no object says so, and so does one whose records do not
/// decode.
pub proof fn an_unreadable_ledger_says_why(
    value: &Json,
    decoded: DecodedUsage,
    read: Result<UsageLedger, String>,
)
    requires
        projection::child_members(*value).len() <= decoded.children@.len(),
        call_ensures(try_usage, (value, decoded), read),
    ensures
        !(*value is Object) ==> read is Err && read->Err_0@ == "usage projection is not an object"@,
        *value is Object && decoded.records is Err ==> read is Err && read->Err_0@
            == "invalid `records` projection: "@ + decoded.records->Err_0@,
{
}

// ---------------------------------------------------------------------------
// Agents
// ---------------------------------------------------------------------------

/// An agent that is stored and restored is the same agent: the same identity
/// and place in the tree, the same state of its run, the same conversation,
/// the same backend, budget, capabilities and usage. Only queued input and the
/// prepared context start anew, and the session is the one it is restored
/// into.
pub proof fn an_agent_comes_back_from_its_projection(
    agent: &Agent,
    capabilities_text: String,
    usage_text: String,
    stored: StoredAgentState,
    entry: StoredAgent,
    session_id: SessionId,
    restored: Agent,
)
    requires
        call_ensures(stored_agent_state, (agent, capabilities_text, usage_text), stored),
        entry.stored == stored,
        stores_capabilities(entry.capabilities, agent.capabilities),
        entry.decoded_capabilities.tools == Ok::<_, String>(agent.capabilities.tools),
        entry.decoded_capabilities.backend == Ok::<_, String>(agent.capabilities.backend),
        stores_usage(entry.usage, entry.decoded_usage, agent.usage),
        call_ensures(agent_from_stored, (session_id, entry), restored),
    ensures
        restored.id == agent.id,
        restored.parent_id == agent.parent_id,
        restored.session_id == session_id,
        restored.state.status == agent.state.status,
        restored.state.current_operation == agent.state.current_operation,
        restored.state.system_prompt == agent.state.system_prompt,
        restored.state.execution_params == agent.state.execution_params,
        restored.state.messages@ == agent.state.messages@,
        restored.state.active_run == agent.state.active_run,
        restored.state.pending_tools@ == agent.state.pending_tools@,
        restored.state.pending_permissions@ == agent.state.pending_permissions@,
        restored.state.children@ == agent.state.children@,
        restored.state.last_error == agent.state.last_error,
        restored.state.transition_sequence == agent.state.transition_sequence,
        restored.state.depth == agent.state.depth,
        restored.state.queued_inputs@.len() == 0,
        restored.state.context.generation == 0,
        restored.backend == agent.backend,
        restored.budget == agent.budget,
        restored.capabilities == agent.capabilities,
        restored.usage.records == agent.usage.records,
        restored.usage.tool_calls == agent.usage.tool_calls,
        restored.usage.runs == agent.usage.runs,
        restored.usage.child_usage@ == agent.usage.child_usage@,
        stored.capabilities == capabilities_text,
        stored.usage == usage_text,
        stored.backend_config is None,
{
    let value = entry.capabilities;
    views_of_capabilities(value);
    let workspace = choose|workspace: Json| #[trigger]
        holds(value, "workspace"@, workspace) && stores_workspace(
            workspace,
            agent.capabilities.workspace,
        );
    views_of_capabilities(workspace);
    if let Some(depth) = agent.capabilities.max_child_depth {
        assert((depth as u64) as u32 == depth);
    }
    let usage = entry.usage;
    holds_is_member_view(usage, "tool_calls"@);
    holds_is_member_view(usage, "runs"@);
    holds_is_member_view(usage, "child_usage"@);
    let children = choose|children: Json| #[trigger]
        holds(usage, "child_usage"@, children) && stores_children(
            children,
            entry.decoded_usage.children@,
            agent.usage.child_usage@,
        );
    let members = children->Object_0@;
    assert(projection::child_members(usage) == members);
    children_come_back(
        members,
        entry.decoded_usage.children@,
        agent.usage.child_usage@,
        members.len() as int,
    );
    assert(agent.usage.child_usage@.take(members.len() as int) =~= agent.usage.child_usage@);
}

/// What is stored of an agent is told by name: each field of the projection
/// is the field of the agent that goes by that name.
pub proof fn a_projection_shows_the_agent(
    agent: &Agent,
    capabilities_text: String,
    usage_text: String,
    stored: StoredAgentState,
)
    requires
        call_ensures(stored_agent_state, (agent, capabilities_text, usage_text), stored),
    ensures
        stored.agent_id == agent.id,
        stored.parent_id == agent.parent_id,
        stored.status == agent.state.status,
        stored.current_operation == agent.state.current_operation,
        stored.system_prompt == agent.state.system_prompt,
        stored.execution_params == agent.state.execution_params,
        stored.messages@ == agent.state.messages@,
        stored.active_run == agent.state.active_run,
        stored.pending_tools@ == agent.state.pending_tools@,
        stored.pending_permissions@ == agent.state.pending_permissions@,
        stored.children@ == agent.state.children@,
        stored.last_error == agent.state.last_error,
        stored.transition_sequence == agent.state.transition_sequence,
        stored.depth == agent.state.depth,
        stored.backend == agent.backend,
        stored.budget == agent.budget,
{
}

// ---------------------------------------------------------------------------
// Projections and snapshots
// ---------------------------------------------------------------------------

/// After an agent is published, its projection is in the table, once; the
/// projections of all other agents stay where they were.
pub proof fn a_published_agent_is_projected_once(
    table: &mut AgentProjectionTable,
    agent: &Agent,
    capabilities_text: String,
    usage_text: String,
    i: int,
    j: int,
)
    requires
        old(table).wf(),
        call_ensures(
            AgentProjectionTable::publish,
            (table, agent, capabilities_text, usage_text),
            (),
        ),
    ensures
        exists|k: int|
            0 <= k < final(table)@.len() && (#[trigger] final(table)@[k]).agent_id == agent.id
                && final(table)@[k].status == agent.state.status && final(table)@[k].messages@
                == agent.state.messages@ && final(table)@[k].capabilities == capabilities_text
                && final(table)@[k].usage == usage_text,
        0 <= i < j < final(table)@.len() ==> final(table)@[i].agent_id != final(table)@[j].agent_id,
        0 <= i < old(table)@.len() && old(table)@[i].agent_id != agent.id
            ==> i < final(table)@.len()
            && final(table)@[i] == old(table)@[i],
        0 <= i < final(table)@.len() && final(table)@[i].agent_id != agent.id
            ==> i < old(table)@.len() && final(table)@[i] == old(table)@[i],
{
    let before = old(table)@;
    let after = final(table)@;
    projection::a_checkpoint_saves_what_was_published(
        before,
        after,
        *agent,
        capabilities_text,
        usage_text,
    );
    let k = choose|k: int| #[trigger]
        projection::projection_at(after, agent.id, k) && after[k].projects(
            *agent,
            capabilities_text,
            usage_text,
        );
    assert(after[k].agent_id == agent.id);
    if 0 <= i < before.len() && before[i].agent_id != agent.id {
        assert(projection::projection_at(before, before[i].agent_id, i));
        assert(projection::projection_at(after, before[i].agent_id, i));
    }
    if 0 <= i < after.len() && after[i].agent_id != agent.id {
        assert(projection::projection_at(after, after[i].agent_id, i));
        assert(projection::projection_at(before, after[i].agent_id, i));
    }
}

/// A projection that is put into the table is there, once, as it is; the
/// projections of all other agents stay where they were.
pub proof fn a_projection_is_kept_once(
    table: &mut AgentProjectionTable,
    stored: StoredAgentState,
    fresh: AgentProjectionTable,
    i: int,
    j: int,
)
    requires
        old(table).wf(),
        call_ensures(AgentProjectionTable::insert, (table, stored), ()),
        call_ensures(AgentProjectionTable::new, (), fresh),
    ensures
        final(table)@.contains(stored),
        0 <= i < j < final(table)@.len() ==> final(table)@[i].agent_id != final(table)@[j].agent_id,
        0 <= i < old(table)@.len() && old(table)@[i].agent_id != stored.agent_id
            ==> i < final(table)@.len() && final(table)@[i] == old(table)@[i],
        final(table)@.len() == old(table)@.len() || final(table)@.len() == old(table)@.len() + 1,
        0 <= i < old(table)@.len() && old(table)@[i].agent_id == stored.agent_id
            ==> final(table)@[i] == stored && final(table)@.len() == old(table)@.len(),
        fresh@.len() == 0,
{
    let before = old(table)@;
    let after = final(table)@;
    if exists|k: int| projection::projection_at(before, stored.agent_id, k) {
        let k = choose|k: int| #[trigger]
            projection::projection_at(before, stored.agent_id, k) && after == before.update(
                k,
                stored,
            );
        assert(after[k] == stored);
        if 0 <= i < before.len() && before[i].agent_id == stored.agent_id {
            if i < k {
                assert(before[i].agent_id != before[k].agent_id);
            } else if k < i {
                assert(before[k].agent_id != before[i].agent_id);
            }
        }
    } else {
        assert(after[before.len() as int] == stored);
        if 0 <= i < before.len() && before[i].agent_id == stored.agent_id {
            assert(projection::projection_at(before, stored.agent_id, i));
        }
    }
}

/// A table is read as it is: its length and the projection at each position.
pub proof fn a_table_is_read_as_it_is(
    table: &AgentProjectionTable,
    i: usize,
    length: usize,
    entry: &StoredAgentState,
)
    requires
        i < table@.len(),
        call_ensures(AgentProjectionTable::len, (table,), length),
        call_ensures(AgentProjectionTable::at, (table, i), entry),
    ensures
        length == table@.len(),
        *entry == table@[i as int],
{
}

/// A snapshot is of the session it was asked for, at that number and that
/// time, and holds every projected agent, field by field. It names the
/// workspace, and for every agent, once and in ascending order, the
/// integration and the backend that it runs on. It never names a credential.
pub proof fn a_snapshot_holds_every_agent(
    session_id: SessionId,
    root_agent_id: AgentId,
    table: &AgentProjectionTable,
    workspace_identity: String,
    at_sequence: u64,
    now: u64,
    schema_version: u32,
    compacted: bool,
    compaction_generation: u64,
    r: DurableSessionSnapshot,
    i: int,
)
    requires
        call_ensures(
            build_snapshot,
            (
                session_id,
                root_agent_id,
                table,
                workspace_identity,
                at_sequence,
                now,
                schema_version,
                compacted,
                compaction_generation,
            ),
            r,
        ),
        0 <= i < table@.len(),
    ensures
        r.session_id == session_id,
        r.root_agent_id == root_agent_id,
        r.session_sequence == at_sequence,
        r.timestamp == now,
        r.schema_version == schema_version,
        r.metadata.workspace_identity == Some(workspace_identity),
        r.metadata.compacted == compacted,
        r.metadata.compaction_generation == compaction_generation,
        r.metadata.credential_profiles@.len() == 0,
        r.metadata.tool_policy_ids@.len() == 0,
        r.agents@.len() == table@.len(),
        r.agents@[i].agent_id == table@[i].agent_id,
        r.agents@[i].parent_id == table@[i].parent_id,
        r.agents@[i].status == table@[i].status,
        r.agents@[i].current_operation == table@[i].current_operation,
        r.agents@[i].system_prompt == table@[i].system_prompt,
        r.agents@[i].execution_params == table@[i].execution_params,
        r.agents@[i].messages@ == table@[i].messages@,
        r.agents@[i].active_run == table@[i].active_run,
        r.agents@[i].pending_tools@ == table@[i].pending_tools@,
        r.agents@[i].pending_permissions@ == table@[i].pending_permissions@,
        r.agents@[i].children@ == table@[i].children@,
        r.agents@[i].last_error == table@[i].last_error,
        r.agents@[i].transition_sequence == table@[i].transition_sequence,
        r.agents@[i].depth == table@[i].depth,
        r.agents@[i].backend == table@[i].backend,
        r.agents@[i].backend_config == table@[i].backend_config,
        r.agents@[i].budget == table@[i].budget,
        r.agents@[i].capabilities == table@[i].capabilities,
        r.agents@[i].usage == table@[i].usage,
        text::texts(r.metadata.integration_references@).contains(
            table@[i].backend.reference.integration@ + "::"@ + table@[i].backend.descriptor.name@,
        ),
        forall|a: int, b: int|
            0 <= a < b < r.metadata.integration_references@.len() ==> crate::sorting::before(
                (#[trigger] r.metadata.integration_references@[a])@,
                (#[trigger] r.metadata.integration_references@[b])@,
            ),
        forall|a: int|
            0 <= a < r.metadata.integration_references@.len() ==> runs_on(
                table@,
                (#[trigger] r.metadata.integration_references@[a])@,
            ),
{
    assert(r.agents@[i].same_as(table@[i]));
    let texts = text::texts(r.metadata.integration_references@);
    assert(table@[i].reference() == table@[i].backend.reference.integration@ + "::"@
        + table@[i].backend.descriptor.name@);
    assert forall|a: int, b: int|
        0 <= a < b < r.metadata.integration_references@.len() implies crate::sorting::before(
        (#[trigger] r.metadata.integration_references@[a])@,
        (#[trigger] r.metadata.integration_references@[b])@,
    ) by {
        assert(crate::sorting::before(texts[a], texts[b]));
    }
    assert forall|a: int| 0 <= a < r.metadata.integration_references@.len() implies runs_on(
        table@,
        (#[trigger] r.metadata.integration_references@[a])@,
    ) by {
        assert(texts.contains(texts[a]));
        let k = choose|k: int| 0 <= k < table@.len() && (#[trigger] table@[k]).reference()
            == texts[a];
        assert(table@[k].backend.reference.integration@ + "::"@ + table@[k].backend.descriptor.name@
            == texts[a]);
    }
}

/// Whether one of the agents runs on the integration and backend that a
/// reference names.
pub open spec fn runs_on(agents: Seq<StoredAgentState>, reference: Seq<char>) -> bool {
    exists|k: int|
        0 <= k < agents.len() && (#[trigger] agents[k]).backend.reference.integration@ + "::"@
            + agents[k].backend.descriptor.name@ == reference
}

} // verus!
