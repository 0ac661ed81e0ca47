//! Permission policy for tool execution at the runtime boundary.
//!
//! The policy is checked again right before a tool runs, whatever the state
//! machine decided earlier: only an enabled tool whose mode is `Allow` runs
//! without asking.

use vstd::prelude::*;

use crate::agent::AgentCapabilities;
use crate::text::concat3;
use crate::tools::PermissionMode;

verus! {

/// Evaluates whether a tool call is allowed, needs approval, or is denied.
#[derive(Clone, Copy, Debug, Default)]
pub struct PermissionPolicy;

/// Result of a permission evaluation.
#[derive(Debug)]
pub enum PermissionOutcome {
    /// No restriction; the executor may run the tool.
    Allow,
    /// The caller must obtain user approval before executing.
    RequiresApproval(String),
    /// The tool is blocked by policy.
    Denied(String),
}

/// The message about a tool: `Tool '<name>'` followed by `rest`.
pub open spec fn about(name: Seq<char>, rest: Seq<char>) -> Seq<char> {
    "Tool '"@ + name + rest
}

impl PermissionOutcome {
    /// Whether the outcome denies with the given message.
    pub open spec fn denies(self, message: Seq<char>) -> bool {
        self matches PermissionOutcome::Denied(text) && text@ == message
    }

    /// Whether the outcome asks for approval with the given message.
    pub open spec fn asks(self, message: Seq<char>) -> bool {
        self matches PermissionOutcome::RequiresApproval(text) && text@ == message
    }
}

/// Whether an agent with these capabilities may never call the tool: it has
/// no tool of that name, or the first one is disabled or denied.
pub open spec fn denied(capabilities: AgentCapabilities, name: Seq<char>) -> bool {
    ||| capabilities.tools.lacks(name)
    ||| exists|i: int| #[trigger]
        capabilities.tools.first_named(name, i) && {
            let policy = capabilities.tools.tools@[i].capability.policy;
            !policy.enabled || policy.permission == PermissionMode::Deny
        }
}

impl PermissionPolicy {
    /// Evaluates whether the tool called `tool_name` is permitted for an agent
    /// with these capabilities.
    ///
    /// The first tool of that name decides. A missing or disabled tool is
    /// denied; an enabled one is allowed, needs approval, or is denied, as its
    /// permission mode says.
    pub fn evaluate(&self, capabilities: &AgentCapabilities, tool_name: &str) -> (r:
        PermissionOutcome)
        ensures
            r is Denied <==> denied(*capabilities, tool_name@),
            capabilities.tools.lacks(tool_name@) ==> r.denies(
                about(tool_name@, "' is not present in the agent's toolset"@),
            ),
            forall|i: int| #[trigger]
                capabilities.tools.first_named(tool_name@, i) ==> {
                    let policy = capabilities.tools.tools@[i].capability.policy;
                    if !policy.enabled {
                        r.denies(about(tool_name@, "' is not enabled in the agent's toolset"@))
                    } else {
                        match policy.permission {
                            PermissionMode::Allow => r == PermissionOutcome::Allow,
                            PermissionMode::Ask => r.asks(
                                about(tool_name@, "' requires user approval"@),
                            ),
                            PermissionMode::Deny => r.denies(
                                about(tool_name@, "' is denied by policy"@),
                            ),
                        }
                    }
                },
    {
        match capabilities.tools.find_named(tool_name) {
            None => {
                PermissionOutcome::Denied(
                    concat3("Tool '", tool_name, "' is not present in the agent's toolset"),
                )
            },
            Some(index) => {
                let policy = capabilities.tools.tools[index].capability.policy;
                proof {
                    assert forall|i: int| #[trigger]
                        capabilities.tools.first_named(tool_name@, i) implies i == index by {
                        the_first_tool_of_a_name_is_unique(
                            capabilities.tools,
                            tool_name@,
                            i,
                            index as int,
                        );
                    }
                    assert(capabilities.tools.tools@[index as int].named(tool_name@));
                    assert(capabilities.tools.first_named(tool_name@, index as int));
                }
                if !policy.enabled {
                    return PermissionOutcome::Denied(
                        concat3("Tool '", tool_name, "' is not enabled in the agent's toolset"),
                    );
                }
                match policy.permission {
                    PermissionMode::Allow => PermissionOutcome::Allow,
                    PermissionMode::Ask => PermissionOutcome::RequiresApproval(
                        concat3("Tool '", tool_name, "' requires user approval"),
                    ),
                    PermissionMode::Deny => PermissionOutcome::Denied(
                        concat3("Tool '", tool_name, "' is denied by policy"),
                    ),
                }
            },
        }
    }
}

/// The first tool of a given name is unique.
pub proof fn the_first_tool_of_a_name_is_unique(
    toolset: crate::tools::AgentToolset,
    name: Seq<char>,
    i: int,
    j: int,
)
    requires
        toolset.first_named(name, i),
        toolset.first_named(name, j),
    ensures
        i == j,
{
    if i < j {
        assert(!toolset.tools@[i].named(name));
    } else if j < i {
        assert(!toolset.tools@[j].named(name));
    }
}

} // verus!
