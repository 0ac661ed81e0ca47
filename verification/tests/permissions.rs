use harness_runtime::agent::{AgentCapabilities, BackendCapabilities, WorkspaceCapabilities};
use harness_runtime::ids::ToolId;
use harness_runtime::permissions::{PermissionOutcome, PermissionPolicy};
use harness_runtime::tools::{
    AgentToolset, PermissionMode, ToolCapability, ToolDescriptor, ToolEntry, ToolPolicy,
};

fn entry(tool_name: &str, permission: PermissionMode, enabled: bool) -> ToolEntry {
    let id = ToolId(1);
    ToolEntry {
        id,
        capability: ToolCapability {
            descriptor: ToolDescriptor {
                id,
                name: tool_name.to_string(),
                description: String::new(),
                input_schema: "{}".to_string(),
            },
            policy: ToolPolicy { permission, enabled },
            delegatable: false,
        },
    }
}

fn capabilities(tools: Vec<ToolEntry>) -> AgentCapabilities {
    AgentCapabilities {
        tools: AgentToolset { tools },
        can_spawn_agents: false,
        max_child_depth: None,
        workspace: WorkspaceCapabilities { can_read: false, can_write: false, can_search: false },
        backend: BackendCapabilities::default(),
    }
}

fn capabilities_with_tool(
    tool_name: &str,
    permission: PermissionMode,
    enabled: bool,
) -> AgentCapabilities {
    capabilities(vec![entry(tool_name, permission, enabled)])
}

fn denial(outcome: PermissionOutcome) -> String {
    match outcome {
        PermissionOutcome::Denied(text) => text,
        other => panic!("expected a denial, got {other:?}"),
    }
}

#[test]
fn allow_enabled_tool_returns_allow() {
    let caps = capabilities_with_tool("fs.read", PermissionMode::Allow, true);
    let outcome = PermissionPolicy.evaluate(&caps, "fs.read");
    assert!(matches!(outcome, PermissionOutcome::Allow));
}

#[test]
fn ask_tool_returns_requires_approval() {
    let caps = capabilities_with_tool("bash.exec", PermissionMode::Ask, true);
    let outcome = PermissionPolicy.evaluate(&caps, "bash.exec");
    assert!(matches!(outcome, PermissionOutcome::RequiresApproval(_)));
}

#[test]
fn deny_tool_is_denied() {
    let caps = capabilities_with_tool("dangerous.write", PermissionMode::Deny, true);
    let outcome = PermissionPolicy.evaluate(&caps, "dangerous.write");
    assert!(matches!(outcome, PermissionOutcome::Denied(_)));
}

#[test]
fn disabled_tool_is_denied_even_when_allow() {
    let caps = capabilities_with_tool("disabled.tool", PermissionMode::Allow, false);
    let outcome = PermissionPolicy.evaluate(&caps, "disabled.tool");
    assert!(matches!(outcome, PermissionOutcome::Denied(_)));
}

#[test]
fn unknown_tool_is_denied() {
    let caps = capabilities_with_tool("known.tool", PermissionMode::Allow, true);
    let outcome = PermissionPolicy.evaluate(&caps, "unknown.tool");
    assert!(matches!(outcome, PermissionOutcome::Denied(_)));
}

#[test]
fn empty_toolset_denies_everything() {
    let caps = capabilities(vec![]);
    let outcome = PermissionPolicy.evaluate(&caps, "anything");
    assert!(matches!(outcome, PermissionOutcome::Denied(_)));
}

#[test]
fn each_denial_says_why() {
    let none = capabilities(vec![]);
    let disabled = capabilities_with_tool("t", PermissionMode::Allow, false);
    let denied = capabilities_with_tool("t", PermissionMode::Deny, true);
    assert_eq!(
        denial(PermissionPolicy.evaluate(&none, "t")),
        "Tool 't' is not present in the agent's toolset"
    );
    assert_eq!(
        denial(PermissionPolicy.evaluate(&disabled, "t")),
        "Tool 't' is not enabled in the agent's toolset"
    );
    assert_eq!(denial(PermissionPolicy.evaluate(&denied, "t")), "Tool 't' is denied by policy");
}

#[test]
fn an_approval_request_names_the_tool() {
    let caps = capabilities_with_tool("bash.exec", PermissionMode::Ask, true);
    match PermissionPolicy.evaluate(&caps, "bash.exec") {
        PermissionOutcome::RequiresApproval(text) => {
            assert_eq!(text, "Tool 'bash.exec' requires user approval")
        }
        other => panic!("expected a request, got {other:?}"),
    }
}

#[test]
fn the_first_tool_of_a_name_decides() {
    let caps = capabilities(vec![
        entry("x", PermissionMode::Deny, true),
        entry("x", PermissionMode::Allow, true),
    ]);
    assert!(matches!(PermissionPolicy.evaluate(&caps, "x"), PermissionOutcome::Denied(_)));
}
