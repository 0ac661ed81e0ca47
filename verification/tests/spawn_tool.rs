use harness_runtime::agent::{
    Agent, AgentCapabilities, BackendBinding, BackendCapabilities, BackendDescriptor,
    BackendReference, WorkspaceCapabilities,
};
use harness_runtime::budget::{AgentBudget, UsdAmount};
use harness_runtime::ids::{AgentId, BackendId, SessionId, ToolId};
use harness_runtime::protocol::{BackendPolicy, SpawnMode, ToolInheritance, WorkspacePolicy};
use harness_runtime::spawn_tool::{
    agent_spawn_tool_descriptor, build_spawn_spec, resolve_tool_inheritance, SpawnToolArgs,
    AGENT_SPAWN_TOOL_NAME,
};
use harness_runtime::text::is_blank;
use harness_runtime::tools::{
    AgentToolset, PermissionMode, ToolCapability, ToolDescriptor, ToolEntry, ToolPolicy,
};

fn tool_capability(id: u128, name: &str, delegatable: bool, enabled: bool) -> ToolEntry {
    let id = ToolId(id);
    ToolEntry {
        id,
        capability: ToolCapability {
            descriptor: ToolDescriptor {
                id,
                name: name.to_string(),
                description: "test tool".to_string(),
                input_schema: "{\"type\":\"object\"}".to_string(),
            },
            policy: ToolPolicy { permission: PermissionMode::Allow, enabled },
            delegatable,
        },
    }
}

fn parent_agent(tools: Vec<ToolEntry>, budget: AgentBudget) -> Agent {
    Agent::new(
        AgentId(1),
        SessionId(2),
        None,
        0,
        "parent system prompt".to_string(),
        BackendBinding {
            reference: BackendReference {
                integration: "integration".to_string(),
                configuration: "configuration".to_string(),
                model: None,
            },
            descriptor: BackendDescriptor {
                id: BackendId(3),
                name: "fake".to_string(),
                description: "fake".to_string(),
                capabilities: BackendCapabilities::default(),
            },
        },
        AgentCapabilities {
            tools: AgentToolset { tools },
            can_spawn_agents: true,
            max_child_depth: Some(3),
            workspace: WorkspaceCapabilities { can_read: true, can_write: false, can_search: true },
            backend: BackendCapabilities::default(),
        },
        budget,
    )
}

fn task(text: &str) -> SpawnToolArgs {
    SpawnToolArgs {
        task: text.to_string(),
        role: None,
        tools: None,
        workspace: None,
        mode: None,
        budget: None,
        model: None,
    }
}

fn subset(tools: &ToolInheritance) -> Vec<u128> {
    match tools {
        ToolInheritance::Subset(ids) => ids.iter().map(|id| id.0).collect(),
        other => panic!("expected Subset, got {other:?}"),
    }
}

#[test]
fn missing_task_is_rejected() {
    let parent = parent_agent(vec![], AgentBudget::default());
    let result = build_spawn_spec(Err("missing field `task`".to_string()), &parent);
    assert_eq!(
        result.err(),
        Some("invalid agent.spawn arguments: missing field `task`".to_string())
    );
}

#[test]
fn blank_task_is_rejected() {
    let parent = parent_agent(vec![], AgentBudget::default());
    let result = build_spawn_spec(Ok(task("   ")), &parent);
    assert!(result.is_err());
}

#[test]
fn a_task_of_exotic_white_space_is_rejected() {
    let parent = parent_agent(vec![], AgentBudget::default());
    let result = build_spawn_spec(Ok(task("\u{2003}\n\t\u{a0}")), &parent);
    assert_eq!(result.err(), Some("agent.spawn requires a non-empty `task`".to_string()));
    assert!(build_spawn_spec(Ok(task(" x ")), &parent).is_ok());
}

#[test]
fn defaults_are_least_privilege_read_only() {
    let read_tool = tool_capability(10, "fs.read", true, true);
    let edit_tool = tool_capability(11, "fs.edit", true, true);
    let parent = parent_agent(vec![read_tool, edit_tool], AgentBudget::default());

    let (spec, warnings) = build_spawn_spec(Ok(task("look around")), &parent).unwrap();

    assert!(warnings.is_empty());
    assert_eq!(spec.workspace, WorkspacePolicy::ReadOnly);
    assert_eq!(spec.mode, SpawnMode::AwaitResult);
    assert_eq!(subset(&spec.tools), vec![10], "fs.edit must not be in the default grant");
}

#[test]
fn explicit_tool_request_is_honored_when_delegatable() {
    let parent = parent_agent(
        vec![tool_capability(11, "fs.edit", true, true)],
        AgentBudget::default(),
    );
    let mut args = task("fix the bug");
    args.tools = Some(vec!["fs.edit".to_string()]);
    let (spec, warnings) = build_spawn_spec(Ok(args), &parent).unwrap();

    assert!(warnings.is_empty());
    assert_eq!(subset(&spec.tools), vec![11]);
}

#[test]
fn model_override_becomes_an_execution_params_override() {
    let parent = parent_agent(vec![], AgentBudget::default());
    let mut args = task("summarize this file");
    args.model = Some("haiku-4-5".to_string());
    let (spec, _warnings) = build_spawn_spec(Ok(args), &parent).unwrap();

    assert_eq!(spec.execution_params.model.as_deref(), Some("haiku-4-5"));
    assert!(
        matches!(spec.backend, BackendPolicy::Inherit),
        "a model override must not switch the child to a different backend policy"
    );
}

#[test]
fn no_model_argument_leaves_execution_params_unset() {
    let parent = parent_agent(vec![], AgentBudget::default());
    let (spec, _warnings) = build_spawn_spec(Ok(task("summarize this file")), &parent).unwrap();

    assert_eq!(spec.execution_params.model, None);
}

#[test]
fn non_delegatable_tool_is_never_granted_even_if_requested() {
    let parent = parent_agent(
        vec![tool_capability(12, "shell.exec", false, true)],
        AgentBudget::default(),
    );
    let mut args = task("run a command");
    args.tools = Some(vec!["shell.exec".to_string()]);
    let (spec, warnings) = build_spawn_spec(Ok(args), &parent).unwrap();

    assert_eq!(warnings.len(), 1, "the ungranted request must be reported, not silent");
    assert!(subset(&spec.tools).is_empty(), "non-delegatable tool must never be granted");
}

#[test]
fn requesting_a_tool_the_parent_does_not_have_is_never_granted() {
    let parent = parent_agent(vec![], AgentBudget::default());
    let mut args = task("do something");
    args.tools = Some(vec!["fs.edit".to_string()]);
    let (spec, warnings) = build_spawn_spec(Ok(args), &parent).unwrap();
    assert_eq!(warnings.len(), 1);
    assert!(subset(&spec.tools).is_empty());
}

#[test]
fn a_warning_quotes_and_escapes_the_name() {
    let parent = parent_agent(vec![], AgentBudget::default());
    let mut args = task("do something");
    args.tools = Some(vec!["a\"b\n".to_string()]);
    let (_, warnings) = build_spawn_spec(Ok(args), &parent).unwrap();
    assert_eq!(
        warnings,
        vec![
            "tool \"a\\\"b\\n\" was not granted to the spawned child (not present, not delegatable, or disabled on the parent)"
                .to_string()
        ]
    );
}

#[test]
fn every_listed_name_is_granted_or_warned_about() {
    let toolset = AgentToolset {
        tools: vec![
            tool_capability(20, "fs.read", true, true),
            tool_capability(21, "shell.exec", true, false),
            tool_capability(22, "fs.read", true, true),
        ],
    };
    let names = vec!["fs.read".to_string(), "shell.exec".to_string(), "nope".to_string()];
    let (tools, warnings) = resolve_tool_inheritance(&Some(names), &toolset);
    assert_eq!(subset(&tools), vec![20]);
    assert_eq!(warnings.len(), 2);
}

#[test]
fn unset_budget_defaults_to_the_parents_own_ceiling_not_unlimited() {
    let parent_budget = AgentBudget {
        max_requests: Some(10),
        max_cost_usd: Some(UsdAmount { mantissa: 500, scale: 2 }),
        ..Default::default()
    };
    let parent = parent_agent(vec![], parent_budget.clone());

    let (spec, _) = build_spawn_spec(Ok(task("go")), &parent).unwrap();

    assert_eq!(spec.budget.max_requests, parent_budget.max_requests);
    assert_eq!(spec.budget.max_cost_usd, parent_budget.max_cost_usd);
}

#[test]
fn explicit_tighter_budget_override_is_preserved() {
    let parent_budget = AgentBudget { max_requests: Some(10), ..Default::default() };
    let parent = parent_agent(vec![], parent_budget);
    let mut args = task("go");
    args.budget = Some(AgentBudget { max_requests: Some(3), ..Default::default() });
    let (spec, _) = build_spawn_spec(Ok(args), &parent).unwrap();

    assert_eq!(spec.budget.max_requests, Some(3));
}

#[test]
fn an_override_of_one_limit_keeps_the_others() {
    let parent_budget = AgentBudget {
        max_input_tokens: Some(1),
        max_output_tokens: Some(2),
        max_total_tokens: Some(3),
        max_cost_usd: Some(UsdAmount { mantissa: 4, scale: 0 }),
        max_requests: Some(5),
        max_tool_calls: Some(6),
        max_children: Some(7),
        max_depth: Some(8),
    };
    let parent = parent_agent(vec![], parent_budget);
    let mut args = task("go");
    args.budget = Some(AgentBudget { max_tool_calls: Some(1), ..Default::default() });
    let (spec, _) = build_spawn_spec(Ok(args), &parent).unwrap();
    assert_eq!(spec.budget, AgentBudget { max_tool_calls: Some(1), ..parent_budget });
}

#[test]
fn invalid_workspace_value_is_rejected() {
    let parent = parent_agent(vec![], AgentBudget::default());
    let mut args = task("go");
    args.workspace = Some("not-a-real-policy".to_string());
    let result = build_spawn_spec(Ok(args), &parent);
    assert_eq!(
        result.err(),
        Some(
            "invalid `workspace` value \"not-a-real-policy\"; expected one of \"inherit\" | \"read_only\" | \"snapshot\" | \"new_worktree\""
                .to_string()
        )
    );
}

#[test]
fn invalid_mode_value_is_rejected() {
    let parent = parent_agent(vec![], AgentBudget::default());
    let mut args = task("go");
    args.mode = Some("later".to_string());
    let result = build_spawn_spec(Ok(args), &parent);
    assert_eq!(
        result.err(),
        Some("invalid `mode` value \"later\"; expected \"await\" or \"concurrent\"".to_string())
    );
}

#[test]
fn every_workspace_policy_has_its_name() {
    let parent = parent_agent(vec![], AgentBudget::default());
    let names = [
        ("inherit", WorkspacePolicy::Inherit),
        ("read_only", WorkspacePolicy::ReadOnly),
        ("snapshot", WorkspacePolicy::Snapshot),
        ("new_worktree", WorkspacePolicy::NewWorktree),
    ];
    for (name, policy) in names {
        let mut args = task("go");
        args.workspace = Some(name.to_string());
        let (spec, _) = build_spawn_spec(Ok(args), &parent).unwrap();
        assert_eq!(spec.workspace, policy);
    }
}

#[test]
fn concurrent_mode_parses_correctly() {
    let parent = parent_agent(vec![], AgentBudget::default());
    let mut args = task("go");
    args.mode = Some("concurrent".to_string());
    let (spec, _) = build_spawn_spec(Ok(args), &parent).unwrap();
    assert_eq!(spec.mode, SpawnMode::Concurrent);
}

#[test]
fn descriptor_has_the_stable_tool_name_and_requires_task() {
    let descriptor = agent_spawn_tool_descriptor(ToolId(7));
    assert_eq!(descriptor.id, ToolId(7));
    assert_eq!(descriptor.name, AGENT_SPAWN_TOOL_NAME);
    let schema: serde_json::Value = serde_json::from_str(&descriptor.input_schema).unwrap();
    assert_eq!(
        schema["required"],
        serde_json::Value::Array(vec![serde_json::Value::String("task".to_string())])
    );
}

#[test]
fn a_task_of_white_space_is_blank() {
    for text in ["", " ", "\t\n\u{b}\u{c}\r", "\u{85}\u{a0}\u{1680}\u{2000}\u{200a}", "\u{2028}\u{2029}\u{202f}\u{205f}\u{3000}"] {
        assert!(is_blank(text));
    }
    for text in ["a", " go ", "\u{8}", "\u{e}", "\u{200b}", "\u{feff}", "\u{180e}"] {
        assert!(!is_blank(text));
    }
}

#[test]
fn a_toolset_holds_one_tool_under_an_identifier() {
    let mut toolset = AgentToolset::empty();
    toolset.insert(tool_capability(20, "fs.read", true, true));
    toolset.insert(tool_capability(21, "fs.edit", true, true));
    toolset.insert(tool_capability(20, "shell.exec", true, false));
    let names: Vec<&str> =
        toolset.tools.iter().map(|t| t.capability.descriptor.name.as_str()).collect();
    assert_eq!(names, vec!["shell.exec", "fs.edit"]);
    assert_eq!(toolset.tools[0].id.0, 20);
    assert_eq!(toolset.tools[1].id.0, 21);
}

#[test]
fn white_space_is_what_std_has_it_to_be() {
    for c in '\0'..=char::MAX {
        assert_eq!(is_blank(c.encode_utf8(&mut [0; 4])), c.is_whitespace());
    }
}
