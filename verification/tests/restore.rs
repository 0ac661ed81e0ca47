use harness_runtime::agent::{
    Agent, AgentCapabilities, AgentStatus, AgentUsageMetrics, BackendBinding, BackendCapabilities,
    BackendDescriptor, BackendReference, UserInput,
};
use harness_runtime::budget::AgentBudget;
use harness_runtime::ids::{AgentId, BackendId, RunId, SessionId};
use harness_runtime::integration::{
    creation_outcome, FactoryEntry, IntegrationError, IntegrationRegistry,
};
use harness_runtime::json::{Json, JsonNumber};
use harness_runtime::restore::{resolves_integration, DependencyKind, HostRestoreResolver};
use harness_runtime::session_manager::backend_reference_key;
use harness_runtime::session_manager::restorer::{
    assessment, creation_failed, resolve_integration, restore_outcome, restore_step,
    root_backend_key, BackendRestore, RestoreEvent, RestoreStage,
    BackendStep, RestoreWork,
};
use harness_runtime::session_manager::SessionManagerError;
use harness_runtime::session_runtime::projection::{
    capabilities_from_value, stored_agent_state, try_capabilities, try_usage, usage_from_value,
    DecodedCapabilities, DecodedChildUsage, DecodedUsage, DurableSessionMetadata, StoredAgentState,
};
use harness_runtime::session_runtime::restoration::StoredAgent;
use harness_runtime::session_runtime::{SessionRuntime, SessionStatus};
use harness_runtime::scheduler::SchedulerConfig;
use harness_runtime::tools::AgentToolset;

fn factory(id: &str, name: &str, factory: u32) -> FactoryEntry<u32> {
    FactoryEntry { id: id.to_string(), descriptor_name: name.to_string(), factory }
}

fn registry(entries: Vec<FactoryEntry<u32>>) -> IntegrationRegistry<u32> {
    let mut registry = IntegrationRegistry::new();
    for entry in entries {
        registry.register(entry);
    }
    registry
}

fn metadata() -> DurableSessionMetadata {
    DurableSessionMetadata {
        workspace_identity: None,
        integration_references: vec![],
        credential_profiles: vec![],
        tool_policy_ids: vec![],
        compacted: false,
        compaction_generation: 0,
    }
}

fn agent(id: u128, parent: Option<u128>, integration: &str, name: &str) -> Agent {
    Agent::new(
        AgentId(id),
        SessionId(1),
        parent.map(AgentId),
        0,
        "prompt".to_string(),
        BackendBinding {
            reference: BackendReference {
                integration: integration.to_string(),
                configuration: "configuration".to_string(),
                model: None,
            },
            descriptor: BackendDescriptor {
                id: BackendId(3),
                name: name.to_string(),
                description: "fake".to_string(),
                capabilities: BackendCapabilities::default(),
            },
        },
        AgentCapabilities::none(),
        AgentBudget::default(),
    )
}

fn stored(agent: &Agent) -> StoredAgentState {
    stored_agent_state(agent, "{}".to_string(), "{}".to_string())
}

fn object(members: Vec<(&str, Json)>) -> Json {
    Json::Object(members.into_iter().map(|(key, value)| (key.to_string(), value)).collect())
}

fn number(n: u64) -> Json {
    Json::Number(JsonNumber::Unsigned(n))
}

fn capabilities_value(depth: Json) -> Json {
    object(vec![
        ("tools", object(vec![])),
        ("can_spawn_agents", Json::Bool(true)),
        ("max_child_depth", depth),
        (
            "workspace",
            object(vec![
                ("can_read", Json::Bool(true)),
                ("can_write", Json::Bool(false)),
                ("can_search", Json::Bool(true)),
            ]),
        ),
        ("backend", object(vec![])),
    ])
}

fn decoded() -> DecodedCapabilities {
    DecodedCapabilities {
        tools: Ok(AgentToolset::empty()),
        backend: Ok(BackendCapabilities::default()),
    }
}

fn no_usage() -> DecodedUsage {
    DecodedUsage { records: Ok(vec![]), children: vec![] }
}

#[test]
fn matching_workspace_and_registered_integration_resolve() {
    let resolver = HostRestoreResolver::new("/".to_string());
    let mut stored = metadata();
    stored.workspace_identity = Some("/".to_string());
    let report = resolver.resolve(SessionId(1), &stored, &IntegrationRegistry::<u32>::new());
    assert!(report.is_complete(), "the workspace identity matches");
}

#[test]
fn mismatched_workspace_is_typed_missing() {
    let resolver = HostRestoreResolver::new("/".to_string());
    let mut stored = metadata();
    stored.workspace_identity = Some("/some/other/workspace".to_string());
    let report = resolver.resolve(SessionId(1), &stored, &IntegrationRegistry::<u32>::new());
    assert!(!report.is_complete());
    assert_eq!(report.missing[0].kind, DependencyKind::Workspace);
}

#[test]
fn what_this_host_does_not_record_is_missing() {
    let resolver = HostRestoreResolver::new("/w".to_string());
    let mut stored = metadata();
    stored.workspace_identity = Some("/w".to_string());
    stored.integration_references =
        vec!["known".to_string(), "id::backend".to_string(), "id::other".to_string()];
    stored.credential_profiles = vec!["profile".to_string()];
    stored.tool_policy_ids = vec!["policy".to_string()];
    let registry = registry(vec![factory("known", "k", 1), factory("live", "backend", 2)]);
    let report = resolver.resolve(SessionId(1), &stored, &registry);
    let resolved: Vec<(DependencyKind, &str)> =
        report.resolved.iter().map(|d| (d.kind, d.reference.as_str())).collect();
    let missing: Vec<(DependencyKind, &str)> =
        report.missing.iter().map(|d| (d.kind, d.reference.as_str())).collect();
    assert_eq!(
        resolved,
        vec![
            (DependencyKind::Workspace, "/w"),
            (DependencyKind::Integration, "known"),
            (DependencyKind::Integration, "id::backend"),
        ]
    );
    assert_eq!(
        missing,
        vec![
            (DependencyKind::Integration, "id::other"),
            (DependencyKind::CredentialProfile, "profile"),
            (DependencyKind::ToolPolicy, "policy"),
        ]
    );
}

#[test]
fn a_recorded_reference_resolves_by_identifier_or_by_name() {
    let registry = registry(vec![factory("live", "backend", 1)]);
    assert!(resolves_integration(&registry, "live"));
    assert!(resolves_integration(&registry, "live::gone"));
    assert!(resolves_integration(&registry, "gone::backend"));
    assert!(!resolves_integration(&registry, "gone::gone"));
    assert!(!resolves_integration(&registry, "backend"));
    assert!(!resolves_integration(&registry, "gone:backend"));
    assert!(!resolves_integration(&registry, ""));
}

#[test]
fn a_registry_keeps_one_factory_per_identifier() {
    let mut first = registry(vec![factory("a", "x", 1), factory("b", "y", 2)]);
    first.register(factory("a", "z", 3));
    assert_eq!(first.get("a"), Some(&3));
    assert_eq!(first.get("c"), None);
    assert_eq!(first.id_for_descriptor_name("x"), None);
    assert_eq!(first.id_for_descriptor_name("z"), Some("a".to_string()));
    first.extend_from(registry(vec![factory("b", "y", 4), factory("c", "w", 5)]));
    assert_eq!(first.get("b"), Some(&4));
    assert_eq!(first.get("c"), Some(&5));
    assert!(first.contains("a"));
    assert!(!first.contains("d"));
}

#[test]
fn creating_a_backend_is_typed() {
    assert_eq!(creation_outcome("a", true, Ok(1)).ok(), Some(1));
    let missing = creation_outcome::<u8>("a", false, Ok(1)).expect_err("not registered");
    assert_eq!(missing.message(), "integration is not registered: a");
    let failed = creation_outcome::<u8>("a", true, Err("bad key".to_string())).expect_err("failed");
    assert_eq!(failed.message(), "failed to create integration a: bad key");
    assert_eq!(
        IntegrationError::RegistryPoisoned.message(),
        "integration registry lock was poisoned"
    );
}

#[test]
fn agents_of_one_configuration_share_a_backend() {
    let agents = vec![
        stored(&agent(1, None, "a", "x")),
        stored(&agent(2, Some(1), "a", "x")),
        stored(&agent(3, Some(1), "gone", "y")),
    ];
    let registry = registry(vec![factory("a", "x", 1), factory("b", "y", 2)]);
    let mut restore = BackendRestore::new();
    let mut made = vec![];
    loop {
        match restore.step(&agents, &registry) {
            BackendStep::Create { key, integration, config } => {
                assert_eq!(config, None);
                made.push((key, integration));
            }
            BackendStep::Done => break,
            BackendStep::Failed(error) => panic!("unexpected failure {error:?}"),
        }
    }
    assert_eq!(
        made,
        vec![
            ("a::configuration".to_string(), "a".to_string()),
            ("gone::configuration".to_string(), "b".to_string()),
        ]
    );
    assert!(restore.has("a::configuration"));
    let key = root_backend_key(SessionId(1), AgentId(1), &agents, &restore).expect("restored");
    assert_eq!(key, "a::configuration");
    assert!(matches!(
        root_backend_key(SessionId(1), AgentId(9), &agents, &restore),
        Err(SessionManagerError::NoSnapshot(SessionId(1)))
    ));
    assert!(matches!(
        root_backend_key(SessionId(1), AgentId(1), &agents, &BackendRestore::new()),
        Err(SessionManagerError::BackendCreation { .. })
    ));
}

#[test]
fn a_backend_that_nothing_makes_stops_the_restore() {
    let agents = vec![stored(&agent(1, None, "gone", "lost"))];
    let registry = registry(vec![factory("a", "x", 1)]);
    match BackendRestore::new().step(&agents, &registry) {
        BackendStep::Failed(error) => assert_eq!(
            error.message("s"),
            "failed to re-create backend for integration gone: no registered integration matches backend lost"
        ),
        _ => panic!("nothing can make this backend"),
    }
    assert!(resolve_integration(&registry, &agents[0]).is_err());
    let failed = creation_failed("i".to_string(), "m".to_string());
    assert_eq!(failed.message("s"), "failed to re-create backend for integration i: m");
}

#[test]
fn a_reference_key_names_integration_and_configuration() {
    let reference = BackendReference {
        integration: "i".to_string(),
        configuration: "c".to_string(),
        model: Some("m".to_string()),
    };
    assert_eq!(backend_reference_key(&reference), "i::c");
}

#[test]
fn each_stage_of_a_restore_has_its_error() {
    let outcome = |work: RestoreWork| match restore_outcome(SessionId(1), work) {
        Ok(_) => panic!("the stage failed"),
        Err(error) => error,
    };
    let text = || "e".to_string();
    assert!(matches!(outcome(RestoreWork::LoadFailed(text())), SessionManagerError::Store(_)));
    assert!(matches!(
        outcome(RestoreWork::ValidationFailed(text())),
        SessionManagerError::RestoreValidation(_)
    ));
    assert!(matches!(
        outcome(RestoreWork::SnapshotMissing),
        SessionManagerError::NoSnapshot(SessionId(1))
    ));
    assert!(matches!(
        outcome(RestoreWork::MigrationFailed(text())),
        SessionManagerError::SnapshotMigration(_)
    ));
    assert!(matches!(
        outcome(RestoreWork::ReplayFailed(text())),
        SessionManagerError::RestoreValidation(_)
    ));
    assert!(matches!(
        outcome(RestoreWork::Rejected(text())),
        SessionManagerError::RestoreRejected(_)
    ));
}

#[test]
fn stored_capabilities_come_back() {
    let value = capabilities_value(number(3));
    let capabilities = try_capabilities(&value, decoded()).expect("readable");
    assert!(capabilities.can_spawn_agents);
    assert_eq!(capabilities.max_child_depth, Some(3));
    assert!(capabilities.workspace.can_read);
    assert!(!capabilities.workspace.can_write);
    assert!(capabilities.workspace.can_search);
    let value = capabilities_value(Json::Null);
    assert_eq!(try_capabilities(&value, decoded()).expect("readable").max_child_depth, None);
}

#[test]
fn unreadable_capabilities_say_why_and_grant_nothing() {
    let error = |value: Json, decoded: DecodedCapabilities| {
        try_capabilities(&value, decoded).expect_err("unreadable")
    };
    assert_eq!(error(Json::Null, decoded()), "capabilities projection is not an object");
    assert_eq!(error(object(vec![]), decoded()), "missing field `tools`");
    let broken = DecodedCapabilities { tools: Err("bad".to_string()), backend: Ok(BackendCapabilities::default()) };
    assert_eq!(error(capabilities_value(Json::Null), broken), "invalid `tools` projection: bad");
    assert_eq!(
        error(object(vec![("tools", Json::Null), ("can_spawn_agents", Json::Null)]), decoded()),
        "`can_spawn_agents` is not a boolean"
    );
    assert_eq!(
        error(capabilities_value(Json::Text("x".to_string())), decoded()),
        "`max_child_depth` is not an integer"
    );
    assert_eq!(
        error(capabilities_value(Json::Number(JsonNumber::Negative(-1))), decoded()),
        "`max_child_depth` is not an integer"
    );
    let no_flags = object(vec![
        ("tools", Json::Null),
        ("can_spawn_agents", Json::Bool(true)),
        ("max_child_depth", Json::Null),
        ("workspace", object(vec![("can_read", Json::Bool(true))])),
    ]);
    assert_eq!(error(no_flags, decoded()), "`workspace.can_write` is not a boolean");
    let broken = DecodedCapabilities { tools: Ok(AgentToolset::empty()), backend: Err("bad".to_string()) };
    assert_eq!(error(capabilities_value(Json::Null), broken), "invalid `backend` projection: bad");

    let granted = capabilities_from_value(&Json::Null, decoded());
    assert!(granted.tools.tools.is_empty());
    assert!(!granted.can_spawn_agents);
    assert!(!granted.workspace.can_read);
}

fn child(id: Result<AgentId, String>, tokens: u64) -> DecodedChildUsage {
    let mut metrics = AgentUsageMetrics::default();
    metrics.total_tokens = Some(tokens);
    DecodedChildUsage {
        child: id,
        self_usage: Ok(metrics),
        descendant_usage: Ok(AgentUsageMetrics::default()),
        inclusive_usage: Ok(metrics),
    }
}

fn summary() -> Json {
    object(vec![
        ("self_usage", Json::Null),
        ("descendant_usage", Json::Null),
        ("inclusive_usage", Json::Null),
    ])
}

#[test]
fn a_stored_ledger_comes_back() {
    let value = object(vec![
        ("records", Json::List(vec![])),
        ("tool_calls", number(4)),
        ("runs", Json::Text("many".to_string())),
        ("child_usage", object(vec![("a", summary()), ("b", summary()), ("c", summary())])),
    ]);
    let decoded = DecodedUsage {
        records: Ok(vec!["{}".to_string()]),
        children: vec![child(Ok(AgentId(7)), 1), child(Ok(AgentId(8)), 2), child(Ok(AgentId(7)), 3)],
    };
    let ledger = try_usage(&value, decoded).expect("readable");
    assert_eq!(ledger.records, vec!["{}".to_string()]);
    assert_eq!(ledger.tool_calls, 4);
    assert_eq!(ledger.runs, 0, "a counter that is no integer counts nothing");
    let tokens: Vec<(u128, Option<u64>)> =
        ledger.child_usage.iter().map(|c| (c.child.0, c.usage.self_usage.total_tokens)).collect();
    assert_eq!(tokens, vec![(7, Some(3)), (8, Some(2))]);
}

#[test]
fn an_unreadable_ledger_says_why_and_starts_anew() {
    assert_eq!(
        try_usage(&Json::Bool(true), no_usage()).expect_err("unreadable"),
        "usage projection is not an object"
    );
    let broken = DecodedUsage { records: Err("bad".to_string()), children: vec![] };
    assert_eq!(
        try_usage(&object(vec![]), broken).expect_err("unreadable"),
        "invalid `records` projection: bad"
    );
    let value = object(vec![("child_usage", object(vec![("x\"", summary())]))]);
    let decoded =
        DecodedUsage { records: Ok(vec![]), children: vec![child(Err("no id".to_string()), 1)] };
    assert_eq!(
        try_usage(&value, decoded).expect_err("unreadable"),
        "invalid child_usage key \"x\\\"\": no id"
    );
    let value = object(vec![("child_usage", object(vec![("x", Json::Null)]))]);
    let decoded = DecodedUsage { records: Ok(vec![]), children: vec![child(Ok(AgentId(7)), 1)] };
    assert_eq!(
        try_usage(&value, decoded).expect_err("unreadable"),
        "child usage summary is not an object"
    );
    let value = object(vec![("child_usage", object(vec![("x", object(vec![]))]))]);
    let decoded = DecodedUsage { records: Ok(vec![]), children: vec![child(Ok(AgentId(7)), 1)] };
    assert_eq!(
        try_usage(&value, decoded).expect_err("unreadable"),
        "missing field `self_usage`"
    );
    let ledger = usage_from_value(&Json::Null, no_usage());
    assert!(ledger.records.is_empty());
    assert_eq!(ledger.tool_calls, 0);
}

fn entry(agent: &Agent) -> StoredAgent {
    StoredAgent {
        stored: stored(agent),
        capabilities: capabilities_value(Json::Null),
        decoded_capabilities: decoded(),
        usage: object(vec![("runs", number(2))]),
        decoded_usage: no_usage(),
    }
}

#[test]
fn a_restored_session_is_idle_and_complete() {
    let mut root = agent(1, None, "a", "x");
    root.state.status = AgentStatus::Streaming;
    root.state.active_run = Some(RunId(5));
    root.state.messages = vec!["hello".to_string()];
    root.state.queued_inputs =
        vec![UserInput { text: "later".to_string(), attachments: None }];
    root.state.transition_sequence = 12;
    let child = agent(2, Some(1), "a", "x");
    let runtime = SessionRuntime::<()>::from_stored(
        SessionId(1),
        vec![entry(&child), entry(&root)],
        &SchedulerConfig::default(),
        true,
    );
    assert!(!runtime.cancellation.is_cancelled());
    assert!(!runtime.bus_cancel.is_cancelled());
    assert_eq!(runtime.state.status, SessionStatus::Idle);
    assert_eq!(runtime.state.root_agent_id, AgentId(1));
    assert_eq!(runtime.state.agents.len(), 2);
    let restored = &runtime.state.agents[&1];
    assert_eq!(restored.state.status, AgentStatus::Streaming);
    assert_eq!(restored.state.active_run, Some(RunId(5)));
    assert_eq!(restored.state.messages, vec!["hello".to_string()]);
    assert_eq!(restored.state.transition_sequence, 12);
    assert!(restored.state.queued_inputs.is_empty());
    assert!(restored.capabilities.can_spawn_agents);
    assert_eq!(restored.usage.runs, 2);
    assert_eq!(runtime.state.agents[&2].parent_id, Some(AgentId(1)));
}

#[test]
fn the_later_of_two_entries_of_an_agent_counts() {
    let mut first = agent(1, None, "a", "x");
    first.state.system_prompt = "old".to_string();
    let mut second = agent(1, None, "a", "x");
    second.state.system_prompt = "new".to_string();
    let runtime = SessionRuntime::<()>::from_stored(
        SessionId(1),
        vec![entry(&first), entry(&second)],
        &SchedulerConfig::default(),
        false,
    );
    assert_eq!(runtime.state.agents[&1].state.system_prompt, "new");
}

const RESTORE_EVENTS: [RestoreEvent; 8] = [
    RestoreEvent::Assessed { accepted: true },
    RestoreEvent::Assessed { accepted: false },
    RestoreEvent::BackendMade,
    RestoreEvent::BackendFailed,
    RestoreEvent::BackendsDone { root: true },
    RestoreEvent::BackendsDone { root: false },
    RestoreEvent::PermitTaken,
    RestoreEvent::Built,
];

#[test]
fn a_restore_goes_through_its_stages_in_order() {
    let mut stage = RestoreStage::Assessing;
    let path = [
        (RestoreEvent::Assessed { accepted: true }, RestoreStage::MakingBackends),
        (RestoreEvent::BackendMade, RestoreStage::MakingBackends),
        (RestoreEvent::BackendsDone { root: true }, RestoreStage::TakingPermit),
        (RestoreEvent::PermitTaken, RestoreStage::Building),
        (RestoreEvent::Built, RestoreStage::Restored),
    ];
    for (event, expected) in path {
        stage = restore_step(stage, event);
        assert_eq!(stage, expected);
    }
    for event in RESTORE_EVENTS {
        assert_eq!(restore_step(RestoreStage::Restored, event), RestoreStage::Restored);
    }
}

#[test]
fn nothing_follows_a_refused_restore() {
    let refusals = [
        (RestoreStage::Assessing, RestoreEvent::Assessed { accepted: false }),
        (RestoreStage::MakingBackends, RestoreEvent::BackendFailed),
        (RestoreStage::MakingBackends, RestoreEvent::BackendsDone { root: false }),
    ];
    for (stage, event) in refusals {
        assert_eq!(restore_step(stage, event), RestoreStage::Refused);
    }
    for event in RESTORE_EVENTS {
        assert_eq!(restore_step(RestoreStage::Refused, event), RestoreStage::Refused);
    }
    for event in [RestoreEvent::BackendMade, RestoreEvent::PermitTaken, RestoreEvent::Built] {
        assert_eq!(restore_step(RestoreStage::Assessing, event), RestoreStage::Assessing);
    }
}

#[test]
fn only_finished_work_is_accepted() {
    for work in [
        RestoreWork::LoadFailed("x".to_string()),
        RestoreWork::ValidationFailed("x".to_string()),
        RestoreWork::SnapshotMissing,
        RestoreWork::MigrationFailed("x".to_string()),
        RestoreWork::ReplayFailed("x".to_string()),
        RestoreWork::Rejected("x".to_string()),
    ] {
        assert_eq!(assessment(&work), RestoreEvent::Assessed { accepted: false });
        assert!(restore_outcome(SessionId(1), work).is_err());
    }
}
