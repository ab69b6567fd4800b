use webcodex::json::{empty_object, number, text, Json, ObjectBuilder};
use webcodex::shell_client::access::{AuthContext, AuthKind};
use webcodex::shell_client::protocol::{
    ShellAgentProjectSummary, ShellClientCapabilities, ShellClientRegisterRequest,
};
use webcodex::shell_client::registry::ShellClientRegistry;
use webcodex::tool_runtime::agents::{
    client_json, list_agents, list_projects, resolve_project_shell_profile, runtime_status,
    QuicStatus, RuntimeFacts,
};
use webcodex::tool_runtime::authorization::authorize_agent_tool;
use webcodex::tool_runtime::calls::{
    is_current_session_control_tool, is_current_session_eligible, required_agent_capability,
    tool_project, AgentCapability, ToolCall, ToolKind,
};
use webcodex::tool_runtime::coding_task_schemas;
use webcodex::tool_runtime::coding_task_schemas::SharedSchemas;
use webcodex::tool_runtime::dispatch::{
    bind_current_session, run_codex_disabled_result, DiscussionParts, SessionInfo,
};
use webcodex::tool_runtime::dispatch_flow::{DispatchAction, DispatchEvent, DispatchState};
use webcodex::tool_runtime::kernel::{
    check_oauth_runtime_tool_scope, OAuthToolScopePolicy, ToolCallErrorStatus, ToolCallOutcome,
    ToolTransport,
};
use webcodex::tool_runtime::kernel_flow::{
    KernelAction, KernelContext, KernelEvent, KernelRun, KernelState,
};
use webcodex::tool_runtime::manifest::{
    build_manifest_categories, path_hint_str, tool_manifest_category, ToolMetadata, ToolPathHint,
};
use webcodex::tool_runtime::output_schemas::output_schema_for_tool;
use webcodex::tool_runtime::project_resolution::{
    resolve_project, resolve_project_input, resolve_project_input_for_auth,
    ProjectResolverErrorKind,
};
use webcodex::tool_runtime::registry::ToolRuntime;
use webcodex::tool_runtime::schemas::{object_schema, with_optional_session_id};
use webcodex::tool_runtime::session_context::{
    add_session_telemetry_hint, current_session_key, SessionGuardDenial, SessionTransport,
};
use webcodex::tool_runtime::tool_table::{tool_rows, PATCH_FIELD_DESCRIPTION};
use webcodex::tool_runtime::git_tools::CommandOutcome;
use webcodex::tool_runtime::project_commands::{
    finish_project_command, start_in_project_at, start_project_command,
    start_project_command_at, CommandStart,
};
use webcodex::tool_runtime::session_context::SessionMessageError;
use webcodex::tool_runtime::sessions::SessionSummary;
use webcodex::tool_runtime::tool_work::{
    has_its_arguments, next_tool_step, CommandWork, HandoffParts, StepReply, ToolStep,
};
use webcodex::tool_runtime::types::ToolResult;

fn to_value(v: &Json) -> serde_json::Value {
    match v {
        Json::Null => serde_json::Value::Null,
        Json::Bool(b) => serde_json::Value::from(*b),
        Json::UInt(n) => serde_json::Value::from(*n),
        Json::Int(n) => serde_json::Value::from(*n),
        Json::Decimal(s) => serde_json::from_str(s).unwrap(),
        Json::Text(s) => serde_json::Value::from(s.as_str()),
        Json::Array(items) => serde_json::Value::Array(items.iter().map(to_value).collect()),
        Json::Object(members) => serde_json::Value::Object(
            members
                .iter()
                .map(|m| (m.name.clone(), to_value(&m.value)))
                .collect(),
        ),
    }
}

fn parsed(s: &str) -> serde_json::Value {
    serde_json::from_str(s).unwrap()
}

fn metadata(name: &str) -> ToolMetadata {
    let writes = name.starts_with("write") || name.starts_with("apply");
    ToolMetadata {
        name: name.to_string(),
        provider_id: "runtime".to_string(),
        risk: if writes { "write".to_string() } else { "read".to_string() },
        read_only: !writes,
        requires_project: true,
        path_hint: ToolPathHint::SinglePath,
        destructive: writes,
        shell_like: name == "run_shell",
        oauth_scope: Some("project:read".to_string()),
    }
}

fn runtime() -> ToolRuntime {
    let table = tool_rows().iter().map(|row| metadata(row.name)).collect();
    ToolRuntime::new(table).unwrap()
}

fn context(kind: AuthKind, name: &str) -> AuthContext {
    AuthContext {
        kind,
        user_id: Some(format!("user-{name}")),
        username: Some(name.to_string()),
        api_key_id: Some(format!("key-{name}")),
        api_key_name: None,
        role: Some("user".to_string()),
        scopes: Vec::new(),
        is_bootstrap: false,
        token_kind: Some("user".to_string()),
        allowed_client_id: None,
        shared_key_hash: None,
    }
}

fn oauth(scopes: &[&str]) -> AuthContext {
    let mut auth = context(AuthKind::OAuth2Token, "alice");
    auth.scopes = scopes.iter().map(|s| s.to_string()).collect();
    auth.token_kind = Some("oauth2".to_string());
    auth
}

fn call(kind: ToolKind, project: Option<&str>, session: Option<&str>) -> ToolCall {
    ToolCall {
        kind,
        project: project.map(str::to_string),
        session_id: session.map(str::to_string),
        arguments: empty_object(),
    }
}

fn project(id: &str, path: &str) -> ShellAgentProjectSummary {
    ShellAgentProjectSummary {
        id: id.to_string(),
        name: Some(format!("{id} name")),
        path: path.to_string(),
        allow_patch: true,
        kind: None,
        description: None,
        hooks: Vec::new(),
        disabled: false,
        git_branch: None,
        git_head: None,
        git_dirty: None,
        updated_at: 1,
        shell_profile: None,
    }
}

fn registry(clients: &[(&str, &str, &[&str])]) -> ShellClientRegistry {
    let mut registry = ShellClientRegistry::new();
    for (client_id, owner, projects) in clients {
        registry
            .register(ShellClientRegisterRequest {
                client_id: client_id.to_string(),
                agent_instance_id: "one".to_string(),
                display_name: None,
                owner: Some(owner.to_string()),
                hostname: None,
                capabilities: Some(ShellClientCapabilities::default()),
                projects: Some(
                    projects
                        .iter()
                        .map(|id| project(id, &format!("/home/{id}")))
                        .collect(),
                ),
                agent_protocol_version: None,
                policy: None,
            })
            .unwrap();
    }
    registry
}

#[test]
fn tool_specs_patch_fields_reject_codex_wrapper() {
    let runtime = runtime();
    let specs = runtime.tool_specs();
    for tool in ["apply_patch", "apply_patch_checked", "validate_patch"] {
        let spec = specs
            .iter()
            .find(|spec| spec.name == tool)
            .unwrap_or_else(|| panic!("missing tool spec: {tool}"));
        let schema = to_value(&spec.input_schema);
        let description = schema["properties"]["patch"]["description"]
            .as_str()
            .unwrap_or_else(|| panic!("missing patch description for {tool}"));
        assert!(
            description.contains("raw standard unified diff"),
            "{tool}: {description}"
        );
        assert!(
            description.contains("Codex apply_patch wrapper"),
            "{tool}: {description}"
        );
        assert!(
            description.contains("*** Begin Patch"),
            "{tool}: {description}"
        );
        assert_eq!(description, PATCH_FIELD_DESCRIPTION);
    }
}

struct Event {
    kind: &'static str,
    transport: &'static str,
    status: Option<&'static str>,
    error_kind: Option<&'static str>,
}

#[derive(Default)]
struct Ledger {
    tool_calls: usize,
    succeeded: usize,
    failed: usize,
    events: Vec<Event>,
}

impl Ledger {
    fn started(&mut self, transport: ToolTransport) {
        self.tool_calls += 1;
        self.events.push(Event {
            kind: "tool_call_started",
            transport: transport.session_transport().as_str(),
            status: None,
            error_kind: None,
        });
    }

    fn finished(
        &mut self,
        transport: ToolTransport,
        success: bool,
        error_kind: Option<&'static str>,
    ) {
        if success {
            self.succeeded += 1;
        } else {
            self.failed += 1;
        }
        self.events.push(Event {
            kind: "tool_call_finished",
            transport: transport.session_transport().as_str(),
            status: Some(if success { "succeeded" } else { "failed" }),
            error_kind,
        });
    }
}

fn call_through(
    ledger: &mut Ledger,
    context: KernelContext,
    read: Result<ToolCall, String>,
) -> ToolCallOutcome {
    let transport = context.transport;
    let (mut run, mut action): (KernelRun, KernelAction) =
        runtime().call_tool_with_context(context);
    let mut read = Some(read);
    loop {
        let event = match action {
            KernelAction::RecordStart => {
                ledger.started(transport);
                KernelEvent::StartRecorded
            }
            KernelAction::ReadArguments => KernelEvent::ArgumentsRead(read.take().unwrap()),
            KernelAction::RecordRejection(record) => {
                ledger.finished(transport, false, Some(record.error_kind));
                KernelEvent::EndRecorded
            }
            KernelAction::Dispatch(call) => {
                assert_eq!(call.kind, ToolKind::ListProjects);
                KernelEvent::Dispatched(list_projects(&ShellClientRegistry::default(), None))
            }
            KernelAction::RecordEnd => {
                let KernelState::Ending(outcome) = run.state() else {
                    panic!("nothing to record");
                };
                ledger.finished(transport, outcome.success, None);
                KernelEvent::EndRecorded
            }
            KernelAction::Respond(outcome) => return outcome,
            KernelAction::Ignore => panic!("the call lost its way"),
        };
        (run, action) = run.step(event);
    }
}

#[test]
fn tool_kernel_records_success_event() {
    let mut ledger = Ledger::default();
    let outcome = call_through(
        &mut ledger,
        KernelContext {
            transport: ToolTransport::Api,
            auth: None,
            policy: OAuthToolScopePolicy::Require("runtime:read".to_string()),
            record_oauth_scope_denials: true,
        },
        Ok(call(ToolKind::from_tool_name("list_projects").unwrap(), None, None)),
    );

    assert!(outcome.success);
    assert!(outcome.error_status.is_none());
    assert_eq!(ledger.tool_calls, 1);
    assert_eq!(ledger.succeeded, 1);
    assert_eq!(ledger.events[0].kind, "tool_call_started");
    assert_eq!(ledger.events[1].kind, "tool_call_finished");
    assert_eq!(ledger.events[1].status, Some("succeeded"));
}

#[test]
fn tool_kernel_records_failure_event() {
    let mut ledger = Ledger::default();
    let outcome = call_through(
        &mut ledger,
        KernelContext {
            transport: ToolTransport::Mcp,
            auth: None,
            policy: OAuthToolScopePolicy::Require("project:read".to_string()),
            record_oauth_scope_denials: false,
        },
        Err("missing field `path`".to_string()),
    );

    assert!(!outcome.success);
    assert!(matches!(
        outcome.error_status,
        Some(ToolCallErrorStatus::InvalidArguments { .. })
    ));
    assert_eq!(ledger.tool_calls, 1);
    assert_eq!(ledger.failed, 1);
    let finished = &ledger.events[1];
    assert_eq!(finished.transport, "mcp");
    assert_eq!(finished.error_kind, Some("invalid_arguments"));
}

#[test]
fn tool_kernel_rejects_missing_oauth_scope() {
    let auth = oauth(&["runtime:read"]);
    let mut ledger = Ledger::default();
    let outcome = call_through(
        &mut ledger,
        KernelContext {
            transport: ToolTransport::Api,
            auth: Some(&auth),
            policy: OAuthToolScopePolicy::Require("project:read".to_string()),
            record_oauth_scope_denials: true,
        },
        Ok(call(ToolKind::ReadFile, Some("demo"), None)),
    );

    assert!(!outcome.success);
    assert_eq!(
        outcome.error_status,
        Some(ToolCallErrorStatus::InsufficientScope {
            required_scope: Some("project:read".to_string()),
            description: "missing required scope: project:read".to_string(),
        })
    );
    assert_eq!(ledger.events[1].error_kind, Some("insufficient_scope"));
}

#[test]
fn tool_kernel_unknown_tool_fails_closed_or_invalid() {
    let auth = oauth(&["runtime:read", "project:read"]);
    let unknown = || match ToolKind::from_tool_name("definitely_not_a_tool") {
        Some(kind) => Ok(call(kind, None, None)),
        None => Err("unknown tool: definitely_not_a_tool".to_string()),
    };
    let mut ledger = Ledger::default();
    let outcome = call_through(
        &mut ledger,
        KernelContext {
            transport: ToolTransport::Mcp,
            auth: Some(&auth),
            policy: OAuthToolScopePolicy::Unknown,
            record_oauth_scope_denials: false,
        },
        unknown(),
    );

    assert!(!outcome.success);
    assert!(matches!(
        outcome.error_status,
        Some(ToolCallErrorStatus::InsufficientScope {
            required_scope: None,
            ..
        })
    ));
    assert!(ledger.events.is_empty());

    let outcome = call_through(
        &mut ledger,
        KernelContext {
            transport: ToolTransport::Api,
            auth: None,
            policy: OAuthToolScopePolicy::Unknown,
            record_oauth_scope_denials: true,
        },
        unknown(),
    );
    assert!(matches!(
        outcome.error_status,
        Some(ToolCallErrorStatus::InvalidArguments { .. })
    ));
}

#[test]
fn scopes_bind_oauth_tokens_only() {
    let policy = OAuthToolScopePolicy::Require("project:read".to_string());
    assert!(check_oauth_runtime_tool_scope(None, &policy).is_ok());
    let user = context(AuthKind::ApiToken, "alice");
    assert!(check_oauth_runtime_tool_scope(Some(&user), &OAuthToolScopePolicy::Unknown).is_ok());
    assert!(check_oauth_runtime_tool_scope(Some(&oauth(&["project:read"])), &policy).is_ok());
    let refused =
        check_oauth_runtime_tool_scope(Some(&oauth(&[])), &OAuthToolScopePolicy::FirstPartyOnly);
    assert_eq!(
        refused,
        Err(ToolCallErrorStatus::InsufficientScope {
            required_scope: None,
            description: "OAuth2 access tokens cannot call first-party-only tools".to_string(),
        })
    );
    assert_eq!(ToolTransport::Mcp.session_transport(), SessionTransport::Mcp);
}

#[test]
fn outcomes_name_the_project() {
    let (run, _) = runtime().call_tool_with_context(KernelContext {
        transport: ToolTransport::Api,
        auth: None,
        policy: OAuthToolScopePolicy::Unknown,
        record_oauth_scope_denials: false,
    });
    let (run, _) = run.step(KernelEvent::StartRecorded);
    let (run, _) =
        run.step(KernelEvent::ArgumentsRead(Ok(call(ToolKind::ReadFile, Some("web"), None))));
    // An event out of turn changes nothing.
    let (run, action) = run.step(KernelEvent::StartRecorded);
    assert!(matches!(action, KernelAction::Ignore));
    let (run, _) = run.step(KernelEvent::Dispatched(ToolResult::ok(empty_object())));
    let (_, action) = run.step(KernelEvent::EndRecorded);
    let KernelAction::Respond(outcome) = action else {
        panic!("no answer");
    };
    assert!(outcome.success);
    assert_eq!(outcome.project.as_deref(), Some("web"));
    assert_eq!(tool_project(&call(ToolKind::ListProjects, None, None)), None);
}

#[test]
fn tools_are_specified() {
    let runtime = runtime();
    let specs = runtime.tool_specs();
    assert_eq!(specs.len(), tool_rows().len());
    let spec = specs.iter().find(|spec| spec.name == "job_status").unwrap();
    assert_eq!(spec.description, "Get status for a runtime job.");
    assert_eq!(
        to_value(&spec.input_schema),
        parsed(
            "{\"type\": \"object\", \"properties\": {\"job_id\": {\"type\": \"string\",
              \"description\": \"Job id.\"}}, \"required\": [\"job_id\"],
              \"additionalProperties\": false}"
        )
    );
    assert_eq!(
        to_value(&spec.annotations),
        parsed(
            "{\"readOnlyHint\": true, \"destructiveHint\": false, \"idempotentHint\": true,
              \"openWorldHint\": false}"
        )
    );
    let output = to_value(&spec.output_schema);
    let fields = &output["properties"]["output"]["properties"];
    assert_eq!(
        fields["exit_code"],
        parsed(
            "{\"anyOf\": [{\"type\": \"integer\"}, {\"type\": \"null\"}],
              \"description\": \"Process exit code, when available.\"}"
        )
    );
    assert_eq!(fields["session_recorded"]["type"], parsed("\"boolean\""));
    let shell = specs.iter().find(|spec| spec.name == "run_shell").unwrap();
    assert_eq!(to_value(&shell.annotations)["openWorldHint"], parsed("true"));
    assert!(to_value(&shell.input_schema)["properties"].get("session_id").is_some());
    for spec in &specs {
        assert!(spec.description.chars().count() <= 300, "{}", spec.name);
        let schema = to_value(&spec.input_schema);
        for name in schema["required"].as_array().unwrap() {
            assert!(schema["properties"].get(name.as_str().unwrap()).is_some());
        }
    }
}

#[test]
fn the_later_of_two_fields_counts() {
    let fields = with_optional_session_id(vec![
        ("session_id", "integer", "first", true),
        ("paths", "array", "some paths", false),
    ]);
    let schema = to_value(&object_schema(fields));
    assert_eq!(schema["properties"]["session_id"]["type"], parsed("\"string\""));
    assert_eq!(schema["required"], parsed("[\"session_id\"]"));
    assert_eq!(
        schema["properties"]["paths"],
        parsed(
            "{\"type\": \"array\", \"items\": {\"type\": \"string\"},
              \"description\": \"some paths\"}"
        )
    );
}

#[test]
fn unknown_tools_have_a_bare_output_schema() {
    let schema = to_value(&output_schema_for_tool("no_such_tool"));
    let fields = schema["properties"]["output"]["properties"].as_object().unwrap();
    assert_eq!(fields.len(), 3);
    assert_eq!(schema["required"], parsed("[\"success\"]"));
    let schema = to_value(&output_schema_for_tool("start_session"));
    assert_eq!(
        schema["properties"]["output"]["properties"]["session_id"]["description"],
        parsed("\"Session id used for telemetry recording, when provided.\"")
    );
}

#[test]
fn coding_tasks_have_output_schemas() {
    let shared = SharedSchemas {
        permission_profile: text("profile"),
        permission_summary: text("summary"),
        job_lifecycle: text("jobs"),
    };
    let start =
        coding_task_schemas::output_schema_for_tool("start_coding_task", &shared).unwrap();
    let fields = &to_value(&start)["properties"]["output"]["properties"];
    assert_eq!(fields["permissions"], parsed("\"profile\""));
    let finish =
        coding_task_schemas::output_schema_for_tool("finish_coding_task", &shared).unwrap();
    let fields = &to_value(&finish)["properties"]["output"]["properties"];
    assert_eq!(fields["permissions"], parsed("\"summary\""));
    assert_eq!(fields["jobs"], parsed("\"jobs\""));
    assert_eq!(coding_task_schemas::output_schema_for_tool("run_shell", &shared), None);
}

#[test]
fn tool_names_are_sorted_and_whole() {
    let runtime = runtime();
    let names = runtime.tool_names();
    let mut expected: Vec<String> =
        runtime.tool_specs().iter().map(|spec| spec.name.clone()).collect();
    expected.sort();
    assert_eq!(names, expected);
    expected.dedup();
    assert_eq!(names.len(), expected.len());
}

#[test]
fn every_tool_stands_in_a_category() {
    let runtime = runtime();
    let groups = to_value(&runtime.tool_categories());
    for name in runtime.tool_names() {
        let found = groups
            .as_object()
            .unwrap()
            .values()
            .any(|list| list.as_array().unwrap().iter().any(|n| n.as_str() == Some(&name)));
        assert!(found, "{name}");
        assert_ne!(tool_manifest_category(&name), "other", "{name}");
    }
    assert_eq!(
        groups["patch"],
        parsed("[\"apply_patch\", \"apply_patch_checked\", \"validate_patch\"]")
    );
    assert_eq!(tool_manifest_category("no_such_tool"), "other");
}

#[test]
fn codex_is_not_offered() {
    let runtime = runtime();
    assert!(runtime.tool_specs().iter().all(|spec| spec.name != "run_codex"));
    assert!(runtime.tool_names().iter().all(|name| name != "run_codex"));
    assert!(runtime.offered_names().iter().all(|name| name != "run_codex"));
    assert!(tool_rows().iter().all(|row| row.name != "run_codex"));
    let holds = |v: &serde_json::Value| serde_json::to_string(v).unwrap().contains("\"run_codex\"");
    assert!(!holds(&to_value(&runtime.tool_categories())));
    assert!(!holds(&to_value(&runtime.tool_manifest(None, true, true).output)));
}

#[test]
fn manifest_categories_are_sorted() {
    let tool = |name: &str, category: &str| {
        ObjectBuilder::new().with("name", text(name)).with("category", text(category)).build()
    };
    let told = build_manifest_categories(&vec![
        tool("b", "git"),
        tool("c", "edit"),
        tool("a", "git"),
        tool("Z", "git"),
    ]);
    assert_eq!(to_value(&told), parsed("{\"git\": [\"Z\", \"a\", \"b\"], \"edit\": [\"c\"]}"));
    let v = to_value(&runtime().tool_manifest(None, false, false).output);
    for names in v["categories"].as_object().unwrap().values() {
        let names: Vec<&str> =
            names.as_array().unwrap().iter().map(|n| n.as_str().unwrap()).collect();
        let mut sorted = names.clone();
        sorted.sort();
        assert_eq!(names, sorted);
    }
}

#[test]
fn resolved_ids_resolve_again() {
    let registry = registry(&[("box", "alice", &["web", "lib"]), ("mac", "bob", &["lib", "a:b"])]);
    for input in ["web", "box:lib", "agent:mac:lib", "agent:mac:a:b"] {
        let once = resolve_project_input(&registry, input).unwrap();
        let again = resolve_project_input(&registry, &once.resolved_id).unwrap();
        assert_eq!(again.input, once.resolved_id);
        assert_eq!(again.resolved_id, once.resolved_id);
        assert_eq!(again.config.path, once.config.path);
        assert_eq!(again.config.client_id, once.config.client_id);
    }
}

fn facts(quic: Option<QuicStatus>) -> RuntimeFacts {
    RuntimeFacts {
        projects_configured: true,
        projects_count: 3,
        config_path: None,
        load_error: None,
        build: Json::Null,
        server_time: 7,
        pid: 8,
        auth_enabled: true,
        configured_public_url: None,
        session_store: Json::Null,
        quic,
        local_statuses: Vec::new(),
        local_known: 0,
    }
}

#[test]
fn the_runtime_tells_of_its_clients_jobs_and_tools() {
    let mut registry = registry(&[("box", "alice", &["web"]), ("mac", "bob", &["lib"])]);
    let runtime = runtime();
    let facts = facts(None);
    let alice = context(AuthKind::ApiToken, "alice");
    let v = to_value(&runtime_status(&mut registry, &runtime, &facts, Some(&alice)).output);
    assert_eq!(v["agents"]["count"], parsed("1"));
    assert_eq!(v["agents"]["online_count"], parsed("1"));
    assert_eq!(v["agents"]["clients"][0]["client_id"], parsed("\"box\""));
    assert_eq!(v["jobs"]["agent_known_count"], parsed("0"));
    assert_eq!(v["tools"]["count"], serde_json::Value::from(tool_rows().len()));
    assert_eq!(v["tools"]["names"][0].as_str(), Some(runtime.tool_specs()[0].name.as_str()));
    let v = to_value(&runtime_status(&mut registry, &runtime, &facts, None).output);
    assert_eq!(v["agents"]["count"], parsed("2"));
}

#[test]
fn hints_are_short() {
    let flows = ToolRuntime::recommended_flows();
    assert_eq!(flows.len(), 7);
    assert!(flows.iter().all(|flow| !flow.contains("run_codex")));
    assert!(flows[0].starts_with("Discovery: "));
    assert!(flows.iter().all(|flow| flow.chars().count() < 300));
}

#[test]
fn a_tool_of_which_nothing_is_known_is_missed() {
    assert!(ToolRuntime::new(vec![metadata("run_shell")]).is_none());
}

#[test]
fn manifests_are_compact() {
    let runtime = runtime();
    let told = runtime.tool_manifest(Some("patch"), true, true);
    assert!(told.success);
    let v = to_value(&told.output);
    assert_eq!(v["tool_count"], serde_json::Value::from(tool_rows().len()));
    assert_eq!(v["filtered_count"], parsed("3"));
    assert_eq!(v["risk_summary"], parsed("{\"write\": 2, \"read\": 1}"));
    assert_eq!(
        v["tools"][0],
        parsed(
            "{\"name\": \"apply_patch\", \"category\": \"patch\", \"provider\": \"runtime\",
              \"risk\": \"write\", \"read_only\": false, \"requires_project\": true,
              \"path_hint\": \"single_path\", \"destructive\": true, \"shell_like\": false,
              \"oauth_scope\": \"project:read\"}"
        )
    );
    assert!(v["categories"].as_object().unwrap().len() > 5);
    assert_eq!(v["recommended_flows"].as_array().unwrap().len(), 6);
    for flow in v["recommended_flows"].as_array().unwrap() {
        for tool in flow["tools"].as_array().unwrap() {
            assert!(ToolKind::from_tool_name(tool.as_str().unwrap()).is_some(), "{tool}");
        }
    }
    let v = to_value(&runtime.tool_manifest(None, false, false).output);
    assert_eq!(v["filtered_count"], v["tool_count"]);
    assert_eq!(v.get("risk_summary"), None);
    assert_eq!(v.get("recommended_flows"), None);
    assert_eq!(path_hint_str(ToolPathHint::Nowhere), "none");
}

#[test]
fn capabilities_are_asked_for() {
    assert_eq!(
        required_agent_capability(&call(ToolKind::RunShell, Some("p"), None)),
        Some(AgentCapability::Shell)
    );
    assert_eq!(
        required_agent_capability(&call(ToolKind::ReplaceLineRange, Some("p"), None)),
        Some(AgentCapability::FileWrite)
    );
    assert_eq!(required_agent_capability(&call(ToolKind::ListTools, None, None)), None);
}

#[test]
fn agents_belong_to_their_owners() {
    let registry = registry(&[("box", "alice", &["web"])]);
    let alice = context(AuthKind::ApiToken, "alice");
    let bob = context(AuthKind::ApiToken, "bob");
    let run = call(ToolKind::RunShell, Some("agent:box:web"), None);
    assert!(authorize_agent_tool(&registry, &run, Some(&alice)).is_ok());
    assert!(authorize_agent_tool(&registry, &run, Some(&bob)).is_err());
    assert!(authorize_agent_tool(&registry, &run, None).is_err());
    // The agent did not say that it reads or writes files.
    let edit = call(ToolKind::ReplaceLineRange, Some("agent:box:web"), None);
    assert!(authorize_agent_tool(&registry, &edit, Some(&alice)).is_err());
    assert!(authorize_agent_tool(&registry, &call(ToolKind::ListTools, None, None), None).is_ok());
}

#[test]
fn projects_are_resolved() {
    let registry = registry(&[("box", "alice", &["web", "lib"]), ("mac", "bob", &["lib"])]);
    let web = resolve_project_input(&registry, "web").unwrap();
    assert_eq!(web.resolved_id, "agent:box:web");
    assert_eq!(web.config.path, "/home/web");
    assert_eq!(web.config.client_id.as_deref(), Some("box"));
    assert_eq!(resolve_project_input(&registry, " mac:lib ").unwrap().resolved_id, "agent:mac:lib");
    assert_eq!(
        resolve_project_input(&registry, "agent:box:lib").unwrap().resolved_id,
        "agent:box:lib"
    );
    let several = resolve_project_input(&registry, "lib").unwrap_err();
    assert_eq!(several.kind, ProjectResolverErrorKind::AmbiguousProject);
    assert_eq!(several.candidates.len(), 2);
    assert!(several
        .to_message()
        .starts_with("ambiguous_project 'lib'. Use a full runtime project id"));
    let none = resolve_project_input(&registry, "agent:box:none").unwrap_err();
    assert_eq!(none.kind, ProjectResolverErrorKind::UnknownProject);
    assert_eq!(none.candidates.len(), 2);
    let told = none.into_tool_result();
    assert!(!told.success);
    assert_eq!(to_value(&told.output)["error_kind"], parsed("\"unknown_project\""));
    assert!(resolve_project(&registry, "").is_err());
    // Nobody is offered a project of somebody else.
    let alice = context(AuthKind::ApiToken, "alice");
    assert_eq!(
        resolve_project_input_for_auth(&registry, "lib", Some(&alice)).unwrap().resolved_id,
        "agent:box:lib"
    );
}

#[test]
fn agents_and_projects_are_listed() {
    let registry = registry(&[("box", "alice", &["web"]), ("mac", "bob", &["lib"])]);
    let alice = context(AuthKind::ApiToken, "alice");
    let told = list_projects(&registry, Some(&alice));
    assert!(told.success);
    let list = to_value(&told.output);
    assert_eq!(list.as_array().unwrap().len(), 1);
    assert_eq!(list[0]["id"], parsed("\"agent:box:web\""));
    assert_eq!(list[0]["shell_profile_status"], parsed("\"not_configured\""));
    let told = list_agents(&registry, None);
    assert!(told.success);
    let agents = to_value(&told.output);
    assert_eq!(agents["agents"].as_array().unwrap().len(), 2);
    assert_eq!(agents["agents"][1]["client_id"], parsed("\"mac\""));
    assert_eq!(
        resolve_project_shell_profile(Some("zsh"), &None),
        (Some("zsh".to_string()), "unknown")
    );
    assert_eq!(resolve_project_shell_profile(None, &None), (None, "not_configured"));
}

#[test]
fn current_sessions_belong_to_callers_and_transports() {
    let alice = context(AuthKind::ApiToken, "alice");
    let bob = context(AuthKind::ApiToken, "bob");
    let a = current_session_key(Some(&alice), SessionTransport::Api, "p").unwrap();
    let b = current_session_key(Some(&bob), SessionTransport::Api, "p").unwrap();
    let c = current_session_key(Some(&alice), SessionTransport::Mcp, "p").unwrap();
    assert_ne!(a.principal_id, b.principal_id);
    assert_ne!(a.transport, c.transport);
    assert!(is_current_session_control_tool(&call(ToolKind::BindCurrentSession, Some("p"), None)));
    assert!(!is_current_session_eligible(&call(ToolKind::BindCurrentSession, Some("p"), None)));
    assert!(is_current_session_eligible(&call(ToolKind::ReadFile, Some("p"), None)));
}

#[test]
fn sessions_are_bound_to_their_own_project() {
    let alice = context(AuthKind::ApiToken, "alice");
    let bind = |session: Option<Option<String>>| {
        bind_current_session(Some(&alice), SessionTransport::Api, "web", "agent:box:web", "s", session)
    };
    assert_eq!(
        bind(Some(Some("agent:box:web".to_string()))).unwrap().resolved_project,
        "agent:box:web"
    );
    let wrong = bind(Some(Some("agent:box:lib".to_string()))).unwrap_err();
    assert_eq!(wrong.error.as_deref(), Some("session_project_mismatch"));
    assert!(!bind(None).unwrap_err().success);
}

#[test]
fn a_recorded_call_takes_every_step() {
    let runtime = runtime();
    let alice = context(AuthKind::ApiToken, "alice");
    let (run, action) =
        runtime.dispatch_with_auth(call(ToolKind::ReadFile, Some("web"), None), Some(&alice));
    assert!(matches!(action, DispatchAction::ResolveProject(p) if p == "web"));
    let (run, action) =
        run.step(DispatchEvent::ProjectResolved(Some("agent:box:web".to_string())));
    assert!(matches!(
        action,
        DispatchAction::FindCurrentSession(key) if key.resolved_project == "agent:box:web"
    ));
    let (run, action) = run.step(DispatchEvent::CurrentSession(Some("s-1".to_string())));
    assert!(matches!(
        action,
        DispatchAction::InspectSession { session_id, tool }
            if session_id == "s-1" && tool == "read_file"
    ));
    // An event out of turn changes nothing.
    let (run, action) = run.step(DispatchEvent::Authorized);
    assert!(matches!(action, DispatchAction::Ignore));
    let (run, action) = run.step(DispatchEvent::SessionInspected { known: true, denial: None });
    assert!(matches!(
        action,
        DispatchAction::Authorize { session_id: Some(s), resolved: Some(r) }
            if s == "s-1" && r == "agent:box:web"
    ));
    let (run, action) = run.step(DispatchEvent::Authorized);
    assert!(matches!(
        action,
        DispatchAction::Perform(c) if c.session_id.as_deref() == Some("s-1")
    ));
    let result = ToolResult::ok(ObjectBuilder::new().with("n", number(1)).build());
    let (run, action) = run.step(DispatchEvent::Performed(result));
    assert!(matches!(action, DispatchAction::RecordEnd { session_id } if session_id == "s-1"));
    let (run, action) = run.step(DispatchEvent::Recorded {
        event_id: Some("e-1".to_string()),
        hint: None,
    });
    let DispatchAction::Respond(result) = action else {
        panic!("no answer");
    };
    assert!(result.success);
    assert_eq!(
        to_value(&result.output),
        parsed(
            "{\"n\": 1, \"session_recorded\": true, \"session_id\": \"s-1\",
              \"session_event_id\": \"e-1\"}"
        )
    );
    assert!(matches!(run.state(), DispatchState::Done));
}

#[test]
fn codex_is_never_run() {
    let runtime = runtime();
    let (_, action) = runtime.dispatch(call(ToolKind::RunCodex, None, None));
    let DispatchAction::Respond(result) = action else {
        panic!("no answer");
    };
    assert_eq!(result, run_codex_disabled_result());
    let (run, _) = runtime.dispatch(call(ToolKind::RunCodex, None, Some("s-1")));
    let (run, action) = run.step(DispatchEvent::SessionInspected { known: true, denial: None });
    assert!(matches!(
        action,
        DispatchAction::RecordRefusal { error_kind, .. } if error_kind == "tool_disabled"
    ));
    let (_, action) = run.step(DispatchEvent::Recorded { event_id: None, hint: None });
    let DispatchAction::Respond(result) = action else {
        panic!("no answer");
    };
    assert!(!result.success);
    assert_eq!(to_value(&result.output)["session_recorded"], parsed("false"));
}

#[test]
fn calls_are_refused_on_their_way() {
    let runtime = runtime();
    let (run, _) = runtime.dispatch(call(ToolKind::RunShell, None, Some("s-9")));
    let (_, action) = run.step(DispatchEvent::SessionInspected { known: false, denial: None });
    assert!(matches!(action, DispatchAction::Respond(r) if !r.success));
    let (run, _) = runtime.dispatch(call(ToolKind::RunShell, None, Some("s-1")));
    let denial = SessionGuardDenial {
        guard: "deny_shell_tools".to_string(),
        mode: "read_only".to_string(),
    };
    let (_, action) =
        run.step(DispatchEvent::SessionInspected { known: true, denial: Some(denial) });
    assert!(matches!(
        action,
        DispatchAction::RecordRefusal { error_kind, .. } if error_kind == "session_guard_denied"
    ));
    let (run, action) = runtime.dispatch(call(ToolKind::RunShell, None, None));
    assert!(matches!(action, DispatchAction::Authorize { session_id: None, resolved: None }));
    let (_, action) = run.step(DispatchEvent::Refused(ToolResult::err("not yours")));
    assert!(matches!(
        action,
        DispatchAction::Respond(r) if r.error.as_deref() == Some("not yours")
    ));
}

fn first(kind: ToolKind, project: Option<&str>, session: Option<&str>, arguments: &str) -> ToolStep {
    let mut registry = registry(&[("box", "alice", &["web"]), ("mac", "bob", &["lib"])]);
    let alice = context(AuthKind::ApiToken, "alice");
    let mut call = call(kind, project, session);
    call.arguments = webcodex::json_text::parse_json(arguments).unwrap();
    assert!(has_its_arguments(&call));
    runtime().dispatch_authorized_inner(&mut registry, call, Some(&alice), SessionTransport::Api)
}

fn next(step: ToolStep, reply: StepReply) -> ToolResult {
    let alice = context(AuthKind::ApiToken, "alice");
    match next_tool_step(step, reply, Some(&alice), SessionTransport::Api) {
        ToolStep::Answer(result) => result,
        other => panic!("no answer: {other:?}"),
    }
}

fn session() -> SessionInfo {
    SessionInfo {
        session_id: "s-1".to_string(),
        project: Some("agent:box:web".to_string()),
        title: Some("a task".to_string()),
        mode: text("default"),
        guards: Json::Null,
        created_at: 9,
    }
}

#[test]
fn some_tools_are_answered_at_once() {
    let ToolStep::Answer(told) = first(ToolKind::ListTools, None, None, "{}") else {
        panic!("no answer");
    };
    let list = to_value(&told.output);
    let tools = list["tools"].as_array().unwrap();
    let specs = runtime().tool_specs();
    assert_eq!(tools.len(), specs.len());
    for (tool, spec) in tools.iter().zip(&specs) {
        assert_eq!(tool["name"].as_str(), Some(spec.name.as_str()));
        assert_eq!(tool["description"].as_str(), Some(spec.description.as_str()));
        assert_eq!(tool["input_schema"], to_value(&spec.input_schema));
        assert_eq!(tool["output_schema"], to_value(&spec.output_schema));
        assert_eq!(tool["annotations"], to_value(&spec.annotations));
    }
    let ToolStep::Answer(told) = first(ToolKind::RunCodex, Some("web"), None, "{}") else {
        panic!("no answer");
    };
    assert_eq!(told, run_codex_disabled_result());
    let ToolStep::Answer(told) = first(ToolKind::ListProjects, None, None, "{}") else {
        panic!("no answer");
    };
    assert_eq!(to_value(&told.output)[0]["client_id"], parsed("\"box\""));
    let ToolStep::Answer(told) = first(ToolKind::ListAgents, None, None, "{}") else {
        panic!("no answer");
    };
    assert_eq!(to_value(&told.output)["agents"][0]["client_id"], parsed("\"box\""));
    let manifest = "{\"category\": \"patch\", \"include_risk_summary\": true}";
    let ToolStep::Answer(told) = first(ToolKind::ToolManifest, None, None, manifest) else {
        panic!("no answer");
    };
    assert_eq!(to_value(&told.output)["filtered_count"], parsed("3"));
    assert!(matches!(first(ToolKind::GitLog, Some("web"), None, "{}"), ToolStep::Perform(_)));
    assert!(!has_its_arguments(&call(ToolKind::BindCurrentSession, Some("web"), None)));
    assert!(!has_its_arguments(&call(ToolKind::ResolveSessionMessage, None, Some("s-1"))));
}

#[test]
fn the_runtime_status_is_a_step() {
    let step = first(ToolKind::RuntimeStatus, None, None, "{}");
    let ToolStep::TellRuntime { clients, jobs, tool_names } = &step else {
        panic!("no status");
    };
    assert_eq!(clients.len(), 1);
    assert_eq!(clients[0].client_id, "box");
    assert!(jobs.is_empty());
    assert_eq!(tool_names, &runtime().offered_names());
    let listener = QuicStatus {
        enabled: true,
        listen: "0.0.0.0:8443".to_string(),
        alpn: "webcodex-runner/1".to_string(),
        listener_started: false,
        last_error: Some("no certificate".to_string()),
    };
    let v = to_value(&next(step, StepReply::Runtime(facts(Some(listener)))).output);
    assert_eq!(v["agents"]["clients"][0]["client_id"], parsed("\"box\""));
    assert_eq!(v["tools"]["count"], serde_json::Value::from(tool_rows().len()));
    assert_eq!(
        v["quic"],
        parsed(
            "{\"enabled\": true, \"listen\": \"0.0.0.0:8443\", \"alpn\": \"webcodex-runner/1\",
              \"listener_started\": false, \"last_error\": \"no certificate\"}"
        )
    );
}

#[test]
fn paths_are_checked_before_anything_runs() {
    for (kind, script, name) in [
        (ToolKind::GitRestorePaths, "git restore -- 'a b' 'c'", "restored_paths"),
        (ToolKind::DiscardUntracked, "git clean -f -- 'a b' 'c'", "discarded_untracked_paths"),
    ] {
        let arguments = "{\"paths\": [\"a b\", \"./c\"]}";
        let check = || first(kind, Some("web"), None, arguments);
        let ToolStep::CheckPaths { project, paths, .. } = check() else {
            panic!("no check");
        };
        assert_eq!(project, "web");
        assert_eq!(paths, ["a b", "./c"]);
        let refused = next(check(), StepReply::PathsChecked(Err("too many paths".to_string())));
        assert!(!refused.success);
        assert_eq!(refused.error.as_deref(), Some("too many paths"));
        let alice = context(AuthKind::ApiToken, "alice");
        let clean = vec!["a b".to_string(), "c".to_string()];
        let run = || {
            next_tool_step(
                check(),
                StepReply::PathsChecked(Ok(clean.clone())),
                Some(&alice),
                SessionTransport::Api,
            )
        };
        let ToolStep::RunOnPaths { project, command, timeout_secs, checked, .. } = run() else {
            panic!("no command");
        };
        assert_eq!(project, "web");
        assert_eq!(command, script);
        assert_eq!(timeout_secs, 30);
        assert_eq!(checked, clean);
        let told = next(run(), StepReply::RanOnPaths(ToolResult::ok(number(5))));
        assert!(told.success);
        assert_eq!(to_value(&told.output)[name], parsed("[\"a b\", \"c\"]"));
        assert_eq!(to_value(&told.output)["command_result"], parsed("5"));
        let failed = next(run(), StepReply::RanOnPaths(ToolResult::err("timed out")));
        assert_eq!(failed, ToolResult::err("timed out"));
        let mut bare = call(kind, Some("web"), None);
        assert!(!has_its_arguments(&bare));
        bare.arguments = webcodex::json_text::parse_json("{\"paths\": [1]}").unwrap();
        assert!(!has_its_arguments(&bare));
    }
}

fn handed_over() -> SessionSummary {
    SessionSummary {
        session_id: "s-1".to_string(),
        project: Some("agent:box:web".to_string()),
        title: None,
        created_at: 1,
        updated_at: 2,
        mode: text("default"),
        guards: Json::Null,
        counts: empty_object(),
        events: Vec::new(),
    }
}

#[test]
fn handoffs_are_looked_up_and_told() {
    let alice = context(AuthKind::ApiToken, "alice");
    let find = || {
        let arguments = "{\"limit\": 7, \"include_checkpoints\": false, \"summary_only\": false}";
        first(ToolKind::SessionHandoffSummary, Some("web"), Some("s-1"), arguments)
    };
    let ToolStep::FindHandoff { session_id, project, resolved, plan, summary_only } = find() else {
        panic!("no handoff");
    };
    assert_eq!(session_id, "s-1");
    assert_eq!(project.as_deref(), Some("web"));
    assert_eq!(resolved.as_deref(), Some("agent:box:web"));
    assert_eq!(plan.limit, 7);
    assert!(plan.workspace && !plan.checkpoints && plan.validation);
    assert!(!summary_only);
    let unknown = next(
        find(),
        StepReply::HandoffFound {
            found: None,
            discussion: Err(SessionMessageError::UnknownSession),
        },
    );
    assert!(!unknown.success);
    let gather = || {
        next_tool_step(
            find(),
            StepReply::HandoffFound {
                found: Some(handed_over()),
                discussion: Err(SessionMessageError::UnknownSession),
            },
            Some(&alice),
            SessionTransport::Api,
        )
    };
    let ToolStep::GatherHandoff { discussion, lookups, .. } = gather() else {
        panic!("nothing to gather");
    };
    assert_eq!(discussion.total, 0);
    assert_eq!((lookups.session_events, lookups.messages), (7, 7));
    assert_eq!(lookups.jobs.project.as_deref(), Some("agent:box:web"));
    assert_eq!(lookups.changes.unwrap().project, "web");
    assert!(lookups.checkpoints.is_none());
    assert_eq!(lookups.validation_events, Some(200));
    let parts = |validation: Option<Json>| HandoffParts {
        tool_failures: empty_object(),
        permissions: Json::Null,
        jobs: empty_object(),
        workspace: Some(ToolResult::ok(empty_object())),
        checkpoints: None,
        validation,
    };
    let told = next(gather(), StepReply::HandoffGathered(parts(Some(number(4)))));
    let v = to_value(&told.output);
    assert_eq!(v["session_id"], parsed("\"s-1\""));
    assert_eq!(v["validation"], parsed("4"));
    assert_eq!(v["workspace"]["project"], parsed("\"web\""));
    assert_eq!(v.get("checkpoints"), None);
    // A session that is looked up without what was planned is not handed over.
    let stays = next_tool_step(
        gather(),
        StepReply::HandoffGathered(parts(None)),
        Some(&alice),
        SessionTransport::Api,
    );
    assert!(matches!(stays, ToolStep::GatherHandoff { .. }));
}

#[test]
fn sessions_are_started() {
    let step = first(ToolKind::StartSession, Some("web"), None, "{\"title\": \"a task\"}");
    let told = next(
        step,
        StepReply::SessionStarted { session: session(), instructions: Json::Null },
    );
    assert_eq!(
        to_value(&told.output),
        parsed(
            "{\"success\": true, \"session_id\": \"s-1\", \"project\": \"agent:box:web\",
              \"project_input\": \"web\", \"resolved_project\": \"agent:box:web\",
              \"title\": \"a task\", \"mode\": \"default\", \"guards\": null,
              \"created_at\": 9, \"project_instructions\": null}"
        )
    );
    let ToolStep::Answer(told) = first(ToolKind::StartSession, Some("none"), None, "{}") else {
        panic!("no answer");
    };
    assert_eq!(to_value(&told.output)["error_kind"], parsed("\"unknown_project\""));
    let ToolStep::StartSession { resolved, .. } = first(ToolKind::StartSession, None, None, "{}")
    else {
        panic!("no session is started");
    };
    assert!(resolved.is_none());
}

#[test]
fn sessions_and_messages_are_told() {
    let step = || first(ToolKind::SessionSummary, None, Some("s-1"), "{}");
    assert_eq!(next(step(), StepReply::SessionSummed(Some(number(3)))).output, number(3));
    assert!(!next(step(), StepReply::SessionSummed(None)).success);
    let posted = first(ToolKind::PostSessionMessage, None, Some("s-1"), "{}");
    let told = next(posted, StepReply::Message(Ok(("m-1".to_string(), text("hi")))));
    assert_eq!(
        to_value(&told.output),
        parsed(
            "{\"success\": true, \"session_id\": \"s-1\", \"message_id\": \"m-1\",
              \"message\": \"hi\"}"
        )
    );
    let resolve = first(
        ToolKind::ResolveSessionMessage,
        None,
        Some("s-1"),
        "{\"message_id\": \"m-9\"}",
    );
    let told = next(resolve, StepReply::Message(Err(SessionMessageError::UnknownMessage)));
    assert_eq!(told.error.as_deref(), Some("unknown_message_id: m-9"));
    let list = first(ToolKind::ListSessionMessages, None, Some("s-1"), "{}");
    let told = next(
        list,
        StepReply::Messages(Err(SessionMessageError::InvalidInput("bad".to_string()))),
    );
    assert_eq!(told.error.as_deref(), Some("bad"));
    let list = first(ToolKind::ListSessionMessages, None, Some("s-1"), "{}");
    assert!(next(list, StepReply::Messages(Ok(number(0)))).success);
    let board = first(ToolKind::SessionDiscussionSummary, None, Some("s-1"), "{}");
    let told = next(
        board,
        StepReply::Discussion(Ok(DiscussionParts {
            counts: number(1),
            open_guidance: number(2),
            open_questions: number(3),
            open_risks: number(4),
            open_todos: number(5),
            recent_progress: number(6),
            recent_decisions: number(7),
        })),
    );
    assert_eq!(told.output.u64_at("open_todos"), Some(5));
}

#[test]
fn current_sessions_are_bound_found_and_given_up() {
    let alice = context(AuthKind::ApiToken, "alice");
    let step = first(ToolKind::BindCurrentSession, Some("web"), Some("s-1"), "{}");
    let step = next_tool_step(
        step,
        StepReply::SessionProject(Some(Some("agent:box:web".to_string()))),
        Some(&alice),
        SessionTransport::Api,
    );
    assert!(matches!(&step, ToolStep::BindSession { session_id, .. } if session_id == "s-1"));
    let told = next(step, StepReply::Bound(Some(session())));
    assert_eq!(told.output.bool_at("bound"), Some(true));
    let step = first(ToolKind::BindCurrentSession, Some("web"), Some("s-1"), "{}");
    let told = next(step, StepReply::SessionProject(Some(Some("agent:box:lib".to_string()))));
    assert_eq!(told.error.as_deref(), Some("session_project_mismatch"));
    let step = first(ToolKind::CurrentSession, Some("web"), None, "{}");
    let told = next(step, StepReply::Current(None));
    assert_eq!(told.output.bool_at("found"), Some(false));
    let step = first(ToolKind::UnbindCurrentSession, Some("web"), None, "{}");
    let told = next(step, StepReply::Unbound(true));
    assert_eq!(
        to_value(&told.output),
        parsed(
            "{\"unbound\": true, \"had_binding\": true, \"project\": \"web\",
              \"resolved_project\": \"agent:box:web\"}"
        )
    );
    // A reply that does not fit changes nothing.
    let step = first(ToolKind::CurrentSession, Some("web"), None, "{}");
    let step =
        next_tool_step(step, StepReply::Unbound(true), Some(&alice), SessionTransport::Api);
    assert!(matches!(step, ToolStep::FindCurrent { .. }));
}

#[test]
fn git_tools_run_commands() {
    let ran = |stdout: &str| StepReply::Ran {
        outcome: CommandOutcome::Finished {
            exit_code: Some(0),
            stdout: Some(stdout.to_string()),
            stderr: None,
        },
        summary: None,
    };
    let ToolStep::RunCommand { project, work } = first(ToolKind::GitStatus, Some("web"), None, "{}")
    else {
        panic!("no command");
    };
    assert_eq!((project.as_str(), work.command().as_str()), ("web", "git status --porcelain"));
    let told = next(ToolStep::RunCommand { project, work }, ran(" M a"));
    assert_eq!(told.output.get("stdout").and_then(|s| s.as_str()), Some(" M a"));
    let step = first(ToolKind::GitDiff, Some("web"), None, "{\"args\": [\"a b\"]}");
    assert!(matches!(
        &step,
        ToolStep::RunCommand { work, .. } if work.command() == "git diff -- 'a b'"
    ));
    assert!(next(step, ran("")).success);
    let step = first(ToolKind::GitDiffHunks, Some("web"), None, "{\"max_hunks\": 3}");
    assert!(matches!(
        &step,
        ToolStep::RunCommand { work: CommandWork::Hunks(plan), .. } if plan.max_hunks == 3
    ));
    let told = next(step, ran(""));
    assert_eq!(told.output.u64_at("hunk_count"), Some(0));
    let refused = first(ToolKind::GitDiffHunks, Some("web"), None, "{\"paths\": [\"../x\"]}");
    assert!(matches!(refused, ToolStep::Answer(r) if !r.success));
    let step = first(ToolKind::GitDiffSummary, Some("web"), None, "{}");
    let told = next(step, ran(" M a"));
    assert_eq!(told.output.u64_at("changed_files_count"), Some(1));
    let step = first(ToolKind::ShowChanges, Some("web"), Some("s-1"), "{}");
    let told = next(step, ran("## main"));
    assert_eq!(to_value(&told.output)["session"]["found"], parsed("false"));
    let step = first(ToolKind::ShowChanges, Some("web"), None, "{}");
    let told = next(step, StepReply::Ran { outcome: CommandOutcome::TimedOut, summary: None });
    assert_eq!(told.error.as_deref(), Some("timed out"));
}

#[test]
fn commands_go_to_the_agent_of_the_project() {
    let mut registry = registry(&[("box", "alice", &["web"])]);
    let start = start_project_command(&mut registry, "web", "git diff".to_string()).unwrap();
    let CommandStart::Agent { request_id } = start else {
        panic!("not at the agent");
    };
    let request = registry
        .poll(webcodex::shell_client::protocol::ShellAgentPollRequest {
            client_id: "box".to_string(),
            agent_instance_id: "one".to_string(),
            projects: None,
        })
        .unwrap()
        .unwrap();
    assert_eq!(request.request_id, request_id);
    assert_eq!(request.command, "git diff");
    assert_eq!(request.cwd.as_deref(), Some("/home/web"));
    assert_eq!(request.timeout_secs, 30);
    assert_eq!(request.requested_by, "tool_runtime");
    let ended = finish_project_command(
        &mut registry,
        &request_id,
        webcodex::shell_client::requests::WaitOutcome::TimedOut,
    );
    assert!(matches!(ended, CommandOutcome::TimedOut));
    assert!(!registry.is_pending(&request_id));
    let refused = start_project_command_at(
        &mut registry,
        "none",
        "git diff".to_string(),
        "r-1".to_string(),
        5,
    );
    assert!(refused.unwrap_err().error.unwrap().starts_with("unknown_project 'none'."));
    let mut config = resolve_project(&registry, "web").unwrap();
    config.executor = webcodex::tool_runtime::project_resolution::Executor::Local;
    let local = start_in_project_at(
        &mut registry,
        &config,
        "git diff".to_string(),
        "r-1".to_string(),
        5,
    );
    assert!(matches!(local, Ok(CommandStart::Local { root }) if root == "/home/web"));
}

#[test]
fn tools_have_names() {
    assert_eq!(ToolKind::from_tool_name("git_log"), Some(ToolKind::GitLog));
    assert_eq!(ToolKind::from_tool_name("no_such_tool"), None);
    for row in tool_rows() {
        let kind = ToolKind::from_tool_name(row.name).unwrap();
        assert_eq!(kind.tool_name(), row.name);
    }
}

#[test]
fn a_session_that_a_tool_tells_of_stays() {
    let own = ToolResult::ok(ObjectBuilder::new().with("session_id", text("s-9")).build());
    let told = add_session_telemetry_hint(own, "s-1", Some("e-1"), Some(number(2)));
    assert_eq!(
        to_value(&told.output),
        parsed(
            "{\"session_id\": \"s-9\", \"session_recorded\": true,
              \"session_event_id\": \"e-1\", \"session_hint\": 2}"
        )
    );
    let plain = add_session_telemetry_hint(ToolResult::ok(number(4)), "s-1", None, None);
    assert_eq!(
        to_value(&plain.output),
        parsed("{\"value\": 4, \"session_id\": \"s-1\", \"session_recorded\": false}")
    );
}

#[test]
fn the_status_of_an_agent_hides_its_projects() {
    let registry = registry(&[("box", "alice", &["web", "lib"])]);
    let mut view = registry.client_view_at("box", 5).unwrap();
    let told = client_json(&view);
    assert_eq!(told.u64_at("projects_count"), Some(2));
    view.projects = vec![project("a", "/elsewhere"), project("b", "/secret")];
    assert_eq!(client_json(&view), told);
}
