use webcodex::json::{empty_object, text, Json};
use webcodex::json_text::parse_json;
use webcodex::tool_runtime::agents::{told_runtime, RuntimeFacts};
use webcodex::tool_runtime::coding_task::{
    bound_line, changed_files_count_from_counts, compact_finish_output, extract_first_lines,
    extract_headings, finish_suggested_next_actions, recommended_flow_payload, rules_summary,
    startup_verdict, workspace_check, ProjectInstructionFile, ProjectInstructionsSnapshot,
};
use webcodex::tool_runtime::coding_task_results::{
    binding_done, finish_coding_task, finish_task_plan, plan_binding, start_coding_task,
    start_task_plan, task_project, task_session, BindingPlan, CurrentBinding, FinishTaskInputs,
    StartTaskInputs,
};
use webcodex::tool_runtime::handoff::{
    bound_chars, compact_workflow_verdict, handoff_checkpoint_summary,
    handoff_suggested_next_actions,
};
use webcodex::tool_runtime::handoff_summary::{
    handoff_jobs_project, handoff_plan, handoff_session, handoff_workspace_summary,
    session_handoff_summary, HandoffInputs,
};
use webcodex::tool_runtime::lookups::{finish_lookups, handoff_lookups, start_lookups};
use webcodex::tool_runtime::project_resolution::{
    Executor, ProjectConfig, ProjectResolverError, ProjectResolverErrorKind, ResolvedProject,
};
use webcodex::shell_client::access::{AuthContext, AuthKind};
use webcodex::tool_runtime::session_context::{SessionMessageError, SessionTransport};
use webcodex::tool_runtime::sessions::{
    SessionDiscussionSummary, SessionEvent, SessionMessage, SessionSummary,
};
use webcodex::tool_runtime::types::ToolResult;

fn to_value(v: &Json) -> serde_json::Value {
    match v {
        Json::Null => serde_json::Value::Null,
        Json::Bool(b) => serde_json::Value::from(*b),
        Json::UInt(n) => serde_json::Value::from(*n),
        Json::Int(n) => serde_json::Value::from(*n),
        Json::Decimal(s) => serde_json::from_str(s).unwrap(),
        Json::Text(s) => serde_json::Value::from(s.as_str()),
        Json::Array(items) => serde_json::Value::Array(items.iter().map(to_value).collect()),
        Json::Object(members) => serde_json::Value::Object(
            members
                .iter()
                .map(|m| (m.name.clone(), to_value(&m.value)))
                .collect(),
        ),
    }
}

fn parsed(s: &str) -> serde_json::Value {
    serde_json::from_str(s).unwrap()
}

fn json(s: &str) -> Json {
    parse_json(s).unwrap()
}

fn resolved() -> ResolvedProject {
    ResolvedProject {
        input: "web".to_string(),
        resolved_id: "agent:box:web".to_string(),
        config: ProjectConfig {
            path: "/home/web".to_string(),
            executor: Executor::Agent,
            client_id: Some("box".to_string()),
            allow_patch: true,
            allow_command_requests: true,
            allow_raw_command_requests: true,
            default_apply_patch_backend: None,
            allowed_checks: Vec::new(),
        },
    }
}

#[test]
fn rules_are_shown_in_part() {
    assert_eq!(bound_line(&"x".repeat(200)), "x".repeat(180));
    assert_eq!(bound_line("short"), "short");
    let content = "# One\n\n text\n## Two \nmore\n# Three\n";
    assert_eq!(extract_headings(content), vec!["# One", "## Two", "# Three"]);
    assert_eq!(
        extract_first_lines(content),
        vec!["# One", "text", "## Two", "more", "# Three"]
    );
    assert_eq!(extract_headings(&"# h\n".repeat(20)).len(), 8);
    assert_eq!(extract_first_lines(&"l\n".repeat(20)).len(), 5);
    assert_eq!(rules_summary(&None), Json::Null);
    let snapshot = ProjectInstructionsSnapshot {
        loaded: true,
        files: vec![ProjectInstructionFile {
            path: "AGENTS.md".to_string(),
            chars: 9,
            total_lines: 2,
            start_line: 1,
            limit: 100,
            truncated: false,
            read_more: Json::Null,
            content: "# One\ntext".to_string(),
        }],
        candidate_paths: vec!["AGENTS.md".to_string()],
        total_chars: 9,
        max_total_chars: 100,
        truncated: false,
        note: None,
    };
    let v = to_value(&rules_summary(&Some(snapshot)));
    assert_eq!(v["present"], parsed("true"));
    assert_eq!(v["sources"].as_array().unwrap().len(), 1);
    assert_eq!(
        v["summary"],
        parsed("\"deterministic instruction source summary; read listed sources for full content\"")
    );
}

#[test]
fn a_start_without_troubles_passes() {
    let output = json(
        "{\"runtime_status\": {\"tools\": {\"count\": 3}, \"jobs\": {\"active_count\": 0},
           \"agents\": {\"online_count\": 1}},
          \"git\": {\"clean\": true}, \"tool_manifest\": {\"tool_count\": 3}}",
    );
    let v = to_value(&startup_verdict(&output, true, false, true, true));
    assert_eq!(v["checks"][0]["status"], parsed("\"pass\""));
    assert_eq!(v["checks"][1]["status"], parsed("\"pass\""));
    assert_eq!(v["checks"][2]["status"], parsed("\"pass\""));
    assert_eq!(v["blocking"], parsed("false"));
}

#[test]
fn a_dirty_start_fails() {
    let output = json("{\"runtime_status\": {\"tools\": {\"count\": 0}}, \"git\": {\"clean\": false}}");
    let v = to_value(&startup_verdict(&output, true, false, true, false));
    assert_eq!(v["status"], parsed("\"fail\""));
    assert_eq!(v["blocking"], parsed("true"));
    assert_eq!(v["checks"][0]["reason"], parsed("\"tool_count_zero\""));
    assert_eq!(v["checks"][1]["reason"], parsed("\"workspace_dirty\""));
    let v = to_value(&startup_verdict(&empty_object(), false, false, false, false));
    assert_eq!(v["status"], parsed("\"warn\""));
    assert_eq!(
        v["suggested_next_actions"],
        parsed(
            "[\"rerun startup with include_runtime_status=true and compact_startup=true for sanity\",
              \"run show_changes before editing or finishing\",
              \"request tool_manifest if workflow discovery is needed\"]"
        )
    );
    let v = to_value(&startup_verdict(&empty_object(), true, true, false, false));
    assert_eq!(v["checks"][0]["reason"], parsed("\"runtime_status_call_failed\""));
    assert_eq!(workspace_check(&json("{\"git\": {\"available\": false}}"), true).reason, "git_unavailable");
}

#[test]
fn counts_are_added_up() {
    assert_eq!(
        changed_files_count_from_counts(&json(
            "{\"modified\": 1, \"added\": 2, \"deleted\": 3, \"renamed\": 4, \"copied\": 5,
              \"untracked\": 6, \"staged\": 100}"
        )),
        21
    );
    assert_eq!(changed_files_count_from_counts(&Json::Null), 0);
}

#[test]
fn a_finish_tells_what_is_left() {
    let output = json(
        "{\"tool_failures\": {\"unexpected_count\": 1, \"expected_count\": 4},
          \"workspace\": {\"clean\": false}, \"jobs\": {\"blocking_active_count\": 2}}",
    );
    assert_eq!(
        finish_suggested_next_actions(&output),
        vec![
            "review unexpected failed tool calls before proceeding",
            "review workspace changes with show_changes",
            "stop or await blocking active jobs"
        ]
    );
    let output = json("{\"tool_failures\": {\"expected_count\": 4}}");
    assert_eq!(
        finish_suggested_next_actions(&output),
        vec!["expected failure assertions matched"]
    );
    assert!(finish_suggested_next_actions(&Json::Null).is_empty());
    assert!(compact_finish_output(&output).is_object());
    assert!(recommended_flow_payload().is_object());
}

#[test]
fn verdicts_weigh_what_blocks() {
    let v = to_value(&compact_workflow_verdict(
        &json("{\"workspace_clean\": true, \"hygiene_clean\": true, \"validation\": {\"status\": \"passed\"}}"),
        true,
        Some(true),
    ));
    assert_eq!(
        v,
        parsed(
            "{\"status\": \"pass\", \"blocking\": false, \"blocking_reasons\": [],
              \"warning_reasons\": [],
              \"suggested_next_actions\": [\"proceed with handoff or closeout\"]}"
        )
    );
    let v = to_value(&compact_workflow_verdict(
        &json(
            "{\"workspace_clean\": false, \"jobs\": {\"blocking_active_count\": 1},
              \"validation\": {\"status\": \"mixed\"}, \"suggested_next_actions\": [\"first\", 3]}",
        ),
        false,
        None,
    ));
    assert_eq!(v["status"], parsed("\"fail\""));
    assert_eq!(
        v["blocking_reasons"],
        parsed("[\"workspace_dirty\", \"blocking_active_jobs\", \"validation_mixed\"]")
    );
    assert_eq!(v["warning_reasons"], parsed("[\"workspace_not_checked\"]"));
    assert_eq!(v["suggested_next_actions"][0], parsed("\"first\""));
    let v = to_value(&compact_workflow_verdict(&Json::Null, true, Some(false)));
    assert_eq!(v["status"], parsed("\"warn\""));
    assert_eq!(
        v["warning_reasons"],
        parsed("[\"hygiene_not_checked\", \"validation_unknown\"]")
    );
}

fn message(body: &str) -> SessionMessage {
    SessionMessage {
        message_id: "m-1".to_string(),
        created_at: 3,
        kind: "todo".to_string(),
        status: "open".to_string(),
        priority: "normal".to_string(),
        message: body.to_string(),
        tags: Vec::new(),
        resolved_at: None,
    }
}

fn failed_event(tool: &str) -> SessionEvent {
    SessionEvent {
        event_id: "e-1".to_string(),
        kind: "tool_call_finished".to_string(),
        timestamp: 5,
        transport: "api".to_string(),
        tool_name: Some(tool.to_string()),
        project: None,
        resolved_project: None,
        risk_class: None,
        read_like: false,
        write_like: false,
        shell_like: true,
        git_like: false,
        change_summary_like: false,
        started_at: None,
        finished_at: None,
        status: Some("failed".to_string()),
        exit_code: None,
        failure_kind: None,
        duration_ms: None,
        error_kind: Some("runtime_error".to_string()),
        error_message_summary: None,
        changed_paths: Vec::new(),
        job_id: None,
    }
}

fn handoff_inputs() -> HandoffInputs {
    HandoffInputs {
        summary: SessionSummary {
            session_id: "s-1".to_string(),
            project: Some("agent:box:web".to_string()),
            title: None,
            created_at: 1,
            updated_at: 2,
            mode: text("default"),
            guards: Json::Null,
            counts: empty_object(),
            events: (0..12).map(|i| failed_event(&format!("tool-{i}"))).collect(),
        },
        discussion: SessionDiscussionSummary {
            total: 30,
            todo: 30,
            risk: 0,
            question: 0,
            guidance: 0,
            open_guidance: Vec::new(),
            open_questions: Vec::new(),
            open_risks: Vec::new(),
            open_todos: (0..30).map(|_| message(&"w".repeat(500))).collect(),
            recent_progress: Vec::new(),
            recent_decisions: Vec::new(),
        },
        tool_failures: empty_object(),
        permissions: Json::Null,
        jobs: json("{\"warnings\": []}"),
        workspace: Some(ToolResult::ok(json(
            "{\"clean\": false, \"branch\": \"main\", \"counts\": {\"modified\": 2},
              \"hunks\": [\"secret diff\"], \"warnings\": []}",
        ))),
        checkpoints: Some(ToolResult::ok(json(
            "{\"checkpoints\": [
                {\"checkpoint_id\": \"c-1\", \"kind\": \"last_known_good\", \"created_at\": 1,
                 \"validation_status\": \"passed\", \"title\": \"a\", \"commands\": [\"rm\"]}]}",
        ))),
        validation: None,
    }
}

#[test]
fn handoffs_are_bounded() {
    assert_eq!(bound_chars("abc", 3), "abc");
    assert_eq!(bound_chars("abcd", 3), "abc...");
    let told = session_handoff_summary(&handoff_inputs(), Some("agent:box:web"), false);
    assert!(told.success);
    let v = to_value(&told.output);
    assert_eq!(v["open_todos"].as_array().unwrap().len(), 20);
    assert_eq!(v["open_todos"][0]["message"].as_str().unwrap().len(), 243);
    assert_eq!(v["recent_failed_tools"].as_array().unwrap().len(), 10);
    assert_eq!(v["recent_failed_tools"][0]["tool_name"], parsed("\"tool-11\""));
    assert_eq!(v["counts"]["failed_tool_calls"], parsed("10"));
    assert!(!v.to_string().contains("secret diff"));
    assert!(!v["checkpoints"].to_string().contains("rm"));
    assert_eq!(v["workspace"]["changed_files_count"], parsed("2"));
    assert_eq!(
        v["suggested_next_actions"],
        parsed("[\"address open todos\"]").as_array().map(|first| {
            let mut all = first.clone();
            all.push(parsed("\"review workspace changes with show_changes\""));
            if v["checkpoints"]["latest_last_known_good"].is_null() {
                all.push(parsed("\"consider creating a last_known_good checkpoint\""));
            }
            serde_json::Value::Array(all)
        })
        .unwrap()
    );
    let compact = session_handoff_summary(&handoff_inputs(), None, true);
    assert!(to_value(&compact.output).get("open_todos").is_none());
}

#[test]
fn handoffs_tell_of_another_project() {
    let v = to_value(&session_handoff_summary(&handoff_inputs(), Some("other"), false).output);
    assert!(v["warnings"].to_string().contains("session_project_mismatch"));
}

#[test]
fn handoffs_are_planned() {
    let plan = handoff_plan(Some("web"), None, Some(false), None, Some(1000));
    assert!(plan.workspace && !plan.checkpoints && plan.validation);
    assert_eq!(plan.limit, 100);
    let plan = handoff_plan(Some("  "), None, None, Some(false), None);
    assert!(!plan.workspace && !plan.checkpoints && !plan.validation);
    assert_eq!(plan.limit, 20);
    assert_eq!(
        handoff_jobs_project(Some(" web "), None, Some("other".to_string())).as_deref(),
        Some("web")
    );
    assert_eq!(
        handoff_jobs_project(None, None, Some("other".to_string())).as_deref(),
        Some("other")
    );
    assert_eq!(handoff_jobs_project(None, None, None), None);
}

#[test]
fn a_workspace_without_git_is_handed_over() {
    let v = to_value(&handoff_workspace_summary("web", &ToolResult::err("no git")));
    assert_eq!(v["git_available"], parsed("false"));
    assert_eq!(v["clean"], parsed("true"));
    assert_eq!(v["warnings"][0]["kind"], parsed("\"git_unavailable\""));
    let v = to_value(&handoff_checkpoint_summary(&ToolResult::err("none")));
    assert_eq!(v, parsed("{\"latest_last_known_good\": null, \"recent\": []}"));
    assert_eq!(
        handoff_suggested_next_actions(&empty_object()),
        vec!["session is ready for handoff; proceed with the next task step"]
    );
}

#[test]
fn coding_tasks_start_and_finish() {
    let plan = start_task_plan(None, Some(false), None, None, None);
    assert!(plan.runtime_status && !plan.git && plan.tool_manifest);
    let told = start_coding_task(&StartTaskInputs {
        project: "web".to_string(),
        resolved: resolved(),
        session_id: "s-1".to_string(),
        mode: text("default"),
        guards: Json::Null,
        transport: SessionTransport::Api,
        binding: CurrentBinding::NotAsked,
        runtime_status: None,
        compact_startup: false,
        show_changes: Some(ToolResult::ok(json("{\"clean\": true, \"counts\": {}}"))),
        recent_commits: None,
        permissions: Json::Null,
        rules: None,
        tool_manifest: None,
    });
    assert!(told.success);
    let v = to_value(&told.output);
    assert_eq!(v["session"]["session_id"], parsed("\"s-1\""));
    assert_eq!(v["git"]["clean"], parsed("true"));
    assert_eq!(v["startup_verdict"]["status"], parsed("\"warn\""));
    let told = finish_coding_task(
        &FinishTaskInputs {
            project: "web".to_string(),
            resolved: resolved(),
            session_id: "s-1".to_string(),
            session_project: Some("agent:box:web".to_string()),
            changes: ToolResult::ok(json("{\"clean\": true, \"counts\": {}}")),
            validation: json("{\"status\": \"passed\"}"),
            permissions: Json::Null,
            tool_failures: empty_object(),
            hygiene: None,
            jobs: empty_object(),
            handoff: None,
        },
        true,
    );
    assert!(told.success);
    let v = to_value(&told.output);
    assert_eq!(v["summary_only"], parsed("true"));
    assert_eq!(v["workspace_clean"], parsed("true"));
}

#[test]
fn the_runtime_tells_of_itself() {
    let facts = RuntimeFacts {
        projects_configured: false,
        projects_count: 3,
        config_path: None,
        load_error: None,
        build: Json::Null,
        server_time: 7,
        pid: 8,
        auth_enabled: true,
        configured_public_url: None,
        session_store: Json::Null,
        quic: None,
        local_statuses: vec!["running".to_string(), "completed".to_string()],
        local_known: 2,
    };
    let told = told_runtime(&facts, &Vec::new(), &Vec::new(), &vec!["run_shell".to_string()]);
    let v = to_value(&told.output);
    assert_eq!(
        v["projects"],
        parsed(
            "{\"configured\": false, \"count\": 0, \"config_path\": null,
              \"load_error\": \"Projects not configured\"}"
        )
    );
    assert_eq!(
        v["jobs"],
        parsed("{\"agent_known_count\": 0, \"local_known_count\": 2, \"active_count\": 1}")
    );
    assert_eq!(v["tools"], parsed("{\"count\": 1, \"names\": [\"run_shell\"]}"));
    assert_eq!(v.get("quic"), None);
}

fn unknown() -> ProjectResolverError {
    ProjectResolverError {
        kind: ProjectResolverErrorKind::UnknownProject,
        project: "none".to_string(),
        candidates: Vec::new(),
    }
}

#[test]
fn tasks_need_their_project_and_their_session() {
    assert_eq!(task_project(Ok(resolved())).unwrap().resolved_id, "agent:box:web");
    let refused = task_project(Err(unknown())).unwrap_err();
    assert_eq!(to_value(&refused.output)["error_kind"], parsed("\"unknown_project\""));
    let (project, summary) =
        task_session(Ok(resolved()), "s-1", Some(handoff_inputs().summary)).unwrap();
    assert_eq!(project.resolved_id, "agent:box:web");
    assert_eq!(summary.session_id, "s-1");
    assert!(!task_session(Ok(resolved()), "s-1", None).unwrap_err().success);
    assert!(!task_session(Err(unknown()), "s-1", None).unwrap_err().success);
    let plan = finish_task_plan(None, Some(false), Some(true), None);
    assert!(plan.diff && !plan.hygiene && plan.handoff && plan.validation);
}

#[test]
fn a_start_looks_up_changes_and_commits() {
    let all = start_lookups(&start_task_plan(None, None, None, None, None), "agent:box:web");
    let changes = all.changes.unwrap();
    assert_eq!(changes.project, "agent:box:web");
    assert_eq!(changes.session_id, None);
    assert!(!changes.include_diff);
    assert_eq!(changes.session_event_limit, None);
    assert_eq!(changes.plan().session_event_limit, 30);
    let commits = all.commits.unwrap();
    assert_eq!(commits.project.as_deref(), Some("agent:box:web"));
    assert_eq!(commits.limit, 5);
    let none = start_task_plan(None, Some(false), Some(false), None, None);
    let none = start_lookups(&none, "agent:box:web");
    assert!(none.changes.is_none() && none.commits.is_none());
}

#[test]
fn an_end_looks_up_its_session_and_its_project() {
    let all = finish_lookups(&finish_task_plan(None, None, None, None), "agent:box:web", "s", true);
    assert_eq!(all.session_events, 200);
    assert_eq!(all.failed_tools, 10);
    assert_eq!(all.changes.project, "agent:box:web");
    assert_eq!(all.changes.session_id.as_deref(), Some("s"));
    assert!(all.changes.include_diff);
    assert_eq!(all.changes.session_event_limit, Some(50));
    let plan = all.changes.plan();
    assert!(plan.include_diff);
    assert_eq!((plan.max_hunks, plan.max_hunk_lines, plan.session_event_limit), (20, 80, 50));
    let hygiene = all.hygiene.unwrap();
    assert_eq!((hygiene.project.as_str(), hygiene.session_id.as_str()), ("agent:box:web", "s"));
    assert_eq!((all.jobs.project.as_deref(), all.jobs.limit), (Some("agent:box:web"), 10));
    let handoff = all.handoff.unwrap();
    assert_eq!((handoff.project.as_str(), handoff.session_id.as_str()), ("agent:box:web", "s"));
    assert!(handoff.include_validation && handoff.summary_only);
    assert_eq!(handoff.limit, 20);
    let plan = handoff.plan();
    assert!(plan.workspace && plan.checkpoints && plan.validation);
    assert_eq!(plan.limit, 20);
    let few = finish_task_plan(Some(false), Some(false), Some(false), Some(false));
    let few = finish_lookups(&few, "agent:box:web", "s", false);
    assert!(!few.changes.include_diff && few.hygiene.is_none() && few.handoff.is_none());
}

#[test]
fn a_handoff_looks_up_what_was_planned() {
    let plan = handoff_plan(Some("web"), None, None, None, Some(7));
    let all = handoff_lookups(&plan, Some("web"), Some("agent:box:web".to_string()));
    assert_eq!((all.session_events, all.messages), (7, 7));
    assert_eq!((all.failed_tools, all.permissions), (10, 20));
    assert_eq!((all.jobs.project.as_deref(), all.jobs.limit), (Some("agent:box:web"), 10));
    let changes = all.changes.unwrap();
    assert_eq!((changes.project.as_str(), changes.session_id), ("web", None));
    assert!(!changes.include_diff);
    let checkpoints = all.checkpoints.unwrap();
    assert_eq!((checkpoints.project.as_deref(), checkpoints.limit), (Some("web"), 7));
    assert_eq!(all.validation_events, Some(200));
    let plan = handoff_plan(None, None, None, Some(false), None);
    let none = handoff_lookups(&plan, None, None);
    assert_eq!(none.session_events, 20);
    assert!(none.changes.is_none() && none.checkpoints.is_none());
    assert_eq!(none.validation_events, None);
    assert_eq!(none.jobs.project, None);
}

#[test]
fn new_sessions_become_current_where_asked() {
    let alice = AuthContext {
        kind: AuthKind::ApiToken,
        user_id: Some("user-alice".to_string()),
        username: Some("alice".to_string()),
        api_key_id: None,
        api_key_name: None,
        role: None,
        scopes: Vec::new(),
        is_bootstrap: false,
        token_kind: None,
        allowed_client_id: None,
        shared_key_hash: None,
    };
    let plan = |wanted: bool, auth: Option<&AuthContext>| {
        plan_binding(wanted, auth, SessionTransport::Mcp, "agent:box:web")
    };
    assert!(matches!(plan(false, Some(&alice)), BindingPlan::Leave));
    assert!(matches!(
        plan(true, Some(&alice)),
        BindingPlan::Bind(key) if key.transport == "mcp" && key.resolved_project == "agent:box:web"
    ));
    assert!(matches!(
        binding_done(plan(true, Some(&alice)), Some("s-1".to_string())),
        CurrentBinding::Bound(id) if id == "s-1"
    ));
    assert!(matches!(
        binding_done(plan(true, Some(&alice)), None),
        CurrentBinding::Failed
    ));
    assert!(matches!(
        binding_done(plan(false, Some(&alice)), None),
        CurrentBinding::NotAsked
    ));
    assert!(matches!(plan(true, None), BindingPlan::Bind(key) if key.principal_id == "dev"));
    let mut nobody = alice;
    nobody.user_id = None;
    nobody.username = None;
    assert!(matches!(
        binding_done(plan(true, Some(&nobody)), None),
        CurrentBinding::Unavailable(e)
            if e == "current_session_unavailable: authenticated caller has no stable principal id"
    ));
}

#[test]
fn a_board_that_cannot_be_read_is_empty() {
    let inputs = handoff_inputs();
    let (summary, board) = handoff_session(
        "s-1",
        Some(inputs.summary),
        Err(SessionMessageError::UnknownSession),
    )
    .unwrap();
    assert_eq!(summary.session_id, "s-1");
    assert_eq!(board.total, 0);
    assert!(board.open_todos.is_empty());
    let (_, board) =
        handoff_session("s-1", Some(summary), Ok(inputs.discussion)).unwrap();
    assert_eq!(board.total, 30);
    assert!(!handoff_session("s-9", None, Ok(board)).unwrap_err().success);
}
