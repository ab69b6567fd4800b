use webcodex::shell_client::access::{AuthContext, AuthKind};
use webcodex::shell_client::audit::{
    record_shell_file_action, record_shell_job_action, record_shell_job_log_action,
    record_shell_job_status_action, record_shell_job_stop_action, record_shell_jobs_list_action,
    record_shell_run_action,
};
use webcodex::shell_client::jobs::{
    append_limited, command_preview, is_agent_job_status, is_final_job_status, offline_last_seen,
    replace_limited, select_lines, truncate_output, MAX_OUTPUT_BYTES,
};
use webcodex::shell_client::protocol::{
    ShellAgentJobUpdateRequest, ShellAgentPollRequest, ShellAgentProjectSummary,
    ShellAgentResultRequest, ShellClientCapabilities, ShellClientJobLogRequest,
    ShellClientJobStatusRequest, ShellClientJobStopRequest, ShellClientJobsListRequest,
    ShellClientRegisterRequest, ShellFileOpRequest, ShellJobOpRequest, ShellRunRequest,
    ShellRunResponse,
};
use webcodex::shell_client::registry::ShellClientRegistry;
use webcodex::shell_client::requests::{
    shell_file_op, shell_file_op_at, shell_file_op_finish, shell_file_response_from_run,
    shell_job, shell_job_at, shell_job_log,
    shell_job_log_at, shell_job_status, shell_job_status_at, shell_job_stop, shell_job_stop_at,
    shell_jobs_list, shell_jobs_list_at, shell_run, shell_run_at, shell_run_finish, FileStep,
    RunStep, WaitOutcome, STATUS_BAD_REQUEST, STATUS_FORBIDDEN, STATUS_INTERNAL_SERVER_ERROR,
    STATUS_OK, STATUS_REQUEST_TIMEOUT,
};
use webcodex::shell_client::validation::{
    normalize_project_summaries, trim_string, upsert_project, validate_agent_instance_id,
    validate_file_request, validate_id, validate_optional_field, validate_run_request,
    validate_sha256, MAX_CLIENT_FIELD_LEN, MAX_CLIENT_ID_LEN, MAX_COMMAND_LEN, MAX_CWD_LEN,
};

const NOW: i64 = 1_700_000_000;

fn user(name: &str) -> AuthContext {
    AuthContext {
        kind: AuthKind::ApiToken,
        user_id: Some(format!("user-{name}")),
        username: Some(name.to_string()),
        api_key_id: None,
        api_key_name: None,
        role: Some("user".to_string()),
        scopes: Vec::new(),
        is_bootstrap: false,
        token_kind: Some("user".to_string()),
        allowed_client_id: None,
        shared_key_hash: None,
    }
}

fn project(id: &str, path: &str) -> ShellAgentProjectSummary {
    ShellAgentProjectSummary {
        id: id.to_string(),
        name: None,
        path: path.to_string(),
        allow_patch: true,
        kind: None,
        description: None,
        hooks: Vec::new(),
        disabled: false,
        git_branch: None,
        git_head: None,
        git_dirty: None,
        updated_at: 1,
        shell_profile: None,
    }
}

fn register(registry: &mut ShellClientRegistry, client_id: &str, instance: &str, now: i64) {
    let mut capabilities = ShellClientCapabilities::default();
    capabilities.async_jobs = true;
    registry
        .register_at(
            ShellClientRegisterRequest {
                client_id: client_id.to_string(),
                agent_instance_id: instance.to_string(),
                display_name: None,
                owner: Some("alice".to_string()),
                hostname: None,
                capabilities: Some(capabilities),
                projects: None,
                agent_protocol_version: None,
                policy: None,
            },
            None,
            now,
        )
        .unwrap();
}

fn run_body(client_id: &str, command: &str) -> ShellRunRequest {
    ShellRunRequest {
        client_id: client_id.to_string(),
        cwd: Some("/work".to_string()),
        command: command.to_string(),
        stdin: None,
        timeout_secs: 30,
        wait_timeout_secs: 5,
    }
}

fn file_body(client_id: &str, op: &str) -> ShellFileOpRequest {
    ShellFileOpRequest {
        op: op.to_string(),
        client_id: client_id.to_string(),
        path: "notes.txt".to_string(),
        cwd: Some("/work".to_string()),
        content: None,
        max_bytes: None,
        old_text: None,
        pattern: None,
        expected_sha256: None,
        expected_prefix: None,
        start_line: None,
        end_line: None,
        line: None,
        create_dirs: false,
        wait_timeout_secs: 5,
    }
}

fn job_body(op: &str, client_id: Option<&str>, job_id: Option<&str>) -> ShellJobOpRequest {
    ShellJobOpRequest {
        op: op.to_string(),
        client_id: client_id.map(str::to_string),
        cwd: None,
        command: Some("make all".to_string()),
        timeout_secs: Some(60),
        job_id: job_id.map(str::to_string),
        since_stdout_line: None,
        since_stderr_line: None,
        tail_lines: None,
        limit: None,
        codex: None,
    }
}

fn poll(registry: &mut ShellClientRegistry, client_id: &str, now: i64) -> Option<String> {
    registry
        .poll_at(
            ShellAgentPollRequest {
                client_id: client_id.to_string(),
                agent_instance_id: "one".to_string(),
                projects: None,
            },
            now,
        )
        .unwrap()
        .map(|request| request.request_id)
}

fn result(client_id: &str, request_id: &str, exit_code: i32) -> ShellAgentResultRequest {
    ShellAgentResultRequest {
        client_id: client_id.to_string(),
        agent_instance_id: "one".to_string(),
        request_id: request_id.to_string(),
        exit_code: Some(exit_code),
        stdout: Some("out\n".to_string()),
        stderr: Some("err\n".to_string()),
        duration_ms: Some(3),
        error: None,
    }
}

fn update(job_id: &str, status: &str, chunk: &str, finished: bool) -> ShellAgentJobUpdateRequest {
    ShellAgentJobUpdateRequest {
        client_id: "box".to_string(),
        agent_instance_id: "one".to_string(),
        job_id: job_id.to_string(),
        request_id: None,
        status: status.to_string(),
        stdout_chunk: Some(chunk.to_string()),
        stderr_chunk: None,
        stdout_tail: None,
        stderr_tail: None,
        exit_code: if finished { Some(0) } else { None },
        duration_ms: None,
        error: None,
        finished,
    }
}

#[test]
fn a_command_goes_to_the_agent_and_back() {
    let alice = user("alice");
    let mut registry = ShellClientRegistry::new();
    register(&mut registry, "box", "one", NOW);
    let step = shell_run_at(
        &mut registry,
        Some(&alice),
        run_body("box", "make"),
        "r-1".to_string(),
        NOW,
    );
    let RunStep::Wait(ticket) = step else {
        panic!("the command was refused");
    };
    assert_eq!(ticket.request_id, "r-1");
    assert_eq!(ticket.wait_timeout_secs, 5);
    assert!(registry.is_pending("r-1"));
    assert_eq!(poll(&mut registry, "box", NOW + 1).as_deref(), Some("r-1"));
    assert_eq!(poll(&mut registry, "box", NOW + 1), None);
    let answer = registry.complete_at(result("box", "r-1", 0), NOW + 2).unwrap().unwrap();
    assert!(!registry.is_pending("r-1"));
    let (status, response) =
        shell_run_finish(&mut registry, ticket, WaitOutcome::Answered(answer));
    assert_eq!(status, STATUS_OK);
    assert!(response.success);
    assert_eq!(response.request_id, "r-1");
    assert_eq!(response.stdout.as_deref(), Some("out\n"));
    assert_eq!(response.command_preview, "make");
    let record = record_shell_run_action(&response, status);
    assert_eq!(record.action, "run");
    assert_eq!(record.http_status, 200);
    assert_eq!(record.ids.get("request_id").and_then(|v| v.as_str()), Some("r-1"));
    assert_eq!(record.summary.u64_at("duration_ms"), Some(3));
    assert!(record.summary.get("stdout").is_none());
}

#[test]
fn a_wait_that_ends_without_an_answer_is_told() {
    let alice = user("alice");
    for (outcome, expected) in [
        (WaitOutcome::Dropped, STATUS_INTERNAL_SERVER_ERROR),
        (WaitOutcome::TimedOut, STATUS_REQUEST_TIMEOUT),
    ] {
        let mut registry = ShellClientRegistry::new();
        register(&mut registry, "box", "one", NOW);
        let RunStep::Wait(ticket) = shell_run_at(
            &mut registry,
            Some(&alice),
            run_body("box", "make"),
            "r-1".to_string(),
            NOW,
        ) else {
            panic!("the command was refused");
        };
        let timed_out = matches!(outcome, WaitOutcome::TimedOut);
        let (status, response) = shell_run_finish(&mut registry, ticket, outcome);
        assert_eq!(status, expected);
        assert!(!response.success);
        assert!(response.error.is_some());
        // A caller that no longer waits takes its request with it.
        assert_eq!(registry.is_pending("r-1"), !timed_out);
    }
}

#[test]
fn commands_are_refused_before_they_are_queued() {
    let bob = user("bob");
    let mut registry = ShellClientRegistry::new();
    register(&mut registry, "box", "one", NOW);
    let RunStep::Done(status, response) =
        shell_run(&mut registry, Some(&bob), run_body("box", "make"))
    else {
        panic!("the command was queued");
    };
    assert_eq!(status, STATUS_FORBIDDEN);
    assert!(response.error.unwrap().contains("owned by alice"));
    let RunStep::Done(status, response) =
        shell_run(&mut registry, Some(&bob), run_body("nobody", "make"))
    else {
        panic!("the command was queued");
    };
    assert_eq!(status, STATUS_BAD_REQUEST);
    assert_eq!(response.error.as_deref(), Some("unknown shell client: nobody"));
    let alice = user("alice");
    let RunStep::Done(status, response) =
        shell_run(&mut registry, Some(&alice), run_body("box", "  "))
    else {
        panic!("the command was queued");
    };
    assert_eq!(status, STATUS_BAD_REQUEST);
    assert_eq!(response.error.as_deref(), Some("command cannot be empty"));
    assert_eq!(poll(&mut registry, "box", NOW), None);
}

#[test]
fn requests_are_handed_out_in_order() {
    let mut registry = ShellClientRegistry::new();
    register(&mut registry, "box", "one", NOW);
    register(&mut registry, "other", "one", NOW);
    for id in ["r-1", "r-2", "r-3"] {
        registry
            .enqueue_run_at(run_body("box", "make"), "alice".to_string(), id.to_string(), NOW)
            .unwrap();
    }
    registry
        .enqueue_run_at(run_body("other", "make"), "alice".to_string(), "o-1".to_string(), NOW)
        .unwrap();
    registry.cancel_request("r-2");
    assert_eq!(poll(&mut registry, "box", NOW).as_deref(), Some("r-1"));
    assert_eq!(poll(&mut registry, "box", NOW).as_deref(), Some("r-3"));
    assert_eq!(poll(&mut registry, "box", NOW), None);
    assert_eq!(poll(&mut registry, "other", NOW).as_deref(), Some("o-1"));
}

#[test]
fn new_requests_get_ids_of_their_own() {
    let mut registry = ShellClientRegistry::new();
    register(&mut registry, "box", "one", NOW);
    let first = registry.enqueue_run(run_body("box", "make"), "alice".to_string()).unwrap();
    let second = registry.enqueue_run(run_body("box", "make"), "alice".to_string()).unwrap();
    assert_ne!(first, second);
    assert_eq!(first.len(), 36);
    assert_eq!(uuid::Uuid::parse_str(&first).unwrap().get_version_num(), 4);
}

#[test]
fn times_come_from_the_clock() {
    let mut registry = ShellClientRegistry::new();
    let before = chrono::Utc::now().timestamp();
    registry
        .register(ShellClientRegisterRequest {
            client_id: "box".to_string(),
            agent_instance_id: "one".to_string(),
            display_name: None,
            owner: None,
            hostname: None,
            capabilities: None,
            projects: None,
            agent_protocol_version: None,
            policy: None,
        })
        .unwrap();
    let after = chrono::Utc::now().timestamp();
    let seen = registry.get_client_view("box").unwrap().last_seen;
    assert!(before <= seen && seen <= after);
}

#[test]
fn written_files_are_told_with_their_digest() {
    let alice = user("alice");
    let mut registry = ShellClientRegistry::new();
    register(&mut registry, "box", "one", NOW);
    let mut body = file_body("box", "write");
    body.content = Some("abc".to_string());
    let FileStep::Wait(ticket) =
        shell_file_op_at(&mut registry, Some(&alice), body, "f-1".to_string(), NOW)
    else {
        panic!("the file request was refused");
    };
    assert_eq!(poll(&mut registry, "box", NOW).as_deref(), Some("f-1"));
    let mut done = result("box", "f-1", 0);
    done.stdout = Some(" 3\n".to_string());
    let answer = registry.complete_at(done, NOW).unwrap().unwrap();
    let (status, response) =
        shell_file_op_finish(&mut registry, ticket, WaitOutcome::Answered(answer));
    assert_eq!(status, STATUS_OK);
    assert!(response.success);
    assert_eq!(response.bytes, Some(3));
    assert_eq!(
        response.sha256.as_deref(),
        Some("ba7816bf8f01cfea414140de5dae2223b00361a396177a9cb410ff61f20015ad")
    );
    let record = record_shell_file_action(&response, status);
    assert_eq!(record.action, "write");
    assert_eq!(record.summary.u64_at("bytes"), Some(3));
    assert!(record.summary.get("content").is_none());
}

#[test]
fn read_files_are_told_whole() {
    let response = |op: &str, stdout: &str| ShellRunResponse {
        success: true,
        request_id: "f-1".to_string(),
        client_id: "box".to_string(),
        cwd: None,
        command_preview: String::new(),
        exit_code: Some(0),
        stdout: Some(stdout.to_string()),
        stderr: None,
        duration_ms: None,
        error: if op == "broken" { Some("gone".to_string()) } else { None },
    };
    let read = shell_file_response_from_run(
        "read".to_string(),
        "notes.txt".to_string(),
        None,
        None,
        response("read", "abc"),
    );
    assert_eq!(read.content.as_deref(), Some("abc"));
    assert_eq!(read.bytes, Some(3));
    assert_eq!(
        read.sha256.as_deref(),
        Some("ba7816bf8f01cfea414140de5dae2223b00361a396177a9cb410ff61f20015ad")
    );
    let list = shell_file_response_from_run(
        "list".to_string(),
        ".".to_string(),
        None,
        None,
        response("list", "a\nb/\n"),
    );
    assert_eq!(list.entries, vec!["a".to_string(), "b/".to_string()]);
    assert_eq!(list.content, None);
    let broken = shell_file_response_from_run(
        "read".to_string(),
        "notes.txt".to_string(),
        None,
        None,
        response("broken", "abc"),
    );
    assert!(!broken.success);
    assert_eq!(broken.content, None);
    assert_eq!(broken.sha256, None);
}

#[test]
fn failed_file_requests_tell_why() {
    let alice = user("alice");
    let mut registry = ShellClientRegistry::new();
    register(&mut registry, "box", "one", NOW);
    let FileStep::Done(status, response) =
        shell_file_op(&mut registry, Some(&alice), file_body("box", "erase"))
    else {
        panic!("the file request was queued");
    };
    assert_eq!(status, STATUS_BAD_REQUEST);
    assert!(response.error.is_some());
    let FileStep::Wait(ticket) =
        shell_file_op_at(&mut registry, Some(&alice), file_body("box", "read"), "f-1".to_string(), NOW)
    else {
        panic!("the file request was refused");
    };
    assert_eq!(poll(&mut registry, "box", NOW).as_deref(), Some("f-1"));
    let answer = registry.complete_at(result("box", "f-1", 2), NOW).unwrap().unwrap();
    let (status, response) =
        shell_file_op_finish(&mut registry, ticket, WaitOutcome::Answered(answer));
    assert_eq!(status, STATUS_OK);
    assert!(!response.success);
}

#[test]
fn jobs_live_from_start_to_end() {
    let alice = user("alice");
    let mut registry = ShellClientRegistry::new();
    register(&mut registry, "box", "one", NOW);
    let (status, started) = shell_job_at(
        &mut registry,
        Some(&alice),
        job_body("start", Some("box"), None),
        "r-1".to_string(),
        "job-1".to_string(),
        NOW,
    );
    assert_eq!(status, STATUS_OK);
    assert!(started.success);
    assert_eq!(record_shell_job_action(&started, status).action, "start");
    assert_eq!(started.job.unwrap().job_id, "job-1");
    assert_eq!(poll(&mut registry, "box", NOW).as_deref(), Some("r-1"));
    registry.update_job_at(update("job-1", "running", "a\nb\n", false), NOW + 1).unwrap();
    let (status, log) = shell_job_log_at(
        &mut registry,
        Some(&alice),
        ShellClientJobLogRequest {
            job_id: "job-1".to_string(),
            client_id: None,
            since_stdout_line: None,
            since_stderr_line: None,
            tail_lines: None,
        },
        NOW + 1,
    );
    assert_eq!(status, STATUS_OK);
    assert_eq!(log.stdout_tail.as_deref(), Some("a\nb\n"));
    let record = record_shell_job_log_action(&log, status);
    assert_eq!(record.summary.bool_at("stdout_included"), Some(true));
    let next = log.next_stdout_line;
    registry.update_job_at(update("job-1", "completed", "c\n", true), NOW + 2).unwrap();
    let (_, rest) = shell_job_log_at(
        &mut registry,
        Some(&alice),
        ShellClientJobLogRequest {
            job_id: "job-1".to_string(),
            client_id: Some("box".to_string()),
            since_stdout_line: next,
            since_stderr_line: None,
            tail_lines: None,
        },
        NOW + 2,
    );
    assert_eq!(rest.stdout_tail.as_deref(), Some("c\n"));
    // What comes in after the end changes nothing.
    let late = registry.update_job_at(update("job-1", "running", "d\n", false), NOW + 3).unwrap();
    assert_eq!(late.status, "completed");
    let (status, told) = shell_job_status_at(
        &mut registry,
        Some(&alice),
        ShellClientJobStatusRequest { job_id: "job-1".to_string(), client_id: None },
        NOW + 3,
    );
    assert_eq!(status, STATUS_OK);
    assert_eq!(told.status.as_deref(), Some("completed"));
    assert_eq!(told.exit_code, Some(0));
    let record = record_shell_job_status_action(&told, status);
    assert_eq!(record.action, "shell_job_status");
    assert!(record.summary.is_text_at("status", "completed"));
    let (status, list) = shell_jobs_list_at(
        &mut registry,
        Some(&alice),
        ShellClientJobsListRequest {
            client_id: "box".to_string(),
            status: Some("completed".to_string()),
            limit: None,
        },
        NOW + 3,
    );
    assert_eq!(status, STATUS_OK);
    assert_eq!(list.jobs.len(), 1);
    assert_eq!(record_shell_jobs_list_action(&list, status).summary.u64_at("jobs_count"), Some(1));
}

#[test]
fn a_job_that_was_stopped_in_the_queue_never_starts() {
    let alice = user("alice");
    let mut registry = ShellClientRegistry::new();
    register(&mut registry, "box", "one", NOW);
    shell_job_at(
        &mut registry,
        Some(&alice),
        job_body("start", Some("box"), None),
        "r-1".to_string(),
        "job-1".to_string(),
        NOW,
    );
    let (status, stopped) = shell_job_stop_at(
        &mut registry,
        Some(&alice),
        ShellClientJobStopRequest { job_id: "job-1".to_string(), client_id: None },
        "s-1".to_string(),
        NOW,
    );
    assert_eq!(status, STATUS_OK);
    assert_eq!(stopped.status.as_deref(), Some("stopped"));
    assert_eq!(record_shell_job_stop_action(&stopped, status).action, "shell_job_stop");
    assert_eq!(poll(&mut registry, "box", NOW), None);
}

#[test]
fn job_requests_are_refused() {
    let alice = user("alice");
    let bob = user("bob");
    let mut registry = ShellClientRegistry::new();
    register(&mut registry, "box", "one", NOW);
    let (status, refused) = shell_job(&mut registry, Some(&bob), job_body("start", Some("box"), None));
    assert_eq!(status, STATUS_FORBIDDEN);
    assert!(!refused.success);
    let (status, refused) = shell_job(&mut registry, Some(&alice), job_body("dance", None, None));
    assert_eq!(status, STATUS_BAD_REQUEST);
    assert!(refused.error.is_some());
    let (status, refused) = shell_job_status(
        &mut registry,
        Some(&alice),
        ShellClientJobStatusRequest { job_id: "none".to_string(), client_id: None },
    );
    assert_ne!(status, STATUS_OK);
    assert!(!refused.success);
    let (status, _) = shell_job_log(
        &mut registry,
        Some(&alice),
        ShellClientJobLogRequest {
            job_id: "none".to_string(),
            client_id: None,
            since_stdout_line: None,
            since_stderr_line: None,
            tail_lines: None,
        },
    );
    assert_ne!(status, STATUS_OK);
    let (status, _) = shell_job_stop(
        &mut registry,
        Some(&alice),
        ShellClientJobStopRequest { job_id: "none".to_string(), client_id: None },
    );
    assert_ne!(status, STATUS_OK);
    let (status, list) = shell_jobs_list(
        &mut registry,
        Some(&bob),
        ShellClientJobsListRequest { client_id: "box".to_string(), status: None, limit: None },
    );
    assert_eq!(status, STATUS_FORBIDDEN);
    assert!(!list.success);
}

#[test]
fn outputs_are_kept_within_bounds() {
    assert_eq!(truncate_output(None), None);
    assert_eq!(truncate_output(Some("short".to_string())).as_deref(), Some("short"));
    let long = "x".repeat(MAX_OUTPUT_BYTES + 10);
    let kept = truncate_output(Some(long)).unwrap();
    assert_eq!(
        kept,
        format!(
            "[output truncated to last {MAX_OUTPUT_BYTES} bytes]\n{}",
            "x".repeat(MAX_OUTPUT_BYTES)
        )
    );
    let mut target = Some("ab".to_string());
    append_limited(&mut target, Some("cd".to_string()));
    assert_eq!(target.as_deref(), Some("abcd"));
    append_limited(&mut target, None);
    assert_eq!(target.as_deref(), Some("abcd"));
    replace_limited(&mut target, Some("new".to_string()));
    assert_eq!(target.as_deref(), Some("new"));
}

#[test]
fn lines_are_selected() {
    let log = "a\nb\nc\n".to_string();
    assert_eq!(select_lines(Some(&log), None, None), (Some("a\nb\nc\n".to_string()), 4));
    assert_eq!(select_lines(Some(&log), Some(0), None), (Some("a\nb\nc\n".to_string()), 4));
    assert_eq!(select_lines(Some(&log), Some(3), None), (Some("c\n".to_string()), 4));
    assert_eq!(select_lines(Some(&log), Some(4), None), (Some(String::new()), 4));
    assert_eq!(select_lines(Some(&log), Some(9), Some(0)), (Some(String::new()), 4));
    assert_eq!(select_lines(Some(&log), Some(3), Some(2)), (Some("b\nc\n".to_string()), 4));
    assert_eq!(select_lines(None, None, None), (Some(String::new()), 1));
    assert_eq!(select_lines(None, Some(7), Some(1)), (Some(String::new()), 7));
}

#[test]
fn a_log_that_grows_is_told_whole() {
    for (log, more) in [("a\nb\n", "c\n\nd\n"), ("", "a\n"), ("\n\n", ""), ("x\ry\n", "z\n")] {
        let (first, next) = select_lines(Some(&log.to_string()), None, None);
        let grown = format!("{log}{more}");
        let (second, last) = select_lines(Some(&grown), Some(next), None);
        assert_eq!(first.as_deref(), Some(log));
        assert_eq!(second.as_deref(), Some(more));
        assert_eq!(last, grown.lines().count() + 1);
    }
}

#[test]
fn states_of_jobs() {
    for s in ["completed", "failed", "stopped", "lost"] {
        assert!(is_final_job_status(s), "{s}");
    }
    assert!(!is_final_job_status("running"));
    assert!(is_agent_job_status("running"));
    assert!(!is_agent_job_status("dancing"));
}

#[test]
fn previews_are_short() {
    assert_eq!(command_preview("make all"), "make all");
    assert_eq!(command_preview("  first  \nsecond"), "first");
    assert_eq!(command_preview(""), "");
    assert_eq!(command_preview(&"y".repeat(120)), "y".repeat(120));
    assert_eq!(command_preview(&"y".repeat(121)), format!("{}\u{2026}", "y".repeat(120)));
}

#[test]
fn an_offline_client_is_outside_the_window() {
    assert_eq!(offline_last_seen(1000), 939);
    assert_eq!(offline_last_seen(i64::MIN), i64::MIN);
}

#[test]
fn ids_and_fields_are_checked() {
    assert!(validate_id("box-1", "client_id").is_ok());
    assert!(validate_id("", "client_id").is_err());
    assert!(validate_id("a b", "client_id").is_err());
    assert!(validate_id(&"a".repeat(MAX_CLIENT_ID_LEN), "client_id").is_ok());
    assert!(validate_id(&"a".repeat(MAX_CLIENT_ID_LEN + 1), "client_id").is_err());
    assert!(validate_agent_instance_id("one").is_ok());
    assert!(validate_agent_instance_id("").is_err());
    assert!(validate_optional_field(&None, "owner").is_ok());
    assert!(validate_optional_field(&Some("x".repeat(MAX_CLIENT_FIELD_LEN + 1)), "owner").is_err());
    assert!(validate_sha256(&Some("ab".repeat(32))).is_ok());
    assert!(validate_sha256(&Some("ab".repeat(31))).is_err());
    assert!(validate_sha256(&Some("zz".repeat(32))).is_err());
}

#[test]
fn run_requests_are_checked() {
    assert!(validate_run_request(&run_body("box", "make")).is_ok());
    assert!(validate_run_request(&run_body("box", &"x".repeat(MAX_COMMAND_LEN + 1))).is_err());
    let mut body = run_body("box", "make");
    body.cwd = Some("x".repeat(MAX_CWD_LEN + 1));
    assert!(validate_run_request(&body).is_err());
    let mut body = run_body("box", "make");
    body.timeout_secs = 0;
    assert!(validate_run_request(&body).is_err());
}

#[test]
fn file_requests_are_checked() {
    let mut body = file_body("box", "write");
    assert!(validate_file_request(&body).is_err());
    body.content = Some("x".to_string());
    assert!(validate_file_request(&body).is_ok());
    assert!(validate_file_request(&file_body("box", "erase")).is_err());
    let mut body = file_body("box", "read");
    body.path = "  ".to_string();
    assert!(validate_file_request(&body).is_err());
}

#[test]
fn projects_are_sorted_and_unique() {
    let list = normalize_project_summaries(Some(vec![
        project("b", "/b"),
        project("a", "/a"),
        project("b", "/later"),
    ]));
    let ids: Vec<&str> = list.iter().map(|p| p.id.as_str()).collect();
    assert_eq!(ids, vec!["a", "b"]);
    assert_eq!(list[1].path, "/b");
    assert!(normalize_project_summaries(None).is_empty());
    let mut list = list;
    upsert_project(&mut list, project("a", "/new"));
    upsert_project(&mut list, project("c", "/c"));
    let paths: Vec<&str> = list.iter().map(|p| p.path.as_str()).collect();
    assert_eq!(paths, vec!["/new", "/b", "/c"]);
}

#[test]
fn blank_texts_are_dropped() {
    assert_eq!(trim_string(None), None);
    assert_eq!(trim_string(Some("  ".to_string())), None);
    assert_eq!(trim_string(Some(" a ".to_string())).as_deref(), Some("a"));
}

#[test]
fn an_instance_gives_way_only_when_it_is_gone() {
    let mut registry = ShellClientRegistry::new();
    register(&mut registry, "box", "one", NOW);
    let second = |now: i64, registry: &mut ShellClientRegistry| {
        registry.register_at(
            ShellClientRegisterRequest {
                client_id: "box".to_string(),
                agent_instance_id: "two".to_string(),
                display_name: None,
                owner: None,
                hostname: None,
                capabilities: None,
                projects: None,
                agent_protocol_version: None,
                policy: None,
            },
            None,
            now,
        )
    };
    assert!(second(NOW + 60, &mut registry).is_err());
    assert!(second(NOW + 61, &mut registry).is_ok());
    assert!(registry.touch_client_at("box", "one", NOW + 62).is_err());
    registry.reconcile_disconnect_at("box", "one", NOW + 62);
    assert!(registry.client_view_at("box", NOW + 62).unwrap().connected);
    registry.reconcile_disconnect_at("box", "two", NOW + 62);
    assert!(!registry.client_view_at("box", NOW + 62).unwrap().connected);
}

#[test]
fn projects_of_a_client_are_kept() {
    let mut registry = ShellClientRegistry::new();
    register(&mut registry, "box", "one", NOW);
    registry.upsert_client_project("box", project("b", "/b")).unwrap();
    registry.upsert_client_project("box", project("a", "/a")).unwrap();
    registry.upsert_client_project("box", project("b", "/new")).unwrap();
    let paths: Vec<String> = registry
        .list_client_projects("box")
        .unwrap()
        .into_iter()
        .map(|p| p.path)
        .collect();
    assert_eq!(paths, vec!["/a", "/new"]);
    assert!(registry.upsert_client_project("none", project("a", "/a")).is_err());
}

#[test]
fn jobs_of_a_client_are_listed() {
    let mut registry = ShellClientRegistry::new();
    register(&mut registry, "box", "one", NOW);
    for id in ["job-1", "job-2"] {
        registry
            .start_job_at(
                job_body("start", Some("box"), None),
                "alice".to_string(),
                format!("r-{id}"),
                id.to_string(),
                NOW,
            )
            .unwrap();
    }
    let jobs = registry.list_jobs_for_client_at("box", Some("queued"), Some(1), NOW).unwrap();
    assert_eq!(jobs.len(), 1);
    assert_eq!(registry.list_jobs_for_client("box", None, None).unwrap().len(), 2);
    assert!(registry.list_jobs_for_client("none", None, None).is_err());
}

#[test]
fn listeners_are_told_of_new_requests() {
    let mut registry = ShellClientRegistry::new();
    register(&mut registry, "box", "one", NOW);
    assert!(!registry.notify_client_locked("box"));
    registry.register_notifier("box", "one").unwrap();
    assert!(registry.notify_client_locked("box"));
    registry.reconcile_disconnect_at("box", "one", NOW);
    assert!(!registry.notify_client_locked("box"));
}

#[test]
fn an_agent_that_says_nothing_runs_commands_only() {
    let capabilities = ShellClientCapabilities::default();
    assert!(capabilities.shell);
    assert!(!capabilities.file_read && !capabilities.file_write && !capabilities.git);
    assert!(!capabilities.jobs && !capabilities.async_jobs && !capabilities.async_shell_jobs);
}
