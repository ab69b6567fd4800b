use webcodex::shell_client::access::{
    assert_shell_client_owner, requested_by_from_auth, AuthContext, AuthKind,
    ShellClientAuthGroup,
};
use webcodex::shell_client::jobs::CLIENT_ONLINE_WINDOW_SECS;
use webcodex::shell_client::model::{
    MAX_QUEUED_REQUESTS_PER_CLIENT, TRANSPORT_QUIC, TRANSPORT_WEBSOCKET,
};
use webcodex::shell_client::protocol::{
    ShellAgentJobUpdateRequest, ShellAgentPollRequest, ShellAgentProjectSummary,
    ShellAgentResultRequest, ShellClientCapabilities, ShellClientRegisterRequest, ShellClientView,
    ShellFileOpRequest, ShellJobCodexMetadata, ShellJobOpRequest, ShellRunRequest,
};
use webcodex::shell_client::registry::ShellClientRegistry;
use webcodex::shell_client::requests::{assert_registry_client_owner, STATUS_FORBIDDEN};
use webcodex::shell_client::transport::{
    effective_register_owner, enforce_agent_transport, enforce_register_owner,
    require_agent_transport_scope,
};
use webcodex::shell_client::validation::{
    validate_file_request, validate_run_request, MAX_COMMAND_LEN, MAX_RUN_STDIN_BYTES,
};

const QUIC_V1: &str = "quic-v1";

fn now_ts() -> i64 {
    chrono::Utc::now().timestamp()
}

fn auth_context(username: Option<&str>, is_bootstrap: bool) -> AuthContext {
    let (role, scopes) = if is_bootstrap {
        ("admin".to_string(), vec!["admin".to_string()])
    } else {
        ("user".to_string(), Vec::new())
    };
    AuthContext {
        kind: if is_bootstrap {
            AuthKind::Bootstrap
        } else {
            AuthKind::ApiToken
        },
        user_id: username.map(|username| format!("user-{}", username)),
        username: username.map(str::to_string),
        api_key_id: username.map(|username| format!("key-{}", username)),
        api_key_name: username.map(|username| format!("{} key", username)),
        role: Some(role),
        scopes,
        is_bootstrap,
        token_kind: if is_bootstrap {
            None
        } else {
            Some("user".to_string())
        },
        allowed_client_id: None,
        shared_key_hash: None,
    }
}

/// An agent-token AuthContext bound to
/// `username` and `allowed_client_id`, carrying the given agent scopes.
fn agent_auth_context(
    username: &str,
    allowed_client_id: &str,
    scopes: Vec<&str>,
) -> AuthContext {
    AuthContext {
        kind: AuthKind::AgentToken,
        user_id: Some(format!("user-{}", username)),
        username: Some(username.to_string()),
        api_key_id: Some("key-agent".to_string()),
        api_key_name: Some("agent key".to_string()),
        role: Some("user".to_string()),
        scopes: scopes.into_iter().map(str::to_string).collect(),
        is_bootstrap: false,
        token_kind: Some("agent".to_string()),
        allowed_client_id: Some(allowed_client_id.to_string()),
        shared_key_hash: None,
    }
}

fn shared_key_auth_context(hash: &str) -> AuthContext {
    AuthContext {
        kind: AuthKind::SharedKey,
        user_id: None,
        username: None,
        api_key_id: None,
        api_key_name: None,
        role: Some("shared-key".to_string()),
        scopes: vec![
            "agent:register".to_string(),
            "agent:poll".to_string(),
            "agent:result".to_string(),
            "agent:job_update".to_string(),
        ],
        is_bootstrap: false,
        token_kind: Some("shared-key".to_string()),
        allowed_client_id: None,
        shared_key_hash: Some(hash.to_string()),
    }
}

fn open_auth_context() -> AuthContext {
    AuthContext {
        kind: AuthKind::OpenAnonymous,
        user_id: None,
        username: None,
        api_key_id: None,
        api_key_name: None,
        role: Some("open".to_string()),
        scopes: vec![
            "agent:register".to_string(),
            "agent:poll".to_string(),
            "agent:result".to_string(),
            "agent:job_update".to_string(),
        ],
        is_bootstrap: false,
        token_kind: Some("open".to_string()),
        allowed_client_id: None,
        shared_key_hash: None,
    }
}

fn oauth_bridge_auth_context(hash: &str, scopes: Vec<&str>) -> AuthContext {
    AuthContext {
        kind: AuthKind::OAuth2Token,
        user_id: None,
        username: None,
        api_key_id: Some("oauth-access-token".to_string()),
        api_key_name: None,
        role: Some("shared-key".to_string()),
        scopes: scopes.into_iter().map(str::to_string).collect(),
        is_bootstrap: false,
        token_kind: Some("oauth2_shared_key".to_string()),
        allowed_client_id: Some("oauth-client".to_string()),
        shared_key_hash: Some(hash.to_string()),
    }
}

fn managed_oauth_auth_context(
    username: &str,
    shared_key_hash: Option<&str>,
) -> AuthContext {
    AuthContext {
        kind: AuthKind::OAuth2Token,
        user_id: Some(format!("user-{}", username)),
        username: Some(username.to_string()),
        api_key_id: Some("oauth-access-token".to_string()),
        api_key_name: None,
        role: Some("user".to_string()),
        scopes: Vec::new(),
        is_bootstrap: false,
        token_kind: Some("oauth2".to_string()),
        allowed_client_id: Some("oauth-client".to_string()),
        shared_key_hash: shared_key_hash.map(str::to_string),
    }
}

fn project_summary(id: &str, path: &str) -> ShellAgentProjectSummary {
    ShellAgentProjectSummary {
        id: id.to_string(),
        name: Some(id.to_string()),
        path: path.to_string(),
        allow_patch: true,
        kind: Some("rust".to_string()),
        description: Some("test project".to_string()),
        hooks: vec!["doctor".to_string(), "precommit".to_string()],
        disabled: false,
        git_branch: Some("codex".to_string()),
        git_head: Some("9a7d3ce".to_string()),
        git_dirty: Some(false),
        updated_at: 123456,
        shell_profile: None,
    }
}

fn async_job_capabilities() -> ShellClientCapabilities {
    let mut capabilities = ShellClientCapabilities::default();
    capabilities.async_jobs = true;
    capabilities.async_shell_jobs = true;
    capabilities.jobs = true;
    capabilities
}

fn file_request(op: &str) -> ShellFileOpRequest {
    ShellFileOpRequest {
        op: op.to_string(),
        client_id: "oe".to_string(),
        path: "src/auth/scopes.rs".to_string(),
        cwd: Some("/root/git/webcodex".to_string()),
        content: None,
        max_bytes: None,
        old_text: None,
        pattern: None,
        expected_sha256: None,
        expected_prefix: None,
        start_line: None,
        end_line: None,
        line: None,
        create_dirs: false,
        wait_timeout_secs: 0,
    }
}

#[test]
fn validate_file_request_allows_read_with_start_and_end_line() {
    let mut req = file_request("read");
    req.start_line = Some(10);
    req.end_line = Some(20);

    validate_file_request(&req).unwrap();
}

#[test]
fn validate_file_request_rejects_read_with_only_start_line() {
    let mut req = file_request("read");
    req.start_line = Some(10);

    let err = validate_file_request(&req).unwrap_err();
    assert_eq!(
        err,
        "end_line is required when start_line is set for op=read"
    );
}

#[test]
fn validate_file_request_rejects_read_with_only_end_line() {
    let mut req = file_request("read");
    req.end_line = Some(20);

    let err = validate_file_request(&req).unwrap_err();
    assert_eq!(
        err,
        "start_line is required when end_line is set for op=read"
    );
}

#[test]
fn validate_file_request_rejects_read_with_invalid_range() {
    let mut req = file_request("read");
    req.start_line = Some(20);
    req.end_line = Some(10);

    let err = validate_file_request(&req).unwrap_err();
    assert_eq!(err, "invalid line range");

    req.start_line = Some(0);
    req.end_line = Some(10);
    let err = validate_file_request(&req).unwrap_err();
    assert_eq!(err, "invalid line range");
}

#[test]
fn registry_filters_lightweight_clients_by_auth_group() {
    let mut registry = ShellClientRegistry::default();
    let shared_a = shared_key_auth_context("hash-a");
    let shared_b = shared_key_auth_context("hash-b");
    let bridge_a = oauth_bridge_auth_context("hash-a", vec![]);
    let managed_oauth = managed_oauth_auth_context("alice", Some("hash-a"));
    let open = open_auth_context();
    let bootstrap = auth_context(None, true);

    for (client_id, auth) in [
        ("shared-a", &shared_a),
        ("shared-b", &shared_b),
        ("open", &open),
    ] {
        registry
            .register_with_auth(
                ShellClientRegisterRequest {
                    client_id: client_id.to_string(),
                    agent_instance_id: format!("inst-{}", client_id),
                    display_name: None,
                    owner: None,
                    hostname: None,
                    capabilities: Some(async_job_capabilities()),
                    projects: Some(vec![project_summary(client_id, "/tmp/project")]),
                    agent_protocol_version: None,
                    policy: None,
                },
                Some(auth),
            )
            .unwrap();
    }
    registry
        .register(ShellClientRegisterRequest {
            client_id: "managed".to_string(),
            agent_instance_id: "inst-managed".to_string(),
            display_name: None,
            owner: Some("alice".to_string()),
            hostname: None,
            capabilities: Some(async_job_capabilities()),
            projects: Some(vec![project_summary("managed", "/tmp/managed")]),
            agent_protocol_version: None,
            policy: None,
        })
        .unwrap();

    let visible_to_a: Vec<String> = registry
        .list_clients_for_auth(Some(&shared_a))
        .into_iter()
        .map(|c| c.client_id)
        .collect();
    assert_eq!(visible_to_a, vec!["shared-a"]);
    let visible_to_bridge_a: Vec<String> = registry
        .list_clients_for_auth(Some(&bridge_a))
        .into_iter()
        .map(|c| c.client_id)
        .collect();
    assert_eq!(visible_to_bridge_a, vec!["shared-a"]);
    assert!(registry
        .assert_client_access(Some(&shared_a), "shared-a")
        .is_ok());
    assert!(registry
        .assert_client_access(Some(&bridge_a), "shared-a")
        .is_ok());
    assert!(registry
        .assert_client_access(Some(&shared_a), "shared-b")
        .unwrap_err()
        .contains("unknown shell client"));
    assert!(registry
        .assert_client_access(Some(&shared_a), "open")
        .unwrap_err()
        .contains("unknown shell client"));
    assert!(registry
        .assert_client_access(Some(&bridge_a), "shared-b")
        .unwrap_err()
        .contains("unknown shell client"));
    assert!(registry
        .assert_client_access(Some(&bridge_a), "open")
        .unwrap_err()
        .contains("unknown shell client"));

    let visible_to_open: Vec<String> = registry
        .list_clients_for_auth(Some(&open))
        .into_iter()
        .map(|c| c.client_id)
        .collect();
    assert_eq!(visible_to_open, vec!["open"]);
    assert_eq!(
        ShellClientAuthGroup::from_auth(&open),
        Some(ShellClientAuthGroup::OpenAnonymous)
    );
    assert_eq!(
        ShellClientAuthGroup::from_auth(&bridge_a),
        Some(ShellClientAuthGroup::SharedKey("hash-a".to_string()))
    );
    assert!(bridge_a.is_oauth_shared_key_subject());
    assert_eq!(ShellClientAuthGroup::from_auth(&managed_oauth), None);
    assert!(!managed_oauth.is_oauth_shared_key_subject());
    let visible_to_managed_oauth: Vec<String> = registry
        .list_clients_for_auth(Some(&managed_oauth))
        .into_iter()
        .map(|c| c.client_id)
        .collect();
    assert_eq!(visible_to_managed_oauth, vec!["managed"]);
    assert!(registry
        .assert_client_access(Some(&managed_oauth), "managed")
        .is_ok());
    assert!(registry
        .assert_client_access(Some(&managed_oauth), "shared-a")
        .unwrap_err()
        .contains("unknown shell client"));

    let visible_to_bootstrap: Vec<String> = registry
        .list_clients_for_auth(Some(&bootstrap))
        .into_iter()
        .map(|c| c.client_id)
        .collect();
    assert_eq!(
        visible_to_bootstrap,
        vec!["managed", "open", "shared-a", "shared-b"]
    );
}

#[test]
fn validate_file_request_rejects_read_with_line_field() {
    let mut req = file_request("read");
    req.line = Some(10);

    let err = validate_file_request(&req).unwrap_err();
    assert_eq!(err, "line is only allowed for op=insert_at_line");
}

#[test]
fn validate_file_request_rejects_read_with_expected_prefix() {
    let mut req = file_request("read");
    req.expected_prefix = Some("pub fn".to_string());

    let err = validate_file_request(&req).unwrap_err();
    assert_eq!(err, "expected_prefix is only allowed for line edit ops");
}

#[test]
fn requested_by_from_auth_uses_bootstrap_username_or_anonymous() {
    let bootstrap = auth_context(None, true);
    assert_eq!(requested_by_from_auth(Some(&bootstrap)), "bootstrap");

    let alice = auth_context(Some("alice"), false);
    assert_eq!(requested_by_from_auth(Some(&alice)), "alice");

    assert_eq!(requested_by_from_auth(None), "anonymous");
}

#[test]
fn assert_shell_client_owner_enforces_owner_boundary() {
    let bootstrap = auth_context(None, true);
    assert!(assert_shell_client_owner(Some(&bootstrap), "client-1", None).is_ok());

    let alice = auth_context(Some("alice"), false);
    assert!(assert_shell_client_owner(Some(&alice), "client-1", Some("alice")).is_ok());

    let mismatch =
        assert_shell_client_owner(Some(&alice), "client-1", Some("bob")).unwrap_err();
    assert!(mismatch.contains("owned by bob"));
    assert!(mismatch.contains("belongs to alice"));

    let missing = assert_shell_client_owner(Some(&alice), "client-1", None).unwrap_err();
    assert_eq!(missing, "agent client client-1 has no owner");

    let anonymous = assert_shell_client_owner(None, "client-1", Some("anonymous")).unwrap_err();
    assert!(anonymous.contains("belongs to anonymous"));
}

#[test]
fn registry_registers_and_lists_client() {
    let mut registry = ShellClientRegistry::default();
    registry
        .register(ShellClientRegisterRequest {
            client_id: "xrh".to_string(),
            agent_instance_id: "inst".to_string(),
            display_name: Some("XRH".to_string()),
            owner: Some("yyjeqhc".to_string()),
            hostname: Some("fineserver".to_string()),
            capabilities: None,
            projects: None,
            agent_protocol_version: None,
            policy: None,
        })
        .unwrap();
    let clients = registry.list_clients();
    assert_eq!(clients.len(), 1);
    assert_eq!(clients[0].client_id, "xrh");
    assert!(clients[0].connected);
    assert_eq!(clients[0].pending_requests, 0);
}

#[test]
fn registry_register_saves_projects() {
    let mut registry = ShellClientRegistry::default();
    registry
        .register(ShellClientRegisterRequest {
            client_id: "oe".to_string(),
            agent_instance_id: "inst".to_string(),
            display_name: None,
            owner: Some("alice".to_string()),
            hostname: None,
            capabilities: None,
            projects: Some(vec![project_summary("webcodex", "/root/git/webcodex")]),
            agent_protocol_version: None,
            policy: None,
        })
        .unwrap();
    let clients = registry.list_clients();
    assert_eq!(clients[0].projects.len(), 1);
    assert_eq!(clients[0].projects[0].id, "webcodex");

    let projects = registry.list_client_projects("oe").unwrap();
    assert_eq!(projects.len(), 1);
    assert_eq!(projects[0].path, "/root/git/webcodex");
}

#[test]
fn registry_poll_updates_projects() {
    let mut registry = ShellClientRegistry::default();
    registry
        .register(ShellClientRegisterRequest {
            client_id: "oe".to_string(),
            agent_instance_id: "inst".to_string(),
            display_name: None,
            owner: Some("alice".to_string()),
            hostname: None,
            capabilities: None,
            projects: Some(vec![project_summary("one", "/tmp/one")]),
            agent_protocol_version: None,
            policy: None,
        })
        .unwrap();
    let polled = registry
        .poll(ShellAgentPollRequest {
            client_id: "oe".to_string(),
            agent_instance_id: "inst".to_string(),
            projects: Some(vec![
                project_summary("one", "/tmp/one"),
                project_summary("two", "/tmp/two"),
            ]),
        })
        .unwrap();
    assert!(polled.is_none());

    let projects = registry.list_client_projects("oe").unwrap();
    assert_eq!(projects.len(), 2);
    assert_eq!(projects[0].id, "one");
    assert_eq!(projects[1].id, "two");
}

#[test]
fn registry_project_owner_check_enforces_boundary() {
    let mut registry = ShellClientRegistry::default();
    registry
        .register(ShellClientRegisterRequest {
            client_id: "alice-client".to_string(),
            agent_instance_id: "inst".to_string(),
            display_name: None,
            owner: Some("alice".to_string()),
            hostname: None,
            capabilities: None,
            projects: Some(vec![project_summary("webcodex", "/root/git/webcodex")]),
            agent_protocol_version: None,
            policy: None,
        })
        .unwrap();
    registry
        .register(ShellClientRegisterRequest {
            client_id: "bob-client".to_string(),
            agent_instance_id: "inst".to_string(),
            display_name: None,
            owner: Some("bob".to_string()),
            hostname: None,
            capabilities: None,
            projects: Some(vec![project_summary("secret", "/tmp/secret")]),
            agent_protocol_version: None,
            policy: None,
        })
        .unwrap();

    let alice = auth_context(Some("alice"), false);
    assert!(
        assert_registry_client_owner(&registry, Some(&alice), "alice-client")
            .is_ok()
    );
    let projects = registry.list_client_projects("alice-client").unwrap();
    assert_eq!(projects.len(), 1);

    let mismatch = assert_registry_client_owner(&registry, Some(&alice), "bob-client")
        .unwrap_err();
    assert_eq!(mismatch.0, STATUS_FORBIDDEN);
    assert!(mismatch.1.contains("owned by bob"));
}

#[test]
fn register_without_protocol_version_defaults_to_unknown() {
    let mut registry = ShellClientRegistry::default();
    registry
        .register(ShellClientRegisterRequest {
            client_id: "oe".to_string(),
            agent_instance_id: "inst".to_string(),
            display_name: None,
            owner: None,
            hostname: None,
            capabilities: None,
            projects: None,
            agent_protocol_version: None,
            policy: None,
        })
        .unwrap();
    let clients = registry.list_clients();
    assert_eq!(clients[0].agent_protocol_version, "unknown");
}

#[test]
fn register_with_protocol_version_is_exposed_in_view() {
    let mut registry = ShellClientRegistry::default();
    registry
        .register(ShellClientRegisterRequest {
            client_id: "xrh".to_string(),
            agent_instance_id: "inst".to_string(),
            display_name: None,
            owner: Some("alice".to_string()),
            hostname: None,
            capabilities: None,
            projects: None,
            agent_protocol_version: Some("polling-v1".to_string()),
            policy: None,
        })
        .unwrap();
    let clients = registry.list_clients();
    assert_eq!(clients.len(), 1);
    assert_eq!(clients[0].client_id, "xrh");
    assert_eq!(clients[0].agent_protocol_version, "polling-v1");
    let view = registry.get_client_view("xrh").unwrap();
    assert_eq!(view.agent_protocol_version, "polling-v1");
}

#[test]
fn register_blank_protocol_version_falls_back_to_unknown() {
    let mut registry = ShellClientRegistry::default();
    registry
        .register(ShellClientRegisterRequest {
            client_id: "oe".to_string(),
            agent_instance_id: "inst".to_string(),
            display_name: None,
            owner: None,
            hostname: None,
            capabilities: None,
            projects: None,
            agent_protocol_version: Some("   ".to_string()),
            policy: None,
        })
        .unwrap();
    let clients = registry.list_clients();
    assert_eq!(clients[0].agent_protocol_version, "unknown");
}

#[test]
fn client_supports_reflects_registered_capabilities() {
    let mut registry = ShellClientRegistry::default();
    let mut caps = ShellClientCapabilities::default();
    caps.shell = true;
    caps.file_read = true;
    caps.async_shell_jobs = true;
    registry
        .register(ShellClientRegisterRequest {
            client_id: "oe".to_string(),
            agent_instance_id: "inst".to_string(),
            display_name: None,
            owner: None,
            hostname: None,
            capabilities: Some(caps),
            projects: None,
            agent_protocol_version: None,
            policy: None,
        })
        .unwrap();
    assert!(registry.client_supports("oe", "shell").unwrap());
    assert!(registry.client_supports("oe", "file_read").unwrap());
    assert!(registry
        .client_supports("oe", "async_shell_jobs")
        .unwrap());
    assert!(!registry.client_supports("oe", "git").unwrap());
    // Unknown capability name is false, not an error.
    assert!(!registry.client_supports("oe", "teleport").unwrap());
    // Unknown client is a structured error.
    let err = registry
        .client_supports("ghost", "shell")
        .unwrap_err();
    assert!(err.contains("unknown shell client"));
    let err = registry.get_client_capabilities("ghost").unwrap_err();
    assert!(err.contains("unknown shell client"));
}

#[test]
fn registry_enqueues_polls_and_completes_shell_request() {
    let mut registry = ShellClientRegistry::default();
    registry
        .register(ShellClientRegisterRequest {
            client_id: "xrh".to_string(),
            agent_instance_id: "inst".to_string(),
            display_name: None,
            owner: None,
            hostname: None,
            capabilities: None,
            projects: None,
            agent_protocol_version: None,
            policy: None,
        })
        .unwrap();
    let request_id = registry
        .enqueue_run(
            ShellRunRequest {
                client_id: "xrh".to_string(),
                cwd: Some("/tmp".to_string()),
                command: "echo hello".to_string(),
                stdin: Some("hello stdin".to_string()),
                timeout_secs: 10,
                wait_timeout_secs: 1,
            },
            "test".to_string(),
        )
        .unwrap();
    let polled = registry
        .poll(ShellAgentPollRequest {
            client_id: "xrh".to_string(),
            agent_instance_id: "inst".to_string(),
            projects: None,
        })
        .unwrap()
        .unwrap();
    assert_eq!(polled.request_id, request_id);
    assert_eq!(polled.command, "echo hello");
    assert_eq!(polled.stdin.as_deref(), Some("hello stdin"));
    let answered = registry
        .complete(ShellAgentResultRequest {
            client_id: "xrh".to_string(),
            agent_instance_id: "inst".to_string(),
            request_id,
            exit_code: Some(0),
            stdout: Some("hello\n".to_string()),
            stderr: Some(String::new()),
            duration_ms: Some(12),
            error: None,
        })
        .unwrap();
    let response = answered.unwrap();
    assert!(response.success);
    assert_eq!(response.stdout.as_deref(), Some("hello\n"));
}

#[test]
fn registry_rejects_unknown_client_run() {
    let mut registry = ShellClientRegistry::default();
    let err = registry
        .enqueue_run(
            ShellRunRequest {
                client_id: "missing".to_string(),
                cwd: None,
                command: "pwd".to_string(),
                stdin: None,
                timeout_secs: 10,
                wait_timeout_secs: 1,
            },
            "test".to_string(),
        )
        .unwrap_err();
    assert!(err.contains("unknown shell client"));
}

fn register_quic_v1_client(registry: &mut ShellClientRegistry, client_id: &str) {
    registry
        .register(ShellClientRegisterRequest {
            client_id: client_id.to_string(),
            agent_instance_id: "inst".to_string(),
            display_name: None,
            owner: Some("alice".to_string()),
            hostname: None,
            capabilities: Some(async_job_capabilities()),
            projects: Some(vec![project_summary("webcodex", "/tmp/webcodex")]),
            agent_protocol_version: Some(QUIC_V1.to_string()),
            policy: None,
        })
        .unwrap();
    registry
        .set_transport(client_id, TRANSPORT_QUIC)
        .unwrap();
}

#[test]
fn registry_allows_quic_v1_run_queueing() {
    let mut registry = ShellClientRegistry::default();
    register_quic_v1_client(&mut registry, "quic-run");

    let _request_id = registry
        .enqueue_run(
            ShellRunRequest {
                client_id: "quic-run".to_string(),
                cwd: None,
                command: "echo hi".to_string(),
                stdin: None,
                timeout_secs: 5,
                wait_timeout_secs: 0,
            },
            "tester".to_string(),
        )
        .unwrap();
    let view = registry.get_client_view("quic-run").unwrap();
    assert_eq!(view.transport, TRANSPORT_QUIC);
    assert_eq!(view.agent_protocol_version, QUIC_V1);
    assert_eq!(view.pending_requests, 1);
    assert!(view.capabilities.shell);
    assert!(view.capabilities.async_shell_jobs);
}

#[test]
fn enqueue_file_op_allows_read_with_line_range() {
    let mut registry = ShellClientRegistry::default();
    register_quic_v1_client(&mut registry, "oe");

    let mut req = file_request("read");
    req.start_line = Some(7);
    req.end_line = Some(12);
    let request_id = registry
        .enqueue_file_op(req, "tester".to_string())
        .unwrap();

    let polled = registry
        .poll(ShellAgentPollRequest {
            client_id: "oe".to_string(),
            agent_instance_id: "inst".to_string(),
            projects: None,
        })
        .unwrap()
        .unwrap();
    assert_eq!(polled.request_id, request_id);
    assert_eq!(polled.kind, "file_read");
    assert_eq!(polled.path.as_deref(), Some("src/auth/scopes.rs"));
    assert_eq!(polled.start_line, Some(7));
    assert_eq!(polled.end_line, Some(12));
    assert_eq!(polled.line, None);
}

#[test]
fn registry_allows_quic_v1_file_and_project_ops_queueing() {
    let mut registry = ShellClientRegistry::default();
    register_quic_v1_client(&mut registry, "quic-ops");

    let _file_request_id = registry
        .enqueue_file_op(
            ShellFileOpRequest {
                op: "read".to_string(),
                client_id: "quic-ops".to_string(),
                path: "README.md".to_string(),
                cwd: None,
                content: None,
                max_bytes: None,
                old_text: None,
                pattern: None,
                expected_sha256: None,
                expected_prefix: None,
                start_line: None,
                end_line: None,
                line: None,
                create_dirs: false,
                wait_timeout_secs: 0,
            },
            "tester".to_string(),
        )
        .unwrap();

    let _project_request_id = registry
        .enqueue_project_op(
            "quic-ops".to_string(),
            "register_project",
            "{}".to_string(),
            "tester".to_string(),
        )
        .unwrap();

    let view = registry.get_client_view("quic-ops").unwrap();
    assert_eq!(view.pending_requests, 2);
}

#[test]
fn registry_allows_quic_v1_start_job_queueing() {
    let mut registry = ShellClientRegistry::default();
    register_quic_v1_client(&mut registry, "quic-job");

    let job = registry
        .start_job(
            ShellJobOpRequest {
                op: "start".to_string(),
                client_id: Some("quic-job".to_string()),
                cwd: None,
                command: Some("sleep 1".to_string()),
                timeout_secs: Some(5),
                job_id: None,
                since_stdout_line: None,
                since_stderr_line: None,
                tail_lines: None,
                limit: None,
                codex: None,
            },
            "tester".to_string(),
        )
        .unwrap();

    let view = registry.get_client_view("quic-job").unwrap();
    assert_eq!(view.pending_requests, 1);
    assert_eq!(job.status, "queued");
    assert_eq!(registry.list_jobs(Some(10)).len(), 1);
}

#[test]
fn registry_allows_quic_v1_stop_job_delivery_queueing() {
    let mut registry = ShellClientRegistry::default();
    registry
        .register(ShellClientRegisterRequest {
            client_id: "quic-stop".to_string(),
            agent_instance_id: "inst".to_string(),
            display_name: None,
            owner: Some("alice".to_string()),
            hostname: None,
            capabilities: Some(async_job_capabilities()),
            projects: None,
            agent_protocol_version: Some(QUIC_V1.to_string()),
            policy: None,
        })
        .unwrap();
    let job = registry
        .start_job(
            ShellJobOpRequest {
                op: "start".to_string(),
                client_id: Some("quic-stop".to_string()),
                cwd: None,
                command: Some("sleep 10".to_string()),
                timeout_secs: Some(10),
                job_id: None,
                since_stdout_line: None,
                since_stderr_line: None,
                tail_lines: None,
                limit: None,
                codex: None,
            },
            "tester".to_string(),
        )
        .unwrap();
    let _ = registry
        .poll(ShellAgentPollRequest {
            client_id: "quic-stop".to_string(),
            agent_instance_id: "inst".to_string(),
            projects: None,
        })
        .unwrap()
        .unwrap();
    registry
        .set_transport("quic-stop", TRANSPORT_QUIC)
        .unwrap();

    let stopped = registry
        .stop_job(&job.job_id, "tester".to_string())
        .unwrap();
    let view = registry.get_client_view("quic-stop").unwrap();
    assert_eq!(view.pending_requests, 1);
    assert_eq!(stopped.status, "stop_requested");
}

#[test]
fn validate_run_request_allows_bounded_stdin_beyond_command_limit() {
    let body = ShellRunRequest {
        client_id: "client-1".to_string(),
        cwd: None,
        command: "cat >/dev/null".to_string(),
        stdin: Some("x".repeat(MAX_COMMAND_LEN + 1024)),
        timeout_secs: 10,
        wait_timeout_secs: 1,
    };
    validate_run_request(&body).expect("stdin has its own larger bound");
}

#[test]
fn validate_run_request_rejects_oversized_stdin() {
    let body = ShellRunRequest {
        client_id: "client-1".to_string(),
        cwd: None,
        command: "cat >/dev/null".to_string(),
        stdin: Some("x".repeat(MAX_RUN_STDIN_BYTES + 1)),
        timeout_secs: 10,
        wait_timeout_secs: 1,
    };
    let err = validate_run_request(&body).unwrap_err();
    assert!(err.contains("stdin is too large"), "got: {}", err);
}

#[test]
fn registry_shell_job_start_poll_complete_and_log() {
    let mut registry = ShellClientRegistry::default();
    registry
        .register(ShellClientRegisterRequest {
            client_id: "oe".to_string(),
            agent_instance_id: "inst".to_string(),
            display_name: None,
            owner: None,
            hostname: None,
            capabilities: Some(async_job_capabilities()),
            projects: None,
            agent_protocol_version: None,
            policy: None,
        })
        .unwrap();
    let job = registry
        .start_job(
            ShellJobOpRequest {
                op: "start".to_string(),
                client_id: Some("oe".to_string()),
                cwd: Some("/tmp".to_string()),
                command: Some("printf hello".to_string()),
                timeout_secs: Some(10),
                job_id: None,
                since_stdout_line: None,
                since_stderr_line: None,
                tail_lines: None,
                limit: None,
                codex: Some(ShellJobCodexMetadata {
                    project: Some("demo".to_string()),
                    goal_id: Some("goal-1".to_string()),
                    client_request_id: Some("crid-1".to_string()),
                    command: Some("printf hello".to_string()),
                    kind: Some("command".to_string()),
                    suite: None,
                    script_path: None,
                    reason: Some("test job".to_string()),
                    max_runtime_secs: Some(10),
                }),
            },
            "test".to_string(),
        )
        .unwrap();
    assert_eq!(job.status, "queued");
    assert_eq!(
        job.codex
            .as_ref()
            .and_then(|codex| codex.client_request_id.as_deref()),
        Some("crid-1")
    );
    let polled = registry
        .poll(ShellAgentPollRequest {
            client_id: "oe".to_string(),
            agent_instance_id: "inst".to_string(),
            projects: None,
        })
        .unwrap()
        .unwrap();
    assert_eq!(polled.command, "printf hello");
    let running = registry.get_job(&job.job_id).unwrap();
    assert_eq!(running.status, "agent_queued");
    registry
        .complete(ShellAgentResultRequest {
            client_id: "oe".to_string(),
            agent_instance_id: "inst".to_string(),
            request_id: polled.request_id,
            exit_code: Some(0),
            stdout: Some("hello\n".to_string()),
            stderr: Some(String::new()),
            duration_ms: Some(20),
            error: None,
        })
        .unwrap();
    let done = registry.get_job(&job.job_id).unwrap();
    assert_eq!(done.status, "completed");
    assert_eq!(done.exit_code, Some(0));
    assert_eq!(
        done.codex
            .as_ref()
            .and_then(|codex| codex.project.as_deref()),
        Some("demo")
    );
    let listed = registry.list_jobs(Some(10));
    assert_eq!(
        listed
            .iter()
            .find(|listed| listed.job_id == job.job_id)
            .and_then(|listed| listed.codex.as_ref())
            .and_then(|codex| codex.goal_id.as_deref()),
        Some("goal-1")
    );
    let (_info, stdout, stderr, next_stdout, next_stderr) = registry
        .job_log(&job.job_id, Some(1), Some(1), None)
        .unwrap();
    assert_eq!(stdout.as_deref(), Some("hello\n"));
    assert_eq!(stderr.as_deref(), Some(""));
    assert_eq!(next_stdout, 2);
    assert_eq!(next_stderr, 1);
}

#[test]
fn registry_shell_job_stop_cancels_queued_job() {
    let mut registry = ShellClientRegistry::default();
    registry
        .register(ShellClientRegisterRequest {
            client_id: "oe".to_string(),
            agent_instance_id: "inst".to_string(),
            display_name: None,
            owner: None,
            hostname: None,
            capabilities: Some(async_job_capabilities()),
            projects: None,
            agent_protocol_version: None,
            policy: None,
        })
        .unwrap();
    let job = registry
        .start_job(
            ShellJobOpRequest {
                op: "start".to_string(),
                client_id: Some("oe".to_string()),
                cwd: None,
                command: Some("sleep 10".to_string()),
                timeout_secs: Some(10),
                job_id: None,
                since_stdout_line: None,
                since_stderr_line: None,
                tail_lines: None,
                limit: None,
                codex: None,
            },
            "test".to_string(),
        )
        .unwrap();
    let stopped = registry
        .stop_job(&job.job_id, "test".to_string())
        .unwrap();
    assert_eq!(stopped.status, "stopped");
    let polled = registry
        .poll(ShellAgentPollRequest {
            client_id: "oe".to_string(),
            agent_instance_id: "inst".to_string(),
            projects: None,
        })
        .unwrap();
    assert!(polled.is_none());
}

fn sleeping_job(client_id: &str) -> ShellJobOpRequest {
    ShellJobOpRequest {
        op: "start".to_string(),
        client_id: Some(client_id.to_string()),
        cwd: None,
        command: Some("sleep 10".to_string()),
        timeout_secs: Some(10),
        job_id: None,
        since_stdout_line: None,
        since_stderr_line: None,
        tail_lines: None,
        limit: None,
        codex: None,
    }
}

fn job_client(registry: &mut ShellClientRegistry) {
    registry
        .register(ShellClientRegisterRequest {
            client_id: "oe".to_string(),
            agent_instance_id: "inst".to_string(),
            display_name: None,
            owner: None,
            hostname: None,
            capabilities: Some(async_job_capabilities()),
            projects: None,
            agent_protocol_version: None,
            policy: None,
        })
        .unwrap();
}

fn poll_as(registry: &mut ShellClientRegistry) -> Option<String> {
    registry
        .poll(ShellAgentPollRequest {
            client_id: "oe".to_string(),
            agent_instance_id: "inst".to_string(),
            projects: None,
        })
        .unwrap()
        .map(|request| request.request_id)
}

#[test]
fn a_stopped_job_is_never_handed_out() {
    let mut registry = ShellClientRegistry::default();
    job_client(&mut registry);
    let first = registry.start_job(sleeping_job("oe"), "test".to_string()).unwrap();
    let second = registry.start_job(sleeping_job("oe"), "test".to_string()).unwrap();
    assert_eq!(registry.get_client_view("oe").unwrap().pending_requests, 2);
    let stopped = registry.stop_job(&first.job_id, "test".to_string()).unwrap();
    assert_eq!(stopped.status, "stopped");
    assert!(stopped.ended_at.is_some());
    assert_eq!(stopped.error.as_deref(), Some("job stopped before agent picked it up"));
    assert_eq!(registry.get_client_view("oe").unwrap().pending_requests, 1);
    let third = registry.start_job(sleeping_job("oe"), "test".to_string()).unwrap();
    assert_eq!(poll_as(&mut registry), second.request_id);
    assert_eq!(poll_as(&mut registry), third.request_id);
    assert_eq!(poll_as(&mut registry), None);
    assert_eq!(registry.get_job(&first.job_id).unwrap().status, "stopped");
}

#[test]
fn a_result_counts_once() {
    let mut registry = ShellClientRegistry::default();
    job_client(&mut registry);
    let job = registry.start_job(sleeping_job("oe"), "test".to_string()).unwrap();
    let request_id = poll_as(&mut registry).unwrap();
    let result = |exit_code: i32| ShellAgentResultRequest {
        client_id: "oe".to_string(),
        agent_instance_id: "inst".to_string(),
        request_id: request_id.clone(),
        exit_code: Some(exit_code),
        stdout: Some("done\n".to_string()),
        stderr: None,
        duration_ms: Some(1),
        error: None,
    };
    assert!(registry.complete(result(0)).unwrap().is_none());
    assert_eq!(registry.get_job(&job.job_id).unwrap().status, "completed");
    assert_eq!(
        registry.complete(result(1)).unwrap_err(),
        format!("unknown or expired shell request: {request_id}")
    );
    assert_eq!(registry.get_job(&job.job_id).unwrap().status, "completed");
}

#[test]
fn drawn_ids_are_random_uuids() {
    let mut registry = ShellClientRegistry::default();
    job_client(&mut registry);
    let first = registry.start_job(sleeping_job("oe"), "test".to_string()).unwrap();
    let second = registry.start_job(sleeping_job("oe"), "test".to_string()).unwrap();
    assert_ne!(first.job_id, second.job_id);
    for id in [&first.job_id, &second.job_id, first.request_id.as_ref().unwrap()] {
        assert_eq!(id.len(), 36);
        for (i, c) in id.chars().enumerate() {
            match i {
                8 | 13 | 18 | 23 => assert_eq!(c, '-'),
                14 => assert_eq!(c, '4'),
                _ => assert!(c.is_ascii_digit() || ('a'..='f').contains(&c), "{id}"),
            }
        }
    }
}

#[test]
fn registry_shell_job_stop_running_delivers_stop_to_client() {
    let mut registry = ShellClientRegistry::default();
    registry
        .register(ShellClientRegisterRequest {
            client_id: "oe".to_string(),
            agent_instance_id: "inst".to_string(),
            display_name: None,
            owner: None,
            hostname: None,
            capabilities: Some(async_job_capabilities()),
            projects: None,
            agent_protocol_version: None,
            policy: None,
        })
        .unwrap();
    let job = registry
        .start_job(
            ShellJobOpRequest {
                op: "start".to_string(),
                client_id: Some("oe".to_string()),
                cwd: None,
                command: Some("sleep 10".to_string()),
                timeout_secs: Some(10),
                job_id: None,
                since_stdout_line: None,
                since_stderr_line: None,
                tail_lines: None,
                limit: None,
                codex: None,
            },
            "test".to_string(),
        )
        .unwrap();
    let started = registry
        .poll(ShellAgentPollRequest {
            client_id: "oe".to_string(),
            agent_instance_id: "inst".to_string(),
            projects: None,
        })
        .unwrap()
        .unwrap();
    assert_eq!(started.kind, "start_job");

    let stop_requested = registry
        .stop_job(&job.job_id, "test".to_string())
        .unwrap();
    assert_eq!(stop_requested.status, "stop_requested");
    let stop = registry
        .poll(ShellAgentPollRequest {
            client_id: "oe".to_string(),
            agent_instance_id: "inst".to_string(),
            projects: None,
        })
        .unwrap()
        .unwrap();
    assert_eq!(stop.kind, "stop_job");
    assert_eq!(stop.job_id.as_deref(), Some(job.job_id.as_str()));
}

#[test]
fn registry_marks_running_job_lost_when_client_stale() {
    let mut registry = ShellClientRegistry::default();
    registry
        .register(ShellClientRegisterRequest {
            client_id: "oe".to_string(),
            agent_instance_id: "inst".to_string(),
            display_name: None,
            owner: None,
            hostname: None,
            capabilities: Some(async_job_capabilities()),
            projects: None,
            agent_protocol_version: None,
            policy: None,
        })
        .unwrap();
    let job = registry
        .start_job(
            ShellJobOpRequest {
                op: "start".to_string(),
                client_id: Some("oe".to_string()),
                cwd: None,
                command: Some("sleep 10".to_string()),
                timeout_secs: Some(10),
                job_id: None,
                since_stdout_line: None,
                since_stderr_line: None,
                tail_lines: None,
                limit: None,
                codex: None,
            },
            "test".to_string(),
        )
        .unwrap();
    let _ = registry
        .poll(ShellAgentPollRequest {
            client_id: "oe".to_string(),
            agent_instance_id: "inst".to_string(),
            projects: None,
        })
        .unwrap()
        .unwrap();
    registry.set_last_seen_for_test("oe", now_ts() - CLIENT_ONLINE_WINDOW_SECS - 1);
    let lost = registry.get_job(&job.job_id).unwrap();
    assert_eq!(lost.status, "lost");
    assert!(lost.error.unwrap().contains("stale"));
}

#[test]
fn touch_client_refreshes_stale_client_back_to_online() {
    let mut registry = ShellClientRegistry::default();
    registry
        .register(ShellClientRegisterRequest {
            client_id: "oe".to_string(),
            agent_instance_id: "inst".to_string(),
            display_name: None,
            owner: None,
            hostname: None,
            capabilities: Some(async_job_capabilities()),
            projects: None,
            agent_protocol_version: None,
            policy: None,
        })
        .unwrap();

    // Age the client past the online window so it reads as stale.
    registry.set_last_seen_for_test("oe", now_ts() - CLIENT_ONLINE_WINDOW_SECS - 1);
    let stale = registry.get_client_view("oe").unwrap();
    assert!(!stale.connected);
    assert_eq!(stale.status, "stale");

    // A keepalive touch must bring it back online.
    registry.touch_client("oe", "inst").unwrap();
    let fresh = registry.get_client_view("oe").unwrap();
    assert!(fresh.connected);
    assert_eq!(fresh.status, "online");

    // Unknown client_id is a clear error and does not mutate state.
    assert!(registry.touch_client("nope", "inst").is_err());
}

#[test]
fn touch_client_refreshes_websocket_transport_client() {
    let mut registry = ShellClientRegistry::default();
    registry
        .register(ShellClientRegisterRequest {
            client_id: "ws-1".to_string(),
            agent_instance_id: "inst".to_string(),
            display_name: None,
            owner: None,
            hostname: None,
            capabilities: Some(async_job_capabilities()),
            projects: None,
            agent_protocol_version: None,
            policy: None,
        })
        .unwrap();
    registry
        .set_transport("ws-1", TRANSPORT_WEBSOCKET)
        .unwrap();

    registry.set_last_seen_for_test("ws-1", now_ts() - CLIENT_ONLINE_WINDOW_SECS - 1);
    let stale = registry.get_client_view("ws-1").unwrap();
    assert_eq!(stale.transport, "websocket");
    assert!(!stale.connected);

    registry.touch_client("ws-1", "inst").unwrap();
    let fresh = registry.get_client_view("ws-1").unwrap();
    assert_eq!(fresh.transport, "websocket");
    assert!(fresh.connected);
    assert_eq!(fresh.status, "online");
}

#[test]
fn touch_client_rejects_stale_instance_and_accepts_active() {
    // Regression: a stale/replaced instance must not refresh the active
    // lease's `last_seen` via Ping/Pong keepalive.
    let mut registry = ShellClientRegistry::default();
    // Instance A registers and is online.
    let view_a = register_with_instance(&mut registry, "oe", "inst-a");
    assert!(view_a.connected);

    // Age A out so a newer instance may take over the lease.
    registry.set_last_seen_for_test("oe", now_ts() - CLIENT_ONLINE_WINDOW_SECS - 1);
    // Instance B replaces A.
    let view_b = register_with_instance(&mut registry, "oe", "inst-b");
    assert_eq!(view_b.agent_instance_id, "inst-b");
    assert!(view_b.connected);

    // Capture B's last_seen right after registration.
    let before = registry.get_client_view("oe").unwrap().last_seen;
    // Wait a moment so a successful touch would observably advance
    // last_seen.
    let start = std::time::Instant::now();
    while start.elapsed() < std::time::Duration::from_millis(1100) {}

    // Stale instance A's keepalive must be rejected and must NOT advance
    // last_seen for B.
    let err = registry.touch_client("oe", "inst-a").unwrap_err();
    assert!(
        err.contains("no longer the active instance"),
        "error was: {err}"
    );
    let after_a = registry.get_client_view("oe").unwrap().last_seen;
    assert_eq!(
        after_a, before,
        "stale instance touch must not refresh active last_seen"
    );
    // A stale instance must not resurrect the client to online either.
    let view_after_a = registry.get_client_view("oe").unwrap();
    assert!(view_after_a.connected);

    // Active instance B's keepalive succeeds and refreshes last_seen.
    registry.touch_client("oe", "inst-b").unwrap();
    let after_b = registry.get_client_view("oe").unwrap().last_seen;
    assert!(
        after_b > before,
        "active instance touch must refresh last_seen"
    );
    assert!(registry.get_client_view("oe").unwrap().connected);

    // An empty agent_instance_id is rejected by validation.
    assert!(registry.touch_client("oe", "").is_err());
}

#[test]
fn enforce_register_owner_skips_when_no_auth() {
    // No AuthMiddleware (unit tests): defer to the middleware, which in
    // production rejects anonymous requests before the handler runs.
    assert!(enforce_register_owner(None, "client-1", Some("anyone")).is_ok());
    assert!(enforce_register_owner(None, "client-1", None).is_ok());
}

#[test]
fn enforce_register_owner_bootstrap_allows_any_owner() {
    let bootstrap = auth_context(None, true);
    assert!(enforce_register_owner(Some(&bootstrap), "client-1", None).is_ok());
    assert!(enforce_register_owner(Some(&bootstrap), "client-1", Some("bob")).is_ok());
}

#[test]
fn enforce_register_owner_user_token_is_rejected() {
    // User tokens are not allowed on agent transport endpoints. Only
    // bootstrap or agent tokens may register.
    let alice = auth_context(Some("alice"), false);
    let err = enforce_register_owner(Some(&alice), "client-1", Some("alice")).unwrap_err();
    assert!(err.contains("user tokens are not allowed"), "got: {}", err);
}

#[test]
fn enforce_register_owner_agent_token_matching_client_id_succeeds() {
    let alice = agent_auth_context(
        "alice",
        "alice-laptop",
        vec![
            "agent:register",
            "agent:poll",
            "agent:result",
            "agent:job_update",
        ],
    );
    // Matching client_id + matching owner -> Ok.
    assert!(enforce_register_owner(Some(&alice), "alice-laptop", Some("alice")).is_ok());
    // Matching client_id + missing owner -> Ok (owner filled in by the
    // caller via effective_register_owner).
    assert!(enforce_register_owner(Some(&alice), "alice-laptop", None).is_ok());
}

#[test]
fn enforce_register_owner_agent_token_wrong_client_id_rejected() {
    let alice = agent_auth_context("alice", "alice-laptop", vec!["agent:register"]);
    let err = enforce_register_owner(Some(&alice), "other-laptop", None).unwrap_err();
    assert!(err.contains("not bound to client_id"), "got: {}", err);
}

#[test]
fn enforce_register_owner_agent_token_owner_mismatch_rejected() {
    let alice = agent_auth_context("alice", "alice-laptop", vec!["agent:register"]);
    let err = enforce_register_owner(Some(&alice), "alice-laptop", Some("bob")).unwrap_err();
    assert!(err.contains("agent token owner is 'alice'"), "got: {}", err);
    assert!(err.contains("bob"), "got: {}", err);
}

#[test]
fn effective_register_owner_agent_token_fills_username() {
    let alice = agent_auth_context("alice", "alice-laptop", vec!["agent:register"]);
    // Missing owner -> filled with the token's username.
    assert_eq!(
        effective_register_owner(Some(&alice), None),
        Some("alice".to_string())
    );
    // Matching owner preserved.
    assert_eq!(
        effective_register_owner(Some(&alice), Some("alice")),
        Some("alice".to_string())
    );
    // Bootstrap keeps the request owner.
    let bootstrap = auth_context(None, true);
    assert_eq!(
        effective_register_owner(Some(&bootstrap), Some("bob")),
        Some("bob".to_string())
    );
}

#[test]
fn enforce_agent_transport_rejects_user_token() {
    let alice = auth_context(Some("alice"), false);
    let err = enforce_agent_transport(Some(&alice), "client-1").unwrap_err();
    assert!(err.contains("user tokens are not allowed"), "got: {}", err);
}

#[test]
fn enforce_agent_transport_agent_token_matching_client_succeeds() {
    let alice = agent_auth_context("alice", "alice-laptop", vec!["agent:poll"]);
    assert!(enforce_agent_transport(Some(&alice), "alice-laptop").is_ok());
    let err = enforce_agent_transport(Some(&alice), "other").unwrap_err();
    assert!(err.contains("not bound"), "got: {}", err);
}

#[test]
fn enforce_agent_transport_bootstrap_succeeds() {
    let bootstrap = auth_context(None, true);
    assert!(enforce_agent_transport(Some(&bootstrap), "any-client").is_ok());
}

#[test]
fn require_agent_transport_scope_agent_token_with_scope_succeeds() {
    let alice = agent_auth_context("alice", "alice-laptop", vec!["agent:poll"]);
    assert!(require_agent_transport_scope(Some(&alice), "agent:poll").is_ok());
    assert!(require_agent_transport_scope(Some(&alice), "agent:register").is_err());
}

#[test]
fn require_agent_transport_scope_bootstrap_always_succeeds() {
    let bootstrap = auth_context(None, true);
    assert!(require_agent_transport_scope(Some(&bootstrap), "agent:register").is_ok());
}

#[test]
fn require_agent_transport_scope_user_token_rejected() {
    let alice = auth_context(Some("alice"), false);
    let err = require_agent_transport_scope(Some(&alice), "agent:register").unwrap_err();
    assert!(err.contains("missing required scope"), "got: {}", err);
}

#[test]
fn oauth_bridge_token_remains_blocked_from_agent_transport() {
    let bridge = oauth_bridge_auth_context(
        "hash-a",
        vec![
            "agent:register",
            "agent:poll",
            "agent:result",
            "agent:job_update",
        ],
    );
    assert!(!bridge.is_lightweight());
    assert!(enforce_agent_transport(Some(&bridge), "client-a")
        .unwrap_err()
        .contains("user tokens are not allowed"));
    assert!(
        require_agent_transport_scope(Some(&bridge), "agent:register")
            .unwrap_err()
            .contains("missing required scope")
    );
}

#[test]
fn registry_rejects_enqueue_when_queue_full() {
    let mut registry = ShellClientRegistry::default();
    registry
        .register(ShellClientRegisterRequest {
            client_id: "full".to_string(),
            agent_instance_id: "inst".to_string(),
            display_name: None,
            owner: Some("alice".to_string()),
            hostname: None,
            capabilities: None,
            projects: None,
            agent_protocol_version: None,
            policy: None,
        })
        .unwrap();
    // Fill the queue to the limit without any consumer draining it.
    for _ in 0..MAX_QUEUED_REQUESTS_PER_CLIENT {
        registry
            .enqueue_run(
                ShellRunRequest {
                    client_id: "full".to_string(),
                    cwd: None,
                    command: "echo hi".to_string(),
                    stdin: None,
                    timeout_secs: 5,
                    wait_timeout_secs: 0,
                },
                "tester".to_string(),
            )
            .unwrap();
    }
    // The next enqueue must be rejected with a structured error instead
    // of growing the queue unboundedly.
    let err = registry
        .enqueue_run(
            ShellRunRequest {
                client_id: "full".to_string(),
                cwd: None,
                command: "echo hi".to_string(),
                stdin: None,
                timeout_secs: 5,
                wait_timeout_secs: 0,
            },
            "tester".to_string(),
        )
        .unwrap_err();
    assert!(err.contains("too many pending requests"));
    assert!(err.contains("full"));
    // The queue is exactly at the cap; memory is bounded.
    let view = registry.get_client_view("full").unwrap();
    assert_eq!(view.pending_requests, MAX_QUEUED_REQUESTS_PER_CLIENT);
}

#[test]
fn reconcile_disconnect_marks_running_jobs_lost() {
    let mut registry = ShellClientRegistry::default();
    registry
        .register(ShellClientRegisterRequest {
            client_id: "oe".to_string(),
            agent_instance_id: "inst".to_string(),
            display_name: None,
            owner: None,
            hostname: None,
            capabilities: Some(async_job_capabilities()),
            projects: None,
            agent_protocol_version: None,
            policy: None,
        })
        .unwrap();
    let job = registry
        .start_job(
            ShellJobOpRequest {
                op: "start".to_string(),
                client_id: Some("oe".to_string()),
                cwd: None,
                command: Some("sleep 10".to_string()),
                timeout_secs: Some(10),
                job_id: None,
                since_stdout_line: None,
                since_stderr_line: None,
                tail_lines: None,
                limit: None,
                codex: None,
            },
            "test".to_string(),
        )
        .unwrap();
    // Job is "queued" with its request sitting in the client's queue.
    let before = registry.get_client_view("oe").unwrap();
    assert_eq!(before.pending_requests, 1);
    // Transport disconnects (e.g. WebSocket dropped).
    registry.reconcile_disconnect("oe", "inst");
    let lost = registry.get_job(&job.job_id).unwrap();
    assert_eq!(lost.status, "lost");
    assert!(lost.error.unwrap().contains("disconnected"));
    // Pending request was dropped: no dangling waiter / queue entry.
    let after = registry.get_client_view("oe").unwrap();
    assert_eq!(after.pending_requests, 0);
}

#[test]
fn reconcile_disconnect_releases_active_lease_immediately() {
    let mut registry = ShellClientRegistry::default();
    register_with_instance(&mut registry, "oe", "inst-a");

    registry.reconcile_disconnect("oe", "inst-a");

    let offline = registry.get_client_view("oe").unwrap();
    assert!(
        !offline.connected,
        "active disconnect must immediately leave online window"
    );
    assert!(now_ts().saturating_sub(offline.last_seen) > CLIENT_ONLINE_WINDOW_SECS);

    let new_view = register_with_instance(&mut registry, "oe", "inst-b");
    assert_eq!(new_view.agent_instance_id, "inst-b");
    assert!(
        new_view.connected,
        "new instance should register without waiting 60 seconds"
    );
}

// ------------------------------------------------------------------------
// Agent instance identity / lease model (Phase 1)
// ------------------------------------------------------------------------

/// Helper: register a client with an explicit `agent_instance_id`.
fn register_with_instance(
    registry: &mut ShellClientRegistry,
    client_id: &str,
    instance: &str,
) -> ShellClientView {
    registry
        .register(ShellClientRegisterRequest {
            client_id: client_id.to_string(),
            agent_instance_id: instance.to_string(),
            display_name: None,
            owner: Some("alice".to_string()),
            hostname: None,
            capabilities: Some(async_job_capabilities()),
            projects: None,
            agent_protocol_version: Some("polling-v1".to_string()),
            policy: None,
        })
        .unwrap()
}

#[test]
fn lease_first_register_accepts_instance() {
    let mut registry = ShellClientRegistry::default();
    let view = register_with_instance(&mut registry, "oe", "inst-a");
    assert_eq!(view.agent_instance_id, "inst-a");
    assert!(view.connected);
    // The view/list path exposes the instance id.
    let clients = registry.list_clients();
    assert_eq!(clients[0].agent_instance_id, "inst-a");
}

#[test]
fn lease_same_instance_reregister_accepts() {
    let mut registry = ShellClientRegistry::default();
    register_with_instance(&mut registry, "oe", "inst-a");
    // Same client_id + same instance id is a reconnect/refresh: accepted.
    let _ = register_with_instance(&mut registry, "oe", "inst-a");
    let view = registry.get_client_view("oe").unwrap();
    assert_eq!(view.agent_instance_id, "inst-a");
    assert!(view.connected);
}

#[test]
fn lease_different_online_instance_rejected() {
    let mut registry = ShellClientRegistry::default();
    register_with_instance(&mut registry, "oe", "inst-a");
    // A second process with the same client_id but a different instance
    // must be rejected while the first is online.
    let err = registry
        .register(ShellClientRegisterRequest {
            client_id: "oe".to_string(),
            agent_instance_id: "inst-b".to_string(),
            display_name: None,
            owner: Some("alice".to_string()),
            hostname: None,
            capabilities: Some(async_job_capabilities()),
            projects: None,
            agent_protocol_version: Some("polling-v1".to_string()),
            policy: None,
        })
        .unwrap_err();
    assert!(err.contains("already online"), "error was: {err}");
    assert!(err.contains("different instance"), "error was: {err}");
    // The active instance is unchanged.
    let view = registry.get_client_view("oe").unwrap();
    assert_eq!(view.agent_instance_id, "inst-a");
}

#[test]
fn lease_stale_replaced_by_different_instance_accepts() {
    let mut registry = ShellClientRegistry::default();
    register_with_instance(&mut registry, "oe", "inst-a");
    // Age the first instance past the online window so it reads as stale.
    registry.set_last_seen_for_test("oe", chrono::Utc::now().timestamp() - 120);
    // A different instance may now take over the lease.
    let _ = register_with_instance(&mut registry, "oe", "inst-b");
    let view = registry.get_client_view("oe").unwrap();
    assert_eq!(view.agent_instance_id, "inst-b");
    assert!(view.connected);
}

#[test]
fn lease_stale_instance_poll_rejected() {
    let mut registry = ShellClientRegistry::default();
    register_with_instance(&mut registry, "oe", "inst-a");
    // Replace with a newer instance after aging out.
    registry.set_last_seen_for_test("oe", chrono::Utc::now().timestamp() - 120);
    register_with_instance(&mut registry, "oe", "inst-b");

    // The stale instance A can no longer poll.
    let err = registry
        .poll(ShellAgentPollRequest {
            client_id: "oe".to_string(),
            agent_instance_id: "inst-a".to_string(),
            projects: None,
        })
        .unwrap_err();
    assert!(
        err.contains("no longer the active instance"),
        "error was: {err}"
    );

    // The active instance B can still poll.
    registry
        .poll(ShellAgentPollRequest {
            client_id: "oe".to_string(),
            agent_instance_id: "inst-b".to_string(),
            projects: None,
        })
        .expect("active instance must poll");
}

#[test]
fn lease_stale_instance_result_rejected() {
    let mut registry = ShellClientRegistry::default();
    register_with_instance(&mut registry, "oe", "inst-a");
    // Enqueue a request and let instance A poll it.
    let request_id = registry
        .enqueue_run(
            ShellRunRequest {
                client_id: "oe".to_string(),
                cwd: None,
                command: "echo hi".to_string(),
                stdin: None,
                timeout_secs: 5,
                wait_timeout_secs: 0,
            },
            "tester".to_string(),
        )
        .unwrap();
    let _ = registry
        .poll(ShellAgentPollRequest {
            client_id: "oe".to_string(),
            agent_instance_id: "inst-a".to_string(),
            projects: None,
        })
        .unwrap()
        .unwrap();

    // Replace instance A with B after aging out.
    registry.set_last_seen_for_test("oe", chrono::Utc::now().timestamp() - 120);
    register_with_instance(&mut registry, "oe", "inst-b");

    // The stale instance A cannot submit the result.
    let err = registry
        .complete(ShellAgentResultRequest {
            client_id: "oe".to_string(),
            agent_instance_id: "inst-a".to_string(),
            request_id: request_id.clone(),
            exit_code: Some(0),
            stdout: Some("hi".to_string()),
            stderr: None,
            duration_ms: Some(1),
            error: None,
        })
        .unwrap_err();
    assert!(
        err.contains("no longer the active instance"),
        "error was: {err}"
    );

    // The active instance B can submit the result.
    registry
        .complete(ShellAgentResultRequest {
            client_id: "oe".to_string(),
            agent_instance_id: "inst-b".to_string(),
            request_id,
            exit_code: Some(0),
            stdout: Some("hi".to_string()),
            stderr: None,
            duration_ms: Some(1),
            error: None,
        })
        .expect("active instance must submit result");
}

#[test]
fn lease_stale_instance_job_update_rejected() {
    let mut registry = ShellClientRegistry::default();
    register_with_instance(&mut registry, "oe", "inst-a");
    let job = registry
        .start_job(
            ShellJobOpRequest {
                op: "start".to_string(),
                client_id: Some("oe".to_string()),
                cwd: None,
                command: Some("sleep 10".to_string()),
                timeout_secs: Some(10),
                job_id: None,
                since_stdout_line: None,
                since_stderr_line: None,
                tail_lines: None,
                limit: None,
                codex: None,
            },
            "tester".to_string(),
        )
        .unwrap();

    // Replace instance A with B after aging out.
    registry.set_last_seen_for_test("oe", chrono::Utc::now().timestamp() - 120);
    register_with_instance(&mut registry, "oe", "inst-b");

    // The stale instance A cannot update the job.
    let err = registry
        .update_job(ShellAgentJobUpdateRequest {
            client_id: "oe".to_string(),
            agent_instance_id: "inst-a".to_string(),
            job_id: job.job_id.clone(),
            request_id: None,
            status: "running".to_string(),
            stdout_chunk: None,
            stderr_chunk: None,
            stdout_tail: None,
            stderr_tail: None,
            exit_code: None,
            duration_ms: None,
            error: None,
            finished: false,
        })
        .unwrap_err();
    assert!(
        err.contains("no longer the active instance"),
        "error was: {err}"
    );

    // The active instance B can update the job.
    registry
        .update_job(ShellAgentJobUpdateRequest {
            client_id: "oe".to_string(),
            agent_instance_id: "inst-b".to_string(),
            job_id: job.job_id.clone(),
            request_id: None,
            status: "running".to_string(),
            stdout_chunk: None,
            stderr_chunk: None,
            stdout_tail: None,
            stderr_tail: None,
            exit_code: None,
            duration_ms: None,
            error: None,
            finished: false,
        })
        .expect("active instance must update job");
}

#[test]
fn lease_list_clients_exposes_instance_id() {
    let mut registry = ShellClientRegistry::default();
    register_with_instance(&mut registry, "oe", "inst-a");
    let clients = registry.list_clients();
    assert_eq!(clients.len(), 1);
    assert_eq!(clients[0].agent_instance_id, "inst-a");
    let view = registry.get_client_view("oe").unwrap();
    assert_eq!(view.agent_instance_id, "inst-a");
}

#[test]
fn lease_reconcile_disconnect_stale_instance_is_noop() {
    // A stale instance disconnecting after a newer instance has taken over
    // must NOT clear the active notifier or mark the active instance's
    // jobs lost.
    let mut registry = ShellClientRegistry::default();
    register_with_instance(&mut registry, "oe", "inst-a");
    // Install a notifier for instance A.
    registry
        .register_notifier("oe", "inst-a")
        .unwrap();
    // Start a job under instance A.
    let job = registry
        .start_job(
            ShellJobOpRequest {
                op: "start".to_string(),
                client_id: Some("oe".to_string()),
                cwd: None,
                command: Some("sleep 10".to_string()),
                timeout_secs: Some(10),
                job_id: None,
                since_stdout_line: None,
                since_stderr_line: None,
                tail_lines: None,
                limit: None,
                codex: None,
            },
            "tester".to_string(),
        )
        .unwrap();

    // Age out A and let B take over.
    registry.set_last_seen_for_test("oe", chrono::Utc::now().timestamp() - 120);
    register_with_instance(&mut registry, "oe", "inst-b");
    // B installs its own notifier.
    registry
        .register_notifier("oe", "inst-b")
        .unwrap();

    // A's transport finally disconnects. This must be a no-op: B's notifier
    // stays and B's job is not marked lost.
    registry.reconcile_disconnect("oe", "inst-a");
    let job_view = registry.get_job(&job.job_id).unwrap();
    assert_ne!(
        job_view.status, "lost",
        "stale disconnect must not mark active instance job lost"
    );
    // B's disconnect, however, does reconcile.
    registry.reconcile_disconnect("oe", "inst-b");
    let job_view = registry.get_job(&job.job_id).unwrap();
    assert_eq!(job_view.status, "lost");
}

#[test]
fn lease_register_notifier_rejects_stale_instance() {
    let mut registry = ShellClientRegistry::default();
    register_with_instance(&mut registry, "oe", "inst-a");
    // Replace A with B.
    registry.set_last_seen_for_test("oe", chrono::Utc::now().timestamp() - 120);
    register_with_instance(&mut registry, "oe", "inst-b");
    // A's late notifier registration must be rejected so it cannot
    // overwrite B's notifier.
    let err = registry
        .register_notifier("oe", "inst-a")
        .unwrap_err();
    assert!(
        err.contains("no longer the active instance"),
        "error was: {err}"
    );
    // B can still install its notifier.
    registry
        .register_notifier("oe", "inst-b")
        .expect("active instance must install notifier");
}

#[test]
fn lease_register_rejects_empty_instance_id() {
    let mut registry = ShellClientRegistry::default();
    let err = registry
        .register(ShellClientRegisterRequest {
            client_id: "oe".to_string(),
            agent_instance_id: "".to_string(),
            display_name: None,
            owner: None,
            hostname: None,
            capabilities: None,
            projects: None,
            agent_protocol_version: None,
            policy: None,
        })
        .unwrap_err();
    assert!(err.contains("agent_instance_id"), "error was: {err}");
}
