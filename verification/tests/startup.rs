use webcodex::startup::{
    is_admin_group, server_cli_action, server_usage, version_output, ServerCliAction,
    ADMIN_USAGE, BUILD_COMMIT, PROJECT_USAGE, TASK_USAGE, VERSION,
};

fn server_cli_output(args: &[&str]) -> Result<Option<String>, String> {
    match server_cli_action(args) {
        ServerCliAction::Run => Ok(None),
        ServerCliAction::Setup(_)
        | ServerCliAction::Doctor(_)
        | ServerCliAction::Status(_)
        | ServerCliAction::AgentStart(_) => Ok(None),
        ServerCliAction::Task(_) => Ok(None),
        ServerCliAction::Admin(_) => Ok(None),
        ServerCliAction::Exit {
            code: 0, stdout, ..
        } => Ok(Some(stdout)),
        ServerCliAction::Exit { stderr, .. } => Err(stderr),
    }
}

#[test]
fn server_cli_help_mentions_env_vars() {
    let output = server_cli_output(&["--help"]).unwrap().unwrap();
    assert!(output.contains("Usage: webcodex"));
    for key in [
        "WEBCODEX_ENV_FILE",
        "WEBCODEX_TOKEN",
        "WEBCODEX_ADDR",
        "WEBCODEX_DATA",
        "WEBCODEX_PUBLIC_URL",
        "WEBCODEX_CONSOLE_ASSETS_DIR",
        "WEBCODEX_ALLOW_ANONYMOUS",
        "WEBCODEX_QUIC_ENABLED",
        "WEBCODEX_QUIC_LISTEN",
        "WEBCODEX_QUIC_CERT",
        "WEBCODEX_QUIC_KEY",
        "WEBCODEX_QUIC_ALPN",
    ] {
        assert!(output.contains(key), "help missing {key}");
    }
}

#[test]
fn server_cli_short_help_and_version_exit_before_startup() {
    assert!(server_cli_output(&["-h"])
        .unwrap()
        .unwrap()
        .contains("Usage: webcodex"));
    for output in [
        server_cli_output(&["--version"]).unwrap().unwrap(),
        server_cli_output(&["-V"]).unwrap().unwrap(),
    ] {
        assert!(output.starts_with(&format!("webcodex {} (commit ", VERSION)));
        assert_ne!(output, format!("webcodex {}\n", VERSION));
    }
    assert!(server_cli_output(&["setup", "--help"])
        .unwrap()
        .unwrap()
        .contains("webcodex setup"));
    assert!(server_cli_output(&["task", "--help"])
        .unwrap()
        .unwrap()
        .contains("task <COMMAND>"));
    let agent_help = server_cli_output(&["agent", "start", "--help"])
        .unwrap()
        .unwrap();
    assert!(agent_help.contains("--console-assets-dir"));
}

#[test]
fn server_cli_rejects_unknown_arguments() {
    assert!(server_cli_output(&["--bogus"])
        .unwrap_err()
        .contains("unknown argument"));
}

#[test]
fn project_commands_have_one_canonical_dispatch_and_no_connect_alias() {
    assert!(matches!(
        server_cli_action(&["setup", "--root", "."]),
        ServerCliAction::Setup(_)
    ));
    assert!(matches!(
        server_cli_action(&["doctor", "--root", "."]),
        ServerCliAction::Doctor(_)
    ));
    assert!(matches!(
        server_cli_action(&["status", "--root", "."]),
        ServerCliAction::Status(_)
    ));
    assert!(matches!(
        server_cli_action(&["agent", "start", "--root", "."]),
        ServerCliAction::AgentStart(_)
    ));
    match server_cli_action(&["connect", "chatgpt"]) {
        ServerCliAction::Exit { code: 2, .. } => {}
        other => panic!("legacy connect unexpectedly dispatched: {other:?}"),
    }
}

#[test]
fn console_assets_directory_is_only_accepted_by_agent_start() {
    let absolute = "/tmp/webcodex-console-assets";
    match server_cli_action(&["agent", "start", "--console-assets-dir", absolute]) {
        ServerCliAction::AgentStart(options) => {
            assert_eq!(
                options.console_assets_dir,
                Some(absolute.to_string())
            );
        }
        other => panic!("console asset option unexpectedly rejected: {other:?}"),
    }
    for command in ["setup", "doctor", "status"] {
        match server_cli_action(&[command, "--console-assets-dir", absolute]) {
            ServerCliAction::Exit {
                code: 2, stderr, ..
            } => assert!(stderr.contains("unknown")),
            other => panic!("{command} unexpectedly accepted console assets: {other:?}"),
        }
    }
    match server_cli_action(&["agent", "start", "--console-assets-dir", "relative"]) {
        ServerCliAction::Exit {
            code: 2, stderr, ..
        } => assert!(stderr.contains("absolute")),
        other => panic!("relative console assets unexpectedly accepted: {other:?}"),
    }
}

#[test]
fn server_help_mentions_expected_env_vars() {
    let action = server_cli_action(&["--help"]);
    let ServerCliAction::Exit {
        code,
        stdout,
        stderr,
    } = action
    else {
        panic!("expected help to exit");
    };
    assert_eq!(code, 0);
    assert!(stderr.is_empty());
    assert!(stdout.contains("Usage: webcodex"));
    for key in [
        "WEBCODEX_ENV_FILE",
        "WEBCODEX_TOKEN",
        "WEBCODEX_ADDR",
        "WEBCODEX_DATA",
        "WEBCODEX_PUBLIC_URL",
        "WEBCODEX_CONSOLE_ASSETS_DIR",
        "WEBCODEX_ALLOW_ANONYMOUS",
        "WEBCODEX_QUIC_ENABLED",
        "WEBCODEX_QUIC_LISTEN",
        "WEBCODEX_QUIC_CERT",
        "WEBCODEX_QUIC_KEY",
        "WEBCODEX_QUIC_ALPN",
    ] {
        assert!(stdout.contains(key), "usage missing {key}");
    }
}

#[test]
fn version_output_includes_build_commit_or_unknown() {
    let action = server_cli_action(&["-V"]);
    let ServerCliAction::Exit {
        code,
        stdout,
        stderr,
    } = action
    else {
        panic!("expected version to exit");
    };
    assert_eq!(code, 0);
    assert!(stdout.starts_with(&format!("webcodex {} (commit ", VERSION)));
    assert!(stdout.trim_end().ends_with(')'));
    assert_ne!(stdout, format!("webcodex {}\n", VERSION));
    assert!(stderr.is_empty());
}

#[test]
fn server_no_args_runs_normally() {
    assert_eq!(
        server_cli_action(&[]),
        ServerCliAction::Run
    );
    assert_eq!(server_cli_action(&["serve"]), ServerCliAction::Run);
}

#[test]
fn options_are_read_in_pairs() {
    match server_cli_action(&["setup", "--root"]) {
        ServerCliAction::Exit { code, stdout, stderr } => {
            assert_eq!(code, 2);
            assert_eq!(stdout, "");
            assert_eq!(stderr, format!("--root requires a value\n\n{PROJECT_USAGE}"));
        }
        other => panic!("unexpected: {other:?}"),
    }
    match server_cli_action(&["agent", "start", "--console-assets-dir"]) {
        ServerCliAction::Exit { code, stderr, .. } => {
            assert_eq!(code, 2);
            assert!(stderr.starts_with("--console-assets-dir requires a value\n\n"));
        }
        other => panic!("unexpected: {other:?}"),
    }
    match server_cli_action(&[
        "agent",
        "start",
        "--root",
        "/a",
        "--console-assets-dir",
        "/b",
        "--root",
        "/c",
    ]) {
        ServerCliAction::AgentStart(options) => {
            assert_eq!(options.root.as_deref(), Some("/c"));
            assert_eq!(options.console_assets_dir.as_deref(), Some("/b"));
        }
        other => panic!("unexpected: {other:?}"),
    }
}

#[test]
fn unknown_options_name_the_command() {
    for command in ["setup", "doctor", "status"] {
        match server_cli_action(&[command, "--loud"]) {
            ServerCliAction::Exit { code, stderr, .. } => {
                assert_eq!(code, 2);
                assert_eq!(
                    stderr,
                    format!("unknown argument for webcodex {command}: --loud\n\n{PROJECT_USAGE}")
                );
            }
            other => panic!("unexpected: {other:?}"),
        }
    }
}

#[test]
fn agent_alone_is_refused() {
    for args in [&["agent"][..], &["agent", "stop"][..]] {
        match server_cli_action(args) {
            ServerCliAction::Exit { code, stdout, stderr } => {
                assert_eq!(code, 2);
                assert_eq!(stdout, "");
                assert_eq!(stderr, format!("expected `webcodex agent start`\n\n{PROJECT_USAGE}"));
            }
            other => panic!("unexpected: {other:?}"),
        }
    }
}

#[test]
fn tasks_and_admin_groups_keep_their_words() {
    assert_eq!(
        server_cli_action(&["task", "list", "--all"]),
        ServerCliAction::Task(vec!["list".to_string(), "--all".to_string()])
    );
    assert_eq!(
        server_cli_action(&["token", "create"]),
        ServerCliAction::Admin(vec!["token".to_string(), "create".to_string()])
    );
    assert!(is_admin_group("agent-token"));
    assert!(!is_admin_group("agent"));
    assert_eq!(server_cli_output(&["task", "-h"]).unwrap().unwrap(), TASK_USAGE);
}

#[test]
fn several_unknown_words_are_told_together() {
    let usage = server_usage();
    assert_eq!(
        server_cli_output(&["--one", "two"]).unwrap_err(),
        format!("unknown argument(s): --one two\n{usage}")
    );
}

#[test]
fn usage_and_version_are_whole() {
    let usage = server_usage();
    assert!(usage.starts_with("Usage: webcodex [OPTIONS]\n       webcodex setup [OPTIONS]\n"));
    assert!(usage.contains("\n\nCommands:\nsetup              Configure the current Git project\n"));
    assert!(usage.contains("\n\nOptions:\n-h, --help       Print help and exit\n"));
    assert!(usage.contains("Environment:\nWEBCODEX_ENV_FILE      Load environment"));
    assert!(usage.contains(PROJECT_USAGE));
    assert!(usage.contains(ADMIN_USAGE));
    assert_eq!(
        version_output("webcodex"),
        format!("webcodex {VERSION} (commit {BUILD_COMMIT})\n")
    );
}
