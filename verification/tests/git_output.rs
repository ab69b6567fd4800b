use webcodex::json::{empty_object, Json, ObjectBuilder};
use webcodex::tool_runtime::changes::{
    apply_show_changes_session, apply_show_changes_untracked_previews, parse_show_changes_head,
    parse_show_changes_output, parse_untracked_previews_stdout, suggested_next_actions_for,
    SessionActionSignals,
};
use webcodex::tool_runtime::diff::{
    files_json, parse_git_diff_hunks, parse_hunk_header, strip_diff_prefix,
};
use webcodex::tool_runtime::git::{
    clean_optional_paths, git_diff_hunks_command, git_diff_summary_command, looks_like_smoke_path,
    parse_porcelain_files, parse_porcelain_summary, parse_status_branch, porcelain_can_be_cut,
    porcelain_path, show_changes_command, split_diff_summary, split_show_changes_stdout,
    status_label, DIFF_SUMMARY_SENTINEL, SHOW_CHANGES_SENTINEL,
};
use webcodex::tool_runtime::git_tools::{
    discard_untracked, discard_untracked_command, git_diff, git_diff_command, git_diff_hunks,
    git_diff_hunks_plan, git_diff_summary, git_restore_command, git_restore_paths, git_status,
    show_changes, show_changes_plan, CommandOutcome,
};
use webcodex::tool_runtime::sessions::{SessionEvent, SessionSummary};
use webcodex::tool_runtime::shell_text::{
    shell_escape_simple, shell_join_paths, validate_project_relative_path,
};
use webcodex::tool_runtime::types::{CommandOutput, ToolResult};

fn to_value(v: &Json) -> serde_json::Value {
    match v {
        Json::Null => serde_json::Value::Null,
        Json::Bool(b) => serde_json::Value::from(*b),
        Json::UInt(n) => serde_json::Value::from(*n),
        Json::Int(n) => serde_json::Value::from(*n),
        Json::Decimal(s) => serde_json::from_str(s).unwrap(),
        Json::Text(s) => serde_json::Value::from(s.as_str()),
        Json::Array(items) => serde_json::Value::Array(items.iter().map(to_value).collect()),
        Json::Object(members) => serde_json::Value::Object(
            members
                .iter()
                .map(|m| (m.name.clone(), to_value(&m.value)))
                .collect(),
        ),
    }
}

fn parsed(s: &str) -> serde_json::Value {
    serde_json::from_str(s).unwrap()
}

fn strings(v: &[&str]) -> Vec<String> {
    v.iter().map(|s| s.to_string()).collect()
}

const DIFF: &str = "diff --git a/src/a.rs b/src/a.rs
index 1..2 100644
--- a/src/a.rs
+++ b/src/a.rs
@@ -1,3 +1,4 @@ fn a
 one
-two
+zwei
+drei
@@ -10 +11,2 @@
 ten
diff --git a/old.txt b/new.txt
rename from old.txt
rename to new.txt
diff --git a/gone b/gone
deleted file mode 100644
--- a/gone
+++ /dev/null
@@ -1 +0,0 @@
-gone
diff --git a/pic.png b/pic.png
new file mode 100644
Binary files /dev/null and b/pic.png differ
";

#[test]
fn diffs_are_read() {
    let (files, hunks, truncated) = parse_git_diff_hunks(DIFF, 10, 100);
    assert_eq!(hunks, 3);
    assert!(!truncated);
    assert_eq!(files.len(), 4);
    assert_eq!(files[0].path.as_deref(), Some("src/a.rs"));
    assert_eq!(files[0].hunks.len(), 2);
    assert_eq!(files[0].hunks[0].header, "@@ -1,3 +1,4 @@ fn a");
    assert_eq!(files[0].hunks[0].lines.len(), 5);
    assert_eq!(
        (files[0].hunks[1].old_start, files[0].hunks[1].old_lines),
        (10, 1)
    );
    assert_eq!(files[1].status, "renamed");
    assert_eq!(files[1].old_path.as_deref(), Some("old.txt"));
    assert_eq!(files[1].path.as_deref(), Some("new.txt"));
    assert_eq!(files[2].status, "deleted");
    assert_eq!(files[2].path, None);
    assert_eq!(files[3].status, "added");
    assert!(files[3].binary);
    let value = to_value(&files_json(&files));
    assert_eq!(
        value[2],
        parsed(
            "{\"path\": null, \"old_path\": \"gone\", \"status\": \"deleted\", \"hunks\": [{
                \"old_start\": 1, \"old_lines\": 1, \"new_start\": 0, \"new_lines\": 0,
                \"header\": \"@@ -1 +0,0 @@\", \"truncated\": false,
                \"diff\": \"@@ -1 +0,0 @@\\n-gone\", \"line_count\": 2}]}"
        )
    );
    assert_eq!(value[3]["binary"], parsed("true"));
}

#[test]
fn diffs_are_bounded() {
    let (files, hunks, truncated) = parse_git_diff_hunks(DIFF, 1, 2);
    assert_eq!(hunks, 1);
    assert!(truncated);
    assert_eq!(files[0].hunks.len(), 1);
    assert_eq!(files[0].hunks[0].lines.len(), 2);
    assert!(files[0].hunks[0].truncated);
    assert!(files[2].hunks.is_empty());
    let (files, hunks, truncated) = parse_git_diff_hunks("no diff at all\n", 5, 5);
    assert!(files.is_empty());
    assert_eq!(hunks, 0);
    assert!(!truncated);
}

#[test]
fn hunk_headers_are_read() {
    assert_eq!(parse_hunk_header("@@ -12,3 +14,5 @@ fn main"), (12, 3, 14, 5));
    assert_eq!(parse_hunk_header("@@ -7 +8 @@"), (7, 1, 8, 1));
    assert_eq!(parse_hunk_header("@@"), (0, 0, 0, 0));
    assert_eq!(parse_hunk_header("@@ -x,y +1,2 @@"), (0, 1, 1, 2));
    assert_eq!(strip_diff_prefix("a/b/c"), "b/c");
    assert_eq!(strip_diff_prefix("b/c"), "c");
    assert_eq!(strip_diff_prefix("c"), "c");
}

#[test]
fn status_lines_are_read() {
    assert_eq!(parse_status_branch("## main...origin/main [ahead 1]").as_deref(), Some("main"));
    assert_eq!(parse_status_branch("## \"odd\"").as_deref(), Some("odd"));
    assert_eq!(parse_status_branch("## "), None);
    assert_eq!(parse_status_branch(" M a"), None);
    assert_eq!(porcelain_path("a -> b"), ("b".to_string(), Some("a".to_string())));
    assert_eq!(porcelain_path(" \"a b\" "), ("a b".to_string(), None));
    assert_eq!(status_label('?', '?'), "untracked");
    assert_eq!(status_label('R', 'M'), "renamed");
    assert_eq!(status_label(' ', 'C'), "copied");
    assert_eq!(status_label('D', ' '), "deleted");
    assert_eq!(status_label('A', 'M'), "added");
    assert_eq!(status_label(' ', 'M'), "modified");
    assert!(looks_like_smoke_path("a/SMOKE.txt"));
    assert!(looks_like_smoke_path("x/tmpfile") && looks_like_smoke_path("my_test"));
    assert!(!looks_like_smoke_path("src/main.rs"));
}

#[test]
fn porcelain_output_is_summed_up() {
    let out = " M a.rs\n?? new.txt\n!! target/\nR  old.rs -> fresh.rs\nx\n";
    assert!(porcelain_can_be_cut(out));
    let summary = parse_porcelain_summary(out);
    assert_eq!(summary.tracked_changed_files, strings(&["a.rs", "fresh.rs"]));
    assert_eq!(summary.untracked_files, strings(&["new.txt"]));
    assert_eq!(summary.ignored_files, strings(&["target/"]));
    assert_eq!(summary.changed_files, strings(&["a.rs", "new.txt", "target/", "fresh.rs"]));
    assert_eq!(summary.changed_files_count, 4);
    assert_eq!(parse_porcelain_files(out), summary.changed_files);
    // A line that cannot be cut behind its second and third byte.
    assert!(!porcelain_can_be_cut("\u{20ac}xx"));
}

#[test]
fn diff_summaries_come_out_as_they_went_in() {
    for (status, stat) in [
        (" M a\n?? b", " a | 2 +-\n 1 file changed"),
        ("", ""),
        ("@@WEBCODEX_DIFF_SUMMARY_SEP@", "x"),
        ("a ", DIFF_SUMMARY_SENTINEL),
    ] {
        let out = format!("{status}\n{DIFF_SUMMARY_SENTINEL}\n{stat}");
        assert_eq!(split_diff_summary(&out), (status.to_string(), stat.to_string()));
    }
    assert_eq!(split_diff_summary(" M a \n"), (" M a".to_string(), String::new()));
}

#[test]
fn combined_outputs_are_split() {
    let out = format!(" M a\n\n{DIFF_SUMMARY_SENTINEL}\n a | 2 +-\n 1 file changed\n");
    assert_eq!(
        split_diff_summary(&out),
        (" M a".to_string(), " a | 2 +-\n 1 file changed".to_string())
    );
    assert_eq!(split_diff_summary("only\n"), ("only".to_string(), String::new()));
    let s = SHOW_CHANGES_SENTINEL;
    let out = format!("## main\n\n{s}\nhead\n\n{s}\nstat\n\n{s}\ndiff\n\n{s}\n[]\n");
    assert_eq!(
        split_show_changes_stdout(&out, true),
        (
            "## main".to_string(),
            "head".to_string(),
            "stat".to_string(),
            "diff\n\n".to_string(),
            "[]".to_string()
        )
    );
    assert_eq!(
        split_show_changes_stdout(&out, false),
        (
            "## main".to_string(),
            "head".to_string(),
            "stat".to_string(),
            String::new(),
            String::new()
        )
    );
}

#[test]
fn commands_are_written() {
    assert_eq!(
        git_diff_summary_command(),
        format!("git status --porcelain; printf '\\n{DIFF_SUMMARY_SENTINEL}\\n'; git diff --stat")
    );
    assert_eq!(
        show_changes_command(false),
        format!(
            "git status --porcelain=v1 -b; printf '\\n{0}\\n'; {{ git log -1 \
             --format='%H%x00%h%x00%s' || true; }}; printf '\\n{0}\\n'; git diff --stat",
            SHOW_CHANGES_SENTINEL
        )
    );
    let whole = show_changes_command(true);
    assert!(whole.starts_with(&show_changes_command(false)));
    assert!(whole.contains("git diff --unified=80; show_changes_status=$?; "));
    assert!(whole.ends_with("exit $show_changes_status"));
    assert_eq!(
        git_diff_hunks_command(&strings(&["a b", "c"]), true).unwrap(),
        "git diff --cached --unified=80 -- 'a b' 'c'"
    );
    assert_eq!(git_diff_hunks_command(&Vec::new(), false).unwrap(), "git diff --unified=80");
    assert_eq!(git_diff_command(&Vec::new()), "git diff");
    assert_eq!(git_diff_command(&strings(&["x'y"])), "git diff -- 'x'\\''y'");
    assert!(git_restore_command(&strings(&["a"])).contains("'a'"));
    assert!(discard_untracked_command(&strings(&["a"])).contains("'a'"));
}

#[test]
fn quoted_words_are_one_word() {
    assert_eq!(shell_escape_simple(""), "''");
    assert_eq!(shell_escape_simple("a b"), "'a b'");
    assert_eq!(shell_escape_simple("it's"), "'it'\\''s'");
    assert_eq!(shell_join_paths(&strings(&["a", "b c"])), "'a' 'b c'");
}

#[test]
fn paths_stay_within_the_project() {
    assert!(validate_project_relative_path("src/a.rs").is_ok());
    for path in ["", "/etc/passwd", "../a", "a/../../b"] {
        assert!(validate_project_relative_path(path).is_err(), "{path}");
    }
    assert_eq!(
        clean_optional_paths(Some(strings(&["./a/", "a", " b "]))).unwrap(),
        strings(&["a", "b"])
    );
    assert_eq!(clean_optional_paths(None).unwrap(), Vec::<String>::new());
    assert_eq!(
        clean_optional_paths(Some(strings(&["./"]))).unwrap_err(),
        "diff path must name a file or directory, not the project root"
    );
    assert!(clean_optional_paths(Some(strings(&["../x"]))).is_err());
}

#[test]
fn changes_are_told() {
    let v = parse_show_changes_output(
        "agent:box:web",
        "## main...origin/main\n M a.rs\nA  b.rs\n?? tmp.txt\n?? notes\n!! target\n",
        "abc\0ab\0subject",
        " a.rs | 1 +",
        Some(DIFF),
        2,
        50,
        Some(0),
        "",
    );
    let v = to_value(&v);
    assert_eq!(v["branch"], parsed("\"main\""));
    assert_eq!(v["clean"], parsed("false"));
    assert_eq!(
        v["counts"],
        parsed(
            "{\"modified\": 1, \"added\": 1, \"deleted\": 0, \"renamed\": 0, \"copied\": 0,
              \"untracked\": 2, \"staged\": 1, \"unstaged\": 1}"
        )
    );
    assert_eq!(
        v["files"][0],
        parsed(
            "{\"path\": \"a.rs\", \"status\": \"modified\", \"staged\": false, \"unstaged\": true,
              \"kind\": \"tracked\"}"
        )
    );
    assert_eq!(v["warnings"][0]["kind"], parsed("\"untracked_smoke_file\""));
    assert_eq!(v["warnings"][1]["kind"], parsed("\"untracked_file\""));
    assert_eq!(
        v["suggested_next_actions"],
        parsed(
            "[\"review diff\", \"run focused tests\", \"review untracked files before commit\",
              \"clean untracked smoke/tmp files or intentionally commit them\",
              \"commit or revert changes after review\"]"
        )
    );
    assert_eq!(v["hunk_count"], parsed("2"));
    assert_eq!(v["hunks_truncated"], parsed("true"));
    assert_eq!(v["session"], serde_json::Value::Null);
    let clean = to_value(&parse_show_changes_output("p", "## main\n", "", "", None, 1, 1, None, ""));
    assert_eq!(clean["clean"], parsed("true"));
    assert_eq!(clean["suggested_next_actions"], parsed("[\"no changes detected\"]"));
    assert_eq!(clean.get("hunks"), None);
}

#[test]
fn heads_are_read() {
    let head = to_value(&parse_show_changes_head("abcdef\0abc\0fix: a thing"));
    assert!(head.to_string().contains("abcdef"));
    assert!(head.to_string().contains("fix: a thing"));
}

#[test]
fn suggestions_follow_the_session() {
    let actions = suggested_next_actions_for(
        true,
        false,
        false,
        Some(SessionActionSignals { failed: true, write_like: true, shell_like: true }),
    );
    assert_eq!(
        actions,
        strings(&[
            "review failed tool calls in session_summary",
            "review changed paths from this session",
            "check command/test results before commit"
        ])
    );
}

#[test]
fn previews_are_read() {
    assert_eq!(parse_untracked_previews_stdout(" \n").unwrap().0.len(), 0);
    let (previews, truncated) = parse_untracked_previews_stdout("[{\"path\": \"a\"}]").unwrap();
    assert_eq!((previews.len(), truncated), (1, false));
    let (previews, truncated) =
        parse_untracked_previews_stdout("{\"previews\": [1, 2], \"truncated\": true}").unwrap();
    assert_eq!((previews.len(), truncated), (2, true));
    assert_eq!(
        parse_untracked_previews_stdout("3").unwrap_err(),
        "untracked preview JSON must be an array or object"
    );
    assert!(parse_untracked_previews_stdout("{")
        .unwrap_err()
        .starts_with("failed to parse untracked preview JSON: "));
    let mut output = ObjectBuilder::new()
        .with("warnings", Json::Array(Vec::new()))
        .build();
    apply_show_changes_untracked_previews(&mut output, "{");
    let v = to_value(&output);
    assert_eq!(v["untracked_previews"], parsed("[]"));
    assert_eq!(v["warnings"][0]["kind"], parsed("\"untracked_preview_parse_failed\""));
}

fn event(paths: &[&str]) -> SessionEvent {
    SessionEvent {
        event_id: "e-1".to_string(),
        kind: "tool_call_finished".to_string(),
        timestamp: 5,
        transport: "api".to_string(),
        tool_name: Some("write_project_file".to_string()),
        project: None,
        resolved_project: None,
        risk_class: None,
        read_like: false,
        write_like: true,
        shell_like: false,
        git_like: false,
        change_summary_like: false,
        started_at: None,
        finished_at: None,
        status: Some("succeeded".to_string()),
        exit_code: None,
        failure_kind: None,
        duration_ms: None,
        error_kind: None,
        error_message_summary: None,
        changed_paths: strings(paths),
        job_id: None,
    }
}

#[test]
fn sessions_are_told_beside_the_changes() {
    let mut output = parse_show_changes_output("p", "## main\n", "", "", None, 1, 1, None, "");
    apply_show_changes_session(&mut output, Some("s-1"), None);
    let v = to_value(&output);
    assert_eq!(
        v["session"],
        parsed("{\"found\": false, \"session_id\": \"s-1\", \"message\": \"session not found\"}")
    );
    assert_eq!(v["warnings"][0]["kind"], parsed("\"session_not_found\""));
    let mut output = parse_show_changes_output("p", "## main\n", "", "", None, 1, 1, None, "");
    let summary = SessionSummary {
        session_id: "s-1".to_string(),
        project: None,
        title: None,
        created_at: 1,
        updated_at: 2,
        mode: Json::Null,
        guards: Json::Null,
        counts: webcodex::json_text::parse_json("{\"failed\": 1, \"write_like\": 1, \"shell_like\": 0}")
            .unwrap(),
        events: vec![event(&["b", "a"]), event(&["a", "c"])],
    };
    apply_show_changes_session(&mut output, Some("s-1"), Some(summary));
    let v = to_value(&output);
    assert_eq!(v["session"]["changed_paths"].as_array().unwrap().len(), 3);
    assert_eq!(
        v["suggested_next_actions"],
        parsed(
            "[\"review failed tool calls in session_summary\",
              \"review changed paths from this session\"]"
        )
    );
    apply_show_changes_session(&mut output, None, None);
    assert_eq!(to_value(&output)["session"], serde_json::Value::Null);
}

#[test]
fn plans_are_bounded() {
    let plan = git_diff_hunks_plan(Some(strings(&["a"])), Some(0), Some(9999), None).unwrap();
    assert_eq!((plan.max_hunks, plan.max_hunk_lines), (30, 400));
    assert_eq!(plan.command, "git diff --unified=80 -- 'a'");
    assert!(git_diff_hunks_plan(Some(strings(&["../a"])), None, None, None).is_err());
    let plan = show_changes_plan(None, Some(1000), None, Some(0));
    assert_eq!(
        (plan.include_diff, plan.max_hunks, plan.max_hunk_lines, plan.session_event_limit),
        (false, 100, 80, 30)
    );
}

#[test]
fn tools_tell_what_git_did() {
    let plan = git_diff_hunks_plan(None, None, None, Some(true)).unwrap();
    let good = CommandOutput { exit_code: Some(0), stdout: DIFF.to_string(), stderr: String::new() };
    let told = git_diff_hunks("p", &plan, &good);
    assert!(told.success);
    assert_eq!(to_value(&told.output)["hunk_count"], parsed("3"));
    let bad = CommandOutput {
        exit_code: Some(128),
        stdout: String::new(),
        stderr: "fatal".to_string(),
    };
    let told = git_diff_hunks("p", &plan, &bad);
    assert!(!told.success);
    assert_eq!(told.error.as_deref(), Some("git diff failed"));
    assert_eq!(to_value(&told.output)["exit_code"], parsed("128"));
    let told = git_diff_summary(&format!(" M a\n{DIFF_SUMMARY_SENTINEL}\nstat"), Some(0));
    assert!(told.success);
    assert_eq!(to_value(&told.output)["diff_stat"], parsed("\"stat\""));
    let told = show_changes(
        "p",
        &show_changes_plan(Some(false), None, None, None),
        &CommandOutput {
            exit_code: Some(0),
            stdout: format!("## main\n{0}\n\n{0}\n", SHOW_CHANGES_SENTINEL),
            stderr: String::new(),
        },
        None,
        None,
    );
    assert!(told.success);
    assert_eq!(to_value(&told.output)["clean"], parsed("true"));
}

#[test]
fn plain_outputs_are_passed_on() {
    let done = || CommandOutcome::Finished {
        exit_code: Some(0),
        stdout: Some("out".to_string()),
        stderr: Some("".to_string()),
    };
    for told in [git_status(done()), git_diff(done())] {
        assert!(told.success);
        assert_eq!(told.output.get("stdout").and_then(|s| s.as_str()), Some("out"));
    }
    for outcome in [
        CommandOutcome::Dropped,
        CommandOutcome::TimedOut,
        CommandOutcome::Failed("no agent".to_string()),
    ] {
        let told = git_status(outcome);
        assert!(!told.success);
        assert!(told.error.is_some());
    }
    let told = git_restore_paths(&strings(&["a"]), ToolResult::ok(empty_object()));
    assert!(told.success);
    assert!(told.output.get("restored_paths").is_some());
    let told = discard_untracked(&strings(&["a"]), ToolResult::err("no"));
    assert!(!told.success);
}
