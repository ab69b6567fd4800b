//! The schemas of what each tool hands back.
use crate::json::{field, no_fields, Field, Json, ObjectBuilder};
use crate::text::str_eq;
use crate::tool_runtime::schemas::{
    array_of, array_schema, default_output_schema, nullable, nullable_schema, open_object,
    open_object_schema, schema_type, typed, wrapped, wrapped_output_schema,
};
use vstd::prelude::*;

verus! {

/// What `run_shell` hands back.
pub open spec fn run_shell_fields() -> Seq<Field> {
    no_fields()
        .push(field("duration_ms"@, typed("integer"@, "Command duration in milliseconds."@)))
        .push(field("exit_code"@, nullable("integer"@, "Process exit code, when available."@)))
        .push(field("stdout"@, typed("string"@, "Captured stdout."@)))
        .push(field("stderr"@, typed("string"@, "Captured stderr."@)))
        .push(field("stdout_tail"@, typed("string"@, "Bounded stdout tail on failure."@)))
        .push(field("stderr_tail"@, typed("string"@, "Bounded stderr tail on failure."@)))
        .push(field("stdout_truncated"@, typed("boolean"@, "Whether stdout_tail was truncated."@)))
        .push(field("stderr_truncated"@, typed("boolean"@, "Whether stderr_tail was truncated."@)))
        .push(field("command_started"@, typed("boolean"@, "Whether the command process was started."@)))
        .push(field("command_completed"@, typed("boolean"@, "Whether the command reached a terminal result before tool timeout."@)))
        .push(field("command_ok"@, typed("boolean"@, "Whether the command completed with exit code 0."@)))
        .push(field("failure_kind"@, nullable("string"@, "Structured failure kind such as command_exit_nonzero, timeout, agent_offline, spawn_failed, permission_denied, tool_schema_error, or runtime_error."@)))
        .push(field("tool_failure"@, typed("boolean"@, "True for WebCodex tool/runtime failures; false for command exit status failures."@)))
}

fn run_shell_output() -> (r: Json)
    ensures
        r@ == wrapped(run_shell_fields()),
{
    wrapped_output_schema(
        ObjectBuilder::new()
            .with("duration_ms", schema_type("integer", "Command duration in milliseconds."))
            .with("exit_code", nullable_schema("integer", "Process exit code, when available."))
            .with("stdout", schema_type("string", "Captured stdout."))
            .with("stderr", schema_type("string", "Captured stderr."))
            .with("stdout_tail", schema_type("string", "Bounded stdout tail on failure."))
            .with("stderr_tail", schema_type("string", "Bounded stderr tail on failure."))
            .with("stdout_truncated", schema_type("boolean", "Whether stdout_tail was truncated."))
            .with("stderr_truncated", schema_type("boolean", "Whether stderr_tail was truncated."))
            .with("command_started", schema_type("boolean", "Whether the command process was started."))
            .with("command_completed", schema_type("boolean", "Whether the command reached a terminal result before tool timeout."))
            .with("command_ok", schema_type("boolean", "Whether the command completed with exit code 0."))
            .with("failure_kind", nullable_schema("string", "Structured failure kind such as command_exit_nonzero, timeout, agent_offline, spawn_failed, permission_denied, tool_schema_error, or runtime_error."))
            .with("tool_failure", schema_type("boolean", "True for WebCodex tool/runtime failures; false for command exit status failures.")),
    )
}

/// What `run_job` and `run_codex` hand back.
pub open spec fn run_job_fields() -> Seq<Field> {
    no_fields()
        .push(field("job_id"@, typed("string"@, "Runtime job id."@)))
        .push(field("kind"@, typed("string"@, "Job kind."@)))
        .push(field("status"@, typed("string"@, "Initial job status."@)))
        .push(field("project"@, typed("string"@, "Project id."@)))
}

fn run_job_output() -> (r: Json)
    ensures
        r@ == wrapped(run_job_fields()),
{
    wrapped_output_schema(
        ObjectBuilder::new()
            .with("job_id", schema_type("string", "Runtime job id."))
            .with("kind", schema_type("string", "Job kind."))
            .with("status", schema_type("string", "Initial job status."))
            .with("project", schema_type("string", "Project id.")),
    )
}

/// What `job_status` hands back.
pub open spec fn job_status_fields() -> Seq<Field> {
    no_fields()
        .push(field("job_id"@, typed("string"@, "Runtime job id."@)))
        .push(field("status"@, typed("string"@, "Current job status."@)))
        .push(field("exit_code"@, nullable("integer"@, "Process exit code, when available."@)))
        .push(field("started_at"@, nullable("string"@, "Job start timestamp."@)))
        .push(field("ended_at"@, nullable("string"@, "Job end timestamp."@)))
        .push(field("error"@, nullable("string"@, "Job error message, when available."@)))
}

fn job_status_output() -> (r: Json)
    ensures
        r@ == wrapped(job_status_fields()),
{
    wrapped_output_schema(
        ObjectBuilder::new()
            .with("job_id", schema_type("string", "Runtime job id."))
            .with("status", schema_type("string", "Current job status."))
            .with("exit_code", nullable_schema("integer", "Process exit code, when available."))
            .with("started_at", nullable_schema("string", "Job start timestamp."))
            .with("ended_at", nullable_schema("string", "Job end timestamp."))
            .with("error", nullable_schema("string", "Job error message, when available.")),
    )
}

/// What `job_log` hands back.
pub open spec fn job_log_fields() -> Seq<Field> {
    no_fields()
        .push(field("job_id"@, typed("string"@, "Runtime job id."@)))
        .push(field("stdout"@, typed("string"@, "Captured stdout or selected stdout tail."@)))
        .push(field("stderr"@, typed("string"@, "Captured stderr or selected stderr tail."@)))
        .push(field("offset"@, typed("integer"@, "Requested stdout line offset."@)))
        .push(field("next_offset"@, typed("integer"@, "Next stdout line offset."@)))
        .push(field("tail_lines"@, typed("integer"@, "Requested tail line count."@)))
}

fn job_log_output() -> (r: Json)
    ensures
        r@ == wrapped(job_log_fields()),
{
    wrapped_output_schema(
        ObjectBuilder::new()
            .with("job_id", schema_type("string", "Runtime job id."))
            .with("stdout", schema_type("string", "Captured stdout or selected stdout tail."))
            .with("stderr", schema_type("string", "Captured stderr or selected stderr tail."))
            .with("offset", schema_type("integer", "Requested stdout line offset."))
            .with("next_offset", schema_type("integer", "Next stdout line offset."))
            .with("tail_lines", schema_type("integer", "Requested tail line count.")),
    )
}

/// What `runtime_status` hands back.
pub open spec fn runtime_status_fields() -> Seq<Field> {
    no_fields()
        .push(field("service"@, typed("string"@, "Runtime service name."@)))
        .push(field("version"@, typed("string"@, "Runtime version."@)))
        .push(field("build"@, open_object("Build revision metadata for the running binary."@)))
        .push(field("server_time"@, typed("integer"@, "Server timestamp."@)))
        .push(field("pid"@, typed("integer"@, "Server process id."@)))
        .push(field("auth_enabled"@, typed("boolean"@, "Whether bearer auth is enabled."@)))
        .push(field("configured_public_url"@, nullable("string"@, "Configured public URL, when set."@)))
        .push(field("projects"@, open_object("Projects configuration status."@)))
        .push(field("agents"@, open_object("Agent counts and client summaries."@)))
        .push(field("jobs"@, open_object("Runtime job counts."@)))
        .push(field("tools"@, open_object("Runtime tool counts and names."@)))
        .push(field("quic"@, open_object("QUIC transport status, when enabled."@)))
}

fn runtime_status_output() -> (r: Json)
    ensures
        r@ == wrapped(runtime_status_fields()),
{
    wrapped_output_schema(
        ObjectBuilder::new()
            .with("service", schema_type("string", "Runtime service name."))
            .with("version", schema_type("string", "Runtime version."))
            .with("build", open_object_schema("Build revision metadata for the running binary."))
            .with("server_time", schema_type("integer", "Server timestamp."))
            .with("pid", schema_type("integer", "Server process id."))
            .with("auth_enabled", schema_type("boolean", "Whether bearer auth is enabled."))
            .with("configured_public_url", nullable_schema("string", "Configured public URL, when set."))
            .with("projects", open_object_schema("Projects configuration status."))
            .with("agents", open_object_schema("Agent counts and client summaries."))
            .with("jobs", open_object_schema("Runtime job counts."))
            .with("tools", open_object_schema("Runtime tool counts and names."))
            .with("quic", open_object_schema("QUIC transport status, when enabled.")),
    )
}

/// What `list_projects` hands back.
pub open spec fn list_projects_fields() -> Seq<Field> {
    no_fields()
        .push(field("projects"@, array_of(open_object("Project summary."@), "Runtime projects."@)))
        .push(field("count"@, typed("integer"@, "Project count."@)))
}

fn list_projects_output() -> (r: Json)
    ensures
        r@ == wrapped(list_projects_fields()),
{
    wrapped_output_schema(
        ObjectBuilder::new()
            .with("projects", array_schema(open_object_schema("Project summary."), "Runtime projects."))
            .with("count", schema_type("integer", "Project count.")),
    )
}

/// What `list_agents` hands back.
pub open spec fn list_agents_fields() -> Seq<Field> {
    no_fields()
        .push(field("agents"@, array_of(open_object("Agent summary."@), "Agent summaries."@)))
        .push(field("clients"@, array_of(open_object("Client summary."@), "Client summaries."@)))
        .push(field("count"@, typed("integer"@, "Agent/client count."@)))
}

fn list_agents_output() -> (r: Json)
    ensures
        r@ == wrapped(list_agents_fields()),
{
    wrapped_output_schema(
        ObjectBuilder::new()
            .with("agents", array_schema(open_object_schema("Agent summary."), "Agent summaries."))
            .with("clients", array_schema(open_object_schema("Client summary."), "Client summaries."))
            .with("count", schema_type("integer", "Agent/client count.")),
    )
}

/// What `list_tools` hands back.
pub open spec fn list_tools_fields() -> Seq<Field> {
    no_fields()
        .push(field("tools"@, array_of(open_object("Tool metadata."@), "Runtime tool specs."@)))
        .push(field("count"@, typed("integer"@, "Tool count."@)))
}

fn list_tools_output() -> (r: Json)
    ensures
        r@ == wrapped(list_tools_fields()),
{
    wrapped_output_schema(
        ObjectBuilder::new()
            .with("tools", array_schema(open_object_schema("Tool metadata."), "Runtime tool specs."))
            .with("count", schema_type("integer", "Tool count.")),
    )
}

/// What `start_session` hands back.
pub open spec fn start_session_fields() -> Seq<Field> {
    no_fields()
        .push(field("success"@, typed("boolean"@, "Always true on success."@)))
        .push(field("session_id"@, typed("string"@, "Opaque session id."@)))
        .push(field("project"@, nullable("string"@, "Optional project associated with the task."@)))
        .push(field("project_input"@, nullable("string"@, "Original project input, when provided."@)))
        .push(field("resolved_project"@, nullable("string"@, "Resolved full runtime project id, when a project was provided."@)))
        .push(field("title"@, nullable("string"@, "Optional session title."@)))
        .push(field("created_at"@, typed("integer"@, "Unix timestamp in seconds."@)))
}

fn start_session_output() -> (r: Json)
    ensures
        r@ == wrapped(start_session_fields()),
{
    wrapped_output_schema(
        ObjectBuilder::new()
            .with("success", schema_type("boolean", "Always true on success."))
            .with("session_id", schema_type("string", "Opaque session id."))
            .with("project", nullable_schema("string", "Optional project associated with the task."))
            .with("project_input", nullable_schema("string", "Original project input, when provided."))
            .with("resolved_project", nullable_schema("string", "Resolved full runtime project id, when a project was provided."))
            .with("title", nullable_schema("string", "Optional session title."))
            .with("created_at", schema_type("integer", "Unix timestamp in seconds.")),
    )
}

/// What `session_summary` hands back.
pub open spec fn session_summary_fields() -> Seq<Field> {
    no_fields()
        .push(field("session_id"@, typed("string"@, "Opaque session id."@)))
        .push(field("project"@, nullable("string"@, "Optional project associated with the task."@)))
        .push(field("title"@, nullable("string"@, "Optional session title."@)))
        .push(field("created_at"@, typed("integer"@, "Unix timestamp in seconds."@)))
        .push(field("updated_at"@, typed("integer"@, "Unix timestamp in seconds."@)))
        .push(field("counts"@, open_object("Structured event counters."@)))
        .push(field("events"@, array_of(open_object("Bounded session event."@), "Recent events."@)))
}

fn session_summary_output() -> (r: Json)
    ensures
        r@ == wrapped(session_summary_fields()),
{
    wrapped_output_schema(
        ObjectBuilder::new()
            .with("session_id", schema_type("string", "Opaque session id."))
            .with("project", nullable_schema("string", "Optional project associated with the task."))
            .with("title", nullable_schema("string", "Optional session title."))
            .with("created_at", schema_type("integer", "Unix timestamp in seconds."))
            .with("updated_at", schema_type("integer", "Unix timestamp in seconds."))
            .with("counts", open_object_schema("Structured event counters."))
            .with("events", array_schema(open_object_schema("Bounded session event."), "Recent events.")),
    )
}

/// What `read_file` hands back.
pub open spec fn read_file_fields() -> Seq<Field> {
    no_fields()
        .push(field("content"@, typed("string"@, "File content."@)))
        .push(field("path"@, typed("string"@, "Project-relative path."@)))
        .push(field("start_line"@, typed("integer"@, "1-based starting line."@)))
        .push(field("limit"@, typed("integer"@, "Maximum requested line count."@)))
        .push(field("total_lines"@, typed("integer"@, "Total line count, when available."@)))
        .push(field("numbered_text"@, typed("string"@, "Optional line-numbered content when with_line_numbers=true."@)))
        .push(field("lines"@, array_of(open_object("Line object with 1-based line and text fields."@), "Optional structured lines when with_line_numbers=true."@)))
}

fn read_file_output() -> (r: Json)
    ensures
        r@ == wrapped(read_file_fields()),
{
    wrapped_output_schema(
        ObjectBuilder::new()
            .with("content", schema_type("string", "File content."))
            .with("path", schema_type("string", "Project-relative path."))
            .with("start_line", schema_type("integer", "1-based starting line."))
            .with("limit", schema_type("integer", "Maximum requested line count."))
            .with("total_lines", schema_type("integer", "Total line count, when available."))
            .with("numbered_text", schema_type("string", "Optional line-numbered content when with_line_numbers=true."))
            .with("lines", array_schema(open_object_schema("Line object with 1-based line and text fields."), "Optional structured lines when with_line_numbers=true.")),
    )
}

/// What `read_project_artifact` hands back.
pub open spec fn read_project_artifact_fields() -> Seq<Field> {
    no_fields()
        .push(field("path"@, typed("string"@, "Project-relative artifact path."@)))
        .push(field("mime_type"@, nullable("string"@, "Detected or inferred MIME type."@)))
        .push(field("file_bytes"@, typed("integer"@, "Total file size in bytes."@)))
        .push(field("sha256"@, typed("string"@, "sha256 digest of the full artifact file."@)))
        .push(field("offset"@, typed("integer"@, "Requested byte offset."@)))
        .push(field("bytes_returned"@, typed("integer"@, "Number of bytes returned in this chunk."@)))
        .push(field("content_base64"@, typed("string"@, "Base64-encoded content for this chunk only."@)))
        .push(field("next_offset"@, typed("integer"@, "Offset to use for the next chunk."@)))
        .push(field("truncated"@, typed("boolean"@, "True when more bytes remain after this chunk."@)))
}

fn read_project_artifact_output() -> (r: Json)
    ensures
        r@ == wrapped(read_project_artifact_fields()),
{
    wrapped_output_schema(
        ObjectBuilder::new()
            .with("path", schema_type("string", "Project-relative artifact path."))
            .with("mime_type", nullable_schema("string", "Detected or inferred MIME type."))
            .with("file_bytes", schema_type("integer", "Total file size in bytes."))
            .with("sha256", schema_type("string", "sha256 digest of the full artifact file."))
            .with("offset", schema_type("integer", "Requested byte offset."))
            .with("bytes_returned", schema_type("integer", "Number of bytes returned in this chunk."))
            .with("content_base64", schema_type("string", "Base64-encoded content for this chunk only."))
            .with("next_offset", schema_type("integer", "Offset to use for the next chunk."))
            .with("truncated", schema_type("boolean", "True when more bytes remain after this chunk.")),
    )
}

/// What `search_project_text` hands back.
pub open spec fn search_project_text_fields() -> Seq<Field> {
    no_fields()
        .push(field("project"@, typed("string"@, "Resolved project id."@)))
        .push(field("pattern"@, typed("string"@, "Search pattern."@)))
        .push(field("path"@, typed("string"@, "Project-relative search root."@)))
        .push(field("matches"@, array_of(open_object("Search match with path, 1-based line, preview, and optional context lines."@), "Bounded search matches."@)))
        .push(field("count"@, typed("integer"@, "Returned match count."@)))
        .push(field("truncated"@, typed("boolean"@, "Whether more matches were available."@)))
        .push(field("exit_code"@, nullable("integer"@, "Search command exit code, when available."@)))
        .push(field("context_before"@, typed("integer"@, "Effective context lines before each match."@)))
        .push(field("context_after"@, typed("integer"@, "Effective context lines after each match."@)))
}

fn search_project_text_output() -> (r: Json)
    ensures
        r@ == wrapped(search_project_text_fields()),
{
    wrapped_output_schema(
        ObjectBuilder::new()
            .with("project", schema_type("string", "Resolved project id."))
            .with("pattern", schema_type("string", "Search pattern."))
            .with("path", schema_type("string", "Project-relative search root."))
            .with("matches", array_schema(open_object_schema("Search match with path, 1-based line, preview, and optional context lines."), "Bounded search matches."))
            .with("count", schema_type("integer", "Returned match count."))
            .with("truncated", schema_type("boolean", "Whether more matches were available."))
            .with("exit_code", nullable_schema("integer", "Search command exit code, when available."))
            .with("context_before", schema_type("integer", "Effective context lines before each match."))
            .with("context_after", schema_type("integer", "Effective context lines after each match.")),
    )
}

/// What `git_status` and `git_diff` hand back.
pub open spec fn git_status_fields() -> Seq<Field> {
    no_fields()
        .push(field("exit_code"@, nullable("integer"@, "Git command exit code."@)))
        .push(field("stdout"@, typed("string"@, "Git command stdout."@)))
        .push(field("stderr"@, typed("string"@, "Git command stderr."@)))
}

fn git_status_output() -> (r: Json)
    ensures
        r@ == wrapped(git_status_fields()),
{
    wrapped_output_schema(
        ObjectBuilder::new()
            .with("exit_code", nullable_schema("integer", "Git command exit code."))
            .with("stdout", schema_type("string", "Git command stdout."))
            .with("stderr", schema_type("string", "Git command stderr.")),
    )
}

/// What `git_diff_summary` hands back.
pub open spec fn git_diff_summary_fields() -> Seq<Field> {
    no_fields()
        .push(field("status"@, typed("string"@, "Porcelain git status output."@)))
        .push(field("diff_stat"@, typed("string"@, "Git diff --stat output."@)))
        .push(field("changed_files"@, array_of(open_object("Changed file summary."@), "Changed files."@)))
}

fn git_diff_summary_output() -> (r: Json)
    ensures
        r@ == wrapped(git_diff_summary_fields()),
{
    wrapped_output_schema(
        ObjectBuilder::new()
            .with("status", schema_type("string", "Porcelain git status output."))
            .with("diff_stat", schema_type("string", "Git diff --stat output."))
            .with("changed_files", array_schema(open_object_schema("Changed file summary."), "Changed files.")),
    )
}

/// What `git_diff_hunks` hands back.
pub open spec fn git_diff_hunks_fields() -> Seq<Field> {
    no_fields()
        .push(field("files"@, array_of(open_object("File diff hunks."@), "Changed files."@)))
        .push(field("hunk_count"@, typed("integer"@, "Returned hunk count."@)))
        .push(field("truncated"@, typed("boolean"@, "Whether output was bounded/truncated."@)))
        .push(field("exit_code"@, nullable("integer"@, "Git diff exit code."@)))
        .push(field("stderr"@, typed("string"@, "Git diff stderr."@)))
}

fn git_diff_hunks_output() -> (r: Json)
    ensures
        r@ == wrapped(git_diff_hunks_fields()),
{
    wrapped_output_schema(
        ObjectBuilder::new()
            .with("files", array_schema(open_object_schema("File diff hunks."), "Changed files."))
            .with("hunk_count", schema_type("integer", "Returned hunk count."))
            .with("truncated", schema_type("boolean", "Whether output was bounded/truncated."))
            .with("exit_code", nullable_schema("integer", "Git diff exit code."))
            .with("stderr", schema_type("string", "Git diff stderr.")),
    )
}

/// What `show_changes` hands back.
pub open spec fn show_changes_fields() -> Seq<Field> {
    no_fields()
        .push(field("project"@, typed("string"@, "Runtime project id."@)))
        .push(field("branch"@, nullable("string"@, "Current git branch from porcelain status."@)))
        .push(field("head"@, open_object("Current HEAD commit metadata."@)))
        .push(field("clean"@, typed("boolean"@, "Whether the worktree is clean."@)))
        .push(field("counts"@, open_object("Parsed status counts."@)))
        .push(field("files"@, array_of(open_object("Changed file status."@), "Changed files."@)))
        .push(field("diff_stat"@, typed("string"@, "Git diff --stat output."@)))
        .push(field("hunks"@, array_of(open_object("Bounded file diff hunks."@), "Diff hunks."@)))
        .push(field("untracked_previews"@, array_of(open_object("Bounded untracked file preview or skip reason."@), "Untracked file previews."@)))
        .push(field("untracked_previews_truncated"@, typed("boolean"@, "Whether the untracked preview file list was bounded/truncated."@)))
        .push(field("warnings"@, array_of(open_object("Review warning."@), "Warnings."@)))
        .push(field("suggested_next_actions"@, array_of(typed("string"@, "Suggested action."@), "Suggested actions."@)))
        .push(field("session"@, nullable("object"@, "Optional session activity summary."@)))
}

fn show_changes_output() -> (r: Json)
    ensures
        r@ == wrapped(show_changes_fields()),
{
    wrapped_output_schema(
        ObjectBuilder::new()
            .with("project", schema_type("string", "Runtime project id."))
            .with("branch", nullable_schema("string", "Current git branch from porcelain status."))
            .with("head", open_object_schema("Current HEAD commit metadata."))
            .with("clean", schema_type("boolean", "Whether the worktree is clean."))
            .with("counts", open_object_schema("Parsed status counts."))
            .with("files", array_schema(open_object_schema("Changed file status."), "Changed files."))
            .with("diff_stat", schema_type("string", "Git diff --stat output."))
            .with("hunks", array_schema(open_object_schema("Bounded file diff hunks."), "Diff hunks."))
            .with("untracked_previews", array_schema(open_object_schema("Bounded untracked file preview or skip reason."), "Untracked file previews."))
            .with("untracked_previews_truncated", schema_type("boolean", "Whether the untracked preview file list was bounded/truncated."))
            .with("warnings", array_schema(open_object_schema("Review warning."), "Warnings."))
            .with("suggested_next_actions", array_schema(schema_type("string", "Suggested action."), "Suggested actions."))
            .with("session", nullable_schema("object", "Optional session activity summary.")),
    )
}

/// What `cargo_fmt`, `cargo_check` and `cargo_test` hand back.
pub open spec fn cargo_fmt_fields() -> Seq<Field> {
    no_fields()
        .push(field("project"@, typed("string"@, "Runtime project id."@)))
        .push(field("command"@, typed("string"@, "Cargo command executed."@)))
        .push(field("cwd"@, typed("string"@, "Project-relative working directory."@)))
        .push(field("exit_code"@, nullable("integer"@, "Cargo command exit code."@)))
        .push(field("duration_ms"@, typed("integer"@, "Command duration in milliseconds."@)))
        .push(field("stdout_tail"@, typed("string"@, "Bounded stdout tail."@)))
        .push(field("stderr_tail"@, typed("string"@, "Bounded stderr tail."@)))
        .push(field("stdout_truncated"@, typed("boolean"@, "Whether stdout was truncated."@)))
        .push(field("stderr_truncated"@, typed("boolean"@, "Whether stderr was truncated."@)))
        .push(field("passed"@, typed("boolean"@, "Whether exit_code was zero."@)))
        .push(field("warnings_count"@, nullable("integer"@, "Heuristic warning count for cargo_check."@)))
        .push(field("errors_count"@, nullable("integer"@, "Heuristic error count for cargo_check."@)))
        .push(field("tests_passed"@, nullable("integer"@, "Parsed passed test count for cargo_test."@)))
        .push(field("tests_failed"@, nullable("integer"@, "Parsed failed test count for cargo_test."@)))
}

fn cargo_fmt_output() -> (r: Json)
    ensures
        r@ == wrapped(cargo_fmt_fields()),
{
    wrapped_output_schema(
        ObjectBuilder::new()
            .with("project", schema_type("string", "Runtime project id."))
            .with("command", schema_type("string", "Cargo command executed."))
            .with("cwd", schema_type("string", "Project-relative working directory."))
            .with("exit_code", nullable_schema("integer", "Cargo command exit code."))
            .with("duration_ms", schema_type("integer", "Command duration in milliseconds."))
            .with("stdout_tail", schema_type("string", "Bounded stdout tail."))
            .with("stderr_tail", schema_type("string", "Bounded stderr tail."))
            .with("stdout_truncated", schema_type("boolean", "Whether stdout was truncated."))
            .with("stderr_truncated", schema_type("boolean", "Whether stderr was truncated."))
            .with("passed", schema_type("boolean", "Whether exit_code was zero."))
            .with("warnings_count", nullable_schema("integer", "Heuristic warning count for cargo_check."))
            .with("errors_count", nullable_schema("integer", "Heuristic error count for cargo_check."))
            .with("tests_passed", nullable_schema("integer", "Parsed passed test count for cargo_test."))
            .with("tests_failed", nullable_schema("integer", "Parsed failed test count for cargo_test.")),
    )
}

/// What `apply_patch` and `apply_patch_checked` hand back.
pub open spec fn apply_patch_fields() -> Seq<Field> {
    no_fields()
        .push(field("exit_code"@, nullable("integer"@, "Patch command exit code."@)))
        .push(field("stdout"@, typed("string"@, "Patch command stdout."@)))
        .push(field("stderr"@, typed("string"@, "Patch command stderr."@)))
        .push(field("changed_files"@, array_of(open_object("Changed file summary."@), "Changed files."@)))
        .push(field("applied"@, typed("boolean"@, "Whether the patch was applied."@)))
        .push(field("check"@, open_object("Patch validation/check result."@)))
}

fn apply_patch_output() -> (r: Json)
    ensures
        r@ == wrapped(apply_patch_fields()),
{
    wrapped_output_schema(
        ObjectBuilder::new()
            .with("exit_code", nullable_schema("integer", "Patch command exit code."))
            .with("stdout", schema_type("string", "Patch command stdout."))
            .with("stderr", schema_type("string", "Patch command stderr."))
            .with("changed_files", array_schema(open_object_schema("Changed file summary."), "Changed files."))
            .with("applied", schema_type("boolean", "Whether the patch was applied."))
            .with("check", open_object_schema("Patch validation/check result.")),
    )
}

/// What `validate_patch` hands back.
pub open spec fn validate_patch_fields() -> Seq<Field> {
    no_fields()
        .push(field("valid"@, typed("boolean"@, "Whether the patch passed validation."@)))
        .push(field("applies"@, typed("boolean"@, "Whether git apply --check succeeded."@)))
        .push(field("exit_code"@, nullable("integer"@, "Validation command exit code."@)))
        .push(field("stdout"@, typed("string"@, "Validation stdout."@)))
        .push(field("stderr"@, typed("string"@, "Validation stderr."@)))
        .push(field("diff_stat"@, typed("string"@, "Patch diff stat, when available."@)))
}

fn validate_patch_output() -> (r: Json)
    ensures
        r@ == wrapped(validate_patch_fields()),
{
    wrapped_output_schema(
        ObjectBuilder::new()
            .with("valid", schema_type("boolean", "Whether the patch passed validation."))
            .with("applies", schema_type("boolean", "Whether git apply --check succeeded."))
            .with("exit_code", nullable_schema("integer", "Validation command exit code."))
            .with("stdout", schema_type("string", "Validation stdout."))
            .with("stderr", schema_type("string", "Validation stderr."))
            .with("diff_stat", schema_type("string", "Patch diff stat, when available.")),
    )
}

/// What `replace_line_range` and `delete_line_range` hand back.
pub open spec fn replace_line_range_fields() -> Seq<Field> {
    no_fields()
        .push(field("path"@, typed("string"@, "Project-relative path."@)))
        .push(field("start_line"@, typed("integer"@, "1-based inclusive start line."@)))
        .push(field("end_line"@, typed("integer"@, "1-based inclusive end line."@)))
        .push(field("old_sha256"@, typed("string"@, "sha256 of the original selected range."@)))
        .push(field("new_sha256"@, typed("string"@, "sha256 of the entire file after the edit."@)))
        .push(field("old_line_count"@, typed("integer"@, "Number of original selected lines."@)))
        .push(field("new_line_count"@, typed("integer"@, "Number of replacement lines."@)))
        .push(field("bytes_written"@, typed("integer"@, "Bytes in the file written after the edit."@)))
        .push(field("changed"@, typed("boolean"@, "Whether file contents changed."@)))
}

fn replace_line_range_output() -> (r: Json)
    ensures
        r@ == wrapped(replace_line_range_fields()),
{
    wrapped_output_schema(
        ObjectBuilder::new()
            .with("path", schema_type("string", "Project-relative path."))
            .with("start_line", schema_type("integer", "1-based inclusive start line."))
            .with("end_line", schema_type("integer", "1-based inclusive end line."))
            .with("old_sha256", schema_type("string", "sha256 of the original selected range."))
            .with("new_sha256", schema_type("string", "sha256 of the entire file after the edit."))
            .with("old_line_count", schema_type("integer", "Number of original selected lines."))
            .with("new_line_count", schema_type("integer", "Number of replacement lines."))
            .with("bytes_written", schema_type("integer", "Bytes in the file written after the edit."))
            .with("changed", schema_type("boolean", "Whether file contents changed.")),
    )
}

/// What `insert_at_line` hands back.
pub open spec fn insert_at_line_fields() -> Seq<Field> {
    no_fields()
        .push(field("path"@, typed("string"@, "Project-relative path."@)))
        .push(field("line"@, typed("integer"@, "1-based insertion line."@)))
        .push(field("old_sha256"@, typed("string"@, "sha256 of the anchor line, or empty EOF anchor."@)))
        .push(field("new_sha256"@, typed("string"@, "sha256 of the entire file after the edit."@)))
        .push(field("old_line_count"@, typed("integer"@, "Anchor line count: 1 or 0 at EOF."@)))
        .push(field("new_line_count"@, typed("integer"@, "Number of inserted lines."@)))
        .push(field("bytes_written"@, typed("integer"@, "Bytes in the file written after the edit."@)))
        .push(field("changed"@, typed("boolean"@, "Whether file contents changed."@)))
}

fn insert_at_line_output() -> (r: Json)
    ensures
        r@ == wrapped(insert_at_line_fields()),
{
    wrapped_output_schema(
        ObjectBuilder::new()
            .with("path", schema_type("string", "Project-relative path."))
            .with("line", schema_type("integer", "1-based insertion line."))
            .with("old_sha256", schema_type("string", "sha256 of the anchor line, or empty EOF anchor."))
            .with("new_sha256", schema_type("string", "sha256 of the entire file after the edit."))
            .with("old_line_count", schema_type("integer", "Anchor line count: 1 or 0 at EOF."))
            .with("new_line_count", schema_type("integer", "Number of inserted lines."))
            .with("bytes_written", schema_type("integer", "Bytes in the file written after the edit."))
            .with("changed", schema_type("boolean", "Whether file contents changed.")),
    )
}

/// What `replace_exact_block` hands back.
pub open spec fn replace_exact_block_fields() -> Seq<Field> {
    no_fields()
        .push(field("path"@, typed("string"@, "Project-relative path."@)))
        .push(field("bytes_before"@, typed("integer"@, "File size in bytes before edit."@)))
        .push(field("bytes_after"@, typed("integer"@, "File size in bytes after edit."@)))
        .push(field("matches_replaced"@, typed("integer"@, "Literal matches replaced; always 1 on success."@)))
        .push(field("changed"@, typed("boolean"@, "Whether file contents changed."@)))
}

fn replace_exact_block_output() -> (r: Json)
    ensures
        r@ == wrapped(replace_exact_block_fields()),
{
    wrapped_output_schema(
        ObjectBuilder::new()
            .with("path", schema_type("string", "Project-relative path."))
            .with("bytes_before", schema_type("integer", "File size in bytes before edit."))
            .with("bytes_after", schema_type("integer", "File size in bytes after edit."))
            .with("matches_replaced", schema_type("integer", "Literal matches replaced; always 1 on success."))
            .with("changed", schema_type("boolean", "Whether file contents changed.")),
    )
}

/// What `insert_before_pattern` and `insert_after_pattern` hand back.
pub open spec fn insert_before_pattern_fields() -> Seq<Field> {
    no_fields()
        .push(field("path"@, typed("string"@, "Project-relative path."@)))
        .push(field("bytes_before"@, typed("integer"@, "File size in bytes before edit."@)))
        .push(field("bytes_after"@, typed("integer"@, "File size in bytes after edit."@)))
        .push(field("pattern_matches"@, typed("integer"@, "Literal pattern matches; always 1 on success."@)))
        .push(field("changed"@, typed("boolean"@, "Whether file contents changed."@)))
}

fn insert_before_pattern_output() -> (r: Json)
    ensures
        r@ == wrapped(insert_before_pattern_fields()),
{
    wrapped_output_schema(
        ObjectBuilder::new()
            .with("path", schema_type("string", "Project-relative path."))
            .with("bytes_before", schema_type("integer", "File size in bytes before edit."))
            .with("bytes_after", schema_type("integer", "File size in bytes after edit."))
            .with("pattern_matches", schema_type("integer", "Literal pattern matches; always 1 on success."))
            .with("changed", schema_type("boolean", "Whether file contents changed.")),
    )
}

/// The fields of the output of a tool, as far as they are told.
pub open spec fn output_fields(name: Seq<char>) -> Seq<Field> {
    if name == "run_shell"@ {
        run_shell_fields()
    } else if name == "run_job"@ || name == "run_codex"@ {
        run_job_fields()
    } else if name == "job_status"@ {
        job_status_fields()
    } else if name == "job_log"@ {
        job_log_fields()
    } else if name == "runtime_status"@ {
        runtime_status_fields()
    } else if name == "list_projects"@ {
        list_projects_fields()
    } else if name == "list_agents"@ {
        list_agents_fields()
    } else if name == "list_tools"@ {
        list_tools_fields()
    } else if name == "start_session"@ {
        start_session_fields()
    } else if name == "session_summary"@ {
        session_summary_fields()
    } else if name == "read_file"@ {
        read_file_fields()
    } else if name == "read_project_artifact"@ {
        read_project_artifact_fields()
    } else if name == "search_project_text"@ {
        search_project_text_fields()
    } else if name == "git_status"@ || name == "git_diff"@ {
        git_status_fields()
    } else if name == "git_diff_summary"@ {
        git_diff_summary_fields()
    } else if name == "git_diff_hunks"@ {
        git_diff_hunks_fields()
    } else if name == "show_changes"@ {
        show_changes_fields()
    } else if name == "cargo_fmt"@ || name == "cargo_check"@ || name == "cargo_test"@ {
        cargo_fmt_fields()
    } else if name == "apply_patch"@ || name == "apply_patch_checked"@ {
        apply_patch_fields()
    } else if name == "validate_patch"@ {
        validate_patch_fields()
    } else if name == "replace_line_range"@ || name == "delete_line_range"@ {
        replace_line_range_fields()
    } else if name == "insert_at_line"@ {
        insert_at_line_fields()
    } else if name == "replace_exact_block"@ {
        replace_exact_block_fields()
    } else if name == "insert_before_pattern"@ || name == "insert_after_pattern"@ {
        insert_before_pattern_fields()
    } else {
        no_fields()
    }
}

/// The schema of what a tool hands back.
pub fn output_schema_for_tool(name: &str) -> (r: Json)
    ensures
        r@ == wrapped(output_fields(name@)),
{
    if str_eq(name, "run_shell") {
        run_shell_output()
    } else if str_eq(name, "run_job") || str_eq(name, "run_codex") {
        run_job_output()
    } else if str_eq(name, "job_status") {
        job_status_output()
    } else if str_eq(name, "job_log") {
        job_log_output()
    } else if str_eq(name, "runtime_status") {
        runtime_status_output()
    } else if str_eq(name, "list_projects") {
        list_projects_output()
    } else if str_eq(name, "list_agents") {
        list_agents_output()
    } else if str_eq(name, "list_tools") {
        list_tools_output()
    } else if str_eq(name, "start_session") {
        start_session_output()
    } else if str_eq(name, "session_summary") {
        session_summary_output()
    } else if str_eq(name, "read_file") {
        read_file_output()
    } else if str_eq(name, "read_project_artifact") {
        read_project_artifact_output()
    } else if str_eq(name, "search_project_text") {
        search_project_text_output()
    } else if str_eq(name, "git_status") || str_eq(name, "git_diff") {
        git_status_output()
    } else if str_eq(name, "git_diff_summary") {
        git_diff_summary_output()
    } else if str_eq(name, "git_diff_hunks") {
        git_diff_hunks_output()
    } else if str_eq(name, "show_changes") {
        show_changes_output()
    } else if str_eq(name, "cargo_fmt")
        || str_eq(name, "cargo_check")
        || str_eq(name, "cargo_test") {
        cargo_fmt_output()
    } else if str_eq(name, "apply_patch") || str_eq(name, "apply_patch_checked") {
        apply_patch_output()
    } else if str_eq(name, "validate_patch") {
        validate_patch_output()
    } else if str_eq(name, "replace_line_range") || str_eq(name, "delete_line_range") {
        replace_line_range_output()
    } else if str_eq(name, "insert_at_line") {
        insert_at_line_output()
    } else if str_eq(name, "replace_exact_block") {
        replace_exact_block_output()
    } else if str_eq(name, "insert_before_pattern") || str_eq(name, "insert_after_pattern") {
        insert_before_pattern_output()
    } else {
        default_output_schema()
    }
}

} // verus!
