//! The tools that are offered, each with its arguments. Codex is not among them: nobody can
//! have it run from here.
use crate::tool_runtime::schemas::{
    argument, arguments, no_arguments, session_argument, with_optional_session_id, Argument,
};
use vstd::prelude::*;

verus! {

/// What a patch has to be.
pub const PATCH_FIELD_DESCRIPTION: &'static str = "raw standard unified diff only. Do not include Codex apply_patch wrapper syntax, shell heredocs, \"*** Begin Patch\", \"*** Update File\", or \"*** End Patch\". The first non-empty line should be \"diff --git ...\", \"--- ...\", or another git-apply-compatible unified diff header.";

/// A tool that is offered.
#[verifier::ext_equal]
pub struct ToolEntry {
    pub name: Seq<char>,
    pub description: Seq<char>,
    pub arguments: Seq<Argument>,
}

/// A tool that is offered, with its arguments in rows.
pub struct ToolRow {
    pub name: &'static str,
    pub description: &'static str,
    pub arguments: Vec<(&'static str, &'static str, &'static str, bool)>,
}

impl View for ToolRow {
    type V = ToolEntry;

    open spec fn view(&self) -> ToolEntry {
        ToolEntry {
            name: self.name@,
            description: self.description@,
            arguments: arguments(self.arguments@),
        }
    }
}

/// `list_tools`.
pub open spec fn list_tools_entry() -> ToolEntry {
    ToolEntry {
        name: "list_tools"@,
        description: "List tools exposed by this WebCodex runtime."@,
        arguments: no_arguments(),
    }
}

fn list_tools_row() -> (r: ToolRow)
    ensures
        r@ == list_tools_entry(),
{
    let rows: Vec<(&'static str, &'static str, &'static str, bool)> = Vec::new();
    assert(arguments(rows@) =~= list_tools_entry().arguments);
    ToolRow {
        name: "list_tools",
        description: "List tools exposed by this WebCodex runtime.",
        arguments: rows,
    }
}

/// `start_session`.
pub open spec fn start_session_entry() -> ToolEntry {
    ToolEntry {
        name: "start_session"@,
        description: "Start an in-memory task tracking session. Read-only; creates bounded recorder metadata only and never modifies a project."@,
        arguments: no_arguments()
            .push(argument("project"@, "string"@, "Optional runtime project id associated with the task."@, false))
            .push(argument("title"@, "string"@, "Optional human-readable task title."@, false)),
    }
}

fn start_session_row() -> (r: ToolRow)
    ensures
        r@ == start_session_entry(),
{
    let rows: Vec<(&'static str, &'static str, &'static str, bool)> = vec![
        ("project", "string", "Optional runtime project id associated with the task.", false),
        ("title", "string", "Optional human-readable task title.", false),
    ];
    assert(arguments(rows@) =~= start_session_entry().arguments);
    ToolRow {
        name: "start_session",
        description: "Start an in-memory task tracking session. Read-only; creates bounded recorder metadata only and never modifies a project.",
        arguments: rows,
    }
}

/// `session_summary`.
pub open spec fn session_summary_entry() -> ToolEntry {
    ToolEntry {
        name: "session_summary"@,
        description: "Return a bounded structured summary of tool calls recorded for a session. In-memory only; events are lost on restart."@,
        arguments: no_arguments()
            .push(argument("session_id"@, "string"@, "Opaque session id returned by start_session."@, true))
            .push(argument("limit"@, "integer"@, "Maximum recent events to return, capped by the runtime."@, false)),
    }
}

fn session_summary_row() -> (r: ToolRow)
    ensures
        r@ == session_summary_entry(),
{
    let rows: Vec<(&'static str, &'static str, &'static str, bool)> = vec![
        ("session_id", "string", "Opaque session id returned by start_session.", true),
        ("limit", "integer", "Maximum recent events to return, capped by the runtime.", false),
    ];
    assert(arguments(rows@) =~= session_summary_entry().arguments);
    ToolRow {
        name: "session_summary",
        description: "Return a bounded structured summary of tool calls recorded for a session. In-memory only; events are lost on restart.",
        arguments: rows,
    }
}

/// `list_projects`.
pub open spec fn list_projects_entry() -> ToolEntry {
    ToolEntry {
        name: "list_projects"@,
        description: "List agent-registered runtime projects and their execution mode."@,
        arguments: no_arguments(),
    }
}

fn list_projects_row() -> (r: ToolRow)
    ensures
        r@ == list_projects_entry(),
{
    let rows: Vec<(&'static str, &'static str, &'static str, bool)> = Vec::new();
    assert(arguments(rows@) =~= list_projects_entry().arguments);
    ToolRow {
        name: "list_projects",
        description: "List agent-registered runtime projects and their execution mode.",
        arguments: rows,
    }
}

/// `register_project`.
pub open spec fn register_project_entry() -> ToolEntry {
    ToolEntry {
        name: "register_project"@,
        description: "Register an existing directory as a WebCodex project on a selected agent. Mutation with side effects; constrained by agent policy. The agent validates the path, writes projects_dir/<id>.toml atomically, and refreshes its project list. Requires Bearer auth."@,
        arguments: no_arguments()
            .push(argument("client_id"@, "string"@, "Registered agent client_id."@, true))
            .push(argument("id"@, "string"@, "Project id (ASCII letters, digits, '-', '_'; no slash)."@, true))
            .push(argument("name"@, "string"@, "Human-readable project name."@, true))
            .push(argument("path"@, "string"@, "Absolute directory path on the agent host."@, true))
            .push(argument("description"@, "string"@, "Optional project description."@, false))
            .push(argument("allow_patch"@, "boolean"@, "Allow patch operations on this project (default true)."@, false))
            .push(argument("overwrite"@, "boolean"@, "Overwrite an existing project config file (default false)."@, false)),
    }
}

fn register_project_row() -> (r: ToolRow)
    ensures
        r@ == register_project_entry(),
{
    let rows: Vec<(&'static str, &'static str, &'static str, bool)> = vec![
        ("client_id", "string", "Registered agent client_id.", true),
        ("id", "string", "Project id (ASCII letters, digits, '-', '_'; no slash).", true),
        ("name", "string", "Human-readable project name.", true),
        ("path", "string", "Absolute directory path on the agent host.", true),
        ("description", "string", "Optional project description.", false),
        ("allow_patch", "boolean", "Allow patch operations on this project (default true).", false),
        ("overwrite", "boolean", "Overwrite an existing project config file (default false).", false),
    ];
    assert(arguments(rows@) =~= register_project_entry().arguments);
    ToolRow {
        name: "register_project",
        description: "Register an existing directory as a WebCodex project on a selected agent. Mutation with side effects; constrained by agent policy. The agent validates the path, writes projects_dir/<id>.toml atomically, and refreshes its project list. Requires Bearer auth.",
        arguments: rows,
    }
}

/// `create_project`.
pub open spec fn create_project_entry() -> ToolEntry {
    ToolEntry {
        name: "create_project"@,
        description: "Create a new directory on the selected agent and register it as a WebCodex project. Mutation with side effects; constrained by agent policy. Creates directory, optional template, optional git init, writes projects_dir/<id>.toml atomically. Requires Bearer auth."@,
        arguments: no_arguments()
            .push(argument("client_id"@, "string"@, "Registered agent client_id."@, true))
            .push(argument("id"@, "string"@, "Project id (ASCII letters, digits, '-', '_'; no slash)."@, true))
            .push(argument("name"@, "string"@, "Human-readable project name."@, true))
            .push(argument("path"@, "string"@, "Absolute directory path on the agent host."@, true))
            .push(argument("description"@, "string"@, "Optional project description."@, false))
            .push(argument("allow_patch"@, "boolean"@, "Allow patch operations on this project (default true)."@, false))
            .push(argument("template"@, "string"@, "Template: 'empty' (default) or 'basic'."@, false))
            .push(argument("git_init"@, "boolean"@, "Initialize git in the new directory (default false)."@, false))
            .push(argument("allow_existing_empty"@, "boolean"@, "Allow registering an existing empty directory (default false)."@, false))
            .push(argument("overwrite"@, "boolean"@, "Overwrite an existing project config file (default false)."@, false)),
    }
}

fn create_project_row() -> (r: ToolRow)
    ensures
        r@ == create_project_entry(),
{
    let rows: Vec<(&'static str, &'static str, &'static str, bool)> = vec![
        ("client_id", "string", "Registered agent client_id.", true),
        ("id", "string", "Project id (ASCII letters, digits, '-', '_'; no slash).", true),
        ("name", "string", "Human-readable project name.", true),
        ("path", "string", "Absolute directory path on the agent host.", true),
        ("description", "string", "Optional project description.", false),
        ("allow_patch", "boolean", "Allow patch operations on this project (default true).", false),
        ("template", "string", "Template: 'empty' (default) or 'basic'.", false),
        ("git_init", "boolean", "Initialize git in the new directory (default false).", false),
        ("allow_existing_empty", "boolean", "Allow registering an existing empty directory (default false).", false),
        ("overwrite", "boolean", "Overwrite an existing project config file (default false).", false),
    ];
    assert(arguments(rows@) =~= create_project_entry().arguments);
    ToolRow {
        name: "create_project",
        description: "Create a new directory on the selected agent and register it as a WebCodex project. Mutation with side effects; constrained by agent policy. Creates directory, optional template, optional git init, writes projects_dir/<id>.toml atomically. Requires Bearer auth.",
        arguments: rows,
    }
}

/// `list_agents`.
pub open spec fn list_agents_entry() -> ToolEntry {
    ToolEntry {
        name: "list_agents"@,
        description: "List connected local/remote execution agents."@,
        arguments: no_arguments(),
    }
}

fn list_agents_row() -> (r: ToolRow)
    ensures
        r@ == list_agents_entry(),
{
    let rows: Vec<(&'static str, &'static str, &'static str, bool)> = Vec::new();
    assert(arguments(rows@) =~= list_agents_entry().arguments);
    ToolRow {
        name: "list_agents",
        description: "List connected local/remote execution agents.",
        arguments: rows,
    }
}

/// `runtime_status`.
pub open spec fn runtime_status_entry() -> ToolEntry {
    ToolEntry {
        name: "runtime_status"@,
        description: "Return a structured runtime health/observability summary (service metadata, projects config status, agent client summaries, and job counts). Read-only; never exposes tokens, secrets, full env, or stdout/stderr."@,
        arguments: no_arguments(),
    }
}

fn runtime_status_row() -> (r: ToolRow)
    ensures
        r@ == runtime_status_entry(),
{
    let rows: Vec<(&'static str, &'static str, &'static str, bool)> = Vec::new();
    assert(arguments(rows@) =~= runtime_status_entry().arguments);
    ToolRow {
        name: "runtime_status",
        description: "Return a structured runtime health/observability summary (service metadata, projects config status, agent client summaries, and job counts). Read-only; never exposes tokens, secrets, full env, or stdout/stderr.",
        arguments: rows,
    }
}

/// `run_shell`.
pub open spec fn run_shell_entry() -> ToolEntry {
    ToolEntry {
        name: "run_shell"@,
        description: "Run checks, builds, tests, read-only diagnostics, or necessary commands in a project. Do not use as the primary project file editing path; prefer structured line edit tools for source edits."@,
        arguments: no_arguments()
            .push(argument("project"@, "string"@, "Configured project id."@, true))
            .push(argument("command"@, "string"@, "Shell command to run."@, true))
            .push(argument("timeout_secs"@, "integer"@, "Command timeout in seconds."@, false))
            .push(argument("cwd"@, "string"@, "Optional project-relative working directory."@, false))
            .push(session_argument()),
    }
}

fn run_shell_row() -> (r: ToolRow)
    ensures
        r@ == run_shell_entry(),
{
    let own: Vec<(&'static str, &'static str, &'static str, bool)> = vec![
        ("project", "string", "Configured project id.", true),
        ("command", "string", "Shell command to run.", true),
        ("timeout_secs", "integer", "Command timeout in seconds.", false),
        ("cwd", "string", "Optional project-relative working directory.", false),
    ];
    assert(arguments(own@) =~= run_shell_entry().arguments.drop_last());
    let rows = with_optional_session_id(own);
    assert(arguments(rows@) =~= run_shell_entry().arguments);
    ToolRow {
        name: "run_shell",
        description: "Run checks, builds, tests, read-only diagnostics, or necessary commands in a project. Do not use as the primary project file editing path; prefer structured line edit tools for source edits.",
        arguments: rows,
    }
}

/// `run_job`.
pub open spec fn run_job_entry() -> ToolEntry {
    ToolEntry {
        name: "run_job"@,
        description: "Start an asynchronous shell job inside an agent-registered project."@,
        arguments: no_arguments()
            .push(argument("project"@, "string"@, "Configured project id."@, true))
            .push(argument("command"@, "string"@, "Shell command to run asynchronously."@, true))
            .push(argument("timeout_secs"@, "integer"@, "Maximum runtime in seconds."@, false))
            .push(argument("cwd"@, "string"@, "Optional project-relative working directory."@, false))
            .push(session_argument()),
    }
}

fn run_job_row() -> (r: ToolRow)
    ensures
        r@ == run_job_entry(),
{
    let own: Vec<(&'static str, &'static str, &'static str, bool)> = vec![
        ("project", "string", "Configured project id.", true),
        ("command", "string", "Shell command to run asynchronously.", true),
        ("timeout_secs", "integer", "Maximum runtime in seconds.", false),
        ("cwd", "string", "Optional project-relative working directory.", false),
    ];
    assert(arguments(own@) =~= run_job_entry().arguments.drop_last());
    let rows = with_optional_session_id(own);
    assert(arguments(rows@) =~= run_job_entry().arguments);
    ToolRow {
        name: "run_job",
        description: "Start an asynchronous shell job inside an agent-registered project.",
        arguments: rows,
    }
}

/// `job_status`.
pub open spec fn job_status_entry() -> ToolEntry {
    ToolEntry {
        name: "job_status"@,
        description: "Get status for a runtime job."@,
        arguments: no_arguments()
            .push(argument("job_id"@, "string"@, "Job id."@, true)),
    }
}

fn job_status_row() -> (r: ToolRow)
    ensures
        r@ == job_status_entry(),
{
    let rows: Vec<(&'static str, &'static str, &'static str, bool)> = vec![
        ("job_id", "string", "Job id.", true),
    ];
    assert(arguments(rows@) =~= job_status_entry().arguments);
    ToolRow {
        name: "job_status",
        description: "Get status for a runtime job.",
        arguments: rows,
    }
}

/// `job_log`.
pub open spec fn job_log_entry() -> ToolEntry {
    ToolEntry {
        name: "job_log"@,
        description: "Read stdout/stderr for a runtime job."@,
        arguments: no_arguments()
            .push(argument("job_id"@, "string"@, "Job id."@, true))
            .push(argument("offset"@, "integer"@, "Optional 1-based stdout line cursor."@, false))
            .push(argument("tail_lines"@, "integer"@, "Optional number of trailing stdout lines to return."@, false)),
    }
}

fn job_log_row() -> (r: ToolRow)
    ensures
        r@ == job_log_entry(),
{
    let rows: Vec<(&'static str, &'static str, &'static str, bool)> = vec![
        ("job_id", "string", "Job id.", true),
        ("offset", "integer", "Optional 1-based stdout line cursor.", false),
        ("tail_lines", "integer", "Optional number of trailing stdout lines to return.", false),
    ];
    assert(arguments(rows@) =~= job_log_entry().arguments);
    ToolRow {
        name: "job_log",
        description: "Read stdout/stderr for a runtime job.",
        arguments: rows,
    }
}

/// `list_project_files`.
pub open spec fn list_project_files_entry() -> ToolEntry {
    ToolEntry {
        name: "list_project_files"@,
        description: "List files in an agent-registered project directory (bounded, read-only). Returns project-relative paths plus a file/dir kind. Routed to the owning registered agent; the server never reads the agent project path directly."@,
        arguments: no_arguments()
            .push(argument("project"@, "string"@, "Agent-registered project id."@, true))
            .push(argument("path"@, "string"@, "Optional project-relative directory to list (default: project root)."@, false))
            .push(argument("limit"@, "integer"@, "Maximum number of entries to return."@, false))
            .push(session_argument()),
    }
}

fn list_project_files_row() -> (r: ToolRow)
    ensures
        r@ == list_project_files_entry(),
{
    let own: Vec<(&'static str, &'static str, &'static str, bool)> = vec![
        ("project", "string", "Agent-registered project id.", true),
        ("path", "string", "Optional project-relative directory to list (default: project root).", false),
        ("limit", "integer", "Maximum number of entries to return.", false),
    ];
    assert(arguments(own@) =~= list_project_files_entry().arguments.drop_last());
    let rows = with_optional_session_id(own);
    assert(arguments(rows@) =~= list_project_files_entry().arguments);
    ToolRow {
        name: "list_project_files",
        description: "List files in an agent-registered project directory (bounded, read-only). Returns project-relative paths plus a file/dir kind. Routed to the owning registered agent; the server never reads the agent project path directly.",
        arguments: rows,
    }
}

/// `search_project_text`.
pub open spec fn search_project_text_entry() -> ToolEntry {
    ToolEntry {
        name: "search_project_text"@,
        description: "Search text inside an agent-registered project (bounded matches). Each match carries a project-relative path, 1-based line number, and a preview line. Sensitive/build directories (.git, target, node_modules) are excluded by default."@,
        arguments: no_arguments()
            .push(argument("project"@, "string"@, "Agent-registered project id."@, true))
            .push(argument("pattern"@, "string"@, "Text pattern to search for."@, true))
            .push(argument("path"@, "string"@, "Optional project-relative directory to scope the search (default: project root)."@, false))
            .push(argument("limit"@, "integer"@, "Maximum number of matches to return."@, false))
            .push(argument("context_before"@, "integer"@, "Optional number of context lines before each match (clamped to 20)."@, false))
            .push(argument("context_after"@, "integer"@, "Optional number of context lines after each match (clamped to 20)."@, false))
            .push(session_argument()),
    }
}

fn search_project_text_row() -> (r: ToolRow)
    ensures
        r@ == search_project_text_entry(),
{
    let own: Vec<(&'static str, &'static str, &'static str, bool)> = vec![
        ("project", "string", "Agent-registered project id.", true),
        ("pattern", "string", "Text pattern to search for.", true),
        ("path", "string", "Optional project-relative directory to scope the search (default: project root).", false),
        ("limit", "integer", "Maximum number of matches to return.", false),
        ("context_before", "integer", "Optional number of context lines before each match (clamped to 20).", false),
        ("context_after", "integer", "Optional number of context lines after each match (clamped to 20).", false),
    ];
    assert(arguments(own@) =~= search_project_text_entry().arguments.drop_last());
    let rows = with_optional_session_id(own);
    assert(arguments(rows@) =~= search_project_text_entry().arguments);
    ToolRow {
        name: "search_project_text",
        description: "Search text inside an agent-registered project (bounded matches). Each match carries a project-relative path, 1-based line number, and a preview line. Sensitive/build directories (.git, target, node_modules) are excluded by default.",
        arguments: rows,
    }
}

/// `git_diff_summary`.
pub open spec fn git_diff_summary_entry() -> ToolEntry {
    ToolEntry {
        name: "git_diff_summary"@,
        description: "Read-only git diff summary for a project: `git status --porcelain`, `git diff --stat`, and a parsed changed-file list. Does not modify the worktree."@,
        arguments: no_arguments()
            .push(argument("project"@, "string"@, "Agent-registered project id."@, true))
            .push(session_argument()),
    }
}

fn git_diff_summary_row() -> (r: ToolRow)
    ensures
        r@ == git_diff_summary_entry(),
{
    let own: Vec<(&'static str, &'static str, &'static str, bool)> = vec![
        ("project", "string", "Agent-registered project id.", true),
    ];
    assert(arguments(own@) =~= git_diff_summary_entry().arguments.drop_last());
    let rows = with_optional_session_id(own);
    assert(arguments(rows@) =~= git_diff_summary_entry().arguments);
    ToolRow {
        name: "git_diff_summary",
        description: "Read-only git diff summary for a project: `git status --porcelain`, `git diff --stat`, and a parsed changed-file list. Does not modify the worktree.",
        arguments: rows,
    }
}

/// `show_changes`.
pub open spec fn show_changes_entry() -> ToolEntry {
    ToolEntry {
        name: "show_changes"@,
        description: "Read-only git worktree and optional session activity summary for task review. Reports status, warnings, next actions, bounded hunks, and never modifies the worktree."@,
        arguments: no_arguments()
            .push(argument("project"@, "string"@, "Agent-registered project id."@, true))
            .push(argument("session_id"@, "string"@, "Optional wc_sess_* id to summarize with the git changes."@, false))
            .push(argument("include_diff"@, "boolean"@, "Include bounded diff hunks (default false)."@, false))
            .push(argument("max_hunks"@, "integer"@, "Maximum hunks to return when include_diff=true (clamped)."@, false))
            .push(argument("max_hunk_lines"@, "integer"@, "Maximum lines per hunk when include_diff=true (clamped)."@, false))
            .push(argument("session_event_limit"@, "integer"@, "Maximum recent session events to include (clamped)."@, false))
            .push(session_argument()),
    }
}

fn show_changes_row() -> (r: ToolRow)
    ensures
        r@ == show_changes_entry(),
{
    let own: Vec<(&'static str, &'static str, &'static str, bool)> = vec![
        ("project", "string", "Agent-registered project id.", true),
        ("session_id", "string", "Optional wc_sess_* id to summarize with the git changes.", false),
        ("include_diff", "boolean", "Include bounded diff hunks (default false).", false),
        ("max_hunks", "integer", "Maximum hunks to return when include_diff=true (clamped).", false),
        ("max_hunk_lines", "integer", "Maximum lines per hunk when include_diff=true (clamped).", false),
        ("session_event_limit", "integer", "Maximum recent session events to include (clamped).", false),
    ];
    assert(arguments(own@) =~= show_changes_entry().arguments.drop_last());
    let rows = with_optional_session_id(own);
    assert(arguments(rows@) =~= show_changes_entry().arguments);
    ToolRow {
        name: "show_changes",
        description: "Read-only git worktree and optional session activity summary for task review. Reports status, warnings, next actions, bounded hunks, and never modifies the worktree.",
        arguments: rows,
    }
}

/// `list_jobs`.
pub open spec fn list_jobs_entry() -> ToolEntry {
    ToolEntry {
        name: "list_jobs"@,
        description: "List bounded runtime job summaries across agent and local executors. Never returns stdout/stderr bodies — only metadata (job_id, kind, status, project, timestamps, exit_code)."@,
        arguments: no_arguments()
            .push(argument("limit"@, "integer"@, "Maximum number of job summaries to return."@, false))
            .push(argument("status"@, "string"@, "Optional status filter (e.g. running, completed, failed)."@, false)),
    }
}

fn list_jobs_row() -> (r: ToolRow)
    ensures
        r@ == list_jobs_entry(),
{
    let rows: Vec<(&'static str, &'static str, &'static str, bool)> = vec![
        ("limit", "integer", "Maximum number of job summaries to return.", false),
        ("status", "string", "Optional status filter (e.g. running, completed, failed).", false),
    ];
    assert(arguments(rows@) =~= list_jobs_entry().arguments);
    ToolRow {
        name: "list_jobs",
        description: "List bounded runtime job summaries across agent and local executors. Never returns stdout/stderr bodies — only metadata (job_id, kind, status, project, timestamps, exit_code).",
        arguments: rows,
    }
}

/// `job_tail`.
pub open spec fn job_tail_entry() -> ToolEntry {
    ToolEntry {
        name: "job_tail"@,
        description: "Return bounded stdout/stderr tails for a job."@,
        arguments: no_arguments()
            .push(argument("job_id"@, "string"@, "Job id."@, true))
            .push(argument("tail_lines"@, "integer"@, "Optional number of trailing lines to return per stream."@, false)),
    }
}

fn job_tail_row() -> (r: ToolRow)
    ensures
        r@ == job_tail_entry(),
{
    let rows: Vec<(&'static str, &'static str, &'static str, bool)> = vec![
        ("job_id", "string", "Job id.", true),
        ("tail_lines", "integer", "Optional number of trailing lines to return per stream.", false),
    ];
    assert(arguments(rows@) =~= job_tail_entry().arguments);
    ToolRow {
        name: "job_tail",
        description: "Return bounded stdout/stderr tails for a job.",
        arguments: rows,
    }
}

/// `read_file`.
pub open spec fn read_file_entry() -> ToolEntry {
    ToolEntry {
        name: "read_file"@,
        description: "Read a UTF-8 file from an agent-registered project."@,
        arguments: no_arguments()
            .push(argument("project"@, "string"@, "Configured project id."@, true))
            .push(argument("path"@, "string"@, "Project-relative file path."@, true))
            .push(argument("start_line"@, "integer"@, "1-based line offset."@, false))
            .push(argument("limit"@, "integer"@, "Maximum line count."@, false))
            .push(argument("with_line_numbers"@, "boolean"@, "When true, include numbered_text and lines with 1-based line numbers."@, false))
            .push(session_argument()),
    }
}

fn read_file_row() -> (r: ToolRow)
    ensures
        r@ == read_file_entry(),
{
    let own: Vec<(&'static str, &'static str, &'static str, bool)> = vec![
        ("project", "string", "Configured project id.", true),
        ("path", "string", "Project-relative file path.", true),
        ("start_line", "integer", "1-based line offset.", false),
        ("limit", "integer", "Maximum line count.", false),
        ("with_line_numbers", "boolean", "When true, include numbered_text and lines with 1-based line numbers.", false),
    ];
    assert(arguments(own@) =~= read_file_entry().arguments.drop_last());
    let rows = with_optional_session_id(own);
    assert(arguments(rows@) =~= read_file_entry().arguments);
    ToolRow {
        name: "read_file",
        description: "Read a UTF-8 file from an agent-registered project.",
        arguments: rows,
    }
}

/// `git_status`.
pub open spec fn git_status_entry() -> ToolEntry {
    ToolEntry {
        name: "git_status"@,
        description: "Run git status --porcelain for a project."@,
        arguments: no_arguments()
            .push(argument("project"@, "string"@, "Configured project id."@, true))
            .push(session_argument()),
    }
}

fn git_status_row() -> (r: ToolRow)
    ensures
        r@ == git_status_entry(),
{
    let own: Vec<(&'static str, &'static str, &'static str, bool)> = vec![
        ("project", "string", "Configured project id.", true),
    ];
    assert(arguments(own@) =~= git_status_entry().arguments.drop_last());
    let rows = with_optional_session_id(own);
    assert(arguments(rows@) =~= git_status_entry().arguments);
    ToolRow {
        name: "git_status",
        description: "Run git status --porcelain for a project.",
        arguments: rows,
    }
}

/// `git_diff`.
pub open spec fn git_diff_entry() -> ToolEntry {
    ToolEntry {
        name: "git_diff"@,
        description: "Run git diff for a project, optionally scoped to paths."@,
        arguments: no_arguments()
            .push(argument("project"@, "string"@, "Configured project id."@, true))
            .push(argument("args"@, "array"@, "Optional path list."@, false))
            .push(session_argument()),
    }
}

fn git_diff_row() -> (r: ToolRow)
    ensures
        r@ == git_diff_entry(),
{
    let own: Vec<(&'static str, &'static str, &'static str, bool)> = vec![
        ("project", "string", "Configured project id.", true),
        ("args", "array", "Optional path list.", false),
    ];
    assert(arguments(own@) =~= git_diff_entry().arguments.drop_last());
    let rows = with_optional_session_id(own);
    assert(arguments(rows@) =~= git_diff_entry().arguments);
    ToolRow {
        name: "git_diff",
        description: "Run git diff for a project, optionally scoped to paths.",
        arguments: rows,
    }
}

/// `git_diff_hunks`.
pub open spec fn git_diff_hunks_entry() -> ToolEntry {
    ToolEntry {
        name: "git_diff_hunks"@,
        description: "Return bounded structured git diff hunks for review. Supports optional paths and cached diff; does not modify the worktree."@,
        arguments: no_arguments()
            .push(argument("project"@, "string"@, "Agent-registered project id."@, true))
            .push(argument("paths"@, "array"@, "Optional project-relative paths to scope diff."@, false))
            .push(argument("max_hunks"@, "integer"@, "Maximum hunks to return (clamped)."@, false))
            .push(argument("max_hunk_lines"@, "integer"@, "Maximum lines per hunk (clamped)."@, false))
            .push(argument("cached"@, "boolean"@, "Use staged diff via git diff --cached."@, false))
            .push(session_argument()),
    }
}

fn git_diff_hunks_row() -> (r: ToolRow)
    ensures
        r@ == git_diff_hunks_entry(),
{
    let own: Vec<(&'static str, &'static str, &'static str, bool)> = vec![
        ("project", "string", "Agent-registered project id.", true),
        ("paths", "array", "Optional project-relative paths to scope diff.", false),
        ("max_hunks", "integer", "Maximum hunks to return (clamped).", false),
        ("max_hunk_lines", "integer", "Maximum lines per hunk (clamped).", false),
        ("cached", "boolean", "Use staged diff via git diff --cached.", false),
    ];
    assert(arguments(own@) =~= git_diff_hunks_entry().arguments.drop_last());
    let rows = with_optional_session_id(own);
    assert(arguments(rows@) =~= git_diff_hunks_entry().arguments);
    ToolRow {
        name: "git_diff_hunks",
        description: "Return bounded structured git diff hunks for review. Supports optional paths and cached diff; does not modify the worktree.",
        arguments: rows,
    }
}

/// `cargo_fmt`.
pub open spec fn cargo_fmt_entry() -> ToolEntry {
    ToolEntry {
        name: "cargo_fmt"@,
        description: "Run cargo fmt in an agent-registered project. Use check=true for cargo fmt -- --check before broader validation."@,
        arguments: no_arguments()
            .push(argument("project"@, "string"@, "Agent-registered project id."@, true))
            .push(argument("cwd"@, "string"@, "Optional project-relative working directory."@, false))
            .push(argument("check"@, "boolean"@, "Run cargo fmt -- --check instead of formatting."@, false))
            .push(argument("timeout_secs"@, "integer"@, "Command timeout in seconds."@, false))
            .push(session_argument()),
    }
}

fn cargo_fmt_row() -> (r: ToolRow)
    ensures
        r@ == cargo_fmt_entry(),
{
    let own: Vec<(&'static str, &'static str, &'static str, bool)> = vec![
        ("project", "string", "Agent-registered project id.", true),
        ("cwd", "string", "Optional project-relative working directory.", false),
        ("check", "boolean", "Run cargo fmt -- --check instead of formatting.", false),
        ("timeout_secs", "integer", "Command timeout in seconds.", false),
    ];
    assert(arguments(own@) =~= cargo_fmt_entry().arguments.drop_last());
    let rows = with_optional_session_id(own);
    assert(arguments(rows@) =~= cargo_fmt_entry().arguments);
    ToolRow {
        name: "cargo_fmt",
        description: "Run cargo fmt in an agent-registered project. Use check=true for cargo fmt -- --check before broader validation.",
        arguments: rows,
    }
}

/// `cargo_check`.
pub open spec fn cargo_check_entry() -> ToolEntry {
    ToolEntry {
        name: "cargo_check"@,
        description: "Run structured cargo check. Defaults to --all-targets; supports features/package/cwd without shell interpolation."@,
        arguments: no_arguments()
            .push(argument("project"@, "string"@, "Agent-registered project id."@, true))
            .push(argument("cwd"@, "string"@, "Optional project-relative working directory."@, false))
            .push(argument("all_targets"@, "boolean"@, "Include --all-targets (default true)."@, false))
            .push(argument("all_features"@, "boolean"@, "Include --all-features."@, false))
            .push(argument("no_default_features"@, "boolean"@, "Include --no-default-features."@, false))
            .push(argument("features"@, "string"@, "Feature list passed to --features."@, false))
            .push(argument("package"@, "string"@, "Package passed to -p."@, false))
            .push(argument("timeout_secs"@, "integer"@, "Command timeout in seconds."@, false))
            .push(session_argument()),
    }
}

fn cargo_check_row() -> (r: ToolRow)
    ensures
        r@ == cargo_check_entry(),
{
    let own: Vec<(&'static str, &'static str, &'static str, bool)> = vec![
        ("project", "string", "Agent-registered project id.", true),
        ("cwd", "string", "Optional project-relative working directory.", false),
        ("all_targets", "boolean", "Include --all-targets (default true).", false),
        ("all_features", "boolean", "Include --all-features.", false),
        ("no_default_features", "boolean", "Include --no-default-features.", false),
        ("features", "string", "Feature list passed to --features.", false),
        ("package", "string", "Package passed to -p.", false),
        ("timeout_secs", "integer", "Command timeout in seconds.", false),
    ];
    assert(arguments(own@) =~= cargo_check_entry().arguments.drop_last());
    let rows = with_optional_session_id(own);
    assert(arguments(rows@) =~= cargo_check_entry().arguments);
    ToolRow {
        name: "cargo_check",
        description: "Run structured cargo check. Defaults to --all-targets; supports features/package/cwd without shell interpolation.",
        arguments: rows,
    }
}

/// `cargo_test`.
pub open spec fn cargo_test_entry() -> ToolEntry {
    ToolEntry {
        name: "cargo_test"@,
        description: "Run structured cargo test. Supports optional filter, feature flags, package, --no-run, and bounded output tails."@,
        arguments: no_arguments()
            .push(argument("project"@, "string"@, "Agent-registered project id."@, true))
            .push(argument("cwd"@, "string"@, "Optional project-relative working directory."@, false))
            .push(argument("filter"@, "string"@, "Optional cargo test filter."@, false))
            .push(argument("all_targets"@, "boolean"@, "Include --all-targets."@, false))
            .push(argument("all_features"@, "boolean"@, "Include --all-features."@, false))
            .push(argument("no_default_features"@, "boolean"@, "Include --no-default-features."@, false))
            .push(argument("features"@, "string"@, "Feature list passed to --features."@, false))
            .push(argument("package"@, "string"@, "Package passed to -p."@, false))
            .push(argument("no_run"@, "boolean"@, "Include --no-run."@, false))
            .push(argument("timeout_secs"@, "integer"@, "Command timeout in seconds."@, false))
            .push(session_argument()),
    }
}

fn cargo_test_row() -> (r: ToolRow)
    ensures
        r@ == cargo_test_entry(),
{
    let own: Vec<(&'static str, &'static str, &'static str, bool)> = vec![
        ("project", "string", "Agent-registered project id.", true),
        ("cwd", "string", "Optional project-relative working directory.", false),
        ("filter", "string", "Optional cargo test filter.", false),
        ("all_targets", "boolean", "Include --all-targets.", false),
        ("all_features", "boolean", "Include --all-features.", false),
        ("no_default_features", "boolean", "Include --no-default-features.", false),
        ("features", "string", "Feature list passed to --features.", false),
        ("package", "string", "Package passed to -p.", false),
        ("no_run", "boolean", "Include --no-run.", false),
        ("timeout_secs", "integer", "Command timeout in seconds.", false),
    ];
    assert(arguments(own@) =~= cargo_test_entry().arguments.drop_last());
    let rows = with_optional_session_id(own);
    assert(arguments(rows@) =~= cargo_test_entry().arguments);
    ToolRow {
        name: "cargo_test",
        description: "Run structured cargo test. Supports optional filter, feature flags, package, --no-run, and bounded output tails.",
        arguments: rows,
    }
}

/// `apply_patch`.
pub open spec fn apply_patch_entry() -> ToolEntry {
    ToolEntry {
        name: "apply_patch"@,
        description: "Apply a unified diff patch to an agent-registered project."@,
        arguments: no_arguments()
            .push(argument("project"@, "string"@, "Configured project id."@, true))
            .push(argument("patch"@, "string"@, PATCH_FIELD_DESCRIPTION@, true))
            .push(session_argument()),
    }
}

fn apply_patch_row() -> (r: ToolRow)
    ensures
        r@ == apply_patch_entry(),
{
    let own: Vec<(&'static str, &'static str, &'static str, bool)> = vec![
        ("project", "string", "Configured project id.", true),
        ("patch", "string", PATCH_FIELD_DESCRIPTION, true),
    ];
    assert(arguments(own@) =~= apply_patch_entry().arguments.drop_last());
    let rows = with_optional_session_id(own);
    assert(arguments(rows@) =~= apply_patch_entry().arguments);
    ToolRow {
        name: "apply_patch",
        description: "Apply a unified diff patch to an agent-registered project.",
        arguments: rows,
    }
}

/// `apply_patch_checked`.
pub open spec fn apply_patch_checked_entry() -> ToolEntry {
    ToolEntry {
        name: "apply_patch_checked"@,
        description: "Validate/apply a unified diff and return a diff summary. Best for broad or multi-file patches; for local line edits prefer structured line edit tools."@,
        arguments: no_arguments()
            .push(argument("project"@, "string"@, "Agent-registered project id."@, true))
            .push(argument("patch"@, "string"@, PATCH_FIELD_DESCRIPTION@, true))
            .push(argument("deny_sensitive_paths"@, "boolean"@, "Block sensitive path warnings before applying."@, false))
            .push(session_argument()),
    }
}

fn apply_patch_checked_row() -> (r: ToolRow)
    ensures
        r@ == apply_patch_checked_entry(),
{
    let own: Vec<(&'static str, &'static str, &'static str, bool)> = vec![
        ("project", "string", "Agent-registered project id.", true),
        ("patch", "string", PATCH_FIELD_DESCRIPTION, true),
        ("deny_sensitive_paths", "boolean", "Block sensitive path warnings before applying.", false),
    ];
    assert(arguments(own@) =~= apply_patch_checked_entry().arguments.drop_last());
    let rows = with_optional_session_id(own);
    assert(arguments(rows@) =~= apply_patch_checked_entry().arguments);
    ToolRow {
        name: "apply_patch_checked",
        description: "Validate/apply a unified diff and return a diff summary. Best for broad or multi-file patches; for local line edits prefer structured line edit tools.",
        arguments: rows,
    }
}

/// `delete_project_files`.
pub open spec fn delete_project_files_entry() -> ToolEntry {
    ToolEntry {
        name: "delete_project_files"@,
        description: "Delete selected project-relative files only; safer than arbitrary rm for cleanup."@,
        arguments: no_arguments()
            .push(argument("project"@, "string"@, "Agent-registered project id."@, true))
            .push(argument("paths"@, "array"@, "Project-relative file paths to delete."@, true))
            .push(session_argument()),
    }
}

fn delete_project_files_row() -> (r: ToolRow)
    ensures
        r@ == delete_project_files_entry(),
{
    let own: Vec<(&'static str, &'static str, &'static str, bool)> = vec![
        ("project", "string", "Agent-registered project id.", true),
        ("paths", "array", "Project-relative file paths to delete.", true),
    ];
    assert(arguments(own@) =~= delete_project_files_entry().arguments.drop_last());
    let rows = with_optional_session_id(own);
    assert(arguments(rows@) =~= delete_project_files_entry().arguments);
    ToolRow {
        name: "delete_project_files",
        description: "Delete selected project-relative files only; safer than arbitrary rm for cleanup.",
        arguments: rows,
    }
}

/// `git_restore_paths`.
pub open spec fn git_restore_paths_entry() -> ToolEntry {
    ToolEntry {
        name: "git_restore_paths"@,
        description: "Restore selected tracked paths with git restore; does not remove untracked files."@,
        arguments: no_arguments()
            .push(argument("project"@, "string"@, "Agent-registered project id."@, true))
            .push(argument("paths"@, "array"@, "Project-relative tracked paths to restore."@, true))
            .push(session_argument()),
    }
}

fn git_restore_paths_row() -> (r: ToolRow)
    ensures
        r@ == git_restore_paths_entry(),
{
    let own: Vec<(&'static str, &'static str, &'static str, bool)> = vec![
        ("project", "string", "Agent-registered project id.", true),
        ("paths", "array", "Project-relative tracked paths to restore.", true),
    ];
    assert(arguments(own@) =~= git_restore_paths_entry().arguments.drop_last());
    let rows = with_optional_session_id(own);
    assert(arguments(rows@) =~= git_restore_paths_entry().arguments);
    ToolRow {
        name: "git_restore_paths",
        description: "Restore selected tracked paths with git restore; does not remove untracked files.",
        arguments: rows,
    }
}

/// `discard_untracked`.
pub open spec fn discard_untracked_entry() -> ToolEntry {
    ToolEntry {
        name: "discard_untracked"@,
        description: "Discard selected untracked files with git clean -f -- <paths>."@,
        arguments: no_arguments()
            .push(argument("project"@, "string"@, "Agent-registered project id."@, true))
            .push(argument("paths"@, "array"@, "Project-relative untracked paths to remove."@, true))
            .push(session_argument()),
    }
}

fn discard_untracked_row() -> (r: ToolRow)
    ensures
        r@ == discard_untracked_entry(),
{
    let own: Vec<(&'static str, &'static str, &'static str, bool)> = vec![
        ("project", "string", "Agent-registered project id.", true),
        ("paths", "array", "Project-relative untracked paths to remove.", true),
    ];
    assert(arguments(own@) =~= discard_untracked_entry().arguments.drop_last());
    let rows = with_optional_session_id(own);
    assert(arguments(rows@) =~= discard_untracked_entry().arguments);
    ToolRow {
        name: "discard_untracked",
        description: "Discard selected untracked files with git clean -f -- <paths>.",
        arguments: rows,
    }
}

/// `validate_patch`.
pub open spec fn validate_patch_entry() -> ToolEntry {
    ToolEntry {
        name: "validate_patch"@,
        description: "Dry-run a unified diff with git apply --check/--stat through the owning agent; never writes files."@,
        arguments: no_arguments()
            .push(argument("project"@, "string"@, "Agent-registered project id."@, true))
            .push(argument("patch"@, "string"@, PATCH_FIELD_DESCRIPTION@, true))
            .push(argument("deny_sensitive_paths"@, "boolean"@, "Block sensitive path warnings."@, false))
            .push(session_argument()),
    }
}

fn validate_patch_row() -> (r: ToolRow)
    ensures
        r@ == validate_patch_entry(),
{
    let own: Vec<(&'static str, &'static str, &'static str, bool)> = vec![
        ("project", "string", "Agent-registered project id.", true),
        ("patch", "string", PATCH_FIELD_DESCRIPTION, true),
        ("deny_sensitive_paths", "boolean", "Block sensitive path warnings.", false),
    ];
    assert(arguments(own@) =~= validate_patch_entry().arguments.drop_last());
    let rows = with_optional_session_id(own);
    assert(arguments(rows@) =~= validate_patch_entry().arguments);
    ToolRow {
        name: "validate_patch",
        description: "Dry-run a unified diff with git apply --check/--stat through the owning agent; never writes files.",
        arguments: rows,
    }
}

/// `replace_in_file`.
pub open spec fn replace_in_file_entry() -> ToolEntry {
    ToolEntry {
        name: "replace_in_file"@,
        description: "Replace a short unique substring in a project file. Good for small exact text changes; not for large source rewrites. Fails without writing when old is missing or ambiguous."@,
        arguments: no_arguments()
            .push(argument("project"@, "string"@, "Agent-registered project id."@, true))
            .push(argument("path"@, "string"@, "Project-relative file path."@, true))
            .push(argument("old"@, "string"@, "Non-empty substring to replace."@, true))
            .push(argument("new"@, "string"@, "Replacement string."@, true))
            .push(argument("expected_replacements"@, "integer"@, "Expected occurrence count (default 1)."@, false))
            .push(argument("allow_multiple"@, "boolean"@, "Allow replacing multiple occurrences (default false)."@, false))
            .push(session_argument()),
    }
}

fn replace_in_file_row() -> (r: ToolRow)
    ensures
        r@ == replace_in_file_entry(),
{
    let own: Vec<(&'static str, &'static str, &'static str, bool)> = vec![
        ("project", "string", "Agent-registered project id.", true),
        ("path", "string", "Project-relative file path.", true),
        ("old", "string", "Non-empty substring to replace.", true),
        ("new", "string", "Replacement string.", true),
        ("expected_replacements", "integer", "Expected occurrence count (default 1).", false),
        ("allow_multiple", "boolean", "Allow replacing multiple occurrences (default false).", false),
    ];
    assert(arguments(own@) =~= replace_in_file_entry().arguments.drop_last());
    let rows = with_optional_session_id(own);
    assert(arguments(rows@) =~= replace_in_file_entry().arguments);
    ToolRow {
        name: "replace_in_file",
        description: "Replace a short unique substring in a project file. Good for small exact text changes; not for large source rewrites. Fails without writing when old is missing or ambiguous.",
        arguments: rows,
    }
}

/// `replace_exact_block`.
pub open spec fn replace_exact_block_entry() -> ToolEntry {
    ToolEntry {
        name: "replace_exact_block"@,
        description: "Replace literal UTF-8 text that matches exactly once; no regex or auto-format. Use line edit tools when line numbers are known."@,
        arguments: no_arguments()
            .push(argument("project"@, "string"@, "Agent-registered project id."@, true))
            .push(argument("path"@, "string"@, "Project-relative file path."@, true))
            .push(argument("old_text"@, "string"@, "Non-empty literal block; must match exactly once."@, true))
            .push(argument("new_text"@, "string"@, "Replacement text; may be empty to delete the block."@, true))
            .push(argument("expected_old_sha256"@, "string"@, "Optional sha256 guard for current whole-file content."@, false))
            .push(session_argument()),
    }
}

fn replace_exact_block_row() -> (r: ToolRow)
    ensures
        r@ == replace_exact_block_entry(),
{
    let own: Vec<(&'static str, &'static str, &'static str, bool)> = vec![
        ("project", "string", "Agent-registered project id.", true),
        ("path", "string", "Project-relative file path.", true),
        ("old_text", "string", "Non-empty literal block; must match exactly once.", true),
        ("new_text", "string", "Replacement text; may be empty to delete the block.", true),
        ("expected_old_sha256", "string", "Optional sha256 guard for current whole-file content.", false),
    ];
    assert(arguments(own@) =~= replace_exact_block_entry().arguments.drop_last());
    let rows = with_optional_session_id(own);
    assert(arguments(rows@) =~= replace_exact_block_entry().arguments);
    ToolRow {
        name: "replace_exact_block",
        description: "Replace literal UTF-8 text that matches exactly once; no regex or auto-format. Use line edit tools when line numbers are known.",
        arguments: rows,
    }
}

/// `insert_before_pattern`.
pub open spec fn insert_before_pattern_entry() -> ToolEntry {
    ToolEntry {
        name: "insert_before_pattern"@,
        description: "Insert UTF-8 text before one literal pattern match; no regex, AST, auto-newline, or auto-format."@,
        arguments: no_arguments()
            .push(argument("project"@, "string"@, "Agent-registered project id."@, true))
            .push(argument("path"@, "string"@, "Project-relative file path."@, true))
            .push(argument("pattern"@, "string"@, "Non-empty literal pattern; must match exactly once."@, true))
            .push(argument("text"@, "string"@, "Non-empty text to insert, including intended newlines."@, true))
            .push(session_argument()),
    }
}

fn insert_before_pattern_row() -> (r: ToolRow)
    ensures
        r@ == insert_before_pattern_entry(),
{
    let own: Vec<(&'static str, &'static str, &'static str, bool)> = vec![
        ("project", "string", "Agent-registered project id.", true),
        ("path", "string", "Project-relative file path.", true),
        ("pattern", "string", "Non-empty literal pattern; must match exactly once.", true),
        ("text", "string", "Non-empty text to insert, including intended newlines.", true),
    ];
    assert(arguments(own@) =~= insert_before_pattern_entry().arguments.drop_last());
    let rows = with_optional_session_id(own);
    assert(arguments(rows@) =~= insert_before_pattern_entry().arguments);
    ToolRow {
        name: "insert_before_pattern",
        description: "Insert UTF-8 text before one literal pattern match; no regex, AST, auto-newline, or auto-format.",
        arguments: rows,
    }
}

/// `insert_after_pattern`.
pub open spec fn insert_after_pattern_entry() -> ToolEntry {
    ToolEntry {
        name: "insert_after_pattern"@,
        description: "Insert UTF-8 text after one literal pattern match; no regex, AST, auto-newline, or auto-format."@,
        arguments: no_arguments()
            .push(argument("project"@, "string"@, "Agent-registered project id."@, true))
            .push(argument("path"@, "string"@, "Project-relative file path."@, true))
            .push(argument("pattern"@, "string"@, "Non-empty literal pattern; must match exactly once."@, true))
            .push(argument("text"@, "string"@, "Non-empty text to insert, including intended newlines."@, true))
            .push(session_argument()),
    }
}

fn insert_after_pattern_row() -> (r: ToolRow)
    ensures
        r@ == insert_after_pattern_entry(),
{
    let own: Vec<(&'static str, &'static str, &'static str, bool)> = vec![
        ("project", "string", "Agent-registered project id.", true),
        ("path", "string", "Project-relative file path.", true),
        ("pattern", "string", "Non-empty literal pattern; must match exactly once.", true),
        ("text", "string", "Non-empty text to insert, including intended newlines.", true),
    ];
    assert(arguments(own@) =~= insert_after_pattern_entry().arguments.drop_last());
    let rows = with_optional_session_id(own);
    assert(arguments(rows@) =~= insert_after_pattern_entry().arguments);
    ToolRow {
        name: "insert_after_pattern",
        description: "Insert UTF-8 text after one literal pattern match; no regex, AST, auto-newline, or auto-format.",
        arguments: rows,
    }
}

/// `write_project_file`.
pub open spec fn write_project_file_entry() -> ToolEntry {
    ToolEntry {
        name: "write_project_file"@,
        description: "Create a new UTF-8 file or deliberately overwrite a small whole file. Not the first choice for ordinary local source edits; prefer line edit tools when scoped by line."@,
        arguments: no_arguments()
            .push(argument("project"@, "string"@, "Agent-registered project id."@, true))
            .push(argument("path"@, "string"@, "Project-relative file path."@, true))
            .push(argument("content"@, "string"@, "UTF-8 file content (no NUL)."@, true))
            .push(argument("overwrite"@, "boolean"@, "Allow overwriting an existing file (default false)."@, false))
            .push(argument("expected_sha256"@, "string"@, "Required sha256 of the current file when overwriting."@, false))
            .push(argument("expected_content_prefix"@, "string"@, "Required prefix of the current file when overwriting."@, false))
            .push(session_argument()),
    }
}

fn write_project_file_row() -> (r: ToolRow)
    ensures
        r@ == write_project_file_entry(),
{
    let own: Vec<(&'static str, &'static str, &'static str, bool)> = vec![
        ("project", "string", "Agent-registered project id.", true),
        ("path", "string", "Project-relative file path.", true),
        ("content", "string", "UTF-8 file content (no NUL).", true),
        ("overwrite", "boolean", "Allow overwriting an existing file (default false).", false),
        ("expected_sha256", "string", "Required sha256 of the current file when overwriting.", false),
        ("expected_content_prefix", "string", "Required prefix of the current file when overwriting.", false),
    ];
    assert(arguments(own@) =~= write_project_file_entry().arguments.drop_last());
    let rows = with_optional_session_id(own);
    assert(arguments(rows@) =~= write_project_file_entry().arguments);
    ToolRow {
        name: "write_project_file",
        description: "Create a new UTF-8 file or deliberately overwrite a small whole file. Not the first choice for ordinary local source edits; prefer line edit tools when scoped by line.",
        arguments: rows,
    }
}

/// `save_project_artifact`.
pub open spec fn save_project_artifact_entry() -> ToolEntry {
    ToolEntry {
        name: "save_project_artifact"@,
        description: "Write a bounded binary project artifact from base64. Use for imported session files, generated images, PDFs, and zip files; not for UTF-8 source edits."@,
        arguments: no_arguments()
            .push(argument("project"@, "string"@, "Agent-registered project id."@, true))
            .push(argument("path"@, "string"@, "Project-relative output path."@, true))
            .push(argument("content_base64"@, "string"@, "Base64-encoded binary content."@, true))
            .push(argument("mime_type"@, "string"@, "Optional MIME type."@, false))
            .push(argument("overwrite"@, "boolean"@, "Allow overwriting an existing file (default false)."@, false))
            .push(session_argument()),
    }
}

fn save_project_artifact_row() -> (r: ToolRow)
    ensures
        r@ == save_project_artifact_entry(),
{
    let own: Vec<(&'static str, &'static str, &'static str, bool)> = vec![
        ("project", "string", "Agent-registered project id.", true),
        ("path", "string", "Project-relative output path.", true),
        ("content_base64", "string", "Base64-encoded binary content.", true),
        ("mime_type", "string", "Optional MIME type.", false),
        ("overwrite", "boolean", "Allow overwriting an existing file (default false).", false),
    ];
    assert(arguments(own@) =~= save_project_artifact_entry().arguments.drop_last());
    let rows = with_optional_session_id(own);
    assert(arguments(rows@) =~= save_project_artifact_entry().arguments);
    ToolRow {
        name: "save_project_artifact",
        description: "Write a bounded binary project artifact from base64. Use for imported session files, generated images, PDFs, and zip files; not for UTF-8 source edits.",
        arguments: rows,
    }
}

/// `read_project_artifact_metadata`.
pub open spec fn read_project_artifact_metadata_entry() -> ToolEntry {
    ToolEntry {
        name: "read_project_artifact_metadata"@,
        description: "Read bounded metadata for a binary artifact; images include dimensions and zip archives are counted but never extracted."@,
        arguments: no_arguments()
            .push(argument("project"@, "string"@, "Agent-registered project id."@, true))
            .push(argument("path"@, "string"@, "Project-relative artifact path."@, true))
            .push(session_argument()),
    }
}

fn read_project_artifact_metadata_row() -> (r: ToolRow)
    ensures
        r@ == read_project_artifact_metadata_entry(),
{
    let own: Vec<(&'static str, &'static str, &'static str, bool)> = vec![
        ("project", "string", "Agent-registered project id.", true),
        ("path", "string", "Project-relative artifact path.", true),
    ];
    assert(arguments(own@) =~= read_project_artifact_metadata_entry().arguments.drop_last());
    let rows = with_optional_session_id(own);
    assert(arguments(rows@) =~= read_project_artifact_metadata_entry().arguments);
    ToolRow {
        name: "read_project_artifact_metadata",
        description: "Read bounded metadata for a binary artifact; images include dimensions and zip archives are counted but never extracted.",
        arguments: rows,
    }
}

/// `read_project_artifact`.
pub open spec fn read_project_artifact_entry() -> ToolEntry {
    ToolEntry {
        name: "read_project_artifact"@,
        description: "Chunked content read for a project artifact. Returns base64 for one small segment plus full-file sha256/MIME metadata; not a large-file transfer tool."@,
        arguments: no_arguments()
            .push(argument("project"@, "string"@, "Agent-registered project id."@, true))
            .push(argument("path"@, "string"@, "Project-relative artifact path."@, true))
            .push(argument("encoding"@, "string"@, "Optional encoding; only base64 is supported (default base64)."@, false))
            .push(argument("offset"@, "integer"@, "Optional byte offset to start reading from; defaults to 0."@, false))
            .push(argument("length"@, "integer"@, "Optional chunk length in bytes; defaults to 32768 and cannot exceed 65536."@, false))
            .push(argument("max_bytes"@, "integer"@, "Compatibility alias/upper bound for length; cannot exceed 65536."@, false))
            .push(session_argument()),
    }
}

fn read_project_artifact_row() -> (r: ToolRow)
    ensures
        r@ == read_project_artifact_entry(),
{
    let own: Vec<(&'static str, &'static str, &'static str, bool)> = vec![
        ("project", "string", "Agent-registered project id.", true),
        ("path", "string", "Project-relative artifact path.", true),
        ("encoding", "string", "Optional encoding; only base64 is supported (default base64).", false),
        ("offset", "integer", "Optional byte offset to start reading from; defaults to 0.", false),
        ("length", "integer", "Optional chunk length in bytes; defaults to 32768 and cannot exceed 65536.", false),
        ("max_bytes", "integer", "Compatibility alias/upper bound for length; cannot exceed 65536.", false),
    ];
    assert(arguments(own@) =~= read_project_artifact_entry().arguments.drop_last());
    let rows = with_optional_session_id(own);
    assert(arguments(rows@) =~= read_project_artifact_entry().arguments);
    ToolRow {
        name: "read_project_artifact",
        description: "Chunked content read for a project artifact. Returns base64 for one small segment plus full-file sha256/MIME metadata; not a large-file transfer tool.",
        arguments: rows,
    }
}

/// `replace_line_range`.
pub open spec fn replace_line_range_entry() -> ToolEntry {
    ToolEntry {
        name: "replace_line_range"@,
        description: "Preferred source-code edit tool for local changes with clear line numbers. Replaces a 1-based inclusive line range; safer than run_shell/sed/perl/python and better than write_project_file for medium edits. Supports sha256/prefix guards."@,
        arguments: no_arguments()
            .push(argument("project"@, "string"@, "Agent-registered project id."@, true))
            .push(argument("path"@, "string"@, "Project-relative file path."@, true))
            .push(argument("start_line"@, "integer"@, "1-based inclusive start line."@, true))
            .push(argument("end_line"@, "integer"@, "1-based inclusive end line."@, true))
            .push(argument("new_text"@, "string"@, "Replacement text; empty deletes the range."@, true))
            .push(argument("expected_old_sha256"@, "string"@, "Optional sha256 guard for the original range text."@, false))
            .push(argument("expected_old_prefix"@, "string"@, "Optional prefix guard for the original range text."@, false))
            .push(session_argument()),
    }
}

fn replace_line_range_row() -> (r: ToolRow)
    ensures
        r@ == replace_line_range_entry(),
{
    let own: Vec<(&'static str, &'static str, &'static str, bool)> = vec![
        ("project", "string", "Agent-registered project id.", true),
        ("path", "string", "Project-relative file path.", true),
        ("start_line", "integer", "1-based inclusive start line.", true),
        ("end_line", "integer", "1-based inclusive end line.", true),
        ("new_text", "string", "Replacement text; empty deletes the range.", true),
        ("expected_old_sha256", "string", "Optional sha256 guard for the original range text.", false),
        ("expected_old_prefix", "string", "Optional prefix guard for the original range text.", false),
    ];
    assert(arguments(own@) =~= replace_line_range_entry().arguments.drop_last());
    let rows = with_optional_session_id(own);
    assert(arguments(rows@) =~= replace_line_range_entry().arguments);
    ToolRow {
        name: "replace_line_range",
        description: "Preferred source-code edit tool for local changes with clear line numbers. Replaces a 1-based inclusive line range; safer than run_shell/sed/perl/python and better than write_project_file for medium edits. Supports sha256/prefix guards.",
        arguments: rows,
    }
}

/// `insert_at_line`.
pub open spec fn insert_at_line_entry() -> ToolEntry {
    ToolEntry {
        name: "insert_at_line"@,
        description: "Preferred source-code edit tool for local changes with clear line numbers. Inserts before a specified 1-based line; safer than run_shell/sed/perl/python and better than write_project_file for medium edits. Supports sha256/prefix guards."@,
        arguments: no_arguments()
            .push(argument("project"@, "string"@, "Agent-registered project id."@, true))
            .push(argument("path"@, "string"@, "Project-relative file path."@, true))
            .push(argument("line"@, "integer"@, "1-based insertion line; total_lines+1 appends at EOF."@, true))
            .push(argument("text"@, "string"@, "Text to insert."@, true))
            .push(argument("expected_anchor_sha256"@, "string"@, "Optional sha256 guard for anchor line or empty EOF anchor."@, false))
            .push(argument("expected_anchor_prefix"@, "string"@, "Optional prefix guard for anchor line or empty EOF anchor."@, false))
            .push(session_argument()),
    }
}

fn insert_at_line_row() -> (r: ToolRow)
    ensures
        r@ == insert_at_line_entry(),
{
    let own: Vec<(&'static str, &'static str, &'static str, bool)> = vec![
        ("project", "string", "Agent-registered project id.", true),
        ("path", "string", "Project-relative file path.", true),
        ("line", "integer", "1-based insertion line; total_lines+1 appends at EOF.", true),
        ("text", "string", "Text to insert.", true),
        ("expected_anchor_sha256", "string", "Optional sha256 guard for anchor line or empty EOF anchor.", false),
        ("expected_anchor_prefix", "string", "Optional prefix guard for anchor line or empty EOF anchor.", false),
    ];
    assert(arguments(own@) =~= insert_at_line_entry().arguments.drop_last());
    let rows = with_optional_session_id(own);
    assert(arguments(rows@) =~= insert_at_line_entry().arguments);
    ToolRow {
        name: "insert_at_line",
        description: "Preferred source-code edit tool for local changes with clear line numbers. Inserts before a specified 1-based line; safer than run_shell/sed/perl/python and better than write_project_file for medium edits. Supports sha256/prefix guards.",
        arguments: rows,
    }
}

/// `delete_line_range`.
pub open spec fn delete_line_range_entry() -> ToolEntry {
    ToolEntry {
        name: "delete_line_range"@,
        description: "Preferred source-code edit tool for local changes with clear line numbers. Deletes a 1-based inclusive line range; safer than run_shell/sed/perl/python and better than write_project_file for medium edits. Supports sha256/prefix guards."@,
        arguments: no_arguments()
            .push(argument("project"@, "string"@, "Agent-registered project id."@, true))
            .push(argument("path"@, "string"@, "Project-relative file path."@, true))
            .push(argument("start_line"@, "integer"@, "1-based inclusive start line."@, true))
            .push(argument("end_line"@, "integer"@, "1-based inclusive end line."@, true))
            .push(argument("expected_old_sha256"@, "string"@, "Optional sha256 guard for the original range text."@, false))
            .push(argument("expected_old_prefix"@, "string"@, "Optional prefix guard for the original range text."@, false))
            .push(session_argument()),
    }
}

fn delete_line_range_row() -> (r: ToolRow)
    ensures
        r@ == delete_line_range_entry(),
{
    let own: Vec<(&'static str, &'static str, &'static str, bool)> = vec![
        ("project", "string", "Agent-registered project id.", true),
        ("path", "string", "Project-relative file path.", true),
        ("start_line", "integer", "1-based inclusive start line.", true),
        ("end_line", "integer", "1-based inclusive end line.", true),
        ("expected_old_sha256", "string", "Optional sha256 guard for the original range text.", false),
        ("expected_old_prefix", "string", "Optional prefix guard for the original range text.", false),
    ];
    assert(arguments(own@) =~= delete_line_range_entry().arguments.drop_last());
    let rows = with_optional_session_id(own);
    assert(arguments(rows@) =~= delete_line_range_entry().arguments);
    ToolRow {
        name: "delete_line_range",
        description: "Preferred source-code edit tool for local changes with clear line numbers. Deletes a 1-based inclusive line range; safer than run_shell/sed/perl/python and better than write_project_file for medium edits. Supports sha256/prefix guards.",
        arguments: rows,
    }
}

/// The tools of the rows.
pub open spec fn entries_of(rows: Seq<ToolRow>) -> Seq<ToolEntry> {
    Seq::new(rows.len(), |i: int| rows[i]@)
}

/// The tools that are offered, in their order.
pub open spec fn tool_table() -> Seq<ToolEntry> {
    Seq::<ToolEntry>::empty()
        .push(list_tools_entry())
        .push(start_session_entry())
        .push(session_summary_entry())
        .push(list_projects_entry())
        .push(register_project_entry())
        .push(create_project_entry())
        .push(list_agents_entry())
        .push(runtime_status_entry())
        .push(run_shell_entry())
        .push(run_job_entry())
        .push(job_status_entry())
        .push(job_log_entry())
        .push(list_project_files_entry())
        .push(search_project_text_entry())
        .push(git_diff_summary_entry())
        .push(show_changes_entry())
        .push(list_jobs_entry())
        .push(job_tail_entry())
        .push(read_file_entry())
        .push(git_status_entry())
        .push(git_diff_entry())
        .push(git_diff_hunks_entry())
        .push(cargo_fmt_entry())
        .push(cargo_check_entry())
        .push(cargo_test_entry())
        .push(apply_patch_entry())
        .push(apply_patch_checked_entry())
        .push(delete_project_files_entry())
        .push(git_restore_paths_entry())
        .push(discard_untracked_entry())
        .push(validate_patch_entry())
        .push(replace_in_file_entry())
        .push(replace_exact_block_entry())
        .push(insert_before_pattern_entry())
        .push(insert_after_pattern_entry())
        .push(write_project_file_entry())
        .push(save_project_artifact_entry())
        .push(read_project_artifact_metadata_entry())
        .push(read_project_artifact_entry())
        .push(replace_line_range_entry())
        .push(insert_at_line_entry())
        .push(delete_line_range_entry())
}

fn with_row(rows: Vec<ToolRow>, row: ToolRow) -> (r: Vec<ToolRow>)
    ensures
        entries_of(r@) == entries_of(rows@).push(row@),
{
    let ghost before = entries_of(rows@);
    let mut rows = rows;
    rows.push(row);
    assert(entries_of(rows@) =~= before.push(row@));
    rows
}

/// The tools that are offered, in their order.
pub fn tool_rows() -> (r: Vec<ToolRow>)
    ensures
        entries_of(r@) == tool_table(),
{
    let rows: Vec<ToolRow> = Vec::new();
    assert(entries_of(rows@) =~= Seq::<ToolEntry>::empty());
    let rows = with_row(rows, list_tools_row());
    let rows = with_row(rows, start_session_row());
    let rows = with_row(rows, session_summary_row());
    let rows = with_row(rows, list_projects_row());
    let rows = with_row(rows, register_project_row());
    let rows = with_row(rows, create_project_row());
    let rows = with_row(rows, list_agents_row());
    let rows = with_row(rows, runtime_status_row());
    let rows = with_row(rows, run_shell_row());
    let rows = with_row(rows, run_job_row());
    let rows = with_row(rows, job_status_row());
    let rows = with_row(rows, job_log_row());
    let rows = with_row(rows, list_project_files_row());
    let rows = with_row(rows, search_project_text_row());
    let rows = with_row(rows, git_diff_summary_row());
    let rows = with_row(rows, show_changes_row());
    let rows = with_row(rows, list_jobs_row());
    let rows = with_row(rows, job_tail_row());
    let rows = with_row(rows, read_file_row());
    let rows = with_row(rows, git_status_row());
    let rows = with_row(rows, git_diff_row());
    let rows = with_row(rows, git_diff_hunks_row());
    let rows = with_row(rows, cargo_fmt_row());
    let rows = with_row(rows, cargo_check_row());
    let rows = with_row(rows, cargo_test_row());
    let rows = with_row(rows, apply_patch_row());
    let rows = with_row(rows, apply_patch_checked_row());
    let rows = with_row(rows, delete_project_files_row());
    let rows = with_row(rows, git_restore_paths_row());
    let rows = with_row(rows, discard_untracked_row());
    let rows = with_row(rows, validate_patch_row());
    let rows = with_row(rows, replace_in_file_row());
    let rows = with_row(rows, replace_exact_block_row());
    let rows = with_row(rows, insert_before_pattern_row());
    let rows = with_row(rows, insert_after_pattern_row());
    let rows = with_row(rows, write_project_file_row());
    let rows = with_row(rows, save_project_artifact_row());
    let rows = with_row(rows, read_project_artifact_metadata_row());
    let rows = with_row(rows, read_project_artifact_row());
    let rows = with_row(rows, replace_line_range_row());
    let rows = with_row(rows, insert_at_line_row());
    let rows = with_row(rows, delete_line_range_row());
    rows
}

} // verus!
