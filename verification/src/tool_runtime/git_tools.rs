//! The git tools: what they run, and what they tell of the output.
use crate::json::{
    boolean, field, no_fields, number, opt_text_json, opt_text_tree, text, text_array, text_trees,
    ObjectBuilder, Tree,
};
use crate::lines::lines_of;
use crate::text::{concat2, opt_str, opt_text, texts};
use crate::tool_runtime::changes::{
    apply_show_changes_session, apply_show_changes_untracked_previews, exit_code_json,
    exit_code_tree, overview_tree, parse_show_changes_output, previews_of, with_previews,
    with_session,
};
use crate::tool_runtime::diff::{files_json, files_tree, parse_git_diff_hunks, read_diff};
use crate::tool_runtime::git::{
    all_can_be_cut, clean_optional_paths, diff_paths_error, diff_summary_parts, diff_words,
    git_diff_hunks_command, parse_porcelain_summary, plain_paths, porcelain_paths,
    show_changes_command, show_changes_parts, show_changes_script, split_diff_summary,
    split_show_changes_stdout, PorcelainKind,
};
use crate::lines::join;
use crate::tool_runtime::sessions::SessionSummary;
use crate::tool_runtime::shell_text::{quoted_words, shell_join_paths};
use crate::tool_runtime::types::{
    tool_err, tool_failed, tool_ok, CommandOutput, ToolModel, ToolResult,
};
use vstd::prelude::*;

verus! {

/// The number that was asked for, where it is above zero, within the limit; else
/// the default.
pub open spec fn within(n: Option<usize>, default: usize, max: usize) -> usize {
    let wanted = match n {
        Some(n) => if n > 0 {
            n
        } else {
            default
        },
        None => default,
    };
    if wanted > max {
        max
    } else {
        wanted
    }
}

/// The number that was asked for, within the limit, or the default.
pub fn bounded_count(n: Option<usize>, default: usize, max: usize) -> (r: usize)
    ensures
        r == within(n, default, max),
{
    let wanted: usize = match n {
        Some(n) => if n > 0 {
            n
        } else {
            default
        },
        None => default,
    };
    if wanted > max {
        max
    } else {
        wanted
    }
}

// ---------------------------------------------------------------------------
// Restoring and discarding
// ---------------------------------------------------------------------------

/// The command that restores paths.
pub fn git_restore_command(paths: &Vec<String>) -> (r: String)
    ensures
        r@ == "git restore -- "@ + quoted_words(texts(paths@)),
{
    let words = shell_join_paths(paths);
    concat2("git restore -- ", words.as_str())
}

/// The command that discards untracked paths.
pub fn discard_untracked_command(paths: &Vec<String>) -> (r: String)
    ensures
        r@ == "git clean -f -- "@ + quoted_words(texts(paths@)),
{
    let words = shell_join_paths(paths);
    concat2("git clean -f -- ", words.as_str())
}

/// How many seconds a command that restores or discards paths may take.
pub const CLEANUP_TIMEOUT_SECS: u64 = 30;

/// What a restore runs, given the paths as the check on them left them: the command,
/// its seconds and its paths. Where the check refused the paths, nothing runs.
pub fn restore_step(clean: Result<Vec<String>, String>) -> (r: Result<
    (String, u64, Vec<String>),
    ToolResult,
>)
    ensures
        match clean {
            Err(e) => r is Err && r->Err_0@ == tool_err(e@),
            Ok(p) => {
                &&& r is Ok
                &&& r->Ok_0.0@ == "git restore -- "@ + quoted_words(texts(p@))
                &&& r->Ok_0.1 == 30
                &&& r->Ok_0.2 == p
            },
        },
{
    match clean {
        Ok(paths) => Ok((git_restore_command(&paths), CLEANUP_TIMEOUT_SECS, paths)),
        Err(e) => Err(ToolResult::err(e.as_str())),
    }
}

/// What a discard of untracked paths runs, given the paths as the check on them left
/// them: the command, its seconds and its paths. Where the check refused the paths,
/// nothing runs.
pub fn discard_step(clean: Result<Vec<String>, String>) -> (r: Result<
    (String, u64, Vec<String>),
    ToolResult,
>)
    ensures
        match clean {
            Err(e) => r is Err && r->Err_0@ == tool_err(e@),
            Ok(p) => {
                &&& r is Ok
                &&& r->Ok_0.0@ == "git clean -f -- "@ + quoted_words(texts(p@))
                &&& r->Ok_0.1 == 30
                &&& r->Ok_0.2 == p
            },
        },
{
    match clean {
        Ok(paths) => Ok((discard_untracked_command(&paths), CLEANUP_TIMEOUT_SECS, paths)),
        Err(e) => Err(ToolResult::err(e.as_str())),
    }
}

/// What is told of a command on paths: a failure as it is, a success with the paths
/// under `name`.
pub open spec fn paths_result(name: Seq<char>, paths: Seq<Seq<char>>, run: ToolModel) -> ToolModel {
    if run.success {
        tool_ok(
            Tree::Object(
                no_fields().push(field(name, text_trees(paths))).push(
                    field("command_result"@, run.output),
                ),
            ),
        )
    } else {
        run
    }
}

fn result_for_paths(name: &str, paths: &Vec<String>, run: ToolResult) -> (r: ToolResult)
    ensures
        r@ == paths_result(name@, texts(paths@), run@),
{
    if run.success {
        ToolResult::ok(
            ObjectBuilder::new().with(name, text_array(paths)).with(
                "command_result",
                run.output,
            ).build(),
        )
    } else {
        run
    }
}

/// What is told of restored paths.
pub fn git_restore_paths(paths: &Vec<String>, run: ToolResult) -> (r: ToolResult)
    ensures
        r@ == paths_result("restored_paths"@, texts(paths@), run@),
{
    result_for_paths("restored_paths", paths, run)
}

/// What is told of discarded paths.
pub fn discard_untracked(paths: &Vec<String>, run: ToolResult) -> (r: ToolResult)
    ensures
        r@ == paths_result("discarded_untracked_paths"@, texts(paths@), run@),
{
    result_for_paths("discarded_untracked_paths", paths, run)
}

// ---------------------------------------------------------------------------
// Plain output
// ---------------------------------------------------------------------------

/// How a command that a tool had run ended.
#[derive(Debug)]
pub enum CommandOutcome {
    /// It ended, with this output.
    Finished { exit_code: Option<i32>, stdout: Option<String>, stderr: Option<String> },
    /// The request was dropped.
    Dropped,
    /// The time to wait was over.
    TimedOut,
    /// It could not be run, for this reason.
    Failed(String),
}

/// The command behind the diff tool.
pub open spec fn diff_command(args: Seq<Seq<char>>) -> Seq<char> {
    if args.len() == 0 {
        "git diff"@
    } else {
        "git diff -- "@ + quoted_words(args)
    }
}

/// The command behind the diff tool.
pub fn git_diff_command(args: &Vec<String>) -> (r: String)
    ensures
        r@ == diff_command(texts(args@)),
{
    assert(texts(args@).len() == args@.len());
    if args.len() == 0 {
        "git diff".to_owned()
    } else {
        let words = shell_join_paths(args);
        concat2("git diff -- ", words.as_str())
    }
}

/// What is told of a command: its output as it is.
pub open spec fn plain_result(outcome: CommandOutcome) -> ToolModel {
    match outcome {
        CommandOutcome::Finished { exit_code, stdout, stderr } => tool_ok(
            Tree::Object(
                no_fields()
                    .push(field("stdout"@, opt_text_tree(opt_text(stdout))))
                    .push(field("stderr"@, opt_text_tree(opt_text(stderr))))
                    .push(field("exit_code"@, exit_code_tree(exit_code))),
            ),
        ),
        CommandOutcome::Dropped => tool_err("request dropped"@),
        CommandOutcome::TimedOut => tool_err("timed out"@),
        CommandOutcome::Failed(e) => tool_err(e@),
    }
}

fn plain_output(outcome: CommandOutcome) -> (r: ToolResult)
    ensures
        r@ == plain_result(outcome),
{
    match outcome {
        CommandOutcome::Finished { exit_code, stdout, stderr } => ToolResult::ok(
            ObjectBuilder::new()
                .with("stdout", opt_text_json(&stdout))
                .with("stderr", opt_text_json(&stderr))
                .with("exit_code", exit_code_json(exit_code))
                .build(),
        ),
        CommandOutcome::Dropped => ToolResult::err("request dropped"),
        CommandOutcome::TimedOut => ToolResult::err("timed out"),
        CommandOutcome::Failed(e) => ToolResult::err(e.as_str()),
    }
}

/// What is told of the status of a worktree.
pub fn git_status(outcome: CommandOutcome) -> (r: ToolResult)
    ensures
        r@ == plain_result(outcome),
{
    plain_output(outcome)
}

/// What is told of a diff.
pub fn git_diff(outcome: CommandOutcome) -> (r: ToolResult)
    ensures
        r@ == plain_result(outcome),
{
    plain_output(outcome)
}

// ---------------------------------------------------------------------------
// Hunks
// ---------------------------------------------------------------------------

pub const DEFAULT_MAX_HUNKS: usize = 30;

pub const MAX_MAX_HUNKS: usize = 100;

pub const DEFAULT_MAX_HUNK_LINES: usize = 160;

pub const MAX_MAX_HUNK_LINES: usize = 400;

/// What the hunks tool has to run and to keep in mind.
#[derive(Debug)]
pub struct DiffHunksPlan {
    pub paths: Vec<String>,
    pub cached: bool,
    pub max_hunks: usize,
    pub max_hunk_lines: usize,
    pub command: String,
}

/// Whether a plan is the one for the hunks of a diff.
pub open spec fn hunks_planned(
    given: Seq<Seq<char>>,
    max_hunks: Option<usize>,
    max_hunk_lines: Option<usize>,
    cached: Option<bool>,
    plan: DiffHunksPlan,
) -> bool {
    &&& diff_paths_error(given) is None
    &&& texts(plan.paths@) == plain_paths(given)
    &&& plan.cached == (cached == Some(true))
    &&& plan.max_hunks == within(max_hunks, DEFAULT_MAX_HUNKS, MAX_MAX_HUNKS)
    &&& plan.max_hunk_lines == within(max_hunk_lines, DEFAULT_MAX_HUNK_LINES, MAX_MAX_HUNK_LINES)
    &&& plan.command@ == join(diff_words(plain_paths(given), plan.cached), " "@)
}

/// Plans a call of the hunks tool.
pub fn git_diff_hunks_plan(
    paths: Option<Vec<String>>,
    max_hunks: Option<usize>,
    max_hunk_lines: Option<usize>,
    cached: Option<bool>,
) -> (r: Result<DiffHunksPlan, ToolResult>)
    ensures
        ({
            let given = match paths {
                Some(v) => texts(v@),
                None => seq![],
            };
            match r {
                Ok(plan) => hunks_planned(given, max_hunks, max_hunk_lines, cached, plan),
                Err(e) => diff_paths_error(given) is Some && e@ == tool_err(
                    diff_paths_error(given)->0,
                ),
            }
        }),
{
    let paths = match clean_optional_paths(paths) {
        Ok(paths) => paths,
        Err(e) => {
            return Err(ToolResult::err(e.as_str()));
        },
    };
    let cached = match cached {
        Some(c) => c,
        None => false,
    };
    match git_diff_hunks_command(&paths, cached) {
        Ok(command) => Ok(
            DiffHunksPlan {
                paths,
                cached,
                max_hunks: bounded_count(max_hunks, DEFAULT_MAX_HUNKS, MAX_MAX_HUNKS),
                max_hunk_lines: bounded_count(
                    max_hunk_lines,
                    DEFAULT_MAX_HUNK_LINES,
                    MAX_MAX_HUNK_LINES,
                ),
                command,
            },
        ),
        Err(e) => Err(ToolResult::err(e.as_str())),
    }
}

/// What the hunks tool tells.
pub open spec fn hunks_result(project: Seq<char>, plan: DiffHunksPlan, output: CommandOutput) -> ToolModel {
    let s = read_diff(
        lines_of(output.stdout@),
        plan.max_hunks as nat,
        plan.max_hunk_lines as nat,
    );
    let payload = Tree::Object(
        no_fields()
            .push(field("project"@, Tree::Text(project)))
            .push(field("paths"@, text_trees(texts(plan.paths@))))
            .push(field("cached"@, Tree::Bool(plan.cached)))
            .push(field("files"@, files_tree(s.all_files())))
            .push(field("hunk_count"@, Tree::Number(s.count as int)))
            .push(field("truncated"@, Tree::Bool(s.truncated)))
            .push(field("exit_code"@, exit_code_tree(output.exit_code)))
            .push(field("stderr"@, Tree::Text(output.stderr@))),
    );
    if output.exit_code == Some(0i32) {
        tool_ok(payload)
    } else {
        tool_failed(payload, "git diff failed"@)
    }
}

/// What the hunks tool tells of the output of its command.
pub fn git_diff_hunks(project: &str, plan: &DiffHunksPlan, output: &CommandOutput) -> (r: ToolResult)
    ensures
        r@ == hunks_result(project@, *plan, *output),
{
    let (files, count, truncated) = parse_git_diff_hunks(
        output.stdout.as_str(),
        plan.max_hunks,
        plan.max_hunk_lines,
    );
    let payload = ObjectBuilder::new()
        .with("project", text(project))
        .with("paths", text_array(&plan.paths))
        .with("cached", boolean(plan.cached))
        .with("files", files_json(&files))
        .with("hunk_count", number(count))
        .with("truncated", boolean(truncated))
        .with("exit_code", exit_code_json(output.exit_code))
        .with("stderr", text(output.stderr.as_str()))
        .build();
    if succeeded(output.exit_code) {
        ToolResult::ok(payload)
    } else {
        ToolResult::failed(payload, "git diff failed")
    }
}

fn succeeded(exit_code: Option<i32>) -> (r: bool)
    ensures
        r == (exit_code == Some(0i32)),
{
    match exit_code {
        Some(code) => code == 0,
        None => false,
    }
}

// ---------------------------------------------------------------------------
// Summary
// ---------------------------------------------------------------------------

/// What the diff summary tells of the output of its command.
pub open spec fn summary_result(stdout: Seq<char>, exit_code: Option<i32>) -> ToolModel {
    let (porcelain, diff_stat) = diff_summary_parts(stdout);
    let lines = lines_of(porcelain);
    tool_ok(
        Tree::Object(
            no_fields()
                .push(field("porcelain"@, Tree::Text(porcelain)))
                .push(field("diff_stat"@, Tree::Text(diff_stat)))
                .push(field("changed_files"@, text_trees(porcelain_paths(lines, PorcelainKind::All))))
                .push(field("changed_files_count"@, Tree::Number(porcelain_paths(lines, PorcelainKind::All).len() as int)))
                .push(field("tracked_changed_files"@, text_trees(porcelain_paths(lines, PorcelainKind::Known))))
                .push(field("untracked_files"@, text_trees(porcelain_paths(lines, PorcelainKind::Untracked))))
                .push(field("ignored_files"@, text_trees(porcelain_paths(lines, PorcelainKind::Ignored))))
                .push(field("exit_code"@, exit_code_tree(exit_code))),
        ),
    )
}

/// What the diff summary tells of the output of its command. The lines of the status
/// have to start with two status characters and a blank, as git writes them.
pub fn git_diff_summary(stdout: &str, exit_code: Option<i32>) -> (r: ToolResult)
    requires
        all_can_be_cut(diff_summary_parts(stdout@).0),
    ensures
        r@ == summary_result(stdout@, exit_code),
{
    let (porcelain, diff_stat) = split_diff_summary(stdout);
    let summary = parse_porcelain_summary(porcelain.as_str());
    ToolResult::ok(
        ObjectBuilder::new()
            .with("porcelain", text(porcelain.as_str()))
            .with("diff_stat", text(diff_stat.as_str()))
            .with("changed_files", text_array(&summary.changed_files))
            .with("changed_files_count", number(summary.changed_files_count))
            .with("tracked_changed_files", text_array(&summary.tracked_changed_files))
            .with("untracked_files", text_array(&summary.untracked_files))
            .with("ignored_files", text_array(&summary.ignored_files))
            .with("exit_code", exit_code_json(exit_code))
            .build(),
    )
}

// ---------------------------------------------------------------------------
// Overview
// ---------------------------------------------------------------------------

pub const SHOW_CHANGES_DEFAULT_MAX_HUNKS: usize = 20;

pub const SHOW_CHANGES_MAX_HUNKS: usize = 100;

pub const SHOW_CHANGES_DEFAULT_MAX_HUNK_LINES: usize = 80;

pub const SHOW_CHANGES_MAX_HUNK_LINES: usize = 240;

pub const SHOW_CHANGES_DEFAULT_SESSION_EVENT_LIMIT: usize = 30;

pub const SHOW_CHANGES_MAX_SESSION_EVENT_LIMIT: usize = 200;

/// What the change overview has to run and to keep in mind.
#[derive(Debug)]
pub struct ShowChangesPlan {
    pub include_diff: bool,
    pub max_hunks: usize,
    pub max_hunk_lines: usize,
    pub session_event_limit: usize,
    pub command: String,
}

/// Whether a plan is the one for an overview of the changes.
pub open spec fn changes_planned(
    include_diff: Option<bool>,
    max_hunks: Option<usize>,
    max_hunk_lines: Option<usize>,
    session_event_limit: Option<usize>,
    plan: ShowChangesPlan,
) -> bool {
    &&& plan.include_diff == (include_diff == Some(true))
    &&& plan.max_hunks == within(
        max_hunks,
        SHOW_CHANGES_DEFAULT_MAX_HUNKS,
        SHOW_CHANGES_MAX_HUNKS,
    )
    &&& plan.max_hunk_lines == within(
        max_hunk_lines,
        SHOW_CHANGES_DEFAULT_MAX_HUNK_LINES,
        SHOW_CHANGES_MAX_HUNK_LINES,
    )
    &&& plan.session_event_limit == within(
        session_event_limit,
        SHOW_CHANGES_DEFAULT_SESSION_EVENT_LIMIT,
        SHOW_CHANGES_MAX_SESSION_EVENT_LIMIT,
    )
    &&& plan.command@ == show_changes_script(plan.include_diff)
}

/// Plans a call of the change overview.
pub fn show_changes_plan(
    include_diff: Option<bool>,
    max_hunks: Option<usize>,
    max_hunk_lines: Option<usize>,
    session_event_limit: Option<usize>,
) -> (r: ShowChangesPlan)
    ensures
        changes_planned(include_diff, max_hunks, max_hunk_lines, session_event_limit, r),
{
    let include_diff = match include_diff {
        Some(b) => b,
        None => false,
    };
    ShowChangesPlan {
        include_diff,
        max_hunks: bounded_count(
            max_hunks,
            SHOW_CHANGES_DEFAULT_MAX_HUNKS,
            SHOW_CHANGES_MAX_HUNKS,
        ),
        max_hunk_lines: bounded_count(
            max_hunk_lines,
            SHOW_CHANGES_DEFAULT_MAX_HUNK_LINES,
            SHOW_CHANGES_MAX_HUNK_LINES,
        ),
        session_event_limit: bounded_count(
            session_event_limit,
            SHOW_CHANGES_DEFAULT_SESSION_EVENT_LIMIT,
            SHOW_CHANGES_MAX_SESSION_EVENT_LIMIT,
        ),
        command: show_changes_command(include_diff),
    }
}

/// What the change overview tells.
pub open spec fn changes_result(
    project: Seq<char>,
    plan: ShowChangesPlan,
    output: CommandOutput,
    session_id: Option<Seq<char>>,
    summary: Option<SessionSummary>,
) -> ToolModel {
    let (status, head, stat, diff, previews) = show_changes_parts(output.stdout@, plan.include_diff);
    let bare = overview_tree(
        project,
        status,
        head,
        stat,
        if plan.include_diff {
            Some(diff)
        } else {
            None
        },
        plan.max_hunks,
        plan.max_hunk_lines,
        output.exit_code,
        output.stderr@,
    );
    let shown = if plan.include_diff {
        with_previews(bare, previews_of(previews))
    } else {
        bare
    };
    let payload = with_session(shown, session_id, summary);
    if output.exit_code == Some(0i32) {
        tool_ok(payload)
    } else {
        tool_failed(payload, "show_changes git inspection failed"@)
    }
}

/// What the change overview tells of the output of its command and of the session
/// that was asked for.
pub fn show_changes(
    project: &str,
    plan: &ShowChangesPlan,
    output: &CommandOutput,
    session_id: Option<&str>,
    summary: Option<SessionSummary>,
) -> (r: ToolResult)
    ensures
        r@ == changes_result(project@, *plan, *output, opt_str(session_id), summary),
{
    let (status, head, stat, diff, previews) = split_show_changes_stdout(
        output.stdout.as_str(),
        plan.include_diff,
    );
    let diff_stdout = if plan.include_diff {
        Some(diff.as_str())
    } else {
        None
    };
    let mut payload = parse_show_changes_output(
        project,
        status.as_str(),
        head.as_str(),
        stat.as_str(),
        diff_stdout,
        plan.max_hunks,
        plan.max_hunk_lines,
        output.exit_code,
        output.stderr.as_str(),
    );
    if plan.include_diff {
        apply_show_changes_untracked_previews(&mut payload, previews.as_str());
    }
    apply_show_changes_session(&mut payload, session_id, summary);
    if succeeded(output.exit_code) {
        ToolResult::ok(payload)
    } else {
        ToolResult::failed(payload, "show_changes git inspection failed")
    }
}

} // verus!
