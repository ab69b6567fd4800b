//! The overview of the changes in a worktree.
use crate::cut::{cut_at, split_once};
use crate::json::{
    array, boolean, copy_items, field, no_fields, null, number, opt_text_json, opt_text_tree,
    signed, text, text_array, text_trees, trees, Json, ObjectBuilder, Tree,
};
use crate::json_text::{parse_json, parsed_json};
use crate::lines::{lines_of, split_lines};
use crate::text::{char_count, concat2, opt_str, opt_text, str_eq, str_trim, texts, trim, views};
use crate::tool_runtime::actions::{no_texts, push_if, with_if};
use crate::tool_runtime::diff::{files_json, files_tree, parse_git_diff_hunks, read_diff};
use crate::tool_runtime::git::{
    branch_of, changed_file, is_smoke_path, looks_like_smoke_path, parse_changed_file,
    parse_status_branch, ChangedFile, ChangedModel,
};
use crate::tool_runtime::sessions::{
    events_json, events_tree, paths_changed, session_changed_paths, SessionSummary,
};
use vstd::prelude::*;
use vstd::string::*;

verus! {

// ---------------------------------------------------------------------------
// Reading the status
// ---------------------------------------------------------------------------

/// The files that the status lines name.
pub open spec fn changed_files(lines: Seq<Seq<char>>) -> Seq<ChangedModel>
    decreases lines.len(),
{
    if lines.len() == 0 {
        seq![]
    } else {
        let front = changed_files(lines.drop_last());
        match changed_file(lines.last()) {
            Some(f) => front.push(f),
            None => front,
        }
    }
}

/// The branch that the last of the lines names that names one.
pub open spec fn last_branch(lines: Seq<Seq<char>>) -> Option<Seq<char>>
    decreases lines.len(),
{
    if lines.len() == 0 {
        None
    } else if branch_of(lines.last()) is Some {
        branch_of(lines.last())
    } else {
        last_branch(lines.drop_last())
    }
}

/// How many files have the status.
pub open spec fn with_status(files: Seq<ChangedModel>, status: Seq<char>) -> nat
    decreases files.len(),
{
    if files.len() == 0 {
        0
    } else {
        with_status(files.drop_last(), status) + (if files.last().status == status {
            1nat
        } else {
            0nat
        })
    }
}

/// How many files have changes in the index.
pub open spec fn staged_files(files: Seq<ChangedModel>) -> nat
    decreases files.len(),
{
    if files.len() == 0 {
        0
    } else {
        staged_files(files.drop_last()) + (if files.last().staged {
            1nat
        } else {
            0nat
        })
    }
}

/// How many files have changes outside of the index.
pub open spec fn unstaged_files(files: Seq<ChangedModel>) -> nat
    decreases files.len(),
{
    if files.len() == 0 {
        0
    } else {
        unstaged_files(files.drop_last()) + (if files.last().unstaged {
            1nat
        } else {
            0nat
        })
    }
}

fn read_status(status: &str) -> (r: (Option<String>, Vec<ChangedFile>))
    ensures
        opt_text(r.0) == last_branch(lines_of(status@)),
        views(r.1@) == changed_files(lines_of(status@)),
{
    let lines = split_lines(status);
    let ghost all = texts(lines@);
    let mut branch: Option<String> = None;
    let mut files: Vec<ChangedFile> = Vec::new();
    let mut i: usize = 0;
    assert(all.take(0) =~= seq![]);
    assert(views(files@) =~= seq![]);
    while i < lines.len()
        invariant
            i <= lines@.len(),
            all == texts(lines@),
            opt_text(branch) == last_branch(all.take(i as int)),
            views(files@) == changed_files(all.take(i as int)),
        decreases lines@.len() - i,
    {
        let line = lines[i].as_str();
        proof {
            assert(all.take(i + 1).drop_last() =~= all.take(i as int));
            assert(all.take(i + 1).last() == line@);
        }
        if let Some(b) = parse_status_branch(line) {
            branch = Some(b);
        }
        if let Some(f) = parse_changed_file(line) {
            let ghost before = views(files@);
            files.push(f);
            assert(views(files@) =~= before.push(f@));
        }
        i = i + 1;
    }
    assert(all.take(i as int) =~= all);
    (branch, files)
}

fn count_status(files: &Vec<ChangedFile>, status: &str) -> (r: usize)
    ensures
        r == with_status(views(files@), status@),
{
    let ghost all = views(files@);
    let mut n: usize = 0;
    let mut i: usize = 0;
    assert(all.take(0) =~= seq![]);
    while i < files.len()
        invariant
            i <= files@.len(),
            n <= i,
            all == views(files@),
            n == with_status(all.take(i as int), status@),
        decreases files@.len() - i,
    {
        proof {
            assert(all.take(i + 1).drop_last() =~= all.take(i as int));
            assert(all.take(i + 1).last() == files@[i as int]@);
        }
        if str_eq(files[i].status.as_str(), status) {
            n = n + 1;
        }
        i = i + 1;
    }
    assert(all.take(i as int) =~= all);
    n
}

fn count_staged(files: &Vec<ChangedFile>) -> (r: (usize, usize))
    ensures
        r.0 == staged_files(views(files@)),
        r.1 == unstaged_files(views(files@)),
{
    let ghost all = views(files@);
    let mut staged: usize = 0;
    let mut unstaged: usize = 0;
    let mut i: usize = 0;
    assert(all.take(0) =~= seq![]);
    while i < files.len()
        invariant
            i <= files@.len(),
            staged <= i,
            unstaged <= i,
            all == views(files@),
            staged == staged_files(all.take(i as int)),
            unstaged == unstaged_files(all.take(i as int)),
        decreases files@.len() - i,
    {
        proof {
            assert(all.take(i + 1).drop_last() =~= all.take(i as int));
            assert(all.take(i + 1).last() == files@[i as int]@);
        }
        if files[i].staged {
            staged = staged + 1;
        }
        if files[i].unstaged {
            unstaged = unstaged + 1;
        }
        i = i + 1;
    }
    assert(all.take(i as int) =~= all);
    (staged, unstaged)
}

// ---------------------------------------------------------------------------
// Files and warnings as JSON
// ---------------------------------------------------------------------------

/// A changed file as JSON.
pub open spec fn changed_tree(f: ChangedModel) -> Tree {
    let members = no_fields()
        .push(field("path"@, Tree::Text(f.path)))
        .push(field("status"@, Tree::Text(f.status)))
        .push(field("staged"@, Tree::Bool(f.staged)))
        .push(field("unstaged"@, Tree::Bool(f.unstaged)))
        .push(field("kind"@, Tree::Text(if f.untracked { "untracked"@ } else { "tracked"@ })));
    Tree::Object(
        if f.old_path is Some {
            members.push(field("old_path"@, Tree::Text(f.old_path->0)))
        } else {
            members
        },
    )
}

/// The warning about an untracked file.
pub open spec fn untracked_warning(path: Seq<char>) -> Tree {
    Tree::Object(
        if is_smoke_path(path) {
            no_fields()
                .push(field("kind"@, Tree::Text("untracked_smoke_file"@)))
                .push(field("path"@, Tree::Text(path)))
                .push(field("message"@, Tree::Text("untracked smoke/tmp/test/anchor file should be reviewed before commit"@)))
        } else {
            no_fields()
                .push(field("kind"@, Tree::Text("untracked_file"@)))
                .push(field("path"@, Tree::Text(path)))
                .push(field("message"@, Tree::Text("untracked file should be reviewed before commit"@)))
        },
    )
}

/// The warnings about files: one for each untracked file.
pub open spec fn untracked_warnings(files: Seq<ChangedModel>) -> Seq<Tree>
    decreases files.len(),
{
    if files.len() == 0 {
        seq![]
    } else {
        let front = untracked_warnings(files.drop_last());
        if files.last().untracked {
            front.push(untracked_warning(files.last().path))
        } else {
            front
        }
    }
}

/// Whether one of the warnings is about a file left behind by a trial.
pub open spec fn warns_of_smoke(warnings: Seq<Tree>) -> bool {
    exists|i: int|
        0 <= i < warnings.len() && (#[trigger] warnings[i]).at("kind"@) == Tree::Text(
            "untracked_smoke_file"@,
        )
}

fn changed_json(f: &ChangedFile) -> (r: Json)
    ensures
        r@ == changed_tree(f@),
{
    let members = ObjectBuilder::new().with("path", text(f.path.as_str())).with(
        "status",
        text(f.status.as_str()),
    ).with("staged", boolean(f.staged)).with("unstaged", boolean(f.unstaged)).with(
        "kind",
        text(
            if f.untracked {
                "untracked"
            } else {
                "tracked"
            },
        ),
    );
    match &f.old_path {
        Some(p) => members.with("old_path", text(p.as_str())).build(),
        None => members.build(),
    }
}

fn warning_json(path: &str) -> (r: Json)
    ensures
        r@ == untracked_warning(path@),
{
    if looks_like_smoke_path(path) {
        ObjectBuilder::new().with("kind", text("untracked_smoke_file")).with(
            "path",
            text(path),
        ).with(
            "message",
            text("untracked smoke/tmp/test/anchor file should be reviewed before commit"),
        ).build()
    } else {
        ObjectBuilder::new().with("kind", text("untracked_file")).with("path", text(path)).with(
            "message",
            text("untracked file should be reviewed before commit"),
        ).build()
    }
}

fn files_and_warnings(files: &Vec<ChangedFile>) -> (r: (Vec<Json>, Vec<Json>))
    ensures
        trees(r.0@) == views(files@).map_values(|f: ChangedModel| changed_tree(f)),
        trees(r.1@) == untracked_warnings(views(files@)),
{
    let ghost all = views(files@);
    let mut out: Vec<Json> = Vec::new();
    let mut warnings: Vec<Json> = Vec::new();
    let mut i: usize = 0;
    assert(all.take(0) =~= seq![]);
    assert(trees(warnings@) =~= seq![]);
    while i < files.len()
        invariant
            i <= files@.len(),
            all == views(files@),
            out@.len() == i,
            forall|j: int| 0 <= j < i ==> (#[trigger] out@[j])@ == changed_tree(all[j]),
            trees(warnings@) == untracked_warnings(all.take(i as int)),
        decreases files@.len() - i,
    {
        proof {
            assert(all.take(i + 1).drop_last() =~= all.take(i as int));
            assert(all.take(i + 1).last() == files@[i as int]@);
        }
        out.push(changed_json(&files[i]));
        if files[i].untracked {
            let ghost before = trees(warnings@);
            let w = warning_json(files[i].path.as_str());
            warnings.push(w);
            assert(trees(warnings@) =~= before.push(w@));
        }
        i = i + 1;
    }
    assert(all.take(i as int) =~= all);
    assert(trees(out@) =~= all.map_values(|f: ChangedModel| changed_tree(f)));
    (out, warnings)
}

/// Whether one of the warnings is about a file left behind by a trial.
pub fn has_smoke_warning(warnings: &Vec<Json>) -> (r: bool)
    ensures
        r == warns_of_smoke(trees(warnings@)),
{
    let mut i: usize = 0;
    while i < warnings.len()
        invariant
            i <= warnings@.len(),
            forall|j: int|
                0 <= j < i ==> (#[trigger] trees(warnings@)[j]).at("kind"@) != Tree::Text(
                    "untracked_smoke_file"@,
                ),
        decreases warnings@.len() - i,
    {
        let kind = warnings[i].get("kind");
        if let Some(k) = kind {
            if let Some(word) = k.as_str() {
                if str_eq(word, "untracked_smoke_file") {
                    assert(trees(warnings@)[i as int].at("kind"@) == Tree::Text(
                        "untracked_smoke_file"@,
                    ));
                    return true;
                }
            }
        }
        assert(trees(warnings@)[i as int] == warnings@[i as int]@);
        i = i + 1;
    }
    false
}

// ---------------------------------------------------------------------------
// Suggestions
// ---------------------------------------------------------------------------

/// What a session did, as far as suggestions depend on it.
#[derive(Debug, Clone, Copy)]
pub struct SessionActionSignals {
    pub failed: bool,
    pub write_like: bool,
    pub shell_like: bool,
}

/// What is suggested next.
pub open spec fn next_actions(
    clean: bool,
    has_untracked: bool,
    has_smoke: bool,
    session: Option<SessionActionSignals>,
) -> Seq<Seq<char>> {
    let failed = session is Some && session->0.failed;
    let write_like = session is Some && session->0.write_like;
    let shell_like = session is Some && session->0.shell_like;
    let a = with_if(Seq::empty(), clean && !failed, "no changes detected"@);
    let a = with_if(a, !clean, "review diff"@);
    let a = with_if(a, !clean, "run focused tests"@);
    let a = with_if(a, !clean && has_untracked, "review untracked files before commit"@);
    let a = with_if(
        a,
        !clean && has_smoke,
        "clean untracked smoke/tmp files or intentionally commit them"@,
    );
    let a = with_if(a, !clean, "commit or revert changes after review"@);
    let a = with_if(a, failed, "review failed tool calls in session_summary"@);
    let a = with_if(a, write_like, "review changed paths from this session"@);
    with_if(a, shell_like, "check command/test results before commit"@)
}

/// What is suggested next.
pub fn suggested_next_actions_for(
    clean: bool,
    has_untracked: bool,
    has_smoke_warning: bool,
    session: Option<SessionActionSignals>,
) -> (r: Vec<String>)
    ensures
        texts(r@) == next_actions(clean, has_untracked, has_smoke_warning, session),
{
    let (failed, write_like, shell_like) = match session {
        Some(s) => (s.failed, s.write_like, s.shell_like),
        None => (false, false, false),
    };
    let mut actions = no_texts();
    push_if(&mut actions, clean && !failed, "no changes detected");
    push_if(&mut actions, !clean, "review diff");
    push_if(&mut actions, !clean, "run focused tests");
    push_if(&mut actions, !clean && has_untracked, "review untracked files before commit");
    push_if(
        &mut actions,
        !clean && has_smoke_warning,
        "clean untracked smoke/tmp files or intentionally commit them",
    );
    push_if(&mut actions, !clean, "commit or revert changes after review");
    push_if(&mut actions, failed, "review failed tool calls in session_summary");
    push_if(&mut actions, write_like, "review changed paths from this session");
    push_if(&mut actions, shell_like, "check command/test results before commit");
    actions
}

// ---------------------------------------------------------------------------
// The overview
// ---------------------------------------------------------------------------

/// The last commit as JSON: its id, its short id and its summary, which the output
/// separates by NUL. Without an id there is none.
pub open spec fn head_tree(head: Seq<char>) -> Tree {
    let (first, rest) = match cut_at(head, "\0"@) {
        Some((a, b)) => (a, b),
        None => (head, seq![]),
    };
    let (second, third) = match cut_at(rest, "\0"@) {
        Some((a, b)) => (a, b),
        None => (rest, seq![]),
    };
    let commit = trim(first);
    let short = trim(second);
    Tree::Object(
        if commit.len() == 0 {
            no_fields()
                .push(field("commit"@, Tree::Null))
                .push(field("short"@, Tree::Null))
                .push(field("summary"@, Tree::Null))
        } else {
            no_fields()
                .push(field("commit"@, Tree::Text(commit)))
                .push(field("short"@, Tree::Text(if short.len() > 0 { short } else if commit.len() <= 7 { commit } else { commit.take(7) })))
                .push(field("summary"@, Tree::Text(trim(third))))
        },
    )
}

/// Reads the last commit.
pub fn parse_show_changes_head(head: &str) -> (r: Json)
    ensures
        r@ == head_tree(head@),
{
    proof {
        reveal_strlit("");
    }
    let none = "";
    assert(none@ =~= seq![]);
    let (first, rest) = match split_once(head, "\0") {
        Some((a, b)) => (a, b),
        None => (head, none),
    };
    let (second, third) = match split_once(rest, "\0") {
        Some((a, b)) => (a, b),
        None => (rest, none),
    };
    let commit = str_trim(first);
    let short = str_trim(second);
    let summary = str_trim(third);
    if commit.is_empty() {
        ObjectBuilder::new().with("commit", null()).with("short", null()).with(
            "summary",
            null(),
        ).build()
    } else {
        let shown = if !short.is_empty() {
            short
        } else if char_count(commit) <= 7 {
            commit
        } else {
            assert(commit@.subrange(0, 7) =~= commit@.take(7));
            commit.substring_char(0, 7)
        };
        ObjectBuilder::new().with("commit", text(commit)).with("short", text(shown)).with(
            "summary",
            text(summary),
        ).build()
    }
}

/// The number of files by status, as JSON.
pub open spec fn counts_tree(files: Seq<ChangedModel>) -> Tree {
    Tree::Object(
        no_fields()
            .push(field("modified"@, Tree::Number(with_status(files, "modified"@) as int)))
            .push(field("added"@, Tree::Number(with_status(files, "added"@) as int)))
            .push(field("deleted"@, Tree::Number(with_status(files, "deleted"@) as int)))
            .push(field("renamed"@, Tree::Number(with_status(files, "renamed"@) as int)))
            .push(field("copied"@, Tree::Number(with_status(files, "copied"@) as int)))
            .push(field("untracked"@, Tree::Number(with_status(files, "untracked"@) as int)))
            .push(field("staged"@, Tree::Number(staged_files(files) as int)))
            .push(field("unstaged"@, Tree::Number(unstaged_files(files) as int))),
    )
}

fn counts_json(files: &Vec<ChangedFile>) -> (r: Json)
    ensures
        r@ == counts_tree(views(files@)),
{
    let (staged, unstaged) = count_staged(files);
    ObjectBuilder::new().with("modified", number(count_status(files, "modified"))).with(
        "added",
        number(count_status(files, "added")),
    ).with("deleted", number(count_status(files, "deleted"))).with(
        "renamed",
        number(count_status(files, "renamed")),
    ).with("copied", number(count_status(files, "copied"))).with(
        "untracked",
        number(count_status(files, "untracked")),
    ).with("staged", number(staged)).with("unstaged", number(unstaged)).build()
}

/// An exit code as JSON.
pub open spec fn exit_code_tree(code: Option<i32>) -> Tree {
    match code {
        Some(c) => Tree::Number(c as int),
        None => Tree::Null,
    }
}

/// An exit code as JSON.
pub fn exit_code_json(code: Option<i32>) -> (r: Json)
    ensures
        r@ == exit_code_tree(code),
{
    match code {
        Some(c) => signed(c as i64),
        None => null(),
    }
}

/// The overview of the changes, without hunks.
pub open spec fn overview(
    project: Seq<char>,
    status: Seq<char>,
    head: Seq<char>,
    diff_stat: Seq<char>,
    exit_code: Option<i32>,
    stderr: Seq<char>,
) -> Seq<crate::json::Field> {
    let files = changed_files(lines_of(status));
    let warnings = untracked_warnings(files);
    no_fields()
        .push(field("project"@, Tree::Text(project)))
        .push(field("branch"@, opt_text_tree(last_branch(lines_of(status)))))
        .push(field("head"@, head_tree(head)))
        .push(field("clean"@, Tree::Bool(files.len() == 0)))
        .push(field("counts"@, counts_tree(files)))
        .push(field("files"@, Tree::Array(files.map_values(|f: ChangedModel| changed_tree(f)))))
        .push(field("diff_stat"@, Tree::Text(diff_stat)))
        .push(field("warnings"@, Tree::Array(warnings)))
        .push(field("suggested_next_actions"@, text_trees(next_actions(files.len() == 0, with_status(files, "untracked"@) > 0, warns_of_smoke(warnings), None))))
        .push(field("session"@, Tree::Null))
        .push(field("exit_code"@, exit_code_tree(exit_code)))
        .push(field("stderr"@, Tree::Text(stderr)))
}

/// The overview of the changes; with a diff also its hunks.
pub open spec fn overview_tree(
    project: Seq<char>,
    status: Seq<char>,
    head: Seq<char>,
    diff_stat: Seq<char>,
    diff: Option<Seq<char>>,
    max_hunks: usize,
    max_hunk_lines: usize,
    exit_code: Option<i32>,
    stderr: Seq<char>,
) -> Tree {
    let members = overview(project, status, head, diff_stat, exit_code, stderr);
    Tree::Object(
        match diff {
            Some(d) => {
                let s = read_diff(lines_of(d), max_hunks as nat, max_hunk_lines as nat);
                members.push(field("hunks"@, files_tree(s.all_files()))).push(
                    field("hunk_count"@, Tree::Number(s.count as int)),
                ).push(field("hunks_truncated"@, Tree::Bool(s.truncated)))
            },
            None => members,
        },
    )
}

/// Reads the output of the change overview.
pub fn parse_show_changes_output(
    project: &str,
    status_stdout: &str,
    head_stdout: &str,
    diff_stat: &str,
    diff_stdout: Option<&str>,
    max_hunks: usize,
    max_hunk_lines: usize,
    exit_code: Option<i32>,
    stderr: &str,
) -> (r: Json)
    ensures
        r@ == overview_tree(
            project@,
            status_stdout@,
            head_stdout@,
            diff_stat@,
            match diff_stdout {
                Some(d) => Some(d@),
                None => None,
            },
            max_hunks,
            max_hunk_lines,
            exit_code,
            stderr@,
        ),
{
    let (branch, files) = read_status(status_stdout);
    let (file_values, warnings) = files_and_warnings(&files);
    let clean = files.len() == 0;
    assert(views(files@).len() == files@.len());
    let untracked = count_status(&files, "untracked");
    let smoke = has_smoke_warning(&warnings);
    let actions = suggested_next_actions_for(clean, untracked > 0, smoke, None);
    let members = ObjectBuilder::new().with("project", text(project)).with(
        "branch",
        opt_text_json(&branch),
    ).with("head", parse_show_changes_head(head_stdout)).with("clean", boolean(clean)).with(
        "counts",
        counts_json(&files),
    ).with("files", array(file_values)).with("diff_stat", text(diff_stat)).with(
        "warnings",
        array(warnings),
    ).with("suggested_next_actions", text_array(&actions)).with("session", null()).with(
        "exit_code",
        exit_code_json(exit_code),
    ).with("stderr", text(stderr));
    match diff_stdout {
        Some(diff) => {
            let (hunks, count, truncated) = parse_git_diff_hunks(diff, max_hunks, max_hunk_lines);
            members.with("hunks", files_json(&hunks)).with("hunk_count", number(count)).with(
                "hunks_truncated",
                boolean(truncated),
            ).build()
        },
        None => members.build(),
    }
}

// ---------------------------------------------------------------------------
// Previews of untracked files
// ---------------------------------------------------------------------------

/// The previews in a JSON value, and whether there are more.
pub open spec fn previews_in(value: Tree) -> Result<(Seq<Tree>, bool), Seq<char>> {
    match value {
        Tree::Array(items) => Ok((items, false)),
        Tree::Object(_) => Ok(
            (
                value.at("previews"@).items(),
                value.at("truncated"@).as_bool() == Some(true),
            ),
        ),
        _ => Err("untracked preview JSON must be an array or object"@),
    }
}

/// The previews that the output of the preview script holds.
pub open spec fn previews_of(stdout: Seq<char>) -> Result<(Seq<Tree>, bool), Seq<char>> {
    if trim(stdout).len() == 0 {
        Ok((seq![], false))
    } else {
        match parsed_json(trim(stdout)) {
            Ok(value) => previews_in(value),
            Err(e) => Err("failed to parse untracked preview JSON: "@ + e),
        }
    }
}

/// The value of previews.
pub open spec fn previews_view(r: Result<(Vec<Json>, bool), String>) -> Result<
    (Seq<Tree>, bool),
    Seq<char>,
> {
    match r {
        Ok((items, truncated)) => Ok((trees(items@), truncated)),
        Err(e) => Err(e@),
    }
}

/// The previews in a JSON value, and whether there are more.
pub fn untracked_previews(value: &Json) -> (r: Result<(Vec<Json>, bool), String>)
    ensures
        previews_view(r) == previews_in(value@),
{
    if value.as_array().is_some() {
        return Ok((copy_items(Some(value)), false));
    }
    if value.is_object() {
        let previews = copy_items(value.get("previews"));
        let truncated = match value.get("truncated") {
            Some(t) => match t.as_bool() {
                Some(b) => b,
                None => false,
            },
            None => false,
        };
        return Ok((previews, truncated));
    }
    Err("untracked preview JSON must be an array or object".to_owned())
}

/// Reads the output of the preview script.
pub fn parse_untracked_previews_stdout(preview_stdout: &str) -> (r: Result<
    (Vec<Json>, bool),
    String,
>)
    ensures
        previews_view(r) == previews_of(preview_stdout@),
{
    let stdout = str_trim(preview_stdout);
    if stdout.is_empty() {
        let none: Vec<Json> = Vec::new();
        assert(trees(none@) =~= seq![]);
        return Ok((none, false));
    }
    match parse_json(stdout) {
        Ok(value) => untracked_previews(&value),
        Err(e) => Err(concat2("failed to parse untracked preview JSON: ", e.as_str())),
    }
}

/// The object with the name present: with null where it was not.
pub open spec fn with_name(output: Tree, name: Seq<char>) -> Tree {
    if output.get(name) is Some {
        output
    } else {
        output.put(name, Tree::Null)
    }
}

/// The overview with one more warning, where it holds a list of them.
pub open spec fn with_warning(output: Tree, warning: Tree) -> Tree {
    let o = with_name(output, "warnings"@);
    o.put("warnings"@, o.at("warnings"@).push(warning))
}

fn add_warning(output: &mut Json, warning: Json)
    ensures
        final(output)@ == with_warning(old(output)@, warning@),
{
    if output.get("warnings").is_none() {
        output.set("warnings", null());
    }
    let mut warnings = match output.get("warnings") {
        Some(w) => w.copy(),
        None => null(),
    };
    warnings.push(warning);
    output.set("warnings", warnings);
}

/// The overview with the previews; where they cannot be read, without them and with
/// a warning.
pub open spec fn with_previews(output: Tree, previews: Result<(Seq<Tree>, bool), Seq<char>>) -> Tree {
    match previews {
        Ok((items, truncated)) => output.put("untracked_previews"@, Tree::Array(items)).put(
            "untracked_previews_truncated"@,
            Tree::Bool(truncated),
        ),
        Err(e) => with_warning(
            output.put("untracked_previews"@, Tree::Array(Seq::empty())).put(
                "untracked_previews_truncated"@,
                Tree::Bool(false),
            ),
            Tree::Object(
                no_fields().push(
                    field("kind"@, Tree::Text("untracked_preview_parse_failed"@)),
                ).push(field("message"@, Tree::Text(e))),
            ),
        ),
    }
}

/// Adds previews, or the complaint that they cannot be read, to the overview.
pub fn add_untracked_previews(output: &mut Json, previews: Result<(Vec<Json>, bool), String>)
    ensures
        final(output)@ == with_previews(old(output)@, previews_view(previews)),
{
    match previews {
        Ok((items, truncated)) => {
            output.set("untracked_previews", array(items));
            output.set("untracked_previews_truncated", boolean(truncated));
        },
        Err(e) => {
            let none: Vec<Json> = Vec::new();
            assert(trees(none@) =~= Seq::empty());
            output.set("untracked_previews", array(none));
            output.set("untracked_previews_truncated", boolean(false));
            add_warning(
                output,
                ObjectBuilder::new().with("kind", text("untracked_preview_parse_failed")).with(
                    "message",
                    text(e.as_str()),
                ).build(),
            );
        },
    }
}

/// Adds the previews that the output of the preview script holds to the overview.
pub fn apply_show_changes_untracked_previews(output: &mut Json, preview_stdout: &str)
    ensures
        final(output)@ == with_previews(old(output)@, previews_of(preview_stdout@)),
{
    let previews = parse_untracked_previews_stdout(preview_stdout);
    add_untracked_previews(output, previews);
}

// ---------------------------------------------------------------------------
// The session
// ---------------------------------------------------------------------------

/// Whether a count of a session is above zero.
pub open spec fn counts_some(counts: Tree, name: Seq<char>) -> bool {
    counts.at(name).as_u64() is Some && counts.at(name).as_u64()->0 > 0
}

fn has_count(counts: &Json, name: &str) -> (r: bool)
    ensures
        r == counts_some(counts@, name@),
{
    match counts.get(name) {
        Some(n) => match n.as_u64() {
            Some(k) => k > 0,
            None => false,
        },
        None => false,
    }
}

/// The suggestions of the overview, made anew for a session.
pub open spec fn with_suggestions(output: Tree, session: Option<SessionActionSignals>) -> Tree {
    output.put(
        "suggested_next_actions"@,
        text_trees(
            next_actions(
                output.at("clean"@).as_bool() == Some(true),
                counts_some(output.at("counts"@), "untracked"@),
                warns_of_smoke(output.at("warnings"@).items()),
                session,
            ),
        ),
    )
}

/// Makes the suggestions of the overview anew.
pub fn refresh_show_changes_suggestions(output: &mut Json, session: Option<SessionActionSignals>)
    ensures
        final(output)@ == with_suggestions(old(output)@, session),
{
    let clean = match output.get("clean") {
        Some(c) => match c.as_bool() {
            Some(b) => b,
            None => false,
        },
        None => false,
    };
    let has_untracked = match output.get("counts") {
        Some(counts) => has_count(counts, "untracked"),
        None => false,
    };
    let warnings = copy_items(output.get("warnings"));
    let smoke = has_smoke_warning(&warnings);
    let actions = suggested_next_actions_for(clean, has_untracked, smoke, session);
    output.set("suggested_next_actions", text_array(&actions));
}

/// A session that was found, as the overview tells of it.
pub open spec fn session_tree(s: SessionSummary) -> Tree {
    Tree::Object(
        no_fields()
            .push(field("found"@, Tree::Bool(true)))
            .push(field("session_id"@, Tree::Text(s.session_id@)))
            .push(field("project"@, opt_text_tree(opt_text(s.project))))
            .push(field("title"@, opt_text_tree(opt_text(s.title))))
            .push(field("created_at"@, Tree::Number(s.created_at as int)))
            .push(field("updated_at"@, Tree::Number(s.updated_at as int)))
            .push(field("counts"@, s.counts@))
            .push(field("changed_paths"@, text_trees(paths_changed(s.events@))))
            .push(field("recent_events"@, events_tree(s.events@))),
    )
}

/// What a session did, as far as suggestions depend on it.
pub open spec fn signals_of(s: SessionSummary) -> SessionActionSignals {
    SessionActionSignals {
        failed: counts_some(s.counts@, "failed"@),
        write_like: counts_some(s.counts@, "write_like"@),
        shell_like: counts_some(s.counts@, "shell_like"@),
    }
}

/// The overview with what is known of the session that was asked for.
pub open spec fn with_session(
    output: Tree,
    session_id: Option<Seq<char>>,
    summary: Option<SessionSummary>,
) -> Tree {
    match session_id {
        None => output.put("session"@, Tree::Null),
        Some(id) => match summary {
            Some(s) => with_suggestions(
                output.put("session"@, session_tree(s)),
                Some(signals_of(s)),
            ),
            None => with_suggestions(
                with_warning(
                    output.put(
                        "session"@,
                        Tree::Object(
                            no_fields()
                                .push(field("found"@, Tree::Bool(false)))
                                .push(field("session_id"@, Tree::Text(id)))
                                .push(field("message"@, Tree::Text("session not found"@))),
                        ),
                    ),
                    Tree::Object(
                        no_fields()
                            .push(field("kind"@, Tree::Text("session_not_found"@)))
                            .push(field("session_id"@, Tree::Text(id)))
                            .push(field("message"@, Tree::Text("session not found"@))),
                    ),
                ),
                None,
            ),
        },
    }
}

/// Adds to the overview what is known of the session that was asked for.
pub fn apply_show_changes_session(
    output: &mut Json,
    session_id: Option<&str>,
    summary: Option<SessionSummary>,
)
    ensures
        final(output)@ == with_session(old(output)@, opt_str(session_id), summary),
{
    let Some(id) = session_id else {
        output.set("session", null());
        return;
    };
    match summary {
        Some(s) => {
            let changed_paths = session_changed_paths(&s.events);
            let signals = SessionActionSignals {
                failed: has_count(&s.counts, "failed"),
                write_like: has_count(&s.counts, "write_like"),
                shell_like: has_count(&s.counts, "shell_like"),
            };
            let members = ObjectBuilder::new()
                .with("found", boolean(true))
                .with("session_id", text(s.session_id.as_str()))
                .with("project", opt_text_json(&s.project))
                .with("title", opt_text_json(&s.title))
                .with("created_at", signed(s.created_at))
                .with("updated_at", signed(s.updated_at))
                .with("counts", s.counts.copy())
                .with("changed_paths", text_array(&changed_paths))
                .with("recent_events", events_json(&s.events));
            output.set("session", members.build());
            refresh_show_changes_suggestions(output, Some(signals));
        },
        None => {
            output.set(
                "session",
                ObjectBuilder::new()
                    .with("found", boolean(false))
                    .with("session_id", text(id))
                    .with("message", text("session not found"))
                    .build(),
            );
            add_warning(
                output,
                ObjectBuilder::new()
                    .with("kind", text("session_not_found"))
                    .with("session_id", text(id))
                    .with("message", text("session not found"))
                    .build(),
            );
            refresh_show_changes_suggestions(output, None);
        },
    }
}

} // verus!
