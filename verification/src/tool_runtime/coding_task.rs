//! Starting and finishing a coding task: what is gathered, how it is judged and
//! what is suggested. Nothing is summarized in prose.
use crate::json::{
    array, boolean, copy_or, count_of, empty_array, empty_object, extend_items, field, no_fields,
    no_items, no_trees, null, number, opt_text_json, opt_text_tree, push_json, text, text_array,
    text_trees, tree_or, trees, unsigned, ArrayBuilder, Json, ObjectBuilder, Tree,
};
use crate::lines::{lines_of, split_lines};
use crate::text::{
    char_count, lemma_texts_push, opt_str, opt_text, starts_with, str_eq, str_trim, texts, trim,
};
use crate::tool_runtime::actions::{no_texts, push_if, push_unique_action, with_if, with_unique};
use crate::tool_runtime::handoff::{
    bool_or, compact_summary, compact_tree, compact_workflow_verdict, failure_actions,
    failure_suggestions, some_of, verdict_tree,
};
use crate::tool_runtime::project_resolution::{Executor, ResolvedModel, ResolvedProject};
use vstd::prelude::*;
use vstd::string::*;

verus! {

pub const RULES_MAX_HEADINGS: usize = 8;

pub const RULES_MAX_FIRST_LINES: usize = 5;

pub const RULES_MAX_LINE_CHARS: usize = 180;

// ---------------------------------------------------------------------------
// Project rules
// ---------------------------------------------------------------------------

/// A file with rules for the project.
#[derive(Debug)]
pub struct ProjectInstructionFile {
    pub path: String,
    pub chars: usize,
    pub total_lines: usize,
    pub start_line: usize,
    pub limit: usize,
    pub truncated: bool,
    /// How to read on, where there is more.
    pub read_more: Json,
    pub content: String,
}

/// The files with rules for the project that were found.
#[derive(Debug)]
pub struct ProjectInstructionsSnapshot {
    pub loaded: bool,
    pub files: Vec<ProjectInstructionFile>,
    pub candidate_paths: Vec<String>,
    pub total_chars: usize,
    pub max_total_chars: usize,
    pub truncated: bool,
    pub note: Option<String>,
}

/// At most the first characters of a line.
pub open spec fn bounded_line(line: Seq<char>) -> Seq<char> {
    if line.len() <= RULES_MAX_LINE_CHARS {
        line
    } else {
        line.take(RULES_MAX_LINE_CHARS as int)
    }
}

/// At most the first characters of a line.
pub fn bound_line(line: &str) -> (r: String)
    ensures
        r@ == bounded_line(line@),
{
    if char_count(line) <= RULES_MAX_LINE_CHARS {
        line.to_owned()
    } else {
        assert(line@.subrange(0, RULES_MAX_LINE_CHARS as int) =~= line@.take(
            RULES_MAX_LINE_CHARS as int,
        ));
        line.substring_char(0, RULES_MAX_LINE_CHARS).to_owned()
    }
}

/// Whether a line is shown: a heading, or any line that is not empty.
pub open spec fn is_shown(line: Seq<char>, headings: bool) -> bool {
    if headings {
        "#"@.is_prefix_of(line)
    } else {
        line.len() > 0
    }
}

/// The first `max` lines that are shown, trimmed and bounded.
pub open spec fn shown_lines(lines: Seq<Seq<char>>, headings: bool, max: nat) -> Seq<Seq<char>>
    decreases lines.len(),
{
    if lines.len() == 0 || max == 0 {
        seq![]
    } else if is_shown(trim(lines[0]), headings) {
        seq![bounded_line(trim(lines[0]))] + shown_lines(lines.skip(1), headings, (max - 1) as nat)
    } else {
        shown_lines(lines.skip(1), headings, max)
    }
}

/// The first headings of a text.
pub open spec fn headings_of(content: Seq<char>) -> Seq<Seq<char>> {
    shown_lines(lines_of(content), true, RULES_MAX_HEADINGS as nat)
}

/// The first lines of a text that are not empty.
pub open spec fn first_lines_of(content: Seq<char>) -> Seq<Seq<char>> {
    shown_lines(lines_of(content), false, RULES_MAX_FIRST_LINES as nat)
}

fn collect_lines(content: &str, headings: bool, max: usize) -> (r: Vec<String>)
    ensures
        texts(r@) == shown_lines(lines_of(content@), headings, max as nat),
{
    let lines = split_lines(content);
    let ghost all = texts(lines@);
    let mut out = no_texts();
    let mut left: usize = max;
    let mut i: usize = 0;
    assert(all.skip(0) =~= all);
    assert(texts(out@) + shown_lines(all, headings, max as nat) =~= shown_lines(
        all,
        headings,
        max as nat,
    ));
    while i < lines.len() && left > 0
        invariant
            i <= lines@.len(),
            all == texts(lines@),
            texts(out@) + shown_lines(all.skip(i as int), headings, left as nat) == shown_lines(
                all,
                headings,
                max as nat,
            ),
        decreases lines@.len() - i,
    {
        let ghost rest = all.skip(i as int);
        let ghost before = texts(out@);
        assert(rest[0] == lines@[i as int]@);
        assert(rest.skip(1) =~= all.skip(i + 1));
        let line = str_trim(lines[i].as_str());
        let shown = if headings {
            starts_with(line, "#")
        } else {
            !line.is_empty()
        };
        if shown {
            let copy = bound_line(line);
            proof {
                lemma_texts_push(out@, copy);
            }
            out.push(copy);
            left = left - 1;
            proof {
                let more = shown_lines(all.skip(i + 1), headings, left as nat);
                assert(before + (seq![bounded_line(line@)] + more) =~= texts(out@) + more);
            }
        }
        i = i + 1;
    }
    assert(texts(out@) + shown_lines(all.skip(i as int), headings, left as nat) =~= texts(out@));
    out
}

/// The first headings of a text.
pub fn extract_headings(content: &str) -> (r: Vec<String>)
    ensures
        texts(r@) == headings_of(content@),
{
    collect_lines(content, true, RULES_MAX_HEADINGS)
}

/// The first lines of a text that are not empty.
pub fn extract_first_lines(content: &str) -> (r: Vec<String>)
    ensures
        texts(r@) == first_lines_of(content@),
{
    collect_lines(content, false, RULES_MAX_FIRST_LINES)
}

/// A source of project rules: where it is, and how it begins.
pub open spec fn rule_source_summary_tree(file: ProjectInstructionFile) -> Tree {
    Tree::Object(
        no_fields()
            .push(field("path"@, Tree::Text(file.path@)))
            .push(field("chars"@, Tree::Number(file.chars as int)))
            .push(field("total_lines"@, Tree::Number(file.total_lines as int)))
            .push(field("start_line"@, Tree::Number(file.start_line as int)))
            .push(field("limit"@, Tree::Number(file.limit as int)))
            .push(field("truncated"@, Tree::Bool(file.truncated)))
            .push(field("read_more"@, file.read_more@))
            .push(field("headings"@, text_trees(headings_of(file.content@))))
            .push(field("first_lines"@, text_trees(first_lines_of(file.content@)))),
    )
}

/// A source of project rules: where it is, and how it begins.
pub fn rule_source_summary(file: &ProjectInstructionFile) -> (r: Json)
    ensures
        r@ == rule_source_summary_tree(*file),
{
    let members =
        ObjectBuilder::new()
            .with("path", text(file.path.as_str()))
            .with("chars", number(file.chars))
            .with("total_lines", number(file.total_lines))
            .with("start_line", number(file.start_line))
            .with("limit", number(file.limit))
            .with("truncated", boolean(file.truncated))
            .with("read_more", file.read_more.copy())
            .with("headings", text_array(&extract_headings(file.content.as_str())))
            .with("first_lines", text_array(&extract_first_lines(file.content.as_str())));
    members.build()
}

/// The rules of the project: where they are, not what they say.
pub open spec fn rules_tree(snapshot: Option<ProjectInstructionsSnapshot>) -> Tree {
    match snapshot {
        None => Tree::Null,
        Some(s) => Tree::Object(
            no_fields()
                .push(field("present"@, Tree::Bool(s.loaded)))
                .push(field("loaded"@, Tree::Bool(s.loaded)))
                .push(field("sources"@, Tree::Array(Seq::new(s.files@.len(), |i: int| rule_source_summary_tree(s.files@[i])))))
                .push(field("candidate_paths"@, text_trees(texts(s.candidate_paths@))))
                .push(field("total_chars"@, Tree::Number(s.total_chars as int)))
                .push(field("max_total_chars"@, Tree::Number(s.max_total_chars as int)))
                .push(field("truncated"@, Tree::Bool(s.truncated)))
                .push(field("summary"@, Tree::Text(if s.loaded { "deterministic instruction source summary; read listed sources for full content"@ } else { "no project instruction source loaded from the fixed candidate list"@ })))
                .push(field("note"@, opt_text_tree(opt_text(s.note)))),
        ),
    }
}

/// The rules of the project: where they are, not what they say.
pub fn rules_summary(snapshot: &Option<ProjectInstructionsSnapshot>) -> (r: Json)
    ensures
        r@ == rules_tree(*snapshot),
{
    let Some(s) = snapshot else {
        return null();
    };
    let mut sources: Vec<Json> = Vec::new();
    let mut i: usize = 0;
    while i < s.files.len()
        invariant
            i <= s.files@.len(),
            sources@.len() == i,
            forall|j: int|
                0 <= j < i ==> (#[trigger] sources@[j])@ == rule_source_summary_tree(s.files@[j]),
        decreases s.files@.len() - i,
    {
        sources.push(rule_source_summary(&s.files[i]));
        i = i + 1;
    }
    assert(trees(sources@) =~= Seq::new(
        s.files@.len(),
        |i: int| rule_source_summary_tree(s.files@[i]),
    ));
    ObjectBuilder::new()
        .with("present", boolean(s.loaded))
        .with("loaded", boolean(s.loaded))
        .with("sources", array(sources))
        .with("candidate_paths", text_array(&s.candidate_paths))
        .with("total_chars", number(s.total_chars))
        .with("max_total_chars", number(s.max_total_chars))
        .with("truncated", boolean(s.truncated))
        .with("summary", text(if s.loaded { "deterministic instruction source summary; read listed sources for full content" } else { "no project instruction source loaded from the fixed candidate list" }))
        .with("note", opt_text_json(&s.note))
        .build()
}

// ---------------------------------------------------------------------------
// Payloads
// ---------------------------------------------------------------------------

/// The project that was resolved, as it is told.
pub open spec fn resolved_project_payload_tree(p: ResolvedModel) -> Tree {
    Tree::Object(
        no_fields()
            .push(field("input"@, Tree::Text(p.input)))
            .push(field("id"@, Tree::Text(p.resolved_id)))
            .push(field("path"@, Tree::Text(p.config.path)))
            .push(field("executor"@, Tree::Text(if p.config.executor == Executor::Agent { "agent"@ } else { "local"@ })))
            .push(field("client_id"@, opt_text_tree(p.config.client_id)))
            .push(field("allow_patch"@, Tree::Bool(p.config.allow_patch))),
    )
}

/// The project that was resolved, as it is told.
pub fn resolved_project_payload(p: &ResolvedProject) -> (r: Json)
    ensures
        r@ == resolved_project_payload_tree(p@),
{
    let members =
        ObjectBuilder::new()
            .with("input", text(p.input.as_str()))
            .with("id", text(p.resolved_id.as_str()))
            .with("path", text(p.config.path.as_str()))
            .with("executor", text(if p.config.is_agent() { "agent" } else { "local" }))
            .with("client_id", opt_text_json(&p.config.client_id))
            .with("allow_patch", boolean(p.config.allow_patch));
    members.build()
}

/// The tools for each part of the work.
pub open spec fn recommended_flow_payload_tree() -> Tree {
    Tree::Object(
        no_fields()
            .push(field("inspect"@, Tree::Array(no_trees().push(Tree::Text("read_file"@)).push(Tree::Text("search_project_text"@)).push(Tree::Text("show_changes"@)))))
            .push(field("edit"@, Tree::Array(no_trees().push(Tree::Text("replace_line_range"@)).push(Tree::Text("insert_at_line"@)).push(Tree::Text("delete_line_range"@)).push(Tree::Text("apply_text_edits"@)).push(Tree::Text("apply_patch_checked"@)))))
            .push(field("validate"@, Tree::Array(no_trees().push(Tree::Text("cargo_check"@)).push(Tree::Text("cargo_test"@)).push(Tree::Text("validate_patch"@)))))
            .push(field("review"@, Tree::Array(no_trees().push(Tree::Text("show_changes"@)).push(Tree::Text("git_diff_hunks"@)).push(Tree::Text("workspace_hygiene_check"@)))))
            .push(field("handoff"@, Tree::Array(no_trees().push(Tree::Text("session_summary"@)).push(Tree::Text("session_handoff_summary"@))))),
    )
}

/// The tools for each part of the work.
pub fn recommended_flow_payload() -> (r: Json)
    ensures
        r@ == recommended_flow_payload_tree(),
{
    let members =
        ObjectBuilder::new()
            .with("inspect", ArrayBuilder::new().with_text("read_file").with_text("search_project_text").with_text("show_changes").build())
            .with("edit", ArrayBuilder::new().with_text("replace_line_range").with_text("insert_at_line").with_text("delete_line_range").with_text("apply_text_edits").with_text("apply_patch_checked").build())
            .with("validate", ArrayBuilder::new().with_text("cargo_check").with_text("cargo_test").with_text("validate_patch").build())
            .with("review", ArrayBuilder::new().with_text("show_changes").with_text("git_diff_hunks").with_text("workspace_hygiene_check").build())
            .with("handoff", ArrayBuilder::new().with_text("session_summary").with_text("session_handoff_summary").build());
    members.build()
}

/// The part of the runtime status that a start needs.
pub open spec fn compact_startup_runtime_status_tree(status: Tree) -> Tree {
    Tree::Object(
        no_fields()
            .push(field("compact"@, Tree::Bool(true)))
            .push(field("build"@, Tree::Object(no_fields().push(field("version"@, status.at("version"@))).push(field("git_commit"@, status.at("build"@).at("git_commit"@))).push(field("git_dirty"@, status.at("build"@).at("git_dirty"@))))))
            .push(field("tools"@, Tree::Object(no_fields().push(field("count"@, status.at("tools"@).at("count"@))))))
            .push(field("jobs"@, Tree::Object(no_fields().push(field("active_count"@, status.at("jobs"@).at("active_count"@))))))
            .push(field("agents"@, Tree::Object(no_fields().push(field("summary"@, tree_or(status.at("agents"@).get("summary"@), Tree::Object(no_fields().push(field("count"@, Tree::Number(0))).push(field("online"@, Tree::Number(0))).push(field("offline"@, Tree::Number(0))).push(field("stale"@, Tree::Number(0))).push(field("clients"@, Tree::Array(Seq::empty()))))))))))
            .push(field("projects"@, Tree::Object(no_fields().push(field("effective"@, tree_or(status.at("projects"@).get("effective"@), Tree::Object(no_fields().push(field("count"@, Tree::Number(0))).push(field("status"@, Tree::Text("unknown"@))))))).push(field("agent_registered"@, tree_or(status.at("projects"@).get("agent_registered"@), Tree::Object(no_fields().push(field("count"@, Tree::Number(0))).push(field("online_count"@, Tree::Number(0))))))).push(field("server_static"@, Tree::Object(no_fields().push(field("status"@, status.at("projects"@).at("server_static"@).at("status"@))).push(field("severity"@, status.at("projects"@).at("server_static"@).at("severity"@))))))))),
    )
}

/// The part of the runtime status that a start needs.
pub fn compact_startup_runtime_status(status: &Json) -> (r: Json)
    ensures
        r@ == compact_startup_runtime_status_tree(status@),
{
    let members =
        ObjectBuilder::new()
            .with("compact", boolean(true))
            .with("build", ObjectBuilder::new().with("version", status.at("version")).with("git_commit", status.at2("build", "git_commit")).with("git_dirty", status.at2("build", "git_dirty")).build())
            .with("tools", ObjectBuilder::new().with("count", status.at2("tools", "count")).build())
            .with("jobs", ObjectBuilder::new().with("active_count", status.at2("jobs", "active_count")).build())
            .with("agents", ObjectBuilder::new().with("summary", copy_or(status.get2("agents", "summary"), ObjectBuilder::new().with("count", unsigned(0)).with("online", unsigned(0)).with("offline", unsigned(0)).with("stale", unsigned(0)).with("clients", empty_array()).build())).build())
            .with("projects", ObjectBuilder::new().with("effective", copy_or(status.get2("projects", "effective"), ObjectBuilder::new().with("count", unsigned(0)).with("status", text("unknown")).build())).with("agent_registered", copy_or(status.get2("projects", "agent_registered"), ObjectBuilder::new().with("count", unsigned(0)).with("online_count", unsigned(0)).build())).with("server_static", ObjectBuilder::new().with("status", status.at3("projects", "server_static", "status")).with("severity", status.at3("projects", "server_static", "severity")).build()).build());
    members.build()
}

/// The sum of the numbers of changed files by status.
pub open spec fn counts_sum(counts: Tree) -> int {
    count_of(counts.at("modified"@)) + count_of(counts.at("added"@)) + count_of(
        counts.at("deleted"@),
    ) + count_of(counts.at("renamed"@)) + count_of(counts.at("copied"@)) + count_of(
        counts.at("untracked"@),
    )
}

/// The sum of the numbers of changed files by status.
pub fn changed_files_count_from_counts(counts: &Json) -> (r: u64)
    requires
        counts_sum(counts@) <= u64::MAX,
    ensures
        r == counts_sum(counts@),
{
    counts.count_at("modified") + counts.count_at("added") + counts.count_at("deleted")
        + counts.count_at("renamed") + counts.count_at("copied") + counts.count_at("untracked")
}

/// The truth value under a name, or the default where there is none.
pub fn bool_at_or(v: &Json, name: &str, default: bool) -> (r: bool)
    ensures
        r == bool_or(v@.at(name@), default),
{
    match v.bool_at(name) {
        Some(b) => b,
        None => default,
    }
}

/// The workspace, as the overview of its changes tells it.
pub open spec fn workspace_payload_from_show_changes_tree(show_changes: Tree) -> Tree {
    Tree::Object(
        no_fields()
            .push(field("clean"@, Tree::Bool(bool_or(show_changes.at("clean"@), false))))
            .push(field("git_available"@, Tree::Bool(bool_or(show_changes.at("git_available"@), false))))
            .push(field("non_git_project"@, Tree::Bool(bool_or(show_changes.at("non_git_project"@), false))))
            .push(field("branch"@, show_changes.at("branch"@)))
            .push(field("head"@, show_changes.at("head"@)))
            .push(field("changed_files_count"@, Tree::Number(counts_sum(show_changes.at("counts"@)))))
            .push(field("counts"@, tree_or(show_changes.get("counts"@), Tree::Object(Seq::empty()))))
            .push(field("warnings"@, tree_or(show_changes.get("warnings"@), Tree::Array(Seq::empty())))),
    )
}

/// The workspace, as the overview of its changes tells it.
pub fn workspace_payload_from_show_changes(show_changes: &Json) -> (r: Json)
    requires
        counts_sum(show_changes@.at("counts"@)) <= u64::MAX,
    ensures
        r@ == workspace_payload_from_show_changes_tree(show_changes@),
{
    let members =
        ObjectBuilder::new()
            .with("clean", boolean(bool_at_or(show_changes, "clean", false)))
            .with("git_available", boolean(bool_at_or(show_changes, "git_available", false)))
            .with("non_git_project", boolean(bool_at_or(show_changes, "non_git_project", false)))
            .with("branch", show_changes.at("branch"))
            .with("head", show_changes.at("head"))
            .with("changed_files_count", unsigned(changed_files_count_from_counts(&show_changes.at("counts"))))
            .with("counts", copy_or(show_changes.get("counts"), empty_object()))
            .with("warnings", copy_or(show_changes.get("warnings"), empty_array()));
    members.build()
}

// ---------------------------------------------------------------------------
// The startup verdict
// ---------------------------------------------------------------------------

/// The outcome of a check: a status word and a reason, which is empty where there is
/// none.
pub struct Check {
    pub status: &'static str,
    pub reason: &'static str,
}

/// The mathematical value of a [`Check`].
#[verifier::ext_equal]
pub struct CheckModel {
    pub status: Seq<char>,
    pub reason: Seq<char>,
}

impl View for Check {
    type V = CheckModel;

    open spec fn view(&self) -> CheckModel {
        CheckModel { status: self.status@, reason: self.reason@ }
    }
}

/// A check that passed.
pub open spec fn passed() -> CheckModel {
    CheckModel { status: "pass"@, reason: ""@ }
}

/// A check that did not pass.
pub open spec fn not_passed(status: Seq<char>, reason: Seq<char>) -> CheckModel {
    CheckModel { status, reason }
}

fn pass() -> (r: Check)
    ensures
        r@ == passed(),
{
    Check { status: "pass", reason: "" }
}

fn warn(reason: &'static str) -> (r: Check)
    ensures
        r@ == not_passed("warn"@, reason@),
{
    Check { status: "warn", reason }
}

fn fail(reason: &'static str) -> (r: Check)
    ensures
        r@ == not_passed("fail"@, reason@),
{
    Check { status: "fail", reason }
}

/// Whether the runtime answers and has tools.
pub open spec fn runtime_check(output: Tree, requested: bool, call_failed: bool) -> CheckModel {
    let status = output.at("runtime_status"@);
    if !requested {
        not_passed("warn"@, "runtime_status_not_requested"@)
    } else if call_failed {
        not_passed("fail"@, "runtime_status_call_failed"@)
    } else if !(status is Object) {
        not_passed("fail"@, "runtime_status_unavailable"@)
    } else {
        match status.at("tools"@).at("count"@).as_u64() {
            Some(n) => if n > 0 {
                passed()
            } else {
                not_passed("fail"@, "tool_count_zero"@)
            },
            None => not_passed("warn"@, "tool_count_unknown"@),
        }
    }
}

/// Whether the runtime answers and has tools.
pub fn runtime_status_check(
    output: &Json,
    runtime_status_requested: bool,
    runtime_status_call_failed: bool,
) -> (r: Check)
    ensures
        r@ == runtime_check(output@, runtime_status_requested, runtime_status_call_failed),
{
    if !runtime_status_requested {
        return warn("runtime_status_not_requested");
    }
    if runtime_status_call_failed {
        return fail("runtime_status_call_failed");
    }
    let status = output.at("runtime_status");
    if !status.is_object() {
        return fail("runtime_status_unavailable");
    }
    match status.get2("tools", "count") {
        Some(count) => match count.as_u64() {
            Some(n) => if n > 0 {
                pass()
            } else {
                fail("tool_count_zero")
            },
            None => warn("tool_count_unknown"),
        },
        None => warn("tool_count_unknown"),
    }
}

/// Whether the workspace is clean.
pub open spec fn clean_check(output: Tree, requested: bool) -> CheckModel {
    let git = output.at("git"@);
    if !requested {
        not_passed("warn"@, "workspace_not_checked"@)
    } else if git.at("available"@).as_bool() == Some(false) {
        not_passed("warn"@, "git_unavailable"@)
    } else {
        match git.at("clean"@).as_bool() {
            Some(clean) => if clean {
                passed()
            } else {
                not_passed("fail"@, "workspace_dirty"@)
            },
            None => not_passed("warn"@, "workspace_unknown"@),
        }
    }
}

/// Whether the workspace is clean.
pub fn workspace_check(output: &Json, git_requested: bool) -> (r: Check)
    ensures
        r@ == clean_check(output@, git_requested),
{
    if !git_requested {
        return warn("workspace_not_checked");
    }
    if let Some(available) = output.bool_at2("git", "available") {
        if !available {
            return warn("git_unavailable");
        }
    }
    match output.bool_at2("git", "clean") {
        Some(clean) => if clean {
            pass()
        } else {
            fail("workspace_dirty")
        },
        None => warn("workspace_unknown"),
    }
}

/// Whether jobs run that stand in the way.
pub open spec fn jobs_check(output: Tree, requested: bool) -> CheckModel {
    let jobs = output.at("runtime_status"@).at("jobs"@);
    if !requested {
        not_passed("warn"@, "runtime_status_not_requested"@)
    } else if some_of(jobs.at("blocking_active_count"@)) {
        not_passed("fail"@, "blocking_active_jobs"@)
    } else {
        match jobs.at("active_count"@).as_u64() {
            Some(n) => if n == 0 {
                passed()
            } else {
                not_passed("warn"@, "active_jobs_present"@)
            },
            None => not_passed("warn"@, "jobs_unknown"@),
        }
    }
}

/// Whether jobs run that stand in the way.
pub fn startup_jobs_check(output: &Json, runtime_status_requested: bool) -> (r: Check)
    ensures
        r@ == jobs_check(output@, runtime_status_requested),
{
    if !runtime_status_requested {
        return warn("runtime_status_not_requested");
    }
    let jobs = output.at2("runtime_status", "jobs");
    if jobs.count_at("blocking_active_count") > 0 {
        return fail("blocking_active_jobs");
    }
    match jobs.u64_at("active_count") {
        Some(n) => if n == 0 {
            pass()
        } else {
            warn("active_jobs_present")
        },
        None => warn("jobs_unknown"),
    }
}

/// How many agents are online, as far as the runtime status says.
pub open spec fn agents_online(output: Tree) -> Option<u64> {
    let agents = output.at("runtime_status"@).at("agents"@);
    tree_or(agents.at("summary"@).get("online"@), agents.at("online_count"@)).as_u64()
}

/// Whether an agent is there for the project.
pub open spec fn agent_check(output: Tree, requested: bool) -> CheckModel {
    let executor = output.at("resolved_project"@).at("executor"@).as_text();
    let online = agents_online(output);
    if !requested {
        not_passed("warn"@, "runtime_status_not_requested"@)
    } else if executor == Some("agent"@) && online == Some(0u64) {
        not_passed("fail"@, "agent_offline"@)
    } else if executor == Some("local"@) || online is Some {
        passed()
    } else {
        not_passed("warn"@, "agent_health_unknown"@)
    }
}

/// Whether an agent is there for the project.
pub fn startup_agent_check(output: &Json, runtime_status_requested: bool) -> (r: Check)
    ensures
        r@ == agent_check(output@, runtime_status_requested),
{
    if !runtime_status_requested {
        return warn("runtime_status_not_requested");
    }
    let project = output.at("resolved_project");
    let agents = output.at2("runtime_status", "agents");
    let online = copy_or(agents.get2("summary", "online"), agents.at("online_count")).as_u64();
    let offline = match online {
        Some(n) => n == 0,
        None => false,
    };
    if project.is_text_at("executor", "agent") && offline {
        return fail("agent_offline");
    }
    if project.is_text_at("executor", "local") || online.is_some() {
        return pass();
    }
    warn("agent_health_unknown")
}

/// Whether the list of tools is there.
pub open spec fn manifest_check(output: Tree, requested: bool) -> CheckModel {
    let manifest = output.at("tool_manifest"@);
    if !requested {
        not_passed("warn"@, "tool_manifest_not_requested"@)
    } else if !(manifest is Object) {
        not_passed("fail"@, "tool_manifest_unavailable"@)
    } else if manifest.at("truncated"@).as_bool() == Some(true) {
        if manifest.at("truncation_reason"@).as_text() == Some("limit"@) {
            not_passed("warn"@, "truncated_by_limit"@)
        } else {
            not_passed("warn"@, "tool_manifest_truncated"@)
        }
    } else {
        passed()
    }
}

/// Whether the list of tools is there.
pub fn startup_tool_manifest_check(output: &Json, tool_manifest_requested: bool) -> (r: Check)
    ensures
        r@ == manifest_check(output@, tool_manifest_requested),
{
    if !tool_manifest_requested {
        return warn("tool_manifest_not_requested");
    }
    let manifest = output.at("tool_manifest");
    if !manifest.is_object() {
        return fail("tool_manifest_unavailable");
    }
    let truncated = match manifest.bool_at("truncated") {
        Some(b) => b,
        None => false,
    };
    if truncated {
        if manifest.is_text_at("truncation_reason", "limit") {
            return warn("truncated_by_limit");
        }
        return warn("tool_manifest_truncated");
    }
    pass()
}

/// A check as it is told.
pub open spec fn check_tree(name: Seq<char>, c: CheckModel) -> Tree {
    let members = no_fields().push(field("name"@, Tree::Text(name))).push(
        field("status"@, Tree::Text(c.status)),
    );
    Tree::Object(
        if c.reason.len() > 0 {
            members.push(field("reason"@, Tree::Text(c.reason)))
        } else {
            members
        },
    )
}

/// Adds a check to those that are told.
pub fn push_startup_check(checks: &mut Vec<Json>, name: &str, check: &Check)
    ensures
        trees(final(checks)@) == trees(old(checks)@).push(check_tree(name@, check@)),
{
    let members = ObjectBuilder::new().with("name", text(name)).with("status", text(check.status));
    let value = if !check.reason.is_empty() {
        members.with("reason", text(check.reason)).build()
    } else {
        members.build()
    };
    push_json(checks, value);
}

/// The worst of the statuses.
pub open spec fn worst_status(checks: Seq<CheckModel>) -> Seq<char> {
    if exists|i: int| 0 <= i < checks.len() && (#[trigger] checks[i]).status == "fail"@ {
        "fail"@
    } else if exists|i: int| 0 <= i < checks.len() && (#[trigger] checks[i]).status == "warn"@ {
        "warn"@
    } else {
        "pass"@
    }
}

/// The worst of the statuses.
pub fn aggregate_startup_status(checks: &Vec<Check>) -> (r: &'static str)
    ensures
        r@ == worst_status(crate::text::views(checks@)),
{
    let ghost all = crate::text::views(checks@);
    let mut warned = false;
    let mut i: usize = 0;
    while i < checks.len()
        invariant
            i <= checks@.len(),
            all == crate::text::views(checks@),
            forall|j: int| 0 <= j < i ==> (#[trigger] all[j]).status != "fail"@,
            warned == (exists|j: int| 0 <= j < i && (#[trigger] all[j]).status == "warn"@),
        decreases checks@.len() - i,
    {
        assert(all[i as int] == checks@[i as int]@);
        if str_eq(checks[i].status, "fail") {
            return "fail";
        }
        if str_eq(checks[i].status, "warn") {
            warned = true;
        }
        i = i + 1;
    }
    if warned {
        "warn"
    } else {
        "pass"
    }
}

/// What a reason suggests.
pub open spec fn action_for(reason: Seq<char>) -> Option<Seq<char>> {
    if reason == "runtime_status_not_requested"@ {
        Some("rerun startup with include_runtime_status=true and compact_startup=true for sanity"@)
    } else if reason == "runtime_status_call_failed"@ {
        Some("inspect runtime_status directly"@)
    } else if reason == "workspace_not_checked"@ {
        Some("run show_changes before editing or finishing"@)
    } else if reason == "workspace_dirty"@ {
        Some("review workspace changes with show_changes"@)
    } else if reason == "active_jobs_present"@ || reason == "blocking_active_jobs"@ {
        Some("inspect active jobs before proceeding"@)
    } else if reason == "agent_offline"@ {
        Some("check agent connectivity with list_agents"@)
    } else if reason == "tool_manifest_not_requested"@ {
        Some("request tool_manifest if workflow discovery is needed"@)
    } else if reason == "truncated_by_limit"@ {
        Some("continue with the bounded tool_manifest or request a focused category"@)
    } else if reason == "tool_manifest_unavailable"@ {
        Some("inspect tool_manifest directly"@)
    } else {
        None
    }
}

fn suggest(reason: &str) -> (r: Option<&'static str>)
    ensures
        action_for(reason@) == opt_str(r),
{
    if str_eq(reason, "runtime_status_not_requested") {
        Some("rerun startup with include_runtime_status=true and compact_startup=true for sanity")
    } else if str_eq(reason, "runtime_status_call_failed") {
        Some("inspect runtime_status directly")
    } else if str_eq(reason, "workspace_not_checked") {
        Some("run show_changes before editing or finishing")
    } else if str_eq(reason, "workspace_dirty") {
        Some("review workspace changes with show_changes")
    } else if str_eq(reason, "active_jobs_present") || str_eq(reason, "blocking_active_jobs") {
        Some("inspect active jobs before proceeding")
    } else if str_eq(reason, "agent_offline") {
        Some("check agent connectivity with list_agents")
    } else if str_eq(reason, "tool_manifest_not_requested") {
        Some("request tool_manifest if workflow discovery is needed")
    } else if str_eq(reason, "truncated_by_limit") {
        Some("continue with the bounded tool_manifest or request a focused category")
    } else if str_eq(reason, "tool_manifest_unavailable") {
        Some("inspect tool_manifest directly")
    } else {
        None
    }
}

/// What the checks suggest, each thing once.
pub open spec fn check_actions(checks: Seq<CheckModel>) -> Seq<Seq<char>>
    decreases checks.len(),
{
    if checks.len() == 0 {
        seq![]
    } else {
        let front = check_actions(checks.drop_last());
        match action_for(checks.last().reason) {
            Some(a) => with_unique(front, a),
            None => front,
        }
    }
}

fn collect_actions(checks: &Vec<Check>) -> (r: Vec<String>)
    ensures
        texts(r@) == check_actions(crate::text::views(checks@)),
{
    let ghost all = crate::text::views(checks@);
    let mut actions = no_texts();
    let mut i: usize = 0;
    assert(all.take(0) =~= seq![]);
    while i < checks.len()
        invariant
            i <= checks@.len(),
            all == crate::text::views(checks@),
            texts(actions@) == check_actions(all.take(i as int)),
        decreases checks@.len() - i,
    {
        proof {
            assert(all.take(i + 1).drop_last() =~= all.take(i as int));
            assert(all.take(i + 1).last() == checks@[i as int]@);
        }
        if let Some(action) = suggest(checks[i].reason) {
            push_unique_action(&mut actions, action);
        }
        i = i + 1;
    }
    assert(all.take(i as int) =~= all);
    actions
}

/// What was asked for at a start.
#[derive(Debug, Clone, Copy)]
pub struct StartupRequest {
    pub runtime_status: bool,
    pub runtime_status_failed: bool,
    pub git: bool,
    pub tool_manifest: bool,
}

/// The checks of a start, in their order.
pub open spec fn startup_checks(output: Tree, q: StartupRequest) -> Seq<CheckModel> {
    Seq::<CheckModel>::empty()
        .push(runtime_check(output, q.runtime_status, q.runtime_status_failed))
        .push(clean_check(output, q.git))
        .push(jobs_check(output, q.runtime_status))
        .push(agent_check(output, q.runtime_status))
        .push(manifest_check(output, q.tool_manifest))
}

/// The verdict on a start: the worst of its checks, and what they suggest.
pub open spec fn startup_tree(output: Tree, q: StartupRequest) -> Tree {
    let checks = startup_checks(output, q);
    let status = worst_status(checks);
    let actions = check_actions(checks);
    Tree::Object(
        no_fields()
            .push(field("status"@, Tree::Text(status)))
            .push(field("blocking"@, Tree::Bool(status == "fail"@)))
            .push(field("checks"@, Tree::Array(
                no_trees()
                    .push(check_tree("runtime_status"@, checks[0]))
                    .push(check_tree("workspace"@, checks[1]))
                    .push(check_tree("jobs"@, checks[2]))
                    .push(check_tree("agent"@, checks[3]))
                    .push(check_tree("tool_manifest"@, checks[4])),
            )))
            .push(field("suggested_next_actions"@, text_trees(if actions.len() == 0 {
                actions.push("proceed with the coding task using the explicit session_id"@)
            } else {
                actions
            }))),
    )
}

/// The verdict on a start.
pub fn startup_verdict(
    output: &Json,
    runtime_status_requested: bool,
    runtime_status_call_failed: bool,
    git_requested: bool,
    tool_manifest_requested: bool,
) -> (r: Json)
    ensures
        r@ == startup_tree(
            output@,
            StartupRequest {
                runtime_status: runtime_status_requested,
                runtime_status_failed: runtime_status_call_failed,
                git: git_requested,
                tool_manifest: tool_manifest_requested,
            },
        ),
{
    let ghost q = StartupRequest {
        runtime_status: runtime_status_requested,
        runtime_status_failed: runtime_status_call_failed,
        git: git_requested,
        tool_manifest: tool_manifest_requested,
    };
    let mut checks: Vec<Check> = Vec::new();
    checks.push(runtime_status_check(output, runtime_status_requested, runtime_status_call_failed));
    checks.push(workspace_check(output, git_requested));
    checks.push(startup_jobs_check(output, runtime_status_requested));
    checks.push(startup_agent_check(output, runtime_status_requested));
    checks.push(startup_tool_manifest_check(output, tool_manifest_requested));
    assert(crate::text::views(checks@) =~= startup_checks(output@, q));
    let mut told = no_items();
    push_startup_check(&mut told, "runtime_status", &checks[0]);
    push_startup_check(&mut told, "workspace", &checks[1]);
    push_startup_check(&mut told, "jobs", &checks[2]);
    push_startup_check(&mut told, "agent", &checks[3]);
    push_startup_check(&mut told, "tool_manifest", &checks[4]);
    let mut actions = collect_actions(&checks);
    assert(texts(actions@).len() == actions@.len());
    if actions.len() == 0 {
        let last = "proceed with the coding task using the explicit session_id".to_owned();
        proof {
            lemma_texts_push(actions@, last);
        }
        actions.push(last);
    }
    let status = aggregate_startup_status(&checks);
    let blocking = str_eq(status, "fail");
    assert(startup_checks(output@, q).len() == 5);
    ObjectBuilder::new()
        .with("status", text(status))
        .with("blocking", boolean(blocking))
        .with("checks", array(told))
        .with("suggested_next_actions", text_array(&actions))
        .build()
}

/// A start with uncommitted changes, with blocking jobs or without an agent for the
/// project is blocked.
pub proof fn law_startup_blocks(output: Tree, q: StartupRequest)
    requires
        (q.git && output.at("git"@).at("available"@).as_bool() != Some(false) && output.at(
            "git"@,
        ).at("clean"@).as_bool() == Some(false)) || (q.runtime_status && some_of(
            output.at("runtime_status"@).at("jobs"@).at("blocking_active_count"@),
        )) || (q.runtime_status && output.at("resolved_project"@).at("executor"@).as_text()
            == Some("agent"@) && agents_online(output) == Some(0u64)),
    ensures
        worst_status(startup_checks(output, q)) == "fail"@,
{
    let checks = startup_checks(output, q);
    assert(checks[1] == clean_check(output, q.git));
    assert(checks[2] == jobs_check(output, q.runtime_status));
    assert(checks[3] == agent_check(output, q.runtime_status));
    assert(checks[1].status == "fail"@ || checks[2].status == "fail"@ || checks[3].status
        == "fail"@);
}

// ---------------------------------------------------------------------------
// Finishing
// ---------------------------------------------------------------------------

/// What is suggested at the end of a task.
pub open spec fn finish_actions(output: Tree) -> Seq<Seq<char>> {
    let a = failure_actions(output.at("tool_failures"@));
    let a = with_if(
        a,
        output.at("workspace"@).at("clean"@).as_bool() == Some(false),
        "review workspace changes with show_changes"@,
    );
    with_if(
        a,
        some_of(output.at("jobs"@).at("blocking_active_count"@)),
        "stop or await blocking active jobs"@,
    )
}

/// What is suggested at the end of a task.
pub fn finish_suggested_next_actions(output: &Json) -> (r: Vec<String>)
    ensures
        texts(r@) == finish_actions(output@),
{
    let mut actions = failure_suggestions(output);
    let dirty = match output.bool_at2("workspace", "clean") {
        Some(clean) => !clean,
        None => false,
    };
    push_if(&mut actions, dirty, "review workspace changes with show_changes");
    push_if(
        &mut actions,
        output.count_at2("jobs", "blocking_active_count") > 0,
        "stop or await blocking active jobs",
    );
    actions
}

/// The end of a task in compact form, with its verdict.
pub open spec fn compact_finish_tree(output: Tree) -> Tree {
    let compact = compact_tree(
        output,
        bool_or(output.at("workspace"@).at("clean"@), false),
        bool_or(output.at("hygiene"@).at("clean"@), true),
        "final_warnings"@,
    );
    compact.put(
        "verdict"@,
        verdict_tree(compact, true, Some(!(output.at("hygiene"@) is Null))),
    )
}

/// The end of a task in compact form, with its verdict.
pub fn compact_finish_output(output: &Json) -> (r: Json)
    ensures
        r@ == compact_finish_tree(output@),
{
    let hygiene_checked = !output.at("hygiene").is_null();
    let workspace_clean = match output.bool_at2("workspace", "clean") {
        Some(b) => b,
        None => false,
    };
    let hygiene_clean = match output.bool_at2("hygiene", "clean") {
        Some(b) => b,
        None => true,
    };
    let mut compact = compact_summary(output, workspace_clean, hygiene_clean, "final_warnings");
    let verdict = compact_workflow_verdict(&compact, true, Some(hygiene_checked));
    compact.set("verdict", verdict);
    compact
}

/// The warnings that the workspace gives.
pub open spec fn workspace_warnings(workspace: Tree) -> Seq<Tree> {
    let first = if bool_or(workspace.at("clean"@), false) {
        Seq::<Tree>::empty()
    } else {
        Seq::<Tree>::empty().push(
            Tree::Object(
                no_fields()
                    .push(field("kind"@, Tree::Text("dirty_worktree"@)))
                    .push(field("changed_files_count"@, Tree::Number(count_of(workspace.at("changed_files_count"@)) as int)))
                    .push(field("message"@, Tree::Text("workspace has tracked or untracked changes"@))),
            ),
        )
    };
    if bool_or(workspace.at("git_available"@), true) {
        first
    } else {
        first.push(
            Tree::Object(
                no_fields()
                    .push(field("kind"@, Tree::Text("git_unavailable"@)))
                    .push(field("message"@, Tree::Text("git-backed workspace inspection unavailable"@))),
            ),
        )
    }
}

/// Adds the warnings that the workspace gives.
pub fn append_workspace_warnings(workspace: &Json, warnings: &mut Vec<Json>)
    ensures
        trees(final(warnings)@) == trees(old(warnings)@) + workspace_warnings(workspace@),
{
    let mut more = no_items();
    if !bool_at_or(workspace, "clean", false) {
        push_json(
            &mut more,
            ObjectBuilder::new()
                .with("kind", text("dirty_worktree"))
                .with("changed_files_count", unsigned(workspace.count_at("changed_files_count")))
                .with("message", text("workspace has tracked or untracked changes"))
                .build(),
        );
    }
    if !bool_at_or(workspace, "git_available", true) {
        push_json(
            &mut more,
            ObjectBuilder::new()
                .with("kind", text("git_unavailable"))
                .with("message", text("git-backed workspace inspection unavailable"))
                .build(),
        );
    }
    extend_items(warnings, &more);
}

/// The warnings that the hygiene of the workspace gives.
pub open spec fn hygiene_warnings(hygiene: Tree) -> Seq<Tree> {
    let n = count_of(hygiene.at("counts"@).at("findings"@));
    if n > 0 {
        Seq::<Tree>::empty().push(
            Tree::Object(
                no_fields()
                    .push(field("kind"@, Tree::Text("workspace_hygiene_findings"@)))
                    .push(field("findings"@, Tree::Number(n as int)))
                    .push(field("message"@, Tree::Text("workspace hygiene findings should be reviewed"@))),
            ),
        )
    } else {
        Seq::<Tree>::empty()
    }
}

/// Adds the warnings that the hygiene of the workspace gives.
pub fn append_hygiene_warnings(hygiene: &Json, warnings: &mut Vec<Json>)
    ensures
        trees(final(warnings)@) == trees(old(warnings)@) + hygiene_warnings(hygiene@),
{
    let n = hygiene.count_at2("counts", "findings");
    if n > 0 {
        let ghost base = trees(warnings@);
        push_json(
            warnings,
            ObjectBuilder::new()
                .with("kind", text("workspace_hygiene_findings"))
                .with("findings", unsigned(n))
                .with("message", text("workspace hygiene findings should be reviewed"))
                .build(),
        );
        assert(trees(warnings@) =~= base + hygiene_warnings(hygiene@));
    } else {
        assert(trees(warnings@) =~= trees(old(warnings)@) + hygiene_warnings(hygiene@));
    }
}

} // verus!
