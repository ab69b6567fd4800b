//! The whole handoff of a session, put together from its parts.
use crate::json::{
    array, boolean, copy_or, empty_array, extend_items, field, law_put_get, no_fields, no_items,
    null, number, opt_text_json, opt_text_tree, push_json, signed, text, text_array, text_trees,
    tree_or, trees, unsigned, Json, ObjectBuilder, Tree,
};
use crate::text::{opt_str, opt_text, str_eq, str_trim, trim};
use crate::tool_runtime::coding_task::{changed_files_count_from_counts, counts_sum};
use crate::tool_runtime::git_tools::{bounded_count, within};
use crate::tool_runtime::handoff::{
    bool_or, bound_messages, checkpoints_tree, compact_handoff_output, compact_handoff_tree,
    handoff_actions, handoff_checkpoint_summary, handoff_suggested_next_actions, message_trees,
    output_recent,
};
use crate::tool_runtime::session_context::{
    mismatch_warning, session_project_mismatch_warning, unknown_session, unknown_session_result,
    SessionMessageError, SESSION_PROJECT_MISMATCH_KIND,
};
use crate::tool_runtime::sessions::{
    SessionDiscussionSummary, SessionEvent, SessionSummary,
};
use crate::tool_runtime::types::{tool_ok, ToolModel, ToolResult};
use vstd::prelude::*;

verus! {

pub const DEFAULT_HANDOFF_LIMIT: usize = 20;

pub const MAX_HANDOFF_LIMIT: usize = 100;

pub const MAX_RECENT_FAILED_TOOLS: usize = 10;

pub const MAX_RECENT_PROGRESS: usize = 10;

pub const MAX_RECENT_DECISIONS: usize = 10;

pub const MAX_OPEN_ITEMS: usize = 20;

// ---------------------------------------------------------------------------
// The plan
// ---------------------------------------------------------------------------

/// What has to be looked up for a handoff.
#[derive(Debug, Clone, Copy)]
pub struct HandoffPlan {
    /// How many events, messages and checkpoints are looked at.
    pub limit: usize,
    pub workspace: bool,
    pub checkpoints: bool,
    pub validation: bool,
}

/// Whether a project is named.
pub open spec fn names_project(project: Option<Seq<char>>) -> bool {
    project is Some && trim(project->0).len() > 0
}

/// Whether a plan is the one for a handoff with these arguments.
pub open spec fn handoff_planned(
    project: Option<Seq<char>>,
    include_workspace: Option<bool>,
    include_checkpoints: Option<bool>,
    include_validation: Option<bool>,
    limit: Option<usize>,
    plan: HandoffPlan,
) -> bool {
    &&& plan.limit == within(limit, DEFAULT_HANDOFF_LIMIT, MAX_HANDOFF_LIMIT)
    &&& plan.workspace == (names_project(project) && include_workspace != Some(false))
    &&& plan.checkpoints == (names_project(project) && include_checkpoints != Some(false))
    &&& plan.validation == (include_validation != Some(false))
}

/// Plans a handoff. The workspace and the checkpoints are looked at only where a
/// project is named.
pub fn handoff_plan(
    project: Option<&str>,
    include_workspace: Option<bool>,
    include_checkpoints: Option<bool>,
    include_validation: Option<bool>,
    limit: Option<usize>,
) -> (r: HandoffPlan)
    ensures
        handoff_planned(
            opt_str(project),
            include_workspace,
            include_checkpoints,
            include_validation,
            limit,
            r,
        ),
{
    let named = match project {
        Some(p) => !str_trim(p).is_empty(),
        None => false,
    };
    HandoffPlan {
        limit: bounded_count(limit, DEFAULT_HANDOFF_LIMIT, MAX_HANDOFF_LIMIT),
        workspace: named && default_true(include_workspace),
        checkpoints: named && default_true(include_checkpoints),
        validation: default_true(include_validation),
    }
}

/// A choice that is made unless it is refused.
pub fn default_true(choice: Option<bool>) -> (r: bool)
    ensures
        r == (choice != Some(false)),
{
    match choice {
        Some(b) => b,
        None => true,
    }
}

/// The project whose jobs are looked at: the one that was named, under the id that it
/// was resolved to where it was, else that of the session.
pub open spec fn jobs_project(
    project: Option<Seq<char>>,
    resolved: Option<Seq<char>>,
    session_project: Option<Seq<char>>,
) -> Option<Seq<char>> {
    let id = if names_project(project) {
        match resolved {
            Some(id) => id,
            None => trim(project->0),
        }
    } else {
        match session_project {
            Some(id) => id,
            None => seq![],
        }
    };
    if id.len() == 0 {
        None
    } else {
        Some(id)
    }
}

/// The project whose jobs are looked at.
pub fn handoff_jobs_project(
    project: Option<&str>,
    resolved: Option<String>,
    session_project: Option<String>,
) -> (r: Option<String>)
    ensures
        opt_text(r) == jobs_project(
            opt_str(project),
            opt_text(resolved),
            opt_text(session_project),
        ),
{
    let mut id = String::new();
    assert(id@ =~= seq![]);
    let named = match project {
        Some(p) => !str_trim(p).is_empty(),
        None => false,
    };
    if named {
        if let Some(p) = project {
            id = match resolved {
                Some(id) => id,
                None => str_trim(p).to_owned(),
            };
        }
    } else if let Some(p) = session_project {
        id = p;
    }
    if id.as_str().is_empty() {
        None
    } else {
        Some(id)
    }
}

/// A message board with nothing on it.
pub open spec fn is_empty_board(d: SessionDiscussionSummary) -> bool {
    &&& d.total == 0 && d.todo == 0 && d.risk == 0 && d.question == 0 && d.guidance == 0
    &&& d.open_guidance@.len() == 0
    &&& d.open_questions@.len() == 0
    &&& d.open_risks@.len() == 0
    &&& d.open_todos@.len() == 0
    &&& d.recent_progress@.len() == 0
    &&& d.recent_decisions@.len() == 0
}

fn empty_board() -> (r: SessionDiscussionSummary)
    ensures
        is_empty_board(r),
{
    SessionDiscussionSummary {
        total: 0,
        todo: 0,
        risk: 0,
        question: 0,
        guidance: 0,
        open_guidance: Vec::new(),
        open_questions: Vec::new(),
        open_risks: Vec::new(),
        open_todos: Vec::new(),
        recent_progress: Vec::new(),
        recent_decisions: Vec::new(),
    }
}

/// The session that is handed over and its message board, or the answer that there is no
/// such session. A board that cannot be read counts as empty.
pub fn handoff_session(
    session_id: &str,
    summary: Option<SessionSummary>,
    discussion: Result<SessionDiscussionSummary, SessionMessageError>,
) -> (r: Result<(SessionSummary, SessionDiscussionSummary), ToolResult>)
    ensures
        match summary {
            None => r is Err && r->Err_0@ == unknown_session(session_id@),
            Some(s) => r is Ok && r->Ok_0.0 == s && match discussion {
                Ok(d) => r->Ok_0.1 == d,
                Err(_) => is_empty_board(r->Ok_0.1),
            },
        },
{
    match summary {
        None => Err(unknown_session_result(session_id)),
        Some(s) => match discussion {
            Ok(d) => Ok((s, d)),
            Err(_) => Ok((s, empty_board())),
        },
    }
}

// ---------------------------------------------------------------------------
// The workspace
// ---------------------------------------------------------------------------

/// The warning that git is not available.
pub open spec fn no_git_warning() -> Tree {
    Tree::Object(
        no_fields()
            .push(field("kind"@, Tree::Text("git_unavailable"@)))
            .push(field("message"@, Tree::Text("git-backed workspace inspection unavailable; project may not be a git repository"@))),
    )
}

fn no_git_json() -> (r: Json)
    ensures
        r@ == no_git_warning(),
{
    ObjectBuilder::new()
        .with("kind", text("git_unavailable"))
        .with("message", text("git-backed workspace inspection unavailable; project may not be a git repository"))
        .build()
}

/// The workspace as it is handed over, given the overview of its changes.
pub open spec fn workspace_tree(project: Seq<char>, show: ToolModel) -> Tree {
    let o = show.output;
    let git = bool_or(o.at("git_available"@), true);
    if !show.success {
        Tree::Object(
            no_fields()
                .push(field("project"@, Tree::Text(project)))
                .push(field("git_available"@, Tree::Bool(false)))
                .push(field("non_git_project"@, tree_or(o.get("non_git_project"@), Tree::Bool(false))))
                .push(field("clean"@, Tree::Bool(true)))
                .push(field("branch"@, Tree::Null))
                .push(field("head"@, Tree::Null))
                .push(field("changed_files_count"@, Tree::Number(0)))
                .push(field("warnings"@, Tree::Array(o.at("warnings"@).items().push(no_git_warning()))))
                .push(field("suggested_next_actions"@, Tree::Array(Seq::empty()))),
        )
    } else {
        Tree::Object(
            no_fields()
                .push(field("project"@, Tree::Text(project)))
                .push(field("git_available"@, Tree::Bool(git)))
                .push(field("non_git_project"@, tree_or(o.get("non_git_project"@), Tree::Bool(false))))
                .push(field("clean"@, tree_or(o.get("clean"@), Tree::Bool(true))))
                .push(field("branch"@, o.at("branch"@)))
                .push(field("head"@, o.at("head"@)))
                .push(field("changed_files_count"@, Tree::Number(counts_sum(o.at("counts"@)))))
                .push(field("warnings"@, Tree::Array(if git { o.at("warnings"@).items() } else { o.at("warnings"@).items().push(no_git_warning()) })))
                .push(field("suggested_next_actions"@, tree_or(o.get("suggested_next_actions"@), Tree::Array(Seq::empty())))),
        )
    }
}

/// The workspace as it is handed over, given the overview of its changes.
pub fn handoff_workspace_summary(project: &str, show: &ToolResult) -> (r: Json)
    requires
        show.success ==> counts_sum(show.output@.at("counts"@)) <= u64::MAX,
    ensures
        r@ == workspace_tree(project@, show@),
{
    let o = &show.output;
    let mut warnings = o.items_at("warnings");
    if !show.success {
        push_json(&mut warnings, no_git_json());
        return ObjectBuilder::new()
            .with("project", text(project))
            .with("git_available", boolean(false))
            .with("non_git_project", copy_or(o.get("non_git_project"), boolean(false)))
            .with("clean", boolean(true))
            .with("branch", null())
            .with("head", null())
            .with("changed_files_count", unsigned(0))
            .with("warnings", array(warnings))
            .with("suggested_next_actions", empty_array())
            .build();
    }
    let git = match o.bool_at("git_available") {
        Some(b) => b,
        None => true,
    };
    if !git {
        push_json(&mut warnings, no_git_json());
    }
    let count = changed_files_count_from_counts(&o.at("counts"));
    ObjectBuilder::new()
        .with("project", text(project))
        .with("git_available", boolean(git))
        .with("non_git_project", copy_or(o.get("non_git_project"), boolean(false)))
        .with("clean", copy_or(o.get("clean"), boolean(true)))
        .with("branch", o.at("branch"))
        .with("head", o.at("head"))
        .with("changed_files_count", unsigned(count))
        .with("warnings", array(warnings))
        .with("suggested_next_actions", copy_or(o.get("suggested_next_actions"), empty_array()))
        .build()
}

// ---------------------------------------------------------------------------
// Failed tool calls
// ---------------------------------------------------------------------------

/// Whether an event is the end of a tool call that failed.
pub open spec fn is_failed_call(e: SessionEvent) -> bool {
    e.kind@ == "tool_call_finished"@ && opt_text(e.status) == Some("failed"@)
}

/// A failed tool call as it is handed over.
pub open spec fn failed_call_tree(e: SessionEvent) -> Tree {
    Tree::Object(
        no_fields()
            .push(field("tool_name"@, opt_text_tree(opt_text(e.tool_name))))
            .push(field("error_kind"@, opt_text_tree(opt_text(e.error_kind))))
            .push(field("failure_kind"@, opt_text_tree(opt_text(e.failure_kind))))
            .push(field("created_at"@, Tree::Number(e.timestamp as int)))
            .push(field("write_like"@, Tree::Bool(e.write_like)))
            .push(field("job_like"@, Tree::Bool(e.shell_like))),
    )
}

/// The last `max` failed tool calls, the latest first.
pub open spec fn failed_calls(events: Seq<SessionEvent>, max: nat) -> Seq<Tree>
    decreases events.len(),
{
    if events.len() == 0 || max == 0 {
        seq![]
    } else if is_failed_call(events.last()) {
        seq![failed_call_tree(events.last())] + failed_calls(events.drop_last(), (max - 1) as nat)
    } else {
        failed_calls(events.drop_last(), max)
    }
}

fn failed_call_json(e: &SessionEvent) -> (r: Json)
    ensures
        r@ == failed_call_tree(*e),
{
    ObjectBuilder::new()
        .with("tool_name", opt_text_json(&e.tool_name))
        .with("error_kind", opt_text_json(&e.error_kind))
        .with("failure_kind", opt_text_json(&e.failure_kind))
        .with("created_at", signed(e.timestamp))
        .with("write_like", boolean(e.write_like))
        .with("job_like", boolean(e.shell_like))
        .build()
}

fn recent_failed_calls(events: &Vec<SessionEvent>, max: usize) -> (r: Vec<Json>)
    ensures
        trees(r@) == failed_calls(events@, max as nat),
{
    let mut out = no_items();
    let mut i: usize = events.len();
    let mut left: usize = max;
    assert(events@.take(i as int) =~= events@);
    assert(trees(out@) + failed_calls(events@, max as nat) =~= failed_calls(events@, max as nat));
    while i > 0 && left > 0
        invariant
            i <= events@.len(),
            trees(out@) + failed_calls(events@.take(i as int), left as nat) == failed_calls(
                events@,
                max as nat,
            ),
        decreases i,
    {
        let ghost rest = events@.take(i as int);
        let ghost before = trees(out@);
        proof {
            assert(rest.drop_last() =~= events@.take(i - 1));
            assert(rest.last() == events@[i - 1]);
        }
        let e = &events[i - 1];
        let failed = match &e.status {
            Some(s) => str_eq(s.as_str(), "failed"),
            None => false,
        };
        if failed && str_eq(e.kind.as_str(), "tool_call_finished") {
            push_json(&mut out, failed_call_json(e));
            left = left - 1;
            proof {
                let more = failed_calls(events@.take(i - 1), left as nat);
                assert(before + (seq![failed_call_tree(*e)] + more) =~= trees(out@) + more);
            }
        }
        i = i - 1;
    }
    assert(trees(out@) + failed_calls(events@.take(i as int), left as nat) =~= trees(out@));
    out
}

// ---------------------------------------------------------------------------
// The handoff
// ---------------------------------------------------------------------------

/// What was looked up for a handoff.
#[derive(Debug)]
pub struct HandoffInputs {
    pub summary: SessionSummary,
    pub discussion: SessionDiscussionSummary,
    pub tool_failures: Json,
    pub permissions: Json,
    pub jobs: Json,
    /// The overview of the changes, where the workspace is handed over.
    pub workspace: Option<ToolResult>,
    /// The list of checkpoints, where they are handed over.
    pub checkpoints: Option<ToolResult>,
    /// The validation summary, where it is handed over.
    pub validation: Option<Json>,
}

/// The project of the session and the one that was asked for, where they differ.
pub open spec fn project_mismatch(session: Option<Seq<char>>, asked: Option<Seq<char>>) -> Option<
    (Seq<char>, Seq<char>),
> {
    if session is Some && names_project(asked) && session->0 != asked->0 {
        Some((session->0, trim(asked->0)))
    } else {
        None
    }
}

fn find_mismatch(session: &Option<String>, asked: Option<&str>) -> (r: Option<(String, String)>)
    ensures
        project_mismatch(opt_text(*session), opt_str(asked)) == (match r {
            Some((a, b)) => Some((a@, b@)),
            None => None,
        }),
{
    match (session, asked) {
        (Some(s), Some(a)) => {
            let trimmed = str_trim(a);
            if !trimmed.is_empty() && !str_eq(s.as_str(), a) {
                Some((s.clone(), trimmed.to_owned()))
            } else {
                None
            }
        },
        _ => None,
    }
}

/// The numbers of a handoff.
pub open spec fn handoff_counts(p: HandoffInputs) -> Tree {
    let d = p.discussion;
    Tree::Object(
        no_fields()
            .push(field("events"@, Tree::Number(p.summary.events@.len() as int)))
            .push(field("failed_tool_calls"@, Tree::Number(failed_calls(p.summary.events@, MAX_RECENT_FAILED_TOOLS as nat).len() as int)))
            .push(field("messages"@, Tree::Number(d.total as int)))
            .push(field("open_todos"@, Tree::Number(d.todo as int)))
            .push(field("open_risks"@, Tree::Number(d.risk as int)))
            .push(field("open_questions"@, Tree::Number(d.question as int)))
            .push(field("open_guidance"@, Tree::Number(d.guidance as int))),
    )
}

/// The warnings of a handoff.
pub open spec fn handoff_warnings(p: HandoffInputs, asked: Option<Seq<char>>) -> Seq<Tree> {
    let first = match project_mismatch(opt_text(p.summary.project), asked) {
        Some((a, b)) => Seq::<Tree>::empty().push(mismatch_warning(a, b, false)),
        None => Seq::<Tree>::empty(),
    };
    first + p.jobs@.at("warnings"@).items()
}

/// The part of a handoff that is always there.
pub open spec fn handoff_base(p: HandoffInputs, asked: Option<Seq<char>>) -> Tree {
    let s = p.summary;
    let d = p.discussion;
    let f = p.tool_failures@;
    let none = Tree::Array(Seq::empty());
    Tree::Object(
        no_fields()
            .push(field("session_id"@, Tree::Text(s.session_id@)))
            .push(field("project"@, opt_text_tree(opt_text(s.project))))
            .push(field("title"@, opt_text_tree(opt_text(s.title))))
            .push(field("mode"@, s.mode@))
            .push(field("guards"@, s.guards@))
            .push(field("created_at"@, Tree::Number(s.created_at as int)))
            .push(field("updated_at"@, Tree::Number(s.updated_at as int)))
            .push(field("counts"@, handoff_counts(p)))
            .push(field("permissions"@, p.permissions@))
            .push(field("open_todos"@, Tree::Array(message_trees(d.open_todos@, MAX_OPEN_ITEMS as nat))))
            .push(field("open_risks"@, Tree::Array(message_trees(d.open_risks@, MAX_OPEN_ITEMS as nat))))
            .push(field("open_questions"@, Tree::Array(message_trees(d.open_questions@, MAX_OPEN_ITEMS as nat))))
            .push(field("open_guidance"@, Tree::Array(message_trees(d.open_guidance@, MAX_OPEN_ITEMS as nat))))
            .push(field("recent_progress"@, Tree::Array(message_trees(d.recent_progress@, MAX_RECENT_PROGRESS as nat))))
            .push(field("recent_decisions"@, Tree::Array(message_trees(d.recent_decisions@, MAX_RECENT_DECISIONS as nat))))
            .push(field("recent_failed_tools"@, Tree::Array(failed_calls(s.events@, MAX_RECENT_FAILED_TOOLS as nat))))
            .push(field("tool_failures"@, f))
            .push(field("expected_failed_tool_calls"@, tree_or(f.get("recent_expected"@), none)))
            .push(field("unexpected_failed_tool_calls"@, tree_or(f.get("recent_unexpected"@), none)))
            .push(field("expectation_mismatches"@, tree_or(f.get("recent_mismatches"@), none)))
            .push(field("unexpected_success_tool_calls"@, tree_or(f.get("recent_unexpected_successes"@), none)))
            .push(field("jobs"@, p.jobs@))
            .push(field("warnings"@, Tree::Array(handoff_warnings(p, asked)))),
    )
}

/// An output that says that the session is of another project, where it is.
pub open spec fn with_mismatch(output: Tree, mismatch: Option<(Seq<char>, Seq<char>)>) -> Tree {
    match mismatch {
        Some((session, asked)) => output.put(
            "warning_kind"@,
            Tree::Text(SESSION_PROJECT_MISMATCH_KIND@),
        ).put("session_project"@, Tree::Text(session)).put(
            "request_project"@,
            Tree::Text(asked),
        ).put("allow_cross_project_session_required"@, Tree::Bool(true)).put(
            "allow_cross_project_session"@,
            Tree::Bool(false),
        ),
        None => output,
    }
}

/// Says in an output that the session is of another project, where it is.
pub fn note_mismatch(output: &mut Json, mismatch: &Option<(String, String)>)
    ensures
        final(output)@ == with_mismatch(
            old(output)@,
            match *mismatch {
                Some((a, b)) => Some((a@, b@)),
                None => None,
            },
        ),
{
    if let Some((session, asked)) = mismatch {
        output.set("warning_kind", text(SESSION_PROJECT_MISMATCH_KIND));
        output.set("session_project", text(session.as_str()));
        output.set("request_project", text(asked.as_str()));
        output.set("allow_cross_project_session_required", boolean(true));
        output.set("allow_cross_project_session", boolean(false));
    }
}

/// An output with a part, where there is one.
pub open spec fn with_part(output: Tree, name: Seq<char>, part: Option<Tree>) -> Tree {
    match part {
        Some(v) => output.put(name, v),
        None => output,
    }
}

/// The handoff without its suggestions.
pub open spec fn handoff_parts(p: HandoffInputs, asked: Option<Seq<char>>) -> Tree {
    let project = match asked {
        Some(a) => a,
        None => seq![],
    };
    let a = with_mismatch(
        handoff_base(p, asked),
        project_mismatch(opt_text(p.summary.project), asked),
    );
    let b = with_part(
        a,
        "workspace"@,
        match p.workspace {
            Some(show) => Some(workspace_tree(project, show@)),
            None => None,
        },
    );
    let c = with_part(
        b,
        "checkpoints"@,
        match p.checkpoints {
            Some(list) => Some(checkpoints_tree(list@)),
            None => None,
        },
    );
    with_part(
        c,
        "validation"@,
        match p.validation {
            Some(v) => Some(v@),
            None => None,
        },
    )
}

/// The handoff.
pub open spec fn handoff_tree(p: HandoffInputs, asked: Option<Seq<char>>, summary_only: bool) -> Tree {
    let parts = handoff_parts(p, asked);
    let full = parts.put("suggested_next_actions"@, text_trees(handoff_actions(parts)));
    if summary_only {
        compact_handoff_tree(full)
    } else {
        full
    }
}

fn handoff_base_json(p: &HandoffInputs, mismatch: &Option<(String, String)>, asked: Option<&str>) -> (r:
    Json)
    requires
        project_mismatch(opt_text(p.summary.project), opt_str(asked)) == (match *mismatch {
            Some((a, b)) => Some((a@, b@)),
            None => None,
        }),
    ensures
        r@ == handoff_base(*p, opt_str(asked)),
{
    let s = &p.summary;
    let d = &p.discussion;
    let failed = recent_failed_calls(&s.events, MAX_RECENT_FAILED_TOOLS);
    assert(trees(failed@).len() == failed@.len());
    let counts = ObjectBuilder::new()
        .with("events", number(s.events.len()))
        .with("failed_tool_calls", number(failed.len()))
        .with("messages", unsigned(d.total))
        .with("open_todos", unsigned(d.todo))
        .with("open_risks", unsigned(d.risk))
        .with("open_questions", unsigned(d.question))
        .with("open_guidance", unsigned(d.guidance))
        .build();
    let mut warnings = no_items();
    if let Some((session, project)) = mismatch {
        push_json(
            &mut warnings,
            session_project_mismatch_warning(session.as_str(), project.as_str(), false),
        );
    }
    let job_warnings = p.jobs.items_at("warnings");
    extend_items(&mut warnings, &job_warnings);
    ObjectBuilder::new()
        .with("session_id", text(s.session_id.as_str()))
        .with("project", opt_text_json(&s.project))
        .with("title", opt_text_json(&s.title))
        .with("mode", s.mode.copy())
        .with("guards", s.guards.copy())
        .with("created_at", signed(s.created_at))
        .with("updated_at", signed(s.updated_at))
        .with("counts", counts)
        .with("permissions", p.permissions.copy())
        .with("open_todos", array(bound_messages(&d.open_todos, MAX_OPEN_ITEMS)))
        .with("open_risks", array(bound_messages(&d.open_risks, MAX_OPEN_ITEMS)))
        .with("open_questions", array(bound_messages(&d.open_questions, MAX_OPEN_ITEMS)))
        .with("open_guidance", array(bound_messages(&d.open_guidance, MAX_OPEN_ITEMS)))
        .with("recent_progress", array(bound_messages(&d.recent_progress, MAX_RECENT_PROGRESS)))
        .with("recent_decisions", array(bound_messages(&d.recent_decisions, MAX_RECENT_DECISIONS)))
        .with("recent_failed_tools", array(failed))
        .with("tool_failures", p.tool_failures.copy())
        .with("expected_failed_tool_calls", output_recent(&p.tool_failures, "recent_expected"))
        .with("unexpected_failed_tool_calls", output_recent(&p.tool_failures, "recent_unexpected"))
        .with("expectation_mismatches", output_recent(&p.tool_failures, "recent_mismatches"))
        .with("unexpected_success_tool_calls", output_recent(&p.tool_failures, "recent_unexpected_successes"))
        .with("jobs", p.jobs.copy())
        .with("warnings", array(warnings))
        .build()
}

/// Puts a handoff together from what was looked up for it.
pub fn session_handoff_summary(inputs: &HandoffInputs, project: Option<&str>, summary_only: bool) -> (r:
    ToolResult)
    requires
        inputs.workspace is Some && inputs.workspace->0.success ==> counts_sum(
            inputs.workspace->0.output@.at("counts"@),
        ) <= u64::MAX,
    ensures
        r@ == tool_ok(handoff_tree(*inputs, opt_str(project), summary_only)),
{
    let mismatch = find_mismatch(&inputs.summary.project, project);
    let mut output = handoff_base_json(inputs, &mismatch, project);
    note_mismatch(&mut output, &mismatch);
    if let Some(show) = &inputs.workspace {
        proof {
            reveal_strlit("");
        }
        let named = match project {
            Some(p) => p,
            None => {
                assert(""@ =~= seq![]);
                ""
            },
        };
        output.set("workspace", handoff_workspace_summary(named, show));
    }
    if let Some(list) = &inputs.checkpoints {
        output.set("checkpoints", handoff_checkpoint_summary(list));
    }
    if let Some(v) = &inputs.validation {
        output.set("validation", v.copy());
    }
    let actions = handoff_suggested_next_actions(&output);
    output.set("suggested_next_actions", text_array(&actions));
    if summary_only {
        return ToolResult::ok(compact_handoff_output(&output));
    }
    ToolResult::ok(output)
}

// ---------------------------------------------------------------------------
// Laws
// ---------------------------------------------------------------------------

/// Whether what is handed over is a call of the session that failed.
pub open spec fn tells_failed_call(told: Tree, events: Seq<SessionEvent>) -> bool {
    exists|j: int|
        0 <= j < events.len() && is_failed_call(events[j]) && told == #[trigger] failed_call_tree(
            events[j],
        )
}

/// No more failed calls are handed over than asked for, and each is one of the session
/// that failed.
pub proof fn law_failed_calls_are_bounded(events: Seq<SessionEvent>, max: nat)
    ensures
        failed_calls(events, max).len() <= max,
        forall|i: int|
            0 <= i < failed_calls(events, max).len() ==> tells_failed_call(
                #[trigger] failed_calls(events, max)[i],
                events,
            ),
    decreases events.len(),
{
    if events.len() > 0 && max > 0 {
        let front = events.drop_last();
        let failed = is_failed_call(events.last());
        let less = if failed {
            (max - 1) as nat
        } else {
            max
        };
        law_failed_calls_are_bounded(front, less);
        let rest = failed_calls(front, less);
        assert forall|i: int| 0 <= i < failed_calls(events, max).len() implies tells_failed_call(
            #[trigger] failed_calls(events, max)[i],
            events,
        ) by {
            if failed && i == 0 {
                assert(failed_calls(events, max)[0] == failed_call_tree(
                    events[events.len() - 1],
                ));
            } else {
                let k = if failed {
                    i - 1
                } else {
                    i
                };
                assert(failed_calls(events, max)[i] == rest[k]);
                assert(tells_failed_call(rest[k], front));
                let j = choose|j: int|
                    0 <= j < front.len() && is_failed_call(front[j]) && rest[k]
                        == #[trigger] failed_call_tree(front[j]);
                assert(events[j] == front[j]);
            }
        }
    }
}

/// Of the changes of a workspace nothing is handed over but whether it is clean, its
/// branch and head, how many files changed, the warnings and the suggestions: neither
/// hunks nor diffs nor the contents of files.
pub proof fn law_workspace_tells_only(
    project: Seq<char>,
    show: ToolModel,
    name: Seq<char>,
    value: Tree,
)
    requires
        show.output is Object,
        name != "git_available"@,
        name != "non_git_project"@,
        name != "clean"@,
        name != "branch"@,
        name != "head"@,
        name != "counts"@,
        name != "warnings"@,
        name != "suggested_next_actions"@,
    ensures
        workspace_tree(project, ToolModel { output: show.output.put(name, value), ..show })
            == workspace_tree(project, show),
{
    law_put_get(show.output, name, value, "git_available"@);
    law_put_get(show.output, name, value, "non_git_project"@);
    law_put_get(show.output, name, value, "clean"@);
    law_put_get(show.output, name, value, "branch"@);
    law_put_get(show.output, name, value, "head"@);
    law_put_get(show.output, name, value, "counts"@);
    law_put_get(show.output, name, value, "warnings"@);
    law_put_get(show.output, name, value, "suggested_next_actions"@);
}

} // verus!
