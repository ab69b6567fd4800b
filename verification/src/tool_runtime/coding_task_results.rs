//! The whole start and the whole end of a coding task, put together from their
//! parts.
use crate::json::{
    array, boolean, copy_or, empty_array, empty_object, extend_items, field, no_fields, no_items,
    null, opt_text_json, opt_text_tree, push_json, text, text_array, text_trees, tree_or, trees,
    unsigned, Json, ObjectBuilder, Tree,
};
use crate::shell_client::access::{caller, AuthContext};
use crate::text::str_eq;
use crate::tool_runtime::coding_task::{
    append_hygiene_warnings, append_workspace_warnings, bool_at_or,
    changed_files_count_from_counts, compact_finish_output, compact_finish_tree,
    compact_startup_runtime_status, compact_startup_runtime_status_tree, counts_sum,
    finish_actions, finish_suggested_next_actions, hygiene_warnings, recommended_flow_payload,
    recommended_flow_payload_tree, resolved_project_payload, resolved_project_payload_tree,
    rules_summary, rules_tree, startup_tree, startup_verdict, workspace_payload_from_show_changes,
    workspace_payload_from_show_changes_tree, workspace_warnings, ProjectInstructionsSnapshot,
    StartupRequest,
};
use crate::tool_runtime::handoff::bool_or;
use crate::tool_runtime::handoff_summary::{default_true, note_mismatch, with_mismatch, with_part};
use crate::tool_runtime::project_resolution::{
    not_resolved, ProjectResolverError, ResolvedProject,
};
use crate::tool_runtime::session_context::{
    current_session_key, mismatch_warning, session_key, session_project_mismatch_warning,
    transport_word, unknown_session, unknown_session_result, CurrentSessionKey, SessionTransport,
};
use crate::tool_runtime::sessions::SessionSummary;
use crate::tool_runtime::types::{tool_ok, ToolModel, ToolResult};
use vstd::prelude::*;

verus! {

/// The field by which a generic wrapper names the session that records a call.
pub const TOOL_CALL_RECORDING_SESSION_ID_FIELD: &'static str = "_session_id";

/// A warning with a kind and a message.
pub open spec fn plain_warning(kind: Seq<char>, message: Tree) -> Tree {
    Tree::Object(
        no_fields().push(field("kind"@, Tree::Text(kind))).push(field("message"@, message)),
    )
}

fn warn_of(kind: &str, message: Json) -> (r: Json)
    ensures
        r@ == plain_warning(kind@, message@),
{
    ObjectBuilder::new().with("kind", text(kind)).with("message", message).build()
}

/// `warnings` with one more where a call failed.
pub open spec fn with_failure(warnings: Seq<Tree>, kind: Seq<char>, result: ToolModel) -> Seq<Tree> {
    if result.success {
        warnings
    } else {
        warnings.push(plain_warning(kind, opt_text_tree(result.error)))
    }
}

fn note_failure(warnings: &mut Vec<Json>, kind: &str, result: &ToolResult)
    ensures
        trees(final(warnings)@) == with_failure(trees(old(warnings)@), kind@, result@),
{
    if !result.success {
        push_json(warnings, warn_of(kind, opt_text_json(&result.error)));
    }
}

// ---------------------------------------------------------------------------
// The start
// ---------------------------------------------------------------------------

/// What is looked up at the start of a task.
#[derive(Debug, Clone, Copy)]
pub struct StartTaskPlan {
    pub runtime_status: bool,
    pub git: bool,
    pub recent_commits: bool,
    pub rules: bool,
    pub tool_manifest: bool,
}

/// Plans the start of a task: everything is looked up that is not refused.
pub fn start_task_plan(
    include_runtime_status: Option<bool>,
    include_git: Option<bool>,
    include_recent_commits: Option<bool>,
    include_rules: Option<bool>,
    include_tool_manifest: Option<bool>,
) -> (r: StartTaskPlan)
    ensures
        r.runtime_status == (include_runtime_status != Some(false)),
        r.git == (include_git != Some(false)),
        r.recent_commits == (include_recent_commits != Some(false)),
        r.rules == (include_rules != Some(false)),
        r.tool_manifest == (include_tool_manifest != Some(false)),
{
    StartTaskPlan {
        runtime_status: default_true(include_runtime_status),
        git: default_true(include_git),
        recent_commits: default_true(include_recent_commits),
        rules: default_true(include_rules),
        tool_manifest: default_true(include_tool_manifest),
    }
}

/// The project that a task is about, or the answer that it is not known.
pub fn task_project(meant: Result<ResolvedProject, ProjectResolverError>) -> (r: Result<
    ResolvedProject,
    ToolResult,
>)
    ensures
        match meant {
            Ok(p) => r == Ok::<ResolvedProject, ToolResult>(p),
            Err(e) => r is Err && r->Err_0@ == not_resolved(e@),
        },
{
    match meant {
        Ok(p) => Ok(p),
        Err(e) => Err(e.into_tool_result()),
    }
}

/// Whether a new session becomes the current one.
#[derive(Debug)]
pub enum BindingPlan {
    /// It does not.
    Leave,
    /// It does, under this key.
    Bind(CurrentSessionKey),
    /// There is nobody that it could be the current session of.
    Unavailable(String),
}

/// Decides whether a new session becomes the current one of its project.
pub fn plan_binding(
    bind_current: bool,
    auth: Option<&AuthContext>,
    transport: SessionTransport,
    resolved: &str,
) -> (r: BindingPlan)
    ensures
        if !bind_current {
            r is Leave
        } else {
            match session_key(caller(auth), transport, resolved@) {
                Ok(key) => r is Bind && r->Bind_0@ == key,
                Err(e) => r is Unavailable && r->Unavailable_0@ == e,
            }
        },
{
    if !bind_current {
        return BindingPlan::Leave;
    }
    match current_session_key(auth, transport, resolved) {
        Ok(key) => BindingPlan::Bind(key),
        Err(e) => BindingPlan::Unavailable(e),
    }
}

/// What came of the plan for the current session, given the session that was bound under
/// the key, where one was.
pub fn binding_done(plan: BindingPlan, bound: Option<String>) -> (r: CurrentBinding)
    ensures
        match plan {
            BindingPlan::Leave => r is NotAsked,
            BindingPlan::Unavailable(e) => r == CurrentBinding::Unavailable(e),
            BindingPlan::Bind(_) => match bound {
                Some(id) => r == CurrentBinding::Bound(id),
                None => r is Failed,
            },
        },
{
    match plan {
        BindingPlan::Leave => CurrentBinding::NotAsked,
        BindingPlan::Unavailable(e) => CurrentBinding::Unavailable(e),
        BindingPlan::Bind(_) => match bound {
            Some(id) => CurrentBinding::Bound(id),
            None => CurrentBinding::Failed,
        },
    }
}

/// What came of making the new session the current one.
#[derive(Debug)]
pub enum CurrentBinding {
    NotAsked,
    Bound(String),
    Failed,
    /// There is nobody that it could be the current session of.
    Unavailable(String),
}

/// What was looked up at the start of a task.
#[derive(Debug)]
pub struct StartTaskInputs {
    pub project: String,
    pub resolved: ResolvedProject,
    pub session_id: String,
    pub mode: Json,
    pub guards: Json,
    pub transport: SessionTransport,
    pub binding: CurrentBinding,
    /// The runtime status, where it was asked for.
    pub runtime_status: Option<ToolResult>,
    pub compact_startup: bool,
    /// The overview of the changes, where it was asked for.
    pub show_changes: Option<ToolResult>,
    /// The last commits, where they were asked for.
    pub recent_commits: Option<ToolResult>,
    pub permissions: Json,
    /// The project rules, where they were asked for.
    pub rules: Option<ProjectInstructionsSnapshot>,
    /// The list of tools, where it was asked for.
    pub tool_manifest: Option<Json>,
}

/// The current session as it is told at the start.
pub open spec fn binding_tree(p: StartTaskInputs) -> Tree {
    let word = Tree::Text(transport_word(p.transport));
    match p.binding {
        CurrentBinding::Bound(id) => Tree::Object(
            no_fields()
                .push(field("bound"@, Tree::Bool(true)))
                .push(field("session_id"@, Tree::Text(id@)))
                .push(field("process_local_in_memory"@, Tree::Bool(true)))
                .push(field("transport"@, word))
                .push(field("resolved_project"@, Tree::Text(p.resolved@.resolved_id))),
        ),
        CurrentBinding::Unavailable(_) => Tree::Object(
            no_fields()
                .push(field("bound"@, Tree::Bool(false)))
                .push(field("process_local_in_memory"@, Tree::Bool(true)))
                .push(field("transport"@, word))
                .push(field("error_kind"@, Tree::Text("current_session_unavailable"@))),
        ),
        _ => Tree::Object(
            no_fields()
                .push(field("bound"@, Tree::Bool(false)))
                .push(field("process_local_in_memory"@, Tree::Bool(true)))
                .push(field("transport"@, word)),
        ),
    }
}

/// The warnings that making the session the current one gives.
pub open spec fn binding_warnings(binding: CurrentBinding) -> Seq<Tree> {
    match binding {
        CurrentBinding::Failed => Seq::<Tree>::empty().push(
            plain_warning(
                "current_binding_failed"@,
                Tree::Text("new session could not be bound as current"@),
            ),
        ),
        CurrentBinding::Unavailable(message) => Seq::<Tree>::empty().push(
            plain_warning("current_binding_unavailable"@, Tree::Text(message@)),
        ),
        _ => Seq::<Tree>::empty(),
    }
}

fn binding_json(p: &StartTaskInputs) -> (r: Json)
    ensures
        r@ == binding_tree(*p),
{
    let word = p.transport.as_str();
    match &p.binding {
        CurrentBinding::Bound(id) => ObjectBuilder::new()
            .with("bound", boolean(true))
            .with("session_id", text(id.as_str()))
            .with("process_local_in_memory", boolean(true))
            .with("transport", text(word))
            .with("resolved_project", text(p.resolved.resolved_id.as_str()))
            .build(),
        CurrentBinding::Unavailable(_) => ObjectBuilder::new()
            .with("bound", boolean(false))
            .with("process_local_in_memory", boolean(true))
            .with("transport", text(word))
            .with("error_kind", text("current_session_unavailable"))
            .build(),
        _ => ObjectBuilder::new()
            .with("bound", boolean(false))
            .with("process_local_in_memory", boolean(true))
            .with("transport", text(word))
            .build(),
    }
}

/// The state of git before anything is looked up.
pub open spec fn no_git_summary() -> Tree {
    Tree::Object(
        no_fields()
            .push(field("available"@, Tree::Bool(false)))
            .push(field("branch"@, Tree::Null))
            .push(field("head"@, Tree::Null))
            .push(field("clean"@, Tree::Null))
            .push(field("changed_files_count"@, Tree::Number(0)))
            .push(field("counts"@, Tree::Object(Seq::empty())))
            .push(field("recent_commits"@, Tree::Array(Seq::empty())))
            .push(field("warnings"@, Tree::Array(Seq::empty()))),
    )
}

/// The state of git with the overview of the changes.
pub open spec fn with_overview(git: Tree, show: ToolModel) -> Tree {
    let o = show.output;
    git.put("available"@, Tree::Bool(bool_or(o.at("git_available"@), show.success))).put(
        "branch"@,
        o.at("branch"@),
    ).put("head"@, o.at("head"@)).put("clean"@, o.at("clean"@)).put(
        "counts"@,
        tree_or(o.get("counts"@), Tree::Object(Seq::empty())),
    ).put("changed_files_count"@, Tree::Number(counts_sum(o.at("counts"@)))).put(
        "warnings"@,
        tree_or(o.get("warnings"@), Tree::Array(Seq::empty())),
    ).put("show_changes"@, o)
}

/// The state of git with the last commits.
pub open spec fn with_commits(git: Tree, log: ToolModel) -> Tree {
    if log.success {
        git.put(
            "recent_commits"@,
            tree_or(log.output.get("commits"@), Tree::Array(Seq::empty())),
        ).put(
            "recent_commits_truncated"@,
            tree_or(log.output.get("truncated"@), Tree::Bool(false)),
        )
    } else {
        git.put("recent_commits"@, Tree::Array(Seq::empty())).put(
            "recent_commits_truncated"@,
            Tree::Bool(false),
        )
    }
}

/// The state of git as far as it was looked up.
pub open spec fn git_summary_tree(show: Option<ToolResult>, log: Option<ToolResult>) -> Tree {
    let a = no_git_summary();
    let b = match show {
        Some(s) => with_overview(a, s@),
        None => a,
    };
    match log {
        Some(l) => with_commits(b, l@),
        None => b,
    }
}

/// The warnings that looking git up gives.
pub open spec fn git_summary_warnings(
    warnings: Seq<Tree>,
    show: Option<ToolResult>,
    log: Option<ToolResult>,
) -> Seq<Tree> {
    let a = match show {
        Some(s) => with_failure(warnings, "git_status_unavailable"@, s@),
        None => warnings,
    };
    match log {
        Some(l) => with_failure(a, "recent_commits_unavailable"@, l@),
        None => a,
    }
}

/// The state of git as far as it was looked up, and the warnings that gives.
pub fn start_coding_task_git_summary(
    show: &Option<ToolResult>,
    log: &Option<ToolResult>,
    warnings: &mut Vec<Json>,
) -> (r: Json)
    requires
        *show is Some ==> counts_sum((*show)->0.output@.at("counts"@)) <= u64::MAX,
    ensures
        r@ == git_summary_tree(*show, *log),
        trees(final(warnings)@) == git_summary_warnings(trees(old(warnings)@), *show, *log),
{
    let mut git = ObjectBuilder::new()
        .with("available", boolean(false))
        .with("branch", null())
        .with("head", null())
        .with("clean", null())
        .with("changed_files_count", unsigned(0))
        .with("counts", empty_object())
        .with("recent_commits", empty_array())
        .with("warnings", empty_array())
        .build();
    if let Some(result) = show {
        note_failure(warnings, "git_status_unavailable", result);
        let o = &result.output;
        git.set("available", boolean(bool_at_or(o, "git_available", result.success)));
        git.set("branch", o.at("branch"));
        git.set("head", o.at("head"));
        git.set("clean", o.at("clean"));
        git.set("counts", copy_or(o.get("counts"), empty_object()));
        git.set(
            "changed_files_count",
            unsigned(changed_files_count_from_counts(&o.at("counts"))),
        );
        git.set("warnings", copy_or(o.get("warnings"), empty_array()));
        git.set("show_changes", o.copy());
    }
    if let Some(result) = log {
        note_failure(warnings, "recent_commits_unavailable", result);
        if result.success {
            git.set("recent_commits", copy_or(result.output.get("commits"), empty_array()));
            git.set(
                "recent_commits_truncated",
                copy_or(result.output.get("truncated"), boolean(false)),
            );
        } else {
            git.set("recent_commits", empty_array());
            git.set("recent_commits_truncated", boolean(false));
        }
    }
    git
}

/// The runtime status as it is told at the start.
pub open spec fn told_status(p: StartTaskInputs) -> Tree {
    match p.runtime_status {
        Some(r) => if p.compact_startup {
            compact_startup_runtime_status_tree(r.output@)
        } else {
            r.output@
        },
        None => Tree::Null,
    }
}

/// The warnings of a start.
pub open spec fn start_warnings(p: StartTaskInputs) -> Seq<Tree> {
    let a = binding_warnings(p.binding);
    let b = match p.runtime_status {
        Some(r) => with_failure(a, "runtime_status_unavailable"@, r@),
        None => a,
    };
    git_summary_warnings(b, p.show_changes, p.recent_commits)
}

/// The session as it is told at the start.
pub open spec fn start_session_tree(p: StartTaskInputs) -> Tree {
    Tree::Object(
        no_fields()
            .push(field("session_id"@, Tree::Text(p.session_id@)))
            .push(field("mode"@, p.mode@))
            .push(field("guards"@, p.guards@))
            .push(field("explicit_session_id_recommended"@, Tree::Bool(true)))
            .push(field("explicit_session_id_fields"@, Tree::Object(
                no_fields()
                    .push(field("tool_business_input"@, Tree::Text("session_id"@)))
                    .push(field("generic_wrapper_recorder"@, Tree::Text(TOOL_CALL_RECORDING_SESSION_ID_FIELD@))),
            )))
            .push(field("current_binding"@, binding_tree(p))),
    )
}

/// The start of a task without its verdict.
pub open spec fn start_base(p: StartTaskInputs) -> Tree {
    let base = Tree::Object(
        no_fields()
            .push(field("project"@, Tree::Text(p.project@)))
            .push(field("resolved_project"@, resolved_project_payload_tree(p.resolved@)))
            .push(field("session"@, start_session_tree(p)))
            .push(field("runtime_status"@, told_status(p)))
            .push(field("permissions"@, p.permissions@))
            .push(field("rules"@, rules_tree(p.rules)))
            .push(field("git"@, if p.show_changes is Some || p.recent_commits is Some { git_summary_tree(p.show_changes, p.recent_commits) } else { Tree::Null }))
            .push(field("recommended_flow"@, recommended_flow_payload_tree()))
            .push(field("deterministic"@, Tree::Bool(true)))
            .push(field("llm_summary"@, Tree::Bool(false)))
            .push(field("warnings"@, Tree::Array(start_warnings(p)))),
    );
    with_part(
        base,
        "tool_manifest"@,
        match p.tool_manifest {
            Some(m) => Some(m@),
            None => None,
        },
    )
}

/// What was asked for at the start.
pub open spec fn start_request(p: StartTaskInputs) -> StartupRequest {
    StartupRequest {
        runtime_status: p.runtime_status is Some,
        runtime_status_failed: p.runtime_status is Some && !p.runtime_status->0.success,
        git: p.show_changes is Some,
        tool_manifest: p.tool_manifest is Some,
    }
}

/// The start of a task.
pub open spec fn start_tree(p: StartTaskInputs) -> Tree {
    let base = start_base(p);
    base.put("startup_verdict"@, startup_tree(base, start_request(p)))
}

fn start_session_json(p: &StartTaskInputs) -> (r: Json)
    ensures
        r@ == start_session_tree(*p),
{
    let fields = ObjectBuilder::new()
        .with("tool_business_input", text("session_id"))
        .with("generic_wrapper_recorder", text(TOOL_CALL_RECORDING_SESSION_ID_FIELD))
        .build();
    ObjectBuilder::new()
        .with("session_id", text(p.session_id.as_str()))
        .with("mode", p.mode.copy())
        .with("guards", p.guards.copy())
        .with("explicit_session_id_recommended", boolean(true))
        .with("explicit_session_id_fields", fields)
        .with("current_binding", binding_json(p))
        .build()
}

/// Puts the start of a task together from what was looked up for it.
pub fn start_coding_task(p: &StartTaskInputs) -> (r: ToolResult)
    requires
        p.show_changes is Some ==> counts_sum(p.show_changes->0.output@.at("counts"@)) <= u64::MAX,
    ensures
        r@ == tool_ok(start_tree(*p)),
{
    let mut warnings = no_items();
    match &p.binding {
        CurrentBinding::Failed => {
            push_json(
                &mut warnings,
                warn_of(
                    "current_binding_failed",
                    text("new session could not be bound as current"),
                ),
            );
        },
        CurrentBinding::Unavailable(message) => {
            push_json(
                &mut warnings,
                warn_of("current_binding_unavailable", text(message.as_str())),
            );
        },
        _ => {},
    }
    let mut status_failed = false;
    let runtime_status = match &p.runtime_status {
        Some(result) => {
            note_failure(&mut warnings, "runtime_status_unavailable", result);
            status_failed = !result.success;
            if p.compact_startup {
                compact_startup_runtime_status(&result.output)
            } else {
                result.output.copy()
            }
        },
        None => null(),
    };
    let git_state = start_coding_task_git_summary(
        &p.show_changes,
        &p.recent_commits,
        &mut warnings,
    );
    let git = if p.show_changes.is_some() || p.recent_commits.is_some() {
        git_state
    } else {
        null()
    };
    assert(trees(warnings@) == start_warnings(*p));
    let mut output = ObjectBuilder::new()
        .with("project", text(p.project.as_str()))
        .with("resolved_project", resolved_project_payload(&p.resolved))
        .with("session", start_session_json(p))
        .with("runtime_status", runtime_status)
        .with("permissions", p.permissions.copy())
        .with("rules", rules_summary(&p.rules))
        .with("git", git)
        .with("recommended_flow", recommended_flow_payload())
        .with("deterministic", boolean(true))
        .with("llm_summary", boolean(false))
        .with("warnings", array(warnings))
        .build();
    if let Some(manifest) = &p.tool_manifest {
        output.set("tool_manifest", manifest.copy());
    }
    let verdict = startup_verdict(
        &output,
        p.runtime_status.is_some(),
        status_failed,
        p.show_changes.is_some(),
        p.tool_manifest.is_some(),
    );
    output.set("startup_verdict", verdict);
    ToolResult::ok(output)
}

// ---------------------------------------------------------------------------
// The end
// ---------------------------------------------------------------------------

/// How many events of its session are looked at when a task ends.
pub const FINISH_SESSION_EVENT_LIMIT: usize = 200;

/// What is looked up at the end of a task.
#[derive(Debug, Clone, Copy)]
pub struct FinishTaskPlan {
    pub diff: bool,
    pub hygiene: bool,
    pub handoff: bool,
    pub validation: bool,
}

/// Plans the end of a task: everything is looked up that is not refused.
pub fn finish_task_plan(
    include_diff: Option<bool>,
    include_hygiene: Option<bool>,
    include_handoff: Option<bool>,
    include_validation_summary: Option<bool>,
) -> (r: FinishTaskPlan)
    ensures
        r.diff == (include_diff != Some(false)),
        r.hygiene == (include_hygiene != Some(false)),
        r.handoff == (include_handoff != Some(false)),
        r.validation == (include_validation_summary != Some(false)),
{
    FinishTaskPlan {
        diff: default_true(include_diff),
        hygiene: default_true(include_hygiene),
        handoff: default_true(include_handoff),
        validation: default_true(include_validation_summary),
    }
}

/// The project and the session of a task that ends, or the answer that one of them is not
/// known.
pub fn task_session(
    meant: Result<ResolvedProject, ProjectResolverError>,
    session_id: &str,
    summary: Option<SessionSummary>,
) -> (r: Result<(ResolvedProject, SessionSummary), ToolResult>)
    ensures
        match meant {
            Err(e) => r is Err && r->Err_0@ == not_resolved(e@),
            Ok(p) => match summary {
                Some(s) => r == Ok::<(ResolvedProject, SessionSummary), ToolResult>((p, s)),
                None => r is Err && r->Err_0@ == unknown_session(session_id@),
            },
        },
{
    match task_project(meant) {
        Err(result) => Err(result),
        Ok(p) => match summary {
            Some(s) => Ok((p, s)),
            None => Err(unknown_session_result(session_id)),
        },
    }
}

/// What was looked up at the end of a task.
#[derive(Debug)]
pub struct FinishTaskInputs {
    pub project: String,
    pub resolved: ResolvedProject,
    pub session_id: String,
    /// The project that the session was started for.
    pub session_project: Option<String>,
    /// The overview of the changes.
    pub changes: ToolResult,
    pub validation: Json,
    pub permissions: Json,
    pub tool_failures: Json,
    /// The hygiene of the workspace, where it was asked for.
    pub hygiene: Option<ToolResult>,
    pub jobs: Json,
    /// The handoff, where it was asked for.
    pub handoff: Option<ToolResult>,
}

/// The project of the session and that of the task, where they differ.
pub open spec fn finish_mismatch(p: FinishTaskInputs) -> Option<(Seq<char>, Seq<char>)> {
    match p.session_project {
        Some(s) => if s@ != p.resolved.resolved_id@ {
            Some((s@, p.resolved.resolved_id@))
        } else {
            None
        },
        None => None,
    }
}

/// The output of a call that was asked for, or null.
pub open spec fn output_or_null(r: Option<ToolResult>) -> Tree {
    match r {
        Some(r) => r.output@,
        None => Tree::Null,
    }
}

/// The workspace at the end of a task.
pub open spec fn finish_workspace(p: FinishTaskInputs) -> Tree {
    workspace_payload_from_show_changes_tree(p.changes.output@)
}

/// The warnings at the end of a task.
pub open spec fn finish_warnings(p: FinishTaskInputs) -> Seq<Tree> {
    let a = match finish_mismatch(p) {
        Some((s, r)) => Seq::<Tree>::empty().push(mismatch_warning(s, r, false)),
        None => Seq::<Tree>::empty(),
    };
    let b = if p.session_project is None {
        a.push(
            plain_warning(
                "session_has_no_project"@,
                Tree::Text("session was not created with a project association"@),
            ),
        )
    } else {
        a
    };
    let c = with_failure(b, "show_changes_failed"@, p.changes@) + workspace_warnings(
        finish_workspace(p),
    );
    let d = match p.hygiene {
        Some(h) => with_failure(c, "workspace_hygiene_failed"@, h@),
        None => c,
    };
    let e = d + hygiene_warnings(output_or_null(p.hygiene)) + p.jobs@.at("warnings"@).items();
    match p.handoff {
        Some(h) => with_failure(e, "session_handoff_failed"@, h@),
        None => e,
    }
}

/// The end of a task without what is suggested.
pub open spec fn finish_base(p: FinishTaskInputs) -> Tree {
    with_mismatch(
        Tree::Object(
            no_fields()
                .push(field("project"@, Tree::Text(p.project@)))
                .push(field("resolved_project"@, resolved_project_payload_tree(p.resolved@)))
                .push(field("session_id"@, Tree::Text(p.session_id@)))
                .push(field("workspace"@, finish_workspace(p)))
                .push(field("changes"@, Tree::Object(
                    no_fields()
                        .push(field("show_changes"@, p.changes.output@))
                        .push(field("hunks_truncated"@, Tree::Bool(bool_or(p.changes.output@.at("hunks_truncated"@), false)))),
                )))
                .push(field("validation"@, p.validation@))
                .push(field("permissions"@, p.permissions@))
                .push(field("tool_failures"@, p.tool_failures@))
                .push(field("hygiene"@, output_or_null(p.hygiene)))
                .push(field("handoff"@, output_or_null(p.handoff)))
                .push(field("jobs"@, p.jobs@))
                .push(field("deterministic"@, Tree::Bool(true)))
                .push(field("llm_summary"@, Tree::Bool(false)))
                .push(field("final_warnings"@, Tree::Array(finish_warnings(p)))),
        ),
        finish_mismatch(p),
    )
}

/// The end of a task.
pub open spec fn finish_tree(p: FinishTaskInputs, summary_only: bool) -> Tree {
    let base = finish_base(p);
    let full = base.put("suggested_next_actions"@, text_trees(finish_actions(base)));
    if summary_only {
        compact_finish_tree(full)
    } else {
        full
    }
}

fn find_finish_mismatch(p: &FinishTaskInputs) -> (r: Option<(String, String)>)
    ensures
        finish_mismatch(*p) == (match r {
            Some((a, b)) => Some((a@, b@)),
            None => None,
        }),
{
    match &p.session_project {
        Some(s) => if !str_eq(s.as_str(), p.resolved.resolved_id.as_str()) {
            Some((s.clone(), p.resolved.resolved_id.clone()))
        } else {
            None
        },
        None => None,
    }
}

fn copy_output(r: &Option<ToolResult>) -> (o: Json)
    ensures
        o@ == output_or_null(*r),
{
    match r {
        Some(r) => r.output.copy(),
        None => null(),
    }
}

fn collect_finish_warnings(
    p: &FinishTaskInputs,
    mismatch: &Option<(String, String)>,
    workspace: &Json,
    hygiene: &Json,
) -> (r: Vec<Json>)
    requires
        finish_mismatch(*p) == (match *mismatch {
            Some((a, b)) => Some((a@, b@)),
            None => None,
        }),
        workspace@ == finish_workspace(*p),
        hygiene@ == output_or_null(p.hygiene),
    ensures
        trees(r@) == finish_warnings(*p),
{
    let mut warnings = no_items();
    if let Some((session, project)) = mismatch {
        push_json(
            &mut warnings,
            session_project_mismatch_warning(session.as_str(), project.as_str(), false),
        );
    }
    if p.session_project.is_none() {
        push_json(
            &mut warnings,
            warn_of(
                "session_has_no_project",
                text("session was not created with a project association"),
            ),
        );
    }
    note_failure(&mut warnings, "show_changes_failed", &p.changes);
    append_workspace_warnings(workspace, &mut warnings);
    if let Some(h) = &p.hygiene {
        note_failure(&mut warnings, "workspace_hygiene_failed", h);
    }
    append_hygiene_warnings(hygiene, &mut warnings);
    let job_warnings = p.jobs.items_at("warnings");
    extend_items(&mut warnings, &job_warnings);
    if let Some(h) = &p.handoff {
        note_failure(&mut warnings, "session_handoff_failed", h);
    }
    warnings
}

/// Puts the end of a task together from what was looked up for it.
pub fn finish_coding_task(p: &FinishTaskInputs, summary_only: bool) -> (r: ToolResult)
    requires
        counts_sum(p.changes.output@.at("counts"@)) <= u64::MAX,
    ensures
        r@ == tool_ok(finish_tree(*p, summary_only)),
{
    let mismatch = find_finish_mismatch(p);
    let workspace = workspace_payload_from_show_changes(&p.changes.output);
    let hygiene = copy_output(&p.hygiene);
    let warnings = collect_finish_warnings(p, &mismatch, &workspace, &hygiene);
    let changes = ObjectBuilder::new()
        .with("show_changes", p.changes.output.copy())
        .with("hunks_truncated", boolean(bool_at_or(&p.changes.output, "hunks_truncated", false)))
        .build();
    let mut output = ObjectBuilder::new()
        .with("project", text(p.project.as_str()))
        .with("resolved_project", resolved_project_payload(&p.resolved))
        .with("session_id", text(p.session_id.as_str()))
        .with("workspace", workspace)
        .with("changes", changes)
        .with("validation", p.validation.copy())
        .with("permissions", p.permissions.copy())
        .with("tool_failures", p.tool_failures.copy())
        .with("hygiene", hygiene)
        .with("handoff", copy_output(&p.handoff))
        .with("jobs", p.jobs.copy())
        .with("deterministic", boolean(true))
        .with("llm_summary", boolean(false))
        .with("final_warnings", array(warnings))
        .build();
    note_mismatch(&mut output, &mismatch);
    let actions = finish_suggested_next_actions(&output);
    output.set("suggested_next_actions", text_array(&actions));
    if summary_only {
        return ToolResult::ok(compact_finish_output(&output));
    }
    ToolResult::ok(output)
}

} // verus!
