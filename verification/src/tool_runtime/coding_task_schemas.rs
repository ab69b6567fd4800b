//! The schemas of what the tools that start and finish a coding task hand back.
use crate::json::{field, no_fields, Field, Json, ObjectBuilder, Tree};
use crate::text::str_eq;
use crate::tool_runtime::schemas::{
    array_of, array_schema, nullable, nullable_schema, open_object, open_object_schema,
    schema_type, typed, wrapped, wrapped_output_schema,
};
use vstd::prelude::*;

verus! {

/// Schemas that several tools share.
#[derive(Debug)]
pub struct SharedSchemas {
    /// Of a permission profile.
    pub permission_profile: Json,
    /// Of a summary of permission decisions.
    pub permission_summary: Json,
    /// Of a summary of jobs and their states.
    pub job_lifecycle: Json,
}

/// What the schema of the permission profile says of itself.
pub const PERMISSION_PROFILE_DESCRIPTION: &'static str = "Current permission/approval profile for the task.";

/// What the schema of the summary of permission decisions says of itself.
pub const PERMISSION_SUMMARY_DESCRIPTION: &'static str = "Deterministic bounded permission decision summary from the session ledger. Counts high-risk auto-approved tools only; never includes stdout/stderr, env, tokens, secrets, or raw input content.";

/// What the schema of the summary of jobs says of itself.
pub const JOB_LIFECYCLE_DESCRIPTION: &'static str = "Bounded job lifecycle summary for finish. active_jobs_present is emitted only for blocking_active_count > 0; stop_requested-only jobs use nonblocking jobs_terminal_pending. Never includes stdout/stderr or command text.";

/// What `start_coding_task` hands back.
pub open spec fn start_coding_task_fields(shared: SharedSchemas) -> Seq<Field> {
    no_fields()
        .push(field("project"@, typed("string"@, "Original project input."@)))
        .push(field("resolved_project"@, open_object("Resolved project id, path, executor, and safe project metadata."@)))
        .push(field("session"@, open_object("Created session id, mode, guards, explicit-session guidance, and current binding state."@)))
        .push(field("runtime_status"@, nullable("object"@, "Full runtime_status output, or compact startup runtime observability when compact_startup=true; null when not requested."@)))
        .push(field("permissions"@, shared.permission_profile@))
        .push(field("rules"@, nullable("object"@, "Deterministic project instruction source summary when requested; null otherwise."@)))
        .push(field("git"@, nullable("object"@, "Structured worktree/git summary when requested; null otherwise."@)))
        .push(field("tool_manifest"@, open_object("Compact tool_manifest output when requested; absent otherwise. Never includes full input/output schemas."@)))
        .push(field("recommended_flow"@, open_object("Deterministic recommended inspect/edit/validate/review/handoff tool groups."@)))
        .push(field("startup_verdict"@, open_object("Operator-friendly startup sanity verdict, with status pass/warn/fail, blocking boolean, compact checks, and bounded suggested_next_actions. Additive UX summary only; does not change safety semantics."@)))
        .push(field("warnings"@, array_of(open_object("Startup warning."@), "Bounded startup warnings."@)))
}

fn start_coding_task_output(shared: &SharedSchemas) -> (r: Json)
    ensures
        r@ == wrapped(start_coding_task_fields(*shared)),
{
    wrapped_output_schema(
        ObjectBuilder::new()
            .with("project", schema_type("string", "Original project input."))
            .with("resolved_project", open_object_schema("Resolved project id, path, executor, and safe project metadata."))
            .with("session", open_object_schema("Created session id, mode, guards, explicit-session guidance, and current binding state."))
            .with("runtime_status", nullable_schema("object", "Full runtime_status output, or compact startup runtime observability when compact_startup=true; null when not requested."))
            .with("permissions", shared.permission_profile.copy())
            .with("rules", nullable_schema("object", "Deterministic project instruction source summary when requested; null otherwise."))
            .with("git", nullable_schema("object", "Structured worktree/git summary when requested; null otherwise."))
            .with("tool_manifest", open_object_schema("Compact tool_manifest output when requested; absent otherwise. Never includes full input/output schemas."))
            .with("recommended_flow", open_object_schema("Deterministic recommended inspect/edit/validate/review/handoff tool groups."))
            .with("startup_verdict", open_object_schema("Operator-friendly startup sanity verdict, with status pass/warn/fail, blocking boolean, compact checks, and bounded suggested_next_actions. Additive UX summary only; does not change safety semantics."))
            .with("warnings", array_schema(open_object_schema("Startup warning."), "Bounded startup warnings.")),
    )
}

/// What `finish_coding_task` hands back.
pub open spec fn finish_coding_task_fields(shared: SharedSchemas) -> Seq<Field> {
    no_fields()
        .push(field("summary_only"@, typed("boolean"@, "True only for compact summary_only output."@)))
        .push(field("project"@, typed("string"@, "Original project input."@)))
        .push(field("resolved_project"@, open_object("Resolved project id, path, executor, and safe project metadata."@)))
        .push(field("session_id"@, typed("string"@, "Explicit task session id."@)))
        .push(field("workspace_clean"@, typed("boolean"@, "Compact summary_only workspace cleanliness verdict."@)))
        .push(field("hygiene_clean"@, typed("boolean"@, "Compact summary_only hygiene cleanliness verdict."@)))
        .push(field("workspace"@, open_object("Workspace cleanliness, changed file count, and warnings."@)))
        .push(field("changes"@, open_object("show_changes output and hunk truncation metadata."@)))
        .push(field("validation"@, open_object("Ledger-based validation-like tool-call summary with status/reason: not_run, passed, failed, mixed, or unknown. Does not include stdout/stderr bodies. Minimal diagnostics, when available, are parsed only from bounded tails or safe result metadata and never infer root cause."@)))
        .push(field("permissions"@, shared.permission_summary@))
        .push(field("tool_failures"@, open_object("Expected/unexpected tool failure classification from the session ledger. Counts expected failures, unexpected failures, expectation mismatches, and expected-failure calls that unexpectedly succeeded. Compact output includes counts only."@)))
        .push(field("hygiene"@, nullable("object"@, "workspace_hygiene_check output when requested; null otherwise."@)))
        .push(field("handoff"@, nullable("object"@, "session_handoff_summary output when requested; null otherwise."@)))
        .push(field("jobs"@, shared.job_lifecycle@))
        .push(field("final_warnings"@, array_of(open_object("Finish warning."@), "Bounded finish warnings."@)))
        .push(field("warnings"@, array_of(open_object("Compact finish warning."@), "Bounded compact summary_only warnings."@)))
        .push(field("verdict"@, open_object("Operator-friendly compact sanity verdict for summary_only output: status pass/warn/fail, blocking, blocking_reasons, warning_reasons, and suggested_next_actions. Additive UX summary only; does not change safety semantics."@)))
        .push(field("suggested_next_actions"@, array_of(typed("string"@, "Short suggested action."@), "Bounded suggested next actions based on unexpected failures, workspace, and jobs."@)))
}

fn finish_coding_task_output(shared: &SharedSchemas) -> (r: Json)
    ensures
        r@ == wrapped(finish_coding_task_fields(*shared)),
{
    wrapped_output_schema(
        ObjectBuilder::new()
            .with("summary_only", schema_type("boolean", "True only for compact summary_only output."))
            .with("project", schema_type("string", "Original project input."))
            .with("resolved_project", open_object_schema("Resolved project id, path, executor, and safe project metadata."))
            .with("session_id", schema_type("string", "Explicit task session id."))
            .with("workspace_clean", schema_type("boolean", "Compact summary_only workspace cleanliness verdict."))
            .with("hygiene_clean", schema_type("boolean", "Compact summary_only hygiene cleanliness verdict."))
            .with("workspace", open_object_schema("Workspace cleanliness, changed file count, and warnings."))
            .with("changes", open_object_schema("show_changes output and hunk truncation metadata."))
            .with("validation", open_object_schema("Ledger-based validation-like tool-call summary with status/reason: not_run, passed, failed, mixed, or unknown. Does not include stdout/stderr bodies. Minimal diagnostics, when available, are parsed only from bounded tails or safe result metadata and never infer root cause."))
            .with("permissions", shared.permission_summary.copy())
            .with("tool_failures", open_object_schema("Expected/unexpected tool failure classification from the session ledger. Counts expected failures, unexpected failures, expectation mismatches, and expected-failure calls that unexpectedly succeeded. Compact output includes counts only."))
            .with("hygiene", nullable_schema("object", "workspace_hygiene_check output when requested; null otherwise."))
            .with("handoff", nullable_schema("object", "session_handoff_summary output when requested; null otherwise."))
            .with("jobs", shared.job_lifecycle.copy())
            .with("final_warnings", array_schema(open_object_schema("Finish warning."), "Bounded finish warnings."))
            .with("warnings", array_schema(open_object_schema("Compact finish warning."), "Bounded compact summary_only warnings."))
            .with("verdict", open_object_schema("Operator-friendly compact sanity verdict for summary_only output: status pass/warn/fail, blocking, blocking_reasons, warning_reasons, and suggested_next_actions. Additive UX summary only; does not change safety semantics."))
            .with("suggested_next_actions", array_schema(schema_type("string", "Short suggested action."), "Bounded suggested next actions based on unexpected failures, workspace, and jobs.")),
    )
}

/// The schema of what a tool for coding tasks hands back, or none for other tools.
pub open spec fn coding_task_output(name: Seq<char>, shared: SharedSchemas) -> Option<Tree> {
    if name == "start_coding_task"@ {
        Some(wrapped(start_coding_task_fields(shared)))
    } else if name == "finish_coding_task"@ {
        Some(wrapped(finish_coding_task_fields(shared)))
    } else {
        None
    }
}

/// The schema of what a tool for coding tasks hands back, or none for other tools.
pub fn output_schema_for_tool(name: &str, shared: &SharedSchemas) -> (r: Option<Json>)
    ensures
        coding_task_output(name@, *shared) == (match r {
            Some(schema) => Some(schema@),
            None => None,
        }),
{
    if str_eq(name, "start_coding_task") {
        Some(start_coding_task_output(shared))
    } else if str_eq(name, "finish_coding_task") {
        Some(finish_coding_task_output(shared))
    } else {
        None
    }
}

} // verus!
