//! What a task that starts, a task that ends and a handoff look up elsewhere, and with
//! which arguments.
use crate::text::{opt_str, opt_text};
use crate::tool_runtime::coding_task_results::{
    FinishTaskPlan, StartTaskPlan, FINISH_SESSION_EVENT_LIMIT,
};
use crate::tool_runtime::git_tools::{changes_planned, show_changes_plan, within, ShowChangesPlan};
use crate::tool_runtime::handoff_summary::{
    handoff_plan, names_project, HandoffPlan, DEFAULT_HANDOFF_LIMIT, MAX_HANDOFF_LIMIT,
    MAX_RECENT_FAILED_TOOLS,
};
use vstd::prelude::*;

verus! {

/// How many of the active jobs of a project are told of.
pub const ACTIVE_JOBS_LIMIT: usize = 10;

/// How many commits are told of when a task starts.
pub const START_COMMIT_LIMIT: usize = 5;

/// How many events of its session the overview of the changes tells of when a task ends.
pub const FINISH_CHANGES_EVENT_LIMIT: usize = 50;

/// How much a handoff looks at when a task ends.
pub const FINISH_HANDOFF_LIMIT: usize = 20;

/// How many events of its session a handoff sums the validation up from.
pub const HANDOFF_VALIDATION_EVENT_LIMIT: usize = 200;

/// A request for the overview of the changes of a project.
#[derive(Debug)]
pub struct ChangesLookup {
    pub project: String,
    pub session_id: Option<String>,
    pub include_diff: bool,
    pub session_event_limit: Option<usize>,
}

/// Whether a request for the changes is the one with these arguments.
pub open spec fn asks_changes(
    l: ChangesLookup,
    project: Seq<char>,
    session_id: Option<Seq<char>>,
    include_diff: bool,
    session_event_limit: Option<usize>,
) -> bool {
    &&& l.project@ == project
    &&& opt_text(l.session_id) == session_id
    &&& l.include_diff == include_diff
    &&& l.session_event_limit == session_event_limit
}

impl ChangesLookup {
    /// What the overview has to run. Hunks and their lines are bounded as usual.
    pub fn plan(&self) -> (r: ShowChangesPlan)
        ensures
            changes_planned(Some(self.include_diff), None, None, self.session_event_limit, r),
    {
        show_changes_plan(Some(self.include_diff), None, None, self.session_event_limit)
    }
}

/// A request for so many of the last commits, of a project's checkpoints or of its
/// active jobs.
#[derive(Debug)]
pub struct ListLookup {
    pub project: Option<String>,
    pub limit: usize,
}

/// Whether a request for a list is the one with these arguments.
pub open spec fn asks_list(l: ListLookup, project: Option<Seq<char>>, limit: usize) -> bool {
    opt_text(l.project) == project && l.limit == limit
}

fn project_list(project: &str, limit: usize) -> (r: ListLookup)
    ensures
        asks_list(r, Some(project@), limit),
{
    ListLookup { project: Some(project.to_owned()), limit }
}

// ---------------------------------------------------------------------------
// The start of a task
// ---------------------------------------------------------------------------

/// What a task that starts looks up in its project.
#[derive(Debug)]
pub struct StartLookups {
    pub changes: Option<ChangesLookup>,
    pub commits: Option<ListLookup>,
}

/// What a task that starts looks up in its project: the changes, without a diff and
/// without a session, and the last commits, each where it was planned.
pub fn start_lookups(plan: &StartTaskPlan, resolved_id: &str) -> (r: StartLookups)
    ensures
        r.changes is Some == plan.git,
        r.changes is Some ==> asks_changes(r.changes->0, resolved_id@, None, false, None),
        r.commits is Some == plan.recent_commits,
        r.commits is Some ==> asks_list(r.commits->0, Some(resolved_id@), START_COMMIT_LIMIT),
{
    StartLookups {
        changes: if plan.git {
            Some(
                ChangesLookup {
                    project: resolved_id.to_owned(),
                    session_id: None,
                    include_diff: false,
                    session_event_limit: None,
                },
            )
        } else {
            None
        },
        commits: if plan.recent_commits {
            Some(project_list(resolved_id, START_COMMIT_LIMIT))
        } else {
            None
        },
    }
}

// ---------------------------------------------------------------------------
// The end of a task
// ---------------------------------------------------------------------------

/// A request for the hygiene of a workspace.
#[derive(Debug)]
pub struct HygieneLookup {
    pub project: String,
    pub session_id: String,
}

/// A request for a handoff.
#[derive(Debug)]
pub struct HandoffLookup {
    pub session_id: String,
    pub project: String,
    pub include_validation: bool,
    pub summary_only: bool,
    pub limit: usize,
}

impl HandoffLookup {
    /// What has to be looked up for the handoff: the workspace and the checkpoints in any
    /// case where the project is named.
    pub fn plan(&self) -> (r: HandoffPlan)
        ensures
            r.limit == within(Some(self.limit), DEFAULT_HANDOFF_LIMIT, MAX_HANDOFF_LIMIT),
            r.workspace == names_project(Some(self.project@)),
            r.checkpoints == names_project(Some(self.project@)),
            r.validation == self.include_validation,
    {
        handoff_plan(
            Some(self.project.as_str()),
            Some(true),
            Some(true),
            Some(self.include_validation),
            Some(self.limit),
        )
    }
}

/// What a task that ends looks up.
#[derive(Debug)]
pub struct FinishLookups {
    /// How many events of the session are looked at.
    pub session_events: usize,
    pub changes: ChangesLookup,
    pub hygiene: Option<HygieneLookup>,
    pub jobs: ListLookup,
    pub handoff: Option<HandoffLookup>,
    /// How many failed calls are told of.
    pub failed_tools: usize,
}

/// What a task that ends looks up: the events of its session, the changes together with
/// that session, the active jobs of the project, and the hygiene and the handoff, each
/// where it was planned.
pub fn finish_lookups(
    plan: &FinishTaskPlan,
    resolved_id: &str,
    session_id: &str,
    summary_only: bool,
) -> (r: FinishLookups)
    ensures
        r.session_events == FINISH_SESSION_EVENT_LIMIT,
        asks_changes(
            r.changes,
            resolved_id@,
            Some(session_id@),
            plan.diff,
            Some(FINISH_CHANGES_EVENT_LIMIT),
        ),
        r.hygiene is Some == plan.hygiene,
        r.hygiene is Some ==> r.hygiene->0.project@ == resolved_id@ && r.hygiene->0.session_id@
            == session_id@,
        asks_list(r.jobs, Some(resolved_id@), ACTIVE_JOBS_LIMIT),
        r.handoff is Some == plan.handoff,
        r.handoff is Some ==> {
            &&& r.handoff->0.session_id@ == session_id@
            &&& r.handoff->0.project@ == resolved_id@
            &&& r.handoff->0.include_validation == plan.validation
            &&& r.handoff->0.summary_only == summary_only
            &&& r.handoff->0.limit == FINISH_HANDOFF_LIMIT
        },
        r.failed_tools == MAX_RECENT_FAILED_TOOLS,
{
    FinishLookups {
        session_events: FINISH_SESSION_EVENT_LIMIT,
        changes: ChangesLookup {
            project: resolved_id.to_owned(),
            session_id: Some(session_id.to_owned()),
            include_diff: plan.diff,
            session_event_limit: Some(FINISH_CHANGES_EVENT_LIMIT),
        },
        hygiene: if plan.hygiene {
            Some(
                HygieneLookup {
                    project: resolved_id.to_owned(),
                    session_id: session_id.to_owned(),
                },
            )
        } else {
            None
        },
        jobs: project_list(resolved_id, ACTIVE_JOBS_LIMIT),
        handoff: if plan.handoff {
            Some(
                HandoffLookup {
                    session_id: session_id.to_owned(),
                    project: resolved_id.to_owned(),
                    include_validation: plan.validation,
                    summary_only,
                    limit: FINISH_HANDOFF_LIMIT,
                },
            )
        } else {
            None
        },
        failed_tools: MAX_RECENT_FAILED_TOOLS,
    }
}

// ---------------------------------------------------------------------------
// The handoff
// ---------------------------------------------------------------------------

/// What a handoff looks up.
#[derive(Debug)]
pub struct HandoffLookups {
    /// How many events of the session are looked at.
    pub session_events: usize,
    /// How many messages of each kind on the board are looked at.
    pub messages: usize,
    /// How many failed calls are told of.
    pub failed_tools: usize,
    /// How many decisions on permissions are told of.
    pub permissions: usize,
    pub jobs: ListLookup,
    pub changes: Option<ChangesLookup>,
    pub checkpoints: Option<ListLookup>,
    /// How many events of the session the validation is summed up from.
    pub validation_events: Option<usize>,
}

/// Whether these are the lookups of a handoff. The workspace and the checkpoints are those
/// of the project as it was named; the jobs are those of the project under its full id.
pub open spec fn are_handoff_lookups(
    plan: HandoffPlan,
    project: Option<Seq<char>>,
    jobs_project: Option<Seq<char>>,
    r: HandoffLookups,
) -> bool {
    &&& r.session_events == plan.limit
    &&& r.messages == plan.limit
    &&& r.failed_tools == MAX_RECENT_FAILED_TOOLS
    &&& r.permissions == DEFAULT_HANDOFF_LIMIT
    &&& asks_list(r.jobs, jobs_project, ACTIVE_JOBS_LIMIT)
    &&& r.changes is Some == (plan.workspace && project is Some)
    &&& r.changes is Some ==> asks_changes(r.changes->0, project->0, None, false, None)
    &&& r.checkpoints is Some == (plan.checkpoints && project is Some)
    &&& r.checkpoints is Some ==> asks_list(r.checkpoints->0, project, plan.limit)
    &&& r.validation_events == (if plan.validation {
        Some(HANDOFF_VALIDATION_EVENT_LIMIT)
    } else {
        None
    })
}

/// What a handoff looks up.
pub fn handoff_lookups(plan: &HandoffPlan, project: Option<&str>, jobs_project: Option<String>)
    -> (r: HandoffLookups)
    ensures
        are_handoff_lookups(*plan, opt_str(project), opt_text(jobs_project), r),
{
    HandoffLookups {
        session_events: plan.limit,
        messages: plan.limit,
        failed_tools: MAX_RECENT_FAILED_TOOLS,
        permissions: DEFAULT_HANDOFF_LIMIT,
        jobs: ListLookup { project: jobs_project, limit: ACTIVE_JOBS_LIMIT },
        changes: match project {
            Some(p) => if plan.workspace {
                Some(
                    ChangesLookup {
                        project: p.to_owned(),
                        session_id: None,
                        include_diff: false,
                        session_event_limit: None,
                    },
                )
            } else {
                None
            },
            None => None,
        },
        checkpoints: match project {
            Some(p) => if plan.checkpoints {
                Some(project_list(p, plan.limit))
            } else {
                None
            },
            None => None,
        },
        validation_events: if plan.validation {
            Some(HANDOFF_VALIDATION_EVENT_LIMIT)
        } else {
            None
        },
    }
}

} // verus!
