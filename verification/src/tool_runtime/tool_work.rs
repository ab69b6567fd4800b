//! What a tool does once its call got through.
//!
//! What the library holds is answered at once. For the rest a step says what has to be
//! done outside: by the session store, by an agent or by the machine. What came of it
//! leads to the next step, until there is an answer.
use crate::json::{field, no_fields, trees, Json, ObjectBuilder, Tree};
use crate::shell_client::access::{caller, AuthContext, AuthModel};
use crate::shell_client::model::RegistryModel;
use crate::shell_client::protocol::{ClientViewModel, JobInfoModel, ShellClientView, ShellJobInfo};
use crate::shell_client::registry::{
    is_client_listing, is_limited_listing, ShellClientRegistry,
};
use crate::text::{opt_clone, opt_text, opt_view, str_trim, texts, trim, views};
use crate::tool_runtime::agents::{
    agents_tree, list_agents, list_projects, projects_tree, runtime_tree, statuses_of,
    tells_runtime, told_runtime, RuntimeFacts,
};
use crate::tool_runtime::calls::{ToolCall, ToolKind};
use crate::tool_runtime::coding_task::counts_sum;
use crate::tool_runtime::dispatch::{
    bind_current_session, bind_current_session_result, bind_decision, bound_told, current_told,
    current_session_result, discussion_told, list_session_messages_result, message_told,
    messages_told, run_codex_disabled, run_codex_disabled_result, session_discussion_summary_result,
    session_message_result, session_started, session_summary_result, start_session_result,
    summary_told, unbind_current_session_result, unbound_told, DiscussionParts, SessionInfo,
};
use crate::tool_runtime::git::{
    all_can_be_cut, diff_paths_error, diff_summary_parts, diff_summary_script,
    git_diff_summary_command,
};
use crate::tool_runtime::git_tools::{
    changes_planned, changes_result, diff_command, discard_step, discard_untracked, git_diff,
    git_diff_command, git_diff_hunks, git_diff_hunks_plan, git_diff_summary, git_restore_paths,
    git_status, hunks_planned, hunks_result, paths_result, plain_result, restore_step,
    show_changes, show_changes_plan, summary_result, CommandOutcome, DiffHunksPlan,
    ShowChangesPlan,
};
use crate::tool_runtime::handoff::{string_array, texts_in};
use crate::tool_runtime::handoff_summary::{
    handoff_jobs_project, handoff_plan, handoff_planned, handoff_session, handoff_tree,
    is_empty_board, jobs_project, names_project, session_handoff_summary, HandoffInputs,
    HandoffPlan,
};
use crate::tool_runtime::lookups::{are_handoff_lookups, handoff_lookups, HandoffLookups};
use crate::tool_runtime::manifest::manifest_tree;
use crate::tool_runtime::project_commands::{captured, not_finished, text_or_empty};
use crate::tool_runtime::project_resolution::{
    all_candidates, in_order, not_resolved, project_candidates, resolution, resolve, resolve_among,
    ProjectResolverError, ResolvedModel, ResolvedProject,
};
use crate::tool_runtime::registry::{
    all_specified, names_of, offered, tool_list_tree, SpecModel, ToolRuntime,
};
use crate::tool_runtime::session_context::{
    current_session_key, current_session_unavailable_result, no_current_session, session_key,
    unknown_session, CurrentSessionKey, SessionMessageError, SessionTransport,
};
use crate::tool_runtime::sessions::{SessionDiscussionSummary, SessionSummary};
use crate::tool_runtime::shell_text::quoted_words;
use crate::tool_runtime::tool_table::tool_table;
use crate::tool_runtime::types::{
    tool_err, tool_ok, CommandOutput, ToolModel, ToolResult,
};
use vstd::prelude::*;

verus! {

/// A command in a project, and what is made of its output.
#[derive(Debug)]
pub enum CommandWork {
    Status,
    Diff { args: Vec<String> },
    Hunks(DiffHunksPlan),
    Summary,
    Changes { plan: ShowChangesPlan, session_id: Option<String> },
}

impl CommandWork {
    /// The command.
    pub open spec fn script(self) -> Seq<char> {
        match self {
            CommandWork::Status => "git status --porcelain"@,
            CommandWork::Diff { args } => diff_command(texts(args@)),
            CommandWork::Hunks(plan) => plan.command@,
            CommandWork::Summary => diff_summary_script(),
            CommandWork::Changes { plan, session_id } => plan.command@,
        }
    }

    /// The command.
    pub fn command(&self) -> (r: String)
        ensures
            r@ == self.script(),
    {
        match self {
            CommandWork::Status => "git status --porcelain".to_owned(),
            CommandWork::Diff { args } => git_diff_command(args),
            CommandWork::Hunks(plan) => plan.command.clone(),
            CommandWork::Summary => git_diff_summary_command(),
            CommandWork::Changes { plan, .. } => plan.command.clone(),
        }
    }
}

/// What is done to paths that were checked.
#[derive(Debug, Clone, Copy, PartialEq, Eq, Structural)]
pub enum PathsWork {
    Restore,
    Discard,
}

impl PathsWork {
    /// The command on the paths.
    pub open spec fn script(self, paths: Seq<Seq<char>>) -> Seq<char> {
        match self {
            PathsWork::Restore => "git restore -- "@ + quoted_words(paths),
            PathsWork::Discard => "git clean -f -- "@ + quoted_words(paths),
        }
    }

    /// The name under which the paths are told.
    pub open spec fn told_under(self) -> Seq<char> {
        match self {
            PathsWork::Restore => "restored_paths"@,
            PathsWork::Discard => "discarded_untracked_paths"@,
        }
    }
}

/// What was looked up for a handoff beside the session and its message board.
#[derive(Debug)]
pub struct HandoffParts {
    pub tool_failures: Json,
    pub permissions: Json,
    pub jobs: Json,
    pub workspace: Option<ToolResult>,
    pub checkpoints: Option<ToolResult>,
    pub validation: Option<Json>,
}

impl HandoffParts {
    /// Whether what had to be looked up is there, and nothing else.
    pub open spec fn fits(self, lookups: HandoffLookups) -> bool {
        &&& self.workspace is Some == lookups.changes is Some
        &&& self.checkpoints is Some == lookups.checkpoints is Some
        &&& self.validation is Some == lookups.validation_events is Some
    }

    /// Whether what had to be looked up is there, and nothing else.
    pub fn is_for(&self, lookups: &HandoffLookups) -> (r: bool)
        ensures
            r == self.fits(*lookups),
    {
        self.workspace.is_some() == lookups.changes.is_some() && self.checkpoints.is_some()
            == lookups.checkpoints.is_some() && self.validation.is_some()
            == lookups.validation_events.is_some()
    }

    /// What is handed over.
    pub open spec fn inputs(
        self,
        summary: SessionSummary,
        discussion: SessionDiscussionSummary,
    ) -> HandoffInputs {
        HandoffInputs {
            summary,
            discussion,
            tool_failures: self.tool_failures,
            permissions: self.permissions,
            jobs: self.jobs,
            workspace: self.workspace,
            checkpoints: self.checkpoints,
            validation: self.validation,
        }
    }
}

/// What is to be done for a call.
#[derive(Debug)]
#[allow(inconsistent_fields)]
pub enum ToolStep {
    /// Nothing more: this is the answer.
    Answer(ToolResult),
    /// Read the instructions of the project, where there is one, and start a session.
    StartSession { resolved: Option<ResolvedProject>, arguments: Json },
    /// Sum up a session.
    SummarizeSession { session_id: String, arguments: Json },
    /// Post a message in a session.
    PostMessage { session_id: String, arguments: Json },
    /// List the messages of a session.
    ListMessages { session_id: String, arguments: Json },
    /// Resolve a message of a session.
    ResolveMessage { session_id: String, message_id: String, arguments: Json },
    /// Sum up the message board of a session.
    SummarizeDiscussion { session_id: String, arguments: Json },
    /// Look up which project a session is of.
    InspectForBinding { session_id: String, project: String, resolved: String },
    /// Make a session the current one under a key.
    BindSession { key: CurrentSessionKey, session_id: String, project: String, resolved: String },
    /// Look up the current session under a key.
    FindCurrent { key: CurrentSessionKey, project: String, resolved: String },
    /// Have no current session under a key.
    Unbind { key: CurrentSessionKey, project: String, resolved: String },
    /// Run a command in a project.
    RunCommand { project: String, work: CommandWork },
    /// Look up what the machine knows of the runtime.
    TellRuntime {
        clients: Vec<ShellClientView>,
        jobs: Vec<ShellJobInfo>,
        tool_names: Vec<String>,
    },
    /// Have the paths checked that are to be restored or discarded.
    CheckPaths { project: String, paths: Vec<String>, paths_work: PathsWork },
    /// Run a command on checked paths in a project, within so many seconds.
    RunOnPaths {
        project: String,
        command: String,
        timeout_secs: u64,
        checked: Vec<String>,
        paths_work: PathsWork,
    },
    /// Look up a session and its message board, each up to the limit of the plan.
    FindHandoff {
        session_id: String,
        project: Option<String>,
        resolved: Option<String>,
        plan: HandoffPlan,
        summary_only: bool,
    },
    /// Look up what else is handed over.
    GatherHandoff {
        summary: SessionSummary,
        discussion: SessionDiscussionSummary,
        project: Option<String>,
        lookups: HandoffLookups,
        summary_only: bool,
    },
    /// Have the tool do its work.
    Perform(ToolCall),
}

/// What came of a step.
#[derive(Debug)]
pub enum StepReply {
    SessionStarted { session: SessionInfo, instructions: Json },
    SessionSummed(Option<Json>),
    Message(Result<(String, Json), SessionMessageError>),
    Messages(Result<Json, SessionMessageError>),
    Discussion(Result<DiscussionParts, SessionMessageError>),
    /// The project of the session, where it exists and has one.
    SessionProject(Option<Option<String>>),
    Bound(Option<SessionInfo>),
    Current(Option<SessionInfo>),
    Unbound(bool),
    /// How the command ended, and the session that is told of beside it.
    Ran { outcome: CommandOutcome, summary: Option<SessionSummary> },
    Runtime(RuntimeFacts),
    /// The paths as they are used, or what is wrong with them.
    PathsChecked(Result<Vec<String>, String>),
    RanOnPaths(ToolResult),
    HandoffFound {
        found: Option<SessionSummary>,
        discussion: Result<SessionDiscussionSummary, SessionMessageError>,
    },
    HandoffGathered(HandoffParts),
}

// ---------------------------------------------------------------------------
// Arguments
// ---------------------------------------------------------------------------

/// Whether a value is a list of texts.
pub open spec fn is_text_list(v: Tree) -> bool {
    v is Array && forall|i: int| 0 <= i < v.items().len() ==> (#[trigger] v.items()[i]) is Text
}

fn lists_texts(v: Option<&Json>) -> (r: bool)
    ensures
        r == is_text_list(
            match v {
                Some(v) => v@,
                None => Tree::Null,
            },
        ),
{
    let Some(value) = v else {
        return false;
    };
    let Some(items) = value.as_array() else {
        return false;
    };
    let mut i: usize = 0;
    assert(value@.items() == trees(items@));
    while i < items.len()
        invariant
            i <= items@.len(),
            value@ is Array,
            value@.items() == trees(items@),
            v == Some(value),
            forall|j: int| 0 <= j < i ==> (#[trigger] value@.items()[j]) is Text,
        decreases items@.len() - i,
    {
        assert(value@.items()[i as int] == items@[i as int]@);
        if items[i].as_str().is_none() {
            return false;
        }
        i = i + 1;
    }
    true
}

/// Whether a call has the arguments that its tool cannot do without.
pub open spec fn is_whole(call: ToolCall) -> bool {
    match call.kind {
        ToolKind::SessionSummary
        | ToolKind::PostSessionMessage
        | ToolKind::ListSessionMessages
        | ToolKind::SessionDiscussionSummary
        | ToolKind::SessionHandoffSummary => call.session_id is Some,
        ToolKind::ResolveSessionMessage => call.session_id is Some && call.arguments@.at(
            "message_id"@,
        ).as_text() is Some,
        ToolKind::BindCurrentSession => call.session_id is Some && call.project is Some,
        ToolKind::CurrentSession
        | ToolKind::UnbindCurrentSession
        | ToolKind::GitStatus
        | ToolKind::GitDiff
        | ToolKind::GitDiffHunks
        | ToolKind::GitDiffSummary
        | ToolKind::ShowChanges => call.project is Some,
        ToolKind::GitRestorePaths | ToolKind::DiscardUntracked => call.project is Some
            && is_text_list(call.arguments@.at("paths"@)),
        _ => true,
    }
}

/// Whether a call has the arguments that its tool cannot do without.
pub fn has_its_arguments(call: &ToolCall) -> (r: bool)
    ensures
        r == is_whole(*call),
{
    match call.kind {
        ToolKind::SessionSummary
        | ToolKind::PostSessionMessage
        | ToolKind::ListSessionMessages
        | ToolKind::SessionDiscussionSummary
        | ToolKind::SessionHandoffSummary => call.session_id.is_some(),
        ToolKind::ResolveSessionMessage => call.session_id.is_some() && match call.arguments.get(
            "message_id",
        ) {
            Some(id) => id.as_str().is_some(),
            None => false,
        },
        ToolKind::BindCurrentSession => call.session_id.is_some() && call.project.is_some(),
        ToolKind::CurrentSession
        | ToolKind::UnbindCurrentSession
        | ToolKind::GitStatus
        | ToolKind::GitDiff
        | ToolKind::GitDiffHunks
        | ToolKind::GitDiffSummary
        | ToolKind::ShowChanges => call.project.is_some(),
        ToolKind::GitRestorePaths | ToolKind::DiscardUntracked => call.project.is_some()
            && lists_texts(call.arguments.get("paths")),
        _ => true,
    }
}

/// The count under a name, where there is one.
pub open spec fn size_at(arguments: Tree, name: Seq<char>) -> Option<usize> {
    match arguments.at(name).as_u64() {
        Some(n) => if n <= usize::MAX {
            Some(n as usize)
        } else {
            None
        },
        None => None,
    }
}

fn size_of_argument(arguments: &Json, name: &str) -> (r: Option<usize>)
    ensures
        r == size_at(arguments@, name@),
{
    match arguments.u64_at(name) {
        Some(n) => if n <= usize::MAX as u64 {
            Some(n as usize)
        } else {
            None
        },
        None => None,
    }
}

/// The texts under a name.
pub open spec fn texts_at(arguments: Tree, name: Seq<char>) -> Seq<Seq<char>> {
    texts_in(arguments.at(name).items())
}

fn texts_of_argument(arguments: &Json, name: &str) -> (r: Vec<String>)
    ensures
        texts(r@) == texts_at(arguments@, name@),
{
    string_array(arguments.get(name))
}

fn text_of_argument(arguments: &Json, name: &str) -> (r: Option<String>)
    ensures
        opt_text(r) == arguments@.at(name@).as_text(),
{
    match arguments.get(name) {
        Some(v) => match v.as_str() {
            Some(s) => Some(s.to_owned()),
            None => None,
        },
        None => None,
    }
}

// ---------------------------------------------------------------------------
// The first step
// ---------------------------------------------------------------------------

/// The step is the answer.
pub open spec fn answers(result: ToolModel, r: ToolStep) -> bool {
    r is Answer && r->Answer_0@ == result
}

/// The first step of a call for the current session of a project: where there is a key
/// for it, the current session under that key is looked up or given up.
pub open spec fn is_current_step(
    call: ToolCall,
    p: ResolvedModel,
    auth: Option<AuthModel>,
    transport: SessionTransport,
    r: ToolStep,
) -> bool {
    match session_key(auth, transport, p.resolved_id) {
        Ok(key) => if call.kind == ToolKind::CurrentSession {
            &&& r is FindCurrent
            &&& r->FindCurrent_key@ == key
            &&& r->FindCurrent_project@ == call.project->0@
            &&& r->FindCurrent_resolved@ == p.resolved_id
        } else {
            &&& r is Unbind
            &&& r->Unbind_key@ == key
            &&& r->Unbind_project@ == call.project->0@
            &&& r->Unbind_resolved@ == p.resolved_id
        },
        Err(e) => answers(no_current_session(e), r),
    }
}

/// The first step of a call that is about the project `p`.
pub open spec fn is_project_step(
    call: ToolCall,
    p: Option<ResolvedModel>,
    auth: Option<AuthModel>,
    transport: SessionTransport,
    r: ToolStep,
) -> bool {
    match call.kind {
        ToolKind::StartSession => {
            &&& r is StartSession
            &&& opt_view(r->StartSession_resolved) == p
            &&& r->StartSession_arguments == call.arguments
        },
        ToolKind::BindCurrentSession => {
            &&& r is InspectForBinding
            &&& r->InspectForBinding_session_id@ == call.session_id->0@
            &&& r->InspectForBinding_project@ == call.project->0@
            &&& r->InspectForBinding_resolved@ == p->0.resolved_id
        },
        _ => is_current_step(call, p->0, auth, transport, r),
    }
}

/// The work of the diff tools.
pub open spec fn is_command_step(call: ToolCall, r: ToolStep) -> bool {
    let a = call.arguments@;
    if call.kind == ToolKind::GitDiffHunks && diff_paths_error(texts_at(a, "paths"@)) is Some {
        answers(tool_err(diff_paths_error(texts_at(a, "paths"@))->0), r)
    } else {
        &&& r is RunCommand
        &&& r->RunCommand_project@ == call.project->0@
        &&& match call.kind {
            ToolKind::GitStatus => r->work is Status,
            ToolKind::GitDiff => r->work is Diff && texts(r->work->args@) == texts_at(a, "args"@),
            ToolKind::GitDiffHunks => r->work is Hunks && hunks_planned(
                texts_at(a, "paths"@),
                size_at(a, "max_hunks"@),
                size_at(a, "max_hunk_lines"@),
                a.at("cached"@).as_bool(),
                r->work->Hunks_0,
            ),
            ToolKind::GitDiffSummary => r->work is Summary,
            _ => r->work is Changes && opt_text(r->work->session_id) == opt_text(call.session_id)
                && changes_planned(
                a.at("include_diff"@).as_bool(),
                size_at(a, "max_hunks"@),
                size_at(a, "max_hunk_lines"@),
                size_at(a, "session_event_limit"@),
                r->work->plan,
            ),
        }
    }
}

/// The first step of a call that restores or discards paths: they are checked.
pub open spec fn is_paths_step(call: ToolCall, r: ToolStep) -> bool {
    &&& r is CheckPaths
    &&& Some(r->CheckPaths_project) == call.project
    &&& texts(r->CheckPaths_paths@) == texts_at(call.arguments@, "paths"@)
    &&& r->CheckPaths_paths_work == (if call.kind == ToolKind::GitRestorePaths {
        PathsWork::Restore
    } else {
        PathsWork::Discard
    })
}

/// The id that a project is resolved to among the projects of the clients, where it is
/// named and resolved.
pub open spec fn resolved_among(project: Option<Seq<char>>, clients: Seq<ClientViewModel>) -> Option<
    Seq<char>,
> {
    if names_project(project) {
        match resolve(trim(project->0), in_order(all_candidates(clients))) {
            Ok(p) => Some(p.resolved_id),
            Err(_) => None,
        }
    } else {
        None
    }
}

/// The first step of a handoff: its session is looked up.
pub open spec fn is_handoff_step(call: ToolCall, clients: Seq<ClientViewModel>, r: ToolStep) -> bool {
    let a = call.arguments@;
    &&& r is FindHandoff
    &&& Some(r->FindHandoff_session_id) == call.session_id
    &&& r->FindHandoff_project == call.project
    &&& opt_text(r->FindHandoff_resolved) == resolved_among(opt_text(call.project), clients)
    &&& handoff_planned(
        opt_text(call.project),
        a.at("include_workspace"@).as_bool(),
        a.at("include_checkpoints"@).as_bool(),
        a.at("include_validation"@).as_bool(),
        size_at(a, "limit"@),
        r->FindHandoff_plan,
    )
    &&& r->FindHandoff_summary_only == (a.at("summary_only"@).as_bool() == Some(true))
}

/// The first step of a call for the runtime status: beside the clients that the caller
/// sees and the tools that are offered, what the machine knows is needed.
pub open spec fn is_runtime_step(clients: Seq<ClientViewModel>, r: ToolStep) -> bool {
    &&& r is TellRuntime
    &&& views(r->TellRuntime_clients@) == clients
    &&& texts(r->tool_names@) == names_of(tool_table())
}

/// What a first step does to the registry. Only the runtime status does anything: it lists
/// the latest jobs that the caller sees, which brings every job up to date.
pub open spec fn lists_jobs(
    before: RegistryModel,
    after: RegistryModel,
    auth: Option<AuthModel>,
    call: ToolCall,
    r: ToolStep,
) -> bool {
    if call.kind == ToolKind::RuntimeStatus {
        exists|later: i64|
            after == #[trigger] before.refreshed_all(later) && is_limited_listing(
                after,
                auth,
                None,
                None,
                None,
                later,
                views(r->TellRuntime_jobs@),
            )
    } else {
        after == before
    }
}

/// Whether the first step of a tool takes the project that is meant.
pub open spec fn takes_project(call: ToolCall) -> bool {
    match call.kind {
        ToolKind::StartSession => call.project is Some,
        ToolKind::BindCurrentSession
        | ToolKind::CurrentSession
        | ToolKind::UnbindCurrentSession => true,
        _ => false,
    }
}

/// The first step of a call that is not about a project of the registry.
pub open spec fn is_plain_step(call: ToolCall, tools: Seq<SpecModel>, r: ToolStep) -> bool {
    match call.kind {
        ToolKind::ListTools => answers(
            tool_ok(Tree::Object(no_fields().push(field("tools"@, tool_list_tree(tools))))),
            r,
        ),
        ToolKind::RunCodex => answers(run_codex_disabled(), r),
        ToolKind::StartSession => {
            &&& r is StartSession
            &&& r->StartSession_resolved is None
            &&& r->StartSession_arguments == call.arguments
        },
        ToolKind::SessionSummary => {
            &&& r is SummarizeSession
            &&& Some(r->SummarizeSession_session_id) == call.session_id
            &&& r->SummarizeSession_arguments == call.arguments
        },
        ToolKind::PostSessionMessage => {
            &&& r is PostMessage
            &&& Some(r->PostMessage_session_id) == call.session_id
            &&& r->PostMessage_arguments == call.arguments
        },
        ToolKind::ListSessionMessages => {
            &&& r is ListMessages
            &&& Some(r->ListMessages_session_id) == call.session_id
            &&& r->ListMessages_arguments == call.arguments
        },
        ToolKind::ResolveSessionMessage => {
            &&& r is ResolveMessage
            &&& Some(r->ResolveMessage_session_id) == call.session_id
            &&& Some(r->message_id@) == call.arguments@.at("message_id"@).as_text()
            &&& r->ResolveMessage_arguments == call.arguments
        },
        ToolKind::SessionDiscussionSummary => {
            &&& r is SummarizeDiscussion
            &&& Some(r->SummarizeDiscussion_session_id) == call.session_id
            &&& r->SummarizeDiscussion_arguments == call.arguments
        },
        ToolKind::GitStatus
        | ToolKind::GitDiff
        | ToolKind::GitDiffHunks
        | ToolKind::GitDiffSummary
        | ToolKind::ShowChanges => is_command_step(call, r),
        ToolKind::GitRestorePaths | ToolKind::DiscardUntracked => is_paths_step(call, r),
        _ => r == ToolStep::Perform(call),
    }
}

fn current_step(
    call: ToolCall,
    p: ResolvedProject,
    auth: Option<&AuthContext>,
    transport: SessionTransport,
) -> (r: ToolStep)
    requires
        call.project is Some,
        call.kind == ToolKind::CurrentSession || call.kind == ToolKind::UnbindCurrentSession,
    ensures
        is_current_step(call, p@, caller(auth), transport, r),
{
    let find = call.kind == ToolKind::CurrentSession;
    match current_session_key(auth, transport, p.resolved_id.as_str()) {
        Ok(key) => match call.project {
            Some(project) => if find {
                ToolStep::FindCurrent { key, project, resolved: p.resolved_id }
            } else {
                ToolStep::Unbind { key, project, resolved: p.resolved_id }
            },
            None => vstd::pervasive::unreached(),
        },
        Err(e) => ToolStep::Answer(current_session_unavailable_result(e.as_str())),
    }
}

/// The first step of a call, given which project it means.
pub fn project_step(
    call: ToolCall,
    meant: Result<ResolvedProject, ProjectResolverError>,
    auth: Option<&AuthContext>,
    transport: SessionTransport,
) -> (r: ToolStep)
    requires
        is_whole(call),
        takes_project(call),
    ensures
        match resolution(meant) {
            Ok(p) => is_project_step(call, Some(p), caller(auth), transport, r),
            Err(e) => answers(not_resolved(e), r),
        },
{
    let p = match meant {
        Ok(p) => p,
        Err(e) => {
            return ToolStep::Answer(e.into_tool_result());
        },
    };
    match call.kind {
        ToolKind::StartSession => ToolStep::StartSession {
            resolved: Some(p),
            arguments: call.arguments,
        },
        ToolKind::BindCurrentSession => match (call.session_id, call.project) {
            (Some(session_id), Some(project)) => ToolStep::InspectForBinding {
                session_id,
                project,
                resolved: p.resolved_id,
            },
            _ => vstd::pervasive::unreached(),
        },
        _ => current_step(call, p, auth, transport),
    }
}

fn command_step(call: ToolCall) -> (r: ToolStep)
    requires
        call.project is Some,
        call.kind == ToolKind::GitStatus || call.kind == ToolKind::GitDiff || call.kind
            == ToolKind::GitDiffHunks || call.kind == ToolKind::GitDiffSummary || call.kind
            == ToolKind::ShowChanges,
    ensures
        is_command_step(call, r),
{
    let a = &call.arguments;
    let work = match call.kind {
        ToolKind::GitStatus => CommandWork::Status,
        ToolKind::GitDiff => CommandWork::Diff { args: texts_of_argument(a, "args") },
        ToolKind::GitDiffHunks => match git_diff_hunks_plan(
            Some(texts_of_argument(a, "paths")),
            size_of_argument(a, "max_hunks"),
            size_of_argument(a, "max_hunk_lines"),
            a.bool_at("cached"),
        ) {
            Ok(plan) => CommandWork::Hunks(plan),
            Err(result) => {
                return ToolStep::Answer(result);
            },
        },
        ToolKind::GitDiffSummary => CommandWork::Summary,
        _ => CommandWork::Changes {
            plan: show_changes_plan(
                a.bool_at("include_diff"),
                size_of_argument(a, "max_hunks"),
                size_of_argument(a, "max_hunk_lines"),
                size_of_argument(a, "session_event_limit"),
            ),
            session_id: opt_clone(&call.session_id),
        },
    };
    match call.project {
        Some(project) => ToolStep::RunCommand { project, work },
        None => vstd::pervasive::unreached(),
    }
}

fn paths_step(call: ToolCall, paths_work: PathsWork) -> (r: ToolStep)
    requires
        call.project is Some,
        paths_work == (if call.kind == ToolKind::GitRestorePaths {
            PathsWork::Restore
        } else {
            PathsWork::Discard
        }),
    ensures
        is_paths_step(call, r),
{
    let paths = texts_of_argument(&call.arguments, "paths");
    match call.project {
        Some(project) => ToolStep::CheckPaths { project, paths, paths_work },
        None => vstd::pervasive::unreached(),
    }
}

fn handoff_step(call: ToolCall, clients: &Vec<ShellClientView>) -> (r: ToolStep)
    requires
        call.session_id is Some,
    ensures
        is_handoff_step(call, views(clients@), r),
{
    let a = &call.arguments;
    let named = match &call.project {
        Some(p) => Some(p.as_str()),
        None => None,
    };
    let plan = handoff_plan(
        named,
        a.bool_at("include_workspace"),
        a.bool_at("include_checkpoints"),
        a.bool_at("include_validation"),
        size_of_argument(a, "limit"),
    );
    let summary_only = match a.bool_at("summary_only") {
        Some(b) => b,
        None => false,
    };
    let mut resolved: Option<String> = None;
    if let Some(p) = &call.project {
        let trimmed = str_trim(p.as_str());
        if !trimmed.is_empty() {
            if let Ok(found) = resolve_among(trimmed, project_candidates(clients)) {
                resolved = Some(found.resolved_id);
            }
        }
    }
    match call.session_id {
        Some(session_id) => ToolStep::FindHandoff {
            session_id,
            project: call.project,
            resolved,
            plan,
            summary_only,
        },
        None => vstd::pervasive::unreached(),
    }
}

/// The first step of a call that is not about a project of the registry.
pub fn plain_step(call: ToolCall, runtime: &ToolRuntime) -> (r: ToolStep)
    requires
        is_whole(call),
        !takes_project(call),
        runtime.wf(),
    ensures
        is_plain_step(call, all_specified(tool_table(), runtime.table()), r),
{
    match call.kind {
        ToolKind::ListTools => ToolStep::Answer(
            ToolResult::ok(ObjectBuilder::new().with("tools", runtime.list_tools()).build()),
        ),
        ToolKind::RunCodex => ToolStep::Answer(run_codex_disabled_result()),
        ToolKind::StartSession => ToolStep::StartSession {
            resolved: None,
            arguments: call.arguments,
        },
        ToolKind::GitStatus
        | ToolKind::GitDiff
        | ToolKind::GitDiffHunks
        | ToolKind::GitDiffSummary
        | ToolKind::ShowChanges => command_step(call),
        ToolKind::GitRestorePaths => paths_step(call, PathsWork::Restore),
        ToolKind::DiscardUntracked => paths_step(call, PathsWork::Discard),
        ToolKind::SessionSummary
        | ToolKind::PostSessionMessage
        | ToolKind::ListSessionMessages
        | ToolKind::ResolveSessionMessage
        | ToolKind::SessionDiscussionSummary => session_step(call),
        _ => ToolStep::Perform(call),
    }
}

fn session_step(call: ToolCall) -> (r: ToolStep)
    requires
        is_whole(call),
        call.kind == ToolKind::SessionSummary || call.kind == ToolKind::PostSessionMessage
            || call.kind == ToolKind::ListSessionMessages || call.kind
            == ToolKind::ResolveSessionMessage || call.kind == ToolKind::SessionDiscussionSummary,
    ensures
        forall|tools: Seq<SpecModel>| is_plain_step(call, tools, r),
{
    let Some(session_id) = call.session_id else {
        return vstd::pervasive::unreached();
    };
    let arguments = call.arguments;
    match call.kind {
        ToolKind::SessionSummary => ToolStep::SummarizeSession { session_id, arguments },
        ToolKind::PostSessionMessage => ToolStep::PostMessage { session_id, arguments },
        ToolKind::ListSessionMessages => ToolStep::ListMessages { session_id, arguments },
        ToolKind::SessionDiscussionSummary => ToolStep::SummarizeDiscussion {
            session_id,
            arguments,
        },
        _ => match text_of_argument(&arguments, "message_id") {
            Some(message_id) => ToolStep::ResolveMessage { session_id, message_id, arguments },
            None => vstd::pervasive::unreached(),
        },
    }
}

/// The first step of a call that got through, given the clients that its caller sees.
pub open spec fn is_first_step(
    call: ToolCall,
    clients: Seq<ClientViewModel>,
    runtime: ToolRuntime,
    auth: Option<AuthModel>,
    transport: SessionTransport,
    r: ToolStep,
) -> bool {
    if call.kind == ToolKind::ListProjects {
        answers(tool_ok(projects_tree(clients)), r)
    } else if call.kind == ToolKind::ListAgents {
        answers(tool_ok(agents_tree(clients)), r)
    } else if call.kind == ToolKind::ToolManifest {
        answers(
            tool_ok(
                manifest_tree(
                    offered(runtime.table()),
                    call.arguments@.at("category"@).as_text(),
                    call.arguments@.at("include_recommended_flows"@).as_bool() == Some(true),
                    call.arguments@.at("include_risk_summary"@).as_bool() == Some(true),
                ),
            ),
            r,
        )
    } else if call.kind == ToolKind::RuntimeStatus {
        is_runtime_step(clients, r)
    } else if call.kind == ToolKind::SessionHandoffSummary {
        is_handoff_step(call, clients, r)
    } else if takes_project(call) {
        match resolve(call.project->0@, in_order(all_candidates(clients))) {
            Ok(p) => is_project_step(call, Some(p), auth, transport, r),
            Err(e) => answers(not_resolved(e), r),
        }
    } else {
        is_plain_step(call, all_specified(tool_table(), runtime.table()), r)
    }
}

fn manifest_step(runtime: &ToolRuntime, arguments: &Json) -> (r: ToolResult)
    requires
        runtime.wf(),
    ensures
        r@ == tool_ok(
            manifest_tree(
                offered(runtime.table()),
                arguments@.at("category"@).as_text(),
                arguments@.at("include_recommended_flows"@).as_bool() == Some(true),
                arguments@.at("include_risk_summary"@).as_bool() == Some(true),
            ),
        ),
{
    let category = text_of_argument(arguments, "category");
    let wanted = match &category {
        Some(c) => Some(c.as_str()),
        None => None,
    };
    let flows = match arguments.bool_at("include_recommended_flows") {
        Some(b) => b,
        None => false,
    };
    let risks = match arguments.bool_at("include_risk_summary") {
        Some(b) => b,
        None => false,
    };
    runtime.tool_manifest(wanted, flows, risks)
}

impl ToolRuntime {
    /// The first step of a call that got through.
    pub fn dispatch_authorized_inner(
        &self,
        registry: &mut ShellClientRegistry,
        call: ToolCall,
        auth: Option<&AuthContext>,
        transport: SessionTransport,
    ) -> (r: ToolStep)
        requires
            self.wf(),
            old(registry).wf(),
            is_whole(call),
        ensures
            final(registry).wf(),
            lists_jobs(old(registry)@, final(registry)@, caller(auth), call, r),
            exists|clients: Seq<ClientViewModel>, now: i64| #[trigger]
                is_client_listing(old(registry)@, caller(auth), now, clients) && is_first_step(
                    call,
                    clients,
                    *self,
                    caller(auth),
                    transport,
                    r,
                ),
    {
        if call.kind == ToolKind::ListProjects {
            return ToolStep::Answer(list_projects(registry, auth));
        }
        if call.kind == ToolKind::ListAgents {
            return ToolStep::Answer(list_agents(registry, auth));
        }
        let clients = registry.list_clients_for_auth(auth);
        let ghost seen = views(clients@);
        let ghost now = choose|now: i64| #[trigger]
            is_client_listing(registry@, caller(auth), now, seen);
        assert(is_client_listing(registry@, caller(auth), now, seen));
        if call.kind == ToolKind::RuntimeStatus {
            let jobs = registry.list_jobs_for_auth(auth, None);
            return ToolStep::TellRuntime { clients, jobs, tool_names: self.offered_names() };
        }
        if call.kind == ToolKind::SessionHandoffSummary {
            return handoff_step(call, &clients);
        }
        if call.kind == ToolKind::ToolManifest {
            return ToolStep::Answer(manifest_step(self, &call.arguments));
        }
        let about_project = match call.kind {
            ToolKind::StartSession => call.project.is_some(),
            ToolKind::BindCurrentSession
            | ToolKind::CurrentSession
            | ToolKind::UnbindCurrentSession => true,
            _ => false,
        };
        if about_project {
            if let Some(project) = &call.project {
                let candidates = project_candidates(&clients);
                let meant = resolve_among(project.as_str(), candidates);
                return project_step(call, meant, auth, transport);
            }
        }
        plain_step(call, self)
    }
}

// ---------------------------------------------------------------------------
// The next step
// ---------------------------------------------------------------------------

/// Whether an output holds what a command left behind.
pub open spec fn holds_output(outcome: CommandOutcome, output: CommandOutput) -> bool {
    &&& outcome is Finished
    &&& output.exit_code == outcome->exit_code
    &&& output.stdout@ == text_or_empty(outcome->stdout)
    &&& output.stderr@ == text_or_empty(outcome->stderr)
}

/// The answer after a command.
pub open spec fn is_command_answer(
    project: Seq<char>,
    work: CommandWork,
    outcome: CommandOutcome,
    summary: Option<SessionSummary>,
    r: ToolStep,
) -> bool {
    match work {
        CommandWork::Status => answers(plain_result(outcome), r),
        CommandWork::Diff { args } => answers(plain_result(outcome), r),
        CommandWork::Hunks(plan) => match not_finished(outcome) {
            Some(e) => answers(tool_err(e), r),
            None => exists|output: CommandOutput| #[trigger]
                holds_output(outcome, output) && answers(hunks_result(project, plan, output), r),
        },
        CommandWork::Summary => match not_finished(outcome) {
            Some(e) => answers(tool_err(e), r),
            None => answers(
                summary_result(text_or_empty(outcome->stdout), outcome->exit_code),
                r,
            ),
        },
        CommandWork::Changes { plan, session_id } => match not_finished(outcome) {
            Some(e) => answers(tool_err(e), r),
            None => exists|output: CommandOutput| #[trigger]
                holds_output(outcome, output) && answers(
                    changes_result(project, plan, output, opt_text(session_id), summary),
                    r,
                ),
        },
    }
}

/// Whether what came of a step can be read: every line of a status that stands before a
/// diff can be cut behind its second and third byte, and what is counted together can be
/// counted.
pub open spec fn can_be_read(step: ToolStep, reply: StepReply) -> bool {
    &&& step is RunCommand && step->work is Summary && reply is Ran && reply->outcome is Finished
        ==> all_can_be_cut(diff_summary_parts(text_or_empty(reply->outcome->stdout)).0)
    &&& step is TellRuntime && reply is Runtime ==> step->TellRuntime_jobs@.len()
        + reply->Runtime_0.local_statuses@.len() <= usize::MAX
    &&& step is GatherHandoff && reply is HandoffGathered ==> counts_fit(
        reply->HandoffGathered_0.workspace,
    )
}

/// Whether the changed files that an overview counts can be counted together.
pub open spec fn counts_fit(workspace: Option<ToolResult>) -> bool {
    workspace is Some && workspace->0.success ==> counts_sum(
        workspace->0.output@.at("counts"@),
    ) <= u64::MAX
}

/// The step after the check on paths.
pub open spec fn is_checked_step(
    project: String,
    paths_work: PathsWork,
    clean: Result<Vec<String>, String>,
    r: ToolStep,
) -> bool {
    match clean {
        Err(e) => answers(tool_err(e@), r),
        Ok(paths) => {
            &&& r is RunOnPaths
            &&& r->RunOnPaths_project == project
            &&& r->command@ == paths_work.script(texts(paths@))
            &&& r->timeout_secs == 30
            &&& r->checked == paths
            &&& r->RunOnPaths_paths_work == paths_work
        },
    }
}

/// The step after the look for a session that is handed over. A message board that cannot
/// be read counts as empty.
pub open spec fn is_found_step(
    step: ToolStep,
    found: Option<SessionSummary>,
    discussion: Result<SessionDiscussionSummary, SessionMessageError>,
    r: ToolStep,
) -> bool {
    match found {
        None => answers(unknown_session(step->FindHandoff_session_id@), r),
        Some(summary) => {
            &&& r is GatherHandoff
            &&& r->GatherHandoff_summary == summary
            &&& match discussion {
                Ok(d) => r->GatherHandoff_discussion == d,
                Err(_) => is_empty_board(r->GatherHandoff_discussion),
            }
            &&& r->GatherHandoff_project == step->FindHandoff_project
            &&& r->GatherHandoff_summary_only == step->FindHandoff_summary_only
            &&& are_handoff_lookups(
                step->FindHandoff_plan,
                opt_text(step->FindHandoff_project),
                jobs_project(
                    opt_text(step->FindHandoff_project),
                    opt_text(step->FindHandoff_resolved),
                    opt_text(summary.project),
                ),
                r->lookups,
            )
        },
    }
}

/// The step after a step, given what came of it. A reply that does not fit changes nothing.
pub open spec fn is_next_step(
    step: ToolStep,
    reply: StepReply,
    auth: Option<AuthModel>,
    transport: SessionTransport,
    r: ToolStep,
) -> bool {
    match (step, reply) {
        (
            ToolStep::StartSession { resolved, arguments },
            StepReply::SessionStarted { session, instructions },
        ) => answers(session_started(opt_view(resolved), session, instructions@), r),
        (
            ToolStep::SummarizeSession { session_id, arguments },
            StepReply::SessionSummed(summary),
        ) => answers(summary_told(session_id@, summary), r),
        (ToolStep::PostMessage { session_id, arguments }, StepReply::Message(outcome)) => answers(
            message_told(session_id@, None, outcome),
            r,
        ),
        (
            ToolStep::ListMessages { session_id, arguments },
            StepReply::Messages(outcome),
        ) => answers(messages_told(session_id@, outcome), r),
        (
            ToolStep::ResolveMessage { session_id, message_id, arguments },
            StepReply::Message(outcome),
        ) => answers(message_told(session_id@, Some(message_id@), outcome), r),
        (
            ToolStep::SummarizeDiscussion { session_id, arguments },
            StepReply::Discussion(outcome),
        ) => answers(discussion_told(session_id@, outcome), r),
        (
            ToolStep::InspectForBinding { session_id, project, resolved },
            StepReply::SessionProject(session),
        ) => match bind_decision(
            auth,
            transport,
            project@,
            resolved@,
            session_id@,
            match session {
                Some(p) => Some(opt_text(p)),
                None => None,
            },
        ) {
            Ok(key) => {
                &&& r is BindSession
                &&& r->BindSession_key@ == key
                &&& r->BindSession_session_id == session_id
                &&& r->BindSession_project == project
                &&& r->BindSession_resolved == resolved
            },
            Err(e) => answers(e, r),
        },
        (
            ToolStep::BindSession { key, session_id, project, resolved },
            StepReply::Bound(bound),
        ) => answers(bound_told(session_id@, bound, project@, resolved@), r),
        (
            ToolStep::FindCurrent { key, project, resolved },
            StepReply::Current(current),
        ) => answers(current_told(current, project@, resolved@), r),
        (ToolStep::Unbind { key, project, resolved }, StepReply::Unbound(had)) => answers(
            unbound_told(had, project@, resolved@),
            r,
        ),
        (ToolStep::RunCommand { project, work }, StepReply::Ran { outcome, summary }) => {
            is_command_answer(project@, work, outcome, summary, r)
        },
        (ToolStep::TellRuntime { clients, jobs, tool_names }, StepReply::Runtime(facts)) => {
            answers(
                tool_ok(
                    runtime_tree(
                        facts,
                        views(clients@),
                        statuses_of(views(jobs@)),
                        texts(tool_names@),
                    ),
                ),
                r,
            )
        },
        (
            ToolStep::CheckPaths { project, paths, paths_work },
            StepReply::PathsChecked(clean),
        ) => is_checked_step(project, paths_work, clean, r),
        (
            ToolStep::RunOnPaths { project, command, timeout_secs, checked, paths_work },
            StepReply::RanOnPaths(run),
        ) => answers(paths_result(paths_work.told_under(), texts(checked@), run@), r),
        (
            ToolStep::FindHandoff { session_id, project, resolved, plan, summary_only },
            StepReply::HandoffFound { found, discussion },
        ) => is_found_step(step, found, discussion, r),
        (
            ToolStep::GatherHandoff { summary, discussion, project, lookups, summary_only },
            StepReply::HandoffGathered(parts),
        ) => if parts.fits(lookups) {
            answers(
                tool_ok(
                    handoff_tree(
                        parts.inputs(summary, discussion),
                        opt_text(project),
                        summary_only,
                    ),
                ),
                r,
            )
        } else {
            r == step
        },
        _ => r == step,
    }
}

fn command_answer(
    project: String,
    work: CommandWork,
    outcome: CommandOutcome,
    summary: Option<SessionSummary>,
) -> (r: ToolStep)
    requires
        work is Summary && outcome is Finished ==> all_can_be_cut(
            diff_summary_parts(text_or_empty(outcome->stdout)).0,
        ),
    ensures
        is_command_answer(project@, work, outcome, summary, r),
{
    match work {
        CommandWork::Status => ToolStep::Answer(git_status(outcome)),
        CommandWork::Diff { .. } => ToolStep::Answer(git_diff(outcome)),
        CommandWork::Hunks(plan) => match captured(outcome) {
            Ok(output) => {
                assert(holds_output(outcome, output));
                ToolStep::Answer(git_diff_hunks(project.as_str(), &plan, &output))
            },
            Err(result) => ToolStep::Answer(result),
        },
        CommandWork::Summary => match captured(outcome) {
            Ok(output) => ToolStep::Answer(
                git_diff_summary(output.stdout.as_str(), output.exit_code),
            ),
            Err(result) => ToolStep::Answer(result),
        },
        CommandWork::Changes { plan, session_id } => match captured(outcome) {
            Ok(output) => {
                assert(holds_output(outcome, output));
                let session = match &session_id {
                    Some(id) => Some(id.as_str()),
                    None => None,
                };
                ToolStep::Answer(show_changes(project.as_str(), &plan, &output, session, summary))
            },
            Err(result) => ToolStep::Answer(result),
        },
    }
}

fn binding_step(
    session_id: String,
    project: String,
    resolved: String,
    session: Option<Option<String>>,
    auth: Option<&AuthContext>,
    transport: SessionTransport,
) -> (r: ToolStep)
    ensures
        is_next_step(
            ToolStep::InspectForBinding { session_id, project, resolved },
            StepReply::SessionProject(session),
            caller(auth),
            transport,
            r,
        ),
{
    match bind_current_session(
        auth,
        transport,
        project.as_str(),
        resolved.as_str(),
        session_id.as_str(),
        session,
    ) {
        Ok(key) => ToolStep::BindSession { key, session_id, project, resolved },
        Err(result) => ToolStep::Answer(result),
    }
}

fn checked_step(
    project: String,
    paths_work: PathsWork,
    clean: Result<Vec<String>, String>,
) -> (r: ToolStep)
    ensures
        is_checked_step(project, paths_work, clean, r),
{
    let planned = match paths_work {
        PathsWork::Restore => restore_step(clean),
        PathsWork::Discard => discard_step(clean),
    };
    match planned {
        Ok((command, timeout_secs, checked)) => ToolStep::RunOnPaths {
            project,
            command,
            timeout_secs,
            checked,
            paths_work,
        },
        Err(result) => ToolStep::Answer(result),
    }
}

fn found_step(
    session_id: String,
    project: Option<String>,
    resolved: Option<String>,
    plan: HandoffPlan,
    summary_only: bool,
    found: Option<SessionSummary>,
    discussion: Result<SessionDiscussionSummary, SessionMessageError>,
) -> (r: ToolStep)
    ensures
        is_found_step(
            ToolStep::FindHandoff { session_id, project, resolved, plan, summary_only },
            found,
            discussion,
            r,
        ),
{
    let (summary, board) = match handoff_session(session_id.as_str(), found, discussion) {
        Ok(pair) => pair,
        Err(result) => {
            return ToolStep::Answer(result);
        },
    };
    let named = match &project {
        Some(p) => Some(p.as_str()),
        None => None,
    };
    let of_jobs = handoff_jobs_project(named, resolved, opt_clone(&summary.project));
    let lookups = handoff_lookups(&plan, named, of_jobs);
    ToolStep::GatherHandoff { summary, discussion: board, project, lookups, summary_only }
}

fn gathered_step(
    summary: SessionSummary,
    discussion: SessionDiscussionSummary,
    project: Option<String>,
    lookups: HandoffLookups,
    summary_only: bool,
    parts: HandoffParts,
) -> (r: ToolStep)
    requires
        counts_fit(parts.workspace),
    ensures
        if parts.fits(lookups) {
            answers(
                tool_ok(
                    handoff_tree(
                        parts.inputs(summary, discussion),
                        opt_text(project),
                        summary_only,
                    ),
                ),
                r,
            )
        } else {
            r == (ToolStep::GatherHandoff { summary, discussion, project, lookups, summary_only })
        },
{
    if !parts.is_for(&lookups) {
        return ToolStep::GatherHandoff { summary, discussion, project, lookups, summary_only };
    }
    let inputs = HandoffInputs {
        summary,
        discussion,
        tool_failures: parts.tool_failures,
        permissions: parts.permissions,
        jobs: parts.jobs,
        workspace: parts.workspace,
        checkpoints: parts.checkpoints,
        validation: parts.validation,
    };
    let named = match &project {
        Some(p) => Some(p.as_str()),
        None => None,
    };
    ToolStep::Answer(session_handoff_summary(&inputs, named, summary_only))
}

/// The step after a step, given what came of it.
pub fn next_tool_step(
    step: ToolStep,
    reply: StepReply,
    auth: Option<&AuthContext>,
    transport: SessionTransport,
) -> (r: ToolStep)
    requires
        can_be_read(step, reply),
    ensures
        is_next_step(step, reply, caller(auth), transport, r),
{
    match (step, reply) {
        (
            ToolStep::StartSession { resolved, .. },
            StepReply::SessionStarted { session, instructions },
        ) => ToolStep::Answer(start_session_result(&resolved, &session, &instructions)),
        (ToolStep::SummarizeSession { session_id, .. }, StepReply::SessionSummed(summary)) => {
            ToolStep::Answer(session_summary_result(session_id.as_str(), summary))
        },
        (ToolStep::PostMessage { session_id, .. }, StepReply::Message(outcome)) => {
            ToolStep::Answer(session_message_result(session_id.as_str(), None, outcome))
        },
        (ToolStep::ListMessages { session_id, .. }, StepReply::Messages(outcome)) => {
            ToolStep::Answer(list_session_messages_result(session_id.as_str(), outcome))
        },
        (ToolStep::ResolveMessage { session_id, message_id, .. }, StepReply::Message(outcome)) => {
            ToolStep::Answer(
                session_message_result(session_id.as_str(), Some(message_id.as_str()), outcome),
            )
        },
        (ToolStep::SummarizeDiscussion { session_id, .. }, StepReply::Discussion(outcome)) => {
            ToolStep::Answer(session_discussion_summary_result(session_id.as_str(), outcome))
        },
        (
            ToolStep::InspectForBinding { session_id, project, resolved },
            StepReply::SessionProject(session),
        ) => binding_step(session_id, project, resolved, session, auth, transport),
        (ToolStep::BindSession { session_id, project, resolved, .. }, StepReply::Bound(bound)) => {
            ToolStep::Answer(
                bind_current_session_result(
                    session_id.as_str(),
                    &bound,
                    project.as_str(),
                    resolved.as_str(),
                ),
            )
        },
        (ToolStep::FindCurrent { project, resolved, .. }, StepReply::Current(current)) => {
            ToolStep::Answer(
                current_session_result(&current, project.as_str(), resolved.as_str()),
            )
        },
        (ToolStep::Unbind { project, resolved, .. }, StepReply::Unbound(had)) => {
            ToolStep::Answer(
                unbind_current_session_result(had, project.as_str(), resolved.as_str()),
            )
        },
        (ToolStep::RunCommand { project, work }, StepReply::Ran { outcome, summary }) => {
            command_answer(project, work, outcome, summary)
        },
        (ToolStep::TellRuntime { clients, jobs, tool_names }, StepReply::Runtime(facts)) => {
            ToolStep::Answer(told_runtime(&facts, &clients, &jobs, &tool_names))
        },
        (
            ToolStep::CheckPaths { project, paths_work, .. },
            StepReply::PathsChecked(clean),
        ) => checked_step(project, paths_work, clean),
        (ToolStep::RunOnPaths { checked, paths_work, .. }, StepReply::RanOnPaths(run)) => {
            match paths_work {
                PathsWork::Restore => ToolStep::Answer(git_restore_paths(&checked, run)),
                PathsWork::Discard => ToolStep::Answer(discard_untracked(&checked, run)),
            }
        },
        (
            ToolStep::FindHandoff { session_id, project, resolved, plan, summary_only },
            StepReply::HandoffFound { found, discussion },
        ) => found_step(session_id, project, resolved, plan, summary_only, found, discussion),
        (
            ToolStep::GatherHandoff { summary, discussion, project, lookups, summary_only },
            StepReply::HandoffGathered(parts),
        ) => gathered_step(summary, discussion, project, lookups, summary_only, parts),
        (step, _) => step,
    }
}

// ---------------------------------------------------------------------------
// Laws
// ---------------------------------------------------------------------------

/// A session is made the current one only of the project that it was started for, and
/// only under the key of the caller for that project.
pub proof fn law_only_fitting_sessions_are_bound(
    step: ToolStep,
    reply: StepReply,
    auth: Option<AuthModel>,
    transport: SessionTransport,
    r: ToolStep,
)
    requires
        is_next_step(step, reply, auth, transport, r),
        r is BindSession,
        !(step is BindSession),
    ensures
        step is InspectForBinding,
        reply is SessionProject,
        reply->SessionProject_0 is Some,
        opt_text(reply->SessionProject_0->0) == Some(step->InspectForBinding_resolved@),
        session_key(auth, transport, step->InspectForBinding_resolved@) == Ok::<_, Seq<char>>(
            r->BindSession_key@,
        ),
{
}

/// A call for the runtime status is answered with the status of the clients and the jobs
/// that its caller sees and of the tools that are offered.
pub proof fn law_runtime_is_told(
    before: RegistryModel,
    after: RegistryModel,
    auth: Option<AuthModel>,
    call: ToolCall,
    clients: Seq<ClientViewModel>,
    now: i64,
    runtime: ToolRuntime,
    transport: SessionTransport,
    step: ToolStep,
    facts: RuntimeFacts,
    r: ToolStep,
)
    requires
        call.kind == ToolKind::RuntimeStatus,
        is_client_listing(before, auth, now, clients),
        lists_jobs(before, after, auth, call, step),
        is_first_step(call, clients, runtime, auth, transport, step),
        is_next_step(step, StepReply::Runtime(facts), auth, transport, r),
    ensures
        r is Answer,
        exists|jobs: Seq<JobInfoModel>, later: i64|
            tells_runtime(
                before,
                after,
                auth,
                facts,
                clients,
                now,
                jobs,
                later,
                r->Answer_0@,
            ),
{
    let jobs = views(step->TellRuntime_jobs@);
    let later = choose|later: i64|
        after == #[trigger] before.refreshed_all(later) && is_limited_listing(
            after,
            auth,
            None,
            None,
            None,
            later,
            jobs,
        );
    assert(tells_runtime(before, after, auth, facts, clients, now, jobs, later, r->Answer_0@));
}

/// Nothing runs on paths that were not checked, and what runs on them runs on all of them
/// for at most half a minute.
pub proof fn law_only_checked_paths_are_touched(
    step: ToolStep,
    reply: StepReply,
    auth: Option<AuthModel>,
    transport: SessionTransport,
    r: ToolStep,
)
    requires
        is_next_step(step, reply, auth, transport, r),
        r is RunOnPaths,
        !(step is RunOnPaths),
    ensures
        step is CheckPaths,
        reply is PathsChecked,
        reply->PathsChecked_0 == Ok::<Vec<String>, String>(r->checked),
        r->command@ == step->CheckPaths_paths_work.script(texts(r->checked@)),
        r->timeout_secs == 30,
{
}

/// How many replies a step still waits for.
pub open spec fn replies_left(step: ToolStep) -> nat {
    match step {
        ToolStep::Answer(_) => 0,
        ToolStep::InspectForBinding { .. }
        | ToolStep::CheckPaths { .. }
        | ToolStep::FindHandoff { .. } => 2,
        _ => 1,
    }
}

/// Every reply that fits brings a call nearer to its answer.
pub proof fn law_work_ends(
    step: ToolStep,
    reply: StepReply,
    auth: Option<AuthModel>,
    transport: SessionTransport,
    r: ToolStep,
)
    requires
        is_next_step(step, reply, auth, transport, r),
    ensures
        r == step || replies_left(r) < replies_left(step),
{
}

} // verus!
