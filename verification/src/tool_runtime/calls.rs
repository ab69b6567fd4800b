//! The calls that the runtime takes.
use crate::json::Json;
use crate::text::{opt_clone, opt_text, str_eq};
use vstd::prelude::*;

verus! {

/// The tools.
#[derive(Debug, Clone, Copy, PartialEq, Eq, Structural)]
pub enum ToolKind {
    ListTools,
    StartSession,
    SessionSummary,
    PostSessionMessage,
    ListSessionMessages,
    ResolveSessionMessage,
    SessionDiscussionSummary,
    SessionHandoffSummary,
    BindCurrentSession,
    CurrentSession,
    UnbindCurrentSession,
    WorkspaceCheckpointCreate,
    WorkspaceCheckpointList,
    WorkspaceCheckpointShow,
    WorkspaceCheckpointRestore,
    WorkspaceCheckpointDelete,
    ListProjects,
    RegisterProject,
    CreateProject,
    ListAgents,
    RuntimeStatus,
    ToolManifest,
    RunShell,
    ApplyPatch,
    ApplyPatchChecked,
    DeleteProjectFiles,
    GitRestorePaths,
    DiscardUntracked,
    ValidatePatch,
    GitStatus,
    GitDiff,
    GitDiffHunks,
    GitLog,
    CargoFmt,
    CargoCheck,
    CargoTest,
    ReadFile,
    RunJob,
    RunCodex,
    JobStatus,
    JobLog,
    ListProjectFiles,
    SearchProjectText,
    GitDiffSummary,
    ShowChanges,
    WorkspaceHygieneCheck,
    ListJobs,
    JobTail,
    ReplaceInFile,
    ReplaceExactBlock,
    InsertBeforePattern,
    InsertAfterPattern,
    WriteProjectFile,
    SaveProjectArtifact,
    ReadProjectArtifactMetadata,
    ReadProjectArtifact,
    ReplaceLineRange,
    InsertAtLine,
    DeleteLineRange,
    ApplyTextEdits,
}

/// What an agent has to be able to do for a tool.
#[derive(Debug, Clone, Copy, PartialEq, Eq, Structural)]
pub enum AgentCapability {
    /// Nothing but to belong to the caller.
    OwnerOnly,
    Shell,
    FileRead,
    FileWrite,
    GitOrShell,
    AsyncJobs,
}

/// A call of a tool.
#[derive(Debug)]
pub struct ToolCall {
    pub kind: ToolKind,
    /// The project that the call is about, as the caller wrote it.
    pub project: Option<String>,
    /// The session that the call is recorded in or asks about.
    pub session_id: Option<String>,
    /// The other arguments.
    pub arguments: Json,
}

/// The name of a tool.
pub open spec fn name_of(kind: ToolKind) -> Seq<char> {
    match kind {
        ToolKind::ListTools => "list_tools"@,
        ToolKind::StartSession => "start_session"@,
        ToolKind::SessionSummary => "session_summary"@,
        ToolKind::PostSessionMessage => "post_session_message"@,
        ToolKind::ListSessionMessages => "list_session_messages"@,
        ToolKind::ResolveSessionMessage => "resolve_session_message"@,
        ToolKind::SessionDiscussionSummary => "session_discussion_summary"@,
        ToolKind::SessionHandoffSummary => "session_handoff_summary"@,
        ToolKind::BindCurrentSession => "bind_current_session"@,
        ToolKind::CurrentSession => "current_session"@,
        ToolKind::UnbindCurrentSession => "unbind_current_session"@,
        ToolKind::WorkspaceCheckpointCreate => "workspace_checkpoint_create"@,
        ToolKind::WorkspaceCheckpointList => "workspace_checkpoint_list"@,
        ToolKind::WorkspaceCheckpointShow => "workspace_checkpoint_show"@,
        ToolKind::WorkspaceCheckpointRestore => "workspace_checkpoint_restore"@,
        ToolKind::WorkspaceCheckpointDelete => "workspace_checkpoint_delete"@,
        ToolKind::ListProjects => "list_projects"@,
        ToolKind::RegisterProject => "register_project"@,
        ToolKind::CreateProject => "create_project"@,
        ToolKind::ListAgents => "list_agents"@,
        ToolKind::RuntimeStatus => "runtime_status"@,
        ToolKind::ToolManifest => "tool_manifest"@,
        ToolKind::RunShell => "run_shell"@,
        ToolKind::ApplyPatch => "apply_patch"@,
        ToolKind::ApplyPatchChecked => "apply_patch_checked"@,
        ToolKind::DeleteProjectFiles => "delete_project_files"@,
        ToolKind::GitRestorePaths => "git_restore_paths"@,
        ToolKind::DiscardUntracked => "discard_untracked"@,
        ToolKind::ValidatePatch => "validate_patch"@,
        ToolKind::GitStatus => "git_status"@,
        ToolKind::GitDiff => "git_diff"@,
        ToolKind::GitDiffHunks => "git_diff_hunks"@,
        ToolKind::GitLog => "git_log"@,
        ToolKind::CargoFmt => "cargo_fmt"@,
        ToolKind::CargoCheck => "cargo_check"@,
        ToolKind::CargoTest => "cargo_test"@,
        ToolKind::ReadFile => "read_file"@,
        ToolKind::RunJob => "run_job"@,
        ToolKind::RunCodex => "run_codex"@,
        ToolKind::JobStatus => "job_status"@,
        ToolKind::JobLog => "job_log"@,
        ToolKind::ListProjectFiles => "list_project_files"@,
        ToolKind::SearchProjectText => "search_project_text"@,
        ToolKind::GitDiffSummary => "git_diff_summary"@,
        ToolKind::ShowChanges => "show_changes"@,
        ToolKind::WorkspaceHygieneCheck => "workspace_hygiene_check"@,
        ToolKind::ListJobs => "list_jobs"@,
        ToolKind::JobTail => "job_tail"@,
        ToolKind::ReplaceInFile => "replace_in_file"@,
        ToolKind::ReplaceExactBlock => "replace_exact_block"@,
        ToolKind::InsertBeforePattern => "insert_before_pattern"@,
        ToolKind::InsertAfterPattern => "insert_after_pattern"@,
        ToolKind::WriteProjectFile => "write_project_file"@,
        ToolKind::SaveProjectArtifact => "save_project_artifact"@,
        ToolKind::ReadProjectArtifactMetadata => "read_project_artifact_metadata"@,
        ToolKind::ReadProjectArtifact => "read_project_artifact"@,
        ToolKind::ReplaceLineRange => "replace_line_range"@,
        ToolKind::InsertAtLine => "insert_at_line"@,
        ToolKind::DeleteLineRange => "delete_line_range"@,
        ToolKind::ApplyTextEdits => "apply_text_edits"@,
    }
}

impl ToolKind {
    /// The name of the tool.
    pub fn tool_name(self) -> (r: &'static str)
        ensures
            r@ == name_of(self),
    {
        match self {
            ToolKind::ListTools => "list_tools",
            ToolKind::StartSession => "start_session",
            ToolKind::SessionSummary => "session_summary",
            ToolKind::PostSessionMessage => "post_session_message",
            ToolKind::ListSessionMessages => "list_session_messages",
            ToolKind::ResolveSessionMessage => "resolve_session_message",
            ToolKind::SessionDiscussionSummary => "session_discussion_summary",
            ToolKind::SessionHandoffSummary => "session_handoff_summary",
            ToolKind::BindCurrentSession => "bind_current_session",
            ToolKind::CurrentSession => "current_session",
            ToolKind::UnbindCurrentSession => "unbind_current_session",
            ToolKind::WorkspaceCheckpointCreate => "workspace_checkpoint_create",
            ToolKind::WorkspaceCheckpointList => "workspace_checkpoint_list",
            ToolKind::WorkspaceCheckpointShow => "workspace_checkpoint_show",
            ToolKind::WorkspaceCheckpointRestore => "workspace_checkpoint_restore",
            ToolKind::WorkspaceCheckpointDelete => "workspace_checkpoint_delete",
            ToolKind::ListProjects => "list_projects",
            ToolKind::RegisterProject => "register_project",
            ToolKind::CreateProject => "create_project",
            ToolKind::ListAgents => "list_agents",
            ToolKind::RuntimeStatus => "runtime_status",
            ToolKind::ToolManifest => "tool_manifest",
            ToolKind::RunShell => "run_shell",
            ToolKind::ApplyPatch => "apply_patch",
            ToolKind::ApplyPatchChecked => "apply_patch_checked",
            ToolKind::DeleteProjectFiles => "delete_project_files",
            ToolKind::GitRestorePaths => "git_restore_paths",
            ToolKind::DiscardUntracked => "discard_untracked",
            ToolKind::ValidatePatch => "validate_patch",
            ToolKind::GitStatus => "git_status",
            ToolKind::GitDiff => "git_diff",
            ToolKind::GitDiffHunks => "git_diff_hunks",
            ToolKind::GitLog => "git_log",
            ToolKind::CargoFmt => "cargo_fmt",
            ToolKind::CargoCheck => "cargo_check",
            ToolKind::CargoTest => "cargo_test",
            ToolKind::ReadFile => "read_file",
            ToolKind::RunJob => "run_job",
            ToolKind::RunCodex => "run_codex",
            ToolKind::JobStatus => "job_status",
            ToolKind::JobLog => "job_log",
            ToolKind::ListProjectFiles => "list_project_files",
            ToolKind::SearchProjectText => "search_project_text",
            ToolKind::GitDiffSummary => "git_diff_summary",
            ToolKind::ShowChanges => "show_changes",
            ToolKind::WorkspaceHygieneCheck => "workspace_hygiene_check",
            ToolKind::ListJobs => "list_jobs",
            ToolKind::JobTail => "job_tail",
            ToolKind::ReplaceInFile => "replace_in_file",
            ToolKind::ReplaceExactBlock => "replace_exact_block",
            ToolKind::InsertBeforePattern => "insert_before_pattern",
            ToolKind::InsertAfterPattern => "insert_after_pattern",
            ToolKind::WriteProjectFile => "write_project_file",
            ToolKind::SaveProjectArtifact => "save_project_artifact",
            ToolKind::ReadProjectArtifactMetadata => "read_project_artifact_metadata",
            ToolKind::ReadProjectArtifact => "read_project_artifact",
            ToolKind::ReplaceLineRange => "replace_line_range",
            ToolKind::InsertAtLine => "insert_at_line",
            ToolKind::DeleteLineRange => "delete_line_range",
            ToolKind::ApplyTextEdits => "apply_text_edits",
        }
    }

    /// The tool of a name, where there is one.
    pub fn from_tool_name(name: &str) -> (r: Option<ToolKind>)
        ensures
            match r {
                Some(kind) => name_of(kind) == name@,
                None => forall|kind: ToolKind| #[trigger] name_of(kind) != name@,
            },
    {
        if str_eq(name, "list_tools") {
            return Some(ToolKind::ListTools);
        }
        if str_eq(name, "start_session") {
            return Some(ToolKind::StartSession);
        }
        if str_eq(name, "session_summary") {
            return Some(ToolKind::SessionSummary);
        }
        if str_eq(name, "post_session_message") {
            return Some(ToolKind::PostSessionMessage);
        }
        if str_eq(name, "list_session_messages") {
            return Some(ToolKind::ListSessionMessages);
        }
        if str_eq(name, "resolve_session_message") {
            return Some(ToolKind::ResolveSessionMessage);
        }
        if str_eq(name, "session_discussion_summary") {
            return Some(ToolKind::SessionDiscussionSummary);
        }
        if str_eq(name, "session_handoff_summary") {
            return Some(ToolKind::SessionHandoffSummary);
        }
        if str_eq(name, "bind_current_session") {
            return Some(ToolKind::BindCurrentSession);
        }
        if str_eq(name, "current_session") {
            return Some(ToolKind::CurrentSession);
        }
        if str_eq(name, "unbind_current_session") {
            return Some(ToolKind::UnbindCurrentSession);
        }
        if str_eq(name, "workspace_checkpoint_create") {
            return Some(ToolKind::WorkspaceCheckpointCreate);
        }
        if str_eq(name, "workspace_checkpoint_list") {
            return Some(ToolKind::WorkspaceCheckpointList);
        }
        if str_eq(name, "workspace_checkpoint_show") {
            return Some(ToolKind::WorkspaceCheckpointShow);
        }
        if str_eq(name, "workspace_checkpoint_restore") {
            return Some(ToolKind::WorkspaceCheckpointRestore);
        }
        if str_eq(name, "workspace_checkpoint_delete") {
            return Some(ToolKind::WorkspaceCheckpointDelete);
        }
        if str_eq(name, "list_projects") {
            return Some(ToolKind::ListProjects);
        }
        if str_eq(name, "register_project") {
            return Some(ToolKind::RegisterProject);
        }
        if str_eq(name, "create_project") {
            return Some(ToolKind::CreateProject);
        }
        if str_eq(name, "list_agents") {
            return Some(ToolKind::ListAgents);
        }
        if str_eq(name, "runtime_status") {
            return Some(ToolKind::RuntimeStatus);
        }
        if str_eq(name, "tool_manifest") {
            return Some(ToolKind::ToolManifest);
        }
        if str_eq(name, "run_shell") {
            return Some(ToolKind::RunShell);
        }
        if str_eq(name, "apply_patch") {
            return Some(ToolKind::ApplyPatch);
        }
        if str_eq(name, "apply_patch_checked") {
            return Some(ToolKind::ApplyPatchChecked);
        }
        if str_eq(name, "delete_project_files") {
            return Some(ToolKind::DeleteProjectFiles);
        }
        if str_eq(name, "git_restore_paths") {
            return Some(ToolKind::GitRestorePaths);
        }
        if str_eq(name, "discard_untracked") {
            return Some(ToolKind::DiscardUntracked);
        }
        if str_eq(name, "validate_patch") {
            return Some(ToolKind::ValidatePatch);
        }
        if str_eq(name, "git_status") {
            return Some(ToolKind::GitStatus);
        }
        if str_eq(name, "git_diff") {
            return Some(ToolKind::GitDiff);
        }
        if str_eq(name, "git_diff_hunks") {
            return Some(ToolKind::GitDiffHunks);
        }
        if str_eq(name, "git_log") {
            return Some(ToolKind::GitLog);
        }
        if str_eq(name, "cargo_fmt") {
            return Some(ToolKind::CargoFmt);
        }
        if str_eq(name, "cargo_check") {
            return Some(ToolKind::CargoCheck);
        }
        if str_eq(name, "cargo_test") {
            return Some(ToolKind::CargoTest);
        }
        if str_eq(name, "read_file") {
            return Some(ToolKind::ReadFile);
        }
        if str_eq(name, "run_job") {
            return Some(ToolKind::RunJob);
        }
        if str_eq(name, "run_codex") {
            return Some(ToolKind::RunCodex);
        }
        if str_eq(name, "job_status") {
            return Some(ToolKind::JobStatus);
        }
        if str_eq(name, "job_log") {
            return Some(ToolKind::JobLog);
        }
        if str_eq(name, "list_project_files") {
            return Some(ToolKind::ListProjectFiles);
        }
        if str_eq(name, "search_project_text") {
            return Some(ToolKind::SearchProjectText);
        }
        if str_eq(name, "git_diff_summary") {
            return Some(ToolKind::GitDiffSummary);
        }
        if str_eq(name, "show_changes") {
            return Some(ToolKind::ShowChanges);
        }
        if str_eq(name, "workspace_hygiene_check") {
            return Some(ToolKind::WorkspaceHygieneCheck);
        }
        if str_eq(name, "list_jobs") {
            return Some(ToolKind::ListJobs);
        }
        if str_eq(name, "job_tail") {
            return Some(ToolKind::JobTail);
        }
        if str_eq(name, "replace_in_file") {
            return Some(ToolKind::ReplaceInFile);
        }
        if str_eq(name, "replace_exact_block") {
            return Some(ToolKind::ReplaceExactBlock);
        }
        if str_eq(name, "insert_before_pattern") {
            return Some(ToolKind::InsertBeforePattern);
        }
        if str_eq(name, "insert_after_pattern") {
            return Some(ToolKind::InsertAfterPattern);
        }
        if str_eq(name, "write_project_file") {
            return Some(ToolKind::WriteProjectFile);
        }
        if str_eq(name, "save_project_artifact") {
            return Some(ToolKind::SaveProjectArtifact);
        }
        if str_eq(name, "read_project_artifact_metadata") {
            return Some(ToolKind::ReadProjectArtifactMetadata);
        }
        if str_eq(name, "read_project_artifact") {
            return Some(ToolKind::ReadProjectArtifact);
        }
        if str_eq(name, "replace_line_range") {
            return Some(ToolKind::ReplaceLineRange);
        }
        if str_eq(name, "insert_at_line") {
            return Some(ToolKind::InsertAtLine);
        }
        if str_eq(name, "delete_line_range") {
            return Some(ToolKind::DeleteLineRange);
        }
        if str_eq(name, "apply_text_edits") {
            return Some(ToolKind::ApplyTextEdits);
        }
        None
    }
}

/// What an agent has to be able to do for a tool. Tools that need no agent need
/// nothing.
pub open spec fn capability_for(kind: ToolKind) -> Option<AgentCapability> {
    match kind {
        ToolKind::RunShell
        | ToolKind::ApplyPatch
        | ToolKind::ApplyPatchChecked
        | ToolKind::DeleteProjectFiles
        | ToolKind::GitRestorePaths
        | ToolKind::DiscardUntracked
        | ToolKind::ValidatePatch
        | ToolKind::ReplaceInFile
        | ToolKind::WriteProjectFile
        | ToolKind::SaveProjectArtifact
        | ToolKind::ReadProjectArtifactMetadata
        | ToolKind::ReadProjectArtifact
        | ToolKind::SearchProjectText
        | ToolKind::WorkspaceCheckpointCreate
        | ToolKind::WorkspaceCheckpointRestore
        | ToolKind::CargoFmt
        | ToolKind::CargoCheck
        | ToolKind::CargoTest => Some(AgentCapability::Shell),
        ToolKind::ReplaceLineRange
        | ToolKind::InsertAtLine
        | ToolKind::DeleteLineRange
        | ToolKind::ApplyTextEdits
        | ToolKind::ReplaceExactBlock
        | ToolKind::InsertBeforePattern
        | ToolKind::InsertAfterPattern => Some(AgentCapability::FileWrite),
        ToolKind::ReadFile
        | ToolKind::ListProjectFiles => Some(AgentCapability::FileRead),
        ToolKind::GitStatus
        | ToolKind::GitDiff
        | ToolKind::GitDiffHunks
        | ToolKind::GitLog
        | ToolKind::GitDiffSummary
        | ToolKind::ShowChanges
        | ToolKind::WorkspaceHygieneCheck => Some(AgentCapability::GitOrShell),
        ToolKind::WorkspaceCheckpointList
        | ToolKind::WorkspaceCheckpointShow
        | ToolKind::WorkspaceCheckpointDelete => Some(AgentCapability::OwnerOnly),
        ToolKind::RunJob
        | ToolKind::RunCodex => Some(AgentCapability::AsyncJobs),
        ToolKind::ListTools
        | ToolKind::StartSession
        | ToolKind::SessionSummary
        | ToolKind::PostSessionMessage
        | ToolKind::ListSessionMessages
        | ToolKind::ResolveSessionMessage
        | ToolKind::SessionDiscussionSummary
        | ToolKind::SessionHandoffSummary
        | ToolKind::BindCurrentSession
        | ToolKind::CurrentSession
        | ToolKind::UnbindCurrentSession
        | ToolKind::ListProjects
        | ToolKind::RegisterProject
        | ToolKind::CreateProject
        | ToolKind::ListAgents
        | ToolKind::RuntimeStatus
        | ToolKind::ToolManifest
        | ToolKind::JobStatus
        | ToolKind::JobLog
        | ToolKind::ListJobs
        | ToolKind::JobTail => None,
    }
}

/// What an agent has to be able to do for a call.
pub fn required_agent_capability(call: &ToolCall) -> (r: Option<AgentCapability>)
    ensures
        r == capability_for(call.kind),
{
    match call.kind {
        ToolKind::RunShell
        | ToolKind::ApplyPatch
        | ToolKind::ApplyPatchChecked
        | ToolKind::DeleteProjectFiles
        | ToolKind::GitRestorePaths
        | ToolKind::DiscardUntracked
        | ToolKind::ValidatePatch
        | ToolKind::ReplaceInFile
        | ToolKind::WriteProjectFile
        | ToolKind::SaveProjectArtifact
        | ToolKind::ReadProjectArtifactMetadata
        | ToolKind::ReadProjectArtifact
        | ToolKind::SearchProjectText
        | ToolKind::WorkspaceCheckpointCreate
        | ToolKind::WorkspaceCheckpointRestore
        | ToolKind::CargoFmt
        | ToolKind::CargoCheck
        | ToolKind::CargoTest => Some(AgentCapability::Shell),
        ToolKind::ReplaceLineRange
        | ToolKind::InsertAtLine
        | ToolKind::DeleteLineRange
        | ToolKind::ApplyTextEdits
        | ToolKind::ReplaceExactBlock
        | ToolKind::InsertBeforePattern
        | ToolKind::InsertAfterPattern => Some(AgentCapability::FileWrite),
        ToolKind::ReadFile
        | ToolKind::ListProjectFiles => Some(AgentCapability::FileRead),
        ToolKind::GitStatus
        | ToolKind::GitDiff
        | ToolKind::GitDiffHunks
        | ToolKind::GitLog
        | ToolKind::GitDiffSummary
        | ToolKind::ShowChanges
        | ToolKind::WorkspaceHygieneCheck => Some(AgentCapability::GitOrShell),
        ToolKind::WorkspaceCheckpointList
        | ToolKind::WorkspaceCheckpointShow
        | ToolKind::WorkspaceCheckpointDelete => Some(AgentCapability::OwnerOnly),
        ToolKind::RunJob
        | ToolKind::RunCodex => Some(AgentCapability::AsyncJobs),
        ToolKind::ListTools
        | ToolKind::StartSession
        | ToolKind::SessionSummary
        | ToolKind::PostSessionMessage
        | ToolKind::ListSessionMessages
        | ToolKind::ResolveSessionMessage
        | ToolKind::SessionDiscussionSummary
        | ToolKind::SessionHandoffSummary
        | ToolKind::BindCurrentSession
        | ToolKind::CurrentSession
        | ToolKind::UnbindCurrentSession
        | ToolKind::ListProjects
        | ToolKind::RegisterProject
        | ToolKind::CreateProject
        | ToolKind::ListAgents
        | ToolKind::RuntimeStatus
        | ToolKind::ToolManifest
        | ToolKind::JobStatus
        | ToolKind::JobLog
        | ToolKind::ListJobs
        | ToolKind::JobTail => None,
    }
}

/// Whether the project of a call is told to whoever made the call.
pub open spec fn tells_project(kind: ToolKind) -> bool {
    match kind {
        ToolKind::RunShell
        | ToolKind::ApplyPatch
        | ToolKind::ApplyPatchChecked
        | ToolKind::DeleteProjectFiles
        | ToolKind::GitRestorePaths
        | ToolKind::DiscardUntracked
        | ToolKind::ValidatePatch
        | ToolKind::ReplaceInFile
        | ToolKind::ReplaceExactBlock
        | ToolKind::InsertBeforePattern
        | ToolKind::InsertAfterPattern
        | ToolKind::WriteProjectFile
        | ToolKind::SaveProjectArtifact
        | ToolKind::ReadProjectArtifactMetadata
        | ToolKind::ReadProjectArtifact
        | ToolKind::ReplaceLineRange
        | ToolKind::InsertAtLine
        | ToolKind::DeleteLineRange
        | ToolKind::GitStatus
        | ToolKind::GitDiff
        | ToolKind::GitDiffHunks
        | ToolKind::CargoFmt
        | ToolKind::CargoCheck
        | ToolKind::CargoTest
        | ToolKind::GitDiffSummary
        | ToolKind::ShowChanges
        | ToolKind::ReadFile
        | ToolKind::ListProjectFiles
        | ToolKind::SearchProjectText
        | ToolKind::RunJob
        | ToolKind::RunCodex => true,
        _ => false,
    }
}

/// The project of a call, where the tool tells it.
pub fn tool_project(call: &ToolCall) -> (r: Option<String>)
    ensures
        opt_text(r) == (if tells_project(call.kind) {
            opt_text(call.project)
        } else {
            None
        }),
{
    let tells = match call.kind {
        ToolKind::RunShell
        | ToolKind::ApplyPatch
        | ToolKind::ApplyPatchChecked
        | ToolKind::DeleteProjectFiles
        | ToolKind::GitRestorePaths
        | ToolKind::DiscardUntracked
        | ToolKind::ValidatePatch
        | ToolKind::ReplaceInFile
        | ToolKind::ReplaceExactBlock
        | ToolKind::InsertBeforePattern
        | ToolKind::InsertAfterPattern
        | ToolKind::WriteProjectFile
        | ToolKind::SaveProjectArtifact
        | ToolKind::ReadProjectArtifactMetadata
        | ToolKind::ReadProjectArtifact
        | ToolKind::ReplaceLineRange
        | ToolKind::InsertAtLine
        | ToolKind::DeleteLineRange
        | ToolKind::GitStatus
        | ToolKind::GitDiff
        | ToolKind::GitDiffHunks
        | ToolKind::CargoFmt
        | ToolKind::CargoCheck
        | ToolKind::CargoTest
        | ToolKind::GitDiffSummary
        | ToolKind::ShowChanges
        | ToolKind::ReadFile
        | ToolKind::ListProjectFiles
        | ToolKind::SearchProjectText
        | ToolKind::RunJob
        | ToolKind::RunCodex => true,
        _ => false,
    };
    if tells {
        opt_clone(&call.project)
    } else {
        None
    }
}

/// Every tool that needs a capability beyond ownership and jobs of its own tells its
/// project, but for reading the log, the checkpoints and the hygiene of a project
/// and editing its text.
pub proof fn law_agent_tools_tell_their_project(kind: ToolKind)
    requires
        capability_for(kind) is Some,
        !tells_project(kind),
    ensures
        kind == ToolKind::GitLog || kind == ToolKind::WorkspaceHygieneCheck || kind
            == ToolKind::ApplyTextEdits || kind == ToolKind::WorkspaceCheckpointCreate || kind
            == ToolKind::WorkspaceCheckpointRestore || kind == ToolKind::WorkspaceCheckpointList
            || kind == ToolKind::WorkspaceCheckpointShow || kind
            == ToolKind::WorkspaceCheckpointDelete,
{
}

/// Whether the tool manages the current session.
pub open spec fn is_session_control(kind: ToolKind) -> bool {
    kind == ToolKind::BindCurrentSession || kind == ToolKind::CurrentSession || kind
        == ToolKind::UnbindCurrentSession
}

/// Whether the tool of a call manages the current session.
pub fn is_current_session_control_tool(call: &ToolCall) -> (r: bool)
    ensures
        r == is_session_control(call.kind),
{
    match call.kind {
        ToolKind::BindCurrentSession
        | ToolKind::CurrentSession
        | ToolKind::UnbindCurrentSession => true,
        _ => false,
    }
}

/// Whether a call without a session is recorded in the current one: it is about a
/// project, and it neither manages the current session nor asks for a handoff.
pub open spec fn takes_current_session(call: ToolCall) -> bool {
    call.kind != ToolKind::SessionHandoffSummary && call.project is Some && !is_session_control(
        call.kind,
    )
}

/// Whether a call without a session is recorded in the current one.
pub fn is_current_session_eligible(call: &ToolCall) -> (r: bool)
    ensures
        r == takes_current_session(*call),
{
    match call.kind {
        ToolKind::SessionHandoffSummary => false,
        _ => call.project.is_some() && !is_current_session_control_tool(call),
    }
}

// ---------------------------------------------------------------------------
// Laws
// ---------------------------------------------------------------------------

/// What tells a name from the others: its length, its first character and the third
/// from its end.
spec fn mark_of(kind: ToolKind) -> (int, char, char) {
    match kind {
        ToolKind::ListTools => (10, 'l', 'o'),
        ToolKind::StartSession => (13, 's', 'i'),
        ToolKind::SessionSummary => (15, 's', 'a'),
        ToolKind::PostSessionMessage => (20, 'p', 'a'),
        ToolKind::ListSessionMessages => (21, 'l', 'g'),
        ToolKind::ResolveSessionMessage => (23, 'r', 'a'),
        ToolKind::SessionDiscussionSummary => (26, 's', 'a'),
        ToolKind::SessionHandoffSummary => (23, 's', 'a'),
        ToolKind::BindCurrentSession => (20, 'b', 'i'),
        ToolKind::CurrentSession => (15, 'c', 'i'),
        ToolKind::UnbindCurrentSession => (22, 'u', 'i'),
        ToolKind::WorkspaceCheckpointCreate => (27, 'w', 'a'),
        ToolKind::WorkspaceCheckpointList => (25, 'w', 'i'),
        ToolKind::WorkspaceCheckpointShow => (25, 'w', 'h'),
        ToolKind::WorkspaceCheckpointRestore => (28, 'w', 'o'),
        ToolKind::WorkspaceCheckpointDelete => (27, 'w', 'e'),
        ToolKind::ListProjects => (13, 'l', 'c'),
        ToolKind::RegisterProject => (16, 'r', 'e'),
        ToolKind::CreateProject => (14, 'c', 'e'),
        ToolKind::ListAgents => (11, 'l', 'n'),
        ToolKind::RuntimeStatus => (14, 'r', 't'),
        ToolKind::ToolManifest => (13, 't', 'e'),
        ToolKind::RunShell => (9, 'r', 'e'),
        ToolKind::ApplyPatch => (11, 'a', 't'),
        ToolKind::ApplyPatchChecked => (19, 'a', 'k'),
        ToolKind::DeleteProjectFiles => (20, 'd', 'l'),
        ToolKind::GitRestorePaths => (17, 'g', 't'),
        ToolKind::DiscardUntracked => (17, 'd', 'k'),
        ToolKind::ValidatePatch => (14, 'v', 't'),
        ToolKind::GitStatus => (10, 'g', 't'),
        ToolKind::GitDiff => (8, 'g', 'i'),
        ToolKind::GitDiffHunks => (14, 'g', 'n'),
        ToolKind::GitLog => (7, 'g', 'l'),
        ToolKind::CargoFmt => (9, 'c', 'f'),
        ToolKind::CargoCheck => (11, 'c', 'e'),
        ToolKind::CargoTest => (10, 'c', 'e'),
        ToolKind::ReadFile => (9, 'r', 'i'),
        ToolKind::RunJob => (7, 'r', 'j'),
        ToolKind::RunCodex => (9, 'r', 'd'),
        ToolKind::JobStatus => (10, 'j', 't'),
        ToolKind::JobLog => (7, 'j', 'l'),
        ToolKind::ListProjectFiles => (18, 'l', 'l'),
        ToolKind::SearchProjectText => (19, 's', 'e'),
        ToolKind::GitDiffSummary => (16, 'g', 'a'),
        ToolKind::ShowChanges => (12, 's', 'g'),
        ToolKind::WorkspaceHygieneCheck => (23, 'w', 'e'),
        ToolKind::ListJobs => (9, 'l', 'o'),
        ToolKind::JobTail => (8, 'j', 'a'),
        ToolKind::ReplaceInFile => (15, 'r', 'i'),
        ToolKind::ReplaceExactBlock => (19, 'r', 'o'),
        ToolKind::InsertBeforePattern => (21, 'i', 'e'),
        ToolKind::InsertAfterPattern => (20, 'i', 'e'),
        ToolKind::WriteProjectFile => (18, 'w', 'i'),
        ToolKind::SaveProjectArtifact => (21, 's', 'a'),
        ToolKind::ReadProjectArtifactMetadata => (30, 'r', 'a'),
        ToolKind::ReadProjectArtifact => (21, 'r', 'a'),
        ToolKind::ReplaceLineRange => (18, 'r', 'n'),
        ToolKind::InsertAtLine => (14, 'i', 'i'),
        ToolKind::DeleteLineRange => (17, 'd', 'n'),
        ToolKind::ApplyTextEdits => (16, 'a', 'i'),
    }
}

proof fn lemma_mark(kind: ToolKind)
    ensures
        name_of(kind).len() == mark_of(kind).0,
        name_of(kind).len() >= 3,
        name_of(kind)[0] == mark_of(kind).1,
        name_of(kind)[name_of(kind).len() - 3] == mark_of(kind).2,
{
    match kind {
        ToolKind::ListTools => {
            reveal_strlit("list_tools");
        },
        ToolKind::StartSession => {
            reveal_strlit("start_session");
        },
        ToolKind::SessionSummary => {
            reveal_strlit("session_summary");
        },
        ToolKind::PostSessionMessage => {
            reveal_strlit("post_session_message");
        },
        ToolKind::ListSessionMessages => {
            reveal_strlit("list_session_messages");
        },
        ToolKind::ResolveSessionMessage => {
            reveal_strlit("resolve_session_message");
        },
        ToolKind::SessionDiscussionSummary => {
            reveal_strlit("session_discussion_summary");
        },
        ToolKind::SessionHandoffSummary => {
            reveal_strlit("session_handoff_summary");
        },
        ToolKind::BindCurrentSession => {
            reveal_strlit("bind_current_session");
        },
        ToolKind::CurrentSession => {
            reveal_strlit("current_session");
        },
        ToolKind::UnbindCurrentSession => {
            reveal_strlit("unbind_current_session");
        },
        ToolKind::WorkspaceCheckpointCreate => {
            reveal_strlit("workspace_checkpoint_create");
        },
        ToolKind::WorkspaceCheckpointList => {
            reveal_strlit("workspace_checkpoint_list");
        },
        ToolKind::WorkspaceCheckpointShow => {
            reveal_strlit("workspace_checkpoint_show");
        },
        ToolKind::WorkspaceCheckpointRestore => {
            reveal_strlit("workspace_checkpoint_restore");
        },
        ToolKind::WorkspaceCheckpointDelete => {
            reveal_strlit("workspace_checkpoint_delete");
        },
        ToolKind::ListProjects => {
            reveal_strlit("list_projects");
        },
        ToolKind::RegisterProject => {
            reveal_strlit("register_project");
        },
        ToolKind::CreateProject => {
            reveal_strlit("create_project");
        },
        ToolKind::ListAgents => {
            reveal_strlit("list_agents");
        },
        ToolKind::RuntimeStatus => {
            reveal_strlit("runtime_status");
        },
        ToolKind::ToolManifest => {
            reveal_strlit("tool_manifest");
        },
        ToolKind::RunShell => {
            reveal_strlit("run_shell");
        },
        ToolKind::ApplyPatch => {
            reveal_strlit("apply_patch");
        },
        ToolKind::ApplyPatchChecked => {
            reveal_strlit("apply_patch_checked");
        },
        ToolKind::DeleteProjectFiles => {
            reveal_strlit("delete_project_files");
        },
        ToolKind::GitRestorePaths => {
            reveal_strlit("git_restore_paths");
        },
        ToolKind::DiscardUntracked => {
            reveal_strlit("discard_untracked");
        },
        ToolKind::ValidatePatch => {
            reveal_strlit("validate_patch");
        },
        ToolKind::GitStatus => {
            reveal_strlit("git_status");
        },
        ToolKind::GitDiff => {
            reveal_strlit("git_diff");
        },
        ToolKind::GitDiffHunks => {
            reveal_strlit("git_diff_hunks");
        },
        ToolKind::GitLog => {
            reveal_strlit("git_log");
        },
        ToolKind::CargoFmt => {
            reveal_strlit("cargo_fmt");
        },
        ToolKind::CargoCheck => {
            reveal_strlit("cargo_check");
        },
        ToolKind::CargoTest => {
            reveal_strlit("cargo_test");
        },
        ToolKind::ReadFile => {
            reveal_strlit("read_file");
        },
        ToolKind::RunJob => {
            reveal_strlit("run_job");
        },
        ToolKind::RunCodex => {
            reveal_strlit("run_codex");
        },
        ToolKind::JobStatus => {
            reveal_strlit("job_status");
        },
        ToolKind::JobLog => {
            reveal_strlit("job_log");
        },
        ToolKind::ListProjectFiles => {
            reveal_strlit("list_project_files");
        },
        ToolKind::SearchProjectText => {
            reveal_strlit("search_project_text");
        },
        ToolKind::GitDiffSummary => {
            reveal_strlit("git_diff_summary");
        },
        ToolKind::ShowChanges => {
            reveal_strlit("show_changes");
        },
        ToolKind::WorkspaceHygieneCheck => {
            reveal_strlit("workspace_hygiene_check");
        },
        ToolKind::ListJobs => {
            reveal_strlit("list_jobs");
        },
        ToolKind::JobTail => {
            reveal_strlit("job_tail");
        },
        ToolKind::ReplaceInFile => {
            reveal_strlit("replace_in_file");
        },
        ToolKind::ReplaceExactBlock => {
            reveal_strlit("replace_exact_block");
        },
        ToolKind::InsertBeforePattern => {
            reveal_strlit("insert_before_pattern");
        },
        ToolKind::InsertAfterPattern => {
            reveal_strlit("insert_after_pattern");
        },
        ToolKind::WriteProjectFile => {
            reveal_strlit("write_project_file");
        },
        ToolKind::SaveProjectArtifact => {
            reveal_strlit("save_project_artifact");
        },
        ToolKind::ReadProjectArtifactMetadata => {
            reveal_strlit("read_project_artifact_metadata");
        },
        ToolKind::ReadProjectArtifact => {
            reveal_strlit("read_project_artifact");
        },
        ToolKind::ReplaceLineRange => {
            reveal_strlit("replace_line_range");
        },
        ToolKind::InsertAtLine => {
            reveal_strlit("insert_at_line");
        },
        ToolKind::DeleteLineRange => {
            reveal_strlit("delete_line_range");
        },
        ToolKind::ApplyTextEdits => {
            reveal_strlit("apply_text_edits");
        },
    }
}

/// Different tools have different names.
pub proof fn law_names_differ(a: ToolKind, b: ToolKind)
    requires
        a != b,
    ensures
        name_of(a) != name_of(b),
{
    lemma_mark(a);
    lemma_mark(b);
}

} // verus!
