//! The messages of the shell-client protocol: what agents send, what callers
//! ask for and what both get back.
use crate::text::{copy_texts, opt_clone, opt_text, opt_view, texts, views};
use vstd::prelude::*;

verus! {

/// What an agent says that it can do.
#[derive(Debug, Clone, Copy, PartialEq, Eq, Structural)]
pub struct ShellClientCapabilities {
    pub shell: bool,
    pub file_read: bool,
    pub file_write: bool,
    pub git: bool,
    pub jobs: bool,
    pub async_jobs: bool,
    pub async_shell_jobs: bool,
}

impl Default for ShellClientCapabilities {
    fn default() -> (r: Self)
        ensures
            r == default_capabilities(),
    {
        ShellClientCapabilities {
            shell: true,
            file_read: false,
            file_write: false,
            git: false,
            jobs: false,
            async_jobs: false,
            async_shell_jobs: false,
        }
    }
}

/// The capabilities of an agent that reported none: it runs commands, and nothing else.
pub open spec fn default_capabilities() -> ShellClientCapabilities {
    ShellClientCapabilities {
        shell: true,
        file_read: false,
        file_write: false,
        git: false,
        jobs: false,
        async_jobs: false,
        async_shell_jobs: false,
    }
}

/// One shell profile of an agent, without its script and its environment.
#[derive(Debug)]
pub struct ShellProfileSummary {
    pub name: String,
    pub has_init_script: bool,
    pub env_keys_count: u64,
    pub program: Option<String>,
    pub args_count: u64,
}

/// The mathematical value of a [`ShellProfileSummary`].
#[verifier::ext_equal]
pub struct ProfileModel {
    pub name: Seq<char>,
    pub has_init_script: bool,
    pub env_keys_count: u64,
    pub program: Option<Seq<char>>,
    pub args_count: u64,
}

impl View for ShellProfileSummary {
    type V = ProfileModel;

    open spec fn view(&self) -> ProfileModel {
        ProfileModel {
            name: self.name@,
            has_init_script: self.has_init_script,
            env_keys_count: self.env_keys_count,
            program: opt_text(self.program),
            args_count: self.args_count,
        }
    }
}

impl ShellProfileSummary {
    /// A copy with the same value.
    pub fn copy(&self) -> (r: Self)
        ensures
            r@ == self@,
    {
        ShellProfileSummary {
            name: self.name.clone(),
            has_init_script: self.has_init_script,
            env_keys_count: self.env_keys_count,
            program: opt_clone(&self.program),
            args_count: self.args_count,
        }
    }

    /// A copy of a list with the same values.
    pub fn copy_all(v: &Vec<Self>) -> (r: Vec<Self>)
        ensures
            views(r@) == views(v@),
    {
        let mut out: Vec<Self> = Vec::new();
        let mut i: usize = 0;
        while i < v.len()
            invariant
                i <= v@.len(),
                out@.len() == i,
                forall|j: int| 0 <= j < i ==> (#[trigger] out@[j])@ == v@[j]@,
            decreases v@.len() - i,
        {
            out.push(v[i].copy());
            i = i + 1;
        }
        assert(views(out@) =~= views(v@));
        out
    }
}

/// The shell profiles that an agent has configured.
#[derive(Debug)]
pub struct ShellProfilesSummary {
    pub default_profile: Option<String>,
    pub configured_count: u64,
    pub prepared_cache_count: u64,
    pub profiles: Vec<ShellProfileSummary>,
}

/// The mathematical value of a [`ShellProfilesSummary`].
#[verifier::ext_equal]
pub struct ProfilesModel {
    pub default_profile: Option<Seq<char>>,
    pub configured_count: u64,
    pub prepared_cache_count: u64,
    pub profiles: Seq<ProfileModel>,
}

impl View for ShellProfilesSummary {
    type V = ProfilesModel;

    open spec fn view(&self) -> ProfilesModel {
        ProfilesModel {
            default_profile: opt_text(self.default_profile),
            configured_count: self.configured_count,
            prepared_cache_count: self.prepared_cache_count,
            profiles: views(self.profiles@),
        }
    }
}

impl ShellProfilesSummary {
    /// A copy with the same value.
    pub fn copy(&self) -> (r: Self)
        ensures
            r@ == self@,
    {
        ShellProfilesSummary {
            default_profile: opt_clone(&self.default_profile),
            configured_count: self.configured_count,
            prepared_cache_count: self.prepared_cache_count,
            profiles: ShellProfileSummary::copy_all(&self.profiles),
        }
    }
}

/// The policy that an agent reported when it registered.
#[derive(Debug)]
pub struct AgentPolicySummary {
    pub allow_raw_shell: bool,
    pub allow_cwd_anywhere: bool,
    pub allowed_roots: Vec<String>,
    pub max_timeout_secs: u64,
    pub max_output_bytes: u64,
    pub shell_profiles: Option<ShellProfilesSummary>,
}

/// The mathematical value of a [`AgentPolicySummary`].
#[verifier::ext_equal]
pub struct PolicyModel {
    pub allow_raw_shell: bool,
    pub allow_cwd_anywhere: bool,
    pub allowed_roots: Seq<Seq<char>>,
    pub max_timeout_secs: u64,
    pub max_output_bytes: u64,
    pub shell_profiles: Option<ProfilesModel>,
}

impl View for AgentPolicySummary {
    type V = PolicyModel;

    open spec fn view(&self) -> PolicyModel {
        PolicyModel {
            allow_raw_shell: self.allow_raw_shell,
            allow_cwd_anywhere: self.allow_cwd_anywhere,
            allowed_roots: texts(self.allowed_roots@),
            max_timeout_secs: self.max_timeout_secs,
            max_output_bytes: self.max_output_bytes,
            shell_profiles: opt_view(self.shell_profiles),
        }
    }
}

impl AgentPolicySummary {
    /// A copy with the same value.
    pub fn copy(&self) -> (r: Self)
        ensures
            r@ == self@,
    {
        AgentPolicySummary {
            allow_raw_shell: self.allow_raw_shell,
            allow_cwd_anywhere: self.allow_cwd_anywhere,
            allowed_roots: copy_texts(&self.allowed_roots),
            max_timeout_secs: self.max_timeout_secs,
            max_output_bytes: self.max_output_bytes,
            shell_profiles: match &self.shell_profiles {
                Some(v) => Some(v.copy()),
                None => None,
            },
        }
    }
}

/// A project that an agent offers.
#[derive(Debug)]
pub struct ShellAgentProjectSummary {
    pub id: String,
    pub name: Option<String>,
    pub path: String,
    pub allow_patch: bool,
    pub kind: Option<String>,
    pub description: Option<String>,
    pub hooks: Vec<String>,
    pub disabled: bool,
    pub git_branch: Option<String>,
    pub git_head: Option<String>,
    pub git_dirty: Option<bool>,
    pub updated_at: i64,
    pub shell_profile: Option<String>,
}

/// The mathematical value of a [`ShellAgentProjectSummary`].
#[verifier::ext_equal]
pub struct ProjectModel {
    pub id: Seq<char>,
    pub name: Option<Seq<char>>,
    pub path: Seq<char>,
    pub allow_patch: bool,
    pub kind: Option<Seq<char>>,
    pub description: Option<Seq<char>>,
    pub hooks: Seq<Seq<char>>,
    pub disabled: bool,
    pub git_branch: Option<Seq<char>>,
    pub git_head: Option<Seq<char>>,
    pub git_dirty: Option<bool>,
    pub updated_at: i64,
    pub shell_profile: Option<Seq<char>>,
}

impl View for ShellAgentProjectSummary {
    type V = ProjectModel;

    open spec fn view(&self) -> ProjectModel {
        ProjectModel {
            id: self.id@,
            name: opt_text(self.name),
            path: self.path@,
            allow_patch: self.allow_patch,
            kind: opt_text(self.kind),
            description: opt_text(self.description),
            hooks: texts(self.hooks@),
            disabled: self.disabled,
            git_branch: opt_text(self.git_branch),
            git_head: opt_text(self.git_head),
            git_dirty: self.git_dirty,
            updated_at: self.updated_at,
            shell_profile: opt_text(self.shell_profile),
        }
    }
}

impl ShellAgentProjectSummary {
    /// A copy with the same value.
    pub fn copy(&self) -> (r: Self)
        ensures
            r@ == self@,
    {
        ShellAgentProjectSummary {
            id: self.id.clone(),
            name: opt_clone(&self.name),
            path: self.path.clone(),
            allow_patch: self.allow_patch,
            kind: opt_clone(&self.kind),
            description: opt_clone(&self.description),
            hooks: copy_texts(&self.hooks),
            disabled: self.disabled,
            git_branch: opt_clone(&self.git_branch),
            git_head: opt_clone(&self.git_head),
            git_dirty: self.git_dirty,
            updated_at: self.updated_at,
            shell_profile: opt_clone(&self.shell_profile),
        }
    }

    /// A copy of a list with the same values.
    pub fn copy_all(v: &Vec<Self>) -> (r: Vec<Self>)
        ensures
            views(r@) == views(v@),
    {
        let mut out: Vec<Self> = Vec::new();
        let mut i: usize = 0;
        while i < v.len()
            invariant
                i <= v@.len(),
                out@.len() == i,
                forall|j: int| 0 <= j < i ==> (#[trigger] out@[j])@ == v@[j]@,
            decreases v@.len() - i,
        {
            out.push(v[i].copy());
            i = i + 1;
        }
        assert(views(out@) =~= views(v@));
        out
    }
}

/// What the caller said that a job is for.
#[derive(Debug)]
pub struct ShellJobCodexMetadata {
    pub project: Option<String>,
    pub goal_id: Option<String>,
    pub client_request_id: Option<String>,
    pub command: Option<String>,
    pub kind: Option<String>,
    pub suite: Option<String>,
    pub script_path: Option<String>,
    pub reason: Option<String>,
    pub max_runtime_secs: Option<u64>,
}

/// The mathematical value of a [`ShellJobCodexMetadata`].
#[verifier::ext_equal]
pub struct CodexModel {
    pub project: Option<Seq<char>>,
    pub goal_id: Option<Seq<char>>,
    pub client_request_id: Option<Seq<char>>,
    pub command: Option<Seq<char>>,
    pub kind: Option<Seq<char>>,
    pub suite: Option<Seq<char>>,
    pub script_path: Option<Seq<char>>,
    pub reason: Option<Seq<char>>,
    pub max_runtime_secs: Option<u64>,
}

impl View for ShellJobCodexMetadata {
    type V = CodexModel;

    open spec fn view(&self) -> CodexModel {
        CodexModel {
            project: opt_text(self.project),
            goal_id: opt_text(self.goal_id),
            client_request_id: opt_text(self.client_request_id),
            command: opt_text(self.command),
            kind: opt_text(self.kind),
            suite: opt_text(self.suite),
            script_path: opt_text(self.script_path),
            reason: opt_text(self.reason),
            max_runtime_secs: self.max_runtime_secs,
        }
    }
}

impl ShellJobCodexMetadata {
    /// A copy with the same value.
    pub fn copy(&self) -> (r: Self)
        ensures
            r@ == self@,
    {
        ShellJobCodexMetadata {
            project: opt_clone(&self.project),
            goal_id: opt_clone(&self.goal_id),
            client_request_id: opt_clone(&self.client_request_id),
            command: opt_clone(&self.command),
            kind: opt_clone(&self.kind),
            suite: opt_clone(&self.suite),
            script_path: opt_clone(&self.script_path),
            reason: opt_clone(&self.reason),
            max_runtime_secs: self.max_runtime_secs,
        }
    }
}

/// A unit of work handed to an agent.
#[derive(Debug)]
pub struct ShellAgentShellRequest {
    pub request_id: String,
    pub client_id: String,
    pub kind: String,
    pub job_id: Option<String>,
    pub cwd: Option<String>,
    pub path: Option<String>,
    pub content: Option<String>,
    pub max_bytes: Option<usize>,
    pub old_text: Option<String>,
    pub pattern: Option<String>,
    pub expected_sha256: Option<String>,
    pub expected_prefix: Option<String>,
    pub start_line: Option<usize>,
    pub end_line: Option<usize>,
    pub line: Option<usize>,
    pub create_dirs: bool,
    pub command: String,
    pub stdin: Option<String>,
    pub timeout_secs: u64,
    pub requested_by: String,
    pub created_at: i64,
}

/// The mathematical value of a [`ShellAgentShellRequest`].
#[verifier::ext_equal]
pub struct RequestModel {
    pub request_id: Seq<char>,
    pub client_id: Seq<char>,
    pub kind: Seq<char>,
    pub job_id: Option<Seq<char>>,
    pub cwd: Option<Seq<char>>,
    pub path: Option<Seq<char>>,
    pub content: Option<Seq<char>>,
    pub max_bytes: Option<usize>,
    pub old_text: Option<Seq<char>>,
    pub pattern: Option<Seq<char>>,
    pub expected_sha256: Option<Seq<char>>,
    pub expected_prefix: Option<Seq<char>>,
    pub start_line: Option<usize>,
    pub end_line: Option<usize>,
    pub line: Option<usize>,
    pub create_dirs: bool,
    pub command: Seq<char>,
    pub stdin: Option<Seq<char>>,
    pub timeout_secs: u64,
    pub requested_by: Seq<char>,
    pub created_at: i64,
}

impl View for ShellAgentShellRequest {
    type V = RequestModel;

    open spec fn view(&self) -> RequestModel {
        RequestModel {
            request_id: self.request_id@,
            client_id: self.client_id@,
            kind: self.kind@,
            job_id: opt_text(self.job_id),
            cwd: opt_text(self.cwd),
            path: opt_text(self.path),
            content: opt_text(self.content),
            max_bytes: self.max_bytes,
            old_text: opt_text(self.old_text),
            pattern: opt_text(self.pattern),
            expected_sha256: opt_text(self.expected_sha256),
            expected_prefix: opt_text(self.expected_prefix),
            start_line: self.start_line,
            end_line: self.end_line,
            line: self.line,
            create_dirs: self.create_dirs,
            command: self.command@,
            stdin: opt_text(self.stdin),
            timeout_secs: self.timeout_secs,
            requested_by: self.requested_by@,
            created_at: self.created_at,
        }
    }
}

impl ShellAgentShellRequest {
    /// A copy with the same value.
    pub fn copy(&self) -> (r: Self)
        ensures
            r@ == self@,
    {
        ShellAgentShellRequest {
            request_id: self.request_id.clone(),
            client_id: self.client_id.clone(),
            kind: self.kind.clone(),
            job_id: opt_clone(&self.job_id),
            cwd: opt_clone(&self.cwd),
            path: opt_clone(&self.path),
            content: opt_clone(&self.content),
            max_bytes: self.max_bytes,
            old_text: opt_clone(&self.old_text),
            pattern: opt_clone(&self.pattern),
            expected_sha256: opt_clone(&self.expected_sha256),
            expected_prefix: opt_clone(&self.expected_prefix),
            start_line: self.start_line,
            end_line: self.end_line,
            line: self.line,
            create_dirs: self.create_dirs,
            command: self.command.clone(),
            stdin: opt_clone(&self.stdin),
            timeout_secs: self.timeout_secs,
            requested_by: self.requested_by.clone(),
            created_at: self.created_at,
        }
    }
}

/// The answer to a request that ran on an agent.
#[derive(Debug)]
pub struct ShellRunResponse {
    pub success: bool,
    pub request_id: String,
    pub client_id: String,
    pub cwd: Option<String>,
    pub command_preview: String,
    pub exit_code: Option<i32>,
    pub stdout: Option<String>,
    pub stderr: Option<String>,
    pub duration_ms: Option<u64>,
    pub error: Option<String>,
}

/// The mathematical value of a [`ShellRunResponse`].
#[verifier::ext_equal]
pub struct ResponseModel {
    pub success: bool,
    pub request_id: Seq<char>,
    pub client_id: Seq<char>,
    pub cwd: Option<Seq<char>>,
    pub command_preview: Seq<char>,
    pub exit_code: Option<i32>,
    pub stdout: Option<Seq<char>>,
    pub stderr: Option<Seq<char>>,
    pub duration_ms: Option<u64>,
    pub error: Option<Seq<char>>,
}

impl View for ShellRunResponse {
    type V = ResponseModel;

    open spec fn view(&self) -> ResponseModel {
        ResponseModel {
            success: self.success,
            request_id: self.request_id@,
            client_id: self.client_id@,
            cwd: opt_text(self.cwd),
            command_preview: self.command_preview@,
            exit_code: self.exit_code,
            stdout: opt_text(self.stdout),
            stderr: opt_text(self.stderr),
            duration_ms: self.duration_ms,
            error: opt_text(self.error),
        }
    }
}

impl ShellRunResponse {
    /// A copy with the same value.
    pub fn copy(&self) -> (r: Self)
        ensures
            r@ == self@,
    {
        ShellRunResponse {
            success: self.success,
            request_id: self.request_id.clone(),
            client_id: self.client_id.clone(),
            cwd: opt_clone(&self.cwd),
            command_preview: self.command_preview.clone(),
            exit_code: self.exit_code,
            stdout: opt_clone(&self.stdout),
            stderr: opt_clone(&self.stderr),
            duration_ms: self.duration_ms,
            error: opt_clone(&self.error),
        }
    }
}

/// How a shell job ended.
#[derive(Debug)]
pub struct ShellAgentShellJobResult {
    pub cwd: Option<String>,
    pub command_preview: String,
    pub exit_code: Option<i32>,
    pub duration_ms: Option<u64>,
    pub error: Option<String>,
}

/// The mathematical value of a [`ShellAgentShellJobResult`].
#[verifier::ext_equal]
pub struct ShellResultModel {
    pub cwd: Option<Seq<char>>,
    pub command_preview: Seq<char>,
    pub exit_code: Option<i32>,
    pub duration_ms: Option<u64>,
    pub error: Option<Seq<char>>,
}

impl View for ShellAgentShellJobResult {
    type V = ShellResultModel;

    open spec fn view(&self) -> ShellResultModel {
        ShellResultModel {
            cwd: opt_text(self.cwd),
            command_preview: self.command_preview@,
            exit_code: self.exit_code,
            duration_ms: self.duration_ms,
            error: opt_text(self.error),
        }
    }
}

impl ShellAgentShellJobResult {
    /// A copy with the same value.
    pub fn copy(&self) -> (r: Self)
        ensures
            r@ == self@,
    {
        ShellAgentShellJobResult {
            cwd: opt_clone(&self.cwd),
            command_preview: self.command_preview.clone(),
            exit_code: self.exit_code,
            duration_ms: self.duration_ms,
            error: opt_clone(&self.error),
        }
    }
}

/// How a job ended.
#[derive(Debug)]
pub struct ShellAgentJobResult {
    pub shell: Option<ShellAgentShellJobResult>,
}

/// The mathematical value of a [`ShellAgentJobResult`].
#[verifier::ext_equal]
pub struct JobResultModel {
    pub shell: Option<ShellResultModel>,
}

impl View for ShellAgentJobResult {
    type V = JobResultModel;

    open spec fn view(&self) -> JobResultModel {
        JobResultModel {
            shell: opt_view(self.shell),
        }
    }
}

impl ShellAgentJobResult {
    /// A copy with the same value.
    pub fn copy(&self) -> (r: Self)
        ensures
            r@ == self@,
    {
        ShellAgentJobResult {
            shell: match &self.shell {
                Some(v) => Some(v.copy()),
                None => None,
            },
        }
    }
}

/// What callers see of a job.
#[derive(Debug)]
pub struct ShellJobInfo {
    pub job_id: String,
    pub request_id: Option<String>,
    pub client_id: String,
    pub kind: String,
    pub project_id: Option<String>,
    pub cwd: Option<String>,
    pub command_preview: String,
    pub status: String,
    pub created_at: i64,
    pub started_at: Option<i64>,
    pub ended_at: Option<i64>,
    pub exit_code: Option<i32>,
    pub duration_ms: Option<u64>,
    pub elapsed_secs: Option<u64>,
    pub error: Option<String>,
    pub codex: Option<ShellJobCodexMetadata>,
    pub result: Option<ShellAgentJobResult>,
}

/// The mathematical value of a [`ShellJobInfo`].
#[verifier::ext_equal]
pub struct JobInfoModel {
    pub job_id: Seq<char>,
    pub request_id: Option<Seq<char>>,
    pub client_id: Seq<char>,
    pub kind: Seq<char>,
    pub project_id: Option<Seq<char>>,
    pub cwd: Option<Seq<char>>,
    pub command_preview: Seq<char>,
    pub status: Seq<char>,
    pub created_at: i64,
    pub started_at: Option<i64>,
    pub ended_at: Option<i64>,
    pub exit_code: Option<i32>,
    pub duration_ms: Option<u64>,
    pub elapsed_secs: Option<u64>,
    pub error: Option<Seq<char>>,
    pub codex: Option<CodexModel>,
    pub result: Option<JobResultModel>,
}

impl View for ShellJobInfo {
    type V = JobInfoModel;

    open spec fn view(&self) -> JobInfoModel {
        JobInfoModel {
            job_id: self.job_id@,
            request_id: opt_text(self.request_id),
            client_id: self.client_id@,
            kind: self.kind@,
            project_id: opt_text(self.project_id),
            cwd: opt_text(self.cwd),
            command_preview: self.command_preview@,
            status: self.status@,
            created_at: self.created_at,
            started_at: self.started_at,
            ended_at: self.ended_at,
            exit_code: self.exit_code,
            duration_ms: self.duration_ms,
            elapsed_secs: self.elapsed_secs,
            error: opt_text(self.error),
            codex: opt_view(self.codex),
            result: opt_view(self.result),
        }
    }
}

impl ShellJobInfo {
    /// A copy with the same value.
    pub fn copy(&self) -> (r: Self)
        ensures
            r@ == self@,
    {
        ShellJobInfo {
            job_id: self.job_id.clone(),
            request_id: opt_clone(&self.request_id),
            client_id: self.client_id.clone(),
            kind: self.kind.clone(),
            project_id: opt_clone(&self.project_id),
            cwd: opt_clone(&self.cwd),
            command_preview: self.command_preview.clone(),
            status: self.status.clone(),
            created_at: self.created_at,
            started_at: self.started_at,
            ended_at: self.ended_at,
            exit_code: self.exit_code,
            duration_ms: self.duration_ms,
            elapsed_secs: self.elapsed_secs,
            error: opt_clone(&self.error),
            codex: match &self.codex {
                Some(v) => Some(v.copy()),
                None => None,
            },
            result: match &self.result {
                Some(v) => Some(v.copy()),
                None => None,
            },
        }
    }
}

/// What callers see of a registered client.
#[derive(Debug)]
pub struct ShellClientView {
    pub client_id: String,
    pub agent_instance_id: String,
    pub display_name: Option<String>,
    pub owner: Option<String>,
    pub hostname: Option<String>,
    pub status: String,
    pub connected: bool,
    pub last_seen: i64,
    pub capabilities: ShellClientCapabilities,
    pub pending_requests: usize,
    pub projects: Vec<ShellAgentProjectSummary>,
    pub agent_protocol_version: String,
    pub transport: String,
    pub policy: Option<AgentPolicySummary>,
}

/// The mathematical value of a [`ShellClientView`].
#[verifier::ext_equal]
pub struct ClientViewModel {
    pub client_id: Seq<char>,
    pub agent_instance_id: Seq<char>,
    pub display_name: Option<Seq<char>>,
    pub owner: Option<Seq<char>>,
    pub hostname: Option<Seq<char>>,
    pub status: Seq<char>,
    pub connected: bool,
    pub last_seen: i64,
    pub capabilities: ShellClientCapabilities,
    pub pending_requests: usize,
    pub projects: Seq<ProjectModel>,
    pub agent_protocol_version: Seq<char>,
    pub transport: Seq<char>,
    pub policy: Option<PolicyModel>,
}

impl View for ShellClientView {
    type V = ClientViewModel;

    open spec fn view(&self) -> ClientViewModel {
        ClientViewModel {
            client_id: self.client_id@,
            agent_instance_id: self.agent_instance_id@,
            display_name: opt_text(self.display_name),
            owner: opt_text(self.owner),
            hostname: opt_text(self.hostname),
            status: self.status@,
            connected: self.connected,
            last_seen: self.last_seen,
            capabilities: self.capabilities,
            pending_requests: self.pending_requests,
            projects: views(self.projects@),
            agent_protocol_version: self.agent_protocol_version@,
            transport: self.transport@,
            policy: opt_view(self.policy),
        }
    }
}

impl ShellClientView {
    /// A copy with the same value.
    pub fn copy(&self) -> (r: Self)
        ensures
            r@ == self@,
    {
        ShellClientView {
            client_id: self.client_id.clone(),
            agent_instance_id: self.agent_instance_id.clone(),
            display_name: opt_clone(&self.display_name),
            owner: opt_clone(&self.owner),
            hostname: opt_clone(&self.hostname),
            status: self.status.clone(),
            connected: self.connected,
            last_seen: self.last_seen,
            capabilities: self.capabilities,
            pending_requests: self.pending_requests,
            projects: ShellAgentProjectSummary::copy_all(&self.projects),
            agent_protocol_version: self.agent_protocol_version.clone(),
            transport: self.transport.clone(),
            policy: match &self.policy {
                Some(v) => Some(v.copy()),
                None => None,
            },
        }
    }
}

/// An agent announces itself.
#[derive(Debug)]
pub struct ShellClientRegisterRequest {
    pub client_id: String,
    pub agent_instance_id: String,
    pub display_name: Option<String>,
    pub owner: Option<String>,
    pub hostname: Option<String>,
    pub capabilities: Option<ShellClientCapabilities>,
    pub projects: Option<Vec<ShellAgentProjectSummary>>,
    pub agent_protocol_version: Option<String>,
    pub policy: Option<AgentPolicySummary>,
}

/// An agent asks for its next request.
#[derive(Debug)]
pub struct ShellAgentPollRequest {
    pub client_id: String,
    pub agent_instance_id: String,
    pub projects: Option<Vec<ShellAgentProjectSummary>>,
}

/// An agent hands in the result of a request.
#[derive(Debug)]
pub struct ShellAgentResultRequest {
    pub client_id: String,
    pub agent_instance_id: String,
    pub request_id: String,
    pub exit_code: Option<i32>,
    pub stdout: Option<String>,
    pub stderr: Option<String>,
    pub duration_ms: Option<u64>,
    pub error: Option<String>,
}

/// An agent reports on a running job.
#[derive(Debug)]
pub struct ShellAgentJobUpdateRequest {
    pub client_id: String,
    pub agent_instance_id: String,
    pub job_id: String,
    pub request_id: Option<String>,
    pub status: String,
    pub stdout_chunk: Option<String>,
    pub stderr_chunk: Option<String>,
    pub stdout_tail: Option<String>,
    pub stderr_tail: Option<String>,
    pub exit_code: Option<i32>,
    pub duration_ms: Option<u64>,
    pub error: Option<String>,
    pub finished: bool,
}

/// A caller wants a command run.
#[derive(Debug)]
pub struct ShellRunRequest {
    pub client_id: String,
    pub cwd: Option<String>,
    pub command: String,
    pub stdin: Option<String>,
    pub timeout_secs: u64,
    pub wait_timeout_secs: u64,
}

/// A caller wants a file read, listed or changed.
#[derive(Debug)]
pub struct ShellFileOpRequest {
    pub op: String,
    pub client_id: String,
    pub path: String,
    pub cwd: Option<String>,
    pub content: Option<String>,
    pub max_bytes: Option<usize>,
    pub old_text: Option<String>,
    pub pattern: Option<String>,
    pub expected_sha256: Option<String>,
    pub expected_prefix: Option<String>,
    pub start_line: Option<usize>,
    pub end_line: Option<usize>,
    pub line: Option<usize>,
    pub create_dirs: bool,
    pub wait_timeout_secs: u64,
}

/// A caller wants a job started, stopped or looked at.
#[derive(Debug)]
pub struct ShellJobOpRequest {
    pub op: String,
    pub client_id: Option<String>,
    pub cwd: Option<String>,
    pub command: Option<String>,
    pub timeout_secs: Option<u64>,
    pub job_id: Option<String>,
    pub since_stdout_line: Option<usize>,
    pub since_stderr_line: Option<usize>,
    pub tail_lines: Option<usize>,
    pub limit: Option<usize>,
    pub codex: Option<ShellJobCodexMetadata>,
}

/// The answer to a file request.
#[derive(Debug)]
pub struct ShellFileOpResponse {
    pub success: bool,
    pub op: String,
    pub request_id: String,
    pub client_id: String,
    pub path: String,
    pub cwd: Option<String>,
    pub content: Option<String>,
    pub entries: Vec<String>,
    pub bytes: Option<usize>,
    pub sha256: Option<String>,
    pub stderr: Option<String>,
    pub error: Option<String>,
}

/// The mathematical value of a [`ShellFileOpResponse`].
#[verifier::ext_equal]
pub struct FileResponseModel {
    pub success: bool,
    pub op: Seq<char>,
    pub request_id: Seq<char>,
    pub client_id: Seq<char>,
    pub path: Seq<char>,
    pub cwd: Option<Seq<char>>,
    pub content: Option<Seq<char>>,
    pub entries: Seq<Seq<char>>,
    pub bytes: Option<usize>,
    pub sha256: Option<Seq<char>>,
    pub stderr: Option<Seq<char>>,
    pub error: Option<Seq<char>>,
}

impl View for ShellFileOpResponse {
    type V = FileResponseModel;

    open spec fn view(&self) -> FileResponseModel {
        FileResponseModel {
            success: self.success,
            op: self.op@,
            request_id: self.request_id@,
            client_id: self.client_id@,
            path: self.path@,
            cwd: opt_text(self.cwd),
            content: opt_text(self.content),
            entries: texts(self.entries@),
            bytes: self.bytes,
            sha256: opt_text(self.sha256),
            stderr: opt_text(self.stderr),
            error: opt_text(self.error),
        }
    }
}

/// The answer to a job request.
#[derive(Debug)]
pub struct ShellJobOpResponse {
    pub success: bool,
    pub op: String,
    pub job: Option<ShellJobInfo>,
    pub jobs: Vec<ShellJobInfo>,
    pub stdout: Option<String>,
    pub stderr: Option<String>,
    pub next_stdout_line: Option<usize>,
    pub next_stderr_line: Option<usize>,
    pub error: Option<String>,
}

/// The mathematical value of a [`ShellJobOpResponse`].
#[verifier::ext_equal]
pub struct JobResponseModel {
    pub success: bool,
    pub op: Seq<char>,
    pub job: Option<JobInfoModel>,
    pub jobs: Seq<JobInfoModel>,
    pub stdout: Option<Seq<char>>,
    pub stderr: Option<Seq<char>>,
    pub next_stdout_line: Option<usize>,
    pub next_stderr_line: Option<usize>,
    pub error: Option<Seq<char>>,
}

impl View for ShellJobOpResponse {
    type V = JobResponseModel;

    open spec fn view(&self) -> JobResponseModel {
        JobResponseModel {
            success: self.success,
            op: self.op@,
            job: opt_view(self.job),
            jobs: views(self.jobs@),
            stdout: opt_text(self.stdout),
            stderr: opt_text(self.stderr),
            next_stdout_line: self.next_stdout_line,
            next_stderr_line: self.next_stderr_line,
            error: opt_text(self.error),
        }
    }
}

/// The answer to a question for the status of a job.
#[derive(Debug)]
pub struct ShellClientJobStatusResponse {
    pub success: bool,
    pub job_id: Option<String>,
    pub client_id: Option<String>,
    pub kind: Option<String>,
    pub status: Option<String>,
    pub elapsed_secs: Option<u64>,
    pub exit_code: Option<i32>,
    pub result: Option<ShellAgentJobResult>,
    pub job: Option<ShellJobInfo>,
    pub error: Option<String>,
}

/// The mathematical value of a [`ShellClientJobStatusResponse`].
#[verifier::ext_equal]
pub struct JobStatusModel {
    pub success: bool,
    pub job_id: Option<Seq<char>>,
    pub client_id: Option<Seq<char>>,
    pub kind: Option<Seq<char>>,
    pub status: Option<Seq<char>>,
    pub elapsed_secs: Option<u64>,
    pub exit_code: Option<i32>,
    pub result: Option<JobResultModel>,
    pub job: Option<JobInfoModel>,
    pub error: Option<Seq<char>>,
}

impl View for ShellClientJobStatusResponse {
    type V = JobStatusModel;

    open spec fn view(&self) -> JobStatusModel {
        JobStatusModel {
            success: self.success,
            job_id: opt_text(self.job_id),
            client_id: opt_text(self.client_id),
            kind: opt_text(self.kind),
            status: opt_text(self.status),
            elapsed_secs: self.elapsed_secs,
            exit_code: self.exit_code,
            result: opt_view(self.result),
            job: opt_view(self.job),
            error: opt_text(self.error),
        }
    }
}

/// The answer to a question for the log of a job.
#[derive(Debug)]
pub struct ShellClientJobLogResponse {
    pub success: bool,
    pub job_id: Option<String>,
    pub client_id: Option<String>,
    pub stdout_tail: Option<String>,
    pub stderr_tail: Option<String>,
    pub next_stdout_line: Option<usize>,
    pub next_stderr_line: Option<usize>,
    pub job: Option<ShellJobInfo>,
    pub error: Option<String>,
}

/// The mathematical value of a [`ShellClientJobLogResponse`].
#[verifier::ext_equal]
pub struct JobLogModel {
    pub success: bool,
    pub job_id: Option<Seq<char>>,
    pub client_id: Option<Seq<char>>,
    pub stdout_tail: Option<Seq<char>>,
    pub stderr_tail: Option<Seq<char>>,
    pub next_stdout_line: Option<usize>,
    pub next_stderr_line: Option<usize>,
    pub job: Option<JobInfoModel>,
    pub error: Option<Seq<char>>,
}

impl View for ShellClientJobLogResponse {
    type V = JobLogModel;

    open spec fn view(&self) -> JobLogModel {
        JobLogModel {
            success: self.success,
            job_id: opt_text(self.job_id),
            client_id: opt_text(self.client_id),
            stdout_tail: opt_text(self.stdout_tail),
            stderr_tail: opt_text(self.stderr_tail),
            next_stdout_line: self.next_stdout_line,
            next_stderr_line: self.next_stderr_line,
            job: opt_view(self.job),
            error: opt_text(self.error),
        }
    }
}

/// The answer to a request to stop a job.
#[derive(Debug)]
pub struct ShellClientJobStopResponse {
    pub success: bool,
    pub job_id: Option<String>,
    pub status: Option<String>,
    pub job: Option<ShellJobInfo>,
    pub error: Option<String>,
}

/// The mathematical value of a [`ShellClientJobStopResponse`].
#[verifier::ext_equal]
pub struct JobStopModel {
    pub success: bool,
    pub job_id: Option<Seq<char>>,
    pub status: Option<Seq<char>>,
    pub job: Option<JobInfoModel>,
    pub error: Option<Seq<char>>,
}

impl View for ShellClientJobStopResponse {
    type V = JobStopModel;

    open spec fn view(&self) -> JobStopModel {
        JobStopModel {
            success: self.success,
            job_id: opt_text(self.job_id),
            status: opt_text(self.status),
            job: opt_view(self.job),
            error: opt_text(self.error),
        }
    }
}

/// The answer to a question for the jobs of a client.
#[derive(Debug)]
pub struct ShellClientJobsListResponse {
    pub success: bool,
    pub client_id: String,
    pub jobs: Vec<ShellJobInfo>,
    pub error: Option<String>,
}

/// The mathematical value of a [`ShellClientJobsListResponse`].
#[verifier::ext_equal]
pub struct JobsListModel {
    pub success: bool,
    pub client_id: Seq<char>,
    pub jobs: Seq<JobInfoModel>,
    pub error: Option<Seq<char>>,
}

impl View for ShellClientJobsListResponse {
    type V = JobsListModel;

    open spec fn view(&self) -> JobsListModel {
        JobsListModel {
            success: self.success,
            client_id: self.client_id@,
            jobs: views(self.jobs@),
            error: opt_text(self.error),
        }
    }
}

/// A caller asks for the status of a job.
#[derive(Debug)]
pub struct ShellClientJobStatusRequest {
    pub job_id: String,
    pub client_id: Option<String>,
}

/// A caller asks for the log of a job.
#[derive(Debug)]
pub struct ShellClientJobLogRequest {
    pub job_id: String,
    pub client_id: Option<String>,
    pub since_stdout_line: Option<usize>,
    pub since_stderr_line: Option<usize>,
    pub tail_lines: Option<usize>,
}

/// A caller wants a job stopped.
#[derive(Debug)]
pub struct ShellClientJobStopRequest {
    pub job_id: String,
    pub client_id: Option<String>,
}

/// A caller asks for the jobs of a client.
#[derive(Debug)]
pub struct ShellClientJobsListRequest {
    pub client_id: String,
    pub status: Option<String>,
    pub limit: Option<usize>,
}

} // verus!
