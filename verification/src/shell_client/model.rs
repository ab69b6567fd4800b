//! The registry as a state machine: its state as mathematical maps, and each
//! operation as a function from the state to the next state and an answer.
use crate::shell_client::access::{caller_group, sees_client, unknown_client, AuthModel};
use crate::shell_client::jobs::{
    appended, bounded_option, is_final, is_with_agent, job_info, preview, replaced, seconds_between,
    selected, CLIENT_ONLINE_WINDOW_SECS, MAX_OUTPUT_BYTES,
};
use crate::shell_client::protocol::{
    default_capabilities, ClientViewModel, JobInfoModel, ProjectModel, RequestModel, ResponseModel,
    ShellAgentJobUpdateRequest, ShellAgentPollRequest, ShellAgentProjectSummary,
    ShellAgentResultRequest, ShellClientRegisterRequest, ShellFileOpRequest, ShellJobOpRequest,
    ShellRunRequest,
};
use crate::shell_client::state::{without, ClientModel, JobModel, PendingModel};
use crate::shell_client::validation::{
    complain, id_error, ids_ascend, instance_error, normalized, optional_field_error, or_else,
    run_request_error, trimmed, upserted,
};
use crate::text::{byte_len, opt_text, opt_view, trim, views};
use vstd::prelude::*;

verus! {

/// How many requests may wait for one client.
pub const MAX_QUEUED_REQUESTS_PER_CLIENT: usize = 256;

/// The label of agents that poll over HTTP.
pub const TRANSPORT_POLLING: &'static str = "polling";

/// The label of agents on the WebSocket endpoint.
pub const TRANSPORT_WEBSOCKET: &'static str = "websocket";

/// The label of agents on the QUIC stream transport.
pub const TRANSPORT_QUIC: &'static str = "quic";

/// The state of the registry.
#[verifier::ext_equal]
pub struct RegistryModel {
    /// The registered clients by their ids.
    pub clients: Map<Seq<char>, ClientModel>,
    /// The requests without a result by their ids.
    pub pending: Map<Seq<char>, PendingModel>,
    /// The ids of the requests that wait for each client, in order.
    pub queues: Map<Seq<char>, Seq<Seq<char>>>,
    /// The jobs by their ids.
    pub jobs: Map<Seq<char>, JobModel>,
    /// The job that a request started.
    pub request_to_job: Map<Seq<char>, Seq<char>>,
    /// For each client with a push notifier, the agent instance that owns it.
    pub notifiers: Map<Seq<char>, Seq<char>>,
}

// ---------------------------------------------------------------------------
// Reading the state
// ---------------------------------------------------------------------------

/// Whether a client that was last seen at `last_seen` is online at `now`.
pub open spec fn is_online(last_seen: i64, now: i64) -> bool {
    seconds_between(now, last_seen) <= CLIENT_ONLINE_WINDOW_SECS
}

/// The complaint that another process holds the lease.
pub open spec fn not_active(client_id: Seq<char>) -> Seq<char> {
    "agent client "@ + client_id + " is no longer the active instance (stale or replaced)"@
}

/// The complaint that no job has this id.
pub open spec fn unknown_job(job_id: Seq<char>) -> Seq<char> {
    "unknown shell job: "@ + job_id
}

impl RegistryModel {
    /// Whether the client is registered and online at `now`.
    pub open spec fn connected(self, client_id: Seq<char>, now: i64) -> bool {
        self.clients.contains_key(client_id) && is_online(self.clients[client_id].last_seen, now)
    }

    /// The requests that wait for the client.
    pub open spec fn queue_of(self, client_id: Seq<char>) -> Seq<Seq<char>> {
        if self.queues.contains_key(client_id) {
            self.queues[client_id]
        } else {
            seq![]
        }
    }

    /// Why the agent instance may not act for the client.
    pub open spec fn active_error(self, client_id: Seq<char>, instance: Seq<char>) -> Option<
        Seq<char>,
    > {
        if !self.clients.contains_key(client_id) {
            Some(unknown_client(client_id))
        } else if self.clients[client_id].agent_instance_id != instance {
            Some(not_active(client_id))
        } else {
            None
        }
    }

    /// Why no request can be queued for the client.
    pub open spec fn queue_error(self, client_id: Seq<char>) -> Option<Seq<char>> {
        if !self.clients.contains_key(client_id) {
            Some(unknown_client(client_id))
        } else {
            self.capacity_error(client_id)
        }
    }

    /// Why the queue of the client takes no further request.
    pub open spec fn capacity_error(self, client_id: Seq<char>) -> Option<Seq<char>> {
        complain(
            self.queue_of(client_id).len() >= MAX_QUEUED_REQUESTS_PER_CLIENT,
            "too many pending requests for shell client "@ + client_id + " (limit 256)"@,
        )
    }

    /// Whether the caller sees the jobs of the client.
    pub open spec fn sees_jobs_of(self, auth: Option<AuthModel>, client_id: Seq<char>) -> bool {
        ||| auth is None
        ||| auth->0.is_admin()
        ||| self.clients.contains_key(client_id) && sees_client(auth, self.clients[client_id])
    }

    /// What callers see of a registered client at `now`.
    pub open spec fn client_view(self, client_id: Seq<char>, now: i64) -> ClientViewModel {
        let c = self.clients[client_id];
        let connected = is_online(c.last_seen, now);
        ClientViewModel {
            client_id: c.client_id,
            agent_instance_id: c.agent_instance_id,
            display_name: c.display_name,
            owner: c.owner,
            hostname: c.hostname,
            status: if connected {
                "online"@
            } else {
                "stale"@
            },
            connected,
            last_seen: c.last_seen,
            capabilities: c.capabilities,
            pending_requests: self.queue_of(client_id).len() as usize,
            projects: c.projects,
            agent_protocol_version: c.agent_protocol_version,
            transport: c.transport,
            policy: c.policy,
        }
    }

    /// What holds of the registry at all times.
    pub open spec fn consistent(self) -> bool {
        &&& self.clients_consistent()
        &&& self.queues_consistent()
        &&& self.jobs_consistent()
    }

    /// Clients are filed under their ids, which are valid; their projects are in
    /// order; and a push notifier belongs to the instance that holds the lease.
    pub open spec fn clients_consistent(self) -> bool {
        &&& forall|c: Seq<char>| #[trigger]
            self.clients.contains_key(c) ==> {
                &&& self.clients[c].client_id == c
                &&& id_error(c, "client_id"@) is None
                &&& instance_error(self.clients[c].agent_instance_id) is None
                &&& ids_ascend(self.clients[c].projects)
            }
        &&& forall|c: Seq<char>| #[trigger]
            self.notifiers.contains_key(c) ==> self.clients.contains_key(c) && self.notifiers[c]
                == self.clients[c].agent_instance_id
    }

    /// Queues belong to registered clients and are bounded, and pending requests
    /// are filed under their ids, which are valid, and go to registered clients.
    pub open spec fn queues_consistent(self) -> bool {
        &&& forall|c: Seq<char>| #[trigger]
            self.queues.contains_key(c) ==> self.clients.contains_key(c) && self.queues[c].len()
                <= MAX_QUEUED_REQUESTS_PER_CLIENT
        &&& forall|r: Seq<char>| #[trigger]
            self.pending.contains_key(r) ==> self.pending[r].request.request_id == r && id_error(
                r,
                "request_id"@,
            ) is None && self.clients.contains_key(self.pending[r].request.client_id)
    }

    /// Jobs are filed under their ids, which are valid, their output is bounded, and what
    /// refers to a job refers to one that exists.
    pub open spec fn jobs_consistent(self) -> bool {
        &&& forall|j: Seq<char>| #[trigger]
            self.jobs.contains_key(j) ==> self.jobs[j].job_id == j && id_error(
                j,
                "job_id"@,
            ) is None && output_bounded(
                self.jobs[j].stdout,
            ) && output_bounded(self.jobs[j].stderr)
        &&& forall|r: Seq<char>| #[trigger]
            self.pending.contains_key(r) && self.pending[r].job_id is Some
                ==> self.jobs.contains_key(self.pending[r].job_id->0)
        &&& forall|r: Seq<char>| #[trigger]
            self.request_to_job.contains_key(r) ==> self.jobs.contains_key(self.request_to_job[r])
    }
}

/// Whether a kept output is within its bound.
pub open spec fn output_bounded(s: Option<Seq<char>>) -> bool {
    match s {
        Some(s) => byte_len(s) <= MAX_OUTPUT_BYTES + byte_len(
            "[output truncated to last 262144 bytes]\n"@,
        ),
        None => true,
    }
}

// ---------------------------------------------------------------------------
// Registration and liveness
// ---------------------------------------------------------------------------

/// The projects that an optional list reports, in normal form.
pub open spec fn project_models(projects: Option<Vec<ShellAgentProjectSummary>>) -> Seq<
    ProjectModel,
> {
    match projects {
        Some(v) => normalized(views(v@)),
        None => seq![],
    }
}

/// The record of a client that registers at `now`.
pub open spec fn registered_record(
    b: ShellClientRegisterRequest,
    auth: Option<AuthModel>,
    now: i64,
) -> ClientModel {
    ClientModel {
        client_id: trim(b.client_id@),
        agent_instance_id: trim(b.agent_instance_id@),
        display_name: trimmed(opt_text(b.display_name)),
        owner: trimmed(opt_text(b.owner)),
        hostname: trimmed(opt_text(b.hostname)),
        capabilities: match b.capabilities {
            Some(c) => c,
            None => default_capabilities(),
        },
        projects: project_models(b.projects),
        last_seen: now,
        agent_protocol_version: match trimmed(opt_text(b.agent_protocol_version)) {
            Some(v) => v,
            None => "unknown"@,
        },
        transport: "polling"@,
        policy: opt_view(b.policy),
        auth_group: caller_group(auth),
    }
}

/// What is wrong with the fields of a registration.
pub open spec fn register_fields_error(b: ShellClientRegisterRequest) -> Option<Seq<char>> {
    or_else(
        id_error(b.client_id@, "client_id"@),
        or_else(
            instance_error(b.agent_instance_id@),
            or_else(
                optional_field_error(opt_text(b.display_name), "display_name"@),
                or_else(
                    optional_field_error(opt_text(b.owner), "owner"@),
                    optional_field_error(opt_text(b.hostname), "hostname"@),
                ),
            ),
        ),
    )
}

impl RegistryModel {
    /// Why the agent instance cannot take the lease on the client at `now`: another
    /// instance holds it and is online.
    pub open spec fn lease_error(self, client_id: Seq<char>, instance: Seq<char>, now: i64) -> Option<
        Seq<char>,
    > {
        complain(
            self.connected(client_id, now) && self.clients[client_id].agent_instance_id != instance,
            "agent client "@ + client_id + " is already online with a different instance"@,
        )
    }

    /// Why the registration is refused at `now`.
    pub open spec fn register_error(self, b: ShellClientRegisterRequest, now: i64) -> Option<
        Seq<char>,
    > {
        or_else(
            register_fields_error(b),
            self.lease_error(trim(b.client_id@), trim(b.agent_instance_id@), now),
        )
    }

    /// The state after the client `record` registered. The notifier of an instance
    /// that lost the lease is dropped.
    pub open spec fn with_client(self, record: ClientModel) -> RegistryModel {
        let id = record.client_id;
        RegistryModel {
            clients: self.clients.insert(id, record),
            notifiers: if self.clients.contains_key(id) && self.clients[id].agent_instance_id
                != record.agent_instance_id {
                self.notifiers.remove(id)
            } else {
                self.notifiers
            },
            ..self
        }
    }

    /// Registration at `now`.
    pub open spec fn register(
        self,
        b: ShellClientRegisterRequest,
        auth: Option<AuthModel>,
        now: i64,
    ) -> (RegistryModel, Result<ClientViewModel, Seq<char>>) {
        match self.register_error(b, now) {
            Some(e) => (self, Err(e)),
            None => {
                let next = self.with_client(registered_record(b, auth, now));
                (next, Ok(next.client_view(trim(b.client_id@), now)))
            },
        }
    }

    /// The state with the client seen at `now`.
    pub open spec fn seen(self, client_id: Seq<char>, now: i64) -> RegistryModel {
        RegistryModel {
            clients: self.clients.insert(
                client_id,
                ClientModel { last_seen: now, ..self.clients[client_id] },
            ),
            ..self
        }
    }

    /// A sign of life of the agent instance at `now`.
    pub open spec fn touch(self, client_id: Seq<char>, instance: Seq<char>, now: i64) -> (
        RegistryModel,
        Result<(), Seq<char>>,
    ) {
        match or_else(instance_error(instance), self.active_error(client_id, instance)) {
            Some(e) => (self, Err(e)),
            None => (self.seen(client_id, now), Ok(())),
        }
    }

    /// The state with another transport label on the client.
    pub open spec fn transport_set(self, client_id: Seq<char>, transport: Seq<char>) -> (
        RegistryModel,
        Result<(), Seq<char>>,
    ) {
        if self.clients.contains_key(client_id) {
            (
                RegistryModel {
                    clients: self.clients.insert(
                        client_id,
                        ClientModel { transport, ..self.clients[client_id] },
                    ),
                    ..self
                },
                Ok(()),
            )
        } else {
            (self, Err(unknown_client(client_id)))
        }
    }

    /// The installation of a push notifier.
    pub open spec fn notifier_set(self, client_id: Seq<char>, instance: Seq<char>) -> (
        RegistryModel,
        Result<(), Seq<char>>,
    ) {
        match or_else(instance_error(instance), self.active_error(client_id, instance)) {
            Some(e) => (self, Err(e)),
            None => (
                RegistryModel { notifiers: self.notifiers.insert(client_id, instance), ..self },
                Ok(()),
            ),
        }
    }

    /// The cached projects of the client with one of them inserted or replaced.
    pub open spec fn project_upserted(self, client_id: Seq<char>, p: ProjectModel) -> (
        RegistryModel,
        Result<(), Seq<char>>,
    ) {
        if self.clients.contains_key(client_id) {
            (
                RegistryModel {
                    clients: self.clients.insert(
                        client_id,
                        ClientModel {
                            projects: upserted(self.clients[client_id].projects, p),
                            ..self.clients[client_id]
                        },
                    ),
                    ..self
                },
                Ok(()),
            )
        } else {
            (self, Err(unknown_client(client_id)))
        }
    }
}

// ---------------------------------------------------------------------------
// Disconnects
// ---------------------------------------------------------------------------

/// `ids` without the ids in `gone`.
pub open spec fn without_all(ids: Seq<Seq<char>>, gone: Set<Seq<char>>) -> Seq<Seq<char>>
    decreases ids.len(),
{
    if ids.len() == 0 {
        seq![]
    } else if gone.contains(ids.last()) {
        without_all(ids.drop_last(), gone)
    } else {
        without_all(ids.drop_last(), gone).push(ids.last())
    }
}

/// Whether the job is lost when its client disconnects.
pub open spec fn lost_with_client(job: JobModel, client_id: Seq<char>) -> bool {
    job.client_id == client_id && (job.status == "queued"@ || is_with_agent(job.status))
}

/// The job marked as lost at `now`.
pub open spec fn lost_job(job: JobModel, error: Seq<char>, now: i64) -> JobModel {
    JobModel { status: "lost"@, ended_at: Some(now), error: Some(error), ..job }
}

/// The jobs after the client disconnected.
pub open spec fn jobs_after_disconnect(
    jobs: Map<Seq<char>, JobModel>,
    client_id: Seq<char>,
    now: i64,
) -> Map<Seq<char>, JobModel> {
    Map::new(
        |j: Seq<char>| jobs.contains_key(j),
        |j: Seq<char>|
            if lost_with_client(jobs[j], client_id) {
                lost_job(jobs[j], "agent transport disconnected"@, now)
            } else {
                jobs[j]
            },
    )
}

impl RegistryModel {
    /// The requests of the jobs that are lost when the client disconnects.
    pub open spec fn requests_lost_with(self, client_id: Seq<char>) -> Set<Seq<char>> {
        Set::new(
            |r: Seq<char>|
                exists|j: Seq<char>| #[trigger]
                    self.jobs.contains_key(j) && lost_with_client(self.jobs[j], client_id)
                        && self.jobs[j].request_id == Some(r),
        )
    }

    /// The disconnect of the agent instance at `now`. Only the instance that holds
    /// the lease changes anything: its notifier goes, its lease ends, its jobs are
    /// lost and their requests are dropped.
    pub open spec fn disconnect(self, client_id: Seq<char>, instance: Seq<char>, now: i64) -> RegistryModel {
        if self.active_error(client_id, instance) is Some {
            self
        } else {
            let gone = self.requests_lost_with(client_id);
            RegistryModel {
                clients: self.clients.insert(
                    client_id,
                    ClientModel {
                        last_seen: seconds_between(now, 61),
                        ..self.clients[client_id]
                    },
                ),
                notifiers: if self.notifiers.contains_key(client_id) && self.notifiers[client_id]
                    == instance {
                    self.notifiers.remove(client_id)
                } else {
                    self.notifiers
                },
                jobs: jobs_after_disconnect(self.jobs, client_id, now),
                pending: self.pending.remove_keys(gone),
                request_to_job: self.request_to_job.remove_keys(gone),
                queues: if self.queues.contains_key(client_id) {
                    self.queues.insert(client_id, without_all(self.queues[client_id], gone))
                } else {
                    self.queues
                },
            }
        }
    }

    /// The state without the request, wherever it waits.
    pub open spec fn cancelled(self, request_id: Seq<char>) -> RegistryModel {
        RegistryModel {
            pending: self.pending.remove(request_id),
            queues: self.queues.map_values(|q: Seq<Seq<char>>| without(q, request_id)),
            ..self
        }
    }
}

// ---------------------------------------------------------------------------
// Queueing
// ---------------------------------------------------------------------------

/// The working directory without the white space around it.
pub open spec fn trimmed_cwd(cwd: Option<Seq<char>>) -> Option<Seq<char>> {
    match cwd {
        Some(c) => Some(trim(c)),
        None => None,
    }
}

/// A request without any of the optional fields.
pub open spec fn bare_request(
    request_id: Seq<char>,
    client_id: Seq<char>,
    kind: Seq<char>,
    timeout_secs: u64,
    requested_by: Seq<char>,
    now: i64,
) -> RequestModel {
    RequestModel {
        request_id,
        client_id,
        kind,
        job_id: None,
        cwd: None,
        path: None,
        content: None,
        max_bytes: None,
        old_text: None,
        pattern: None,
        expected_sha256: None,
        expected_prefix: None,
        start_line: None,
        end_line: None,
        line: None,
        create_dirs: false,
        command: seq![],
        stdin: None,
        timeout_secs,
        requested_by,
        created_at: now,
    }
}

/// The request that carries a file operation.
pub open spec fn file_request(
    b: ShellFileOpRequest,
    requested_by: Seq<char>,
    request_id: Seq<char>,
    now: i64,
) -> RequestModel {
    RequestModel {
        cwd: trimmed_cwd(opt_text(b.cwd)),
        path: Some(trim(b.path@)),
        content: opt_text(b.content),
        max_bytes: b.max_bytes,
        old_text: opt_text(b.old_text),
        pattern: opt_text(b.pattern),
        expected_sha256: opt_text(b.expected_sha256),
        expected_prefix: opt_text(b.expected_prefix),
        start_line: b.start_line,
        end_line: b.end_line,
        line: b.line,
        create_dirs: b.create_dirs,
        ..bare_request(request_id, b.client_id@, "file_"@ + b.op@, 30, requested_by, now)
    }
}

/// The request that carries a command.
pub open spec fn run_request(
    b: ShellRunRequest,
    requested_by: Seq<char>,
    request_id: Seq<char>,
    now: i64,
) -> RequestModel {
    RequestModel {
        cwd: trimmed_cwd(opt_text(b.cwd)),
        command: b.command@,
        stdin: opt_text(b.stdin),
        ..bare_request(request_id, b.client_id@, "run_shell"@, b.timeout_secs, requested_by, now)
    }
}

/// The request that carries a project operation; its payload goes in by the
/// standard input, so that no shell reads it.
pub open spec fn project_request(
    client_id: Seq<char>,
    kind: Seq<char>,
    payload: Seq<char>,
    requested_by: Seq<char>,
    request_id: Seq<char>,
    now: i64,
) -> RequestModel {
    RequestModel {
        stdin: Some(payload),
        ..bare_request(request_id, client_id, kind, 30, requested_by, now)
    }
}

/// What is wrong with a project operation.
pub open spec fn project_op_error(
    client_id: Seq<char>,
    kind: Seq<char>,
    payload: Seq<char>,
) -> Option<Seq<char>> {
    or_else(
        id_error(client_id, "client_id"@),
        or_else(
            complain(
                kind != "register_project"@ && kind != "create_project"@,
                "unsupported project op kind: "@ + kind,
            ),
            complain(payload.contains('\0'), "project op payload must not contain NUL"@),
        ),
    )
}

impl RegistryModel {
    /// The state with the request at the end of the queue of its client.
    pub open spec fn with_request(self, p: PendingModel) -> RegistryModel {
        let c = p.request.client_id;
        let r = p.request.request_id;
        RegistryModel {
            queues: self.queues.insert(c, self.queue_of(c).push(r)),
            pending: self.pending.insert(r, p),
            ..self
        }
    }

    /// The queueing of a request that a caller waits for; `error` is what was wrong
    /// with it.
    pub open spec fn enqueue(self, error: Option<Seq<char>>, request: RequestModel) -> (
        RegistryModel,
        Result<Seq<char>, Seq<char>>,
    ) {
        match or_else(error, self.queue_error(request.client_id)) {
            Some(e) => (self, Err(e)),
            None => (
                self.with_request(PendingModel { request, waiter: true, job_id: None }),
                Ok(request.request_id),
            ),
        }
    }
}

// ---------------------------------------------------------------------------
// Jobs
// ---------------------------------------------------------------------------

/// The command and the limits that a job runs with.
pub open spec fn job_timeout(b: ShellJobOpRequest) -> u64 {
    match b.timeout_secs {
        Some(t) => t,
        None => 120,
    }
}

/// What is wrong with the start of a job, whoever is registered.
pub open spec fn start_fields_error(b: ShellJobOpRequest, run: ShellRunRequest) -> Option<
    Seq<char>,
> {
    or_else(
        complain(b.client_id is None, "client_id is required for op=start"@),
        or_else(
            complain(b.command is None, "command is required for op=start"@),
            run_request_error(run),
        ),
    )
}

/// Whether `run` is the command that a job request asks for.
pub open spec fn is_job_run(b: ShellJobOpRequest, run: ShellRunRequest) -> bool {
    &&& b.client_id is Some ==> run.client_id == b.client_id->0
    &&& b.command is Some ==> run.command == b.command->0
    &&& run.cwd == b.cwd
    &&& run.stdin is None
    &&& run.timeout_secs == job_timeout(b)
    &&& run.wait_timeout_secs == 0
}

/// The request that starts a job.
pub open spec fn start_request(
    run: ShellRunRequest,
    requested_by: Seq<char>,
    request_id: Seq<char>,
    job_id: Seq<char>,
    now: i64,
) -> RequestModel {
    RequestModel {
        job_id: Some(job_id),
        cwd: trimmed_cwd(opt_text(run.cwd)),
        command: run.command@,
        ..bare_request(
            request_id,
            run.client_id@,
            "start_job"@,
            run.timeout_secs,
            requested_by,
            now,
        )
    }
}

/// The record of a job that was queued at `now`.
pub open spec fn queued_job(
    b: ShellJobOpRequest,
    run: ShellRunRequest,
    request_id: Seq<char>,
    job_id: Seq<char>,
    now: i64,
) -> JobModel {
    JobModel {
        job_id,
        request_id: Some(request_id),
        client_id: run.client_id@,
        kind: "shell"@,
        project_id: None,
        cwd: opt_text(run.cwd),
        command_preview: preview(run.command@),
        status: "queued"@,
        created_at: now,
        started_at: None,
        ended_at: None,
        exit_code: None,
        duration_ms: None,
        stdout: None,
        stderr: None,
        error: None,
        codex: opt_view(b.codex),
    }
}

impl RegistryModel {
    /// Why the client takes no job.
    pub open spec fn start_error(self, client_id: Seq<char>) -> Option<Seq<char>> {
        if !self.clients.contains_key(client_id) {
            Some(unknown_client(client_id))
        } else {
            let caps = self.clients[client_id].capabilities;
            or_else(
                complain(
                    !(caps.async_jobs || caps.async_shell_jobs),
                    "agent client "@ + client_id + " does not support async shell jobs"@,
                ),
                self.capacity_error(client_id),
            )
        }
    }

    /// The start of a job at `now`.
    pub open spec fn start_job(
        self,
        b: ShellJobOpRequest,
        run: ShellRunRequest,
        requested_by: Seq<char>,
        request_id: Seq<char>,
        job_id: Seq<char>,
        now: i64,
    ) -> (RegistryModel, Result<JobInfoModel, Seq<char>>) {
        match or_else(start_fields_error(b, run), self.start_error(run.client_id@)) {
            Some(e) => (self, Err(e)),
            None => {
                let job = queued_job(b, run, request_id, job_id, now);
                let request = start_request(run, requested_by, request_id, job_id, now);
                let queued = self.with_request(
                    PendingModel { request, waiter: false, job_id: Some(job_id) },
                );
                (
                    RegistryModel {
                        jobs: queued.jobs.insert(job_id, job),
                        request_to_job: queued.request_to_job.insert(request_id, job_id),
                        ..queued
                    },
                    Ok(job_info(job, now)),
                )
            },
        }
    }

    /// Whether the job is lost at `now` because its client went away with it.
    pub open spec fn goes_stale(self, job: JobModel, now: i64) -> bool {
        is_with_agent(job.status) && !self.connected(job.client_id, now)
    }

    /// The job as it is at `now`.
    pub open spec fn refreshed_job(self, job: JobModel, now: i64) -> JobModel {
        if self.goes_stale(job, now) {
            lost_job(job, "shell client went stale while job was running"@, now)
        } else {
            job
        }
    }

    /// The state with one job brought up to date.
    pub open spec fn refreshed(self, job_id: Seq<char>, now: i64) -> RegistryModel {
        if self.jobs.contains_key(job_id) {
            RegistryModel {
                jobs: self.jobs.insert(job_id, self.refreshed_job(self.jobs[job_id], now)),
                ..self
            }
        } else {
            self
        }
    }

    /// The state with every job brought up to date.
    pub open spec fn refreshed_all(self, now: i64) -> RegistryModel {
        RegistryModel {
            jobs: self.jobs.map_values(|job: JobModel| self.refreshed_job(job, now)),
            ..self
        }
    }

    /// A look at a job at `now`.
    pub open spec fn get_job(self, auth: Option<AuthModel>, job_id: Seq<char>, now: i64) -> (
        RegistryModel,
        Result<JobInfoModel, Seq<char>>,
    ) {
        match id_error(job_id, "job_id"@) {
            Some(e) => (self, Err(e)),
            None => {
                let next = self.refreshed(job_id, now);
                if next.jobs.contains_key(job_id) && next.sees_jobs_of(
                    auth,
                    next.jobs[job_id].client_id,
                ) {
                    (next, Ok(job_info(next.jobs[job_id], now)))
                } else {
                    (next, Err(unknown_job(job_id)))
                }
            },
        }
    }

    /// A look at the log of a job at `now`.
    pub open spec fn job_log(
        self,
        auth: Option<AuthModel>,
        job_id: Seq<char>,
        since_stdout: Option<usize>,
        since_stderr: Option<usize>,
        tail: Option<usize>,
        now: i64,
    ) -> (
        RegistryModel,
        Result<(JobInfoModel, Option<Seq<char>>, Option<Seq<char>>, usize, usize), Seq<char>>,
    ) {
        let (next, found) = self.get_job(auth, job_id, now);
        match found {
            Err(e) => (next, Err(e)),
            Ok(info) => {
                let job = next.jobs[job_id];
                let (out, next_out) = selected(job.stdout, since_stdout, tail);
                let (err, next_err) = selected(job.stderr, since_stderr, tail);
                (next, Ok((info, out, err, next_out, next_err)))
            },
        }
    }
}

/// The job stopped at `now` before an agent had it.
pub open spec fn stopped_job(job: JobModel, now: i64) -> JobModel {
    JobModel {
        status: "stopped"@,
        ended_at: Some(now),
        error: Some("job stopped before agent picked it up"@),
        ..job
    }
}

/// The job whose agent was asked to stop it.
pub open spec fn stopping_job(job: JobModel) -> JobModel {
    JobModel { status: "stop_requested"@, error: Some("stop requested"@), ..job }
}

impl RegistryModel {
    /// The state without the request of a job that was never picked up.
    pub open spec fn without_request(self, request_id: Option<Seq<char>>) -> RegistryModel {
        match request_id {
            Some(r) => {
                let c = self.cancelled(r);
                RegistryModel { request_to_job: c.request_to_job.remove(r), ..c }
            },
            None => self,
        }
    }

    /// The state with the job replaced.
    pub open spec fn with_job(self, job_id: Seq<char>, job: JobModel) -> RegistryModel {
        RegistryModel { jobs: self.jobs.insert(job_id, job), ..self }
    }

    /// The stop of a job at `now`: a queued one ends at once, one that an agent has
    /// is stopped by a request to the agent, and one that ended stays as it is.
    pub open spec fn stop_job(
        self,
        job_id: Seq<char>,
        requested_by: Seq<char>,
        stop_id: Seq<char>,
        now: i64,
    ) -> (RegistryModel, Result<JobInfoModel, Seq<char>>) {
        match id_error(job_id, "job_id"@) {
            Some(e) => (self, Err(e)),
            None => if !self.jobs.contains_key(job_id) {
                (self, Err(unknown_job(job_id)))
            } else {
                let job = self.jobs[job_id];
                if job.status == "queued"@ {
                    let stopped = stopped_job(job, now);
                    (
                        self.without_request(job.request_id).with_job(job_id, stopped),
                        Ok(job_info(stopped, now)),
                    )
                } else if is_with_agent(job.status) {
                    match self.queue_error(job.client_id) {
                        Some(e) => (self, Err(e)),
                        None => {
                            let request = RequestModel {
                                job_id: Some(job_id),
                                ..bare_request(
                                    stop_id,
                                    job.client_id,
                                    "stop_job"@,
                                    1,
                                    requested_by,
                                    now,
                                )
                            };
                            let stopping = stopping_job(job);
                            (
                                self.with_request(
                                    PendingModel { request, waiter: false, job_id: Some(job_id) },
                                ).with_job(job_id, stopping),
                                Ok(job_info(stopping, now)),
                            )
                        },
                    }
                } else {
                    (self, Ok(job_info(job, now)))
                }
            },
        }
    }
}

// ---------------------------------------------------------------------------
// Reports from agents
// ---------------------------------------------------------------------------

/// When the job started, as far as a report at `now` with the status tells.
pub open spec fn started_by(job: JobModel, status: Seq<char>, now: i64) -> Option<i64> {
    if job.started_at is None && (status == "running"@ || status == "completed"@ || status
        == "failed"@ || status == "stopped"@ || status == "timeout"@) {
        Some(now)
    } else {
        job.started_at
    }
}

/// The status that a job has after a report with the status `status`.
pub open spec fn reported_status(
    job: JobModel,
    started_at: Option<i64>,
    status: Seq<char>,
) -> Seq<char> {
    let word = trim(status);
    if is_final(status) {
        status
    } else if word.len() == 0 {
        job.status
    } else if word == "queued"@ && started_at is Some {
        "agent_queued"@
    } else {
        word
    }
}

/// The job after its agent's report, as far as the report says how it stands.
pub open spec fn job_with_report(job: JobModel, b: ShellAgentJobUpdateRequest, now: i64) -> JobModel {
    let started_at = started_by(job, b.status@, now);
    let ends = is_final(b.status@);
    JobModel {
        stdout: appended(
            replaced(job.stdout, opt_text(b.stdout_tail)),
            opt_text(b.stdout_chunk),
        ),
        stderr: appended(
            replaced(job.stderr, opt_text(b.stderr_tail)),
            opt_text(b.stderr_chunk),
        ),
        started_at,
        status: reported_status(job, started_at, b.status@),
        ended_at: if ends {
            Some(now)
        } else {
            job.ended_at
        },
        exit_code: if ends {
            b.exit_code
        } else {
            job.exit_code
        },
        duration_ms: if ends {
            b.duration_ms
        } else {
            job.duration_ms
        },
        error: if ends || b.error is Some {
            opt_text(b.error)
        } else {
            job.error
        },
        ..job
    }
}

/// The job after its agent's report. A report that says that the job has finished
/// ends it in any case.
pub open spec fn updated_job(job: JobModel, b: ShellAgentJobUpdateRequest, now: i64) -> JobModel {
    let told = job_with_report(job, b, now);
    if b.finished && !is_final(told.status) {
        JobModel {
            status: if told.error is None && told.exit_code == Some(0i32) {
                "completed"@
            } else {
                "failed"@
            },
            ended_at: Some(now),
            ..told
        }
    } else {
        told
    }
}

/// Whether the report ends the job, so that its request is answered.
pub open spec fn report_ends(job: JobModel, b: ShellAgentJobUpdateRequest, now: i64) -> bool {
    is_final(b.status@) || (b.finished && !is_final(job_with_report(job, b, now).status))
}

impl RegistryModel {
    /// The state without the request of a job that was answered.
    pub open spec fn answered(self, request_id: Option<Seq<char>>) -> RegistryModel {
        match request_id {
            Some(r) => RegistryModel {
                pending: self.pending.remove(r),
                request_to_job: self.request_to_job.remove(r),
                ..self
            },
            None => self,
        }
    }

    /// The report of an agent on a job at `now`. A job that ended does not change.
    pub open spec fn update_job(self, b: ShellAgentJobUpdateRequest, now: i64) -> (
        RegistryModel,
        Result<JobInfoModel, Seq<char>>,
    ) {
        let refused = or_else(
            id_error(b.client_id@, "client_id"@),
            or_else(
                id_error(b.job_id@, "job_id"@),
                or_else(
                    instance_error(b.agent_instance_id@),
                    self.active_error(b.client_id@, b.agent_instance_id@),
                ),
            ),
        );
        match refused {
            Some(e) => (self, Err(e)),
            None => {
                let seen = self.seen(b.client_id@, now);
                if !seen.jobs.contains_key(b.job_id@) {
                    (seen, Err(unknown_job(b.job_id@)))
                } else {
                    let job = seen.jobs[b.job_id@];
                    if job.client_id != b.client_id@ {
                        (seen, Err("job_id does not belong to client_id"@))
                    } else if is_final(job.status) {
                        (seen, Ok(job_info(job, now)))
                    } else {
                        let next = updated_job(job, b, now);
                        let stored = seen.with_job(b.job_id@, next);
                        (
                            if report_ends(job, b, now) {
                                stored.answered(next.request_id)
                            } else {
                                stored
                            },
                            Ok(job_info(next, now)),
                        )
                    }
                }
            },
        }
    }

    /// The state with the front of the client's queue taken off.
    pub open spec fn popped(self, client_id: Seq<char>) -> RegistryModel {
        RegistryModel {
            queues: self.queues.insert(client_id, self.queues[client_id].skip(1)),
            ..self
        }
    }

    /// The delivery of the pending request `r` at `now`: a request to stop a job is
    /// done with, and the job that any other request starts is with the agent.
    pub open spec fn delivered(self, r: Seq<char>, now: i64) -> RegistryModel {
        let p = self.pending[r];
        if p.request.kind == "stop_job"@ {
            RegistryModel { pending: self.pending.remove(r), ..self }
        } else if p.job_id is Some && self.jobs.contains_key(p.job_id->0)
            && self.jobs[p.job_id->0].status == "queued"@ {
            self.with_job(
                p.job_id->0,
                JobModel {
                    status: "agent_queued"@,
                    started_at: Some(now),
                    ..self.jobs[p.job_id->0]
                },
            )
        } else {
            self
        }
    }

    /// The next request for the client at `now`: the first in its queue that is
    /// still pending. Those before it are dropped.
    pub open spec fn take_next(self, client_id: Seq<char>, now: i64) -> (
        RegistryModel,
        Option<RequestModel>,
    )
        decreases self.queue_of(client_id).len(),
    {
        if self.queue_of(client_id).len() == 0 {
            (self, None)
        } else {
            let r = self.queues[client_id][0];
            let rest = self.popped(client_id);
            if rest.pending.contains_key(r) {
                (rest.delivered(r, now), Some(rest.pending[r].request))
            } else {
                rest.take_next(client_id, now)
            }
        }
    }

    /// A poll of an agent at `now`.
    pub open spec fn poll(self, b: ShellAgentPollRequest, now: i64) -> (
        RegistryModel,
        Result<Option<RequestModel>, Seq<char>>,
    ) {
        let refused = or_else(
            id_error(b.client_id@, "client_id"@),
            or_else(
                instance_error(b.agent_instance_id@),
                self.active_error(b.client_id@, b.agent_instance_id@),
            ),
        );
        match refused {
            Some(e) => (self, Err(e)),
            None => {
                let c = self.clients[b.client_id@];
                let seen = RegistryModel {
                    clients: self.clients.insert(
                        b.client_id@,
                        ClientModel {
                            projects: if b.projects is Some {
                                project_models(b.projects)
                            } else {
                                c.projects
                            },
                            last_seen: now,
                            ..c
                        },
                    ),
                    ..self
                };
                let (next, request) = seen.take_next(b.client_id@, now);
                (next, Ok(request))
            },
        }
    }
}

/// Whether a result is a success.
pub open spec fn result_succeeds(b: ShellAgentResultRequest) -> bool {
    b.error is None && b.exit_code == Some(0i32)
}

/// The job after the result of the request that started it.
pub open spec fn finished_job(job: JobModel, b: ShellAgentResultRequest, now: i64) -> JobModel {
    JobModel {
        status: if result_succeeds(b) {
            "completed"@
        } else {
            "failed"@
        },
        ended_at: Some(now),
        exit_code: b.exit_code,
        duration_ms: b.duration_ms,
        stdout: bounded_option(opt_text(b.stdout)),
        stderr: bounded_option(opt_text(b.stderr)),
        error: opt_text(b.error),
        ..job
    }
}

/// What the caller who waits for the request is told.
pub open spec fn result_response(request: RequestModel, b: ShellAgentResultRequest) -> ResponseModel {
    ResponseModel {
        success: result_succeeds(b),
        request_id: b.request_id@,
        client_id: b.client_id@,
        cwd: request.cwd,
        command_preview: preview(request.command),
        exit_code: b.exit_code,
        stdout: bounded_option(opt_text(b.stdout)),
        stderr: bounded_option(opt_text(b.stderr)),
        duration_ms: b.duration_ms,
        error: opt_text(b.error),
    }
}

impl RegistryModel {
    /// The result of a request, handed in at `now`. The answer is the response for
    /// the caller who waits, where one does.
    pub open spec fn complete(self, b: ShellAgentResultRequest, now: i64) -> (
        RegistryModel,
        Result<Option<ResponseModel>, Seq<char>>,
    ) {
        let refused = or_else(
            id_error(b.client_id@, "client_id"@),
            or_else(
                id_error(b.request_id@, "request_id"@),
                or_else(
                    instance_error(b.agent_instance_id@),
                    self.active_error(b.client_id@, b.agent_instance_id@),
                ),
            ),
        );
        match refused {
            Some(e) => (self, Err(e)),
            None => {
                let seen = self.seen(b.client_id@, now);
                if !seen.pending.contains_key(b.request_id@) {
                    (seen, Err("unknown or expired shell request: "@ + b.request_id@))
                } else {
                    let p = seen.pending[b.request_id@];
                    let taken = RegistryModel {
                        pending: seen.pending.remove(b.request_id@),
                        ..seen
                    };
                    if p.request.client_id != b.client_id@ {
                        (taken, Err("request_id does not belong to client_id"@))
                    } else {
                        (
                            taken.job_finished(p.job_id, b, now),
                            Ok(
                                if p.waiter {
                                    Some(result_response(p.request, b))
                                } else {
                                    None
                                },
                            ),
                        )
                    }
                }
            },
        }
    }

    /// The state after the result for the job, where the request started one.
    pub open spec fn job_finished(
        self,
        job_id: Option<Seq<char>>,
        b: ShellAgentResultRequest,
        now: i64,
    ) -> RegistryModel {
        match job_id {
            None => self,
            Some(j) => {
                let next = RegistryModel {
                    request_to_job: self.request_to_job.remove(b.request_id@),
                    ..self
                };
                if self.jobs.contains_key(j) {
                    next.with_job(j, finished_job(self.jobs[j], b, now))
                } else {
                    next
                }
            },
        }
    }
}

} // verus!
