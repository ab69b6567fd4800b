//! What callers ask of the registry, and what they are told.
//!
//! Each request is answered with an HTTP status and a response. A request that an
//! agent has to answer is taken in two steps: the first one either answers at once
//! or hands out a ticket, and whoever waits for the agent brings the ticket back
//! with what came of the wait.
use crate::lines::{lines_of, split_lines};
use crate::numbers::{decimal, decimal_u64, parse_u64, parse_unsigned};
use crate::shell_client::access::{
    access_error, caller, requested_by_from_auth, requester, unknown_client, AuthContext,
    AuthModel,
};
use crate::shell_client::jobs::{command_preview, now_ts, preview};
use crate::shell_client::model::{file_request, is_job_run, run_request, RegistryModel};
use crate::shell_client::protocol::{
    FileResponseModel, JobInfoModel, JobLogModel, JobResponseModel, JobStatusModel, JobStopModel,
    JobsListModel, ResponseModel, ShellClientJobLogRequest, ShellClientJobLogResponse,
    ShellClientJobStatusRequest, ShellClientJobStatusResponse, ShellClientJobStopRequest,
    ShellClientJobStopResponse, ShellClientJobsListRequest, ShellClientJobsListResponse,
    ShellFileOpRequest, ShellFileOpResponse, ShellJobInfo, ShellJobOpRequest, ShellJobOpResponse,
    ShellRunRequest, ShellRunResponse,
};
use crate::shell_client::registry::{
    is_limited_listing, listing_limit, draw_id, ShellClientRegistry,
};
use crate::shell_client::validation::{
    file_request_error, id_error, is_new_id, lemma_hex_digest_valid, or_else, run_request_error,
    sha256_error, sha256_hex, sha256_hex_of,
};
use crate::text::{
    byte_len, concat2, concat3, contains_text, has_text, opt_clone, opt_text, str_byte_len, str_eq,
    str_trim, trim, views,
};
use vstd::prelude::*;
use vstd::string::*;

verus! {

pub const STATUS_OK: u16 = 200;

pub const STATUS_BAD_REQUEST: u16 = 400;

pub const STATUS_FORBIDDEN: u16 = 403;

pub const STATUS_REQUEST_TIMEOUT: u16 = 408;

pub const STATUS_INTERNAL_SERVER_ERROR: u16 = 500;

/// The value of a refusal: a status and a complaint.
pub open spec fn refusal(r: (u16, String)) -> (u16, Seq<char>) {
    (r.0, r.1@)
}

// ---------------------------------------------------------------------------
// Access
// ---------------------------------------------------------------------------

/// Why the caller may not use the client, and the status that says so.
pub open spec fn client_refusal(m: RegistryModel, auth: Option<AuthModel>, client_id: Seq<char>) -> Option<
    (u16, Seq<char>),
> {
    if !m.clients.contains_key(client_id) {
        Some((STATUS_BAD_REQUEST, unknown_client(client_id)))
    } else {
        match access_error(auth, m.clients[client_id]) {
            Some(e) => Some(
                (
                    if has_text(e, "unknown shell client"@) {
                        STATUS_BAD_REQUEST
                    } else {
                        STATUS_FORBIDDEN
                    },
                    e,
                ),
            ),
            None => None,
        }
    }
}

/// Checks that the caller may use the client.
pub fn assert_registry_client_owner(
    registry: &ShellClientRegistry,
    auth: Option<&AuthContext>,
    client_id: &str,
) -> (r: Result<(), (u16, String)>)
    requires
        registry.wf(),
    ensures
        match r {
            Ok(_) => client_refusal(registry@, caller(auth), client_id@) is None,
            Err(e) => client_refusal(registry@, caller(auth), client_id@) == Some(refusal(e)),
        },
{
    if registry.get_client_view(client_id).is_none() {
        return Err((STATUS_BAD_REQUEST, concat2("unknown shell client: ", client_id)));
    }
    match registry.assert_client_access(auth, client_id) {
        Ok(_) => Ok(()),
        Err(e) => {
            let status: u16 = if contains_text(e.as_str(), "unknown shell client") {
                STATUS_BAD_REQUEST
            } else {
                STATUS_FORBIDDEN
            };
            Err((status, e))
        },
    }
}

/// A look at a job that the caller may use, at `now`. The client that the caller
/// names, where it names one, has to be the one that runs the job.
pub open spec fn job_access(
    m: RegistryModel,
    auth: Option<AuthModel>,
    job_id: Seq<char>,
    requested_client: Option<Seq<char>>,
    now: i64,
) -> (RegistryModel, Result<JobInfoModel, (u16, Seq<char>)>) {
    let (next, found) = m.get_job(None, job_id, now);
    match found {
        Err(e) => (next, Err((STATUS_BAD_REQUEST, e))),
        Ok(job) => if requested_client is Some && requested_client->0 != job.client_id {
            (
                next,
                Err(
                    (
                        STATUS_FORBIDDEN,
                        "job_id "@ + job_id + " belongs to client "@ + job.client_id + ", not "@
                            + requested_client->0,
                    ),
                ),
            )
        } else {
            match client_refusal(next, auth, job.client_id) {
                Some(e) => (next, Err(e)),
                None => (next, Ok(job)),
            }
        },
    }
}

/// A look at a job that the caller may use, at `now`.
pub fn authorize_job_access(
    registry: &mut ShellClientRegistry,
    auth: Option<&AuthContext>,
    job_id: &str,
    requested_client_id: &Option<String>,
    now: i64,
) -> (r: Result<ShellJobInfo, (u16, String)>)
    requires
        old(registry).wf(),
    ensures
        final(registry).wf(),
        (
            final(registry)@,
            match r {
                Ok(job) => Ok(job@),
                Err(e) => Err(refusal(e)),
            },
        ) == job_access(
            old(registry)@,
            caller(auth),
            job_id@,
            opt_text(*requested_client_id),
            now,
        ),
{
    let job = match registry.get_job_at(None, job_id, now) {
        Ok(job) => job,
        Err(e) => {
            return Err((STATUS_BAD_REQUEST, e));
        },
    };
    if let Some(requested) = requested_client_id {
        if !str_eq(requested.as_str(), job.client_id.as_str()) {
            let mut message = concat3("job_id ", job_id, " belongs to client ");
            message.append(job.client_id.as_str());
            message.append(", not ");
            message.append(requested.as_str());
            return Err((STATUS_FORBIDDEN, message));
        }
    }
    match assert_registry_client_owner(registry, auth, job.client_id.as_str()) {
        Ok(_) => Ok(job),
        Err(e) => Err(e),
    }
}

// ---------------------------------------------------------------------------
// Running a command
// ---------------------------------------------------------------------------

/// What became of the wait for an agent.
pub enum WaitOutcome {
    /// The agent answered.
    Answered(ShellRunResponse),
    /// The request was dropped.
    Dropped,
    /// The time to wait was over.
    TimedOut,
}

/// What is kept of a command while its caller waits.
pub struct RunTicket {
    pub request_id: String,
    pub client_id: String,
    pub cwd: Option<String>,
    pub command_preview: String,
    pub wait_timeout_secs: u64,
}

/// The first step of a request to run a command.
pub enum RunStep {
    Done(u16, ShellRunResponse),
    Wait(RunTicket),
}

/// The response that a command did not run.
pub open spec fn run_failure(
    request_id: Seq<char>,
    client_id: Seq<char>,
    cwd: Option<Seq<char>>,
    command_preview: Seq<char>,
    error: Seq<char>,
) -> ResponseModel {
    ResponseModel {
        success: false,
        request_id,
        client_id,
        cwd,
        command_preview,
        exit_code: None,
        stdout: None,
        stderr: None,
        duration_ms: None,
        error: Some(error),
    }
}

/// The response that a command did not run.
pub fn shell_run_error_response(
    request_id: String,
    client_id: String,
    cwd: Option<String>,
    command_preview: String,
    error: String,
) -> (r: ShellRunResponse)
    ensures
        r@ == run_failure(request_id@, client_id@, opt_text(cwd), command_preview@, error@),
{
    ShellRunResponse {
        success: false,
        request_id,
        client_id,
        cwd,
        command_preview,
        exit_code: None,
        stdout: None,
        stderr: None,
        duration_ms: None,
        error: Some(error),
    }
}

/// Why a command is not queued, and the status that says so.
pub open spec fn run_refusal(m: RegistryModel, auth: Option<AuthModel>, b: ShellRunRequest) -> Option<
    (u16, Seq<char>),
> {
    match client_refusal(m, auth, b.client_id@) {
        Some(e) => Some(e),
        None => match or_else(run_request_error(b), m.queue_error(b.client_id@)) {
            Some(e) => Some((STATUS_BAD_REQUEST, e)),
            None => None,
        },
    }
}

/// Takes a request to run a command at `now`; it gets the id `request_id`.
pub fn shell_run_at(
    registry: &mut ShellClientRegistry,
    auth: Option<&AuthContext>,
    body: ShellRunRequest,
    request_id: String,
    now: i64,
) -> (r: RunStep)
    requires
        old(registry).wf(),
        id_error(request_id@, "request_id"@) is None,
    ensures
        final(registry).wf(),
        match run_refusal(old(registry)@, caller(auth), body) {
            Some(e) => {
                &&& final(registry)@ == old(registry)@
                &&& r is Done
                &&& r->Done_0 == e.0
                &&& r->Done_1@ == run_failure(
                    seq![],
                    body.client_id@,
                    opt_text(body.cwd),
                    preview(body.command@),
                    e.1,
                )
            },
            None => {
                &&& final(registry)@ == old(registry)@.enqueue(
                    None,
                    run_request(body, requester(caller(auth)), request_id@, now),
                ).0
                &&& r is Wait
                &&& r->Wait_0.request_id@ == request_id@
                &&& r->Wait_0.client_id@ == body.client_id@
                &&& opt_text(r->Wait_0.cwd) == opt_text(body.cwd)
                &&& r->Wait_0.command_preview@ == preview(body.command@)
                &&& r->Wait_0.wait_timeout_secs == body.wait_timeout_secs
            },
        },
{
    let wait_timeout_secs = body.wait_timeout_secs;
    let client_id = body.client_id.clone();
    let cwd = opt_clone(&body.cwd);
    let shown = command_preview(body.command.as_str());
    let none = String::new();
    assert(none@ =~= seq![]);
    match assert_registry_client_owner(registry, auth, client_id.as_str()) {
        Ok(_) => {},
        Err((status, e)) => {
            return RunStep::Done(status, shell_run_error_response(none, client_id, cwd, shown, e));
        },
    }
    let requested_by = requested_by_from_auth(auth);
    match registry.enqueue_run_at(body, requested_by, request_id, now) {
        Ok(request_id) => RunStep::Wait(
            RunTicket { request_id, client_id, cwd, command_preview: shown, wait_timeout_secs },
        ),
        Err(e) => RunStep::Done(
            STATUS_BAD_REQUEST,
            shell_run_error_response(none, client_id, cwd, shown, e),
        ),
    }
}

/// Takes a request to run a command.
pub fn shell_run(
    registry: &mut ShellClientRegistry,
    auth: Option<&AuthContext>,
    body: ShellRunRequest,
) -> (r: RunStep)
    requires
        old(registry).wf(),
    ensures
        final(registry).wf(),
        match run_refusal(old(registry)@, caller(auth), body) {
            Some(e) => {
                &&& final(registry)@ == old(registry)@
                &&& r is Done
                &&& r->Done_0 == e.0
                &&& r->Done_1@ == run_failure(
                    seq![],
                    body.client_id@,
                    opt_text(body.cwd),
                    preview(body.command@),
                    e.1,
                )
            },
            None => {
                &&& r is Wait
                &&& is_new_id(r->Wait_0.request_id@, "request_id"@)
                &&& exists|now: i64|
                    final(registry)@ == old(registry)@.enqueue(
                        None,
                        #[trigger] run_request(
                            body,
                            requester(caller(auth)),
                            r->Wait_0.request_id@,
                            now,
                        ),
                    ).0
                &&& r->Wait_0.client_id@ == body.client_id@
                &&& opt_text(r->Wait_0.cwd) == opt_text(body.cwd)
                &&& r->Wait_0.command_preview@ == preview(body.command@)
                &&& r->Wait_0.wait_timeout_secs == body.wait_timeout_secs
            },
        },
{
    let request_id = draw_id();
    let now = now_ts();
    shell_run_at(registry, auth, body, request_id, now)
}

/// Ends a request to run a command with what came of the wait. A request whose
/// time is over is dropped.
pub fn shell_run_finish(
    registry: &mut ShellClientRegistry,
    ticket: RunTicket,
    outcome: WaitOutcome,
) -> (r: (u16, ShellRunResponse))
    requires
        old(registry).wf(),
    ensures
        final(registry).wf(),
        final(registry)@ == (if outcome is TimedOut {
            old(registry)@.cancelled(ticket.request_id@)
        } else {
            old(registry)@
        }),
        match outcome {
            WaitOutcome::Answered(response) => r == (STATUS_OK, response),
            WaitOutcome::Dropped => r.0 == STATUS_INTERNAL_SERVER_ERROR && r.1@ == run_failure(
                ticket.request_id@,
                ticket.client_id@,
                opt_text(ticket.cwd),
                ticket.command_preview@,
                "shell request waiter was dropped"@,
            ),
            WaitOutcome::TimedOut => r.0 == STATUS_REQUEST_TIMEOUT && r.1@ == run_failure(
                ticket.request_id@,
                ticket.client_id@,
                opt_text(ticket.cwd),
                ticket.command_preview@,
                "timed out waiting "@ + decimal(ticket.wait_timeout_secs as nat)
                    + " seconds for shell client result"@,
            ),
        },
{
    match outcome {
        WaitOutcome::Answered(response) => (STATUS_OK, response),
        WaitOutcome::Dropped => (
            STATUS_INTERNAL_SERVER_ERROR,
            shell_run_error_response(
                ticket.request_id,
                ticket.client_id,
                ticket.cwd,
                ticket.command_preview,
                "shell request waiter was dropped".to_owned(),
            ),
        ),
        WaitOutcome::TimedOut => {
            registry.cancel_request(ticket.request_id.as_str());
            let secs = decimal_u64(ticket.wait_timeout_secs);
            (
                STATUS_REQUEST_TIMEOUT,
                shell_run_error_response(
                    ticket.request_id,
                    ticket.client_id,
                    ticket.cwd,
                    ticket.command_preview,
                    concat3(
                        "timed out waiting ",
                        secs.as_str(),
                        " seconds for shell client result",
                    ),
                ),
            )
        },
    }
}

// ---------------------------------------------------------------------------
// File operations
// ---------------------------------------------------------------------------

/// What is kept of a file operation while its caller waits.
pub struct FileTicket {
    pub request_id: String,
    pub op: String,
    pub client_id: String,
    pub path: String,
    pub cwd: Option<String>,
    pub content: Option<String>,
    pub wait_timeout_secs: u64,
}

/// The first step of a file request.
pub enum FileStep {
    Done(u16, ShellFileOpResponse),
    Wait(FileTicket),
}

/// The response that a file operation did not run.
pub open spec fn file_failure(
    op: Seq<char>,
    client_id: Seq<char>,
    path: Seq<char>,
    cwd: Option<Seq<char>>,
    error: Seq<char>,
) -> FileResponseModel {
    FileResponseModel {
        success: false,
        op,
        request_id: seq![],
        client_id,
        path,
        cwd,
        content: None,
        entries: seq![],
        bytes: None,
        sha256: None,
        stderr: None,
        error: Some(error),
    }
}

/// The response that a file operation did not run.
pub fn shell_file_error_response(
    op: String,
    client_id: String,
    path: String,
    cwd: Option<String>,
    error: String,
) -> (r: ShellFileOpResponse)
    ensures
        r@ == file_failure(op@, client_id@, path@, opt_text(cwd), error@),
{
    let r = ShellFileOpResponse {
        success: false,
        op,
        request_id: String::new(),
        client_id,
        path,
        cwd,
        content: None,
        entries: Vec::new(),
        bytes: None,
        sha256: None,
        stderr: None,
        error: Some(error),
    };
    assert(r@ =~= file_failure(op@, client_id@, path@, opt_text(cwd), error@));
    r
}

/// Whether the agent carried the operation out.
pub open spec fn run_succeeded(response: ResponseModel) -> bool {
    response.error is None && response.exit_code == Some(0i32)
}

/// What the agent wrote.
pub open spec fn run_output(response: ResponseModel) -> Seq<char> {
    match response.stdout {
        Some(s) => s,
        None => seq![],
    }
}

/// The response to a file request that the agent answered with `response`. A read
/// gives the content, a listing the entries, and a write the number of bytes that
/// the agent reports; a read and a write give the checksum of the content.
pub open spec fn file_response(
    op: Seq<char>,
    path: Seq<char>,
    cwd: Option<Seq<char>>,
    request_content: Option<Seq<char>>,
    response: ResponseModel,
) -> FileResponseModel {
    let success = run_succeeded(response);
    let stdout = run_output(response);
    let read = op == "read"@ && success;
    let write = op == "write"@ && success;
    FileResponseModel {
        success,
        op,
        request_id: response.request_id,
        client_id: response.client_id,
        path,
        cwd,
        content: if read {
            Some(stdout)
        } else {
            None
        },
        entries: if op == "list"@ && success {
            lines_of(stdout)
        } else {
            seq![]
        },
        bytes: if read {
            Some(byte_len(stdout) as usize)
        } else if write {
            match parse_unsigned(trim(stdout), usize::MAX as nat) {
                Some(n) => Some(n as usize),
                None => Some(0usize),
            }
        } else {
            None
        },
        sha256: if read {
            Some(sha256_hex_of(stdout))
        } else if write && request_content is Some {
            Some(sha256_hex_of(request_content->0))
        } else {
            None
        },
        stderr: response.stderr,
        error: response.error,
    }
}

/// The response to a file request that the agent answered. A checksum in it is one
/// that a later request can give as the expected checksum.
pub fn shell_file_response_from_run(
    op: String,
    path: String,
    cwd: Option<String>,
    request_content: Option<String>,
    response: ShellRunResponse,
) -> (r: ShellFileOpResponse)
    ensures
        r@ == file_response(op@, path@, opt_text(cwd), opt_text(request_content), response@),
        sha256_error(opt_text(r.sha256)) is None,
{
    let ghost model = response@;
    let success = response.error.is_none() && match response.exit_code {
        Some(code) => code == 0,
        None => false,
    };
    let stdout = match response.stdout {
        Some(s) => s,
        None => {
            let s = String::new();
            assert(s@ =~= seq![]);
            s
        },
    };
    assert(stdout@ == run_output(model));
    let read = success && str_eq(op.as_str(), "read");
    let write = success && str_eq(op.as_str(), "write");
    let entries = if success && str_eq(op.as_str(), "list") {
        split_lines(stdout.as_str())
    } else {
        Vec::new()
    };
    let bytes: Option<usize> = if read {
        Some(str_byte_len(stdout.as_str()))
    } else if write {
        match parse_u64(str_trim(stdout.as_str()), usize::MAX as u64) {
            Some(n) => Some(n as usize),
            None => Some(0),
        }
    } else {
        None
    };
    let sha256 = if read {
        let digest = sha256_hex(stdout.as_str());
        proof {
            lemma_hex_digest_valid(digest@);
        }
        Some(digest)
    } else if write {
        match &request_content {
            Some(content) => {
                let digest = sha256_hex(content.as_str());
                proof {
                    lemma_hex_digest_valid(digest@);
                }
                Some(digest)
            },
            None => None,
        }
    } else {
        None
    };
    let content = if read {
        Some(stdout)
    } else {
        None
    };
    let r = ShellFileOpResponse {
        success,
        op,
        request_id: response.request_id,
        client_id: response.client_id,
        path,
        cwd,
        content,
        entries,
        bytes,
        sha256,
        stderr: response.stderr,
        error: response.error,
    };
    assert(r@ =~= file_response(op@, path@, opt_text(cwd), opt_text(request_content), model));
    r
}

/// Why a file operation is not queued, and the status that says so.
pub open spec fn file_refusal(m: RegistryModel, auth: Option<AuthModel>, b: ShellFileOpRequest) -> Option<
    (u16, Seq<char>),
> {
    match client_refusal(m, auth, b.client_id@) {
        Some(e) => Some(e),
        None => match or_else(file_request_error(b), m.queue_error(b.client_id@)) {
            Some(e) => Some((STATUS_BAD_REQUEST, e)),
            None => None,
        },
    }
}

/// Takes a file request at `now`; it gets the id `request_id`.
pub fn shell_file_op_at(
    registry: &mut ShellClientRegistry,
    auth: Option<&AuthContext>,
    body: ShellFileOpRequest,
    request_id: String,
    now: i64,
) -> (r: FileStep)
    requires
        old(registry).wf(),
        id_error(request_id@, "request_id"@) is None,
    ensures
        final(registry).wf(),
        match file_refusal(old(registry)@, caller(auth), body) {
            Some(e) => {
                &&& final(registry)@ == old(registry)@
                &&& r is Done
                &&& r->Done_0 == e.0
                &&& r->Done_1@ == file_failure(
                    body.op@,
                    body.client_id@,
                    body.path@,
                    opt_text(body.cwd),
                    e.1,
                )
            },
            None => {
                &&& final(registry)@ == old(registry)@.enqueue(
                    None,
                    file_request(body, requester(caller(auth)), request_id@, now),
                ).0
                &&& r is Wait
                &&& r->Wait_0.request_id@ == request_id@
                &&& r->Wait_0.op@ == body.op@
                &&& r->Wait_0.client_id@ == body.client_id@
                &&& r->Wait_0.path@ == body.path@
                &&& opt_text(r->Wait_0.cwd) == opt_text(body.cwd)
                &&& opt_text(r->Wait_0.content) == opt_text(body.content)
                &&& r->Wait_0.wait_timeout_secs == body.wait_timeout_secs
            },
        },
{
    let op = body.op.clone();
    let client_id = body.client_id.clone();
    let path = body.path.clone();
    let cwd = opt_clone(&body.cwd);
    let content = opt_clone(&body.content);
    let wait_timeout_secs = body.wait_timeout_secs;
    match assert_registry_client_owner(registry, auth, client_id.as_str()) {
        Ok(_) => {},
        Err((status, e)) => {
            return FileStep::Done(status, shell_file_error_response(op, client_id, path, cwd, e));
        },
    }
    let requested_by = requested_by_from_auth(auth);
    match registry.enqueue_file_op_at(body, requested_by, request_id, now) {
        Ok(request_id) => FileStep::Wait(
            FileTicket { request_id, op, client_id, path, cwd, content, wait_timeout_secs },
        ),
        Err(e) => FileStep::Done(
            STATUS_BAD_REQUEST,
            shell_file_error_response(op, client_id, path, cwd, e),
        ),
    }
}

/// Takes a file request.
pub fn shell_file_op(
    registry: &mut ShellClientRegistry,
    auth: Option<&AuthContext>,
    body: ShellFileOpRequest,
) -> (r: FileStep)
    requires
        old(registry).wf(),
    ensures
        final(registry).wf(),
        match file_refusal(old(registry)@, caller(auth), body) {
            Some(e) => {
                &&& final(registry)@ == old(registry)@
                &&& r is Done
                &&& r->Done_0 == e.0
                &&& r->Done_1@ == file_failure(
                    body.op@,
                    body.client_id@,
                    body.path@,
                    opt_text(body.cwd),
                    e.1,
                )
            },
            None => {
                &&& r is Wait
                &&& is_new_id(r->Wait_0.request_id@, "request_id"@)
                &&& exists|now: i64|
                    final(registry)@ == old(registry)@.enqueue(
                        None,
                        #[trigger] file_request(
                            body,
                            requester(caller(auth)),
                            r->Wait_0.request_id@,
                            now,
                        ),
                    ).0
                &&& r->Wait_0.op@ == body.op@
                &&& r->Wait_0.client_id@ == body.client_id@
                &&& r->Wait_0.path@ == body.path@
                &&& opt_text(r->Wait_0.cwd) == opt_text(body.cwd)
                &&& opt_text(r->Wait_0.content) == opt_text(body.content)
                &&& r->Wait_0.wait_timeout_secs == body.wait_timeout_secs
            },
        },
{
    let request_id = draw_id();
    let now = now_ts();
    shell_file_op_at(registry, auth, body, request_id, now)
}

/// Ends a file request with what came of the wait.
pub fn shell_file_op_finish(
    registry: &mut ShellClientRegistry,
    ticket: FileTicket,
    outcome: WaitOutcome,
) -> (r: (u16, ShellFileOpResponse))
    requires
        old(registry).wf(),
    ensures
        final(registry).wf(),
        final(registry)@ == (if outcome is TimedOut {
            old(registry)@.cancelled(ticket.request_id@)
        } else {
            old(registry)@
        }),
        match outcome {
            WaitOutcome::Answered(response) => r.0 == STATUS_OK && r.1@ == file_response(
                ticket.op@,
                ticket.path@,
                opt_text(ticket.cwd),
                opt_text(ticket.content),
                response@,
            ),
            WaitOutcome::Dropped => r.0 == STATUS_INTERNAL_SERVER_ERROR && r.1@ == file_failure(
                ticket.op@,
                ticket.client_id@,
                ticket.path@,
                opt_text(ticket.cwd),
                "shell file request waiter was dropped"@,
            ),
            WaitOutcome::TimedOut => r.0 == STATUS_REQUEST_TIMEOUT && r.1@ == file_failure(
                ticket.op@,
                ticket.client_id@,
                ticket.path@,
                opt_text(ticket.cwd),
                "timed out waiting "@ + decimal(ticket.wait_timeout_secs as nat)
                    + " seconds for shell file result"@,
            ),
        },
{
    match outcome {
        WaitOutcome::Answered(response) => (
            STATUS_OK,
            shell_file_response_from_run(
                ticket.op,
                ticket.path,
                ticket.cwd,
                ticket.content,
                response,
            ),
        ),
        WaitOutcome::Dropped => (
            STATUS_INTERNAL_SERVER_ERROR,
            shell_file_error_response(
                ticket.op,
                ticket.client_id,
                ticket.path,
                ticket.cwd,
                "shell file request waiter was dropped".to_owned(),
            ),
        ),
        WaitOutcome::TimedOut => {
            registry.cancel_request(ticket.request_id.as_str());
            let secs = decimal_u64(ticket.wait_timeout_secs);
            (
                STATUS_REQUEST_TIMEOUT,
                shell_file_error_response(
                    ticket.op,
                    ticket.client_id,
                    ticket.path,
                    ticket.cwd,
                    concat3(
                        "timed out waiting ",
                        secs.as_str(),
                        " seconds for shell file result",
                    ),
                ),
            )
        },
    }
}

// ---------------------------------------------------------------------------
// Jobs
// ---------------------------------------------------------------------------

/// The response that a job request failed.
pub open spec fn job_failure(op: Seq<char>, error: Seq<char>) -> JobResponseModel {
    JobResponseModel {
        success: false,
        op,
        job: None,
        jobs: seq![],
        stdout: None,
        stderr: None,
        next_stdout_line: None,
        next_stderr_line: None,
        error: Some(error),
    }
}

/// The response that tells of one job.
pub open spec fn job_success(op: Seq<char>, job: JobInfoModel) -> JobResponseModel {
    JobResponseModel {
        success: true,
        op,
        job: Some(job),
        jobs: seq![],
        stdout: None,
        stderr: None,
        next_stdout_line: None,
        next_stderr_line: None,
        error: None,
    }
}

/// The response that tells of several jobs.
pub open spec fn jobs_success(op: Seq<char>, jobs: Seq<JobInfoModel>) -> JobResponseModel {
    JobResponseModel {
        success: true,
        op,
        job: None,
        jobs,
        stdout: None,
        stderr: None,
        next_stdout_line: None,
        next_stderr_line: None,
        error: None,
    }
}

/// The response that a job request failed.
pub fn shell_job_error_response(op: String, error: String) -> (r: ShellJobOpResponse)
    ensures
        r@ == job_failure(op@, error@),
{
    let r = ShellJobOpResponse {
        success: false,
        op,
        job: None,
        jobs: Vec::new(),
        stdout: None,
        stderr: None,
        next_stdout_line: None,
        next_stderr_line: None,
        error: Some(error),
    };
    assert(r@ =~= job_failure(op@, error@));
    r
}

fn shell_job_response(op: String, job: ShellJobInfo) -> (r: ShellJobOpResponse)
    ensures
        r@ == job_success(op@, job@),
{
    let r = ShellJobOpResponse {
        success: true,
        op,
        job: Some(job),
        jobs: Vec::new(),
        stdout: None,
        stderr: None,
        next_stdout_line: None,
        next_stderr_line: None,
        error: None,
    };
    assert(r@ =~= job_success(op@, job@));
    r
}

/// The status and the response for a job or a complaint.
pub open spec fn job_answer(op: Seq<char>, r: Result<JobInfoModel, (u16, Seq<char>)>) -> (
    u16,
    JobResponseModel,
) {
    match r {
        Ok(job) => (STATUS_OK, job_success(op, job)),
        Err(e) => (e.0, job_failure(op, e.1)),
    }
}

/// A complaint of the registry as a refusal.
pub open spec fn bad_request<T>(r: Result<T, Seq<char>>) -> Result<T, (u16, Seq<char>)> {
    match r {
        Ok(v) => Ok(v),
        Err(e) => Err((STATUS_BAD_REQUEST, e)),
    }
}

/// The start of a job for a caller.
pub open spec fn job_start_answer(
    m: RegistryModel,
    auth: Option<AuthModel>,
    b: ShellJobOpRequest,
    run: ShellRunRequest,
    request_id: Seq<char>,
    job_id: Seq<char>,
    now: i64,
) -> (RegistryModel, (u16, JobResponseModel)) {
    if b.client_id is None {
        (m, (STATUS_BAD_REQUEST, job_failure(b.op@, "client_id is required for op=start"@)))
    } else {
        match client_refusal(m, auth, b.client_id->0@) {
            Some(e) => (m, (e.0, job_failure(b.op@, e.1))),
            None => {
                let (next, r) = m.start_job(b, run, requester(auth), request_id, job_id, now);
                (next, job_answer(b.op@, bad_request(r)))
            },
        }
    }
}

/// A look at a job for a caller.
pub open spec fn job_status_answer(
    m: RegistryModel,
    auth: Option<AuthModel>,
    b: ShellJobOpRequest,
    now: i64,
) -> (RegistryModel, (u16, JobResponseModel)) {
    if b.job_id is None {
        (m, (STATUS_BAD_REQUEST, job_failure(b.op@, "job_id is required for op=status"@)))
    } else {
        let (next, r) = job_access(m, auth, b.job_id->0@, None, now);
        (next, job_answer(b.op@, r))
    }
}

/// A look at the log of a job for a caller.
pub open spec fn job_log_answer(
    m: RegistryModel,
    auth: Option<AuthModel>,
    b: ShellJobOpRequest,
    now: i64,
) -> (RegistryModel, (u16, JobResponseModel)) {
    if b.job_id is None {
        (m, (STATUS_BAD_REQUEST, job_failure(b.op@, "job_id is required for op=log"@)))
    } else {
        let (seen, access) = job_access(m, auth, b.job_id->0@, None, now);
        match access {
            Err(e) => (seen, (e.0, job_failure(b.op@, e.1))),
            Ok(_) => {
                let (next, log) = seen.job_log(
                    None,
                    b.job_id->0@,
                    b.since_stdout_line,
                    b.since_stderr_line,
                    b.tail_lines,
                    now,
                );
                (
                    next,
                    match log {
                        Err(e) => (STATUS_BAD_REQUEST, job_failure(b.op@, e)),
                        Ok(t) => (
                            STATUS_OK,
                            JobResponseModel {
                                stdout: t.1,
                                stderr: t.2,
                                next_stdout_line: Some(t.3),
                                next_stderr_line: Some(t.4),
                                ..job_success(b.op@, t.0)
                            },
                        ),
                    },
                )
            },
        }
    }
}

/// The stop of a job for a caller.
pub open spec fn job_stop_answer(
    m: RegistryModel,
    auth: Option<AuthModel>,
    b: ShellJobOpRequest,
    stop_id: Seq<char>,
    now: i64,
) -> (RegistryModel, (u16, JobResponseModel)) {
    if b.job_id is None {
        (m, (STATUS_BAD_REQUEST, job_failure(b.op@, "job_id is required for op=stop"@)))
    } else {
        let (seen, access) = job_access(m, auth, b.job_id->0@, None, now);
        match access {
            Err(e) => (seen, (e.0, job_failure(b.op@, e.1))),
            Ok(_) => {
                let (next, r) = seen.stop_job(b.job_id->0@, requester(auth), stop_id, now);
                (next, job_answer(b.op@, bad_request(r)))
            },
        }
    }
}

/// Whether the caller may use the client.
pub open spec fn may_use(m: RegistryModel, auth: Option<AuthModel>, client_id: Seq<char>) -> bool {
    ||| auth is Some && auth->0.is_admin()
    ||| m.clients.contains_key(client_id) && access_error(auth, m.clients[client_id]) is None
}

/// The jobs of clients that the caller may use, in their order.
pub open spec fn usable_jobs(m: RegistryModel, auth: Option<AuthModel>, jobs: Seq<JobInfoModel>) -> Seq<
    JobInfoModel,
>
    decreases jobs.len(),
{
    if jobs.len() == 0 {
        seq![]
    } else if may_use(m, auth, jobs.last().client_id) {
        usable_jobs(m, auth, jobs.drop_last()).push(jobs.last())
    } else {
        usable_jobs(m, auth, jobs.drop_last())
    }
}

/// At most `n` of the jobs, from the front.
pub open spec fn at_most(jobs: Seq<JobInfoModel>, n: int) -> Seq<JobInfoModel> {
    if jobs.len() <= n {
        jobs
    } else {
        jobs.take(n)
    }
}

/// Whether `next` and `answer` are what a job request leads to at `now`.
pub open spec fn job_op_leads_to(
    m: RegistryModel,
    auth: Option<AuthModel>,
    b: ShellJobOpRequest,
    request_id: Seq<char>,
    job_id: Seq<char>,
    now: i64,
    next: RegistryModel,
    answer: (u16, JobResponseModel),
) -> bool {
    if b.op@ == "start"@ {
        exists|run: ShellRunRequest| #[trigger]
            is_job_run(b, run) && (next, answer) == job_start_answer(
                m,
                auth,
                b,
                run,
                request_id,
                job_id,
                now,
            )
    } else if b.op@ == "status"@ {
        (next, answer) == job_status_answer(m, auth, b, now)
    } else if b.op@ == "list"@ {
        &&& next == m.refreshed_all(now)
        &&& answer.0 == STATUS_OK
        &&& exists|jobs: Seq<JobInfoModel>| #[trigger]
            is_limited_listing(
                next,
                None,
                None,
                None,
                Some(100usize),
                now,
                jobs,
            ) && answer.1 == jobs_success(
                b.op@,
                at_most(usable_jobs(next, auth, jobs), listing_limit(b.limit)),
            )
    } else if b.op@ == "log"@ {
        (next, answer) == job_log_answer(m, auth, b, now)
    } else if b.op@ == "stop"@ {
        (next, answer) == job_stop_answer(m, auth, b, request_id, now)
    } else {
        &&& next == m
        &&& answer == (
            STATUS_BAD_REQUEST,
            job_failure(b.op@, "op must be one of start, status, log, stop, list"@),
        )
    }
}

fn job_start(
    registry: &mut ShellClientRegistry,
    auth: Option<&AuthContext>,
    body: ShellJobOpRequest,
    request_id: String,
    job_id: String,
    now: i64,
) -> (r: (u16, ShellJobOpResponse))
    requires
        old(registry).wf(),
        id_error(request_id@, "request_id"@) is None,
        id_error(job_id@, "job_id"@) is None,
    ensures
        final(registry).wf(),
        exists|run: ShellRunRequest| #[trigger]
            is_job_run(body, run) && (final(registry)@, (r.0, r.1@)) == job_start_answer(
                old(registry)@,
                caller(auth),
                body,
                run,
                request_id@,
                job_id@,
                now,
            ),
{
    let op = body.op.clone();
    let ghost some_run = ShellRunRequest {
        client_id: if body.client_id is Some {
            body.client_id->0
        } else {
            op
        },
        cwd: body.cwd,
        command: if body.command is Some {
            body.command->0
        } else {
            op
        },
        stdin: None,
        timeout_secs: crate::shell_client::model::job_timeout(body),
        wait_timeout_secs: 0,
    };
    assert(is_job_run(body, some_run));
    let Some(client_id) = &body.client_id else {
        return (
            STATUS_BAD_REQUEST,
            shell_job_error_response(op, "client_id is required for op=start".to_owned()),
        );
    };
    match assert_registry_client_owner(registry, auth, client_id.as_str()) {
        Ok(_) => {},
        Err((status, e)) => {
            return (status, shell_job_error_response(op, e));
        },
    }
    let requested_by = requested_by_from_auth(auth);
    match registry.start_job_at(body, requested_by, request_id, job_id, now) {
        Ok(job) => (STATUS_OK, shell_job_response(op, job)),
        Err(e) => (STATUS_BAD_REQUEST, shell_job_error_response(op, e)),
    }
}

fn job_status(
    registry: &mut ShellClientRegistry,
    auth: Option<&AuthContext>,
    body: ShellJobOpRequest,
    now: i64,
) -> (r: (u16, ShellJobOpResponse))
    requires
        old(registry).wf(),
    ensures
        final(registry).wf(),
        (final(registry)@, (r.0, r.1@)) == job_status_answer(
            old(registry)@,
            caller(auth),
            body,
            now,
        ),
{
    let op = body.op.clone();
    let Some(job_id) = &body.job_id else {
        return (
            STATUS_BAD_REQUEST,
            shell_job_error_response(op, "job_id is required for op=status".to_owned()),
        );
    };
    match authorize_job_access(registry, auth, job_id.as_str(), &None, now) {
        Ok(job) => (STATUS_OK, shell_job_response(op, job)),
        Err((status, e)) => (status, shell_job_error_response(op, e)),
    }
}

fn job_list(
    registry: &mut ShellClientRegistry,
    auth: Option<&AuthContext>,
    body: ShellJobOpRequest,
    now: i64,
) -> (r: (u16, ShellJobOpResponse))
    requires
        old(registry).wf(),
        body.op@ == "list"@,
    ensures
        final(registry).wf(),
        job_op_leads_to(
            old(registry)@,
            caller(auth),
            body,
            seq![],
            seq![],
            now,
            final(registry)@,
            (r.0, r.1@),
        ),
{
    let listed = registry.list_jobs_at(None, Some(100), now);
    let ghost m = registry@;
    let ghost all = views(listed@);
    let admin = match auth {
        Some(a) => a.is_admin(),
        None => false,
    };
    let mut jobs: Vec<ShellJobInfo> = Vec::new();
    let mut i: usize = 0;
    assert(views(jobs@) =~= usable_jobs(m, caller(auth), all.take(0)));
    while i < listed.len()
        invariant
            i <= listed@.len(),
            registry.wf(),
            m == registry@,
            all == views(listed@),
            admin == (caller(auth) is Some && caller(auth)->0.is_admin()),
            views(jobs@) == usable_jobs(m, caller(auth), all.take(i as int)),
        decreases listed@.len() - i,
    {
        proof {
            assert(all.take(i + 1).drop_last() =~= all.take(i as int));
            assert(all.take(i + 1).last() == listed@[i as int]@);
        }
        let ghost before = views(jobs@);
        if admin || registry.assert_client_access(auth, listed[i].client_id.as_str()).is_ok() {
            jobs.push(listed[i].copy());
            assert(views(jobs@) =~= before.push(listed@[i as int]@));
        }
        i = i + 1;
    }
    assert(all.take(i as int) =~= all);
    let limit: usize = match body.limit {
        Some(n) => if n < 1 {
            1
        } else if n > 100 {
            100
        } else {
            n
        },
        None => 20,
    };
    let ghost usable = views(jobs@);
    if jobs.len() > limit {
        jobs.truncate(limit);
        assert(views(jobs@) =~= usable.take(limit as int));
    }
    let r = ShellJobOpResponse {
        success: true,
        op: body.op,
        job: None,
        jobs,
        stdout: None,
        stderr: None,
        next_stdout_line: None,
        next_stderr_line: None,
        error: None,
    };
    assert(r@ =~= jobs_success(body.op@, at_most(usable, listing_limit(body.limit))));
    proof {
        reveal_strlit("list");
        reveal_strlit("start");
        reveal_strlit("status");
        assert("list"@.len() == 4 && "start"@.len() == 5 && "status"@.len() == 6);
        assert(is_limited_listing(m, None, None, None, Some(100usize), now, all));
        assert(r@ == jobs_success(
            body.op@,
            at_most(usable_jobs(m, caller(auth), all), listing_limit(body.limit)),
        ));
    }
    (STATUS_OK, r)
}

fn job_log(
    registry: &mut ShellClientRegistry,
    auth: Option<&AuthContext>,
    body: ShellJobOpRequest,
    now: i64,
) -> (r: (u16, ShellJobOpResponse))
    requires
        old(registry).wf(),
    ensures
        final(registry).wf(),
        (final(registry)@, (r.0, r.1@)) == job_log_answer(old(registry)@, caller(auth), body, now),
{
    let op = body.op.clone();
    let Some(job_id) = &body.job_id else {
        return (
            STATUS_BAD_REQUEST,
            shell_job_error_response(op, "job_id is required for op=log".to_owned()),
        );
    };
    match authorize_job_access(registry, auth, job_id.as_str(), &None, now) {
        Ok(_) => {},
        Err((status, e)) => {
            return (status, shell_job_error_response(op, e));
        },
    }
    match registry.job_log_at(
        None,
        job_id.as_str(),
        body.since_stdout_line,
        body.since_stderr_line,
        body.tail_lines,
        now,
    ) {
        Ok((job, stdout, stderr, next_stdout_line, next_stderr_line)) => {
            let mut response = shell_job_response(op, job);
            response.stdout = stdout;
            response.stderr = stderr;
            response.next_stdout_line = Some(next_stdout_line);
            response.next_stderr_line = Some(next_stderr_line);
            (STATUS_OK, response)
        },
        Err(e) => (STATUS_BAD_REQUEST, shell_job_error_response(op, e)),
    }
}

fn job_stop(
    registry: &mut ShellClientRegistry,
    auth: Option<&AuthContext>,
    body: ShellJobOpRequest,
    stop_id: String,
    now: i64,
) -> (r: (u16, ShellJobOpResponse))
    requires
        old(registry).wf(),
        id_error(stop_id@, "request_id"@) is None,
    ensures
        final(registry).wf(),
        (final(registry)@, (r.0, r.1@)) == job_stop_answer(
            old(registry)@,
            caller(auth),
            body,
            stop_id@,
            now,
        ),
{
    let op = body.op.clone();
    let Some(job_id) = &body.job_id else {
        return (
            STATUS_BAD_REQUEST,
            shell_job_error_response(op, "job_id is required for op=stop".to_owned()),
        );
    };
    match authorize_job_access(registry, auth, job_id.as_str(), &None, now) {
        Ok(_) => {},
        Err((status, e)) => {
            return (status, shell_job_error_response(op, e));
        },
    }
    let requested_by = requested_by_from_auth(auth);
    match registry.stop_job_at(job_id.as_str(), requested_by, stop_id, now) {
        Ok(job) => (STATUS_OK, shell_job_response(op, job)),
        Err(e) => (STATUS_BAD_REQUEST, shell_job_error_response(op, e)),
    }
}

/// Takes a job request at `now`. A job that it starts gets the id `job_id`, and a
/// request that it queues the id `request_id`.
pub fn shell_job_at(
    registry: &mut ShellClientRegistry,
    auth: Option<&AuthContext>,
    body: ShellJobOpRequest,
    request_id: String,
    job_id: String,
    now: i64,
) -> (r: (u16, ShellJobOpResponse))
    requires
        old(registry).wf(),
        id_error(request_id@, "request_id"@) is None,
        id_error(job_id@, "job_id"@) is None,
    ensures
        final(registry).wf(),
        job_op_leads_to(
            old(registry)@,
            caller(auth),
            body,
            request_id@,
            job_id@,
            now,
            final(registry)@,
            (r.0, r.1@),
        ),
{
    proof {
        reveal_strlit("start");
        reveal_strlit("status");
        reveal_strlit("list");
        reveal_strlit("log");
        reveal_strlit("stop");
    }
    if str_eq(body.op.as_str(), "start") {
        job_start(registry, auth, body, request_id, job_id, now)
    } else if str_eq(body.op.as_str(), "status") {
        job_status(registry, auth, body, now)
    } else if str_eq(body.op.as_str(), "list") {
        job_list(registry, auth, body, now)
    } else if str_eq(body.op.as_str(), "log") {
        job_log(registry, auth, body, now)
    } else if str_eq(body.op.as_str(), "stop") {
        job_stop(registry, auth, body, request_id, now)
    } else {
        (
            STATUS_BAD_REQUEST,
            shell_job_error_response(
                body.op,
                "op must be one of start, status, log, stop, list".to_owned(),
            ),
        )
    }
}

/// Takes a job request.
pub fn shell_job(
    registry: &mut ShellClientRegistry,
    auth: Option<&AuthContext>,
    body: ShellJobOpRequest,
) -> (r: (u16, ShellJobOpResponse))
    requires
        old(registry).wf(),
    ensures
        final(registry).wf(),
        exists|request_id: Seq<char>, job_id: Seq<char>, now: i64|
            is_new_id(request_id, "request_id"@) && is_new_id(job_id, "job_id"@)
                && #[trigger] job_op_leads_to(
                old(registry)@,
                caller(auth),
                body,
                request_id,
                job_id,
                now,
                final(registry)@,
                (r.0, r.1@),
            ),
{
    let request_id = draw_id();
    let job_id = draw_id();
    let now = now_ts();
    shell_job_at(registry, auth, body, request_id, job_id, now)
}

// ---------------------------------------------------------------------------
// One question, one answer
// ---------------------------------------------------------------------------

/// The response that tells the status of a job.
pub open spec fn status_success(job: JobInfoModel) -> JobStatusModel {
    JobStatusModel {
        success: true,
        job_id: Some(job.job_id),
        client_id: Some(job.client_id),
        kind: Some(job.kind),
        status: Some(job.status),
        elapsed_secs: job.elapsed_secs,
        exit_code: job.exit_code,
        result: job.result,
        job: Some(job),
        error: None,
    }
}

/// The response that the status of a job is not told.
pub open spec fn status_failure(error: Seq<char>) -> JobStatusModel {
    JobStatusModel {
        success: false,
        job_id: None,
        client_id: None,
        kind: None,
        status: None,
        elapsed_secs: None,
        exit_code: None,
        result: None,
        job: None,
        error: Some(error),
    }
}

/// The response that tells the status of a job.
pub fn shell_job_status_response_from_job(job: ShellJobInfo) -> (r: ShellClientJobStatusResponse)
    ensures
        r@ == status_success(job@),
{
    ShellClientJobStatusResponse {
        success: true,
        job_id: Some(job.job_id.clone()),
        client_id: Some(job.client_id.clone()),
        kind: Some(job.kind.clone()),
        status: Some(job.status.clone()),
        elapsed_secs: job.elapsed_secs,
        exit_code: job.exit_code,
        result: match &job.result {
            Some(result) => Some(result.copy()),
            None => None,
        },
        job: Some(job),
        error: None,
    }
}

/// The response that the status of a job is not told.
pub fn shell_job_status_error_response(error: String) -> (r: ShellClientJobStatusResponse)
    ensures
        r@ == status_failure(error@),
{
    ShellClientJobStatusResponse {
        success: false,
        job_id: None,
        client_id: None,
        kind: None,
        status: None,
        elapsed_secs: None,
        exit_code: None,
        result: None,
        job: None,
        error: Some(error),
    }
}

/// The answer to a question for the status of a job.
pub open spec fn status_answer(
    m: RegistryModel,
    auth: Option<AuthModel>,
    b: ShellClientJobStatusRequest,
    now: i64,
) -> (RegistryModel, (u16, JobStatusModel)) {
    let (next, access) = job_access(m, auth, b.job_id@, opt_text(b.client_id), now);
    (
        next,
        match access {
            Ok(job) => (STATUS_OK, status_success(job)),
            Err(e) => (e.0, status_failure(e.1)),
        },
    )
}

/// Answers a question for the status of a job at `now`.
pub fn shell_job_status_at(
    registry: &mut ShellClientRegistry,
    auth: Option<&AuthContext>,
    body: ShellClientJobStatusRequest,
    now: i64,
) -> (r: (u16, ShellClientJobStatusResponse))
    requires
        old(registry).wf(),
    ensures
        final(registry).wf(),
        (final(registry)@, (r.0, r.1@)) == status_answer(old(registry)@, caller(auth), body, now),
{
    match authorize_job_access(registry, auth, body.job_id.as_str(), &body.client_id, now) {
        Ok(job) => (STATUS_OK, shell_job_status_response_from_job(job)),
        Err((status, e)) => (status, shell_job_status_error_response(e)),
    }
}

/// Answers a question for the status of a job.
pub fn shell_job_status(
    registry: &mut ShellClientRegistry,
    auth: Option<&AuthContext>,
    body: ShellClientJobStatusRequest,
) -> (r: (u16, ShellClientJobStatusResponse))
    requires
        old(registry).wf(),
    ensures
        final(registry).wf(),
        exists|now: i64|
            (final(registry)@, (r.0, r.1@)) == #[trigger] status_answer(
                old(registry)@,
                caller(auth),
                body,
                now,
            ),
{
    let now = now_ts();
    shell_job_status_at(registry, auth, body, now)
}

/// The response that the log of a job is not told.
pub open spec fn log_failure(error: Seq<char>) -> JobLogModel {
    JobLogModel {
        success: false,
        job_id: None,
        client_id: None,
        stdout_tail: None,
        stderr_tail: None,
        next_stdout_line: None,
        next_stderr_line: None,
        job: None,
        error: Some(error),
    }
}

/// The response that the log of a job is not told.
pub fn shell_job_log_error_response(error: String) -> (r: ShellClientJobLogResponse)
    ensures
        r@ == log_failure(error@),
{
    ShellClientJobLogResponse {
        success: false,
        job_id: None,
        client_id: None,
        stdout_tail: None,
        stderr_tail: None,
        next_stdout_line: None,
        next_stderr_line: None,
        job: None,
        error: Some(error),
    }
}

/// The answer to a question for the log of a job.
pub open spec fn log_answer(
    m: RegistryModel,
    auth: Option<AuthModel>,
    b: ShellClientJobLogRequest,
    now: i64,
) -> (RegistryModel, (u16, JobLogModel)) {
    let (seen, access) = job_access(m, auth, b.job_id@, opt_text(b.client_id), now);
    match access {
        Err(e) => (seen, (e.0, log_failure(e.1))),
        Ok(_) => {
            let (next, log) = seen.job_log(
                None,
                b.job_id@,
                b.since_stdout_line,
                b.since_stderr_line,
                b.tail_lines,
                now,
            );
            (
                next,
                match log {
                    Err(e) => (STATUS_BAD_REQUEST, log_failure(e)),
                    Ok(t) => (
                        STATUS_OK,
                        JobLogModel {
                            success: true,
                            job_id: Some(t.0.job_id),
                            client_id: Some(t.0.client_id),
                            stdout_tail: t.1,
                            stderr_tail: t.2,
                            next_stdout_line: Some(t.3),
                            next_stderr_line: Some(t.4),
                            job: Some(t.0),
                            error: None,
                        },
                    ),
                },
            )
        },
    }
}

/// Answers a question for the log of a job at `now`.
pub fn shell_job_log_at(
    registry: &mut ShellClientRegistry,
    auth: Option<&AuthContext>,
    body: ShellClientJobLogRequest,
    now: i64,
) -> (r: (u16, ShellClientJobLogResponse))
    requires
        old(registry).wf(),
    ensures
        final(registry).wf(),
        (final(registry)@, (r.0, r.1@)) == log_answer(old(registry)@, caller(auth), body, now),
{
    match authorize_job_access(registry, auth, body.job_id.as_str(), &body.client_id, now) {
        Ok(_) => {},
        Err((status, e)) => {
            return (status, shell_job_log_error_response(e));
        },
    }
    match registry.job_log_at(
        None,
        body.job_id.as_str(),
        body.since_stdout_line,
        body.since_stderr_line,
        body.tail_lines,
        now,
    ) {
        Ok((job, stdout_tail, stderr_tail, next_stdout_line, next_stderr_line)) => (
            STATUS_OK,
            ShellClientJobLogResponse {
                success: true,
                job_id: Some(job.job_id.clone()),
                client_id: Some(job.client_id.clone()),
                stdout_tail,
                stderr_tail,
                next_stdout_line: Some(next_stdout_line),
                next_stderr_line: Some(next_stderr_line),
                job: Some(job),
                error: None,
            },
        ),
        Err(e) => (STATUS_BAD_REQUEST, shell_job_log_error_response(e)),
    }
}

/// Answers a question for the log of a job.
pub fn shell_job_log(
    registry: &mut ShellClientRegistry,
    auth: Option<&AuthContext>,
    body: ShellClientJobLogRequest,
) -> (r: (u16, ShellClientJobLogResponse))
    requires
        old(registry).wf(),
    ensures
        final(registry).wf(),
        exists|now: i64|
            (final(registry)@, (r.0, r.1@)) == #[trigger] log_answer(
                old(registry)@,
                caller(auth),
                body,
                now,
            ),
{
    let now = now_ts();
    shell_job_log_at(registry, auth, body, now)
}

/// The response that a job is not stopped.
pub open spec fn stop_failure(error: Seq<char>) -> JobStopModel {
    JobStopModel { success: false, job_id: None, status: None, job: None, error: Some(error) }
}

/// The response that a job is not stopped.
pub fn shell_job_stop_error_response(error: String) -> (r: ShellClientJobStopResponse)
    ensures
        r@ == stop_failure(error@),
{
    ShellClientJobStopResponse {
        success: false,
        job_id: None,
        status: None,
        job: None,
        error: Some(error),
    }
}

/// The answer to a request to stop a job.
pub open spec fn stop_answer(
    m: RegistryModel,
    auth: Option<AuthModel>,
    b: ShellClientJobStopRequest,
    stop_id: Seq<char>,
    now: i64,
) -> (RegistryModel, (u16, JobStopModel)) {
    let (seen, access) = job_access(m, auth, b.job_id@, opt_text(b.client_id), now);
    match access {
        Err(e) => (seen, (e.0, stop_failure(e.1))),
        Ok(_) => {
            let (next, r) = seen.stop_job(b.job_id@, requester(auth), stop_id, now);
            (
                next,
                match r {
                    Ok(job) => (
                        STATUS_OK,
                        JobStopModel {
                            success: true,
                            job_id: Some(job.job_id),
                            status: Some(job.status),
                            job: Some(job),
                            error: None,
                        },
                    ),
                    Err(e) => (STATUS_BAD_REQUEST, stop_failure(e)),
                },
            )
        },
    }
}

/// Answers a request to stop a job at `now`; a request to the agent gets the id
/// `stop_id`.
pub fn shell_job_stop_at(
    registry: &mut ShellClientRegistry,
    auth: Option<&AuthContext>,
    body: ShellClientJobStopRequest,
    stop_id: String,
    now: i64,
) -> (r: (u16, ShellClientJobStopResponse))
    requires
        old(registry).wf(),
        id_error(stop_id@, "request_id"@) is None,
    ensures
        final(registry).wf(),
        (final(registry)@, (r.0, r.1@)) == stop_answer(
            old(registry)@,
            caller(auth),
            body,
            stop_id@,
            now,
        ),
{
    match authorize_job_access(registry, auth, body.job_id.as_str(), &body.client_id, now) {
        Ok(_) => {},
        Err((status, e)) => {
            return (status, shell_job_stop_error_response(e));
        },
    }
    let requested_by = requested_by_from_auth(auth);
    match registry.stop_job_at(body.job_id.as_str(), requested_by, stop_id, now) {
        Ok(job) => (
            STATUS_OK,
            ShellClientJobStopResponse {
                success: true,
                job_id: Some(job.job_id.clone()),
                status: Some(job.status.clone()),
                job: Some(job),
                error: None,
            },
        ),
        Err(e) => (STATUS_BAD_REQUEST, shell_job_stop_error_response(e)),
    }
}

/// Answers a request to stop a job.
pub fn shell_job_stop(
    registry: &mut ShellClientRegistry,
    auth: Option<&AuthContext>,
    body: ShellClientJobStopRequest,
) -> (r: (u16, ShellClientJobStopResponse))
    requires
        old(registry).wf(),
    ensures
        final(registry).wf(),
        exists|stop_id: Seq<char>, now: i64|
            is_new_id(stop_id, "request_id"@) && (final(registry)@, (r.0, r.1@)) == #[trigger] stop_answer(
                old(registry)@,
                caller(auth),
                body,
                stop_id,
                now,
            ),
{
    let stop_id = draw_id();
    let now = now_ts();
    shell_job_stop_at(registry, auth, body, stop_id, now)
}

/// The response that the jobs of a client are not listed.
pub open spec fn list_failure(client_id: Seq<char>, error: Seq<char>) -> JobsListModel {
    JobsListModel { success: false, client_id, jobs: seq![], error: Some(error) }
}

/// The response that the jobs of a client are not listed.
pub fn shell_jobs_list_error_response(client_id: String, error: String) -> (r:
    ShellClientJobsListResponse)
    ensures
        r@ == list_failure(client_id@, error@),
{
    let r = ShellClientJobsListResponse {
        success: false,
        client_id,
        jobs: Vec::new(),
        error: Some(error),
    };
    assert(r@ =~= list_failure(client_id@, error@));
    r
}

/// Why the jobs of a client are not listed, and the status that says so.
pub open spec fn list_refusal(
    m: RegistryModel,
    auth: Option<AuthModel>,
    client_id: Seq<char>,
) -> Option<(u16, Seq<char>)> {
    match client_refusal(m, auth, client_id) {
        Some(e) => Some(e),
        None => match id_error(client_id, "client_id"@) {
            Some(e) => Some((STATUS_BAD_REQUEST, e)),
            None => None,
        },
    }
}

/// Answers a question for the jobs of a client at `now`.
pub fn shell_jobs_list_at(
    registry: &mut ShellClientRegistry,
    auth: Option<&AuthContext>,
    body: ShellClientJobsListRequest,
    now: i64,
) -> (r: (u16, ShellClientJobsListResponse))
    requires
        old(registry).wf(),
    ensures
        final(registry).wf(),
        match list_refusal(old(registry)@, caller(auth), body.client_id@) {
            Some(e) => final(registry)@ == old(registry)@ && (r.0, r.1@) == (
                e.0,
                list_failure(body.client_id@, e.1),
            ),
            None => {
                &&& final(registry)@ == old(registry)@.refreshed_all(now)
                &&& r.0 == STATUS_OK
                &&& r.1.success
                &&& r.1.client_id@ == body.client_id@
                &&& r.1.error is None
                &&& is_client_jobs(final(registry)@, body, now, views(r.1.jobs@))
            },
        },
{
    let client_id = body.client_id.clone();
    match assert_registry_client_owner(registry, auth, client_id.as_str()) {
        Ok(_) => {},
        Err((status, e)) => {
            return (status, shell_jobs_list_error_response(client_id, e));
        },
    }
    let status = match &body.status {
        Some(s) => Some(s.as_str()),
        None => None,
    };
    match registry.list_jobs_for_client_at(client_id.as_str(), status, body.limit, now) {
        Ok(jobs) => {
            assert(is_client_jobs(registry@, body, now, views(jobs@)));
            (
                STATUS_OK,
                ShellClientJobsListResponse { success: true, client_id, jobs, error: None },
            )
        },
        Err(e) => (STATUS_BAD_REQUEST, shell_jobs_list_error_response(client_id, e)),
    }
}

/// Whether `jobs` are the latest jobs of the client that a request names, with the
/// status that it names.
pub open spec fn is_client_jobs(
    m: RegistryModel,
    b: ShellClientJobsListRequest,
    now: i64,
    jobs: Seq<JobInfoModel>,
) -> bool {
    is_limited_listing(m, None, Some(b.client_id@), opt_text(b.status), b.limit, now, jobs)
}

/// Answers a question for the jobs of a client.
pub fn shell_jobs_list(
    registry: &mut ShellClientRegistry,
    auth: Option<&AuthContext>,
    body: ShellClientJobsListRequest,
) -> (r: (u16, ShellClientJobsListResponse))
    requires
        old(registry).wf(),
    ensures
        final(registry).wf(),
        match list_refusal(old(registry)@, caller(auth), body.client_id@) {
            Some(e) => final(registry)@ == old(registry)@ && (r.0, r.1@) == (
                e.0,
                list_failure(body.client_id@, e.1),
            ),
            None => {
                &&& r.0 == STATUS_OK
                &&& r.1.success
                &&& r.1.client_id@ == body.client_id@
                &&& r.1.error is None
                &&& exists|now: i64|
                    final(registry)@ == #[trigger] old(registry)@.refreshed_all(now)
                        && is_client_jobs(final(registry)@, body, now, views(r.1.jobs@))
            },
        },
{
    let now = now_ts();
    shell_jobs_list_at(registry, auth, body, now)
}

} // verus!
