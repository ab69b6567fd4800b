//! What the audit log keeps of the requests that callers make.
use crate::json::{
    boolean, field, no_fields, null, number, opt_text_json, opt_text_tree, signed, text,
    text_array, text_trees, unsigned, Json, ObjectBuilder, Tree,
};
use crate::shell_client::protocol::{
    FileResponseModel, JobInfoModel, JobLogModel, JobResponseModel, JobStatusModel, JobStopModel,
    JobsListModel, ResponseModel, ShellClientJobLogResponse, ShellClientJobStatusResponse,
    ShellClientJobStopResponse, ShellClientJobsListResponse, ShellFileOpResponse, ShellJobInfo,
    ShellJobOpResponse, ShellRunResponse,
};
use crate::text::{lemma_texts_push, opt_clone, opt_text, texts, views};
use vstd::prelude::*;

verus! {

/// What the audit log keeps of a request.
#[derive(Debug, PartialEq, Eq)]
pub struct ActionAuditRecord {
    pub action: String,
    pub success: bool,
    pub http_status: u16,
    pub error: Option<String>,
    pub ids: Json,
    pub summary: Json,
}

/// The mathematical value of an [`ActionAuditRecord`].
#[verifier::ext_equal]
pub struct AuditModel {
    pub action: Seq<char>,
    pub success: bool,
    pub http_status: u16,
    pub error: Option<Seq<char>>,
    pub ids: Tree,
    pub summary: Tree,
}

impl View for ActionAuditRecord {
    type V = AuditModel;

    open spec fn view(&self) -> AuditModel {
        AuditModel {
            action: self.action@,
            success: self.success,
            http_status: self.http_status,
            error: opt_text(self.error),
            ids: self.ids@,
            summary: self.summary@,
        }
    }
}

/// An exit code, or null.
pub open spec fn opt_code_tree(v: Option<i32>) -> Tree {
    match v {
        Some(n) => Tree::Number(n as int),
        None => Tree::Null,
    }
}

fn opt_code_json(v: Option<i32>) -> (r: Json)
    ensures
        r@ == opt_code_tree(v),
{
    match v {
        Some(n) => signed(n as i64),
        None => null(),
    }
}

/// A number, or null.
pub open spec fn opt_u64_tree(v: Option<u64>) -> Tree {
    match v {
        Some(n) => Tree::Number(n as int),
        None => Tree::Null,
    }
}

fn opt_u64_json(v: Option<u64>) -> (r: Json)
    ensures
        r@ == opt_u64_tree(v),
{
    match v {
        Some(n) => unsigned(n),
        None => null(),
    }
}

/// A count, or null.
pub open spec fn opt_usize_tree(v: Option<usize>) -> Tree {
    match v {
        Some(n) => Tree::Number(n as int),
        None => Tree::Null,
    }
}

fn opt_usize_json(v: Option<usize>) -> (r: Json)
    ensures
        r@ == opt_usize_tree(v),
{
    match v {
        Some(n) => number(n),
        None => null(),
    }
}

/// A run as it is kept.
pub open spec fn run_record(r: ResponseModel, http_status: u16) -> AuditModel {
    AuditModel {
        action: "run"@,
        success: r.success,
        http_status,
        error: r.error,
        ids: Tree::Object(
            no_fields()
                .push(field("request_id"@, Tree::Text(r.request_id))),
        ),
        summary: Tree::Object(
            no_fields()
                .push(field("client_id"@, Tree::Text(r.client_id)))
                .push(field("cwd"@, opt_text_tree(r.cwd)))
                .push(field("command_preview"@, Tree::Text(r.command_preview)))
                .push(field("exit_code"@, opt_code_tree(r.exit_code)))
                .push(field("duration_ms"@, opt_u64_tree(r.duration_ms))),
        ),
    }
}

/// A run as it is kept.
pub fn record_shell_run_action(response: &ShellRunResponse, http_status: u16) -> (r: ActionAuditRecord)
    ensures
        r@ == run_record(response@, http_status),
{
    ActionAuditRecord {
        action: "run".to_owned(),
        success: response.success,
        http_status,
        error: opt_clone(&response.error),
        ids: ObjectBuilder::new()
            .with("request_id", text(response.request_id.as_str()))
            .build(),
        summary: ObjectBuilder::new()
            .with("client_id", text(response.client_id.as_str()))
            .with("cwd", opt_text_json(&response.cwd))
            .with("command_preview", text(response.command_preview.as_str()))
            .with("exit_code", opt_code_json(response.exit_code))
            .with("duration_ms", opt_u64_json(response.duration_ms))
            .build(),
    }
}

/// A file operation as it is kept.
pub open spec fn file_record(r: FileResponseModel, http_status: u16) -> AuditModel {
    AuditModel {
        action: r.op,
        success: r.success,
        http_status,
        error: r.error,
        ids: Tree::Object(
            no_fields()
                .push(field("request_id"@, Tree::Text(r.request_id))),
        ),
        summary: Tree::Object(
            no_fields()
                .push(field("client_id"@, Tree::Text(r.client_id)))
                .push(field("path"@, Tree::Text(r.path)))
                .push(field("cwd"@, opt_text_tree(r.cwd)))
                .push(field("bytes"@, opt_usize_tree(r.bytes)))
                .push(field("sha256"@, opt_text_tree(r.sha256)))
                .push(field("entries_count"@, Tree::Number(r.entries.len() as int))),
        ),
    }
}

/// A file operation as it is kept.
pub fn record_shell_file_action(response: &ShellFileOpResponse, http_status: u16) -> (r: ActionAuditRecord)
    ensures
        r@ == file_record(response@, http_status),
{
    ActionAuditRecord {
        action: response.op.clone(),
        success: response.success,
        http_status,
        error: opt_clone(&response.error),
        ids: ObjectBuilder::new()
            .with("request_id", text(response.request_id.as_str()))
            .build(),
        summary: ObjectBuilder::new()
            .with("client_id", text(response.client_id.as_str()))
            .with("path", text(response.path.as_str()))
            .with("cwd", opt_text_json(&response.cwd))
            .with("bytes", opt_usize_json(response.bytes))
            .with("sha256", opt_text_json(&response.sha256))
            .with("entries_count", number(response.entries.len()))
            .build(),
    }
}

/// A question for the state of a job as it is kept.
pub open spec fn job_status_record(r: JobStatusModel, http_status: u16) -> AuditModel {
    AuditModel {
        action: "shell_job_status"@,
        success: r.success,
        http_status,
        error: r.error,
        ids: Tree::Object(
            no_fields()
                .push(field("job_id"@, opt_text_tree(r.job_id)))
                .push(field("client_id"@, opt_text_tree(r.client_id))),
        ),
        summary: Tree::Object(
            no_fields()
                .push(field("kind"@, opt_text_tree(r.kind)))
                .push(field("status"@, opt_text_tree(r.status)))
                .push(field("exit_code"@, opt_code_tree(r.exit_code)))
                .push(field("elapsed_secs"@, opt_u64_tree(r.elapsed_secs))),
        ),
    }
}

/// A question for the state of a job as it is kept.
pub fn record_shell_job_status_action(response: &ShellClientJobStatusResponse, http_status: u16) -> (r: ActionAuditRecord)
    ensures
        r@ == job_status_record(response@, http_status),
{
    ActionAuditRecord {
        action: "shell_job_status".to_owned(),
        success: response.success,
        http_status,
        error: opt_clone(&response.error),
        ids: ObjectBuilder::new()
            .with("job_id", opt_text_json(&response.job_id))
            .with("client_id", opt_text_json(&response.client_id))
            .build(),
        summary: ObjectBuilder::new()
            .with("kind", opt_text_json(&response.kind))
            .with("status", opt_text_json(&response.status))
            .with("exit_code", opt_code_json(response.exit_code))
            .with("elapsed_secs", opt_u64_json(response.elapsed_secs))
            .build(),
    }
}

/// A question for the log of a job as it is kept.
pub open spec fn job_log_record(r: JobLogModel, http_status: u16) -> AuditModel {
    AuditModel {
        action: "shell_job_log"@,
        success: r.success,
        http_status,
        error: r.error,
        ids: Tree::Object(
            no_fields()
                .push(field("job_id"@, opt_text_tree(r.job_id)))
                .push(field("client_id"@, opt_text_tree(r.client_id))),
        ),
        summary: Tree::Object(
            no_fields()
                .push(field("stdout_included"@, Tree::Bool(r.stdout_tail is Some)))
                .push(field("stderr_included"@, Tree::Bool(r.stderr_tail is Some)))
                .push(field("next_stdout_line"@, opt_usize_tree(r.next_stdout_line)))
                .push(field("next_stderr_line"@, opt_usize_tree(r.next_stderr_line))),
        ),
    }
}

/// A question for the log of a job as it is kept.
pub fn record_shell_job_log_action(response: &ShellClientJobLogResponse, http_status: u16) -> (r: ActionAuditRecord)
    ensures
        r@ == job_log_record(response@, http_status),
{
    ActionAuditRecord {
        action: "shell_job_log".to_owned(),
        success: response.success,
        http_status,
        error: opt_clone(&response.error),
        ids: ObjectBuilder::new()
            .with("job_id", opt_text_json(&response.job_id))
            .with("client_id", opt_text_json(&response.client_id))
            .build(),
        summary: ObjectBuilder::new()
            .with("stdout_included", boolean(response.stdout_tail.is_some()))
            .with("stderr_included", boolean(response.stderr_tail.is_some()))
            .with("next_stdout_line", opt_usize_json(response.next_stdout_line))
            .with("next_stderr_line", opt_usize_json(response.next_stderr_line))
            .build(),
    }
}

/// A request to stop a job as it is kept.
pub open spec fn job_stop_record(r: JobStopModel, http_status: u16) -> AuditModel {
    AuditModel {
        action: "shell_job_stop"@,
        success: r.success,
        http_status,
        error: r.error,
        ids: Tree::Object(
            no_fields()
                .push(field("job_id"@, opt_text_tree(r.job_id))),
        ),
        summary: Tree::Object(
            no_fields()
                .push(field("status"@, opt_text_tree(r.status))),
        ),
    }
}

/// A request to stop a job as it is kept.
pub fn record_shell_job_stop_action(response: &ShellClientJobStopResponse, http_status: u16) -> (r: ActionAuditRecord)
    ensures
        r@ == job_stop_record(response@, http_status),
{
    ActionAuditRecord {
        action: "shell_job_stop".to_owned(),
        success: response.success,
        http_status,
        error: opt_clone(&response.error),
        ids: ObjectBuilder::new()
            .with("job_id", opt_text_json(&response.job_id))
            .build(),
        summary: ObjectBuilder::new()
            .with("status", opt_text_json(&response.status))
            .build(),
    }
}

/// A question for the jobs of a client as it is kept.
pub open spec fn jobs_list_record(r: JobsListModel, http_status: u16) -> AuditModel {
    AuditModel {
        action: "shell_job_list"@,
        success: r.success,
        http_status,
        error: r.error,
        ids: Tree::Object(
            no_fields()
                .push(field("client_id"@, Tree::Text(r.client_id))),
        ),
        summary: Tree::Object(
            no_fields()
                .push(field("jobs_count"@, Tree::Number(r.jobs.len() as int))),
        ),
    }
}

/// A question for the jobs of a client as it is kept.
pub fn record_shell_jobs_list_action(response: &ShellClientJobsListResponse, http_status: u16) -> (r: ActionAuditRecord)
    ensures
        r@ == jobs_list_record(response@, http_status),
{
    ActionAuditRecord {
        action: "shell_job_list".to_owned(),
        success: response.success,
        http_status,
        error: opt_clone(&response.error),
        ids: ObjectBuilder::new()
            .with("client_id", text(response.client_id.as_str()))
            .build(),
        summary: ObjectBuilder::new()
            .with("jobs_count", number(response.jobs.len()))
            .build(),
    }
}

/// The ids of jobs.
pub open spec fn job_ids(jobs: Seq<JobInfoModel>) -> Seq<Seq<char>> {
    Seq::new(jobs.len(), |i: int| jobs[i].job_id)
}

fn ids_of_jobs(jobs: &Vec<ShellJobInfo>) -> (r: Vec<String>)
    ensures
        texts(r@) == job_ids(views(jobs@)),
{
    broadcast use lemma_texts_push;

    let ghost all = job_ids(views(jobs@));
    let mut out: Vec<String> = Vec::new();
    let mut i: usize = 0;
    assert(texts(out@) =~= all.take(0));
    while i < jobs.len()
        invariant
            i <= jobs@.len(),
            all == job_ids(views(jobs@)),
            texts(out@) == all.take(i as int),
        decreases jobs@.len() - i,
    {
        assert(all.take(i + 1) =~= all.take(i as int).push(jobs@[i as int]@.job_id));
        out.push(jobs[i].job_id.clone());
        i = i + 1;
    }
    assert(all.take(i as int) =~= all);
    out
}

/// The id of a job, or null.
pub open spec fn job_id_tree(job: Option<JobInfoModel>) -> Tree {
    match job {
        Some(j) => Tree::Text(j.job_id),
        None => Tree::Null,
    }
}

/// The state of a job, or null.
pub open spec fn job_status_tree(job: Option<JobInfoModel>) -> Tree {
    match job {
        Some(j) => Tree::Text(j.status),
        None => Tree::Null,
    }
}

/// The client of a job, or null.
pub open spec fn job_client_tree(job: Option<JobInfoModel>) -> Tree {
    match job {
        Some(j) => Tree::Text(j.client_id),
        None => Tree::Null,
    }
}

/// A job operation as it is kept.
pub open spec fn job_record(r: JobResponseModel, http_status: u16) -> AuditModel {
    AuditModel {
        action: r.op,
        success: r.success,
        http_status,
        error: r.error,
        ids: Tree::Object(
            no_fields()
                .push(field("job_id"@, job_id_tree(r.job)))
                .push(field("job_ids"@, text_trees(job_ids(r.jobs)))),
        ),
        summary: Tree::Object(
            no_fields()
                .push(field("job_status"@, job_status_tree(r.job)))
                .push(field("client_id"@, job_client_tree(r.job)))
                .push(field("jobs_count"@, Tree::Number(r.jobs.len() as int)))
                .push(field("stdout_included"@, Tree::Bool(r.stdout is Some)))
                .push(field("stderr_included"@, Tree::Bool(r.stderr is Some))),
        ),
    }
}

/// A job operation as it is kept.
pub fn record_shell_job_action(response: &ShellJobOpResponse, http_status: u16) -> (r:
    ActionAuditRecord)
    ensures
        r@ == job_record(response@, http_status),
{
    let (job_id, status, client) = match &response.job {
        Some(j) => (
            text(j.job_id.as_str()),
            text(j.status.as_str()),
            text(j.client_id.as_str()),
        ),
        None => (null(), null(), null()),
    };
    let ids = ids_of_jobs(&response.jobs);
    ActionAuditRecord {
        action: response.op.clone(),
        success: response.success,
        http_status,
        error: opt_clone(&response.error),
        ids: ObjectBuilder::new().with("job_id", job_id).with("job_ids", text_array(&ids)).build(),
        summary: ObjectBuilder::new()
            .with("job_status", status)
            .with("client_id", client)
            .with("jobs_count", number(response.jobs.len()))
            .with("stdout_included", boolean(response.stdout.is_some()))
            .with("stderr_included", boolean(response.stderr.is_some()))
            .build(),
    }
}

// ---------------------------------------------------------------------------
// Laws
// ---------------------------------------------------------------------------

/// What commands print and what files hold is not kept: of two answers that differ only
/// in that, the same is kept.
pub proof fn law_outputs_are_not_kept(
    run: ResponseModel,
    other_run: ResponseModel,
    file: FileResponseModel,
    other_file: FileResponseModel,
    http_status: u16,
)
    requires
        other_run == (ResponseModel { stdout: other_run.stdout, stderr: other_run.stderr, ..run }),
        other_file == (FileResponseModel {
            content: other_file.content,
            stderr: other_file.stderr,
            ..file
        }),
    ensures
        run_record(other_run, http_status) == run_record(run, http_status),
        file_record(other_file, http_status) == file_record(file, http_status),
{
}

/// Of what jobs print only whether it was told is kept.
pub proof fn law_job_outputs_are_not_kept(
    job: JobResponseModel,
    other_job: JobResponseModel,
    log: JobLogModel,
    other_log: JobLogModel,
    http_status: u16,
)
    requires
        other_job == (JobResponseModel { stdout: other_job.stdout, stderr: other_job.stderr, ..job }),
        job.stdout is Some == other_job.stdout is Some,
        job.stderr is Some == other_job.stderr is Some,
        other_log == (JobLogModel {
            stdout_tail: other_log.stdout_tail,
            stderr_tail: other_log.stderr_tail,
            ..log
        }),
        log.stdout_tail is Some == other_log.stdout_tail is Some,
        log.stderr_tail is Some == other_log.stderr_tail is Some,
    ensures
        job_record(other_job, http_status) == job_record(job, http_status),
        job_log_record(other_log, http_status) == job_log_record(log, http_status),
{
}

} // verus!
