//! What the audit log keeps of each answer.
use crate::json::{lemma_find_push, Tree};
use crate::shell_client::audit::{
    file_record, job_log_record, job_record, job_status_record, job_stop_record, jobs_list_record,
    run_record,
};
use crate::shell_client::protocol::{
    FileResponseModel, JobLogModel, JobResponseModel, JobStatusModel, JobStopModel, JobsListModel,
    ResponseModel,
};
use vstd::prelude::*;

verus! {

broadcast use lemma_find_push;

/// Of a run it is kept who ran what where, how it ended and how long it took.
pub proof fn law_runs_are_kept(r: ResponseModel, status: u16)
    ensures
        ({
            let a = run_record(r, status);
            &&& a.action == "run"@
            &&& a.success == r.success && a.http_status == status && a.error == r.error
            &&& a.ids.at("request_id"@) == Tree::Text(r.request_id)
            &&& a.summary.at("client_id"@) == Tree::Text(r.client_id)
            &&& a.summary.at("cwd"@) == match r.cwd {
                Some(c) => Tree::Text(c),
                None => Tree::Null,
            }
            &&& a.summary.at("command_preview"@) == Tree::Text(r.command_preview)
            &&& a.summary.at("exit_code"@) == match r.exit_code {
                Some(c) => Tree::Number(c as int),
                None => Tree::Null,
            }
            &&& a.summary.at("duration_ms"@) == match r.duration_ms {
                Some(d) => Tree::Number(d as int),
                None => Tree::Null,
            }
        }),
{
    reveal_strlit("client_id");
    reveal_strlit("cwd");
    reveal_strlit("command_preview");
    reveal_strlit("exit_code");
    reveal_strlit("duration_ms");
    assert("client_id"@.len() == 9 && "client_id"@[0] == 'c');
    assert("cwd"@.len() == 3);
    assert("command_preview"@.len() == 15);
    assert("exit_code"@.len() == 9 && "exit_code"@[0] == 'e');
    assert("duration_ms"@.len() == 11);
}

/// Of a file operation it is kept which file it was about, how large the file is and its
/// checksum.
pub proof fn law_file_ops_are_kept(r: FileResponseModel, status: u16)
    ensures
        ({
            let a = file_record(r, status);
            &&& a.action == r.op
            &&& a.success == r.success && a.http_status == status && a.error == r.error
            &&& a.ids.at("request_id"@) == Tree::Text(r.request_id)
            &&& a.summary.at("client_id"@) == Tree::Text(r.client_id)
            &&& a.summary.at("path"@) == Tree::Text(r.path)
            &&& a.summary.at("bytes"@) == match r.bytes {
                Some(n) => Tree::Number(n as int),
                None => Tree::Null,
            }
            &&& a.summary.at("sha256"@) == match r.sha256 {
                Some(s) => Tree::Text(s),
                None => Tree::Null,
            }
            &&& a.summary.at("entries_count"@) == Tree::Number(r.entries.len() as int)
        }),
{
    reveal_strlit("client_id");
    reveal_strlit("path");
    reveal_strlit("cwd");
    reveal_strlit("bytes");
    reveal_strlit("sha256");
    reveal_strlit("entries_count");
    assert("client_id"@.len() == 9);
    assert("path"@.len() == 4);
    assert("cwd"@.len() == 3);
    assert("bytes"@.len() == 5);
    assert("sha256"@.len() == 6);
    assert("entries_count"@.len() == 13);
}

/// Of what is done with jobs it is kept with which job, how it stands, and whether output
/// was told.
pub proof fn law_job_answers_are_kept(
    s: JobStatusModel,
    l: JobLogModel,
    p: JobStopModel,
    j: JobsListModel,
    o: JobResponseModel,
    status: u16,
)
    ensures
        ({
            let a = job_status_record(s, status);
            &&& a.success == s.success && a.http_status == status && a.error == s.error
            &&& a.ids.at("job_id"@) == match s.job_id {
                Some(id) => Tree::Text(id),
                None => Tree::Null,
            }
            &&& a.summary.at("status"@) == match s.status {
                Some(w) => Tree::Text(w),
                None => Tree::Null,
            }
        }),
        ({
            let a = job_log_record(l, status);
            &&& a.success == l.success && a.http_status == status && a.error == l.error
            &&& a.ids.at("job_id"@) == match l.job_id {
                Some(id) => Tree::Text(id),
                None => Tree::Null,
            }
            &&& a.summary.at("stdout_included"@) == Tree::Bool(l.stdout_tail is Some)
            &&& a.summary.at("stderr_included"@) == Tree::Bool(l.stderr_tail is Some)
        }),
        ({
            let a = job_stop_record(p, status);
            &&& a.success == p.success && a.http_status == status && a.error == p.error
            &&& a.ids.at("job_id"@) == match p.job_id {
                Some(id) => Tree::Text(id),
                None => Tree::Null,
            }
            &&& a.summary.at("status"@) == match p.status {
                Some(w) => Tree::Text(w),
                None => Tree::Null,
            }
        }),
        ({
            let a = jobs_list_record(j, status);
            &&& a.success == j.success && a.http_status == status && a.error == j.error
            &&& a.ids.at("client_id"@) == Tree::Text(j.client_id)
            &&& a.summary.at("jobs_count"@) == Tree::Number(j.jobs.len() as int)
        }),
        ({
            let a = job_record(o, status);
            &&& a.action == o.op
            &&& a.success == o.success && a.http_status == status && a.error == o.error
            &&& a.ids.at("job_id"@) == match o.job {
                Some(job) => Tree::Text(job.job_id),
                None => Tree::Null,
            }
            &&& a.summary.at("job_status"@) == match o.job {
                Some(job) => Tree::Text(job.status),
                None => Tree::Null,
            }
            &&& a.summary.at("client_id"@) == match o.job {
                Some(job) => Tree::Text(job.client_id),
                None => Tree::Null,
            }
            &&& a.summary.at("jobs_count"@) == Tree::Number(o.jobs.len() as int)
            &&& a.summary.at("stdout_included"@) == Tree::Bool(o.stdout is Some)
            &&& a.summary.at("stderr_included"@) == Tree::Bool(o.stderr is Some)
        }),
{
    reveal_strlit("job_id");
    reveal_strlit("client_id");
    reveal_strlit("kind");
    reveal_strlit("status");
    reveal_strlit("exit_code");
    reveal_strlit("elapsed_secs");
    reveal_strlit("stdout_included");
    reveal_strlit("stderr_included");
    reveal_strlit("next_stdout_line");
    reveal_strlit("next_stderr_line");
    reveal_strlit("jobs_count");
    reveal_strlit("job_ids");
    reveal_strlit("job_status");
    assert("job_id"@.len() == 6 && "job_id"@[0] == 'j');
    assert("client_id"@.len() == 9 && "client_id"@[0] == 'c');
    assert("kind"@.len() == 4);
    assert("status"@.len() == 6 && "status"@[0] == 's');
    assert("exit_code"@.len() == 9 && "exit_code"@[0] == 'e');
    assert("elapsed_secs"@.len() == 12);
    assert("stdout_included"@.len() == 15 && "stdout_included"@[3] == 'o');
    assert("stderr_included"@.len() == 15 && "stderr_included"@[3] == 'e');
    assert("next_stdout_line"@.len() == 16 && "next_stdout_line"@[8] == 'o');
    assert("next_stderr_line"@.len() == 16 && "next_stderr_line"@[8] == 'e');
    assert("jobs_count"@.len() == 10 && "jobs_count"@[3] == 's');
    assert("job_ids"@.len() == 7);
    assert("job_status"@.len() == 10 && "job_status"@[3] == '_');
}

} // verus!
