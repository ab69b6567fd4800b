//! What becomes of a job from its start to its end, and what is told of it.
use crate::shell_client::access::{access_error, AuthModel};
use crate::shell_client::jobs::{appended, is_final, is_with_agent, replaced};
use crate::shell_client::model::{is_job_run, RegistryModel};
use crate::shell_client::protocol::{
    JobInfoModel, ShellAgentJobUpdateRequest, ShellAgentPollRequest, ShellAgentResultRequest,
    ShellJobOpRequest, ShellRunRequest,
};
use crate::shell_client::requests::{job_log_answer, job_status_answer, job_stop_answer};
use crate::shell_client::round_trips::{
    answers_for, keeps_output, law_commands_are_shown, law_output_is_kept, lemma_kinds_differ,
    polls_for, shows_command,
};
use crate::shell_client::state::JobModel;
use crate::shell_client::validation::{id_error, instance_error, run_request_error};
use crate::text::{opt_text, opt_view, trim};
use vstd::prelude::*;

verus! {

/// A job has ended in exactly these words, and an agent has it in exactly those.
pub proof fn law_status_words(status: Seq<char>)
    ensures
        is_final(status) <==> (status == "completed"@ || status == "failed"@ || status
            == "stopped"@ || status == "timeout"@ || status == "lost"@),
        is_with_agent(status) <==> (status == "agent_queued"@ || status == "running"@ || status
            == "stop_requested"@),
{
}

// ---------------------------------------------------------------------------
// What is told
// ---------------------------------------------------------------------------

/// Whether `info` tells of the job as it stands. What it ended with is told beside the
/// rest, and again in sum once it has ended.
pub open spec fn tells_job(job: JobModel, now: i64, info: JobInfoModel) -> bool {
    &&& info.job_id == job.job_id
    &&& info.request_id == job.request_id
    &&& info.client_id == job.client_id
    &&& info.kind == job.kind
    &&& info.cwd == job.cwd
    &&& info.command_preview == job.command_preview
    &&& info.status == job.status
    &&& info.created_at == job.created_at
    &&& info.started_at == job.started_at
    &&& info.ended_at == job.ended_at
    &&& info.exit_code == job.exit_code
    &&& info.duration_ms == job.duration_ms
    &&& info.error == job.error
    &&& info.codex == job.codex
    &&& info.project_id == job.project_id
    &&& job.duration_ms is Some ==> info.elapsed_secs == Some((job.duration_ms->0 / 1000) as u64)
    &&& job.duration_ms is None && job.started_at is None ==> info.elapsed_secs is None
    &&& job.duration_ms is None && job.started_at is Some ==> {
        let end = match job.ended_at {
            Some(t) => t,
            None => now,
        };
        0 <= end - job.started_at->0 <= i64::MAX ==> info.elapsed_secs == Some(
            (end - job.started_at->0) as u64,
        )
    }
    &&& (info.result is Some) == (job.status == "completed"@ || job.status == "failed"@
        || job.status == "stopped"@ || job.status == "timeout"@ || job.status == "lost"@)
    &&& info.result is Some ==> {
        &&& info.result->0.shell is Some
        &&& info.result->0.shell->0.cwd == job.cwd
        &&& info.result->0.shell->0.command_preview == job.command_preview
        &&& info.result->0.shell->0.exit_code == job.exit_code
        &&& info.result->0.shell->0.duration_ms == job.duration_ms
        &&& info.result->0.shell->0.error == job.error
    }
}

/// A look at a job that is there tells of it as it stands; where its client has gone away
/// with it, it is lost from then on.
pub proof fn law_job_is_told(m: RegistryModel, job_id: Seq<char>, now: i64)
    requires
        id_error(job_id, "job_id"@) is None,
        m.jobs.contains_key(job_id),
    ensures
        ({
            let (next, told) = m.get_job(None, job_id, now);
            let job = m.jobs[job_id];
            let left = (job.status == "agent_queued"@ || job.status == "running"@ || job.status
                == "stop_requested"@) && !m.connected(job.client_id, now);
            &&& told is Ok
            &&& tells_job(next.jobs[job_id], now, told->Ok_0)
            &&& !left ==> next.jobs[job_id] == job
            &&& left ==> {
                &&& next.jobs[job_id].status == "lost"@
                &&& next.jobs[job_id].ended_at == Some(now)
                &&& next.jobs[job_id].error == Some(
                    "shell client went stale while job was running"@,
                )
            }
            &&& next.clients == m.clients && next.pending == m.pending && next.queues == m.queues
        }),
{
}

/// A look at a job that is not there finds none.
pub proof fn law_missing_job_is_unknown(m: RegistryModel, job_id: Seq<char>, now: i64)
    requires
        id_error(job_id, "job_id"@) is None,
        !m.jobs.contains_key(job_id),
    ensures
        m.get_job(None, job_id, now).1 == Err::<JobInfoModel, Seq<char>>(
            "unknown shell job: "@ + job_id,
        ),
        m.get_job(None, job_id, now).0 == m,
{
}

// ---------------------------------------------------------------------------
// From the start to the end
// ---------------------------------------------------------------------------

/// A job goes the whole way. It waits as queued; the agent that polls gets its command, its
/// directory and its time, and has it from then on; and the result that the agent hands in
/// is what the job ended with.
pub proof fn law_job_is_carried(
    m: RegistryModel,
    b: ShellJobOpRequest,
    run: ShellRunRequest,
    requested_by: Seq<char>,
    request_id: Seq<char>,
    job_id: Seq<char>,
    poll: ShellAgentPollRequest,
    result: ShellAgentResultRequest,
    now: i64,
    polled_at: i64,
    completed_at: i64,
)
    requires
        m.consistent(),
        is_job_run(b, run),
        m.start_job(b, run, requested_by, request_id, job_id, now).1 is Ok,
        polls_for(m, run.client_id@, poll),
        m.queue_of(run.client_id@).len() == 0,
        answers_for(m, run.client_id@, request_id, result),
        id_error(job_id, "job_id"@) is None,
    ensures
        ({
            let (started, first) = m.start_job(b, run, requested_by, request_id, job_id, now);
            let (polled, got) = started.poll(poll, polled_at);
            let (done, told) = polled.complete(result, completed_at);
            let request = got->Ok_0->0;
            let queued = first->Ok_0;
            let ended = done.jobs[job_id];
            &&& b.client_id is Some && b.command is Some
            &&& queued.job_id == job_id
            &&& queued.request_id == Some(request_id)
            &&& queued.client_id == b.client_id->0@
            &&& queued.kind == "shell"@
            &&& queued.status == "queued"@
            &&& queued.created_at == now
            &&& queued.cwd == opt_text(b.cwd)
            &&& shows_command(b.command->0@, queued.command_preview)
            &&& queued.codex == opt_view(b.codex)
            &&& queued.started_at is None && queued.ended_at is None && queued.exit_code is None
            &&& queued.error is None && queued.result is None
            &&& got is Ok && got->Ok_0 is Some
            &&& request.request_id == request_id
            &&& request.client_id == b.client_id->0@
            &&& request.kind == "start_job"@
            &&& request.job_id == Some(job_id)
            &&& request.command == b.command->0@
            &&& request.cwd == match b.cwd {
                Some(c) => Some(trim(c@)),
                None => None,
            }
            &&& request.timeout_secs == match b.timeout_secs {
                Some(t) => t,
                None => 120,
            }
            &&& request.requested_by == requested_by
            &&& request.created_at == now
            &&& polled.jobs[job_id].status == "agent_queued"@
            &&& polled.jobs[job_id].started_at == Some(polled_at)
            &&& told is Ok && told->Ok_0 is None
            &&& ended.status == if result.error is None && result.exit_code == Some(0i32) {
                "completed"@
            } else {
                "failed"@
            }
            &&& ended.job_id == job_id
            &&& ended.client_id == b.client_id->0@
            &&& ended.request_id == Some(request_id)
            &&& ended.created_at == now
            &&& ended.started_at == Some(polled_at)
            &&& ended.ended_at == Some(completed_at)
            &&& ended.exit_code == result.exit_code
            &&& ended.duration_ms == result.duration_ms
            &&& ended.error == opt_text(result.error)
            &&& keeps_output(opt_text(result.stdout), ended.stdout)
            &&& keeps_output(opt_text(result.stderr), ended.stderr)
        }),
{
    lemma_kinds_differ(seq![]);
    let started = m.start_job(b, run, requested_by, request_id, job_id, now).0;
    assert(started.queues[run.client_id@] =~= seq![request_id]);
    law_output_is_kept(opt_text(result.stdout));
    law_output_is_kept(opt_text(result.stderr));
    law_commands_are_shown(run.command@);
    assert(!is_final("queued"@)) by {
    reveal_strlit("queued");
    reveal_strlit("completed");
    reveal_strlit("failed");
    reveal_strlit("stopped");
    reveal_strlit("timeout");
    reveal_strlit("lost");
    assert("queued"@.len() == 6 && "queued"@[0] == 'q');
    assert("completed"@.len() == 9);
    assert("failed"@.len() == 6 && "failed"@[0] == 'f');
    assert("stopped"@.len() == 7 && "stopped"@[0] == 's');
    assert("timeout"@.len() == 7 && "timeout"@[0] == 't');
    assert("lost"@.len() == 4);
    }
}

/// A job is taken exactly where it names a client and a command that could be run, and the
/// client is registered, can run jobs and has room for one more request; else nothing
/// changes.
pub proof fn law_jobs_taken(
    m: RegistryModel,
    b: ShellJobOpRequest,
    run: ShellRunRequest,
    requested_by: Seq<char>,
    request_id: Seq<char>,
    job_id: Seq<char>,
    now: i64,
)
    requires
        is_job_run(b, run),
    ensures
        ({
            let (next, told) = m.start_job(b, run, requested_by, request_id, job_id, now);
            let c = m.clients[run.client_id@];
            &&& told is Ok <==> {
                &&& b.client_id is Some
                &&& b.command is Some
                &&& run_request_error(run) is None
                &&& m.clients.contains_key(run.client_id@)
                &&& c.capabilities.async_jobs || c.capabilities.async_shell_jobs
                &&& m.queue_of(run.client_id@).len() < 256
            }
            &&& told is Err ==> next == m
        }),
{
}

// ---------------------------------------------------------------------------
// Reports
// ---------------------------------------------------------------------------

/// Whether the agent that holds the lease reports on a job of its client that has not
/// ended.
pub open spec fn reports_on(m: RegistryModel, b: ShellAgentJobUpdateRequest) -> bool {
    &&& id_error(b.client_id@, "client_id"@) is None
    &&& id_error(b.job_id@, "job_id"@) is None
    &&& instance_error(b.agent_instance_id@) is None
    &&& m.clients.contains_key(b.client_id@)
    &&& m.clients[b.client_id@].agent_instance_id == b.agent_instance_id@
    &&& m.jobs.contains_key(b.job_id@)
    &&& m.jobs[b.job_id@].client_id == b.client_id@
    &&& !(m.jobs[b.job_id@].status == "completed"@ || m.jobs[b.job_id@].status == "failed"@
        || m.jobs[b.job_id@].status == "stopped"@ || m.jobs[b.job_id@].status == "timeout"@
        || m.jobs[b.job_id@].status == "lost"@)
}

/// What an output holds after a report: a tail takes the place of what was there, and a
/// chunk goes behind it.
pub open spec fn reported_output(
    before: Option<Seq<char>>,
    tail: Option<Seq<char>>,
    chunk: Option<Seq<char>>,
    after: Option<Seq<char>>,
) -> bool {
    match (tail, chunk) {
        (None, None) => after == before,
        (Some(t), None) => keeps_output(Some(t), after),
        (None, Some(c)) => keeps_output(
            Some(
                match before {
                    Some(b) => b + c,
                    None => c,
                },
            ),
            after,
        ),
        (Some(t), Some(c)) => exists|kept: Seq<char>|
            keeps_output(Some(t), Some(kept)) && #[trigger] keeps_output(Some(kept + c), after),
    }
}

proof fn lemma_output_reported(
    before: Option<Seq<char>>,
    tail: Option<Seq<char>>,
    chunk: Option<Seq<char>>,
)
    ensures
        reported_output(before, tail, chunk, appended(replaced(before, tail), chunk)),
{
    let kept = replaced(before, tail);
    law_output_is_kept(tail);
    if chunk is Some {
        if kept is Some {
            law_output_is_kept(Some(kept->0 + chunk->0));
            if tail is Some {
                assert(keeps_output(Some(kept->0 + chunk->0), appended(kept, chunk)));
            }
        } else {
            law_output_is_kept(chunk);
        }
    }
}

/// A report with a word in which a job has ended ends it: with that word, and with the exit
/// code, the duration and the error that it holds. Nothing waits for the job any more.
pub proof fn law_final_report_ends_job(
    m: RegistryModel,
    b: ShellAgentJobUpdateRequest,
    now: i64,
)
    requires
        reports_on(m, b),
        b.status@ == "completed"@ || b.status@ == "failed"@ || b.status@ == "stopped"@ || b.status@
            == "timeout"@ || b.status@ == "lost"@,
    ensures
        ({
            let before = m.jobs[b.job_id@];
            let (next, told) = m.update_job(b, now);
            let job = next.jobs[b.job_id@];
            &&& told is Ok
            &&& tells_job(job, now, told->Ok_0)
            &&& job.status == b.status@
            &&& job.ended_at == Some(now)
            &&& job.exit_code == b.exit_code
            &&& job.duration_ms == b.duration_ms
            &&& job.error == opt_text(b.error)
            &&& job.job_id == before.job_id && job.client_id == before.client_id
            &&& job.created_at == before.created_at
            &&& before.started_at is Some ==> job.started_at == before.started_at
            &&& before.started_at is None && b.status@ != "lost"@ ==> job.started_at == Some(now)
            &&& reported_output(
                before.stdout,
                opt_text(b.stdout_tail),
                opt_text(b.stdout_chunk),
                job.stdout,
            )
            &&& reported_output(
                before.stderr,
                opt_text(b.stderr_tail),
                opt_text(b.stderr_chunk),
                job.stderr,
            )
            &&& before.request_id is Some ==> !next.pending.contains_key(before.request_id->0)
                && !next.request_to_job.contains_key(before.request_id->0)
        }),
{
    let before = m.jobs[b.job_id@];
    lemma_output_reported(before.stdout, opt_text(b.stdout_tail), opt_text(b.stdout_chunk));
    lemma_output_reported(before.stderr, opt_text(b.stderr_tail), opt_text(b.stderr_chunk));
    assert(b.status@ == "lost"@ ==> b.status@ != "running"@) by {
    reveal_strlit("lost");
    reveal_strlit("running");
    reveal_strlit("completed");
    reveal_strlit("failed");
    reveal_strlit("stopped");
    reveal_strlit("timeout");
    assert("lost"@.len() == 4);
    assert("running"@.len() == 7 && "running"@[0] == 'r');
    assert("completed"@.len() == 9);
    assert("failed"@.len() == 6);
    assert("stopped"@.len() == 7 && "stopped"@[0] == 's');
    assert("timeout"@.len() == 7 && "timeout"@[0] == 't');
    }
}

/// A report with any other word leaves the job open under that word, keeps what it had,
/// and adds the output that it brings.
pub proof fn law_open_report_goes_on(m: RegistryModel, b: ShellAgentJobUpdateRequest, now: i64)
    requires
        reports_on(m, b),
        !b.finished,
        !(b.status@ == "completed"@ || b.status@ == "failed"@ || b.status@ == "stopped"@
            || b.status@ == "timeout"@ || b.status@ == "lost"@),
    ensures
        ({
            let before = m.jobs[b.job_id@];
            let (next, told) = m.update_job(b, now);
            let job = next.jobs[b.job_id@];
            &&& told is Ok
            &&& tells_job(job, now, told->Ok_0)
            &&& trim(b.status@).len() == 0 ==> job.status == before.status
            &&& trim(b.status@).len() > 0 && trim(b.status@) != "queued"@ ==> job.status == trim(
                b.status@,
            )
            &&& trim(b.status@) == "queued"@ ==> job.status == if before.started_at is Some {
                "agent_queued"@
            } else {
                "queued"@
            }
            &&& b.status@ == "running"@ && before.started_at is None ==> job.started_at == Some(now)
            &&& before.started_at is Some ==> job.started_at == before.started_at
            &&& job.ended_at == before.ended_at
            &&& job.exit_code == before.exit_code
            &&& job.duration_ms == before.duration_ms
            &&& job.error == if b.error is Some {
                opt_text(b.error)
            } else {
                before.error
            }
            &&& reported_output(
                before.stdout,
                opt_text(b.stdout_tail),
                opt_text(b.stdout_chunk),
                job.stdout,
            )
            &&& reported_output(
                before.stderr,
                opt_text(b.stderr_tail),
                opt_text(b.stderr_chunk),
                job.stderr,
            )
            &&& next.pending == m.pending && next.queues == m.queues
        }),
{
    let before = m.jobs[b.job_id@];
    lemma_output_reported(before.stdout, opt_text(b.stdout_tail), opt_text(b.stdout_chunk));
    lemma_output_reported(before.stderr, opt_text(b.stderr_tail), opt_text(b.stderr_chunk));
    reveal_strlit("running");
    reveal_strlit("queued");
    reveal_strlit("agent_queued");
    reveal_strlit("completed");
    reveal_strlit("failed");
    reveal_strlit("stopped");
    reveal_strlit("timeout");
    reveal_strlit("lost");
    assert("running"@.len() == 7 && "running"@[0] == 'r');
    assert("queued"@.len() == 6 && "queued"@[0] == 'q');
    assert("agent_queued"@.len() == 12);
    assert("completed"@.len() == 9);
    assert("failed"@.len() == 6 && "failed"@[0] == 'f');
    assert("stopped"@.len() == 7 && "stopped"@[0] == 's');
    assert("timeout"@.len() == 7 && "timeout"@[0] == 't');
    assert("lost"@.len() == 4);
    if trim(b.status@) == "queued"@ && b.status@ == "running"@ {
        crate::shell_client::invariants::lemma_trim_tight("running"@);
        assert("running"@[0] == 'r' && "running"@.last() == 'g');
    }
}

/// A report that says that the job has finished ends it, whatever its word: as completed
/// where no error is known and the exit code is zero, else as failed.
pub proof fn law_finished_report_ends_job(
    m: RegistryModel,
    b: ShellAgentJobUpdateRequest,
    now: i64,
)
    requires
        reports_on(m, b),
        b.finished,
        b.status@ == "running"@,
    ensures
        ({
            let before = m.jobs[b.job_id@];
            let (next, told) = m.update_job(b, now);
            let job = next.jobs[b.job_id@];
            &&& told is Ok
            &&& job.ended_at == Some(now)
            &&& job.status == if (b.error is None && before.error is None) && before.exit_code
                == Some(0i32) {
                "completed"@
            } else {
                "failed"@
            }
            &&& before.request_id is Some ==> !next.pending.contains_key(before.request_id->0)
        }),
{
    reveal_strlit("running");
    reveal_strlit("queued");
    reveal_strlit("agent_queued");
    reveal_strlit("completed");
    reveal_strlit("failed");
    reveal_strlit("stopped");
    reveal_strlit("timeout");
    reveal_strlit("lost");
    assert("running"@.len() == 7 && "running"@[0] == 'r');
    assert("queued"@.len() == 6 && "queued"@[0] == 'q');
    assert("agent_queued"@.len() == 12);
    assert("completed"@.len() == 9);
    assert("failed"@.len() == 6 && "failed"@[0] == 'f');
    assert("stopped"@.len() == 7 && "stopped"@[0] == 's');
    assert("timeout"@.len() == 7 && "timeout"@[0] == 't');
    assert("lost"@.len() == 4);
    crate::shell_client::invariants::lemma_trim_tight("running"@);
    assert("running"@[0] == 'r' && "running"@.last() == 'g');
}

/// A report on a job of another client, or on none, changes no job.
pub proof fn law_foreign_reports_change_nothing(
    m: RegistryModel,
    b: ShellAgentJobUpdateRequest,
    now: i64,
)
    requires
        !m.jobs.contains_key(b.job_id@) || m.jobs[b.job_id@].client_id != b.client_id@,
    ensures
        m.update_job(b, now).1 is Err,
        m.update_job(b, now).0.jobs == m.jobs,
        m.update_job(b, now).0.pending == m.pending,
{
}

// ---------------------------------------------------------------------------
// Stopping
// ---------------------------------------------------------------------------

/// Stopping a job that an agent has sends the agent a request to stop it, and the job says
/// that it was asked to stop.
pub proof fn law_stop_reaches_agent(
    m: RegistryModel,
    job_id: Seq<char>,
    requested_by: Seq<char>,
    stop_id: Seq<char>,
    poll: ShellAgentPollRequest,
    now: i64,
    polled_at: i64,
)
    requires
        m.consistent(),
        m.jobs.contains_key(job_id),
        m.jobs[job_id].status == "agent_queued"@ || m.jobs[job_id].status == "running"@
            || m.jobs[job_id].status == "stop_requested"@,
        polls_for(m, m.jobs[job_id].client_id, poll),
        m.queue_of(m.jobs[job_id].client_id).len() == 0,
    ensures
        ({
            let (next, told) = m.stop_job(job_id, requested_by, stop_id, now);
            let (polled, got) = next.poll(poll, polled_at);
            let request = got->Ok_0->0;
            &&& told is Ok
            &&& told->Ok_0.status == "stop_requested"@
            &&& told->Ok_0.job_id == job_id
            &&& told->Ok_0.ended_at == m.jobs[job_id].ended_at
            &&& next.jobs[job_id].status == "stop_requested"@
            &&& next.jobs[job_id].error == Some("stop requested"@)
            &&& got is Ok && got->Ok_0 is Some
            &&& request.kind == "stop_job"@
            &&& request.request_id == stop_id
            &&& request.job_id == Some(job_id)
            &&& request.client_id == m.jobs[job_id].client_id
            &&& request.requested_by == requested_by
            &&& request.created_at == now
            &&& request.timeout_secs == 1
            &&& !polled.pending.contains_key(stop_id)
        }),
{
    let client_id = m.jobs[job_id].client_id;
    let next = m.stop_job(job_id, requested_by, stop_id, now).0;
    reveal_strlit("queued");
    reveal_strlit("agent_queued");
    reveal_strlit("running");
    reveal_strlit("stop_requested");
    assert("queued"@.len() == 6);
    assert("agent_queued"@.len() == 12);
    assert("running"@.len() == 7);
    assert("stop_requested"@.len() == 14);
    assert(next.queues[client_id] =~= seq![stop_id]);
}

/// Stopping a job that has ended changes nothing, and tells how it ended.
pub proof fn law_stop_after_end(
    m: RegistryModel,
    job_id: Seq<char>,
    requested_by: Seq<char>,
    stop_id: Seq<char>,
    now: i64,
)
    requires
        id_error(job_id, "job_id"@) is None,
        m.jobs.contains_key(job_id),
        is_final(m.jobs[job_id].status),
    ensures
        m.stop_job(job_id, requested_by, stop_id, now).0 == m,
        m.stop_job(job_id, requested_by, stop_id, now).1 is Ok,
        tells_job(
            m.jobs[job_id],
            now,
            m.stop_job(job_id, requested_by, stop_id, now).1->Ok_0,
        ),
{
    crate::shell_client::laws::lemma_final_is_not_open(m.jobs[job_id].status);
}

// ---------------------------------------------------------------------------
// What callers are answered
// ---------------------------------------------------------------------------

/// A caller who may use the client of a job is told of the job; one who may not is told
/// nothing of it, and can neither read its log nor stop it.
pub proof fn law_jobs_are_for_their_users(
    m: RegistryModel,
    auth: Option<AuthModel>,
    b: ShellJobOpRequest,
    stop_id: Seq<char>,
    now: i64,
)
    requires
        b.job_id is Some,
        id_error(b.job_id->0@, "job_id"@) is None,
        m.jobs.contains_key(b.job_id->0@),
    ensures
        ({
            let client_id = m.jobs[b.job_id->0@].client_id;
            let (seen, status) = job_status_answer(m, auth, b, now);
            let (read, log) = job_log_answer(m, auth, b, now);
            let (stopped, stop) = job_stop_answer(m, auth, b, stop_id, now);
            if m.clients.contains_key(client_id) && access_error(auth, m.clients[client_id]) is None {
                &&& status.0 == 200 && status.1.success && status.1.error is None
                &&& status.1.op == b.op@
                &&& status.1.job is Some
                &&& tells_job(seen.jobs[b.job_id->0@], now, status.1.job->0)
                &&& log.0 == 200 && log.1.success && log.1.error is None
                &&& log.1.job is Some
                &&& log.1.next_stdout_line is Some && log.1.next_stderr_line is Some
            } else {
                &&& !status.1.success && status.1.job is None && status.1.error is Some
                &&& status.0 == 400 || status.0 == 403
                &&& !log.1.success && log.1.stdout is None && log.1.stderr is None
                    && log.1.job is None
                &&& !stop.1.success && stop.1.job is None
                &&& stopped.queues == m.queues && stopped.pending == m.pending
            }
        }),
{
}

} // verus!
