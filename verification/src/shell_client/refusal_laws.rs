//! What the registry refuses, in which words, and what a registration or a disconnect
//! leaves as it was.
use crate::shell_client::access::{access_error, AuthModel};
use crate::shell_client::invariants::{lemma_trim_id, lemma_trim_instance};
use crate::shell_client::job_laws::law_status_words;
use crate::shell_client::jobs::is_final;
use crate::shell_client::model::{is_online, lost_with_client, RegistryModel};
use crate::shell_client::protocol::{
    JobInfoModel, JobResponseModel, ShellAgentPollRequest, ShellAgentResultRequest, ShellClientRegisterRequest, ShellJobOpRequest,
    ShellRunRequest,
};
use crate::shell_client::request_laws::rules_all;
use crate::shell_client::requests::{
    job_log_answer, job_op_leads_to, job_status_answer, job_stop_answer, usable_jobs,
};
use crate::shell_client::validation::{id_error, instance_error, run_request_error, sha256_error};
use crate::text::byte_len;
use vstd::prelude::*;

verus! {

/// Whether `r` is a refusal in these words.
pub open spec fn is_refused<T>(r: Result<T, Seq<char>>, why: Seq<char>) -> bool {
    r is Err && r->Err_0 == why
}

/// An agent that polls or reports for a client that another instance holds is told so, and
/// nothing changes; for a client that nobody registered, that it is unknown.
pub proof fn law_replaced_agents_are_told(
    m: RegistryModel,
    b: ShellAgentPollRequest,
    done: ShellAgentResultRequest,
    now: i64,
)
    requires
        id_error(b.client_id@, "client_id"@) is None,
        instance_error(b.agent_instance_id@) is None,
        id_error(done.request_id@, "request_id"@) is None,
        done.client_id@ == b.client_id@,
        done.agent_instance_id@ == b.agent_instance_id@,
    ensures
        m.clients.contains_key(b.client_id@) && m.clients[b.client_id@].agent_instance_id
            != b.agent_instance_id@ ==> {
            let told = "agent client "@ + b.client_id@
                + " is no longer the active instance (stale or replaced)"@;
            &&& is_refused(m.poll(b, now).1, told) && m.poll(b, now).0 == m
            &&& is_refused(m.complete(done, now).1, told) && m.complete(done, now).0
                == m
        },
        !m.clients.contains_key(b.client_id@) ==> {
            let told = "unknown shell client: "@ + b.client_id@;
            &&& is_refused(m.poll(b, now).1, told) && m.poll(b, now).0 == m
            &&& is_refused(m.complete(done, now).1, told) && m.complete(done, now).0
                == m
        },
        m.clients.contains_key(b.client_id@) && m.clients[b.client_id@].agent_instance_id
            == b.agent_instance_id@ ==> m.poll(b, now).1 is Ok,
{
}

/// A registration is refused where the client id is empty, longer than eighty bytes or
/// otherwise unfit, where the name of the instance is, and where something that the client
/// says of itself is longer than two hundred characters; the refusal names the field, and
/// nothing changes.
pub proof fn law_unfit_registrations_are_refused(
    m: RegistryModel,
    b: ShellClientRegisterRequest,
    auth: Option<AuthModel>,
    now: i64,
)
    ensures
        m.register(b, auth, now).1 is Err ==> m.register(b, auth, now).0 == m,
        b.client_id@.len() == 0 || byte_len(b.client_id@) > 80 ==> is_refused(m.register(b, auth, now).1, "client_id"@ + " must be 1..=80 characters"@),
        id_error(b.client_id@, "client_id"@) is None ==> {
            let r = m.register(b, auth, now).1;
            let unfit = instance_error(b.agent_instance_id@);
            let long = |s: Option<String>| s is Some && s->0@.len() > 200;
            &&& b.agent_instance_id@.len() == 0 ==> is_refused(r, 
                "agent_instance_id must not be empty"@,
            )
            &&& unfit is Some ==> is_refused(r, unfit->0)
            &&& unfit is None && long(b.display_name) ==> is_refused(r, 
                "display_name"@ + " is too long; maximum is 200 characters"@,
            )
            &&& unfit is None && b.display_name is None && long(b.owner) ==> is_refused(r, "owner"@ + " is too long; maximum is 200 characters"@)
            &&& unfit is None && b.display_name is None && b.owner is None && long(b.hostname)
                ==> is_refused(r, 
                "hostname"@ + " is too long; maximum is 200 characters"@,
            )
        },
{
}

/// A client that is online keeps its instance: another that registers for it is refused.
/// The instance that holds it, and any instance once it is no longer online, registers
/// where what it says of itself is fit.
pub proof fn law_one_instance_at_a_time(
    m: RegistryModel,
    b: ShellClientRegisterRequest,
    auth: Option<AuthModel>,
    now: i64,
)
    requires
        id_error(b.client_id@, "client_id"@) is None,
        instance_error(b.agent_instance_id@) is None,
        b.display_name is None,
        b.owner is None,
        b.hostname is None,
    ensures
        ({
            let id = b.client_id@;
            let held = m.clients.contains_key(id) && is_online(
                m.clients[id].last_seen,
                now,
            ) && m.clients[id].agent_instance_id != b.agent_instance_id@;
            if held {
                m.register(b, auth, now).0 == m && is_refused(
                    m.register(b, auth, now).1,
                    "agent client "@ + id + " is already online with a different instance"@,
                )
            } else {
                m.register(b, auth, now).1 is Ok
            }
        }),
{
    lemma_trim_id(b.client_id@, "client_id"@);
    lemma_trim_instance(b.agent_instance_id@);
}

/// The notifier of an instance that was replaced goes with it; that of the instance that
/// registers again stays, and so do those of other clients.
pub proof fn law_notifiers_follow_instances(
    m: RegistryModel,
    b: ShellClientRegisterRequest,
    auth: Option<AuthModel>,
    now: i64,
    other: Seq<char>,
)
    requires
        m.register(b, auth, now).1 is Ok,
        other != b.client_id@,
    ensures
        ({
            let next = m.register(b, auth, now).0;
            let id = b.client_id@;
            let replaced = m.clients.contains_key(id) && m.clients[id].agent_instance_id
                != b.agent_instance_id@;
            &&& replaced ==> !next.notifiers.contains_key(id)
            &&& !replaced ==> next.notifiers.contains_key(id) == m.notifiers.contains_key(id) && (
            m.notifiers.contains_key(id) ==> next.notifiers[id] == m.notifiers[id])
            &&& next.notifiers.contains_key(other) == m.notifiers.contains_key(other)
            &&& m.notifiers.contains_key(other) ==> next.notifiers[other] == m.notifiers[other]
        }),
{
    lemma_trim_id(b.client_id@, "client_id"@);
    lemma_trim_instance(b.agent_instance_id@);
}

/// A job is refused where no client or no command is named, where its client is unknown or
/// runs no jobs of its own, and where too much waits for it; nothing changes.
pub proof fn law_unfit_jobs_are_refused(
    m: RegistryModel,
    b: ShellJobOpRequest,
    run: ShellRunRequest,
    requested_by: Seq<char>,
    request_id: Seq<char>,
    job_id: Seq<char>,
    now: i64,
)
    ensures
        ({
            let (next, r) = m.start_job(b, run, requested_by, request_id, job_id, now);
            let id = run.client_id@;
            let caps = m.clients[id].capabilities;
            let asked = b.client_id is Some && b.command is Some && run_request_error(run) is None;
            &&& r is Err ==> next == m
            &&& b.client_id is None ==> is_refused(r, 
                "client_id is required for op=start"@,
            )
            &&& b.client_id is Some && b.command is None ==> is_refused(r, 
                "command is required for op=start"@,
            )
            &&& b.client_id is Some && b.command is Some && run_request_error(run) is Some ==> is_refused(r, run_request_error(run)->0)
            &&& asked && !m.clients.contains_key(id) ==> is_refused(r, 
                "unknown shell client: "@ + id,
            )
            &&& asked && m.clients.contains_key(id) && !caps.async_jobs && !caps.async_shell_jobs
                ==> is_refused(r, 
                "agent client "@ + id + " does not support async shell jobs"@,
            )
            &&& asked && m.clients.contains_key(id) && (caps.async_jobs || caps.async_shell_jobs)
                && m.queue_of(id).len() >= 256 ==> is_refused(r, 
                "too many pending requests for shell client "@ + id + " (limit 256)"@,
            )
            &&& r is Ok <==> asked && m.clients.contains_key(id) && (caps.async_jobs
                || caps.async_shell_jobs) && m.queue_of(id).len() < 256
        }),
{
}

/// The jobs of a client are seen by whoever may use it, by an administrator also where the
/// client is gone, and by the server itself; by nobody else.
pub proof fn law_who_sees_jobs(m: RegistryModel, auth: Option<AuthModel>, client_id: Seq<char>)
    ensures
        m.sees_jobs_of(auth, client_id) <==> {
            ||| auth is None
            ||| rules_all(auth)
            ||| m.clients.contains_key(client_id) && access_error(auth, m.clients[client_id])
                is None
        },
{
}

/// A disconnect drops the requests of the jobs that are lost with it, and no other request.
pub proof fn law_disconnect_keeps_requests(
    m: RegistryModel,
    client_id: Seq<char>,
    instance: Seq<char>,
    now: i64,
    request: Seq<char>,
    job: Seq<char>,
)
    requires
        m.clients.contains_key(client_id),
        m.clients[client_id].agent_instance_id == instance,
    ensures
        ({
            let next = m.disconnect(client_id, instance, now);
            let spared = forall|j: Seq<char>| #[trigger]
                m.jobs.contains_key(j) && m.jobs[j].request_id == Some(request)
                    ==> m.jobs[j].client_id != client_id || is_final(m.jobs[j].status);
            &&& spared ==> {
                &&& next.pending.contains_key(request) == m.pending.contains_key(request)
                &&& m.pending.contains_key(request) ==> next.pending[request]
                    == m.pending[request]
            }
            &&& m.jobs.contains_key(job) && m.jobs[job].client_id == client_id
                && m.jobs[job].request_id == Some(request) && (m.jobs[job].status == "queued"@
                || m.jobs[job].status == "running"@) ==> !next.pending.contains_key(request)
        }),
{
    reveal_strlit("queued");
    reveal_strlit("running");
    reveal_strlit("agent_queued");
    reveal_strlit("stop_requested");
    reveal_strlit("completed");
    reveal_strlit("failed");
    reveal_strlit("stopped");
    reveal_strlit("timeout");
    reveal_strlit("lost");
    assert("queued"@.len() == 6 && "queued"@[0] == 'q');
    assert("running"@.len() == 7 && "running"@[0] == 'r');
    assert("agent_queued"@.len() == 12);
    assert("stop_requested"@.len() == 14);
    assert("completed"@.len() == 9);
    assert("failed"@.len() == 6 && "failed"@[0] == 'f');
    assert("stopped"@.len() == 7 && "stopped"@[0] == 's');
    assert("timeout"@.len() == 7 && "timeout"@[0] == 't');
    assert("lost"@.len() == 4);
    law_status_words(m.jobs[job].status);
    assert forall|j: Seq<char>| #[trigger] m.jobs.contains_key(j) && is_final(
        m.jobs[j].status,
    ) implies !lost_with_client(m.jobs[j], client_id) by {
        law_status_words(m.jobs[j].status);
    }
}

// ---------------------------------------------------------------------------
// Requests about jobs
// ---------------------------------------------------------------------------

/// Whether the answer is that the request itself is at fault, in these words.
pub open spec fn is_bad_request(answer: (u16, JobResponseModel), why: Seq<char>) -> bool {
    &&& answer.0 == 400
    &&& !answer.1.success
    &&& answer.1.error == Some(why)
    &&& answer.1.job is None && answer.1.jobs.len() == 0
    &&& answer.1.stdout is None && answer.1.stderr is None
}

/// A request about a job does what its operation is called: it looks at the job, reads its
/// log or stops it. Where it names no job it is at fault, says so, and changes nothing; and
/// so is one whose operation is none of those.
pub proof fn law_job_requests_do_as_called(
    m: RegistryModel,
    auth: Option<AuthModel>,
    b: ShellJobOpRequest,
    request_id: Seq<char>,
    job_id: Seq<char>,
    now: i64,
    next: RegistryModel,
    answer: (u16, JobResponseModel),
)
    requires
        job_op_leads_to(m, auth, b, request_id, job_id, now, next, answer),
    ensures
        b.op@ == "status"@ ==> (next, answer) == job_status_answer(m, auth, b, now),
        b.op@ == "log"@ ==> (next, answer) == job_log_answer(m, auth, b, now),
        b.op@ == "stop"@ ==> (next, answer) == job_stop_answer(m, auth, b, request_id, now),
        b.op@ == "status"@ && b.job_id is None ==> next == m && is_bad_request(
            answer,
            "job_id is required for op=status"@,
        ),
        b.op@ == "log"@ && b.job_id is None ==> next == m && is_bad_request(
            answer,
            "job_id is required for op=log"@,
        ),
        b.op@ == "stop"@ && b.job_id is None ==> next == m && is_bad_request(
            answer,
            "job_id is required for op=stop"@,
        ),
        b.op@ != "start"@ && b.op@ != "status"@ && b.op@ != "list"@ && b.op@ != "log"@ && b.op@
            != "stop"@ ==> next == m && answer.0 == 400 && !answer.1.success && answer.1.error
            is Some,
        b.op@ == "list"@ ==> answer.0 == 200 && answer.1.success && answer.1.error is None
            && next.queues == m.queues && next.pending == m.pending && next.clients == m.clients,
        answer.1.op == b.op@,
{
    reveal_strlit("start");
    reveal_strlit("status");
    reveal_strlit("list");
    reveal_strlit("log");
    reveal_strlit("stop");
    assert("start"@.len() == 5);
    assert("status"@.len() == 6);
    assert("list"@.len() == 4 && "list"@[0] == 'l');
    assert("log"@.len() == 3);
    assert("stop"@.len() == 4 && "stop"@[0] == 's');
}

/// Of a list of jobs a caller is told those of the clients that it may use, and an
/// administrator all of them, in their order.
pub proof fn law_usable_jobs(
    m: RegistryModel,
    auth: Option<AuthModel>,
    jobs: Seq<JobInfoModel>,
    x: JobInfoModel,
)
    ensures
        ({
            let usable = rules_all(auth) || (m.clients.contains_key(x.client_id) && access_error(
                auth,
                m.clients[x.client_id],
            ) is None);
            &&& usable_jobs(m, auth, jobs).contains(x) <==> jobs.contains(x) && usable
            &&& usable ==> usable_jobs(m, auth, jobs.push(x)) == usable_jobs(m, auth, jobs).push(x)
            &&& !usable ==> usable_jobs(m, auth, jobs.push(x)) == usable_jobs(m, auth, jobs)
        }),
    decreases jobs.len(),
{
    assert(jobs.push(x).drop_last() =~= jobs);
    assert(jobs.push(x).last() == x);
    if jobs.len() > 0 {
        let front = jobs.drop_last();
        let last = jobs.last();
        let kept = usable_jobs(m, auth, front);
        law_usable_jobs(m, auth, front, x);
        assert(jobs =~= front.push(last));
        assert(jobs.contains(x) <==> front.contains(x) || last == x) by {
            if front.contains(x) {
                let i = choose|i: int| 0 <= i < front.len() && front[i] == x;
                assert(jobs[i] == x);
            }
            if last == x {
                assert(jobs[jobs.len() - 1] == x);
            }
            if jobs.contains(x) && last != x {
                let i = choose|i: int| 0 <= i < jobs.len() && jobs[i] == x;
                assert(front[i] == x);
            }
        }
        assert(kept.push(last).contains(x) <==> kept.contains(x) || last == x) by {
            let all = kept.push(last);
            if kept.contains(x) {
                let i = choose|i: int| 0 <= i < kept.len() && kept[i] == x;
                assert(all[i] == x);
            }
            if last == x {
                assert(all[kept.len() as int] == x);
            }
            if all.contains(x) && last != x {
                let i = choose|i: int| 0 <= i < all.len() && all[i] == x;
                assert(kept[i] == x);
            }
        }
    }
}

/// The sum that a file is expected to have is sixty-four hexadecimal digits; any other is
/// refused. Nothing is wrong where none is expected.
pub proof fn law_expected_sums(value: Seq<char>)
    ensures
        sha256_error(None) is None,
        sha256_error(Some(value)) is None <==> byte_len(value) == 64 && (
        forall|i: int|
            0 <= i < value.len() ==> ('0' <= #[trigger] value[i] <= '9' || 'a' <= value[i] <= 'f'
                || 'A' <= value[i] <= 'F')),
        sha256_error(Some(value)) is Some ==> sha256_error(Some(value))->0
            == "expected_sha256 must be 64 hex characters"@,
{
}

} // verus!
