//! Every operation keeps the registry consistent.
use crate::shell_client::access::AuthModel;
use crate::shell_client::jobs::law_bounded_output;
use crate::shell_client::model::{
    output_bounded, project_models, without_all, MAX_QUEUED_REQUESTS_PER_CLIENT, RegistryModel,
};
use crate::shell_client::protocol::{
    ProjectModel, RequestModel, ShellAgentJobUpdateRequest, ShellAgentPollRequest,
    ShellAgentResultRequest, ShellClientRegisterRequest, ShellJobOpRequest, ShellRunRequest,
};
use crate::shell_client::state::{lemma_without, PendingModel};
use crate::shell_client::validation::{
    id_error, instance_error, is_id_char, is_instance_char, law_normalized_ascends, law_upserted,
};
use crate::text::{is_space, opt_text, trim, views};
use vstd::prelude::*;

verus! {

/// A text without white space at its ends is its own trimmed form.
pub proof fn lemma_trim_tight(s: Seq<char>)
    requires
        s.len() > 0 ==> !is_space(s[0]) && !is_space(s.last()),
    ensures
        trim(s) == s,
{
}

/// A valid id is its own trimmed form.
pub proof fn lemma_trim_id(s: Seq<char>, field: Seq<char>)
    requires
        id_error(s, field) is None,
    ensures
        trim(s) == s,
{
    assert(is_id_char(s[0]));
    assert(is_id_char(s[s.len() - 1]));
    lemma_trim_tight(s);
}

/// A valid agent instance id is its own trimmed form.
pub proof fn lemma_trim_instance(s: Seq<char>)
    requires
        instance_error(s) is None,
    ensures
        trim(s) == s,
{
    assert(is_instance_char(s[0]));
    assert(is_instance_char(s[s.len() - 1]));
    lemma_trim_tight(s);
}

/// Dropping ids makes a queue no longer.
pub proof fn lemma_without_all_len(ids: Seq<Seq<char>>, gone: Set<Seq<char>>)
    ensures
        without_all(ids, gone).len() <= ids.len(),
    decreases ids.len(),
{
    if ids.len() > 0 {
        lemma_without_all_len(ids.drop_last(), gone);
    }
}

/// Registering keeps the registry consistent.
pub proof fn law_register_consistent(
    m: RegistryModel,
    b: ShellClientRegisterRequest,
    auth: Option<AuthModel>,
    now: i64,
)
    requires
        m.consistent(),
    ensures
        m.register(b, auth, now).0.consistent(),
{
    if m.register_error(b, now) is None {
        lemma_trim_id(b.client_id@, "client_id"@);
        lemma_trim_instance(b.agent_instance_id@);
        if b.projects is Some {
            law_normalized_ascends(views(b.projects->0@));
        }
    }
}

/// A sign of life keeps the registry consistent.
pub proof fn law_seen_consistent(m: RegistryModel, client_id: Seq<char>, now: i64)
    requires
        m.consistent(),
        m.clients.contains_key(client_id),
    ensures
        m.seen(client_id, now).consistent(),
{
}

/// Touching a client keeps the registry consistent.
pub proof fn law_touch_consistent(
    m: RegistryModel,
    client_id: Seq<char>,
    instance: Seq<char>,
    now: i64,
)
    requires
        m.consistent(),
    ensures
        m.touch(client_id, instance, now).0.consistent(),
{
}

/// Labelling the transport of a client keeps the registry consistent.
pub proof fn law_transport_consistent(m: RegistryModel, client_id: Seq<char>, transport: Seq<char>)
    requires
        m.consistent(),
    ensures
        m.transport_set(client_id, transport).0.consistent(),
{
}

/// Installing a notifier keeps the registry consistent.
pub proof fn law_notifier_consistent(m: RegistryModel, client_id: Seq<char>, instance: Seq<char>)
    requires
        m.consistent(),
    ensures
        m.notifier_set(client_id, instance).0.consistent(),
{
}

/// Upserting a project keeps the registry consistent.
pub proof fn law_upsert_consistent(m: RegistryModel, client_id: Seq<char>, p: ProjectModel)
    requires
        m.consistent(),
    ensures
        m.project_upserted(client_id, p).0.consistent(),
{
    if m.clients.contains_key(client_id) {
        law_upserted(m.clients[client_id].projects, p);
    }
}

/// A disconnect keeps the registry consistent.
pub proof fn law_disconnect_consistent(
    m: RegistryModel,
    client_id: Seq<char>,
    instance: Seq<char>,
    now: i64,
)
    requires
        m.consistent(),
    ensures
        m.disconnect(client_id, instance, now).consistent(),
{
    if m.active_error(client_id, instance) is None {
        let gone = m.requests_lost_with(client_id);
        if m.queues.contains_key(client_id) {
            lemma_without_all_len(m.queues[client_id], gone);
        }
        let next = m.disconnect(client_id, instance, now);
        assert(next.jobs.dom() =~= m.jobs.dom());
        assert forall|j: Seq<char>| #[trigger] next.jobs.contains_key(j) implies next.jobs[j].job_id
            == j && output_bounded(next.jobs[j].stdout) && output_bounded(next.jobs[j].stderr) by {
            assert(m.jobs.contains_key(j));
        }
        assert forall|r: Seq<char>| #[trigger] next.pending.contains_key(r) implies m.pending.contains_key(r)
            && next.pending[r] == m.pending[r] by {}
        assert forall|r: Seq<char>| #[trigger] next.request_to_job.contains_key(r) implies next.jobs.contains_key(
            next.request_to_job[r],
        ) by {
            assert(m.request_to_job.contains_key(r));
        }
        assert(next.clients_consistent());
        assert(next.queues_consistent());
    }
}

/// Cancelling a request keeps the registry consistent.
pub proof fn law_cancel_consistent(m: RegistryModel, request_id: Seq<char>)
    requires
        m.consistent(),
    ensures
        m.cancelled(request_id).consistent(),
{
    let next = m.cancelled(request_id);
    assert forall|c: Seq<char>| #[trigger] next.queues.contains_key(c) implies m.clients.contains_key(c)
        && next.queues[c].len() <= MAX_QUEUED_REQUESTS_PER_CLIENT by {
        assert(m.queues.contains_key(c));
        lemma_without(m.queues[c], request_id);
    }
}

/// Adding a request to a queue with room keeps the registry consistent.
pub proof fn law_with_request_consistent(m: RegistryModel, p: PendingModel)
    requires
        m.consistent(),
        m.queue_error(p.request.client_id) is None,
        id_error(p.request.request_id, "request_id"@) is None,
        p.job_id is Some ==> m.jobs.contains_key(p.job_id->0),
    ensures
        m.with_request(p).consistent(),
{
}

/// Queueing a request keeps the registry consistent.
pub proof fn law_enqueue_consistent(m: RegistryModel, error: Option<Seq<char>>, request: RequestModel)
    requires
        m.consistent(),
        id_error(request.request_id, "request_id"@) is None,
    ensures
        m.enqueue(error, request).0.consistent(),
{
}

/// Starting a job keeps the registry consistent.
pub proof fn law_start_job_consistent(
    m: RegistryModel,
    b: ShellJobOpRequest,
    run: ShellRunRequest,
    requested_by: Seq<char>,
    request_id: Seq<char>,
    job_id: Seq<char>,
    now: i64,
)
    requires
        m.consistent(),
        id_error(request_id, "request_id"@) is None,
        id_error(job_id, "job_id"@) is None,
    ensures
        m.start_job(b, run, requested_by, request_id, job_id, now).0.consistent(),
{
    let next = m.start_job(b, run, requested_by, request_id, job_id, now).0;
    assert(next.clients_consistent());
    assert(next.queues_consistent());
    assert(next.jobs_consistent());
}

/// Refreshing a job keeps the registry consistent.
pub proof fn law_refreshed_consistent(m: RegistryModel, job_id: Seq<char>, now: i64)
    requires
        m.consistent(),
    ensures
        m.refreshed(job_id, now).consistent(),
{
}

/// Refreshing all jobs keeps the registry consistent.
pub proof fn law_refreshed_all_consistent(m: RegistryModel, now: i64)
    requires
        m.consistent(),
    ensures
        m.refreshed_all(now).consistent(),
{
    let next = m.refreshed_all(now);
    assert(next.jobs.dom() =~= m.jobs.dom());
    assert forall|j: Seq<char>| #[trigger] next.jobs.contains_key(j) implies next.jobs[j].job_id
        == j && output_bounded(next.jobs[j].stdout) && output_bounded(next.jobs[j].stderr) by {
        assert(m.jobs.contains_key(j));
    }
    assert(next.jobs_consistent());
}

/// Stopping a job keeps the registry consistent.
pub proof fn law_stop_job_consistent(
    m: RegistryModel,
    job_id: Seq<char>,
    requested_by: Seq<char>,
    stop_id: Seq<char>,
    now: i64,
)
    requires
        m.consistent(),
        id_error(stop_id, "request_id"@) is None,
    ensures
        m.stop_job(job_id, requested_by, stop_id, now).0.consistent(),
{
    if m.jobs.contains_key(job_id) {
        let job = m.jobs[job_id];
        if job.status == "queued"@ && job.request_id is Some {
            law_cancel_consistent(m, job.request_id->0);
        }
    }
    let next = m.stop_job(job_id, requested_by, stop_id, now).0;
    assert(next.clients_consistent());
    assert(next.queues_consistent());
    assert(next.jobs_consistent());
}

proof fn lemma_bounded(s: Option<Seq<char>>)
    ensures
        s is Some ==> output_bounded(Some(crate::shell_client::jobs::bounded_output(s->0))),
{
    if s is Some {
        law_bounded_output(s->0);
    }
}

/// A report on a job keeps the registry consistent.
pub proof fn law_update_job_consistent(m: RegistryModel, b: ShellAgentJobUpdateRequest, now: i64)
    requires
        m.consistent(),
    ensures
        m.update_job(b, now).0.consistent(),
{
    let next = m.update_job(b, now).0;
    if m.jobs.contains_key(b.job_id@) {
        let job = m.jobs[b.job_id@];
        lemma_bounded(opt_text(b.stdout_tail));
        lemma_bounded(opt_text(b.stderr_tail));
        let out = crate::shell_client::jobs::replaced(job.stdout, opt_text(b.stdout_tail));
        let err = crate::shell_client::jobs::replaced(job.stderr, opt_text(b.stderr_tail));
        assert(output_bounded(out));
        assert(output_bounded(err));
        if b.stdout_chunk is Some {
            law_bounded_output(b.stdout_chunk->0@);
            if out is Some {
                law_bounded_output(out->0 + b.stdout_chunk->0@);
            }
        }
        if b.stderr_chunk is Some {
            law_bounded_output(b.stderr_chunk->0@);
            if err is Some {
                law_bounded_output(err->0 + b.stderr_chunk->0@);
            }
        }
    }
    assert(next.clients_consistent());
    assert(next.queues_consistent());
    assert(next.jobs_consistent());
}

/// Handing out the next request keeps the registry consistent.
pub proof fn law_take_next_consistent(m: RegistryModel, client_id: Seq<char>, now: i64)
    requires
        m.consistent(),
    ensures
        m.take_next(client_id, now).0.consistent(),
    decreases m.queue_of(client_id).len(),
{
    if m.queue_of(client_id).len() > 0 {
        let rest = m.popped(client_id);
        assert(rest.consistent());
        let r = m.queues[client_id][0];
        if rest.pending.contains_key(r) {
            let next = rest.delivered(r, now);
            assert(next.clients_consistent());
            assert(next.queues_consistent());
            assert(next.jobs_consistent());
        } else {
            law_take_next_consistent(rest, client_id, now);
        }
    }
}

/// Polling keeps the registry consistent.
pub proof fn law_poll_consistent(m: RegistryModel, b: ShellAgentPollRequest, now: i64)
    requires
        m.consistent(),
    ensures
        m.poll(b, now).0.consistent(),
{
    if m.poll(b, now).1 is Ok {
        if b.projects is Some {
            law_normalized_ascends(views(b.projects->0@));
        }
        let c = m.clients[b.client_id@];
        let seen = RegistryModel {
            clients: m.clients.insert(
                b.client_id@,
                crate::shell_client::state::ClientModel {
                    projects: if b.projects is Some {
                        project_models(b.projects)
                    } else {
                        c.projects
                    },
                    last_seen: now,
                    ..c
                },
            ),
            ..m
        };
        assert(seen.consistent());
        law_take_next_consistent(seen, b.client_id@, now);
    }
}

/// Handing in a result keeps the registry consistent.
pub proof fn law_complete_consistent(m: RegistryModel, b: ShellAgentResultRequest, now: i64)
    requires
        m.consistent(),
    ensures
        m.complete(b, now).0.consistent(),
{
    lemma_bounded(opt_text(b.stdout));
    lemma_bounded(opt_text(b.stderr));
    let next = m.complete(b, now).0;
    assert(next.clients_consistent());
    assert(next.queues_consistent());
    assert(next.jobs_consistent());
}

} // verus!
