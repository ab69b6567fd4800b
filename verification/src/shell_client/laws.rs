//! What holds of the registry across its operations.
use crate::shell_client::access::{
    access_error, caller_group, sees_client, unknown_client, AuthModel,
};
use crate::shell_client::invariants::{lemma_trim_id, lemma_trim_instance};
use crate::shell_client::jobs::{
    bounded_option, is_final, is_with_agent, lines_text, preview, selected,
};
use crate::shell_client::model::{
    lost_with_client, register_fields_error, result_response, run_request, RegistryModel,
};
use crate::shell_client::protocol::{
    RequestModel, ShellAgentJobUpdateRequest, ShellAgentPollRequest, ShellAgentResultRequest,
    ShellClientRegisterRequest, ShellJobOpRequest, ShellRunRequest,
};
use crate::shell_client::state::{lemma_without, ClientModel};
use crate::shell_client::validation::{id_error, instance_error, run_request_error};
use crate::lines::lines_of;
use crate::text::opt_text;
use vstd::prelude::*;

verus! {

// ---------------------------------------------------------------------------
// The lease
// ---------------------------------------------------------------------------

/// While an agent instance is online, no other instance can register for its
/// client, and the attempt changes nothing.
pub proof fn law_lease_is_exclusive(
    m: RegistryModel,
    b: ShellClientRegisterRequest,
    auth: Option<AuthModel>,
    now: i64,
)
    requires
        m.connected(b.client_id@, now),
        m.clients[b.client_id@].agent_instance_id != b.agent_instance_id@,
    ensures
        m.register(b, auth, now).1 is Err,
        m.register(b, auth, now).0 == m,
{
    if register_fields_error(b) is None {
        lemma_trim_id(b.client_id@, "client_id"@);
        lemma_trim_instance(b.agent_instance_id@);
    }
}

/// A valid registration is accepted when the client is new, when the same instance
/// comes again, and when the previous instance is no longer online. The instance
/// then holds the lease and is online.
pub proof fn law_lease_is_granted(
    m: RegistryModel,
    b: ShellClientRegisterRequest,
    auth: Option<AuthModel>,
    now: i64,
)
    requires
        register_fields_error(b) is None,
        !m.connected(b.client_id@, now) || m.clients[b.client_id@].agent_instance_id
            == b.agent_instance_id@,
    ensures
        m.register(b, auth, now).1 is Ok,
        m.register(b, auth, now).1->Ok_0.client_id == b.client_id@,
        m.register(b, auth, now).0.active_error(b.client_id@, b.agent_instance_id@) is None,
        m.register(b, auth, now).0.connected(b.client_id@, now),
{
    lemma_trim_id(b.client_id@, "client_id"@);
    lemma_trim_instance(b.agent_instance_id@);
}

/// Once an instance has taken the lease, every other instance is refused, whatever
/// it tries, and changes nothing.
pub proof fn law_stale_instance_is_refused(
    m: RegistryModel,
    client_id: Seq<char>,
    instance: Seq<char>,
    poll: ShellAgentPollRequest,
    result: ShellAgentResultRequest,
    update: ShellAgentJobUpdateRequest,
    now: i64,
)
    requires
        m.clients.contains_key(client_id),
        m.clients[client_id].agent_instance_id != instance,
        poll.client_id@ == client_id && poll.agent_instance_id@ == instance,
        result.client_id@ == client_id && result.agent_instance_id@ == instance,
        update.client_id@ == client_id && update.agent_instance_id@ == instance,
    ensures
        m.touch(client_id, instance, now).0 == m && m.touch(client_id, instance, now).1 is Err,
        m.notifier_set(client_id, instance).0 == m && m.notifier_set(client_id, instance).1 is Err,
        m.poll(poll, now).0 == m && m.poll(poll, now).1 is Err,
        m.complete(result, now).0 == m && m.complete(result, now).1 is Err,
        m.update_job(update, now).0 == m && m.update_job(update, now).1 is Err,
        m.disconnect(client_id, instance, now) == m,
{
}

/// The notifier of an instance that lost the lease does not outlive it.
pub proof fn law_takeover_drops_notifier(
    m: RegistryModel,
    b: ShellClientRegisterRequest,
    auth: Option<AuthModel>,
    now: i64,
)
    requires
        m.register(b, auth, now).1 is Ok,
        m.clients.contains_key(b.client_id@),
        m.clients[b.client_id@].agent_instance_id != b.agent_instance_id@,
    ensures
        !m.register(b, auth, now).0.notifiers.contains_key(b.client_id@),
{
    lemma_trim_id(b.client_id@, "client_id"@);
    lemma_trim_instance(b.agent_instance_id@);
}

/// A sign of life keeps the client online for the whole window that follows.
pub proof fn law_touch_keeps_online(
    m: RegistryModel,
    client_id: Seq<char>,
    instance: Seq<char>,
    now: i64,
    later: i64,
)
    requires
        m.touch(client_id, instance, now).1 is Ok,
        now <= later,
        later - now <= 60,
    ensures
        m.touch(client_id, instance, now).0.connected(client_id, later),
{
}

/// A disconnect of the instance that holds the lease ends the lease at once: from
/// then on the client is not online, so that any instance can register.
pub proof fn law_disconnect_releases_lease(
    m: RegistryModel,
    client_id: Seq<char>,
    instance: Seq<char>,
    now: i64,
    later: i64,
)
    requires
        m.active_error(client_id, instance) is None,
        now >= i64::MIN + 61,
        now <= later,
    ensures
        !m.disconnect(client_id, instance, now).connected(client_id, later),
        !m.disconnect(client_id, instance, now).notifiers.contains_key(client_id) || m.notifiers[client_id]
            != instance,
{
}

// ---------------------------------------------------------------------------
// Jobs that ended
// ---------------------------------------------------------------------------

/// A disconnect loses every job that the client had not ended, and changes no
/// other job.
pub proof fn law_disconnect_loses_jobs(
    m: RegistryModel,
    client_id: Seq<char>,
    instance: Seq<char>,
    now: i64,
    job_id: Seq<char>,
)
    requires
        m.active_error(client_id, instance) is None,
        m.jobs.contains_key(job_id),
    ensures
        ({
            let next = m.disconnect(client_id, instance, now);
            if m.jobs[job_id].client_id == client_id && (m.jobs[job_id].status == "queued"@
                || is_with_agent(m.jobs[job_id].status)) {
                &&& next.jobs[job_id].status == "lost"@
                &&& next.jobs[job_id].ended_at == Some(now)
                &&& (m.jobs[job_id].request_id is Some ==> !next.pending.contains_key(
                    m.jobs[job_id].request_id->0,
                ))
            } else {
                next.jobs[job_id] == m.jobs[job_id]
            }
        }),
{
    let next = m.disconnect(client_id, instance, now);
    if lost_with_client(m.jobs[job_id], client_id) && m.jobs[job_id].request_id is Some {
        let r = m.jobs[job_id].request_id->0;
        assert(m.requests_lost_with(client_id).contains(r));
    }
}

/// A job that ended stays as it is, whatever an agent reports on any job, whoever
/// stops a job, whoever disconnects and however often jobs are looked at.
pub proof fn law_final_jobs_stay(
    m: RegistryModel,
    job_id: Seq<char>,
    update: ShellAgentJobUpdateRequest,
    stop: Seq<char>,
    requested_by: Seq<char>,
    stop_id: Seq<char>,
    client_id: Seq<char>,
    instance: Seq<char>,
    now: i64,
)
    requires
        m.jobs.contains_key(job_id),
        is_final(m.jobs[job_id].status),
    ensures
        m.update_job(update, now).0.jobs[job_id] == m.jobs[job_id],
        m.stop_job(stop, requested_by, stop_id, now).0.jobs[job_id] == m.jobs[job_id],
        m.disconnect(client_id, instance, now).jobs[job_id] == m.jobs[job_id],
        m.refreshed(stop, now).jobs[job_id] == m.jobs[job_id],
        m.refreshed_all(now).jobs[job_id] == m.jobs[job_id],
{
    lemma_final_is_not_open(m.jobs[job_id].status);
}

/// The status words of ended jobs are none of those of jobs that have not ended.
pub proof fn lemma_final_is_not_open(status: Seq<char>)
    requires
        is_final(status),
    ensures
        status != "queued"@,
        !is_with_agent(status),
{
    reveal_strlit("completed");
    reveal_strlit("failed");
    reveal_strlit("stopped");
    reveal_strlit("timeout");
    reveal_strlit("lost");
    reveal_strlit("queued");
    reveal_strlit("agent_queued");
    reveal_strlit("running");
    reveal_strlit("stop_requested");
    assert("completed"@.len() == 9 && "completed"@[0] == 'c');
    assert("failed"@.len() == 6 && "failed"@[0] == 'f');
    assert("stopped"@.len() == 7 && "stopped"@[0] == 's');
    assert("timeout"@.len() == 7 && "timeout"@[0] == 't');
    assert("lost"@.len() == 4);
    assert("queued"@.len() == 6 && "queued"@[0] == 'q');
    assert("agent_queued"@.len() == 12);
    assert("running"@.len() == 7 && "running"@[0] == 'r');
    assert("stop_requested"@.len() == 14);
}

/// After a disconnect lost a job, the agent's late report does not change it, and
/// the late result of its request is refused.
pub proof fn law_late_reports_are_ignored(
    m: RegistryModel,
    client_id: Seq<char>,
    instance: Seq<char>,
    job_id: Seq<char>,
    update: ShellAgentJobUpdateRequest,
    result: ShellAgentResultRequest,
    now: i64,
    later: i64,
)
    requires
        m.active_error(client_id, instance) is None,
        m.jobs.contains_key(job_id),
        lost_with_client(m.jobs[job_id], client_id),
        m.jobs[job_id].request_id == Some(result.request_id@),
    ensures
        ({
            let lost = m.disconnect(client_id, instance, now);
            &&& lost.update_job(update, later).0.jobs[job_id] == lost.jobs[job_id]
            &&& lost.complete(result, later).1 is Err
            &&& lost.complete(result, later).0.jobs == lost.jobs
        }),
{
    law_disconnect_loses_jobs(m, client_id, instance, now, job_id);
}

// ---------------------------------------------------------------------------
// Queues
// ---------------------------------------------------------------------------

/// Requests are handed out in the order in which they were queued: where the front
/// of the queue is pending, a poll of the agent gets it and the rest stays.
pub proof fn law_poll_is_first_in_first_out(m: RegistryModel, b: ShellAgentPollRequest, now: i64)
    requires
        m.poll(b, now).1 is Ok,
        m.queue_of(b.client_id@).len() > 0,
        m.pending.contains_key(m.queue_of(b.client_id@)[0]),
    ensures
        m.poll(b, now).1->Ok_0 == Some(m.pending[m.queue_of(b.client_id@)[0]].request),
        m.poll(b, now).0.queue_of(b.client_id@) == m.queue_of(b.client_id@).skip(1),
{
}

/// A poll that gets nothing leaves nothing that waits for the client and is pending.
pub proof fn law_empty_poll_means_empty_queue(m: RegistryModel, client_id: Seq<char>, now: i64)
    requires
        m.take_next(client_id, now).1 is None,
    ensures
        m.take_next(client_id, now).0.queue_of(client_id).len() == 0,
        forall|i: int|
            0 <= i < m.queue_of(client_id).len() ==> !m.pending.contains_key(
                #[trigger] m.queue_of(client_id)[i],
            ),
    decreases m.queue_of(client_id).len(),
{
    if m.queue_of(client_id).len() > 0 {
        let rest = m.popped(client_id);
        law_empty_poll_means_empty_queue(rest, client_id, now);
        assert forall|i: int| 0 <= i < m.queue_of(client_id).len() implies !m.pending.contains_key(
            #[trigger] m.queue_of(client_id)[i],
        ) by {
            if i > 0 {
                assert(rest.queue_of(client_id)[i - 1] == m.queue_of(client_id)[i]);
            }
        }
    }
}

/// A poll touches no queue but that of its client.
pub proof fn law_poll_leaves_other_queues(
    m: RegistryModel,
    client_id: Seq<char>,
    other: Seq<char>,
    now: i64,
)
    requires
        other != client_id,
    ensures
        m.take_next(client_id, now).0.queue_of(other) == m.queue_of(other),
    decreases m.queue_of(client_id).len(),
{
    if m.queue_of(client_id).len() > 0 {
        law_poll_leaves_other_queues(m.popped(client_id), client_id, other, now);
    }
}

/// A full queue takes no further request, and the refusal changes nothing.
pub proof fn law_full_queue_refuses(m: RegistryModel, request: RequestModel)
    requires
        m.clients.contains_key(request.client_id),
        m.queue_of(request.client_id).len() >= 256,
    ensures
        m.enqueue(None, request).1 == Err::<Seq<char>, Seq<char>>(
            "too many pending requests for shell client "@ + request.client_id + " (limit 256)"@,
        ),
        m.enqueue(None, request).0 == m,
{
}

/// A cancelled request is gone: it waits in no queue, and its result is refused.
pub proof fn law_cancelled_request_is_gone(
    m: RegistryModel,
    request_id: Seq<char>,
    client_id: Seq<char>,
    result: ShellAgentResultRequest,
    now: i64,
)
    requires
        result.request_id@ == request_id,
    ensures
        !m.cancelled(request_id).pending.contains_key(request_id),
        !m.cancelled(request_id).queue_of(client_id).contains(request_id),
        m.cancelled(request_id).complete(result, now).1 is Err,
{
    if m.queues.contains_key(client_id) {
        lemma_without(m.queues[client_id], request_id);
    }
}

/// Cancelling a request leaves every other one where it is.
pub proof fn law_cancel_keeps_others(
    m: RegistryModel,
    request_id: Seq<char>,
    other: Seq<char>,
    client_id: Seq<char>,
)
    requires
        other != request_id,
    ensures
        m.cancelled(request_id).pending.contains_key(other) == m.pending.contains_key(other),
        m.pending.contains_key(other) ==> m.cancelled(request_id).pending[other]
            == m.pending[other],
        m.cancelled(request_id).queue_of(client_id).contains(other) == m.queue_of(
            client_id,
        ).contains(other),
{
    if m.queues.contains_key(client_id) {
        lemma_without(m.queues[client_id], request_id);
    }
}

/// A job that is stopped before an agent has it ends at once and never reaches one.
pub proof fn law_stopped_job_never_starts(
    m: RegistryModel,
    job_id: Seq<char>,
    requested_by: Seq<char>,
    stop_id: Seq<char>,
    now: i64,
    client_id: Seq<char>,
)
    requires
        id_error(job_id, "job_id"@) is None,
        m.jobs.contains_key(job_id),
        m.jobs[job_id].status == "queued"@,
        m.jobs[job_id].request_id is Some,
    ensures
        ({
            let next = m.stop_job(job_id, requested_by, stop_id, now).0;
            let r = m.jobs[job_id].request_id->0;
            &&& next.jobs[job_id].status == "stopped"@
            &&& !next.pending.contains_key(r)
            &&& !next.queue_of(client_id).contains(r)
        }),
{
    let r = m.jobs[job_id].request_id->0;
    if m.queues.contains_key(client_id) {
        lemma_without(m.queues[client_id], r);
    }
}

/// A command that is queued for an idle client goes the whole way: the next poll
/// hands it to the agent, and the result that the agent hands in is what the caller
/// who waits is told.
pub proof fn law_run_round_trip(
    m: RegistryModel,
    b: ShellRunRequest,
    requested_by: Seq<char>,
    request_id: Seq<char>,
    poll: ShellAgentPollRequest,
    result: ShellAgentResultRequest,
    now: i64,
    polled_at: i64,
    completed_at: i64,
)
    requires
        run_request_error(b) is None,
        m.clients.contains_key(b.client_id@),
        m.queue_of(b.client_id@).len() == 0,
        id_error(request_id, "request_id"@) is None,
        poll.client_id@ == b.client_id@,
        poll.agent_instance_id@ == m.clients[b.client_id@].agent_instance_id,
        instance_error(poll.agent_instance_id@) is None,
        result.client_id@ == b.client_id@,
        result.agent_instance_id@ == poll.agent_instance_id@,
        result.request_id@ == request_id,
    ensures
        ({
            let request = run_request(b, requested_by, request_id, now);
            let (queued, accepted) = m.enqueue(run_request_error(b), request);
            let (polled, got) = queued.poll(poll, polled_at);
            let (done, told) = polled.complete(result, completed_at);
            &&& accepted == Ok::<Seq<char>, Seq<char>>(request_id)
            &&& got == Ok::<Option<RequestModel>, Seq<char>>(Some(request))
            &&& told is Ok
            &&& told->Ok_0 == Some(result_response(request, result))
            &&& told->Ok_0->0.stdout == bounded_option(opt_text(result.stdout))
            &&& told->Ok_0->0.command_preview == preview(b.command@)
            &&& !done.pending.contains_key(request_id)
        }),
{
    let request = run_request(b, requested_by, request_id, now);
    assert(id_error(b.client_id@, "client_id"@) is None);
    let queued = m.enqueue(run_request_error(b), request).0;
    assert(queued.queues[b.client_id@] =~= seq![request_id]);
    assert(queued.pending[request_id].request == request);
    lemma_not_stop();
}

proof fn lemma_not_stop()
    ensures
        "run_shell"@ != "stop_job"@,
{
    reveal_strlit("run_shell");
    reveal_strlit("stop_job");
    assert("run_shell"@.len() == 9 && "stop_job"@.len() == 8);
}

/// A job that was started can be looked up under its id, and is queued.
pub proof fn law_started_job_is_found(
    m: RegistryModel,
    b: ShellJobOpRequest,
    run: ShellRunRequest,
    requested_by: Seq<char>,
    request_id: Seq<char>,
    job_id: Seq<char>,
    now: i64,
    later: i64,
)
    requires
        id_error(job_id, "job_id"@) is None,
        m.start_job(b, run, requested_by, request_id, job_id, now).1 is Ok,
    ensures
        ({
            let next = m.start_job(b, run, requested_by, request_id, job_id, now).0;
            &&& next.get_job(None, job_id, later).1 is Ok
            &&& next.get_job(None, job_id, later).1->Ok_0.status == "queued"@
            &&& next.get_job(None, job_id, later).1->Ok_0.job_id == job_id
            &&& next.request_to_job[request_id] == job_id
        }),
{
    reveal_strlit("queued");
    reveal_strlit("agent_queued");
    reveal_strlit("running");
    reveal_strlit("stop_requested");
    assert("queued"@.len() == 6 && "agent_queued"@.len() == 12 && "running"@.len() == 7
        && "stop_requested"@.len() == 14);
}

// ---------------------------------------------------------------------------
// Logs and visibility
// ---------------------------------------------------------------------------

/// Whoever asks for a log from the line that the last answer named gets nothing
/// twice: without new lines there is nothing to get, and the line stays.
pub proof fn law_log_goes_on(v: Seq<char>, since: Option<usize>, tail: Option<usize>)
    requires
        lines_of(v).len() < usize::MAX,
    ensures
        ({
            let (text, next) = selected(Some(v), since, tail);
            selected(Some(v), Some(next), None) == (Some(Seq::<char>::empty()), next)
        }),
{
    let lines = lines_of(v);
    assert(lines.skip(lines.len() as int) =~= seq![]);
}

/// Without a line to start from and without a limit, a log is told whole: its lines
/// are those of the output.
pub proof fn law_whole_log(v: Seq<char>)
    ensures
        selected(Some(v), None, None).0 == Some(lines_text(lines_of(v))),
{
    assert(lines_of(v).skip(0) =~= lines_of(v));
}

/// A caller who is no administrator sees only the clients of its own group, and
/// outside of any group only those that it owns.
pub proof fn law_callers_see_their_own(auth: AuthModel, client: ClientModel)
    requires
        !auth.is_admin(),
        sees_client(Some(auth), client),
    ensures
        caller_group(Some(auth)) == client.auth_group,
        client.auth_group is None ==> client.owner is Some && client.owner == auth.username,
{
}

/// A caller is not told that a client of another group exists: it gets the words
/// that it gets for a client that does not.
pub proof fn law_other_groups_are_unknown(auth: Option<AuthModel>, client: ClientModel)
    requires
        auth is Some ==> !auth->0.is_admin(),
        caller_group(auth) != client.auth_group,
    ensures
        access_error(auth, client) == Some(unknown_client(client.client_id)),
{
}

} // verus!
