//! What holds of the registry over any run of operations.
use crate::shell_client::access::AuthModel;
use crate::shell_client::invariants::{
    law_cancel_consistent, law_complete_consistent, law_disconnect_consistent,
    law_enqueue_consistent, law_notifier_consistent, law_poll_consistent,
    law_refreshed_all_consistent, law_refreshed_consistent, law_register_consistent,
    law_seen_consistent, law_start_job_consistent, law_stop_job_consistent, law_touch_consistent,
    law_transport_consistent, law_update_job_consistent, law_upsert_consistent,
};
use crate::shell_client::jobs::{bounded_option, is_with_agent, job_info};
use crate::shell_client::model::{
    bare_request, finished_job, project_models, result_response, result_succeeds, start_request,
    stopped_job, without_all, RegistryModel,
};
use crate::shell_client::protocol::{
    ProjectModel, RequestModel, ResponseModel, ShellAgentJobUpdateRequest, ShellAgentPollRequest,
    ShellAgentResultRequest, ShellClientRegisterRequest, ShellJobOpRequest, ShellRunRequest,
};
use crate::shell_client::state::{lemma_without, without, ClientModel, PendingModel};
use crate::shell_client::validation::id_error;
use crate::text::opt_text;
use vstd::prelude::*;

verus! {

/// An operation on the registry, with what it was given.
pub enum RegistryStep {
    Register(ShellClientRegisterRequest, Option<AuthModel>, i64),
    SetTransport(Seq<char>, Seq<char>),
    Touch(Seq<char>, Seq<char>, i64),
    SetLastSeen(Seq<char>, i64),
    SetNotifier(Seq<char>, Seq<char>),
    UpsertProject(Seq<char>, ProjectModel),
    Disconnect(Seq<char>, Seq<char>, i64),
    Cancel(Seq<char>),
    Enqueue(Option<Seq<char>>, RequestModel),
    StartJob {
        body: ShellJobOpRequest,
        run: ShellRunRequest,
        requested_by: Seq<char>,
        request_id: Seq<char>,
        job_id: Seq<char>,
        now: i64,
    },
    Refresh(Seq<char>, i64),
    RefreshAll(i64),
    StopJob { job_id: Seq<char>, requested_by: Seq<char>, stop_id: Seq<char>, now: i64 },
    UpdateJob(ShellAgentJobUpdateRequest, i64),
    Poll(ShellAgentPollRequest, i64),
    Complete(ShellAgentResultRequest, i64),
}

impl RegistryStep {
    /// The state after the operation.
    pub open spec fn apply(self, m: RegistryModel) -> RegistryModel {
        match self {
            RegistryStep::Register(b, auth, now) => m.register(b, auth, now).0,
            RegistryStep::SetTransport(c, transport) => m.transport_set(c, transport).0,
            RegistryStep::Touch(c, instance, now) => m.touch(c, instance, now).0,
            RegistryStep::SetLastSeen(c, at) => if m.clients.contains_key(c) {
                m.seen(c, at)
            } else {
                m
            },
            RegistryStep::SetNotifier(c, instance) => m.notifier_set(c, instance).0,
            RegistryStep::UpsertProject(c, p) => m.project_upserted(c, p).0,
            RegistryStep::Disconnect(c, instance, now) => m.disconnect(c, instance, now),
            RegistryStep::Cancel(r) => m.cancelled(r),
            RegistryStep::Enqueue(error, request) => m.enqueue(error, request).0,
            RegistryStep::StartJob { body, run, requested_by, request_id, job_id, now } => {
                m.start_job(body, run, requested_by, request_id, job_id, now).0
            },
            RegistryStep::Refresh(j, now) => m.refreshed(j, now),
            RegistryStep::RefreshAll(now) => m.refreshed_all(now),
            RegistryStep::StopJob { job_id, requested_by, stop_id, now } => {
                m.stop_job(job_id, requested_by, stop_id, now).0
            },
            RegistryStep::UpdateJob(b, now) => m.update_job(b, now).0,
            RegistryStep::Poll(b, now) => m.poll(b, now).0,
            RegistryStep::Complete(b, now) => m.complete(b, now).0,
        }
    }

    /// Whether the operation drew valid ids.
    pub open spec fn draws_valid_ids(self) -> bool {
        match self {
            RegistryStep::Enqueue(_, request) => id_error(request.request_id, "request_id"@) is None,
            RegistryStep::StartJob { request_id, job_id, .. } => id_error(
                request_id,
                "request_id"@,
            ) is None && id_error(job_id, "job_id"@) is None,
            RegistryStep::StopJob { stop_id, .. } => id_error(stop_id, "request_id"@) is None,
            _ => true,
        }
    }

    /// Whether the operation drew the id for a request of its own.
    pub open spec fn draws(self, id: Seq<char>) -> bool {
        match self {
            RegistryStep::Enqueue(_, request) => request.request_id == id,
            RegistryStep::StartJob { request_id, .. } => request_id == id,
            RegistryStep::StopJob { stop_id, .. } => stop_id == id,
            _ => false,
        }
    }
}

/// The state after the operations, one after the other.
pub open spec fn after(m: RegistryModel, steps: Seq<RegistryStep>) -> RegistryModel
    decreases steps.len(),
{
    if steps.len() == 0 {
        m
    } else {
        steps.last().apply(after(m, steps.drop_last()))
    }
}

/// Whether the operations drew valid ids, and none of them the id for a request of its own.
pub open spec fn leave_alone(steps: Seq<RegistryStep>, id: Seq<char>) -> bool {
    forall|i: int|
        0 <= i < steps.len() ==> (#[trigger] steps[i]).draws_valid_ids() && !steps[i].draws(id)
}

/// Whether a request is nowhere: it is not pending, and it waits in no queue.
pub open spec fn is_gone(m: RegistryModel, id: Seq<char>) -> bool {
    &&& !m.pending.contains_key(id)
    &&& forall|c: Seq<char>| !(#[trigger] m.queue_of(c)).contains(id)
}

/// Every operation keeps the registry consistent.
pub proof fn law_step_consistent(m: RegistryModel, step: RegistryStep)
    requires
        m.consistent(),
        step.draws_valid_ids(),
    ensures
        step.apply(m).consistent(),
{
    match step {
        RegistryStep::Register(b, auth, now) => {
            law_register_consistent(m, b, auth, now);
        },
        RegistryStep::SetTransport(c, transport) => {
            law_transport_consistent(m, c, transport);
        },
        RegistryStep::Touch(c, instance, now) => {
            law_touch_consistent(m, c, instance, now);
        },
        RegistryStep::SetLastSeen(c, at) => {
            if m.clients.contains_key(c) {
                law_seen_consistent(m, c, at);
            }
        },
        RegistryStep::SetNotifier(c, instance) => {
            law_notifier_consistent(m, c, instance);
        },
        RegistryStep::UpsertProject(c, p) => {
            law_upsert_consistent(m, c, p);
        },
        RegistryStep::Disconnect(c, instance, now) => {
            law_disconnect_consistent(m, c, instance, now);
        },
        RegistryStep::Cancel(r) => {
            law_cancel_consistent(m, r);
        },
        RegistryStep::Enqueue(error, request) => {
            law_enqueue_consistent(m, error, request);
        },
        RegistryStep::StartJob { body, run, requested_by, request_id, job_id, now } => {
            law_start_job_consistent(m, body, run, requested_by, request_id, job_id, now);
        },
        RegistryStep::Refresh(j, now) => {
            law_refreshed_consistent(m, j, now);
        },
        RegistryStep::RefreshAll(now) => {
            law_refreshed_all_consistent(m, now);
        },
        RegistryStep::StopJob { job_id, requested_by, stop_id, now } => {
            law_stop_job_consistent(m, job_id, requested_by, stop_id, now);
        },
        RegistryStep::UpdateJob(b, now) => {
            law_update_job_consistent(m, b, now);
        },
        RegistryStep::Poll(b, now) => {
            law_poll_consistent(m, b, now);
        },
        RegistryStep::Complete(b, now) => {
            law_complete_consistent(m, b, now);
        },
    }
}

/// Whether every pending request is filed under its id.
pub open spec fn is_filed(m: RegistryModel) -> bool {
    forall|r: Seq<char>| #[trigger]
        m.pending.contains_key(r) ==> m.pending[r].request.request_id == r
}

/// A request that is nowhere is not handed out, and stays nowhere.
proof fn lemma_take_next_leaves_gone(
    m: RegistryModel,
    client_id: Seq<char>,
    now: i64,
    id: Seq<char>,
)
    requires
        is_filed(m),
        is_gone(m, id),
    ensures
        is_gone(m.take_next(client_id, now).0, id),
        m.take_next(client_id, now).1 is Some ==> m.take_next(client_id, now).1->0.request_id != id,
    decreases m.queue_of(client_id).len(),
{
    if m.queue_of(client_id).len() > 0 {
        let queue = m.queues[client_id];
        let r = queue[0];
        let rest = m.popped(client_id);
        assert(m.queue_of(client_id).contains(r));
        assert forall|c: Seq<char>| !(#[trigger] rest.queue_of(c)).contains(id) by {
            assert(!m.queue_of(c).contains(id));
            if c == client_id {
                assert forall|i: int| 0 <= i < rest.queue_of(c).len() implies rest.queue_of(c)[i]
                    != id by {
                    assert(rest.queue_of(c)[i] == m.queue_of(c)[i + 1]);
                }
            }
        }
        if rest.pending.contains_key(r) {
            let done = rest.delivered(r, now);
            assert forall|c: Seq<char>| !(#[trigger] done.queue_of(c)).contains(id) by {
                assert(!rest.queue_of(c).contains(id));
            }
        } else {
            lemma_take_next_leaves_gone(rest, client_id, now, id);
        }
    }
}

/// A poll does not hand out a request that is nowhere, and leaves it nowhere.
pub proof fn law_poll_leaves_gone(
    m: RegistryModel,
    b: ShellAgentPollRequest,
    now: i64,
    id: Seq<char>,
)
    requires
        m.consistent(),
        is_gone(m, id),
    ensures
        is_gone(m.poll(b, now).0, id),
        m.poll(b, now).1 is Ok && m.poll(b, now).1->Ok_0 is Some ==> m.poll(
            b,
            now,
        ).1->Ok_0->0.request_id != id,
{
    if m.poll(b, now).1 is Ok {
        let c = m.clients[b.client_id@];
        let seen = RegistryModel {
            clients: m.clients.insert(
                b.client_id@,
                ClientModel {
                    projects: if b.projects is Some {
                        project_models(b.projects)
                    } else {
                        c.projects
                    },
                    last_seen: now,
                    ..c
                },
            ),
            ..m
        };
        assert forall|x: Seq<char>| !(#[trigger] seen.queue_of(x)).contains(id) by {
            assert(!m.queue_of(x).contains(id));
        }
        lemma_take_next_leaves_gone(seen, b.client_id@, now, id);
    }
}

/// A list of ids without those in a set has no others.
proof fn lemma_without_all_only(ids: Seq<Seq<char>>, gone: Set<Seq<char>>, id: Seq<char>)
    requires
        !ids.contains(id),
    ensures
        !without_all(ids, gone).contains(id),
    decreases ids.len(),
{
    if ids.len() > 0 {
        let front = ids.drop_last();
        assert forall|i: int| 0 <= i < front.len() implies front[i] != id by {
            assert(front[i] == ids[i]);
        }
        assert(ids[ids.len() - 1] != id);
        lemma_without_all_only(front, gone, id);
        let kept = without_all(front, gone);
        if !gone.contains(ids.last()) {
            assert forall|i: int| 0 <= i < kept.push(ids.last()).len() implies kept.push(
                ids.last(),
            )[i] != id by {
                if i < kept.len() {
                    assert(kept.contains(kept[i]));
                }
            }
        }
    }
}

/// A request at the end of a queue is the only one that is added.
proof fn lemma_with_request_leaves_gone(
    m: RegistryModel,
    p: PendingModel,
    id: Seq<char>,
)
    requires
        is_gone(m, id),
        p.request.request_id != id,
    ensures
        is_gone(m.with_request(p), id),
{
    let next = m.with_request(p);
    assert forall|c: Seq<char>| !(#[trigger] next.queue_of(c)).contains(id) by {
        assert(!m.queue_of(c).contains(id));
        if c == p.request.client_id {
            let before = m.queue_of(c);
            assert forall|i: int| 0 <= i < next.queue_of(c).len() implies next.queue_of(c)[i]
                != id by {
                if i < before.len() {
                    assert(before.contains(before[i]));
                }
            }
        }
    }
}

/// Cancelling a request adds none.
proof fn lemma_cancel_leaves_gone(m: RegistryModel, r: Seq<char>, id: Seq<char>)
    requires
        is_gone(m, id),
    ensures
        is_gone(m.cancelled(r), id),
{
    let next = m.cancelled(r);
    assert forall|c: Seq<char>| !(#[trigger] next.queue_of(c)).contains(id) by {
        assert(!m.queue_of(c).contains(id));
        if m.queues.contains_key(c) {
            lemma_without(m.queues[c], r);
        }
    }
}

/// Stopping a job adds no request but the one that it drew.
proof fn lemma_stop_leaves_gone(
    m: RegistryModel,
    job_id: Seq<char>,
    requested_by: Seq<char>,
    stop_id: Seq<char>,
    now: i64,
    id: Seq<char>,
)
    requires
        is_gone(m, id),
        stop_id != id,
    ensures
        is_gone(m.stop_job(job_id, requested_by, stop_id, now).0, id),
{
    let next = m.stop_job(job_id, requested_by, stop_id, now).0;
    if id_error(job_id, "job_id"@) is None && m.jobs.contains_key(job_id) {
        let job = m.jobs[job_id];
        if job.status == "queued"@ {
            if job.request_id is Some {
                let cut = m.cancelled(job.request_id->0);
                lemma_cancel_leaves_gone(m, job.request_id->0, id);
                assert forall|c: Seq<char>| !(#[trigger] next.queue_of(c)).contains(id) by {
                    assert(!cut.queue_of(c).contains(id));
                }
            } else {
                assert forall|c: Seq<char>| !(#[trigger] next.queue_of(c)).contains(id) by {
                    assert(!m.queue_of(c).contains(id));
                }
            }
        } else if is_with_agent(job.status) && m.queue_error(job.client_id) is None {
            let p = PendingModel {
                request: RequestModel {
                    job_id: Some(job_id),
                    ..bare_request(stop_id, job.client_id, "stop_job"@, 1, requested_by, now)
                },
                waiter: false,
                job_id: Some(job_id),
            };
            let queued = m.with_request(p);
            lemma_with_request_leaves_gone(m, p, id);
            assert forall|c: Seq<char>| !(#[trigger] next.queue_of(c)).contains(id) by {
                assert(!queued.queue_of(c).contains(id));
            }
        }
    }
}

/// A request that is nowhere stays so, unless its id is drawn again.
pub proof fn law_gone_stays_gone(m: RegistryModel, step: RegistryStep, id: Seq<char>)
    requires
        m.consistent(),
        is_gone(m, id),
        !step.draws(id),
    ensures
        is_gone(step.apply(m), id),
{
    let next = step.apply(m);
    match step {
        RegistryStep::Disconnect(c, instance, now) => {
            if m.active_error(c, instance) is None {
                let lost = m.requests_lost_with(c);
                assert forall|x: Seq<char>| !(#[trigger] next.queue_of(x)).contains(id) by {
                    assert(!m.queue_of(x).contains(id));
                    if x == c && m.queues.contains_key(c) {
                        lemma_without_all_only(m.queues[c], lost, id);
                    }
                }
            }
        },
        RegistryStep::Cancel(r) => {
            lemma_cancel_leaves_gone(m, r, id);
        },
        RegistryStep::Enqueue(error, request) => {
            lemma_with_request_leaves_gone(
                m,
                PendingModel { request, waiter: true, job_id: None },
                id,
            );
        },
        RegistryStep::StartJob { body, run, requested_by, request_id, job_id, now } => {
            let request = start_request(
                run,
                requested_by,
                request_id,
                job_id,
                now,
            );
            let p = PendingModel {
                request,
                waiter: false,
                job_id: Some(job_id),
            };
            lemma_with_request_leaves_gone(m, p, id);
            let queued = m.with_request(p);
            assert forall|c: Seq<char>| !(#[trigger] next.queue_of(c)).contains(id) by {
                assert(!m.queue_of(c).contains(id));
                assert(!queued.queue_of(c).contains(id));
            }
        },
        RegistryStep::StopJob { job_id, requested_by, stop_id, now } => {
            lemma_stop_leaves_gone(m, job_id, requested_by, stop_id, now, id);
        },
        RegistryStep::Poll(b, now) => {
            law_poll_leaves_gone(m, b, now, id);
        },
        _ => {
            assert forall|x: Seq<char>| !(#[trigger] next.queue_of(x)).contains(id) by {
                assert(!m.queue_of(x).contains(id));
            }
        },
    }
}

/// A request that is nowhere stays so over any operations, unless its id is drawn
/// again, and the registry stays consistent.
pub proof fn law_gone_for_good(m: RegistryModel, steps: Seq<RegistryStep>, id: Seq<char>)
    requires
        m.consistent(),
        is_gone(m, id),
        leave_alone(steps, id),
    ensures
        after(m, steps).consistent(),
        is_gone(after(m, steps), id),
    decreases steps.len(),
{
    if steps.len() > 0 {
        let front = steps.drop_last();
        assert forall|i: int| 0 <= i < front.len() implies (#[trigger] front[i]).draws_valid_ids()
            && !front[i].draws(id) by {
            assert(front[i] == steps[i]);
        }
        law_gone_for_good(m, front, id);
        assert(steps.last() == steps[steps.len() - 1]);
        law_step_consistent(after(m, front), steps.last());
        law_gone_stays_gone(after(m, front), steps.last(), id);
    }
}

/// How often a request waits in the queue of a client.
pub open spec fn times_waiting(m: RegistryModel, client_id: Seq<char>, id: Seq<char>) -> nat {
    m.queue_of(client_id).to_multiset().count(id)
}

/// Dropping an id shortens a queue by as many places as it had there.
proof fn lemma_without_len(ids: Seq<Seq<char>>, id: Seq<char>)
    ensures
        without(ids, id).len() + ids.to_multiset().count(id) == ids.len(),
    decreases ids.len(),
{
    broadcast use vstd::seq_lib::group_to_multiset_ensures;

    if ids.len() > 0 {
        let front = ids.drop_last();
        lemma_without_len(front, id);
        assert(front.push(ids.last()) =~= ids);
        assert(ids.to_multiset() =~= front.to_multiset().insert(ids.last()));
    } else {
        assert(ids.to_multiset().len() == 0);
        assert(ids.to_multiset().count(id) == 0);
    }
}

/// A job that was started waits as queued, and its request, which was not there
/// before, waits once for the client.
pub proof fn law_started_job_waits_once(
    m: RegistryModel,
    body: ShellJobOpRequest,
    run: ShellRunRequest,
    requested_by: Seq<char>,
    request_id: Seq<char>,
    job_id: Seq<char>,
    now: i64,
)
    requires
        m.start_job(body, run, requested_by, request_id, job_id, now).1 is Ok,
        times_waiting(m, run.client_id@, request_id) == 0,
    ensures
        ({
            let next = m.start_job(body, run, requested_by, request_id, job_id, now).0;
            &&& next.jobs.contains_key(job_id)
            &&& next.jobs[job_id].status == "queued"@
            &&& next.jobs[job_id].client_id == run.client_id@
            &&& next.jobs[job_id].request_id == Some(request_id)
            &&& times_waiting(next, run.client_id@, request_id) == 1
            &&& next.queue_of(run.client_id@).len() == m.queue_of(run.client_id@).len() + 1
        }),
{
    broadcast use vstd::seq_lib::group_to_multiset_ensures;

    let before = m.queue_of(run.client_id@);
    assert(before.push(request_id).to_multiset() =~= before.to_multiset().insert(request_id));
}

/// Stopping a job whose request still waits, once, for its client ends the job at
/// once. The answer says so, the client has one request less to do, and whatever is
/// done to the registry after that, no poll ever hands the request to an agent.
pub proof fn law_stopped_job_is_never_handed_out(
    m: RegistryModel,
    job_id: Seq<char>,
    requested_by: Seq<char>,
    stop_id: Seq<char>,
    now: i64,
    steps: Seq<RegistryStep>,
    poll: ShellAgentPollRequest,
    later: i64,
)
    requires
        m.consistent(),
        m.jobs.contains_key(job_id),
        m.jobs[job_id].status == "queued"@,
        m.jobs[job_id].request_id is Some,
        times_waiting(m, m.jobs[job_id].client_id, m.jobs[job_id].request_id->0) == 1,
        leave_alone(steps, m.jobs[job_id].request_id->0),
        id_error(stop_id, "request_id"@) is None,
    ensures
        ({
            let c = m.jobs[job_id].client_id;
            let r = m.jobs[job_id].request_id->0;
            let (next, told) = m.stop_job(job_id, requested_by, stop_id, now);
            let end = after(next, steps);
            &&& told == Ok::<_, Seq<char>>(job_info(stopped_job(m.jobs[job_id], now), now))
            &&& told->Ok_0.status == "stopped"@
            &&& told->Ok_0.ended_at == Some(now)
            &&& told->Ok_0.error == Some("job stopped before agent picked it up"@)
            &&& next.jobs[job_id] == stopped_job(m.jobs[job_id], now)
            &&& next.client_view(c, now).pending_requests == m.client_view(c, now).pending_requests
                - 1
            &&& is_gone(end, r)
            &&& end.poll(poll, later).1 is Ok && end.poll(poll, later).1->Ok_0 is Some
                ==> end.poll(poll, later).1->Ok_0->0.request_id != r
        }),
{
    let c = m.jobs[job_id].client_id;
    let r = m.jobs[job_id].request_id->0;
    let next = m.stop_job(job_id, requested_by, stop_id, now).0;
    let cut = m.cancelled(r);
    lemma_without_len(m.queue_of(c), r);
    assert(m.queues.contains_key(c)) by {
        if !m.queues.contains_key(c) {
            assert(m.queue_of(c).len() == 0);
        }
    }
    assert(next.queue_of(c) == without(m.queues[c], r));
    assert forall|x: Seq<char>| !(#[trigger] next.queue_of(x)).contains(r) by {
        if m.queues.contains_key(x) {
            lemma_without(m.queues[x], r);
        }
    }
    law_stop_job_consistent(m, job_id, requested_by, stop_id, now);
    law_gone_for_good(next, steps, r);
    law_poll_leaves_gone(after(next, steps), poll, later, r);
}

/// The result of a pending request counts once. The first time it is handed in, the
/// caller who waits is told what it holds and the job that the request started ends;
/// the second time the request is unknown, and no job changes.
pub proof fn law_completed_once(
    m: RegistryModel,
    b: ShellAgentResultRequest,
    again: ShellAgentResultRequest,
    now: i64,
    later: i64,
)
    requires
        m.consistent(),
        m.pending.contains_key(b.request_id@),
        m.pending[b.request_id@].request.client_id == b.client_id@,
        m.active_error(b.client_id@, b.agent_instance_id@) is None,
        again.request_id@ == b.request_id@,
        again.client_id@ == b.client_id@,
        again.agent_instance_id@ == b.agent_instance_id@,
    ensures
        ({
            let p = m.pending[b.request_id@];
            let (next, told) = m.complete(b, now);
            let (end, refused) = next.complete(again, later);
            &&& told == Ok::<_, Seq<char>>(
                if p.waiter {
                    Some(result_response(p.request, b))
                } else {
                    None::<ResponseModel>
                },
            )
            &&& result_response(p.request, b).success == (b.error is None && b.exit_code == Some(
                0i32,
            ))
            &&& result_response(p.request, b).stdout == bounded_option(opt_text(b.stdout))
            &&& next.jobs == match p.job_id {
                Some(j) => m.jobs.insert(j, finished_job(m.jobs[j], b, now)),
                None => m.jobs,
            }
            &&& p.job_id is Some ==> m.jobs.contains_key(p.job_id->0) && next.jobs[p.job_id->0].status
                == if result_succeeds(b) {
                "completed"@
            } else {
                "failed"@
            }
            &&& refused == Err::<Option<ResponseModel>, Seq<char>>(
                "unknown or expired shell request: "@ + b.request_id@,
            )
            &&& end.jobs == next.jobs
        }),
{
    let p = m.pending[b.request_id@];
    let next = m.complete(b, now).0;
    assert(m.clients[b.client_id@].client_id == b.client_id@);
    assert(!next.pending.contains_key(b.request_id@));
    assert(next.active_error(b.client_id@, b.agent_instance_id@) is None);
}

} // verus!
