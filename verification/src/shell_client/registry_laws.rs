//! What each operation does to the registry, what it leaves alone, and what lists and
//! answers hold.
use crate::shell_client::access::{access_error, AuthModel};
use crate::shell_client::job_laws::tells_job;
use crate::shell_client::jobs::{is_with_agent, selected};
use crate::shell_client::model::RegistryModel;
use crate::shell_client::protocol::{
    ClientViewModel, JobInfoModel, ProjectModel, ShellAgentPollRequest, ShellClientJobLogRequest,
    ShellClientJobStatusRequest, ShellClientJobStopRequest,
};
use crate::shell_client::registry::{
    is_client_listing, is_job_listing, is_limited_listing, lists_client, lists_job,
};
use crate::shell_client::requests::{
    file_failure, log_answer, run_failure, status_answer, stop_answer,
};
use crate::shell_client::validation::{
    has_project, id_error, ids_ascend, instance_error, lemma_project_place, normalized,
    project_place, upserted,
};
use crate::lines::{join, lines_of};
use crate::order::{lemma_less_irreflexive, text_less};
use crate::text::{opt_text, views};
use vstd::prelude::*;

verus! {

// ---------------------------------------------------------------------------
// Clients
// ---------------------------------------------------------------------------

/// A sign of life changes when its client was last seen, and nothing else; a label for its
/// transport changes the label, and nothing else.
pub proof fn law_signs_of_life(
    m: RegistryModel,
    client_id: Seq<char>,
    instance: Seq<char>,
    transport: Seq<char>,
    now: i64,
    other: Seq<char>,
)
    requires
        m.clients.contains_key(client_id),
        m.clients[client_id].agent_instance_id == instance,
        instance_error(instance) is None,
        other != client_id,
    ensures
        ({
            let (seen, told) = m.touch(client_id, instance, now);
            let (labelled, done) = m.transport_set(client_id, transport);
            let a = seen.clients[client_id];
            let b = labelled.clients[client_id];
            let c = m.clients[client_id];
            &&& told is Ok && done is Ok
            &&& a.last_seen == now && a.transport == c.transport
            &&& b.transport == transport && b.last_seen == c.last_seen
            &&& a.agent_instance_id == instance && b.agent_instance_id == instance
            &&& a.owner == c.owner && b.owner == c.owner
            &&& a.projects == c.projects && b.projects == c.projects
            &&& a.capabilities == c.capabilities && b.capabilities == c.capabilities
            &&& m.clients.contains_key(other) ==> seen.clients[other] == m.clients[other]
                && labelled.clients[other] == m.clients[other]
            &&& seen.jobs == m.jobs && seen.pending == m.pending && seen.queues == m.queues
            &&& labelled.jobs == m.jobs && labelled.pending == m.pending && labelled.queues
                == m.queues
        }),
{
}

/// What is done in the name of a client that is not registered is refused.
pub proof fn law_unknown_clients_are_refused(
    m: RegistryModel,
    client_id: Seq<char>,
    instance: Seq<char>,
    transport: Seq<char>,
    p: ProjectModel,
    poll: ShellAgentPollRequest,
    now: i64,
)
    requires
        !m.clients.contains_key(client_id),
        poll.client_id@ == client_id,
    ensures
        m.touch(client_id, instance, now).1 is Err,
        m.touch(client_id, instance, now).0 == m,
        m.transport_set(client_id, transport).1 == Err::<(), Seq<char>>(
            "unknown shell client: "@ + client_id,
        ),
        m.project_upserted(client_id, p).1 == Err::<(), Seq<char>>(
            "unknown shell client: "@ + client_id,
        ),
        m.project_upserted(client_id, p).0 == m,
        m.poll(poll, now).1 is Err,
        m.poll(poll, now).0 == m,
{
}

/// A poll tells the projects of its client anew where it names some, each id once and in
/// order, and leaves them where it names none; either way the client was seen.
pub proof fn law_poll_tells_projects(m: RegistryModel, b: ShellAgentPollRequest, now: i64)
    requires
        m.poll(b, now).1 is Ok,
        m.queue_of(b.client_id@).len() == 0,
    ensures
        ({
            let next = m.poll(b, now).0;
            let c = next.clients[b.client_id@];
            &&& m.poll(b, now).1->Ok_0 is None
            &&& c.last_seen == now
            &&& b.projects is None ==> c.projects == m.clients[b.client_id@].projects
            &&& b.projects is Some ==> {
                &&& ids_ascend(c.projects)
                &&& forall|id: Seq<char>|
                    has_project(c.projects, id) == #[trigger] has_project(
                        views(b.projects->0@),
                        id,
                    )
            }
            &&& c.agent_instance_id == m.clients[b.client_id@].agent_instance_id
            &&& c.owner == m.clients[b.client_id@].owner
            &&& next.jobs == m.jobs && next.pending == m.pending
        }),
{
    if b.projects is Some {
        let given = views(b.projects->0@);
        crate::shell_client::validation::law_normalized_ascends(given);
        assert forall|id: Seq<char>|
            has_project(normalized(given), id) == #[trigger] has_project(given, id) by {
            crate::shell_client::validation::law_normalized_keeps_ids(given, id);
        }
    }
}

/// A project that is put takes the place of the one with its id, and no other project
/// changes.
pub proof fn law_put_project_replaces(s: Seq<ProjectModel>, p: ProjectModel, q: ProjectModel)
    requires
        ids_ascend(s),
        q.id != p.id,
    ensures
        upserted(s, p).contains(p),
        upserted(s, p).contains(q) <==> s.contains(q),
        has_project(s, p.id) ==> upserted(s, p).len() == s.len(),
        !has_project(s, p.id) ==> upserted(s, p).len() == s.len() + 1,
{
    crate::shell_client::validation::law_upserted(s, p);
    lemma_project_place(s, p.id);
    let k = project_place(s, p.id);
    let t = upserted(s, p);
    if k < s.len() && s[k].id == p.id {
        assert(has_project(s, p.id));
        if s.contains(q) {
            let i = choose|i: int| 0 <= i < s.len() && s[i] == q;
            assert(t[i] == q);
        }
        if t.contains(q) {
            let i = choose|i: int| 0 <= i < t.len() && t[i] == q;
            assert(s[i] == q);
        }
    } else {
        if has_project(s, p.id) {
            let i = choose|i: int| 0 <= i < s.len() && (#[trigger] s[i]).id == p.id;
            lemma_less_irreflexive(p.id);
            if i < k {
                assert(text_less(s[i].id, p.id));
            } else if i > k {
                assert(text_less(s[k].id, s[i].id));
                assert(!text_less(s[k].id, p.id));
            }
        }
        if s.contains(q) {
            let i = choose|i: int| 0 <= i < s.len() && s[i] == q;
            assert(t[if i < k { i } else { i + 1 }] == q);
        }
        if t.contains(q) {
            let i = choose|i: int| 0 <= i < t.len() && t[i] == q;
            assert(i != k);
            assert(s[if i < k { i } else { i - 1 }] == q);
        }
    }
}

/// A list of clients holds exactly those that its caller sees, in the order of their ids,
/// each as it stands.
pub proof fn law_client_list(
    m: RegistryModel,
    auth: Option<AuthModel>,
    now: i64,
    r: Seq<ClientViewModel>,
    c: Seq<char>,
    i: int,
    j: int,
)
    requires
        m.consistent(),
        is_client_listing(m, auth, now, r),
    ensures
        (exists|k: int| 0 <= k < r.len() && (#[trigger] r[k]).client_id == c) <==> (
        m.clients.contains_key(c) && (auth is None || access_error(auth, m.clients[c]) is None)),
        0 <= i < j < r.len() ==> text_less(r[i].client_id, r[j].client_id),
        0 <= i < r.len() ==> {
            let k = m.clients[r[i].client_id];
            &&& r[i].owner == k.owner
            &&& r[i].agent_instance_id == k.agent_instance_id
            &&& r[i].projects == k.projects
            &&& r[i].capabilities == k.capabilities
            &&& r[i].last_seen == k.last_seen
            &&& r[i].connected == (now - k.last_seen <= 60)
            &&& r[i].pending_requests == m.queue_of(r[i].client_id).len()
        },
{
    if m.clients.contains_key(c) && (auth is None || access_error(auth, m.clients[c]) is None) {
        assert(lists_client(r, c));
    }
    if 0 <= i < r.len() {
        assert(m.clients.contains_key(r[i].client_id));
        assert(m.queue_of(r[i].client_id).len() <= 256) by {
            if m.queues.contains_key(r[i].client_id) {
            }
        }
    }
}

// ---------------------------------------------------------------------------
// Jobs
// ---------------------------------------------------------------------------

/// A list of jobs holds the latest ones first, each once, up to the limit: 20 where none is
/// asked for, and at most 100. Each is told as it stands and is of the client and in the
/// state that were asked for; and where the list is not full, no such job is left out.
pub proof fn law_job_list(
    m: RegistryModel,
    auth: Option<AuthModel>,
    client_id: Option<Seq<char>>,
    status: Option<Seq<char>>,
    limit: Option<usize>,
    now: i64,
    r: Seq<JobInfoModel>,
    i: int,
    j: int,
    id: Seq<char>,
)
    requires
        is_limited_listing(m, auth, client_id, status, limit, now, r),
    ensures
        ({
            let max = match limit {
                Some(n) => if n < 1 {
                    1
                } else if n > 100 {
                    100
                } else {
                    n as int
                },
                None => 20,
            };
            &&& r.len() <= max
            &&& 0 <= i < j < r.len() ==> r[i].created_at >= r[j].created_at && r[i].job_id
                != r[j].job_id
            &&& 0 <= i < r.len() ==> {
                let job = m.jobs[r[i].job_id];
                &&& m.jobs.contains_key(r[i].job_id)
                &&& tells_job(job, now, r[i])
                &&& client_id is Some ==> r[i].client_id == client_id->0
                &&& status is Some ==> r[i].status == status->0
                &&& m.sees_jobs_of(auth, r[i].client_id)
            }
            &&& r.len() < max && m.jobs.contains_key(id) && (client_id is Some
                ==> m.jobs[id].client_id == client_id->0) && (status is Some ==> m.jobs[id].status
                == status->0) && m.sees_jobs_of(auth, m.jobs[id].client_id) ==> exists|k: int|
                0 <= k < r.len() && (#[trigger] r[k]).job_id == id
        }),
{
    let all = choose|all: Seq<JobInfoModel>| #[trigger]
        is_job_listing(m, auth, client_id, status, now, all) && r == (if all.len()
            <= crate::shell_client::registry::listing_limit(limit) {
            all
        } else {
            all.take(crate::shell_client::registry::listing_limit(limit))
        });
    if 0 <= i < r.len() {
        assert(r[i] == all[i]);
        assert(m.jobs.contains_key(all[i].job_id));
    }
    if 0 <= j < r.len() {
        assert(r[j] == all[j]);
    }
    if m.jobs.contains_key(id) && crate::shell_client::registry::picks(
        m,
        auth,
        client_id,
        status,
        m.jobs[id],
    ) {
        assert(lists_job(all, id));
    }
}

/// Bringing jobs up to date loses exactly those that an agent had which is no longer
/// online; no other job changes.
pub proof fn law_refresh_loses_stale_jobs(m: RegistryModel, now: i64, id: Seq<char>)
    requires
        m.jobs.contains_key(id),
    ensures
        ({
            let next = m.refreshed_all(now);
            let job = m.jobs[id];
            let had = job.status == "agent_queued"@ || job.status == "running"@ || job.status
                == "stop_requested"@;
            let online = m.clients.contains_key(job.client_id) && now
                - m.clients[job.client_id].last_seen <= 60;
            &&& next.jobs.contains_key(id)
            &&& had && !online ==> next.jobs[id].status == "lost"@ && next.jobs[id].ended_at
                == Some(now) && next.jobs[id].error == Some(
                "shell client went stale while job was running"@,
            )
            &&& !had || online ==> next.jobs[id] == job
            &&& next.clients == m.clients && next.pending == m.pending && next.queues == m.queues
        }),
{
}

/// A log is told from the line that is asked for, or its last lines where so many are asked
/// for, and names the line to go on from.
pub proof fn law_log_is_told(
    v: Seq<char>,
    since: Option<usize>,
    tail: Option<usize>,
)
    requires
        lines_of(v).len() < usize::MAX,
    ensures
        ({
            let lines = lines_of(v);
            let n = lines.len() as int;
            let (told, next) = selected(Some(v), since, tail);
            let first = if tail is Some && tail->0 > 0 {
                if tail->0 >= n {
                    0
                } else {
                    n - tail->0
                }
            } else if since is Some && since->0 > 1 {
                if since->0 - 1 > n {
                    n
                } else {
                    since->0 - 1
                }
            } else {
                0
            };
            let text = join(lines.skip(first), "\n"@);
            &&& next == n + 1
            &&& told == Some(
                if text.len() == 0 {
                    text
                } else {
                    text + "\n"@
                },
            )
        }),
        selected(None, since, tail) == (Some(Seq::<char>::empty()), match since {
            Some(l) => l,
            None => 1usize,
        }),
{
}

/// A disconnect touches the jobs, the requests and the queue of its own client, and nothing
/// of any other.
pub proof fn law_disconnect_leaves_others(
    m: RegistryModel,
    client_id: Seq<char>,
    instance: Seq<char>,
    now: i64,
    other: Seq<char>,
    job: Seq<char>,
)
    requires
        m.clients.contains_key(client_id),
        m.clients[client_id].agent_instance_id == instance,
        other != client_id,
    ensures
        ({
            let next = m.disconnect(client_id, instance, now);
            &&& m.clients.contains_key(other) ==> next.clients[other] == m.clients[other]
            &&& next.queue_of(other) == m.queue_of(other)
            &&& m.jobs.contains_key(job) && m.jobs[job].client_id != client_id ==> next.jobs[job]
                == m.jobs[job]
            &&& m.jobs.contains_key(job) && m.jobs[job].client_id == client_id && (
            m.jobs[job].status == "queued"@ || m.jobs[job].status == "running"@
                || m.jobs[job].status == "agent_queued"@ || m.jobs[job].status
                == "stop_requested"@) ==> {
                &&& next.jobs[job].status == "lost"@
                &&& next.jobs[job].error == Some("agent transport disconnected"@)
                &&& next.jobs[job].ended_at == Some(now)
            }
            &&& next.clients[client_id].agent_instance_id == instance
            &&& next.clients[client_id].owner == m.clients[client_id].owner
        }),
{
}

// ---------------------------------------------------------------------------
// Answers
// ---------------------------------------------------------------------------

/// A caller who may use the client of a job is told its status, its log and that it is
/// stopped, each with the job; where the caller names another client, or may not use this
/// one, it is told none of these.
pub proof fn law_job_answers(
    m: RegistryModel,
    auth: Option<AuthModel>,
    s: ShellClientJobStatusRequest,
    l: ShellClientJobLogRequest,
    p: ShellClientJobStopRequest,
    stop_id: Seq<char>,
    now: i64,
)
    requires
        id_error(s.job_id@, "job_id"@) is None,
        m.jobs.contains_key(s.job_id@),
        l.job_id@ == s.job_id@,
        p.job_id@ == s.job_id@,
        opt_text(l.client_id) == opt_text(s.client_id),
        opt_text(p.client_id) == opt_text(s.client_id),
    ensures
        ({
            let id = s.job_id@;
            let client_id = m.jobs[id].client_id;
            let allowed = (s.client_id is None || s.client_id->0@ == client_id)
                && m.clients.contains_key(client_id) && access_error(auth, m.clients[client_id])
                is None;
            let (seen, status) = status_answer(m, auth, s, now);
            let (read, log) = log_answer(m, auth, l, now);
            let (stopped, stop) = stop_answer(m, auth, p, stop_id, now);
            let job = seen.jobs[id];
            &&& allowed ==> {
                &&& status.0 == 200 && status.1.success && status.1.error is None
                &&& status.1.job_id == Some(job.job_id)
                &&& status.1.client_id == Some(job.client_id)
                &&& status.1.kind == Some(job.kind)
                &&& status.1.status == Some(job.status)
                &&& status.1.exit_code == job.exit_code
                &&& status.1.job is Some && tells_job(job, now, status.1.job->0)
                &&& log.0 == 200 && log.1.success && log.1.error is None
                &&& log.1.job_id == Some(job.job_id)
                &&& log.1.stdout_tail == selected(
                    job.stdout,
                    l.since_stdout_line,
                    l.tail_lines,
                ).0
                &&& log.1.stderr_tail == selected(
                    job.stderr,
                    l.since_stderr_line,
                    l.tail_lines,
                ).0
                &&& log.1.next_stdout_line == Some(
                    selected(job.stdout, l.since_stdout_line, l.tail_lines).1,
                )
                &&& log.1.next_stderr_line == Some(
                    selected(job.stderr, l.since_stderr_line, l.tail_lines).1,
                )
                &&& job.status == "queued"@ ==> stop.0 == 200 && stop.1.success && stop.1.status
                    == Some("stopped"@) && stopped.jobs[id].status == "stopped"@
            }
            &&& !allowed ==> {
                &&& status.0 == 400 || status.0 == 403
                &&& !status.1.success && status.1.job is None && status.1.status is None
                &&& !log.1.success && log.1.stdout_tail is None && log.1.stderr_tail is None
                &&& !stop.1.success && stopped.queues == m.queues && stopped.pending == m.pending
            }
        }),
{
    reveal_strlit("queued");
    reveal_strlit("agent_queued");
    reveal_strlit("running");
    reveal_strlit("stop_requested");
    assert("queued"@.len() == 6);
    assert("agent_queued"@.len() == 12);
    assert("running"@.len() == 7);
    assert("stop_requested"@.len() == 14);
    let (seen, found) = m.get_job(None, s.job_id@, now);
    let again = seen.get_job(None, s.job_id@, now);
    assert(!is_with_agent("lost"@)) by {
    reveal_strlit("lost");
    reveal_strlit("agent_queued");
    reveal_strlit("running");
    reveal_strlit("stop_requested");
    assert("lost"@.len() == 4);
    assert("agent_queued"@.len() == 12);
    assert("running"@.len() == 7);
    assert("stop_requested"@.len() == 14);
    }
    assert(again.0.jobs[s.job_id@] == seen.jobs[s.job_id@]);
}

/// A command or a file operation that did not run is told as failed, with why, and with no
/// output of it.
pub proof fn law_failures_tell_why(
    request_id: Seq<char>,
    client_id: Seq<char>,
    cwd: Option<Seq<char>>,
    shown: Seq<char>,
    op: Seq<char>,
    path: Seq<char>,
    error: Seq<char>,
)
    ensures
        ({
            let r = run_failure(request_id, client_id, cwd, shown, error);
            let f = file_failure(op, client_id, path, cwd, error);
            &&& !r.success && r.error == Some(error)
            &&& r.request_id == request_id && r.client_id == client_id && r.cwd == cwd
            &&& r.command_preview == shown
            &&& r.exit_code is None && r.stdout is None && r.stderr is None
            &&& !f.success && f.error == Some(error)
            &&& f.op == op && f.client_id == client_id && f.path == path && f.cwd == cwd
            &&& f.content is None && f.entries.len() == 0 && f.bytes is None && f.sha256 is None
        }),
{
}

} // verus!
