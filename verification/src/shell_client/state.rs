//! What the registry keeps: clients, pending requests, queues and jobs.
use crate::shell_client::access::{GroupModel, ShellClientAuthGroup};
use crate::shell_client::protocol::{
    AgentPolicySummary, CodexModel, PolicyModel, ProjectModel, RequestModel,
    ShellAgentProjectSummary, ShellAgentShellRequest, ShellClientCapabilities,
    ShellJobCodexMetadata,
};
use crate::text::{lemma_texts_push, opt_text, opt_view, str_eq, texts, views};
use std::collections::VecDeque;
use vstd::prelude::*;

verus! {

/// What the registry keeps of a registered client.
#[derive(Debug)]
pub struct ShellClientRecord {
    pub client_id: String,
    /// The agent process that holds the lease on this client. Replacing it hands
    /// the lease over: the previous process can no longer poll or report.
    pub agent_instance_id: String,
    pub display_name: Option<String>,
    pub owner: Option<String>,
    pub hostname: Option<String>,
    pub capabilities: ShellClientCapabilities,
    pub projects: Vec<ShellAgentProjectSummary>,
    pub last_seen: i64,
    pub agent_protocol_version: String,
    /// How the client is connected: `polling`, `websocket` or `quic`.
    pub transport: String,
    pub policy: Option<AgentPolicySummary>,
    /// The group that the client was registered in; not shown to callers.
    pub auth_group: Option<ShellClientAuthGroup>,
}

/// The mathematical value of a [`ShellClientRecord`].
#[verifier::ext_equal]
pub struct ClientModel {
    pub client_id: Seq<char>,
    pub agent_instance_id: Seq<char>,
    pub display_name: Option<Seq<char>>,
    pub owner: Option<Seq<char>>,
    pub hostname: Option<Seq<char>>,
    pub capabilities: ShellClientCapabilities,
    pub projects: Seq<ProjectModel>,
    pub last_seen: i64,
    pub agent_protocol_version: Seq<char>,
    pub transport: Seq<char>,
    pub policy: Option<PolicyModel>,
    pub auth_group: Option<GroupModel>,
}

impl View for ShellClientRecord {
    type V = ClientModel;

    open spec fn view(&self) -> ClientModel {
        ClientModel {
            client_id: self.client_id@,
            agent_instance_id: self.agent_instance_id@,
            display_name: opt_text(self.display_name),
            owner: opt_text(self.owner),
            hostname: opt_text(self.hostname),
            capabilities: self.capabilities,
            projects: views(self.projects@),
            last_seen: self.last_seen,
            agent_protocol_version: self.agent_protocol_version@,
            transport: self.transport@,
            policy: opt_view(self.policy),
            auth_group: opt_view(self.auth_group),
        }
    }
}

/// A request that no result has come for.
#[derive(Debug)]
pub struct PendingShellRequest {
    pub request: ShellAgentShellRequest,
    /// Whether a caller waits for the result.
    pub waiter: bool,
    pub job_id: Option<String>,
}

/// The mathematical value of a [`PendingShellRequest`].
#[verifier::ext_equal]
pub struct PendingModel {
    pub request: RequestModel,
    pub waiter: bool,
    pub job_id: Option<Seq<char>>,
}

impl View for PendingShellRequest {
    type V = PendingModel;

    open spec fn view(&self) -> PendingModel {
        PendingModel {
            request: self.request@,
            waiter: self.waiter,
            job_id: opt_text(self.job_id),
        }
    }
}

/// What the registry keeps of a job.
#[derive(Debug)]
pub struct ShellJobRecord {
    pub job_id: String,
    pub request_id: Option<String>,
    pub client_id: String,
    pub kind: String,
    pub project_id: Option<String>,
    pub cwd: Option<String>,
    pub command_preview: String,
    pub status: String,
    pub created_at: i64,
    pub started_at: Option<i64>,
    pub ended_at: Option<i64>,
    pub exit_code: Option<i32>,
    pub duration_ms: Option<u64>,
    pub stdout: Option<String>,
    pub stderr: Option<String>,
    pub error: Option<String>,
    pub codex: Option<ShellJobCodexMetadata>,
}

/// The mathematical value of a [`ShellJobRecord`].
#[verifier::ext_equal]
pub struct JobModel {
    pub job_id: Seq<char>,
    pub request_id: Option<Seq<char>>,
    pub client_id: Seq<char>,
    pub kind: Seq<char>,
    pub project_id: Option<Seq<char>>,
    pub cwd: Option<Seq<char>>,
    pub command_preview: Seq<char>,
    pub status: Seq<char>,
    pub created_at: i64,
    pub started_at: Option<i64>,
    pub ended_at: Option<i64>,
    pub exit_code: Option<i32>,
    pub duration_ms: Option<u64>,
    pub stdout: Option<Seq<char>>,
    pub stderr: Option<Seq<char>>,
    pub error: Option<Seq<char>>,
    pub codex: Option<CodexModel>,
}

impl View for ShellJobRecord {
    type V = JobModel;

    open spec fn view(&self) -> JobModel {
        JobModel {
            job_id: self.job_id@,
            request_id: opt_text(self.request_id),
            client_id: self.client_id@,
            kind: self.kind@,
            project_id: opt_text(self.project_id),
            cwd: opt_text(self.cwd),
            command_preview: self.command_preview@,
            status: self.status@,
            created_at: self.created_at,
            started_at: self.started_at,
            ended_at: self.ended_at,
            exit_code: self.exit_code,
            duration_ms: self.duration_ms,
            stdout: opt_text(self.stdout),
            stderr: opt_text(self.stderr),
            error: opt_text(self.error),
            codex: opt_view(self.codex),
        }
    }
}

/// The ids of the requests that wait for one client, first in first out.
#[derive(Debug)]
pub struct RequestQueue {
    ids: VecDeque<String>,
}

impl View for RequestQueue {
    type V = Seq<Seq<char>>;

    closed spec fn view(&self) -> Seq<Seq<char>> {
        texts(self.ids@)
    }
}

/// `ids` without the id `id`.
pub open spec fn without(ids: Seq<Seq<char>>, id: Seq<char>) -> Seq<Seq<char>>
    decreases ids.len(),
{
    if ids.len() == 0 {
        seq![]
    } else if ids.last() == id {
        without(ids.drop_last(), id)
    } else {
        without(ids.drop_last(), id).push(ids.last())
    }
}

/// `without` leaves no occurrence of the id, keeps every other one, and adds none.
pub proof fn lemma_without(ids: Seq<Seq<char>>, id: Seq<char>)
    ensures
        !without(ids, id).contains(id),
        without(ids, id).len() <= ids.len(),
        forall|x: Seq<char>| x != id ==> (without(ids, id).contains(x) <==> ids.contains(x)),
        !ids.contains(id) ==> without(ids, id) == ids,
    decreases ids.len(),
{
    if ids.len() > 0 {
        let front = ids.drop_last();
        let kept = without(front, id);
        lemma_without(front, id);
        assert forall|x: Seq<char>| ids.contains(x) <==> front.contains(x) || x == ids.last() by {
            if ids.contains(x) {
                let i = choose|i: int| 0 <= i < ids.len() && ids[i] == x;
                if i < front.len() {
                    assert(front[i] == x);
                }
            }
            if front.contains(x) {
                let i = choose|i: int| 0 <= i < front.len() && front[i] == x;
                assert(ids[i] == x);
            }
            assert(ids[ids.len() - 1] == ids.last());
        }
        if ids.last() != id {
            let all = kept.push(ids.last());
            assert forall|x: Seq<char>| all.contains(x) <==> kept.contains(x) || x == ids.last() by {
                if kept.contains(x) {
                    let i = choose|i: int| 0 <= i < kept.len() && kept[i] == x;
                    assert(all[i] == x);
                }
                if all.contains(x) {
                    let i = choose|i: int| 0 <= i < all.len() && all[i] == x;
                    if i < kept.len() {
                        assert(kept[i] == x);
                    }
                }
                assert(all[all.len() - 1] == ids.last());
            }
            if !ids.contains(id) {
                assert(front.push(ids.last()) =~= ids);
            }
        }
    } else {
        assert(ids =~= seq![]);
    }
}

impl RequestQueue {
    /// The empty queue.
    pub fn new() -> (r: Self)
        ensures
            r@ == Seq::<Seq<char>>::empty(),
    {
        let r = RequestQueue { ids: VecDeque::new() };
        assert(r@ =~= Seq::<Seq<char>>::empty());
        r
    }

    /// The number of waiting requests.
    pub fn len(&self) -> (r: usize)
        ensures
            r == self@.len(),
    {
        self.ids.len()
    }

    /// Puts a request at the end.
    pub fn push_back(&mut self, id: String)
        ensures
            final(self)@ == old(self)@.push(id@),
    {
        self.ids.push_back(id);
        assert(self@ =~= old(self)@.push(id@));
    }

    /// Takes the request at the front.
    pub fn pop_front(&mut self) -> (r: Option<String>)
        ensures
            match r {
                Some(id) => old(self)@.len() > 0 && id@ == old(self)@[0] && final(self)@ == old(
                    self,
                )@.skip(1),
                None => old(self)@.len() == 0 && final(self)@ == old(self)@,
            },
    {
        let r = self.ids.pop_front();
        if r.is_some() {
            assert(self@ =~= old(self)@.skip(1));
        }
        r
    }

    /// Drops every occurrence of `id`.
    pub fn drop_id(&mut self, id: &str)
        ensures
            final(self)@ == without(old(self)@, id@),
    {
        let ghost all = self@;
        let n = self.ids.len();
        let mut kept: VecDeque<String> = VecDeque::new();
        let mut i: usize = 0;
        assert(texts(kept@) =~= without(all.take(0), id@));
        while i < n
            invariant
                i <= n,
                n == self.ids@.len(),
                all == texts(self.ids@),
                texts(kept@) == without(all.take(i as int), id@),
            decreases n - i,
        {
            proof {
                assert(all.take(i + 1).drop_last() =~= all.take(i as int));
                assert(all.take(i + 1).last() == self.ids@[i as int]@);
            }
            if !str_eq(self.ids[i].as_str(), id) {
                let item = self.ids[i].clone();
                proof {
                    lemma_texts_push(kept@, item);
                }
                kept.push_back(item);
            }
            i = i + 1;
        }
        assert(all.take(i as int) =~= all);
        self.ids = kept;
    }
}

} // verus!
