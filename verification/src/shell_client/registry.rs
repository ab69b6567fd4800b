//! The registry of shell clients.
//!
//! The registry is a plain state machine: it does no waiting and no I/O. Whoever
//! runs it keeps the waiting callers and the push notifiers, asks it what to do
//! next, and hands back what came of it. Each operation comes twice: once with
//! the time and the new ids as arguments, and once taking them from the machine.
use crate::order::{lemma_less_total, lemma_less_transitive, str_less, text_less};
use crate::shell_client::access::{
    assert_shell_client_access, caller, access_error, sees_client, shell_client_visible_to_auth,
    unknown_client, AuthContext, AuthModel, ShellClientAuthGroup,
};
use crate::shell_client::invariants::{
    law_cancel_consistent, law_complete_consistent, law_disconnect_consistent,
    law_enqueue_consistent, law_notifier_consistent, law_poll_consistent,
    law_refreshed_all_consistent, law_refreshed_consistent, law_register_consistent,
    law_seen_consistent, law_start_job_consistent, law_stop_job_consistent,
    law_transport_consistent, law_update_job_consistent, law_upsert_consistent,
};
use crate::shell_client::jobs::{
    append_limited, command_preview, is_agent_job_status, is_final, is_final_job_status, job_info,
    job_view_at, now_ts, offline_last_seen, replace_limited, seconds_since, select_lines,
    truncate_output, CLIENT_ONLINE_WINDOW_SECS,
};
use crate::shell_client::model::{
    bare_request, file_request, is_job_run, jobs_after_disconnect, lost_job, lost_with_client,
    project_op_error, project_request, registered_record, report_ends, run_request, start_request,
    updated_job, without_all, MAX_QUEUED_REQUESTS_PER_CLIENT, RegistryModel,
};
use crate::shell_client::protocol::{
    ClientViewModel, JobInfoModel, ShellAgentJobUpdateRequest, ShellAgentPollRequest,
    ShellAgentProjectSummary, ShellAgentResultRequest, ShellAgentShellRequest,
    ShellClientCapabilities, ShellClientRegisterRequest, ShellClientView, ShellFileOpRequest,
    ShellJobInfo, ShellJobOpRequest, ShellRunRequest, ShellRunResponse,
};
use crate::shell_client::state::{
    without, JobModel, PendingShellRequest, RequestQueue, ShellClientRecord, ShellJobRecord,
};
use crate::shell_client::validation::{
    file_request_error, id_error, is_drawn_id, is_new_id, lemma_drawn_id_valid,
    normalize_project_summaries, or_else, reports, run_request_error, trim_string, upsert_project,
    validate_agent_instance_id, validate_file_request, validate_id, validate_optional_field,
    validate_run_request,
};
use crate::text::{
    concat2, concat3, contains_char, opt_clone, opt_str, opt_text, opt_view, str_eq,
    str_trim, views,
};
use crate::text_map::TextMap;
use vstd::prelude::*;

verus! {

/// The registry of shell clients, with the requests and jobs that wait for them.
pub struct ShellClientRegistry {
    clients: TextMap<ShellClientRecord>,
    pending_by_id: TextMap<PendingShellRequest>,
    queues_by_client: TextMap<RequestQueue>,
    jobs_by_id: TextMap<ShellJobRecord>,
    request_to_job: TextMap<String>,
    notifiers: TextMap<String>,
}

impl View for ShellClientRegistry {
    type V = RegistryModel;

    closed spec fn view(&self) -> RegistryModel {
        RegistryModel {
            clients: self.clients@,
            pending: self.pending_by_id@,
            queues: self.queues_by_client@,
            jobs: self.jobs_by_id@,
            request_to_job: self.request_to_job@,
            notifiers: self.notifiers@,
        }
    }
}

/// The value of a result with an error text.
pub open spec fn res_view<T: View>(r: Result<T, String>) -> Result<T::V, Seq<char>> {
    match r {
        Ok(v) => Ok(v@),
        Err(e) => Err(e@),
    }
}

/// The value of a result that is optional on success.
pub open spec fn res_opt_view<T: View>(r: Result<Option<T>, String>) -> Result<
    Option<T::V>,
    Seq<char>,
> {
    match r {
        Ok(v) => Ok(opt_view(v)),
        Err(e) => Err(e@),
    }
}

/// The value of a result that holds nothing on success.
pub open spec fn res_done(r: Result<(), String>) -> Result<(), Seq<char>> {
    match r {
        Ok(_) => Ok(()),
        Err(e) => Err(e@),
    }
}

/// `uuid::Uuid::new_v4().to_string()`: a new random id. Of every outcome it is
/// claimed that it has the 36 characters of a hyphenated id in small letters, with the
/// digit of its version; nothing is claimed of which id it is.
#[verifier::external_body]
fn new_id() -> (r: String)
    ensures
        is_drawn_id(r@),
{
    uuid::Uuid::new_v4().to_string()
}

/// Draws an id for a request or a job.
pub(crate) fn draw_id() -> (r: String)
    ensures
        is_new_id(r@, "request_id"@),
        is_new_id(r@, "job_id"@),
{
    let id = new_id();
    proof {
        lemma_drawn_id_valid(id@, "request_id"@);
        lemma_drawn_id_valid(id@, "job_id"@);
    }
    id
}

pub proof fn lemma_without_all_insert(
    ids: Seq<Seq<char>>,
    gone: Set<Seq<char>>,
    id: Seq<char>,
)
    ensures
        without(without_all(ids, gone), id) == without_all(ids, gone.insert(id)),
    decreases ids.len(),
{
    if ids.len() > 0 {
        lemma_without_all_insert(ids.drop_last(), gone, id);
        let kept = without_all(ids.drop_last(), gone);
        if !gone.contains(ids.last()) {
            assert(kept.push(ids.last()).drop_last() =~= kept);
        }
    }
}

pub proof fn lemma_without_all_none(ids: Seq<Seq<char>>, gone: Set<Seq<char>>)
    requires
        forall|r: Seq<char>| !gone.contains(r),
    ensures
        without_all(ids, gone) == ids,
    decreases ids.len(),
{
    if ids.len() > 0 {
        lemma_without_all_none(ids.drop_last(), gone);
        assert(ids.drop_last().push(ids.last()) =~= ids);
    } else {
        assert(ids =~= seq![]);
    }
}

// ---------------------------------------------------------------------------
// Registration and liveness
// ---------------------------------------------------------------------------

impl Default for ShellClientRegistry {
    /// The registry without clients.
    fn default() -> (r: Self)
        ensures
            r.wf(),
            r@.clients == Map::<Seq<char>, crate::shell_client::state::ClientModel>::empty(),
            r@.pending == Map::<Seq<char>, crate::shell_client::state::PendingModel>::empty(),
            r@.queues == Map::<Seq<char>, Seq<Seq<char>>>::empty(),
            r@.jobs == Map::<Seq<char>, JobModel>::empty(),
            r@.request_to_job == Map::<Seq<char>, Seq<char>>::empty(),
            r@.notifiers == Map::<Seq<char>, Seq<char>>::empty(),
    {
        Self::new()
    }
}

impl ShellClientRegistry {
    /// What holds of every registry.
    pub closed spec fn wf(&self) -> bool {
        &&& self.maps_wf()
        &&& self@.consistent()
    }

    closed spec fn maps_wf(&self) -> bool {
        &&& self.clients.wf()
        &&& self.pending_by_id.wf()
        &&& self.queues_by_client.wf()
        &&& self.jobs_by_id.wf()
        &&& self.request_to_job.wf()
        &&& self.notifiers.wf()
    }

    /// A registry is consistent at all times.
    pub proof fn law_consistent(&self)
        requires
            self.wf(),
        ensures
            self@.consistent(),
    {
    }

    /// The registry without clients.
    pub fn new() -> (r: Self)
        ensures
            r.wf(),
            r@.clients == Map::<Seq<char>, crate::shell_client::state::ClientModel>::empty(),
            r@.pending == Map::<Seq<char>, crate::shell_client::state::PendingModel>::empty(),
            r@.queues == Map::<Seq<char>, Seq<Seq<char>>>::empty(),
            r@.jobs == Map::<Seq<char>, JobModel>::empty(),
            r@.request_to_job == Map::<Seq<char>, Seq<char>>::empty(),
            r@.notifiers == Map::<Seq<char>, Seq<char>>::empty(),
    {
        ShellClientRegistry {
            clients: TextMap::new(),
            pending_by_id: TextMap::new(),
            queues_by_client: TextMap::new(),
            jobs_by_id: TextMap::new(),
            request_to_job: TextMap::new(),
            notifiers: TextMap::new(),
        }
    }

    /// Registers a client at `now`. At most one agent process is online for a
    /// client: a new client is accepted, so is the same process again, and so is
    /// another process once the previous one is no longer online.
    pub fn register_at(
        &mut self,
        body: ShellClientRegisterRequest,
        auth: Option<&AuthContext>,
        now: i64,
    ) -> (r: Result<ShellClientView, String>)
        requires
            old(self).wf(),
        ensures
            final(self).wf(),
            (final(self)@, res_view(r)) == old(self)@.register(body, caller(auth), now),
    {
        proof {
            law_register_consistent(self@, body, caller(auth), now);
        }
        validate_id(body.client_id.as_str(), "client_id")?;
        validate_agent_instance_id(body.agent_instance_id.as_str())?;
        validate_optional_field(&body.display_name, "display_name")?;
        validate_optional_field(&body.owner, "owner")?;
        validate_optional_field(&body.hostname, "hostname")?;
        let ghost b = body;
        let client_id = str_trim(body.client_id.as_str()).to_owned();
        let instance = str_trim(body.agent_instance_id.as_str()).to_owned();
        let mut replaced_instance = false;
        if let Some(existing) = self.clients.get(client_id.as_str()) {
            let online = seconds_since(now, existing.last_seen) <= CLIENT_ONLINE_WINDOW_SECS;
            let same_instance = str_eq(existing.agent_instance_id.as_str(), instance.as_str());
            if online && !same_instance {
                return Err(
                    concat3(
                        "agent client ",
                        client_id.as_str(),
                        " is already online with a different instance",
                    ),
                );
            }
            replaced_instance = !same_instance;
        }
        if replaced_instance {
            let _ = self.notifiers.remove(client_id.as_str());
        }
        let version = match trim_string(body.agent_protocol_version) {
            Some(v) => v,
            None => "unknown".to_owned(),
        };
        let auth_group = match auth {
            Some(a) => ShellClientAuthGroup::from_auth(a),
            None => None,
        };
        let record = ShellClientRecord {
            client_id: client_id.clone(),
            agent_instance_id: instance,
            display_name: trim_string(body.display_name),
            owner: trim_string(body.owner),
            hostname: trim_string(body.hostname),
            capabilities: match body.capabilities {
                Some(c) => c,
                None => ShellClientCapabilities::default(),
            },
            projects: normalize_project_summaries(body.projects),
            last_seen: now,
            agent_protocol_version: version,
            transport: "polling".to_owned(),
            policy: body.policy,
            auth_group,
        };
        proof {
            assert(record@ =~= registered_record(b, caller(auth), now));
        }
        self.clients.insert(client_id.clone(), record);
        proof {
            assert(self@ =~= old(self)@.with_client(registered_record(b, caller(auth), now)));
        }
        match self.client_view_at(client_id.as_str(), now) {
            Some(view) => Ok(view),
            None => Err(String::new()),
        }
    }

    /// Registers a client.
    pub fn register_with_auth(
        &mut self,
        body: ShellClientRegisterRequest,
        auth: Option<&AuthContext>,
    ) -> (r: Result<ShellClientView, String>)
        requires
            old(self).wf(),
        ensures
            final(self).wf(),
            exists|now: i64|
                (final(self)@, res_view(r)) == #[trigger] old(self)@.register(
                    body,
                    caller(auth),
                    now,
                ),
    {
        let now = now_ts();
        self.register_at(body, auth, now)
    }

    /// Registers a client without a caller.
    pub fn register(&mut self, body: ShellClientRegisterRequest) -> (r: Result<
        ShellClientView,
        String,
    >)
        requires
            old(self).wf(),
        ensures
            final(self).wf(),
            exists|now: i64|
                (final(self)@, res_view(r)) == #[trigger] old(self)@.register(body, None, now),
    {
        self.register_with_auth(body, None)
    }

    /// Labels how a client is connected.
    pub fn set_transport(&mut self, client_id: &str, transport: &str) -> (r: Result<(), String>)
        requires
            old(self).wf(),
        ensures
            final(self).wf(),
            (final(self)@, res_done(r)) == old(self)@.transport_set(client_id@, transport@),
    {
        proof {
            law_transport_consistent(self@, client_id@, transport@);
        }
        match self.clients.get_mut(client_id) {
            Some(client) => {
                client.transport = transport.to_owned();
            },
            None => {
                return Err(concat2("unknown shell client: ", client_id));
            },
        }
        Ok(())
    }

    /// Whether the agent instance holds the lease on the client.
    pub fn assert_active_instance_locked(&self, client_id: &str, agent_instance_id: &str) -> (r:
        Result<(), String>)
        requires
            self.wf(),
        ensures
            reports(r, self@.active_error(client_id@, agent_instance_id@)),
    {
        let Some(client) = self.clients.get(client_id) else {
            return Err(concat2("unknown shell client: ", client_id));
        };
        if !str_eq(client.agent_instance_id.as_str(), agent_instance_id) {
            return Err(
                concat3(
                    "agent client ",
                    client_id,
                    " is no longer the active instance (stale or replaced)",
                ),
            );
        }
        Ok(())
    }

    fn mark_seen(&mut self, client_id: &str, now: i64)
        requires
            old(self).wf(),
            old(self)@.clients.contains_key(client_id@),
        ensures
            final(self).wf(),
            final(self)@ == old(self)@.seen(client_id@, now),
    {
        proof {
            law_seen_consistent(self@, client_id@, now);
        }
        if let Some(client) = self.clients.get_mut(client_id) {
            client.last_seen = now;
        }
    }

    /// Takes a sign of life of an agent instance at `now`.
    pub fn touch_client_at(&mut self, client_id: &str, agent_instance_id: &str, now: i64) -> (r:
        Result<(), String>)
        requires
            old(self).wf(),
        ensures
            final(self).wf(),
            (final(self)@, res_done(r)) == old(self)@.touch(client_id@, agent_instance_id@, now),
    {
        validate_agent_instance_id(agent_instance_id)?;
        self.assert_active_instance_locked(client_id, agent_instance_id)?;
        self.mark_seen(client_id, now);
        Ok(())
    }

    /// Takes a sign of life of an agent instance, so that an idle connection stays
    /// online. An instance that lost the lease changes nothing.
    pub fn touch_client(&mut self, client_id: &str, agent_instance_id: &str) -> (r: Result<
        (),
        String,
    >)
        requires
            old(self).wf(),
        ensures
            final(self).wf(),
            exists|now: i64|
                (final(self)@, res_done(r)) == #[trigger] old(self)@.touch(
                    client_id@,
                    agent_instance_id@,
                    now,
                ),
    {
        let now = now_ts();
        self.touch_client_at(client_id, agent_instance_id, now)
    }

    /// Sets when a client was last seen, where it is registered.
    pub fn set_last_seen_for_test(&mut self, client_id: &str, ts: i64)
        requires
            old(self).wf(),
        ensures
            final(self).wf(),
            final(self)@ == (if old(self)@.clients.contains_key(client_id@) {
                old(self)@.seen(client_id@, ts)
            } else {
                old(self)@
            }),
    {
        if self.clients.contains_key(client_id) {
            self.mark_seen(client_id, ts);
        }
    }

    /// Records that the agent instance can be woken when a request is queued. Only
    /// the instance that holds the lease can be.
    pub fn register_notifier(&mut self, client_id: &str, agent_instance_id: &str) -> (r: Result<
        (),
        String,
    >)
        requires
            old(self).wf(),
        ensures
            final(self).wf(),
            (final(self)@, res_done(r)) == old(self)@.notifier_set(client_id@, agent_instance_id@),
    {
        proof {
            law_notifier_consistent(self@, client_id@, agent_instance_id@);
        }
        validate_agent_instance_id(agent_instance_id)?;
        self.assert_active_instance_locked(client_id, agent_instance_id)?;
        self.notifiers.insert(client_id.to_owned(), agent_instance_id.to_owned());
        Ok(())
    }

    /// Whether there is an agent to wake when a request is queued for the client.
    pub fn notify_client_locked(&self, client_id: &str) -> (r: bool)
        requires
            self.wf(),
        ensures
            r == self@.notifiers.contains_key(client_id@),
    {
        self.notifiers.contains_key(client_id)
    }

    /// What callers see of a client at `now`.
    pub fn client_view_at(&self, client_id: &str, now: i64) -> (r: Option<ShellClientView>)
        requires
            self.wf(),
        ensures
            match r {
                Some(v) => self@.clients.contains_key(client_id@) && v@ == self@.client_view(
                    client_id@,
                    now,
                ),
                None => !self@.clients.contains_key(client_id@),
            },
    {
        let Some(client) = self.clients.get(client_id) else {
            return None;
        };
        let pending_requests: usize = match self.queues_by_client.get(client_id) {
            Some(queue) => queue.len(),
            None => 0,
        };
        let connected = seconds_since(now, client.last_seen) <= CLIENT_ONLINE_WINDOW_SECS;
        Some(
            ShellClientView {
                client_id: client.client_id.clone(),
                agent_instance_id: client.agent_instance_id.clone(),
                display_name: opt_clone(&client.display_name),
                owner: opt_clone(&client.owner),
                hostname: opt_clone(&client.hostname),
                status: if connected {
                    "online".to_owned()
                } else {
                    "stale".to_owned()
                },
                connected,
                last_seen: client.last_seen,
                capabilities: client.capabilities,
                pending_requests,
                projects: ShellAgentProjectSummary::copy_all(&client.projects),
                agent_protocol_version: client.agent_protocol_version.clone(),
                transport: client.transport.clone(),
                policy: match &client.policy {
                    Some(p) => Some(p.copy()),
                    None => None,
                },
            },
        )
    }

    /// What callers see of a client.
    pub fn get_client_view(&self, client_id: &str) -> (r: Option<ShellClientView>)
        requires
            self.wf(),
        ensures
            match r {
                Some(v) => self@.clients.contains_key(client_id@) && exists|now: i64|
                    v@ == #[trigger] self@.client_view(client_id@, now),
                None => !self@.clients.contains_key(client_id@),
            },
    {
        self.client_view_at(client_id, now_ts())
    }

    /// What a caller sees of a client.
    pub fn get_client_view_for_auth(&self, client_id: &str, auth: Option<&AuthContext>) -> (r:
        Option<ShellClientView>)
        requires
            self.wf(),
        ensures
            match r {
                Some(v) => self@.clients.contains_key(client_id@) && sees_client(
                    caller(auth),
                    self@.clients[client_id@],
                ) && exists|now: i64| v@ == #[trigger] self@.client_view(client_id@, now),
                None => !(self@.clients.contains_key(client_id@) && sees_client(
                    caller(auth),
                    self@.clients[client_id@],
                )),
            },
    {
        let Some(client) = self.clients.get(client_id) else {
            return None;
        };
        if !shell_client_visible_to_auth(auth, client) {
            return None;
        }
        self.get_client_view(client_id)
    }

    /// Checks that the caller may use the client.
    pub fn assert_client_access(&self, auth: Option<&AuthContext>, client_id: &str) -> (r: Result<
        (),
        String,
    >)
        requires
            self.wf(),
        ensures
            reports(
                r,
                if self@.clients.contains_key(client_id@) {
                    access_error(caller(auth), self@.clients[client_id@])
                } else {
                    Some(unknown_client(client_id@))
                },
            ),
    {
        match self.clients.get(client_id) {
            Some(client) => assert_shell_client_access(auth, client),
            None => Err(concat2("unknown shell client: ", client_id)),
        }
    }

    /// What a client says that it can do.
    pub fn get_client_capabilities(&self, client_id: &str) -> (r: Result<
        ShellClientCapabilities,
        String,
    >)
        requires
            self.wf(),
        ensures
            match r {
                Ok(c) => self@.clients.contains_key(client_id@) && c
                    == self@.clients[client_id@].capabilities,
                Err(e) => !self@.clients.contains_key(client_id@) && e@ == unknown_client(
                    client_id@,
                ),
            },
    {
        match self.clients.get(client_id) {
            Some(client) => Ok(client.capabilities),
            None => Err(concat2("unknown shell client: ", client_id)),
        }
    }

    /// Whether a client can do what the capability names. A name that is none is
    /// something that no client can do.
    pub fn client_supports(&self, client_id: &str, capability: &str) -> (r: Result<bool, String>)
        requires
            self.wf(),
        ensures
            match r {
                Ok(b) => self@.clients.contains_key(client_id@) && b == supports(
                    self@.clients[client_id@].capabilities,
                    capability@,
                ),
                Err(e) => !self@.clients.contains_key(client_id@) && e@ == unknown_client(
                    client_id@,
                ),
            },
    {
        match self.get_client_capabilities(client_id) {
            Ok(caps) => Ok(
                (str_eq(capability, "shell") && caps.shell) || (str_eq(capability, "file_read")
                    && caps.file_read) || (str_eq(capability, "file_write") && caps.file_write) || (
                str_eq(capability, "git") && caps.git) || (str_eq(capability, "jobs") && caps.jobs)
                    || (str_eq(capability, "async_jobs") && caps.async_jobs) || (str_eq(
                    capability,
                    "async_shell_jobs",
                ) && caps.async_shell_jobs),
            ),
            Err(e) => Err(e),
        }
    }

    /// The projects that a client offers.
    pub fn list_client_projects(&self, client_id: &str) -> (r: Result<
        Vec<ShellAgentProjectSummary>,
        String,
    >)
        requires
            self.wf(),
        ensures
            match r {
                Ok(v) => id_error(client_id@, "client_id"@) is None && self@.clients.contains_key(
                    client_id@,
                ) && views(v@) == self@.clients[client_id@].projects,
                Err(e) => or_else(
                    id_error(client_id@, "client_id"@),
                    if self@.clients.contains_key(client_id@) {
                        None
                    } else {
                        Some(unknown_client(client_id@))
                    },
                ) == Some(e@),
            },
    {
        match validate_id(client_id, "client_id") {
            Ok(_) => {},
            Err(e) => {
                return Err(e);
            },
        }
        match self.clients.get(client_id) {
            Some(client) => Ok(ShellAgentProjectSummary::copy_all(&client.projects)),
            None => Err(concat2("unknown shell client: ", client_id)),
        }
    }

    /// Inserts or replaces one project of a client, so that callers see it before
    /// the agent reports it.
    pub fn upsert_client_project(&mut self, client_id: &str, project: ShellAgentProjectSummary)
        -> (r: Result<(), String>)
        requires
            old(self).wf(),
        ensures
            final(self).wf(),
            (final(self)@, res_done(r)) == old(self)@.project_upserted(client_id@, project@),
    {
        proof {
            law_upsert_consistent(self@, client_id@, project@);
        }
        match self.clients.get_mut(client_id) {
            Some(client) => {
                upsert_project(&mut client.projects, project);
            },
            None => {
                return Err(concat2("unknown shell client: ", client_id));
            },
        }
        Ok(())
    }
}

/// Whether the capabilities include the one that the name stands for.
pub open spec fn supports(caps: ShellClientCapabilities, name: Seq<char>) -> bool {
    ||| name == "shell"@ && caps.shell
    ||| name == "file_read"@ && caps.file_read
    ||| name == "file_write"@ && caps.file_write
    ||| name == "git"@ && caps.git
    ||| name == "jobs"@ && caps.jobs
    ||| name == "async_jobs"@ && caps.async_jobs
    ||| name == "async_shell_jobs"@ && caps.async_shell_jobs
}

// ---------------------------------------------------------------------------
// Disconnects
// ---------------------------------------------------------------------------

/// The requests of the jobs under the first `n` keys that are lost with the client.
spec fn lost_requests_upto(
    jobs: Map<Seq<char>, JobModel>,
    keys: Seq<Seq<char>>,
    client_id: Seq<char>,
    n: int,
) -> Set<Seq<char>> {
    Set::new(
        |r: Seq<char>|
            exists|k: int|
                0 <= k < n && k < keys.len() && lost_with_client(jobs[#[trigger] keys[k]], client_id)
                    && jobs[keys[k]].request_id == Some(r),
    )
}

impl ShellClientRegistry {
    /// The loss of the jobs of a client that disconnected, without the client's own
    /// part.
    fn lose_jobs(&mut self, client_id: &str, now: i64)
        requires
            old(self).maps_wf(),
        ensures
            final(self).maps_wf(),
            ({
                let m = old(self)@;
                let gone = m.requests_lost_with(client_id@);
                final(self)@ == (RegistryModel {
                    jobs: jobs_after_disconnect(m.jobs, client_id@, now),
                    pending: m.pending.remove_keys(gone),
                    request_to_job: m.request_to_job.remove_keys(gone),
                    queues: if m.queues.contains_key(client_id@) {
                        m.queues.insert(client_id@, without_all(m.queues[client_id@], gone))
                    } else {
                        m.queues
                    },
                    ..m
                })
            }),
    {
        let ghost m = self@;
        let ghost keys = self.jobs_by_id.keys();
        let n = self.jobs_by_id.len();
        let mut i: usize = 0;
        proof {
            let none = lost_requests_upto(m.jobs, keys, client_id@, 0);
            assert(m.pending.remove_keys(none) =~= m.pending);
            assert(m.request_to_job.remove_keys(none) =~= m.request_to_job);
            if m.queues.contains_key(client_id@) {
                lemma_without_all_none(m.queues[client_id@], none);
                assert(m.queues.insert(client_id@, m.queues[client_id@]) =~= m.queues);
            }
            self.jobs_by_id.lemma_keys();
        }
        while i < n
            invariant
                i <= n,
                n == keys.len(),
                self.maps_wf(),
                self.jobs_by_id.keys() == keys,
                keys.no_duplicates(),
                forall|k: int| 0 <= k < keys.len() ==> m.jobs.contains_key(#[trigger] keys[k]),
                self@.clients == m.clients,
                self@.notifiers == m.notifiers,
                self@.jobs.dom() == m.jobs.dom(),
                forall|k: int|
                    0 <= k < i ==> self@.jobs[#[trigger] keys[k]] == (if lost_with_client(
                        m.jobs[keys[k]],
                        client_id@,
                    ) {
                        lost_job(m.jobs[keys[k]], "agent transport disconnected"@, now)
                    } else {
                        m.jobs[keys[k]]
                    }),
                forall|k: int|
                    i <= k < keys.len() ==> self@.jobs[#[trigger] keys[k]] == m.jobs[keys[k]],
                ({
                    let gone = lost_requests_upto(m.jobs, keys, client_id@, i as int);
                    &&& self@.pending == m.pending.remove_keys(gone)
                    &&& self@.request_to_job == m.request_to_job.remove_keys(gone)
                    &&& self@.queues == (if m.queues.contains_key(client_id@) {
                        m.queues.insert(client_id@, without_all(m.queues[client_id@], gone))
                    } else {
                        m.queues
                    })
                }),
            decreases n - i,
        {
            let ghost gone = lost_requests_upto(m.jobs, keys, client_id@, i as int);
            let ghost next_gone = lost_requests_upto(m.jobs, keys, client_id@, i + 1);
            let key = self.jobs_by_id.key_at(i).clone();
            let job = self.jobs_by_id.value_at(i);
            let ghost model = m.jobs[keys[i as int]];
            assert(job@ == model);
            let lost = str_eq(job.client_id.as_str(), client_id) && (str_eq(
                job.status.as_str(),
                "queued",
            ) || is_agent_job_status(job.status.as_str()));
            if lost {
                let request_id = opt_clone(&job.request_id);
                if let Some(job) = self.jobs_by_id.get_mut(key.as_str()) {
                    job.status = "lost".to_owned();
                    job.ended_at = Some(now);
                    job.error = Some("agent transport disconnected".to_owned());
                }
                assert(self@.jobs.dom() =~= m.jobs.dom());
                if let Some(r) = request_id {
                    let _ = self.pending_by_id.remove(r.as_str());
                    let _ = self.request_to_job.remove(r.as_str());
                    if let Some(queue) = self.queues_by_client.get_mut(client_id) {
                        queue.drop_id(r.as_str());
                    }
                    proof {
                        assert forall|x: Seq<char>| next_gone.contains(x) implies gone.contains(x)
                            || x == r@ by {
                            let k = choose|k: int|
                                0 <= k < i + 1 && k < keys.len() && lost_with_client(
                                    m.jobs[#[trigger] keys[k]],
                                    client_id@,
                                ) && m.jobs[keys[k]].request_id == Some(x);
                            if k == i {
                                assert(x == r@);
                            }
                        }
                        assert forall|x: Seq<char>| gone.contains(x) || x == r@ implies next_gone.contains(x) by {
                            if x == r@ {
                                assert(lost_with_client(m.jobs[keys[i as int]], client_id@));
                            } else {
                                let k = choose|k: int|
                                    0 <= k < i && k < keys.len() && lost_with_client(
                                        m.jobs[#[trigger] keys[k]],
                                        client_id@,
                                    ) && m.jobs[keys[k]].request_id == Some(x);
                                assert(lost_with_client(m.jobs[keys[k]], client_id@));
                            }
                        }
                        assert(next_gone =~= gone.insert(r@));
                        assert(m.pending.remove_keys(gone).remove(r@) =~= m.pending.remove_keys(
                            next_gone,
                        ));
                        assert(m.request_to_job.remove_keys(gone).remove(r@)
                            =~= m.request_to_job.remove_keys(next_gone));
                        if m.queues.contains_key(client_id@) {
                            lemma_without_all_insert(m.queues[client_id@], gone, r@);
                            assert(self@.queues =~= m.queues.insert(
                                client_id@,
                                without_all(m.queues[client_id@], next_gone),
                            ));
                        }
                    }
                } else {
                    proof {
                        assert(next_gone =~= gone) by {
                            assert forall|x: Seq<char>| next_gone.contains(x) implies gone.contains(x) by {
                                let k = choose|k: int|
                                    0 <= k < i + 1 && k < keys.len() && lost_with_client(
                                        m.jobs[#[trigger] keys[k]],
                                        client_id@,
                                    ) && m.jobs[keys[k]].request_id == Some(x);
                                assert(k != i);
                            }
                            assert forall|x: Seq<char>| gone.contains(x) implies next_gone.contains(x) by {
                                let k = choose|k: int|
                                    0 <= k < i && k < keys.len() && lost_with_client(
                                        m.jobs[#[trigger] keys[k]],
                                        client_id@,
                                    ) && m.jobs[keys[k]].request_id == Some(x);
                                assert(lost_with_client(m.jobs[keys[k]], client_id@));
                            }
                        }
                    }
                }
            } else {
                proof {
                    assert(next_gone =~= gone) by {
                        assert forall|x: Seq<char>| next_gone.contains(x) implies gone.contains(x) by {
                            let k = choose|k: int|
                                0 <= k < i + 1 && k < keys.len() && lost_with_client(
                                    m.jobs[#[trigger] keys[k]],
                                    client_id@,
                                ) && m.jobs[keys[k]].request_id == Some(x);
                            assert(k != i);
                        }
                        assert forall|x: Seq<char>| gone.contains(x) implies next_gone.contains(x) by {
                            let k = choose|k: int|
                                0 <= k < i && k < keys.len() && lost_with_client(
                                    m.jobs[#[trigger] keys[k]],
                                    client_id@,
                                ) && m.jobs[keys[k]].request_id == Some(x);
                            assert(lost_with_client(m.jobs[keys[k]], client_id@));
                        }
                    }
                }
            }
            i = i + 1;
        }
        proof {
            self.jobs_by_id.lemma_keys();
            let gone = lost_requests_upto(m.jobs, keys, client_id@, n as int);
            let all = m.requests_lost_with(client_id@);
            assert forall|x: Seq<char>| gone.contains(x) implies all.contains(x) by {
                let k = choose|k: int|
                    0 <= k < n && k < keys.len() && lost_with_client(
                        m.jobs[#[trigger] keys[k]],
                        client_id@,
                    ) && m.jobs[keys[k]].request_id == Some(x);
                assert(m.jobs.contains_key(keys[k]));
            }
            assert forall|x: Seq<char>| all.contains(x) implies gone.contains(x) by {
                let j = choose|j: Seq<char>| #[trigger]
                    m.jobs.contains_key(j) && lost_with_client(m.jobs[j], client_id@)
                        && m.jobs[j].request_id == Some(x);
                assert(self@.jobs.dom().contains(j));
                assert(self@.jobs.contains_key(j));
                let k = choose|k: int| 0 <= k < keys.len() && keys[k] == j;
                assert(lost_with_client(m.jobs[keys[k]], client_id@));
            }
            assert(gone =~= all);
            assert forall|j: Seq<char>| m.jobs.contains_key(j) implies self@.jobs[j]
                == jobs_after_disconnect(m.jobs, client_id@, now)[j] by {
                assert(self@.jobs.dom().contains(j));
                assert(self@.jobs.contains_key(j));
                let k = choose|k: int| 0 <= k < keys.len() && keys[k] == j;
                assert(self@.jobs[keys[k]] == self@.jobs[j]);
            }
            assert(self@.jobs =~= jobs_after_disconnect(m.jobs, client_id@, now));
        }
    }

    /// Takes note at `now` that an agent instance is gone: its notifier goes, its
    /// lease ends at once, and the jobs that it had are lost. An instance that does
    /// not hold the lease changes nothing.
    pub fn reconcile_disconnect_at(&mut self, client_id: &str, agent_instance_id: &str, now: i64)
        requires
            old(self).wf(),
        ensures
            final(self).wf(),
            final(self)@ == old(self)@.disconnect(client_id@, agent_instance_id@, now),
    {
        proof {
            law_disconnect_consistent(self@, client_id@, agent_instance_id@, now);
        }
        if self.assert_active_instance_locked(client_id, agent_instance_id).is_err() {
            return;
        }
        let owns_notifier = match self.notifiers.get(client_id) {
            Some(owner) => str_eq(owner.as_str(), agent_instance_id),
            None => false,
        };
        if owns_notifier {
            let _ = self.notifiers.remove(client_id);
        }
        if let Some(client) = self.clients.get_mut(client_id) {
            client.last_seen = offline_last_seen(now);
        }
        self.lose_jobs(client_id, now);
    }

    /// Takes note that an agent instance is gone.
    pub fn reconcile_disconnect(&mut self, client_id: &str, agent_instance_id: &str)
        requires
            old(self).wf(),
        ensures
            final(self).wf(),
            exists|now: i64|
                final(self)@ == #[trigger] old(self)@.disconnect(
                    client_id@,
                    agent_instance_id@,
                    now,
                ),
    {
        let now = now_ts();
        self.reconcile_disconnect_at(client_id, agent_instance_id, now);
    }

    fn drop_from_queues(&mut self, request_id: &str)
        requires
            old(self).maps_wf(),
        ensures
            final(self).maps_wf(),
            final(self)@ == (RegistryModel {
                queues: old(self)@.queues.map_values(|q: Seq<Seq<char>>| without(q, request_id@)),
                ..old(self)@
            }),
    {
        let ghost m = self@;
        let ghost keys = self.queues_by_client.keys();
        let n = self.queues_by_client.len();
        let mut i: usize = 0;
        proof {
            self.queues_by_client.lemma_keys();
        }
        while i < n
            invariant
                i <= n,
                n == keys.len(),
                self.maps_wf(),
                self.queues_by_client.keys() == keys,
                keys.no_duplicates(),
                forall|k: int| 0 <= k < keys.len() ==> m.queues.contains_key(#[trigger] keys[k]),
                self@.clients == m.clients,
                self@.notifiers == m.notifiers,
                self@.jobs == m.jobs,
                self@.pending == m.pending,
                self@.request_to_job == m.request_to_job,
                self@.queues.dom() == m.queues.dom(),
                forall|k: int|
                    0 <= k < i ==> self@.queues[#[trigger] keys[k]] == without(
                        m.queues[keys[k]],
                        request_id@,
                    ),
                forall|k: int|
                    i <= k < keys.len() ==> self@.queues[#[trigger] keys[k]] == m.queues[keys[k]],
            decreases n - i,
        {
            let key = self.queues_by_client.key_at(i).clone();
            if let Some(queue) = self.queues_by_client.get_mut(key.as_str()) {
                queue.drop_id(request_id);
            }
            assert(m.queues.contains_key(keys[i as int]));
            assert(self@.queues.dom() =~= m.queues.dom());
            i = i + 1;
        }
        proof {
            self.queues_by_client.lemma_keys();
            let wanted = m.queues.map_values(|q: Seq<Seq<char>>| without(q, request_id@));
            assert forall|c: Seq<char>| m.queues.contains_key(c) implies self@.queues[c]
                == wanted[c] by {
                assert(self@.queues.dom().contains(c));
                assert(self@.queues.contains_key(c));
                let k = choose|k: int| 0 <= k < keys.len() && keys[k] == c;
                assert(self@.queues[keys[k]] == self@.queues[c]);
            }
            assert(self@.queues =~= wanted);
        }
    }

    /// Drops a request that nobody waits for any more.
    pub fn cancel_request(&mut self, request_id: &str)
        requires
            old(self).wf(),
        ensures
            final(self).wf(),
            final(self)@ == old(self)@.cancelled(request_id@),
    {
        proof {
            law_cancel_consistent(self@, request_id@);
        }
        let _ = self.pending_by_id.remove(request_id);
        self.drop_from_queues(request_id);
    }

    /// Whether the request waits for a result.
    pub fn is_pending(&self, request_id: &str) -> (r: bool)
        requires
            self.wf(),
        ensures
            r == self@.pending.contains_key(request_id@),
    {
        self.pending_by_id.contains_key(request_id)
    }
}

// ---------------------------------------------------------------------------
// Queueing
// ---------------------------------------------------------------------------

impl ShellClientRegistry {
    /// Checks that the client is registered.
    pub fn ensure_dispatch_supported_locked(&self, client_id: &str) -> (r: Result<(), String>)
        requires
            self.wf(),
        ensures
            reports(
                r,
                if self@.clients.contains_key(client_id@) {
                    None
                } else {
                    Some(unknown_client(client_id@))
                },
            ),
    {
        if !self.clients.contains_key(client_id) {
            return Err(concat2("unknown shell client: ", client_id));
        }
        Ok(())
    }

    /// Checks that the queue of the client takes another request.
    pub fn ensure_queue_capacity_locked(&self, client_id: &str) -> (r: Result<(), String>)
        requires
            self.wf(),
        ensures
            reports(r, self@.capacity_error(client_id@)),
    {
        let len: usize = match self.queues_by_client.get(client_id) {
            Some(queue) => queue.len(),
            None => 0,
        };
        if len >= MAX_QUEUED_REQUESTS_PER_CLIENT {
            return Err(
                concat3(
                    "too many pending requests for shell client ",
                    client_id,
                    " (limit 256)",
                ),
            );
        }
        Ok(())
    }

    fn push_request(&mut self, pending: PendingShellRequest)
        requires
            old(self).maps_wf(),
        ensures
            final(self).maps_wf(),
            final(self)@ == old(self)@.with_request(pending@),
    {
        let client_id = pending.request.client_id.clone();
        let request_id = pending.request.request_id.clone();
        if !self.queues_by_client.contains_key(client_id.as_str()) {
            self.queues_by_client.insert(client_id.clone(), RequestQueue::new());
        }
        if let Some(queue) = self.queues_by_client.get_mut(client_id.as_str()) {
            queue.push_back(request_id.clone());
        }
        self.pending_by_id.insert(request_id, pending);
        assert(self@ =~= old(self)@.with_request(pending@));
    }

    fn enqueue(&mut self, request: ShellAgentShellRequest) -> (r: Result<String, String>)
        requires
            old(self).wf(),
            id_error(request@.request_id, "request_id"@) is None,
        ensures
            final(self).wf(),
            (final(self)@, res_view(r)) == old(self)@.enqueue(None, request@),
    {
        proof {
            law_enqueue_consistent(self@, None, request@);
        }
        let client_id = request.client_id.clone();
        match self.ensure_dispatch_supported_locked(client_id.as_str()) {
            Ok(_) => {},
            Err(e) => {
                return Err(e);
            },
        }
        match self.ensure_queue_capacity_locked(client_id.as_str()) {
            Ok(_) => {},
            Err(e) => {
                return Err(e);
            },
        }
        let request_id = request.request_id.clone();
        self.push_request(PendingShellRequest { request, waiter: true, job_id: None });
        Ok(request_id)
    }

    /// Queues a file operation at `now` under the id `request_id`.
    pub fn enqueue_file_op_at(
        &mut self,
        body: ShellFileOpRequest,
        requested_by: String,
        request_id: String,
        now: i64,
    ) -> (r: Result<String, String>)
        requires
            old(self).wf(),
            id_error(request_id@, "request_id"@) is None,
        ensures
            final(self).wf(),
            (final(self)@, res_view(r)) == old(self)@.enqueue(
                file_request_error(body),
                file_request(body, requested_by@, request_id@, now),
            ),
    {
        match validate_file_request(&body) {
            Ok(_) => {},
            Err(e) => {
                return Err(e);
            },
        }
        let ghost wanted = file_request(body, requested_by@, request_id@, now);
        let request = ShellAgentShellRequest {
            request_id,
            client_id: body.client_id.clone(),
            kind: concat2("file_", body.op.as_str()),
            job_id: None,
            cwd: trim_cwd(&body.cwd),
            path: Some(str_trim(body.path.as_str()).to_owned()),
            content: opt_clone(&body.content),
            max_bytes: body.max_bytes,
            old_text: opt_clone(&body.old_text),
            pattern: opt_clone(&body.pattern),
            expected_sha256: opt_clone(&body.expected_sha256),
            expected_prefix: opt_clone(&body.expected_prefix),
            start_line: body.start_line,
            end_line: body.end_line,
            line: body.line,
            create_dirs: body.create_dirs,
            command: String::new(),
            stdin: None,
            timeout_secs: 30,
            requested_by,
            created_at: now,
        };
        assert(request@ =~= wanted);
        self.enqueue(request)
    }

    /// Queues a file operation. The answer is the id under which the result comes.
    pub fn enqueue_file_op(&mut self, body: ShellFileOpRequest, requested_by: String) -> (r: Result<
        String,
        String,
    >)
        requires
            old(self).wf(),
        ensures
            final(self).wf(),
            exists|id: Seq<char>, now: i64|
                is_new_id(id, "request_id"@) && (final(self)@, res_view(r)) == old(self)@.enqueue(
                    file_request_error(body),
                    #[trigger] file_request(body, requested_by@, id, now),
                ),
    {
        let request_id = draw_id();
        let now = now_ts();
        self.enqueue_file_op_at(body, requested_by, request_id, now)
    }

    /// Queues a command at `now` under the id `request_id`.
    pub fn enqueue_run_at(
        &mut self,
        body: ShellRunRequest,
        requested_by: String,
        request_id: String,
        now: i64,
    ) -> (r: Result<String, String>)
        requires
            old(self).wf(),
            id_error(request_id@, "request_id"@) is None,
        ensures
            final(self).wf(),
            (final(self)@, res_view(r)) == old(self)@.enqueue(
                run_request_error(body),
                run_request(body, requested_by@, request_id@, now),
            ),
    {
        match validate_run_request(&body) {
            Ok(_) => {},
            Err(e) => {
                return Err(e);
            },
        }
        let ghost wanted = run_request(body, requested_by@, request_id@, now);
        let mut request = plain_request(
            request_id,
            body.client_id.as_str(),
            "run_shell",
            body.timeout_secs,
            requested_by,
            now,
        );
        request.cwd = trim_cwd(&body.cwd);
        request.command = body.command.clone();
        request.stdin = opt_clone(&body.stdin);
        assert(request@ =~= wanted);
        self.enqueue(request)
    }

    /// Queues a command. The answer is the id under which the result comes.
    pub fn enqueue_run(&mut self, body: ShellRunRequest, requested_by: String) -> (r: Result<
        String,
        String,
    >)
        requires
            old(self).wf(),
        ensures
            final(self).wf(),
            exists|id: Seq<char>, now: i64|
                is_new_id(id, "request_id"@) && (final(self)@, res_view(r)) == old(self)@.enqueue(
                    run_request_error(body),
                    #[trigger] run_request(body, requested_by@, id, now),
                ),
    {
        let request_id = draw_id();
        let now = now_ts();
        self.enqueue_run_at(body, requested_by, request_id, now)
    }

    /// Queues a project operation at `now` under the id `request_id`.
    pub fn enqueue_project_op_at(
        &mut self,
        client_id: String,
        kind: &str,
        payload: String,
        requested_by: String,
        request_id: String,
        now: i64,
    ) -> (r: Result<String, String>)
        requires
            old(self).wf(),
            id_error(request_id@, "request_id"@) is None,
        ensures
            final(self).wf(),
            (final(self)@, res_view(r)) == old(self)@.enqueue(
                project_op_error(client_id@, kind@, payload@),
                project_request(client_id@, kind@, payload@, requested_by@, request_id@, now),
            ),
    {
        match validate_id(client_id.as_str(), "client_id") {
            Ok(_) => {},
            Err(e) => {
                return Err(e);
            },
        }
        if !str_eq(kind, "register_project") && !str_eq(kind, "create_project") {
            return Err(concat2("unsupported project op kind: ", kind));
        }
        if contains_char(payload.as_str(), '\0') {
            return Err("project op payload must not contain NUL".to_owned());
        }
        let ghost wanted = project_request(
            client_id@,
            kind@,
            payload@,
            requested_by@,
            request_id@,
            now,
        );
        let mut request = plain_request(
            request_id,
            client_id.as_str(),
            kind,
            30,
            requested_by,
            now,
        );
        request.stdin = Some(payload);
        assert(request@ =~= wanted);
        self.enqueue(request)
    }

    /// Queues a project operation, `register_project` or `create_project`, with its
    /// payload for the agent.
    pub fn enqueue_project_op(
        &mut self,
        client_id: String,
        kind: &str,
        payload: String,
        requested_by: String,
    ) -> (r: Result<String, String>)
        requires
            old(self).wf(),
        ensures
            final(self).wf(),
            exists|id: Seq<char>, now: i64|
                is_new_id(id, "request_id"@) && (final(self)@, res_view(r)) == old(self)@.enqueue(
                    project_op_error(client_id@, kind@, payload@),
                    #[trigger] project_request(
                        client_id@,
                        kind@,
                        payload@,
                        requested_by@,
                        id,
                        now,
                    ),
                ),
    {
        let request_id = draw_id();
        let now = now_ts();
        self.enqueue_project_op_at(client_id, kind, payload, requested_by, request_id, now)
    }
}

fn trim_cwd(cwd: &Option<String>) -> (r: Option<String>)
    ensures
        opt_text(r) == crate::shell_client::model::trimmed_cwd(opt_text(*cwd)),
{
    match cwd {
        Some(c) => Some(str_trim(c.as_str()).to_owned()),
        None => None,
    }
}

fn plain_request(
    request_id: String,
    client_id: &str,
    kind: &str,
    timeout_secs: u64,
    requested_by: String,
    now: i64,
) -> (r: ShellAgentShellRequest)
    ensures
        r@ == bare_request(request_id@, client_id@, kind@, timeout_secs, requested_by@, now),
{
    let r = ShellAgentShellRequest {
        request_id,
        client_id: client_id.to_owned(),
        kind: kind.to_owned(),
        job_id: None,
        cwd: None,
        path: None,
        content: None,
        max_bytes: None,
        old_text: None,
        pattern: None,
        expected_sha256: None,
        expected_prefix: None,
        start_line: None,
        end_line: None,
        line: None,
        create_dirs: false,
        command: String::new(),
        stdin: None,
        timeout_secs,
        requested_by,
        created_at: now,
    };
    assert(r@ =~= bare_request(request_id@, client_id@, kind@, timeout_secs, requested_by@, now));
    r
}

// ---------------------------------------------------------------------------
// Jobs
// ---------------------------------------------------------------------------

/// The value of the answer to a look at a log.
pub open spec fn log_view(
    r: Result<(ShellJobInfo, Option<String>, Option<String>, usize, usize), String>,
) -> Result<(JobInfoModel, Option<Seq<char>>, Option<Seq<char>>, usize, usize), Seq<char>> {
    match r {
        Ok(t) => Ok((t.0@, opt_text(t.1), opt_text(t.2), t.3, t.4)),
        Err(e) => Err(e@),
    }
}

impl ShellClientRegistry {
    /// Starts a job at `now` under the ids `request_id` and `job_id`.
    pub fn start_job_at(
        &mut self,
        body: ShellJobOpRequest,
        requested_by: String,
        request_id: String,
        job_id: String,
        now: i64,
    ) -> (r: Result<ShellJobInfo, String>)
        requires
            old(self).wf(),
            id_error(request_id@, "request_id"@) is None,
            id_error(job_id@, "job_id"@) is None,
        ensures
            final(self).wf(),
            exists|run: ShellRunRequest| #[trigger]
                is_job_run(body, run) && (final(self)@, res_view(r)) == old(self)@.start_job(
                    body,
                    run,
                    requested_by@,
                    request_id@,
                    job_id@,
                    now,
                ),
    {
        let run = ShellRunRequest {
            client_id: match &body.client_id {
                Some(c) => c.clone(),
                None => String::new(),
            },
            cwd: opt_clone(&body.cwd),
            command: match &body.command {
                Some(c) => c.clone(),
                None => String::new(),
            },
            stdin: None,
            timeout_secs: match body.timeout_secs {
                Some(t) => t,
                None => 120,
            },
            wait_timeout_secs: 0,
        };
        proof {
            assert(is_job_run(body, run));
            law_start_job_consistent(
                self@,
                body,
                run,
                requested_by@,
                request_id@,
                job_id@,
                now,
            );
        }
        if body.client_id.is_none() {
            return Err("client_id is required for op=start".to_owned());
        }
        if body.command.is_none() {
            return Err("command is required for op=start".to_owned());
        }
        match validate_run_request(&run) {
            Ok(_) => {},
            Err(e) => {
                return Err(e);
            },
        }
        let client_id = run.client_id.clone();
        let Some(client) = self.clients.get(client_id.as_str()) else {
            return Err(concat2("unknown shell client: ", client_id.as_str()));
        };
        if !(client.capabilities.async_jobs || client.capabilities.async_shell_jobs) {
            return Err(
                concat3(
                    "agent client ",
                    client_id.as_str(),
                    " does not support async shell jobs",
                ),
            );
        }
        match self.ensure_queue_capacity_locked(client_id.as_str()) {
            Ok(_) => {},
            Err(e) => {
                return Err(e);
            },
        }
        let ghost wanted = start_request(run, requested_by@, request_id@, job_id@, now);
        let mut request = plain_request(
            request_id.clone(),
            client_id.as_str(),
            "start_job",
            run.timeout_secs,
            requested_by,
            now,
        );
        request.job_id = Some(job_id.clone());
        request.cwd = trim_cwd(&run.cwd);
        request.command = run.command.clone();
        assert(request@ =~= wanted);
        let job = ShellJobRecord {
            job_id: job_id.clone(),
            request_id: Some(request_id.clone()),
            client_id,
            kind: "shell".to_owned(),
            project_id: None,
            cwd: opt_clone(&run.cwd),
            command_preview: command_preview(run.command.as_str()),
            status: "queued".to_owned(),
            created_at: now,
            started_at: None,
            ended_at: None,
            exit_code: None,
            duration_ms: None,
            stdout: None,
            stderr: None,
            error: None,
            codex: match &body.codex {
                Some(c) => Some(c.copy()),
                None => None,
            },
        };
        proof {
            assert(job@ =~= crate::shell_client::model::queued_job(
                body,
                run,
                request_id@,
                job_id@,
                now,
            ));
        }
        let view = job_view_at(&job, now);
        self.push_request(
            PendingShellRequest { request, waiter: false, job_id: Some(job_id.clone()) },
        );
        self.request_to_job.insert(request_id, job_id.clone());
        self.jobs_by_id.insert(job_id, job);
        Ok(view)
    }

    /// Starts a job: queues a request that starts it, and records the job.
    pub fn start_job(&mut self, body: ShellJobOpRequest, requested_by: String) -> (r: Result<
        ShellJobInfo,
        String,
    >)
        requires
            old(self).wf(),
        ensures
            final(self).wf(),
            exists|run: ShellRunRequest, request_id: Seq<char>, job_id: Seq<char>, now: i64|
                is_job_run(body, run) && is_new_id(request_id, "request_id"@) && is_new_id(
                    job_id,
                    "job_id"@,
                ) && (final(self)@, res_view(r)) == #[trigger] old(self)@.start_job(
                    body,
                    run,
                    requested_by@,
                    request_id,
                    job_id,
                    now,
                ),
    {
        let request_id = draw_id();
        let job_id = draw_id();
        let now = now_ts();
        self.start_job_at(body, requested_by, request_id, job_id, now)
    }

    /// Brings a job up to date at `now`: one that an agent had is lost when the
    /// agent is no longer online.
    pub fn refresh_job_status_locked(&mut self, job_id: &str, now: i64)
        requires
            old(self).wf(),
        ensures
            final(self).wf(),
            final(self)@ == old(self)@.refreshed(job_id@, now),
    {
        proof {
            law_refreshed_consistent(self@, job_id@, now);
        }
        let Some(job) = self.jobs_by_id.get(job_id) else {
            return;
        };
        if !is_agent_job_status(job.status.as_str()) || self.client_is_connected_locked(
            job.client_id.as_str(),
            now,
        ) {
            assert(self@.jobs.insert(job_id@, self@.jobs[job_id@]) =~= self@.jobs);
            return;
        }
        if let Some(job) = self.jobs_by_id.get_mut(job_id) {
            job.status = "lost".to_owned();
            job.ended_at = Some(now);
            job.error = Some("shell client went stale while job was running".to_owned());
        }
    }

    /// Whether the client is registered and online at `now`.
    pub fn client_is_connected_locked(&self, client_id: &str, now: i64) -> (r: bool)
        requires
            self.wf(),
        ensures
            r == self@.connected(client_id@, now),
    {
        match self.clients.get(client_id) {
            Some(client) => seconds_since(now, client.last_seen) <= CLIENT_ONLINE_WINDOW_SECS,
            None => false,
        }
    }

    /// Whether the caller sees the jobs of the client.
    pub fn shell_job_visible_to_auth(&self, auth: Option<&AuthContext>, client_id: &str) -> (r:
        bool)
        requires
            self.wf(),
        ensures
            r == self@.sees_jobs_of(caller(auth), client_id@),
    {
        let Some(a) = auth else {
            return true;
        };
        if a.is_admin() {
            return true;
        }
        match self.clients.get(client_id) {
            Some(client) => shell_client_visible_to_auth(auth, client),
            None => false,
        }
    }

    /// A look at a job at `now`.
    pub fn get_job_at(&mut self, auth: Option<&AuthContext>, job_id: &str, now: i64) -> (r: Result<
        ShellJobInfo,
        String,
    >)
        requires
            old(self).wf(),
        ensures
            final(self).wf(),
            (final(self)@, res_view(r)) == old(self)@.get_job(caller(auth), job_id@, now),
    {
        match validate_id(job_id, "job_id") {
            Ok(_) => {},
            Err(e) => {
                return Err(e);
            },
        }
        self.refresh_job_status_locked(job_id, now);
        let Some(job) = self.jobs_by_id.get(job_id) else {
            return Err(concat2("unknown shell job: ", job_id));
        };
        if !self.shell_job_visible_to_auth(auth, job.client_id.as_str()) {
            return Err(concat2("unknown shell job: ", job_id));
        }
        Ok(job_view_at(job, now))
    }

    /// A look at a job for a caller.
    pub fn get_job_for_auth(&mut self, auth: Option<&AuthContext>, job_id: &str) -> (r: Result<
        ShellJobInfo,
        String,
    >)
        requires
            old(self).wf(),
        ensures
            final(self).wf(),
            exists|now: i64|
                (final(self)@, res_view(r)) == #[trigger] old(self)@.get_job(
                    caller(auth),
                    job_id@,
                    now,
                ),
    {
        let now = now_ts();
        self.get_job_at(auth, job_id, now)
    }

    /// A look at a job.
    pub fn get_job(&mut self, job_id: &str) -> (r: Result<ShellJobInfo, String>)
        requires
            old(self).wf(),
        ensures
            final(self).wf(),
            exists|now: i64|
                (final(self)@, res_view(r)) == #[trigger] old(self)@.get_job(None, job_id@, now),
    {
        self.get_job_for_auth(None, job_id)
    }

    /// A look at the log of a job at `now`.
    pub fn job_log_at(
        &mut self,
        auth: Option<&AuthContext>,
        job_id: &str,
        since_stdout_line: Option<usize>,
        since_stderr_line: Option<usize>,
        tail_lines: Option<usize>,
        now: i64,
    ) -> (r: Result<(ShellJobInfo, Option<String>, Option<String>, usize, usize), String>)
        requires
            old(self).wf(),
        ensures
            final(self).wf(),
            (final(self)@, log_view(r)) == old(self)@.job_log(
                caller(auth),
                job_id@,
                since_stdout_line,
                since_stderr_line,
                tail_lines,
                now,
            ),
    {
        let info = match self.get_job_at(auth, job_id, now) {
            Ok(info) => info,
            Err(e) => {
                return Err(e);
            },
        };
        let Some(job) = self.jobs_by_id.get(job_id) else {
            return Err(concat2("unknown shell job: ", job_id));
        };
        let (stdout, next_stdout_line) = select_lines(
            job.stdout.as_ref(),
            since_stdout_line,
            tail_lines,
        );
        let (stderr, next_stderr_line) = select_lines(
            job.stderr.as_ref(),
            since_stderr_line,
            tail_lines,
        );
        Ok((info, stdout, stderr, next_stdout_line, next_stderr_line))
    }

    /// A look at the log of a job for a caller.
    pub fn job_log_for_auth(
        &mut self,
        auth: Option<&AuthContext>,
        job_id: &str,
        since_stdout_line: Option<usize>,
        since_stderr_line: Option<usize>,
        tail_lines: Option<usize>,
    ) -> (r: Result<(ShellJobInfo, Option<String>, Option<String>, usize, usize), String>)
        requires
            old(self).wf(),
        ensures
            final(self).wf(),
            exists|now: i64|
                (final(self)@, log_view(r)) == #[trigger] old(self)@.job_log(
                    caller(auth),
                    job_id@,
                    since_stdout_line,
                    since_stderr_line,
                    tail_lines,
                    now,
                ),
    {
        let now = now_ts();
        self.job_log_at(auth, job_id, since_stdout_line, since_stderr_line, tail_lines, now)
    }

    /// A look at the log of a job.
    pub fn job_log(
        &mut self,
        job_id: &str,
        since_stdout_line: Option<usize>,
        since_stderr_line: Option<usize>,
        tail_lines: Option<usize>,
    ) -> (r: Result<(ShellJobInfo, Option<String>, Option<String>, usize, usize), String>)
        requires
            old(self).wf(),
        ensures
            final(self).wf(),
            exists|now: i64|
                (final(self)@, log_view(r)) == #[trigger] old(self)@.job_log(
                    None,
                    job_id@,
                    since_stdout_line,
                    since_stderr_line,
                    tail_lines,
                    now,
                ),
    {
        self.job_log_for_auth(None, job_id, since_stdout_line, since_stderr_line, tail_lines)
    }

    /// Stops a job at `now`; a request to its agent gets the id `stop_request_id`.
    pub fn stop_job_at(
        &mut self,
        job_id: &str,
        requested_by: String,
        stop_request_id: String,
        now: i64,
    ) -> (r: Result<ShellJobInfo, String>)
        requires
            old(self).wf(),
            id_error(stop_request_id@, "request_id"@) is None,
        ensures
            final(self).wf(),
            (final(self)@, res_view(r)) == old(self)@.stop_job(
                job_id@,
                requested_by@,
                stop_request_id@,
                now,
            ),
    {
        proof {
            law_stop_job_consistent(self@, job_id@, requested_by@, stop_request_id@, now);
        }
        match validate_id(job_id, "job_id") {
            Ok(_) => {},
            Err(e) => {
                return Err(e);
            },
        }
        let Some(job) = self.jobs_by_id.get(job_id) else {
            return Err(concat2("unknown shell job: ", job_id));
        };
        let ghost model = job@;
        if str_eq(job.status.as_str(), "queued") {
            let request_id = opt_clone(&job.request_id);
            if let Some(r) = request_id {
                let _ = self.pending_by_id.remove(r.as_str());
                let _ = self.request_to_job.remove(r.as_str());
                self.drop_from_queues(r.as_str());
            }
            assert(self@ =~= old(self)@.without_request(model.request_id));
            if let Some(job) = self.jobs_by_id.get_mut(job_id) {
                job.status = "stopped".to_owned();
                job.ended_at = Some(now);
                job.error = Some("job stopped before agent picked it up".to_owned());
            }
            self.view_of_job(job_id, now)
        } else if is_agent_job_status(job.status.as_str()) {
            let client_id = job.client_id.clone();
            match self.ensure_dispatch_supported_locked(client_id.as_str()) {
                Ok(_) => {},
                Err(e) => {
                    return Err(e);
                },
            }
            match self.ensure_queue_capacity_locked(client_id.as_str()) {
                Ok(_) => {},
                Err(e) => {
                    return Err(e);
                },
            }
            let mut request = plain_request(
                stop_request_id,
                client_id.as_str(),
                "stop_job",
                1,
                requested_by,
                now,
            );
            request.job_id = Some(job_id.to_owned());
            self.push_request(
                PendingShellRequest { request, waiter: false, job_id: Some(job_id.to_owned()) },
            );
            if let Some(job) = self.jobs_by_id.get_mut(job_id) {
                job.status = "stop_requested".to_owned();
                job.error = Some("stop requested".to_owned());
            }
            self.view_of_job(job_id, now)
        } else {
            Ok(job_view_at(job, now))
        }
    }

    fn view_of_job(&self, job_id: &str, now: i64) -> (r: Result<ShellJobInfo, String>)
        requires
            self.maps_wf(),
            self@.jobs.contains_key(job_id@),
        ensures
            r is Ok,
            r->Ok_0@ == crate::shell_client::jobs::job_info(self@.jobs[job_id@], now),
    {
        match self.jobs_by_id.get(job_id) {
            Some(job) => Ok(job_view_at(job, now)),
            None => Err(String::new()),
        }
    }

    /// Stops a job.
    pub fn stop_job(&mut self, job_id: &str, requested_by: String) -> (r: Result<
        ShellJobInfo,
        String,
    >)
        requires
            old(self).wf(),
        ensures
            final(self).wf(),
            exists|id: Seq<char>, now: i64|
                is_new_id(id, "request_id"@) && (final(self)@, res_view(r)) == #[trigger] old(self)@.stop_job(
                    job_id@,
                    requested_by@,
                    id,
                    now,
                ),
    {
        let stop_request_id = draw_id();
        let now = now_ts();
        self.stop_job_at(job_id, requested_by, stop_request_id, now)
    }
}

// ---------------------------------------------------------------------------
// Reports from agents
// ---------------------------------------------------------------------------

/// Enters an agent's report at `now` into a job that has not ended. The answer is
/// whether the report ends the job.
fn apply_report(job: &mut ShellJobRecord, body: ShellAgentJobUpdateRequest, now: i64) -> (ends:
    bool)
    requires
        !is_final(old(job).status@),
    ensures
        final(job)@ == updated_job(old(job)@, body, now),
        ends == report_ends(old(job)@, body, now),
{
    let ghost b = body;
    let ghost before = job@;
    replace_limited(&mut job.stdout, body.stdout_tail);
    replace_limited(&mut job.stderr, body.stderr_tail);
    append_limited(&mut job.stdout, body.stdout_chunk);
    append_limited(&mut job.stderr, body.stderr_chunk);
    let status = body.status.as_str();
    if job.started_at.is_none() && (str_eq(status, "running") || str_eq(status, "completed")
        || str_eq(status, "failed") || str_eq(status, "stopped") || str_eq(status, "timeout")) {
        job.started_at = Some(now);
    }
    let word = str_trim(status);
    if !word.is_empty() {
        job.status = if str_eq(word, "queued") && job.started_at.is_some() {
            "agent_queued".to_owned()
        } else {
            word.to_owned()
        };
    }
    let mut ends = false;
    if is_final_job_status(status) {
        job.status = body.status;
        job.ended_at = Some(now);
        job.exit_code = body.exit_code;
        job.duration_ms = body.duration_ms;
        job.error = body.error;
        ends = true;
    } else if body.error.is_some() {
        job.error = body.error;
    }
    assert(job@ =~= crate::shell_client::model::job_with_report(before, b, now));
    if body.finished && !is_final_job_status(job.status.as_str()) {
        let succeeded = job.error.is_none() && match job.exit_code {
            Some(code) => code == 0,
            None => false,
        };
        job.status = if succeeded {
            "completed".to_owned()
        } else {
            "failed".to_owned()
        };
        job.ended_at = Some(now);
        ends = true;
    }
    assert(job@ =~= updated_job(before, b, now));
    ends
}

impl ShellClientRegistry {
    /// Takes the report of an agent on a job at `now`.
    pub fn update_job_at(&mut self, body: ShellAgentJobUpdateRequest, now: i64) -> (r: Result<
        ShellJobInfo,
        String,
    >)
        requires
            old(self).wf(),
        ensures
            final(self).wf(),
            (final(self)@, res_view(r)) == old(self)@.update_job(body, now),
    {
        proof {
            law_update_job_consistent(self@, body, now);
        }
        let ghost b = body;
        match validate_id(body.client_id.as_str(), "client_id") {
            Ok(_) => {},
            Err(e) => {
                return Err(e);
            },
        }
        match validate_id(body.job_id.as_str(), "job_id") {
            Ok(_) => {},
            Err(e) => {
                return Err(e);
            },
        }
        match validate_agent_instance_id(body.agent_instance_id.as_str()) {
            Ok(_) => {},
            Err(e) => {
                return Err(e);
            },
        }
        match self.assert_active_instance_locked(
            body.client_id.as_str(),
            body.agent_instance_id.as_str(),
        ) {
            Ok(_) => {},
            Err(e) => {
                return Err(e);
            },
        }
        self.mark_seen(body.client_id.as_str(), now);
        let ghost seen = self@;
        let job_id = body.job_id.clone();
        let Some(job) = self.jobs_by_id.get(job_id.as_str()) else {
            return Err(concat2("unknown shell job: ", job_id.as_str()));
        };
        if !str_eq(job.client_id.as_str(), body.client_id.as_str()) {
            return Err("job_id does not belong to client_id".to_owned());
        }
        if is_final_job_status(job.status.as_str()) {
            return Ok(job_view_at(job, now));
        }
        let ghost model = job@;
        let mut ends = false;
        if let Some(job) = self.jobs_by_id.get_mut(job_id.as_str()) {
            ends = apply_report(job, body, now);
        }
        assert(self@ =~= seen.with_job(b.job_id@, updated_job(model, b, now)));
        let view = self.view_of_job(job_id.as_str(), now);
        if ends {
            let request_id = match self.jobs_by_id.get(job_id.as_str()) {
                Some(job) => opt_clone(&job.request_id),
                None => None,
            };
            if let Some(r) = request_id {
                let _ = self.pending_by_id.remove(r.as_str());
                let _ = self.request_to_job.remove(r.as_str());
            }
        }
        view
    }

    /// Takes the report of an agent on a job. A job that has ended does not change.
    pub fn update_job(&mut self, body: ShellAgentJobUpdateRequest) -> (r: Result<
        ShellJobInfo,
        String,
    >)
        requires
            old(self).wf(),
        ensures
            final(self).wf(),
            exists|now: i64|
                (final(self)@, res_view(r)) == #[trigger] old(self)@.update_job(body, now),
    {
        let now = now_ts();
        self.update_job_at(body, now)
    }

    fn take_next(&mut self, client_id: &str, now: i64) -> (r: Option<ShellAgentShellRequest>)
        requires
            old(self).maps_wf(),
        ensures
            final(self).maps_wf(),
            (final(self)@, opt_view(r)) == old(self)@.take_next(client_id@, now),
    {
        loop
            invariant
                self.maps_wf(),
                self@.take_next(client_id@, now) == old(self)@.take_next(client_id@, now),
            decreases self@.queue_of(client_id@).len(),
        {
            let ghost before = self@;
            let popped = match self.queues_by_client.get_mut(client_id) {
                Some(queue) => queue.pop_front(),
                None => None,
            };
            let Some(request_id) = popped else {
                assert(self@ =~= before);
                return None;
            };
            assert(self@ =~= before.popped(client_id@));
            let Some(pending) = self.pending_by_id.get(request_id.as_str()) else {
                continue ;
            };
            let request = pending.request.copy();
            let job_id = opt_clone(&pending.job_id);
            if str_eq(request.kind.as_str(), "stop_job") {
                let _ = self.pending_by_id.remove(request_id.as_str());
                return Some(request);
            }
            let ghost rest = self@;
            if let Some(job_id) = job_id {
                if let Some(job) = self.jobs_by_id.get_mut(job_id.as_str()) {
                    if str_eq(job.status.as_str(), "queued") {
                        job.status = "agent_queued".to_owned();
                        job.started_at = Some(now);
                    }
                }
                assert(self@ =~= rest.delivered(request_id@, now));
            }
            return Some(request);
        }
    }

    /// Takes a poll of an agent at `now`: the answer is its next request.
    pub fn poll_at(&mut self, body: ShellAgentPollRequest, now: i64) -> (r: Result<
        Option<ShellAgentShellRequest>,
        String,
    >)
        requires
            old(self).wf(),
        ensures
            final(self).wf(),
            (final(self)@, res_opt_view(r)) == old(self)@.poll(body, now),
    {
        proof {
            law_poll_consistent(self@, body, now);
        }
        match validate_id(body.client_id.as_str(), "client_id") {
            Ok(_) => {},
            Err(e) => {
                return Err(e);
            },
        }
        match validate_agent_instance_id(body.agent_instance_id.as_str()) {
            Ok(_) => {},
            Err(e) => {
                return Err(e);
            },
        }
        match self.assert_active_instance_locked(
            body.client_id.as_str(),
            body.agent_instance_id.as_str(),
        ) {
            Ok(_) => {},
            Err(e) => {
                return Err(e);
            },
        }
        if let Some(client) = self.clients.get_mut(body.client_id.as_str()) {
            if body.projects.is_some() {
                client.projects = normalize_project_summaries(body.projects);
            }
            client.last_seen = now;
        }
        Ok(self.take_next(body.client_id.as_str(), now))
    }

    /// Takes a poll of an agent: the answer is its next request, in the order in
    /// which the requests were queued.
    pub fn poll(&mut self, body: ShellAgentPollRequest) -> (r: Result<
        Option<ShellAgentShellRequest>,
        String,
    >)
        requires
            old(self).wf(),
        ensures
            final(self).wf(),
            exists|now: i64|
                (final(self)@, res_opt_view(r)) == #[trigger] old(self)@.poll(body, now),
    {
        let now = now_ts();
        self.poll_at(body, now)
    }

    /// Takes the result of a request at `now`. The answer is the response for the
    /// caller who waits for it, where one does.
    pub fn complete_at(&mut self, body: ShellAgentResultRequest, now: i64) -> (r: Result<
        Option<ShellRunResponse>,
        String,
    >)
        requires
            old(self).wf(),
        ensures
            final(self).wf(),
            (final(self)@, res_opt_view(r)) == old(self)@.complete(body, now),
    {
        proof {
            law_complete_consistent(self@, body, now);
        }
        let ghost b = body;
        match validate_id(body.client_id.as_str(), "client_id") {
            Ok(_) => {},
            Err(e) => {
                return Err(e);
            },
        }
        match validate_id(body.request_id.as_str(), "request_id") {
            Ok(_) => {},
            Err(e) => {
                return Err(e);
            },
        }
        match validate_agent_instance_id(body.agent_instance_id.as_str()) {
            Ok(_) => {},
            Err(e) => {
                return Err(e);
            },
        }
        match self.assert_active_instance_locked(
            body.client_id.as_str(),
            body.agent_instance_id.as_str(),
        ) {
            Ok(_) => {},
            Err(e) => {
                return Err(e);
            },
        }
        self.mark_seen(body.client_id.as_str(), now);
        let Some(pending) = self.pending_by_id.remove(body.request_id.as_str()) else {
            assert(self@.pending =~= self@.pending.remove(b.request_id@));
            return Err(concat2("unknown or expired shell request: ", body.request_id.as_str()));
        };
        if !str_eq(pending.request.client_id.as_str(), body.client_id.as_str()) {
            return Err("request_id does not belong to client_id".to_owned());
        }
        let success = body.error.is_none() && match body.exit_code {
            Some(code) => code == 0,
            None => false,
        };
        let stdout = truncate_output(body.stdout);
        let stderr = truncate_output(body.stderr);
        let ghost taken = self@;
        let job_id = opt_clone(&pending.job_id);
        if let Some(job_id) = job_id {
            let _ = self.request_to_job.remove(body.request_id.as_str());
            if let Some(job) = self.jobs_by_id.get_mut(job_id.as_str()) {
                job.status = if success {
                    "completed".to_owned()
                } else {
                    "failed".to_owned()
                };
                job.ended_at = Some(now);
                job.exit_code = body.exit_code;
                job.duration_ms = body.duration_ms;
                job.stdout = opt_clone(&stdout);
                job.stderr = opt_clone(&stderr);
                job.error = opt_clone(&body.error);
            }
        }
        assert(self@ =~= taken.job_finished(pending@.job_id, b, now));
        let response = ShellRunResponse {
            success,
            request_id: body.request_id,
            client_id: body.client_id,
            command_preview: command_preview(pending.request.command.as_str()),
            cwd: pending.request.cwd,
            exit_code: body.exit_code,
            stdout,
            stderr,
            duration_ms: body.duration_ms,
            error: body.error,
        };
        assert(response@ =~= crate::shell_client::model::result_response(pending@.request, b));
        if pending.waiter {
            Ok(Some(response))
        } else {
            Ok(None)
        }
    }

    /// Takes the result of a request.
    pub fn complete(&mut self, body: ShellAgentResultRequest) -> (r: Result<
        Option<ShellRunResponse>,
        String,
    >)
        requires
            old(self).wf(),
        ensures
            final(self).wf(),
            exists|now: i64|
                (final(self)@, res_opt_view(r)) == #[trigger] old(self)@.complete(body, now),
    {
        let now = now_ts();
        self.complete_at(body, now)
    }
}

// ---------------------------------------------------------------------------
// Listings
// ---------------------------------------------------------------------------

/// Whether `r` lists the clients that the caller sees at `now`, in the order of
/// their ids.
pub open spec fn is_client_listing(
    m: RegistryModel,
    auth: Option<AuthModel>,
    now: i64,
    r: Seq<ClientViewModel>,
) -> bool {
    &&& forall|i: int, j: int|
        0 <= i < j < r.len() ==> text_less(r[i].client_id, r[j].client_id)
    &&& forall|i: int|
        0 <= i < r.len() ==> {
            &&& m.clients.contains_key((#[trigger] r[i]).client_id)
            &&& sees_client(auth, m.clients[r[i].client_id])
            &&& r[i] == m.client_view(r[i].client_id, now)
        }
    &&& forall|c: Seq<char>| #[trigger]
        m.clients.contains_key(c) && sees_client(auth, m.clients[c]) ==> lists_client(r, c)
}

/// Whether a client with this id is listed.
pub open spec fn lists_client(r: Seq<ClientViewModel>, client_id: Seq<char>) -> bool {
    exists|i: int| 0 <= i < r.len() && (#[trigger] r[i]).client_id == client_id
}

/// How many jobs are listed at most.
pub open spec fn listing_limit(limit: Option<usize>) -> int {
    match limit {
        Some(n) => if n < 1 {
            1
        } else if n > 100 {
            100
        } else {
            n as int
        },
        None => 20,
    }
}

/// Whether a job with this id is listed.
pub open spec fn lists_job(r: Seq<JobInfoModel>, job_id: Seq<char>) -> bool {
    exists|i: int| 0 <= i < r.len() && (#[trigger] r[i]).job_id == job_id
}

/// Whether `r` lists the jobs that the arguments pick, each once and the latest first.
pub open spec fn is_job_listing(
    m: RegistryModel,
    auth: Option<AuthModel>,
    client_id: Option<Seq<char>>,
    status: Option<Seq<char>>,
    now: i64,
    r: Seq<JobInfoModel>,
) -> bool {
    &&& forall|i: int, j: int|
        0 <= i < j < r.len() ==> r[i].created_at >= r[j].created_at && r[i].job_id != r[j].job_id
    &&& forall|i: int|
        0 <= i < r.len() ==> {
            &&& m.jobs.contains_key((#[trigger] r[i]).job_id)
            &&& picks(m, auth, client_id, status, m.jobs[r[i].job_id])
            &&& r[i] == job_info(m.jobs[r[i].job_id], now)
        }
    &&& forall|j: Seq<char>| #[trigger]
        m.jobs.contains_key(j) && picks(m, auth, client_id, status, m.jobs[j]) ==> lists_job(r, j)
}

/// Whether `r` is the beginning of a listing, cut to the limit. Jobs of one age
/// come in any order.
pub open spec fn is_limited_listing(
    m: RegistryModel,
    auth: Option<AuthModel>,
    client_id: Option<Seq<char>>,
    status: Option<Seq<char>>,
    limit: Option<usize>,
    now: i64,
    r: Seq<JobInfoModel>,
) -> bool {
    exists|all: Seq<JobInfoModel>| #[trigger]
        is_job_listing(m, auth, client_id, status, now, all) && r == (if all.len() <= listing_limit(limit) {
            all
        } else {
            all.take(listing_limit(limit))
        })
}

fn clamp_limit(limit: Option<usize>) -> (r: usize)
    ensures
        r == listing_limit(limit),
{
    match limit {
        Some(n) => if n < 1 {
            1
        } else if n > 100 {
            100
        } else {
            n
        },
        None => 20,
    }
}

/// Puts a job behind those that are no older.
fn insert_by_age(out: &mut Vec<ShellJobInfo>, info: ShellJobInfo) -> (place: usize)
    requires
        forall|i: int, j: int|
            0 <= i < j < old(out)@.len() ==> old(out)@[i].created_at >= old(out)@[j].created_at,
    ensures
        place <= old(out)@.len(),
        final(out)@ == old(out)@.insert(place as int, info),
        forall|i: int, j: int|
            0 <= i < j < final(out)@.len() ==> final(out)@[i].created_at
                >= final(out)@[j].created_at,
{
    let mut place: usize = 0;
    while place < out.len() && out[place].created_at >= info.created_at
        invariant
            place <= out@.len(),
            forall|i: int| 0 <= i < place ==> out@[i].created_at >= info.created_at,
        decreases out@.len() - place,
    {
        place = place + 1;
    }
    out.insert(place, info);
    place
}

/// Puts a client behind those whose ids come before its own.
fn insert_by_id(out: &mut Vec<ShellClientView>, view: ShellClientView) -> (place: usize)
    requires
        forall|i: int, j: int|
            0 <= i < j < old(out)@.len() ==> text_less(
                old(out)@[i].client_id@,
                old(out)@[j].client_id@,
            ),
        forall|i: int| 0 <= i < old(out)@.len() ==> (#[trigger] old(out)@[i]).client_id@
            != view.client_id@,
    ensures
        place <= old(out)@.len(),
        final(out)@ == old(out)@.insert(place as int, view),
        forall|i: int, j: int|
            0 <= i < j < final(out)@.len() ==> text_less(
                final(out)@[i].client_id@,
                final(out)@[j].client_id@,
            ),
{
    let mut place: usize = 0;
    while place < out.len() && str_less(out[place].client_id.as_str(), view.client_id.as_str())
        invariant
            place <= out@.len(),
            forall|i: int| 0 <= i < place ==> text_less(out@[i].client_id@, view.client_id@),
        decreases out@.len() - place,
    {
        place = place + 1;
    }
    let ghost before = out@;
    proof {
        assert forall|i: int| place <= i < before.len() implies text_less(
            view.client_id@,
            before[i].client_id@,
        ) by {
            let first = before[place as int].client_id@;
            lemma_less_total(first, view.client_id@);
            assert(first != view.client_id@);
            if i > place {
                lemma_less_transitive(view.client_id@, first, before[i].client_id@);
            }
        }
    }
    out.insert(place, view);
    place
}

impl ShellClientRegistry {
    /// The clients that the caller sees at `now`.
    pub fn list_clients_at(&self, auth: Option<&AuthContext>, now: i64) -> (r: Vec<ShellClientView>)
        requires
            self.wf(),
        ensures
            is_client_listing(self@, caller(auth), now, views(r@)),
    {
        let mut out: Vec<ShellClientView> = Vec::new();
        let ghost m = self@;
        let ghost keys = self.clients.keys();
        let n = self.clients.len();
        let mut i: usize = 0;
        proof {
            self.clients.lemma_keys();
        }
        while i < n
            invariant
                i <= n,
                n == keys.len(),
                self.wf(),
                m == self@,
                keys == self.clients.keys(),
                keys.no_duplicates(),
                forall|k: int| 0 <= k < keys.len() ==> m.clients.contains_key(#[trigger] keys[k]),
                forall|a: int, b: int|
                    0 <= a < b < out@.len() ==> text_less(
                        out@[a].client_id@,
                        out@[b].client_id@,
                    ),
                forall|a: int|
                    0 <= a < out@.len() ==> {
                        &&& m.clients.contains_key((#[trigger] out@[a]).client_id@)
                        &&& sees_client(caller(auth), m.clients[out@[a].client_id@])
                        &&& out@[a]@ == m.client_view(out@[a].client_id@, now)
                        &&& exists|k: int| 0 <= k < i && keys[k] == out@[a].client_id@
                    },
                forall|k: int|
                    0 <= k < i && sees_client(caller(auth), m.clients[#[trigger] keys[k]])
                        ==> exists|a: int| 0 <= a < out@.len() && (#[trigger] out@[a]).client_id@
                        == keys[k],
            decreases n - i,
        {
            let ghost before = out@;
            let key = self.clients.key_at(i);
            let client = self.clients.value_at(i);
            assert(m.clients[keys[i as int]].client_id == keys[i as int]);
            if shell_client_visible_to_auth(auth, client) {
                if let Some(view) = self.client_view_at(key.as_str(), now) {
                    assert(view@.client_id == keys[i as int]);
                    proof {
                        assert forall|a: int| 0 <= a < out@.len() implies (
                        #[trigger] out@[a]).client_id@ != view.client_id@ by {
                            let k = choose|k: int| 0 <= k < i && keys[k] == out@[a].client_id@;
                            assert(keys[k] != keys[i as int]);
                        }
                    }
                    let place = insert_by_id(&mut out, view);
                    proof {
                        assert forall|k: int|
                            0 <= k < i + 1 && sees_client(
                                caller(auth),
                                m.clients[#[trigger] keys[k]],
                            ) implies exists|a: int|
                            0 <= a < out@.len() && (#[trigger] out@[a]).client_id@ == keys[k] by {
                            if k == i {
                                assert(out@[place as int].client_id@ == keys[k]);
                            } else {
                                let a = choose|a: int|
                                    0 <= a < before.len() && (#[trigger] before[a]).client_id@
                                        == keys[k];
                                assert(out@[if a < place { a } else { a + 1 }].client_id@
                                    == keys[k]);
                            }
                        }
                        assert forall|a: int| 0 <= a < out@.len() implies {
                            &&& m.clients.contains_key((#[trigger] out@[a]).client_id@)
                            &&& sees_client(caller(auth), m.clients[out@[a].client_id@])
                            &&& out@[a]@ == m.client_view(out@[a].client_id@, now)
                            &&& exists|k: int| 0 <= k < i + 1 && keys[k] == out@[a].client_id@
                        } by {
                            if a == place {
                                assert(keys[i as int] == out@[a].client_id@);
                            } else {
                                let old_a = if a < place { a } else { a - 1 };
                                assert(out@[a] == before[old_a]);
                            }
                        }
                    }
                }
            }
            i = i + 1;
        }
        proof {
            let r = views(out@);
            assert forall|a: int, b: int| 0 <= a < b < r.len() implies text_less(
                r[a].client_id,
                r[b].client_id,
            ) by {
                assert(text_less(out@[a].client_id@, out@[b].client_id@));
            }
            assert forall|a: int| 0 <= a < r.len() implies {
                &&& m.clients.contains_key((#[trigger] r[a]).client_id)
                &&& sees_client(caller(auth), m.clients[r[a].client_id])
                &&& r[a] == m.client_view(r[a].client_id, now)
            } by {
                assert(r[a] == out@[a]@);
            }
            assert forall|c: Seq<char>| #[trigger]
                m.clients.contains_key(c) && sees_client(
                    caller(auth),
                    m.clients[c],
                ) implies lists_client(r, c) by {
                let k = choose|k: int| 0 <= k < keys.len() && keys[k] == c;
                assert(sees_client(caller(auth), m.clients[keys[k]]));
                let a = choose|a: int| 0 <= a < out@.len() && (#[trigger] out@[a]).client_id@ == c;
                assert(r[a].client_id == c);
            }
        }
        out
    }

    /// The clients that the caller sees.
    pub fn list_clients_for_auth(&self, auth: Option<&AuthContext>) -> (r: Vec<ShellClientView>)
        requires
            self.wf(),
        ensures
            exists|now: i64| #[trigger] is_client_listing(self@, caller(auth), now, views(r@)),
    {
        self.list_clients_at(auth, now_ts())
    }

    /// All clients.
    pub fn list_clients(&self) -> (r: Vec<ShellClientView>)
        requires
            self.wf(),
        ensures
            exists|now: i64| #[trigger] is_client_listing(self@, None, now, views(r@)),
    {
        self.list_clients_for_auth(None)
    }

    /// Brings every job up to date at `now`.
    fn refresh_all(&mut self, now: i64)
        requires
            old(self).wf(),
        ensures
            final(self).wf(),
            final(self)@ == old(self)@.refreshed_all(now),
    {
        let ghost m = self@;
        let ghost keys = self.jobs_by_id.keys();
        let n = self.jobs_by_id.len();
        let mut i: usize = 0;
        proof {
            self.jobs_by_id.lemma_keys();
            law_refreshed_all_consistent(m, now);
        }
        while i < n
            invariant
                i <= n,
                n == keys.len(),
                self.maps_wf(),
                self.jobs_by_id.keys() == keys,
                keys.no_duplicates(),
                forall|k: int| 0 <= k < keys.len() ==> m.jobs.contains_key(#[trigger] keys[k]),
                self@.clients == m.clients,
                self@.notifiers == m.notifiers,
                self@.pending == m.pending,
                self@.queues == m.queues,
                self@.request_to_job == m.request_to_job,
                self@.jobs.dom() == m.jobs.dom(),
                forall|k: int|
                    0 <= k < i ==> self@.jobs[#[trigger] keys[k]] == m.refreshed_job(
                        m.jobs[keys[k]],
                        now,
                    ),
                forall|k: int|
                    i <= k < keys.len() ==> self@.jobs[#[trigger] keys[k]] == m.jobs[keys[k]],
            decreases n - i,
        {
            let key = self.jobs_by_id.key_at(i).clone();
            let job = self.jobs_by_id.value_at(i);
            let connected = match self.clients.get(job.client_id.as_str()) {
                Some(client) => seconds_since(now, client.last_seen) <= CLIENT_ONLINE_WINDOW_SECS,
                None => false,
            };
            assert(connected == m.connected(m.jobs[keys[i as int]].client_id, now));
            if is_agent_job_status(job.status.as_str()) && !connected {
                if let Some(job) = self.jobs_by_id.get_mut(key.as_str()) {
                    job.status = "lost".to_owned();
                    job.ended_at = Some(now);
                    job.error = Some("shell client went stale while job was running".to_owned());
                }
                assert(m.jobs.contains_key(keys[i as int]));
                assert(self@.jobs.dom() =~= m.jobs.dom());
            }
            i = i + 1;
        }
        proof {
            self.jobs_by_id.lemma_keys();
            let wanted = m.refreshed_all(now).jobs;
            assert forall|j: Seq<char>| m.jobs.contains_key(j) implies self@.jobs[j]
                == wanted[j] by {
                assert(self@.jobs.dom().contains(j));
                assert(self@.jobs.contains_key(j));
                let k = choose|k: int| 0 <= k < keys.len() && keys[k] == j;
                assert(self@.jobs[keys[k]] == self@.jobs[j]);
            }
            assert(self@.jobs =~= wanted);
            assert(self@ =~= m.refreshed_all(now));
        }
    }

    /// The views at `now` of the jobs that the arguments pick: those that the caller
    /// sees, of one client where one is given, and with one status where one is.
    #[verifier::spinoff_prover]
    #[verifier::rlimit(50)]
    fn collect_jobs(
        &self,
        auth: Option<&AuthContext>,
        client_id: Option<&str>,
        status: Option<&str>,
        now: i64,
    ) -> (r: Vec<ShellJobInfo>)
        requires
            self.wf(),
        ensures
            is_job_listing(
                self@,
                caller(auth),
                opt_str(client_id),
                opt_str(status),
                now,
                views(r@),
            ),
    {
        let mut out: Vec<ShellJobInfo> = Vec::new();
        let ghost m = self@;
        let ghost keys = self.jobs_by_id.keys();
        let ghost keep = |job: JobModel|
            picks(m, caller(auth), opt_str(client_id), opt_str(status), job);
        let n = self.jobs_by_id.len();
        let mut i: usize = 0;
        proof {
            self.jobs_by_id.lemma_keys();
        }
        while i < n
            invariant
                i <= n,
                n == keys.len(),
                self.wf(),
                m == self@,
                keys == self.jobs_by_id.keys(),
                keys.no_duplicates(),
                keep == (|job: JobModel|
                    picks(m, caller(auth), opt_str(client_id), opt_str(status), job)),
                forall|k: int| 0 <= k < keys.len() ==> m.jobs.contains_key(#[trigger] keys[k]),
                forall|a: int, b: int|
                    0 <= a < b < out@.len() ==> out@[a].created_at >= out@[b].created_at
                        && out@[a].job_id@ != out@[b].job_id@,
                forall|a: int|
                    0 <= a < out@.len() ==> {
                        &&& m.jobs.contains_key((#[trigger] out@[a]).job_id@)
                        &&& keep(m.jobs[out@[a].job_id@])
                        &&& out@[a]@ == job_info(m.jobs[out@[a].job_id@], now)
                        &&& exists|k: int| 0 <= k < i && keys[k] == out@[a].job_id@
                    },
                forall|k: int|
                    0 <= k < i && keep(m.jobs[#[trigger] keys[k]]) ==> exists|a: int|
                        0 <= a < out@.len() && (#[trigger] out@[a]).job_id@ == keys[k],
            decreases n - i,
        {
            let ghost before = out@;
            let job = self.jobs_by_id.value_at(i);
            assert(m.jobs[keys[i as int]].job_id == keys[i as int]);
            let of_client = match client_id {
                Some(c) => str_eq(job.client_id.as_str(), c),
                None => true,
            };
            let of_status = match status {
                Some(s) => str_eq(s, job.status.as_str()),
                None => true,
            };
            if of_client && of_status && self.shell_job_visible_to_auth(
                auth,
                job.client_id.as_str(),
            ) {
                let info = job_view_at(job, now);
                assert(info@.job_id == keys[i as int]);
                proof {
                    assert forall|a: int| 0 <= a < out@.len() implies (#[trigger] out@[a]).job_id@
                        != info.job_id@ by {
                        let k = choose|k: int| 0 <= k < i && keys[k] == out@[a].job_id@;
                        assert(keys[k] != keys[i as int]);
                    }
                }
                let place = insert_by_age(&mut out, info);
                proof {
                    assert forall|a: int, b: int| 0 <= a < b < out@.len() implies out@[a].job_id@
                        != out@[b].job_id@ by {
                        let oa = if a < place { a } else { a - 1 };
                        let ob = if b < place { b } else { b - 1 };
                        if a != place {
                            assert(out@[a] == before[oa]);
                        }
                        if b != place {
                            assert(out@[b] == before[ob]);
                        }
                    }
                    assert forall|k: int|
                        0 <= k < i + 1 && keep(m.jobs[#[trigger] keys[k]]) implies exists|a: int|
                        0 <= a < out@.len() && (#[trigger] out@[a]).job_id@ == keys[k] by {
                        if k == i {
                            assert(out@[place as int].job_id@ == keys[k]);
                        } else {
                            let a = choose|a: int|
                                0 <= a < before.len() && (#[trigger] before[a]).job_id@ == keys[k];
                            assert(out@[if a < place { a } else { a + 1 }].job_id@ == keys[k]);
                        }
                    }
                    assert forall|a: int| 0 <= a < out@.len() implies {
                        &&& m.jobs.contains_key((#[trigger] out@[a]).job_id@)
                        &&& keep(m.jobs[out@[a].job_id@])
                        &&& out@[a]@ == job_info(m.jobs[out@[a].job_id@], now)
                        &&& exists|k: int| 0 <= k < i + 1 && keys[k] == out@[a].job_id@
                    } by {
                        if a == place {
                            assert(keys[i as int] == out@[a].job_id@);
                        } else {
                            let old_a = if a < place { a } else { a - 1 };
                            assert(out@[a] == before[old_a]);
                        }
                    }
                }
            }
            i = i + 1;
        }
        proof {
            let r = views(out@);
            assert forall|a: int, b: int| 0 <= a < b < r.len() implies r[a].created_at
                >= r[b].created_at && r[a].job_id != r[b].job_id by {
                assert(out@[a].created_at >= out@[b].created_at);
            }
            assert forall|a: int| 0 <= a < r.len() implies {
                &&& m.jobs.contains_key((#[trigger] r[a]).job_id)
                &&& keep(m.jobs[r[a].job_id])
                &&& r[a] == job_info(m.jobs[r[a].job_id], now)
            } by {
                assert(r[a] == out@[a]@);
            }
            assert forall|j: Seq<char>| #[trigger]
                m.jobs.contains_key(j) && keep(m.jobs[j]) implies lists_job(r, j) by {
                let k = choose|k: int| 0 <= k < keys.len() && keys[k] == j;
                assert(keep(m.jobs[keys[k]]));
                let a = choose|a: int| 0 <= a < out@.len() && (#[trigger] out@[a]).job_id@ == j;
                assert(r[a].job_id == j);
            }
        }
        out
    }

    /// The latest jobs that the caller sees, as they are at `now`.
    pub fn list_jobs_at(&mut self, auth: Option<&AuthContext>, limit: Option<usize>, now: i64)
        -> (r: Vec<ShellJobInfo>)
        requires
            old(self).wf(),
        ensures
            final(self).wf(),
            final(self)@ == old(self)@.refreshed_all(now),
            is_limited_listing(
                final(self)@,
                caller(auth),
                None,
                None,
                limit,
                now,
                views(r@),
            ),
    {
        self.refresh_all(now);
        let mut jobs = self.collect_jobs(auth, None, None, now);
        let ghost all = views(jobs@);
        let n = clamp_limit(limit);
        if jobs.len() > n {
            jobs.truncate(n);
            assert(views(jobs@) =~= all.take(n as int));
        }
        jobs
    }

    /// The latest jobs that the caller sees.
    pub fn list_jobs_for_auth(&mut self, auth: Option<&AuthContext>, limit: Option<usize>) -> (r:
        Vec<ShellJobInfo>)
        requires
            old(self).wf(),
        ensures
            final(self).wf(),
            exists|now: i64|
                final(self)@ == #[trigger] old(self)@.refreshed_all(now) && is_limited_listing(
                final(self)@,
                caller(auth),
                None,
                None,
                    limit,
                    now,
                    views(r@),
                ),
    {
        let now = now_ts();
        self.list_jobs_at(auth, limit, now)
    }

    /// The latest jobs.
    pub fn list_jobs(&mut self, limit: Option<usize>) -> (r: Vec<ShellJobInfo>)
        requires
            old(self).wf(),
        ensures
            final(self).wf(),
            exists|now: i64|
                final(self)@ == #[trigger] old(self)@.refreshed_all(now) && is_limited_listing(
                final(self)@,
                None,
                None,
                None,
                    limit,
                    now,
                    views(r@),
                ),
    {
        self.list_jobs_for_auth(None, limit)
    }

    /// The latest jobs of a client, as they are at `now`, with one status where one
    /// is given.
    pub fn list_jobs_for_client_at(
        &mut self,
        client_id: &str,
        status: Option<&str>,
        limit: Option<usize>,
        now: i64,
    ) -> (r: Result<Vec<ShellJobInfo>, String>)
        requires
            old(self).wf(),
        ensures
            final(self).wf(),
            match or_else(
                id_error(client_id@, "client_id"@),
                if old(self)@.clients.contains_key(client_id@) {
                    None
                } else {
                    Some(unknown_client(client_id@))
                },
            ) {
                Some(e) => final(self)@ == old(self)@ && r is Err && r->Err_0@ == e,
                None => {
                    &&& final(self)@ == old(self)@.refreshed_all(now)
                    &&& r is Ok
                    &&& is_limited_listing(
                final(self)@,
                None,
                Some(client_id@),
                opt_str(status),
                        limit,
                        now,
                        views(r->Ok_0@),
                    )
                },
            },
    {
        match validate_id(client_id, "client_id") {
            Ok(_) => {},
            Err(e) => {
                return Err(e);
            },
        }
        if !self.clients.contains_key(client_id) {
            return Err(concat2("unknown shell client: ", client_id));
        }
        self.refresh_all(now);
        let mut jobs = self.collect_jobs(None, Some(client_id), status, now);
        let ghost all = views(jobs@);
        let n = clamp_limit(limit);
        if jobs.len() > n {
            jobs.truncate(n);
            assert(views(jobs@) =~= all.take(n as int));
        }
        Ok(jobs)
    }

    /// The latest jobs of a client, with one status where one is given.
    pub fn list_jobs_for_client(
        &mut self,
        client_id: &str,
        status: Option<&str>,
        limit: Option<usize>,
    ) -> (r: Result<Vec<ShellJobInfo>, String>)
        requires
            old(self).wf(),
        ensures
            final(self).wf(),
            match or_else(
                id_error(client_id@, "client_id"@),
                if old(self)@.clients.contains_key(client_id@) {
                    None
                } else {
                    Some(unknown_client(client_id@))
                },
            ) {
                Some(e) => final(self)@ == old(self)@ && r is Err && r->Err_0@ == e,
                None => r is Ok && exists|now: i64|
                    final(self)@ == #[trigger] old(self)@.refreshed_all(now) && is_limited_listing(
                final(self)@,
                None,
                Some(client_id@),
                opt_str(status),
                        limit,
                        now,
                        views(r->Ok_0@),
                    ),
            },
    {
        let now = now_ts();
        self.list_jobs_for_client_at(client_id, status, limit, now)
    }
}

/// Whether a listing with these arguments holds the job.
pub open spec fn picks(
    m: RegistryModel,
    auth: Option<AuthModel>,
    client_id: Option<Seq<char>>,
    status: Option<Seq<char>>,
    job: JobModel,
) -> bool {
    &&& client_id is Some ==> job.client_id == client_id->0
    &&& status is Some ==> job.status == status->0
    &&& m.sees_jobs_of(auth, job.client_id)
}

} // verus!
