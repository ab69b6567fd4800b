//! What is told of agents, their projects and the runtime, each thing under its name.
use crate::json::{lemma_find_push, text_trees, Tree};
use crate::order::{lemma_less_irreflexive, lemma_less_transitive, text_less};
use crate::shell_client::protocol::{
    ClientViewModel, PolicyModel, ProfilesModel, ProjectModel, ShellClientCapabilities,
};
use crate::text::texts;
use crate::tool_runtime::agents::{
    active_count, agent_json_tree, agent_status_tree, agents_tree, all_rows, capabilities_json_tree,
    client_json_tree, client_rows, connected_count, policy_tree, profiles_in, profiles_tree,
    project_json_tree, project_row, projects_tree, row_place, rows_in_order, runtime_tree,
    shell_profile_of, RowModel, RuntimeFacts,
};
use vstd::prelude::*;

verus! {

broadcast use lemma_find_push;

/// The text under a name, or null.
pub open spec fn text_or_null(v: Option<Seq<char>>) -> Tree {
    match v {
        Some(s) => Tree::Text(s),
        None => Tree::Null,
    }
}

/// Whether capabilities are told as they are.
pub open spec fn tells_capabilities(c: ShellClientCapabilities, t: Tree) -> bool {
    &&& t.at("shell"@) == Tree::Bool(c.shell)
    &&& t.at("file_read"@) == Tree::Bool(c.file_read)
    &&& t.at("file_write"@) == Tree::Bool(c.file_write)
    &&& t.at("git"@) == Tree::Bool(c.git)
    &&& t.at("jobs"@) == Tree::Bool(c.jobs)
    &&& t.at("async_jobs"@) == Tree::Bool(c.async_jobs)
    &&& t.at("async_shell_jobs"@) == Tree::Bool(c.async_shell_jobs)
}

proof fn lemma_capabilities(c: ShellClientCapabilities)
    ensures
        tells_capabilities(c, capabilities_json_tree(c)),
{
    reveal_strlit("shell");
    reveal_strlit("file_read");
    reveal_strlit("file_write");
    reveal_strlit("git");
    reveal_strlit("jobs");
    reveal_strlit("async_jobs");
    reveal_strlit("async_shell_jobs");
    assert("shell"@.len() == 5);
    assert("file_read"@.len() == 9);
    assert("file_write"@.len() == 10 && "file_write"@[0] == 'f');
    assert("git"@.len() == 3);
    assert("jobs"@.len() == 4);
    assert("async_jobs"@.len() == 10 && "async_jobs"@[0] == 'a');
    assert("async_shell_jobs"@.len() == 16);
}

/// Whether a policy is told as it is, or as null where there is none.
pub open spec fn tells_policy(policy: Option<PolicyModel>, t: Tree) -> bool {
    match policy {
        None => t == Tree::Null,
        Some(p) => {
            &&& t.at("allow_raw_shell"@) == Tree::Bool(p.allow_raw_shell)
            &&& t.at("allow_cwd_anywhere"@) == Tree::Bool(p.allow_cwd_anywhere)
            &&& t.at("allowed_roots"@) == text_trees(p.allowed_roots)
            &&& t.at("max_timeout_secs"@) == Tree::Number(p.max_timeout_secs as int)
            &&& t.at("max_output_bytes"@) == Tree::Number(p.max_output_bytes as int)
        },
    }
}

proof fn lemma_policy(p: Option<PolicyModel>)
    ensures
        tells_policy(p, policy_tree(p)),
{
    reveal_strlit("allow_raw_shell");
    reveal_strlit("allow_cwd_anywhere");
    reveal_strlit("allowed_roots");
    reveal_strlit("max_timeout_secs");
    reveal_strlit("max_output_bytes");
    assert("allow_raw_shell"@.len() == 15);
    assert("allow_cwd_anywhere"@.len() == 18);
    assert("allowed_roots"@.len() == 13);
    assert("max_timeout_secs"@.len() == 16 && "max_timeout_secs"@[4] == 't');
    assert("max_output_bytes"@.len() == 16 && "max_output_bytes"@[4] == 'o');
}

/// The list of agents tells of every client in its place: who it is, whose it is, what it
/// can do, how it stands, and each of its projects.
pub proof fn law_agents_are_told(clients: Seq<ClientViewModel>, i: int, k: int)
    requires
        0 <= i < clients.len(),
    ensures
        ({
            let all = agents_tree(clients).at("agents"@);
            let t = all->Array_0[i];
            let c = clients[i];
            &&& all is Array && all->Array_0.len() == clients.len()
            &&& t.at("client_id"@) == Tree::Text(c.client_id)
            &&& t.at("agent_instance_id"@) == Tree::Text(c.agent_instance_id)
            &&& t.at("display_name"@) == text_or_null(c.display_name)
            &&& t.at("owner"@) == text_or_null(c.owner)
            &&& t.at("hostname"@) == text_or_null(c.hostname)
            &&& t.at("status"@) == Tree::Text(c.status)
            &&& t.at("connected"@) == Tree::Bool(c.connected)
            &&& t.at("agent_protocol_version"@) == Tree::Text(c.agent_protocol_version)
            &&& t.at("transport"@) == Tree::Text(c.transport)
            &&& t.at("last_seen"@) == Tree::Number(c.last_seen as int)
            &&& t.at("pending_requests"@) == Tree::Number(c.pending_requests as int)
            &&& tells_capabilities(c.capabilities, t.at("capabilities"@))
            &&& tells_policy(c.policy, t.at("policy"@))
            &&& t.at("projects"@) is Array && t.at("projects"@)->Array_0.len() == c.projects.len()
            &&& 0 <= k < c.projects.len() ==> {
                let told = t.at("projects"@)->Array_0[k];
                let p = c.projects[k];
                &&& told.at("id"@) == Tree::Text(p.id)
                &&& told.at("name"@) == text_or_null(p.name)
                &&& told.at("path"@) == Tree::Text(p.path)
                &&& told.at("allow_patch"@) == Tree::Bool(p.allow_patch)
                &&& told.at("disabled"@) == Tree::Bool(p.disabled)
                &&& told.at("kind"@) == text_or_null(p.kind)
                &&& told.at("description"@) == text_or_null(p.description)
                &&& told.at("git_branch"@) == text_or_null(p.git_branch)
                &&& told.at("git_head"@) == text_or_null(p.git_head)
                &&& told.at("updated_at"@) == Tree::Number(p.updated_at as int)
                &&& told.at("hooks"@) == text_trees(p.hooks)
            }
        }),
{
    let c = clients[i];
    lemma_capabilities(c.capabilities);
    lemma_policy(c.policy);
    assert(agents_tree(clients).at("agents"@)->Array_0[i] == agent_json_tree(c)) by {
        reveal_strlit("agents");
    }
    lemma_agent_told(c);
    if 0 <= k < c.projects.len() {
        lemma_project_told(c.projects[k]);
    }
}

proof fn lemma_agent_told(c: ClientViewModel)
    ensures
        ({
            let t = agent_json_tree(c);
            &&& t.at("client_id"@) == Tree::Text(c.client_id)
            &&& t.at("agent_instance_id"@) == Tree::Text(c.agent_instance_id)
            &&& t.at("display_name"@) == text_or_null(c.display_name)
            &&& t.at("owner"@) == text_or_null(c.owner)
            &&& t.at("hostname"@) == text_or_null(c.hostname)
            &&& t.at("status"@) == Tree::Text(c.status)
            &&& t.at("connected"@) == Tree::Bool(c.connected)
            &&& t.at("agent_protocol_version"@) == Tree::Text(c.agent_protocol_version)
            &&& t.at("transport"@) == Tree::Text(c.transport)
            &&& t.at("last_seen"@) == Tree::Number(c.last_seen as int)
            &&& t.at("pending_requests"@) == Tree::Number(c.pending_requests as int)
            &&& t.at("capabilities"@) == capabilities_json_tree(c.capabilities)
            &&& t.at("policy"@) == policy_tree(c.policy)
            &&& t.at("projects"@) == Tree::Array(
                c.projects.map_values(|p: ProjectModel| project_json_tree(p)),
            )
            &&& t.at("shell_profiles"@) == profiles_tree(profiles_in(c.policy))
        }),
{
    reveal_strlit("client_id");
    reveal_strlit("agent_instance_id");
    reveal_strlit("display_name");
    reveal_strlit("owner");
    reveal_strlit("hostname");
    reveal_strlit("status");
    reveal_strlit("connected");
    reveal_strlit("agent_protocol_version");
    reveal_strlit("transport");
    reveal_strlit("last_seen");
    reveal_strlit("pending_requests");
    reveal_strlit("capabilities");
    reveal_strlit("projects");
    reveal_strlit("policy");
    reveal_strlit("shell_profiles");
    assert("client_id"@.len() == 9 && "client_id"@[1] == 'l');
    assert("agent_instance_id"@.len() == 17);
    assert("display_name"@.len() == 12 && "display_name"@[0] == 'd');
    assert("owner"@.len() == 5);
    assert("hostname"@.len() == 8 && "hostname"@[0] == 'h');
    assert("status"@.len() == 6 && "status"@[0] == 's');
    assert("connected"@.len() == 9 && "connected"@[1] == 'o');
    assert("agent_protocol_version"@.len() == 22);
    assert("transport"@.len() == 9 && "transport"@[1] == 'r');
    assert("last_seen"@.len() == 9 && "last_seen"@[1] == 'a');
    assert("pending_requests"@.len() == 16);
    assert("capabilities"@.len() == 12 && "capabilities"@[0] == 'c');
    assert("projects"@.len() == 8 && "projects"@[0] == 'p');
    assert("policy"@.len() == 6 && "policy"@[0] == 'p');
    assert("shell_profiles"@.len() == 14);
}

proof fn lemma_project_told(p: ProjectModel)
    ensures
        ({
            let told = project_json_tree(p);
            &&& told.at("id"@) == Tree::Text(p.id)
            &&& told.at("name"@) == text_or_null(p.name)
            &&& told.at("path"@) == Tree::Text(p.path)
            &&& told.at("allow_patch"@) == Tree::Bool(p.allow_patch)
            &&& told.at("disabled"@) == Tree::Bool(p.disabled)
            &&& told.at("kind"@) == text_or_null(p.kind)
            &&& told.at("description"@) == text_or_null(p.description)
            &&& told.at("git_branch"@) == text_or_null(p.git_branch)
            &&& told.at("git_head"@) == text_or_null(p.git_head)
            &&& told.at("updated_at"@) == Tree::Number(p.updated_at as int)
            &&& told.at("hooks"@) == text_trees(p.hooks)
        }),
{
    reveal_strlit("id");
    reveal_strlit("name");
    reveal_strlit("path");
    reveal_strlit("allow_patch");
    reveal_strlit("kind");
    reveal_strlit("description");
    reveal_strlit("hooks");
    reveal_strlit("disabled");
    reveal_strlit("git_branch");
    reveal_strlit("git_head");
    reveal_strlit("git_dirty");
    reveal_strlit("updated_at");
    reveal_strlit("shell_profile");
    assert("id"@.len() == 2);
    assert("name"@.len() == 4 && "name"@[0] == 'n');
    assert("path"@.len() == 4 && "path"@[0] == 'p');
    assert("allow_patch"@.len() == 11 && "allow_patch"@[0] == 'a');
    assert("kind"@.len() == 4 && "kind"@[0] == 'k');
    assert("description"@.len() == 11 && "description"@[0] == 'd');
    assert("hooks"@.len() == 5);
    assert("disabled"@.len() == 8 && "disabled"@[0] == 'd');
    assert("git_branch"@.len() == 10 && "git_branch"@[0] == 'g');
    assert("git_head"@.len() == 8 && "git_head"@[0] == 'g');
    assert("git_dirty"@.len() == 9);
    assert("updated_at"@.len() == 10 && "updated_at"@[0] == 'u');
    assert("shell_profile"@.len() == 13);
}

// ---------------------------------------------------------------------------
// The list of projects
// ---------------------------------------------------------------------------

/// Whether a row tells of the project of the client.
pub open spec fn tells_project_of(c: ClientViewModel, p: ProjectModel, t: Tree) -> bool {
    &&& t.at("id"@) == Tree::Text("agent:"@ + c.client_id + ":"@ + p.id)
    &&& t.at("agent_project_id"@) == Tree::Text(p.id)
    &&& t.at("name"@) == text_or_null(p.name)
    &&& t.at("path"@) == Tree::Text(p.path)
    &&& t.at("executor"@) == Tree::Text("agent"@)
    &&& t.at("client_id"@) == Tree::Text(c.client_id)
    &&& t.at("allow_patch"@) == Tree::Bool(p.allow_patch)
    &&& t.at("agent_status"@) == Tree::Text(c.status)
    &&& t.at("connected"@) == Tree::Bool(c.connected)
    &&& t.at("last_seen"@) == Tree::Number(c.last_seen as int)
    &&& t.at("shell_profile"@) == text_or_null(p.shell_profile)
}

proof fn lemma_row(c: ClientViewModel, p: ProjectModel)
    ensures
        tells_project_of(c, p, project_row(c, p).value),
        project_row(c, p).id == "agent:"@ + c.client_id + ":"@ + p.id,
{
    reveal_strlit("id");
    reveal_strlit("agent_project_id");
    reveal_strlit("name");
    reveal_strlit("path");
    reveal_strlit("executor");
    reveal_strlit("client_id");
    reveal_strlit("allow_patch");
    reveal_strlit("source");
    reveal_strlit("agent_status");
    reveal_strlit("connected");
    reveal_strlit("last_seen");
    reveal_strlit("shell_profile");
    reveal_strlit("resolved_shell_profile");
    reveal_strlit("shell_profile_status");
    assert("id"@.len() == 2);
    assert("agent_project_id"@.len() == 16);
    assert("name"@.len() == 4 && "name"@[0] == 'n');
    assert("path"@.len() == 4 && "path"@[0] == 'p');
    assert("executor"@.len() == 8);
    assert("client_id"@.len() == 9 && "client_id"@[1] == 'l');
    assert("allow_patch"@.len() == 11);
    assert("source"@.len() == 6);
    assert("agent_status"@.len() == 12);
    assert("connected"@.len() == 9 && "connected"@[1] == 'o');
    assert("last_seen"@.len() == 9 && "last_seen"@[1] == 'a');
    assert("shell_profile"@.len() == 13);
    assert("resolved_shell_profile"@.len() == 22);
    assert("shell_profile_status"@.len() == 20);
}

proof fn lemma_client_rows(c: ClientViewModel, projects: Seq<ProjectModel>, k: int)
    requires
        0 <= k < projects.len(),
        !projects[k].disabled,
    ensures
        client_rows(c, projects).contains(project_row(c, projects[k])),
    decreases projects.len(),
{
    let front = projects.drop_last();
    let q = client_rows(c, front);
    let all = client_rows(c, projects);
    let row = project_row(c, projects[k]);
    if k < front.len() {
        assert(front[k] == projects[k]);
        lemma_client_rows(c, front, k);
        let n = choose|n: int| 0 <= n < q.len() && q[n] == row;
        assert(all[n] == row);
    } else {
        assert(all[q.len() as int] == row);
    }
}

proof fn lemma_all_rows(clients: Seq<ClientViewModel>, i: int, k: int)
    requires
        0 <= i < clients.len(),
        0 <= k < clients[i].projects.len(),
        !clients[i].projects[k].disabled,
    ensures
        all_rows(clients).contains(project_row(clients[i], clients[i].projects[k])),
    decreases clients.len(),
{
    let front = clients.drop_last();
    let q = all_rows(front);
    let own = client_rows(clients.last(), clients.last().projects);
    let row = project_row(clients[i], clients[i].projects[k]);
    if i < front.len() {
        assert(front[i] == clients[i]);
        lemma_all_rows(front, i, k);
        let n = choose|n: int| 0 <= n < q.len() && q[n] == row;
        assert((q + own)[n] == row);
    } else {
        lemma_client_rows(clients.last(), clients.last().projects, k);
        let n = choose|n: int| 0 <= n < own.len() && own[n] == row;
        assert((q + own)[q.len() + n] == row);
    }
}

proof fn lemma_row_place(rows: Seq<RowModel>, id: Seq<char>)
    ensures
        0 <= row_place(rows, id) <= rows.len(),
        forall|i: int| 0 <= i < row_place(rows, id) ==> !text_less(id, (#[trigger] rows[i]).id),
        row_place(rows, id) < rows.len() ==> text_less(id, rows[row_place(rows, id)].id),
    decreases rows.len(),
{
    if rows.len() > 0 && !text_less(id, rows[0].id) {
        lemma_row_place(rows.skip(1), id);
        let k = row_place(rows.skip(1), id);
        assert forall|i: int| 0 <= i < row_place(rows, id) implies !text_less(
            id,
            (#[trigger] rows[i]).id,
        ) by {
            if i > 0 {
                assert(rows.skip(1)[i - 1] == rows[i]);
            }
        }
        if k < rows.skip(1).len() {
            assert(rows.skip(1)[k] == rows[k + 1]);
        }
    }
}

proof fn lemma_rows_in_order(rows: Seq<RowModel>)
    ensures
        rows_in_order(rows).len() == rows.len(),
        forall|r: RowModel| rows.contains(r) <==> #[trigger] rows_in_order(rows).contains(r),
        forall|i: int, j: int|
            0 <= i < j < rows.len() ==> !text_less(
                (#[trigger] rows_in_order(rows)[j]).id,
                (#[trigger] rows_in_order(rows)[i]).id,
            ),
    decreases rows.len(),
{
    if rows.len() > 0 {
        let front = rows_in_order(rows.drop_last());
        let c = rows.last();
        lemma_rows_in_order(rows.drop_last());
        lemma_row_place(front, c.id);
        let k = row_place(front, c.id);
        let t = front.insert(k, c);
        assert(t == rows_in_order(rows));
        assert forall|r: RowModel| rows.contains(r) <==> #[trigger] t.contains(r) by {
            if rows.contains(r) {
                let n = choose|n: int| 0 <= n < rows.len() && rows[n] == r;
                if n < rows.len() - 1 {
                    assert(rows.drop_last()[n] == r);
                    assert(front.contains(r));
                    let q = choose|q: int| 0 <= q < front.len() && front[q] == r;
                    assert(t[if q < k { q } else { q + 1 }] == r);
                } else {
                    assert(t[k] == r);
                }
            }
            if t.contains(r) {
                let n = choose|n: int| 0 <= n < t.len() && t[n] == r;
                if n == k {
                    assert(rows[rows.len() - 1] == r);
                } else {
                    assert(front[if n < k { n } else { n - 1 }] == r);
                    assert(front.contains(r));
                    let q = choose|q: int| 0 <= q < rows.drop_last().len() && rows.drop_last()[q]
                        == r;
                    assert(rows[q] == r);
                }
            }
        }
        assert forall|i: int, j: int| 0 <= i < j < t.len() implies !text_less(
            (#[trigger] t[j]).id,
            (#[trigger] t[i]).id,
        ) by {
            if j < k {
                assert(t[i] == front[i] && t[j] == front[j]);
            } else if j == k {
                assert(t[i] == front[i]);
            } else if i < k {
                assert(t[i] == front[i] && t[j] == front[j - 1]);
            } else if i == k {
                assert(t[j] == front[j - 1]);
                if text_less(front[j - 1].id, c.id) {
                    if j - 1 > k {
                        lemma_less_transitive(front[j - 1].id, c.id, front[k].id);
                        assert(!text_less(front[j - 1].id, front[k].id));
                    } else {
                        lemma_less_transitive(c.id, front[k].id, c.id);
                        lemma_less_irreflexive(c.id);
                    }
                }
            } else {
                assert(t[i] == front[i - 1] && t[j] == front[j - 1]);
            }
        }
    }
}

/// The list of projects tells of every project of every client that is not disabled, under
/// its full id, and lists them by their ids.
pub proof fn law_projects_are_told(clients: Seq<ClientViewModel>, i: int, k: int, a: int, b: int)
    requires
        0 <= i < clients.len(),
        0 <= k < clients[i].projects.len(),
        !clients[i].projects[k].disabled,
    ensures
        projects_tree(clients) is Array,
        exists|n: int|
            0 <= n < projects_tree(clients)->Array_0.len() && tells_project_of(
                clients[i],
                clients[i].projects[k],
                #[trigger] projects_tree(clients)->Array_0[n],
            ),
        0 <= a < b < projects_tree(clients)->Array_0.len() ==> !text_less(
            rows_in_order(all_rows(clients))[b].id,
            rows_in_order(all_rows(clients))[a].id,
        ),
{
    let rows = all_rows(clients);
    let row = project_row(clients[i], clients[i].projects[k]);
    let told = projects_tree(clients)->Array_0;
    lemma_all_rows(clients, i, k);
    lemma_rows_in_order(rows);
    lemma_row(clients[i], clients[i].projects[k]);
    assert(rows_in_order(rows).contains(row));
    let n = choose|n: int| 0 <= n < rows_in_order(rows).len() && rows_in_order(rows)[n] == row;
    assert(told[n] == row.value);
}

/// A project uses its own shell profile, else the default one of its agent; and it is told
/// whether that profile is configured.
pub proof fn law_shell_profiles(own: Option<Seq<char>>, summary: Option<ProfilesModel>)
    ensures
        ({
            let (name, status) = shell_profile_of(own, summary);
            &&& own is Some ==> name == own
            &&& own is None && summary is Some ==> name == summary->0.default_profile
            &&& own is None && summary is None ==> name is None
            &&& name is None ==> status == "not_configured"@
            &&& name is Some && summary is None ==> status == "unknown"@
            &&& name is Some && summary is Some && (exists|i: int|
                0 <= i < summary->0.profiles.len() && (#[trigger] summary->0.profiles[i]).name
                    == name->0) ==> status == "configured"@
            &&& name is Some && summary is Some && (forall|i: int|
                0 <= i < summary->0.profiles.len() ==> (#[trigger] summary->0.profiles[i]).name
                    != name->0) ==> status == "missing"@
        }),
{
}

// ---------------------------------------------------------------------------
// The runtime
// ---------------------------------------------------------------------------

/// How many clients are connected goes up with each that is, and with no other.
pub proof fn law_connected_clients_are_counted(clients: Seq<ClientViewModel>, c: ClientViewModel)
    ensures
        connected_count(clients.push(c)) == connected_count(clients) + (if c.connected {
            1int
        } else {
            0int
        }),
        connected_count(Seq::<ClientViewModel>::empty()) == 0,
        connected_count(clients) <= clients.len(),
    decreases clients.len(),
{
    assert(clients.push(c).drop_last() =~= clients);
    if clients.len() > 0 {
        law_connected_clients_are_counted(clients.drop_last(), clients.last());
        assert(clients.drop_last().push(clients.last()) =~= clients);
    }
}

/// How many jobs are active goes up with each that is running, queued, with its agent or
/// asked to stop, and with no other.
pub proof fn law_active_jobs_are_counted(statuses: Seq<Seq<char>>, status: Seq<char>)
    ensures
        active_count(statuses.push(status)) == active_count(statuses) + (if status == "running"@
            || status == "queued"@ || status == "agent_queued"@ || status == "stop_requested"@ {
            1int
        } else {
            0int
        }),
        active_count(Seq::<Seq<char>>::empty()) == 0,
{
    assert(statuses.push(status).drop_last() =~= statuses);
}

/// The runtime status tells how many agents there are, how many of them are online, how
/// many jobs are known and active, and which tools there are.
pub proof fn law_runtime_status_is_told(
    f: RuntimeFacts,
    clients: Seq<ClientViewModel>,
    statuses: Seq<Seq<char>>,
    tools: Seq<Seq<char>>,
    i: int,
)
    ensures
        ({
            let t = runtime_tree(f, clients, statuses, tools);
            let agents = t.at("agents"@);
            let jobs = t.at("jobs"@);
            let projects = t.at("projects"@);
            &&& t.at("service"@) == Tree::Text("webcodex"@)
            &&& t.at("server_time"@) == Tree::Number(f.server_time as int)
            &&& t.at("pid"@) == Tree::Number(f.pid as int)
            &&& t.at("auth_enabled"@) == Tree::Bool(f.auth_enabled)
            &&& t.at("build"@) == f.build@
            &&& t.at("session_store"@) == f.session_store@
            &&& agents.at("count"@) == Tree::Number(clients.len() as int)
            &&& agents.at("online_count"@) == Tree::Number(connected_count(clients) as int)
            &&& agents.at("stale_count"@) == Tree::Number(
                clients.len() - connected_count(clients),
            )
            &&& agents.at("clients"@) is Array && agents.at("clients"@)->Array_0.len()
                == clients.len()
            &&& 0 <= i < clients.len() ==> {
                let told = agents.at("clients"@)->Array_0[i];
                &&& told.at("client_id"@) == Tree::Text(clients[i].client_id)
                &&& told.at("status"@) == Tree::Text(clients[i].status)
                &&& told.at("connected"@) == Tree::Bool(clients[i].connected)
                &&& told.at("owner"@) == text_or_null(clients[i].owner)
                &&& told.at("last_seen"@) == Tree::Number(clients[i].last_seen as int)
                &&& told.at("pending_requests"@) == Tree::Number(
                    clients[i].pending_requests as int,
                )
                &&& told.at("projects_count"@) == Tree::Number(clients[i].projects.len() as int)
                &&& tells_capabilities(clients[i].capabilities, told.at("capabilities"@))
                &&& tells_policy(clients[i].policy, told.at("policy"@))
            }
            &&& jobs.at("agent_known_count"@) == Tree::Number(statuses.len() as int)
            &&& jobs.at("local_known_count"@) == Tree::Number(f.local_known as int)
            &&& jobs.at("active_count"@) == Tree::Number(
                (active_count(statuses) + active_count(texts(f.local_statuses@))) as int,
            )
            &&& t.at("tools"@).at("count"@) == Tree::Number(tools.len() as int)
            &&& t.at("tools"@).at("names"@) == text_trees(tools)
            &&& projects.at("configured"@) == Tree::Bool(f.projects_configured)
            &&& projects.at("count"@) == Tree::Number(
                if f.projects_configured {
                    f.projects_count as int
                } else {
                    0
                },
            )
            &&& f.projects_configured ==> projects.at("load_error"@) == Tree::Null
            &&& !f.projects_configured && f.load_error is Some ==> projects.at("load_error"@)
                == Tree::Text(f.load_error->0@)
        }),
{
    lemma_runtime_members(f, clients, statuses, tools);
    assert(agent_status_tree(clients).at("count"@) == Tree::Number(clients.len() as int)
        && agent_status_tree(clients).at("online_count"@) == Tree::Number(
        connected_count(clients) as int,
    ) && agent_status_tree(clients).at("stale_count"@) == Tree::Number(
        clients.len() - connected_count(clients),
    ) && agent_status_tree(clients).at("clients"@) == Tree::Array(
        clients.map_values(|c: ClientViewModel| client_json_tree(c)),
    )) by {
    reveal_strlit("count");
    reveal_strlit("online_count");
    reveal_strlit("stale_count");
    reveal_strlit("offline_count");
    reveal_strlit("clients");
    assert("count"@.len() == 5);
    assert("online_count"@.len() == 12);
    assert("stale_count"@.len() == 11);
    assert("offline_count"@.len() == 13);
    assert("clients"@.len() == 7);
    }
    assert(crate::tool_runtime::agents::runtime_jobs(f, statuses).at("agent_known_count"@)
        == Tree::Number(statuses.len() as int) && crate::tool_runtime::agents::runtime_jobs(
        f,
        statuses,
    ).at("local_known_count"@) == Tree::Number(f.local_known as int)
        && crate::tool_runtime::agents::runtime_jobs(f, statuses).at("active_count"@)
        == Tree::Number((active_count(statuses) + active_count(texts(f.local_statuses@))) as int)) by {
    reveal_strlit("agent_known_count");
    reveal_strlit("local_known_count");
    reveal_strlit("active_count");
    assert("agent_known_count"@.len() == 17 && "agent_known_count"@[0] == 'a');
    assert("local_known_count"@.len() == 17 && "local_known_count"@[0] == 'l');
    assert("active_count"@.len() == 12);
    }
    lemma_configured(f);
    if 0 <= i < clients.len() {
        lemma_client_told(clients[i]);
        lemma_capabilities(clients[i].capabilities);
        lemma_policy(clients[i].policy);
    }
}

proof fn lemma_configured(f: RuntimeFacts)
    ensures
        ({
            let projects = crate::tool_runtime::agents::configured_projects(f);
            &&& projects.at("configured"@) == Tree::Bool(f.projects_configured)
            &&& projects.at("count"@) == Tree::Number(
                if f.projects_configured {
                    f.projects_count as int
                } else {
                    0
                },
            )
            &&& f.projects_configured ==> projects.at("load_error"@) == Tree::Null
            &&& !f.projects_configured && f.load_error is Some ==> projects.at("load_error"@)
                == Tree::Text(f.load_error->0@)
        }),
{
    reveal_strlit("configured");
    reveal_strlit("count");
    reveal_strlit("config_path");
    reveal_strlit("load_error");
    assert("configured"@.len() == 10 && "configured"@[0] == 'c');
    assert("count"@.len() == 5);
    assert("config_path"@.len() == 11);
    assert("load_error"@.len() == 10 && "load_error"@[0] == 'l');
}

proof fn lemma_client_told(c: ClientViewModel)
    ensures
        ({
            let told = client_json_tree(c);
            &&& told.at("client_id"@) == Tree::Text(c.client_id)
            &&& told.at("status"@) == Tree::Text(c.status)
            &&& told.at("connected"@) == Tree::Bool(c.connected)
            &&& told.at("owner"@) == text_or_null(c.owner)
            &&& told.at("last_seen"@) == Tree::Number(c.last_seen as int)
            &&& told.at("pending_requests"@) == Tree::Number(c.pending_requests as int)
            &&& told.at("projects_count"@) == Tree::Number(c.projects.len() as int)
            &&& told.at("capabilities"@) == capabilities_json_tree(c.capabilities)
            &&& told.at("policy"@) == policy_tree(c.policy)
        }),
{
    reveal_strlit("client_id");
    reveal_strlit("agent_instance_id");
    reveal_strlit("display_name");
    reveal_strlit("owner");
    reveal_strlit("status");
    reveal_strlit("connected");
    reveal_strlit("agent_protocol_version");
    reveal_strlit("transport");
    reveal_strlit("last_seen");
    reveal_strlit("pending_requests");
    reveal_strlit("capabilities");
    reveal_strlit("projects_count");
    reveal_strlit("policy");
    reveal_strlit("shell_profiles");
    assert("client_id"@.len() == 9 && "client_id"@[1] == 'l');
    assert("agent_instance_id"@.len() == 17);
    assert("display_name"@.len() == 12 && "display_name"@[0] == 'd');
    assert("owner"@.len() == 5);
    assert("status"@.len() == 6 && "status"@[0] == 's');
    assert("connected"@.len() == 9 && "connected"@[1] == 'o');
    assert("agent_protocol_version"@.len() == 22);
    assert("transport"@.len() == 9 && "transport"@[1] == 'r');
    assert("last_seen"@.len() == 9 && "last_seen"@[1] == 'a');
    assert("pending_requests"@.len() == 16);
    assert("capabilities"@.len() == 12 && "capabilities"@[0] == 'c');
    assert("projects_count"@.len() == 14 && "projects_count"@[0] == 'p');
    assert("policy"@.len() == 6 && "policy"@[0] == 'p');
    assert("shell_profiles"@.len() == 14 && "shell_profiles"@[0] == 's');
}

proof fn lemma_runtime_members(
    f: RuntimeFacts,
    clients: Seq<ClientViewModel>,
    statuses: Seq<Seq<char>>,
    tools: Seq<Seq<char>>,
)
    ensures
        ({
            let t = runtime_tree(f, clients, statuses, tools);
            &&& t.at("service"@) == Tree::Text("webcodex"@)
            &&& t.at("server_time"@) == Tree::Number(f.server_time as int)
            &&& t.at("pid"@) == Tree::Number(f.pid as int)
            &&& t.at("auth_enabled"@) == Tree::Bool(f.auth_enabled)
            &&& t.at("build"@) == f.build@
            &&& t.at("session_store"@) == f.session_store@
            &&& t.at("agents"@) == agent_status_tree(clients)
            &&& t.at("jobs"@) == crate::tool_runtime::agents::runtime_jobs(f, statuses)
            &&& t.at("projects"@) == crate::tool_runtime::agents::configured_projects(f)
            &&& t.at("tools"@).at("count"@) == Tree::Number(tools.len() as int)
            &&& t.at("tools"@).at("names"@) == text_trees(tools)
        }),
{
    reveal_strlit("service");
    reveal_strlit("version");
    reveal_strlit("build");
    reveal_strlit("server_time");
    reveal_strlit("pid");
    reveal_strlit("auth_enabled");
    reveal_strlit("configured_public_url");
    reveal_strlit("projects");
    reveal_strlit("agents");
    reveal_strlit("jobs");
    reveal_strlit("tools");
    reveal_strlit("session_store");
    reveal_strlit("quic");
    reveal_strlit("count");
    reveal_strlit("names");
    assert("service"@.len() == 7 && "service"@[0] == 's');
    assert("version"@.len() == 7 && "version"@[0] == 'v');
    assert("build"@.len() == 5 && "build"@[0] == 'b');
    assert("server_time"@.len() == 11);
    assert("pid"@.len() == 3);
    assert("auth_enabled"@.len() == 12);
    assert("configured_public_url"@.len() == 21);
    assert("projects"@.len() == 8);
    assert("agents"@.len() == 6);
    assert("jobs"@.len() == 4 && "jobs"@[0] == 'j');
    assert("tools"@.len() == 5 && "tools"@[0] == 't');
    assert("session_store"@.len() == 13);
    assert("quic"@.len() == 4 && "quic"@[0] == 'q');
    assert("count"@.len() == 5 && "count"@[0] == 'c');
    assert("names"@.len() == 5 && "names"@[0] == 'n');
}

} // verus!
