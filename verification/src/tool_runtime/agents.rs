//! What is told of agents, of their projects and of the runtime.
use crate::json::{
    array, boolean, field, no_fields, null, number, opt_text_json, opt_text_tree, signed, text,
    text_array, text_trees, trees, unsigned, Json, ObjectBuilder, Tree,
};
use crate::order::{str_less, text_less};
use crate::shell_client::access::{caller, AuthContext, AuthModel};
use crate::shell_client::model::RegistryModel;
use crate::shell_client::protocol::{
    AgentPolicySummary, ClientViewModel, JobInfoModel, PolicyModel, ProfileModel, ProfilesModel,
    ProjectModel, ShellAgentProjectSummary, ShellClientCapabilities, ShellClientView,
    ShellJobInfo, ShellProfileSummary, ShellProfilesSummary,
};
use crate::shell_client::registry::{
    is_client_listing, is_limited_listing, ShellClientRegistry,
};
use crate::startup::VERSION;
use crate::text::{opt_str, opt_text, opt_view, str_eq, texts, views};
use crate::tool_runtime::project_resolution::{agent_project_runtime_id, runtime_id};
use crate::tool_runtime::registry::{names_of, ToolRuntime};
use crate::tool_runtime::tool_table::tool_table;
use crate::tool_runtime::types::{tool_ok, ToolModel, ToolResult};
use vstd::prelude::*;

verus! {

/// An optional truth value as JSON.
pub open spec fn opt_bool_tree(b: Option<bool>) -> Tree {
    match b {
        Some(b) => Tree::Bool(b),
        None => Tree::Null,
    }
}

fn opt_bool_json(b: Option<bool>) -> (r: Json)
    ensures
        r@ == opt_bool_tree(b),
{
    match b {
        Some(b) => boolean(b),
        None => null(),
    }
}

/// Capabilities as JSON.
pub open spec fn capabilities_json_tree(c: ShellClientCapabilities) -> Tree {
    Tree::Object(
        no_fields()
            .push(field("shell"@, Tree::Bool(c.shell)))
            .push(field("file_read"@, Tree::Bool(c.file_read)))
            .push(field("file_write"@, Tree::Bool(c.file_write)))
            .push(field("git"@, Tree::Bool(c.git)))
            .push(field("jobs"@, Tree::Bool(c.jobs)))
            .push(field("async_jobs"@, Tree::Bool(c.async_jobs)))
            .push(field("async_shell_jobs"@, Tree::Bool(c.async_shell_jobs))),
    )
}

/// Capabilities as JSON.
pub fn capabilities_json(c: ShellClientCapabilities) -> (r: Json)
    ensures
        r@ == capabilities_json_tree(c),
{
    let members =
        ObjectBuilder::new()
            .with("shell", boolean(c.shell))
            .with("file_read", boolean(c.file_read))
            .with("file_write", boolean(c.file_write))
            .with("git", boolean(c.git))
            .with("jobs", boolean(c.jobs))
            .with("async_jobs", boolean(c.async_jobs))
            .with("async_shell_jobs", boolean(c.async_shell_jobs));
    members.build()
}

/// A project of an agent as JSON.
pub open spec fn project_json_tree(p: ProjectModel) -> Tree {
    Tree::Object(
        no_fields()
            .push(field("id"@, Tree::Text(p.id)))
            .push(field("name"@, opt_text_tree(p.name)))
            .push(field("path"@, Tree::Text(p.path)))
            .push(field("allow_patch"@, Tree::Bool(p.allow_patch)))
            .push(field("kind"@, opt_text_tree(p.kind)))
            .push(field("description"@, opt_text_tree(p.description)))
            .push(field("hooks"@, text_trees(p.hooks)))
            .push(field("disabled"@, Tree::Bool(p.disabled)))
            .push(field("git_branch"@, opt_text_tree(p.git_branch)))
            .push(field("git_head"@, opt_text_tree(p.git_head)))
            .push(field("git_dirty"@, opt_bool_tree(p.git_dirty)))
            .push(field("updated_at"@, Tree::Number(p.updated_at as int)))
            .push(field("shell_profile"@, opt_text_tree(p.shell_profile))),
    )
}

/// A project of an agent as JSON.
pub fn project_json(p: &ShellAgentProjectSummary) -> (r: Json)
    ensures
        r@ == project_json_tree(p@),
{
    let members =
        ObjectBuilder::new()
            .with("id", text(p.id.as_str()))
            .with("name", opt_text_json(&p.name))
            .with("path", text(p.path.as_str()))
            .with("allow_patch", boolean(p.allow_patch))
            .with("kind", opt_text_json(&p.kind))
            .with("description", opt_text_json(&p.description))
            .with("hooks", text_array(&p.hooks))
            .with("disabled", boolean(p.disabled))
            .with("git_branch", opt_text_json(&p.git_branch))
            .with("git_head", opt_text_json(&p.git_head))
            .with("git_dirty", opt_bool_json(p.git_dirty))
            .with("updated_at", signed(p.updated_at))
            .with("shell_profile", opt_text_json(&p.shell_profile));
    members.build()
}

// ---------------------------------------------------------------------------
// Policies and shell profiles
// ---------------------------------------------------------------------------

/// The part of a policy that is told. Agents that reported none have null.
pub open spec fn policy_tree(policy: Option<PolicyModel>) -> Tree {
    match policy {
        Some(p) => Tree::Object(
            no_fields()
                .push(field("allow_raw_shell"@, Tree::Bool(p.allow_raw_shell)))
                .push(field("allow_cwd_anywhere"@, Tree::Bool(p.allow_cwd_anywhere)))
                .push(field("allowed_roots"@, text_trees(p.allowed_roots)))
                .push(field("max_timeout_secs"@, Tree::Number(p.max_timeout_secs as int)))
                .push(field("max_output_bytes"@, Tree::Number(p.max_output_bytes as int))),
        ),
        None => Tree::Null,
    }
}

/// The part of a policy that is told.
pub fn sanitized_policy_summary(policy: &Option<AgentPolicySummary>) -> (r: Json)
    ensures
        r@ == policy_tree(opt_view(*policy)),
{
    match policy {
        Some(p) => ObjectBuilder::new()
            .with("allow_raw_shell", boolean(p.allow_raw_shell))
            .with("allow_cwd_anywhere", boolean(p.allow_cwd_anywhere))
            .with("allowed_roots", text_array(&p.allowed_roots))
            .with("max_timeout_secs", unsigned(p.max_timeout_secs))
            .with("max_output_bytes", unsigned(p.max_output_bytes))
            .build(),
        None => null(),
    }
}

/// A shell profile as JSON, without its script and its environment.
pub open spec fn profile_json_tree(p: ProfileModel) -> Tree {
    Tree::Object(
        no_fields()
            .push(field("name"@, Tree::Text(p.name)))
            .push(field("has_init_script"@, Tree::Bool(p.has_init_script)))
            .push(field("env_keys_count"@, Tree::Number(p.env_keys_count as int)))
            .push(field("program"@, opt_text_tree(p.program)))
            .push(field("args_count"@, Tree::Number(p.args_count as int))),
    )
}

/// A shell profile as JSON, without its script and its environment.
pub fn profile_json(p: &ShellProfileSummary) -> (r: Json)
    ensures
        r@ == profile_json_tree(p@),
{
    let members =
        ObjectBuilder::new()
            .with("name", text(p.name.as_str()))
            .with("has_init_script", boolean(p.has_init_script))
            .with("env_keys_count", unsigned(p.env_keys_count))
            .with("program", opt_text_json(&p.program))
            .with("args_count", unsigned(p.args_count));
    members.build()
}

/// The shell profiles of an agent as they are told: their names and sizes, never
/// their scripts or values.
pub open spec fn profiles_tree(summary: Option<ProfilesModel>) -> Tree {
    match summary {
        Some(s) => Tree::Object(
            no_fields()
                .push(field("default_profile"@, opt_text_tree(s.default_profile)))
                .push(field("configured_count"@, Tree::Number(s.configured_count as int)))
                .push(field("prepared_cache_count"@, Tree::Number(s.prepared_cache_count as int)))
                .push(field("profiles"@, Tree::Array(s.profiles.map_values(|p: ProfileModel| profile_json_tree(p))))),
        ),
        None => Tree::Null,
    }
}

/// The shell profiles of an agent as they are told.
pub fn sanitized_shell_profiles_summary(summary: &Option<ShellProfilesSummary>) -> (r: Json)
    ensures
        r@ == profiles_tree(opt_view(*summary)),
{
    let Some(s) = summary else {
        return null();
    };
    let mut profiles: Vec<Json> = Vec::new();
    let mut i: usize = 0;
    while i < s.profiles.len()
        invariant
            i <= s.profiles@.len(),
            profiles@.len() == i,
            forall|j: int|
                0 <= j < i ==> (#[trigger] profiles@[j])@ == profile_json_tree(s.profiles@[j]@),
        decreases s.profiles@.len() - i,
    {
        profiles.push(profile_json(&s.profiles[i]));
        i = i + 1;
    }
    assert(trees(profiles@) =~= views(s.profiles@).map_values(
        |p: ProfileModel| profile_json_tree(p),
    ));
    ObjectBuilder::new()
        .with("default_profile", opt_text_json(&s.default_profile))
        .with("configured_count", unsigned(s.configured_count))
        .with("prepared_cache_count", unsigned(s.prepared_cache_count))
        .with("profiles", array(profiles))
        .build()
}

/// The shell profiles that a policy reports.
pub open spec fn profiles_in(policy: Option<PolicyModel>) -> Option<ProfilesModel> {
    match policy {
        Some(p) => p.shell_profiles,
        None => None,
    }
}

fn shell_profiles_json(policy: &Option<AgentPolicySummary>) -> (r: Json)
    ensures
        r@ == profiles_tree(profiles_in(opt_view(*policy))),
{
    match policy {
        Some(p) => sanitized_shell_profiles_summary(&p.shell_profiles),
        None => null(),
    }
}

/// Whether a profile with the name is configured.
pub open spec fn has_profile(s: ProfilesModel, name: Seq<char>) -> bool {
    exists|i: int| 0 <= i < s.profiles.len() && (#[trigger] s.profiles[i]).name == name
}

/// The shell profile that a project uses, and whether it is configured: the
/// project's own, else the default of the agent.
pub open spec fn shell_profile_of(own: Option<Seq<char>>, summary: Option<ProfilesModel>) -> (
    Option<Seq<char>>,
    Seq<char>,
) {
    let resolved = match own {
        Some(_) => own,
        None => match summary {
            Some(s) => s.default_profile,
            None => None,
        },
    };
    match resolved {
        None => (None, "not_configured"@),
        Some(name) => match summary {
            None => (Some(name), "unknown"@),
            Some(s) => (
                Some(name),
                if has_profile(s, name) {
                    "configured"@
                } else {
                    "missing"@
                },
            ),
        },
    }
}

/// The shell profile that a project uses, and whether it is configured.
pub fn resolve_project_shell_profile(
    project_shell_profile: Option<&str>,
    summary: &Option<ShellProfilesSummary>,
) -> (r: (Option<String>, &'static str))
    ensures
        (opt_text(r.0), r.1@) == shell_profile_of(
            opt_str(project_shell_profile),
            opt_view(*summary),
        ),
{
    let resolved = match project_shell_profile {
        Some(p) => Some(p.to_owned()),
        None => match summary {
            Some(s) => crate::text::opt_clone(&s.default_profile),
            None => None,
        },
    };
    let Some(name) = resolved else {
        return (None, "not_configured");
    };
    let Some(s) = summary else {
        return (Some(name), "unknown");
    };
    let mut i: usize = 0;
    while i < s.profiles.len()
        invariant
            i <= s.profiles@.len(),
            opt_view(*summary) == Some(s@),
            shell_profile_of(opt_str(project_shell_profile), opt_view(*summary)) == (
                Some(name@),
                if has_profile(s@, name@) {
                    "configured"@
                } else {
                    "missing"@
                },
            ),
            forall|j: int| 0 <= j < i ==> (#[trigger] s@.profiles[j]).name != name@,
        decreases s.profiles@.len() - i,
    {
        assert(s@.profiles[i as int] == s.profiles@[i as int]@);
        if str_eq(s.profiles[i].name.as_str(), name.as_str()) {
            assert(has_profile(s@, name@));
            return (Some(name), "configured");
        }
        i = i + 1;
    }
    (Some(name), "missing")
}

// ---------------------------------------------------------------------------
// Projects
// ---------------------------------------------------------------------------

/// A project as the list of projects tells of it, with its id.
#[verifier::ext_equal]
pub struct RowModel {
    pub id: Seq<char>,
    pub value: Tree,
}

struct Row {
    id: String,
    value: Json,
}

impl View for Row {
    type V = RowModel;

    closed spec fn view(&self) -> RowModel {
        RowModel { id: self.id@, value: self.value@ }
    }
}

/// A project of an agent as the list of projects tells of it.
pub open spec fn project_row(c: ClientViewModel, p: ProjectModel) -> RowModel {
    let (profile, status) = shell_profile_of(p.shell_profile, profiles_in(c.policy));
    RowModel {
        id: runtime_id(c.client_id, p.id),
        value: Tree::Object(
            no_fields()
                .push(field("id"@, Tree::Text(runtime_id(c.client_id, p.id))))
                .push(field("agent_project_id"@, Tree::Text(p.id)))
                .push(field("name"@, opt_text_tree(p.name)))
                .push(field("path"@, Tree::Text(p.path)))
                .push(field("executor"@, Tree::Text("agent"@)))
                .push(field("client_id"@, Tree::Text(c.client_id)))
                .push(field("allow_patch"@, Tree::Bool(p.allow_patch)))
                .push(field("source"@, Tree::Text("agent_registered"@)))
                .push(field("agent_status"@, Tree::Text(c.status)))
                .push(field("connected"@, Tree::Bool(c.connected)))
                .push(field("last_seen"@, Tree::Number(c.last_seen as int)))
                .push(field("shell_profile"@, opt_text_tree(p.shell_profile)))
                .push(field("resolved_shell_profile"@, opt_text_tree(profile)))
                .push(field("shell_profile_status"@, Tree::Text(status))),
        ),
    }
}

fn no_profiles() -> (r: Option<ShellProfilesSummary>)
    ensures
        r is None,
{
    None
}

fn make_row(c: &ShellClientView, p: &ShellAgentProjectSummary) -> (r: Row)
    ensures
        r@ == project_row(c@, p@),
{
    let own = match &p.shell_profile {
        Some(s) => Some(s.as_str()),
        None => None,
    };
    let none = no_profiles();
    let (profile, status) = match &c.policy {
        Some(policy) => resolve_project_shell_profile(own, &policy.shell_profiles),
        None => resolve_project_shell_profile(own, &none),
    };
    let id = agent_project_runtime_id(c.client_id.as_str(), p.id.as_str());
    let value = ObjectBuilder::new()
        .with("id", text(id.as_str()))
        .with("agent_project_id", text(p.id.as_str()))
        .with("name", opt_text_json(&p.name))
        .with("path", text(p.path.as_str()))
        .with("executor", text("agent"))
        .with("client_id", text(c.client_id.as_str()))
        .with("allow_patch", boolean(p.allow_patch))
        .with("source", text("agent_registered"))
        .with("agent_status", text(c.status.as_str()))
        .with("connected", boolean(c.connected))
        .with("last_seen", signed(c.last_seen))
        .with("shell_profile", opt_text_json(&p.shell_profile))
        .with("resolved_shell_profile", opt_text_json(&profile))
        .with("shell_profile_status", text(status))
        .build();
    Row { id, value }
}

/// The projects of a client that are not disabled.
pub open spec fn client_rows(c: ClientViewModel, projects: Seq<ProjectModel>) -> Seq<RowModel>
    decreases projects.len(),
{
    if projects.len() == 0 {
        seq![]
    } else {
        let front = client_rows(c, projects.drop_last());
        if projects.last().disabled {
            front
        } else {
            front.push(project_row(c, projects.last()))
        }
    }
}

/// The projects of all clients.
pub open spec fn all_rows(clients: Seq<ClientViewModel>) -> Seq<RowModel>
    decreases clients.len(),
{
    if clients.len() == 0 {
        seq![]
    } else {
        all_rows(clients.drop_last()) + client_rows(clients.last(), clients.last().projects)
    }
}

/// The number of leading rows whose id does not come behind `id`.
pub open spec fn row_place(rows: Seq<RowModel>, id: Seq<char>) -> int
    decreases rows.len(),
{
    if rows.len() == 0 || text_less(id, rows[0].id) {
        0
    } else {
        1 + row_place(rows.skip(1), id)
    }
}

/// The rows in the order of their ids; equal ones stay as they were.
pub open spec fn rows_in_order(rows: Seq<RowModel>) -> Seq<RowModel>
    decreases rows.len(),
{
    if rows.len() == 0 {
        seq![]
    } else {
        let front = rows_in_order(rows.drop_last());
        front.insert(row_place(front, rows.last().id), rows.last())
    }
}

/// The list of projects.
pub open spec fn projects_tree(clients: Seq<ClientViewModel>) -> Tree {
    Tree::Array(rows_in_order(all_rows(clients)).map_values(|r: RowModel| r.value))
}

fn insert_row(rows: &mut Vec<Row>, row: Row)
    ensures
        views(final(rows)@) == views(old(rows)@).insert(
            row_place(views(old(rows)@), row@.id),
            row@,
        ),
{
    let ghost before = views(rows@);
    let mut place: usize = 0;
    assert(before.skip(0) =~= before);
    while place < rows.len() && !str_less(row.id.as_str(), rows[place].id.as_str())
        invariant
            place <= rows@.len(),
            before == views(rows@),
            row_place(before, row@.id) == place + row_place(before.skip(place as int), row@.id),
        decreases rows@.len() - place,
    {
        assert(before.skip(place as int).skip(1) =~= before.skip(place + 1));
        place = place + 1;
    }
    rows.insert(place, row);
    assert(views(rows@) =~= before.insert(place as int, row@));
}

proof fn lemma_rows_append(a: Seq<RowModel>, b: Seq<RowModel>, row: RowModel)
    ensures
        rows_in_order((a + b).push(row)) == rows_in_order(a + b).insert(
            row_place(rows_in_order(a + b), row.id),
            row,
        ),
{
    assert((a + b).push(row).drop_last() =~= a + b);
}

/// The list of projects of the clients.
pub fn projects_of(clients: &Vec<ShellClientView>) -> (r: Json)
    ensures
        r@ == projects_tree(views(clients@)),
{
    let ghost all = views(clients@);
    let mut rows: Vec<Row> = Vec::new();
    let mut i: usize = 0;
    assert(all.take(0) =~= seq![]);
    assert(views(rows@) =~= seq![]);
    while i < clients.len()
        invariant
            i <= clients@.len(),
            all == views(clients@),
            views(rows@) == rows_in_order(all_rows(all.take(i as int))),
        decreases clients@.len() - i,
    {
        let client = &clients[i];
        let ghost base = all_rows(all.take(i as int));
        let ghost projects = views(client.projects@);
        proof {
            assert(all.take(i + 1).drop_last() =~= all.take(i as int));
            assert(all.take(i + 1).last() == client@);
            assert(projects.take(0) =~= seq![]);
            assert(base + client_rows(client@, projects.take(0)) =~= base);
        }
        let mut j: usize = 0;
        while j < client.projects.len()
            invariant
                j <= client.projects@.len(),
                projects == views(client.projects@),
                views(rows@) == rows_in_order(
                    base + client_rows(client@, projects.take(j as int)),
                ),
            decreases client.projects@.len() - j,
        {
            let ghost more = client_rows(client@, projects.take(j as int));
            proof {
                assert(projects.take(j + 1).drop_last() =~= projects.take(j as int));
                assert(projects.take(j + 1).last() == client.projects@[j as int]@);
            }
            if !client.projects[j].disabled {
                let row = make_row(client, &client.projects[j]);
                proof {
                    lemma_rows_append(base, more, row@);
                    assert(base + more.push(row@) =~= (base + more).push(row@));
                }
                insert_row(&mut rows, row);
            }
            j = j + 1;
        }
        assert(projects.take(j as int) =~= projects);
        i = i + 1;
    }
    assert(all.take(i as int) =~= all);
    let ghost sorted = views(rows@);
    let mut out: Vec<Json> = Vec::new();
    let mut k: usize = 0;
    while k < rows.len()
        invariant
            k <= rows@.len(),
            sorted == views(rows@),
            out@.len() == k,
            forall|j: int| 0 <= j < k ==> (#[trigger] out@[j])@ == sorted[j].value,
        decreases rows@.len() - k,
    {
        out.push(rows[k].value.copy());
        k = k + 1;
    }
    assert(trees(out@) =~= sorted.map_values(|r: RowModel| r.value));
    array(out)
}

/// The list of projects that the caller sees.
pub fn list_projects(registry: &ShellClientRegistry, auth: Option<&AuthContext>) -> (r: ToolResult)
    requires
        registry.wf(),
    ensures
        exists|clients: Seq<ClientViewModel>, now: i64| #[trigger]
            is_client_listing(registry@, caller(auth), now, clients) && r@ == tool_ok(
                projects_tree(clients),
            ),
{
    let clients = registry.list_clients_for_auth(auth);
    ToolResult::ok(projects_of(&clients))
}

// ---------------------------------------------------------------------------
// Agents
// ---------------------------------------------------------------------------

fn projects_json(projects: &Vec<ShellAgentProjectSummary>) -> (r: Vec<Json>)
    ensures
        trees(r@) == views(projects@).map_values(|p: ProjectModel| project_json_tree(p)),
{
    let mut out: Vec<Json> = Vec::new();
    let mut i: usize = 0;
    while i < projects.len()
        invariant
            i <= projects@.len(),
            out@.len() == i,
            forall|j: int| 0 <= j < i ==> (#[trigger] out@[j])@ == project_json_tree(projects@[j]@),
        decreases projects@.len() - i,
    {
        out.push(project_json(&projects[i]));
        i = i + 1;
    }
    assert(trees(out@) =~= views(projects@).map_values(|p: ProjectModel| project_json_tree(p)));
    out
}

fn projects_len(c: &ShellClientView) -> (r: usize)
    ensures
        r == c@.projects.len(),
{
    c.projects.len()
}

/// An agent as the list of agents tells of it.
pub open spec fn agent_json_tree(c: ClientViewModel) -> Tree {
    Tree::Object(
        no_fields()
            .push(field("client_id"@, Tree::Text(c.client_id)))
            .push(field("agent_instance_id"@, Tree::Text(c.agent_instance_id)))
            .push(field("display_name"@, opt_text_tree(c.display_name)))
            .push(field("owner"@, opt_text_tree(c.owner)))
            .push(field("hostname"@, opt_text_tree(c.hostname)))
            .push(field("status"@, Tree::Text(c.status)))
            .push(field("connected"@, Tree::Bool(c.connected)))
            .push(field("agent_protocol_version"@, Tree::Text(c.agent_protocol_version)))
            .push(field("transport"@, Tree::Text(c.transport)))
            .push(field("last_seen"@, Tree::Number(c.last_seen as int)))
            .push(field("pending_requests"@, Tree::Number(c.pending_requests as int)))
            .push(field("capabilities"@, capabilities_json_tree(c.capabilities)))
            .push(field("projects"@, Tree::Array(c.projects.map_values(|p: ProjectModel| project_json_tree(p)))))
            .push(field("policy"@, policy_tree(c.policy)))
            .push(field("shell_profiles"@, profiles_tree(profiles_in(c.policy)))),
    )
}

/// An agent as the list of agents tells of it.
pub fn agent_json(c: &ShellClientView) -> (r: Json)
    ensures
        r@ == agent_json_tree(c@),
{
    let members =
        ObjectBuilder::new()
            .with("client_id", text(c.client_id.as_str()))
            .with("agent_instance_id", text(c.agent_instance_id.as_str()))
            .with("display_name", opt_text_json(&c.display_name))
            .with("owner", opt_text_json(&c.owner))
            .with("hostname", opt_text_json(&c.hostname))
            .with("status", text(c.status.as_str()))
            .with("connected", boolean(c.connected))
            .with("agent_protocol_version", text(c.agent_protocol_version.as_str()))
            .with("transport", text(c.transport.as_str()))
            .with("last_seen", signed(c.last_seen))
            .with("pending_requests", number(c.pending_requests))
            .with("capabilities", capabilities_json(c.capabilities))
            .with("projects", array(projects_json(&c.projects)))
            .with("policy", sanitized_policy_summary(&c.policy))
            .with("shell_profiles", shell_profiles_json(&c.policy));
    members.build()
}

/// The list of agents.
pub open spec fn agents_tree(clients: Seq<ClientViewModel>) -> Tree {
    Tree::Object(
        no_fields().push(
            field(
                "agents"@,
                Tree::Array(clients.map_values(|c: ClientViewModel| agent_json_tree(c))),
            ),
        ),
    )
}

/// The list of agents among the clients.
pub fn agents_of(clients: &Vec<ShellClientView>) -> (r: Json)
    ensures
        r@ == agents_tree(views(clients@)),
{
    let mut out: Vec<Json> = Vec::new();
    let mut i: usize = 0;
    while i < clients.len()
        invariant
            i <= clients@.len(),
            out@.len() == i,
            forall|j: int| 0 <= j < i ==> (#[trigger] out@[j])@ == agent_json_tree(clients@[j]@),
        decreases clients@.len() - i,
    {
        out.push(agent_json(&clients[i]));
        i = i + 1;
    }
    assert(trees(out@) =~= views(clients@).map_values(|c: ClientViewModel| agent_json_tree(c)));
    ObjectBuilder::new().with("agents", array(out)).build()
}

/// The list of agents that the caller sees.
pub fn list_agents(registry: &ShellClientRegistry, auth: Option<&AuthContext>) -> (r: ToolResult)
    requires
        registry.wf(),
    ensures
        exists|clients: Seq<ClientViewModel>, now: i64| #[trigger]
            is_client_listing(registry@, caller(auth), now, clients) && r@ == tool_ok(
                agents_tree(clients),
            ),
{
    let clients = registry.list_clients_for_auth(auth);
    ToolResult::ok(agents_of(&clients))
}

// ---------------------------------------------------------------------------
// The runtime
// ---------------------------------------------------------------------------

/// An agent as the runtime status tells of it.
pub open spec fn client_json_tree(c: ClientViewModel) -> Tree {
    Tree::Object(
        no_fields()
            .push(field("client_id"@, Tree::Text(c.client_id)))
            .push(field("agent_instance_id"@, Tree::Text(c.agent_instance_id)))
            .push(field("display_name"@, opt_text_tree(c.display_name)))
            .push(field("owner"@, opt_text_tree(c.owner)))
            .push(field("status"@, Tree::Text(c.status)))
            .push(field("connected"@, Tree::Bool(c.connected)))
            .push(field("agent_protocol_version"@, Tree::Text(c.agent_protocol_version)))
            .push(field("transport"@, Tree::Text(c.transport)))
            .push(field("last_seen"@, Tree::Number(c.last_seen as int)))
            .push(field("pending_requests"@, Tree::Number(c.pending_requests as int)))
            .push(field("capabilities"@, capabilities_json_tree(c.capabilities)))
            .push(field("projects_count"@, Tree::Number(c.projects.len() as int)))
            .push(field("policy"@, policy_tree(c.policy)))
            .push(field("shell_profiles"@, profiles_tree(profiles_in(c.policy)))),
    )
}

/// An agent as the runtime status tells of it.
pub fn client_json(c: &ShellClientView) -> (r: Json)
    ensures
        r@ == client_json_tree(c@),
{
    let members =
        ObjectBuilder::new()
            .with("client_id", text(c.client_id.as_str()))
            .with("agent_instance_id", text(c.agent_instance_id.as_str()))
            .with("display_name", opt_text_json(&c.display_name))
            .with("owner", opt_text_json(&c.owner))
            .with("status", text(c.status.as_str()))
            .with("connected", boolean(c.connected))
            .with("agent_protocol_version", text(c.agent_protocol_version.as_str()))
            .with("transport", text(c.transport.as_str()))
            .with("last_seen", signed(c.last_seen))
            .with("pending_requests", number(c.pending_requests))
            .with("capabilities", capabilities_json(c.capabilities))
            .with("projects_count", number(projects_len(c)))
            .with("policy", sanitized_policy_summary(&c.policy))
            .with("shell_profiles", shell_profiles_json(&c.policy));
    members.build()
}

/// How many of the clients are connected.
pub open spec fn connected_count(clients: Seq<ClientViewModel>) -> nat
    decreases clients.len(),
{
    if clients.len() == 0 {
        0
    } else {
        connected_count(clients.drop_last()) + (if clients.last().connected {
            1nat
        } else {
            0nat
        })
    }
}

/// The agents as the runtime status tells of them. An agent that is registered and
/// not connected is stale.
pub open spec fn agent_status_tree(clients: Seq<ClientViewModel>) -> Tree {
    let stale = clients.len() - connected_count(clients);
    Tree::Object(
        no_fields()
            .push(field("count"@, Tree::Number(clients.len() as int)))
            .push(field("online_count"@, Tree::Number(connected_count(clients) as int)))
            .push(field("stale_count"@, Tree::Number(stale)))
            .push(field("offline_count"@, Tree::Number(stale)))
            .push(field("clients"@, Tree::Array(clients.map_values(|c: ClientViewModel| client_json_tree(c))))),
    )
}

fn agent_status_json(clients: &Vec<ShellClientView>) -> (r: Json)
    ensures
        r@ == agent_status_tree(views(clients@)),
{
    let ghost all = views(clients@);
    let mut online: usize = 0;
    let mut out: Vec<Json> = Vec::new();
    let mut i: usize = 0;
    assert(all.take(0) =~= seq![]);
    while i < clients.len()
        invariant
            i <= clients@.len(),
            online <= i,
            all == views(clients@),
            online == connected_count(all.take(i as int)),
            out@.len() == i,
            forall|j: int| 0 <= j < i ==> (#[trigger] out@[j])@ == client_json_tree(clients@[j]@),
        decreases clients@.len() - i,
    {
        proof {
            assert(all.take(i + 1).drop_last() =~= all.take(i as int));
            assert(all.take(i + 1).last() == clients@[i as int]@);
        }
        out.push(client_json(&clients[i]));
        if clients[i].connected {
            online = online + 1;
        }
        i = i + 1;
    }
    assert(all.take(i as int) =~= all);
    assert(trees(out@) =~= all.map_values(|c: ClientViewModel| client_json_tree(c)));
    let stale = clients.len() - online;
    ObjectBuilder::new()
        .with("count", number(clients.len()))
        .with("online_count", number(online))
        .with("stale_count", number(stale))
        .with("offline_count", number(stale))
        .with("clients", array(out))
        .build()
}

/// The status words of jobs that have not ended.
pub open spec fn is_active(status: Seq<char>) -> bool {
    status == "running"@ || status == "queued"@ || status == "agent_queued"@ || status
        == "stop_requested"@
}

/// How many of the statuses are those of jobs that have not ended.
pub open spec fn active_count(statuses: Seq<Seq<char>>) -> nat
    decreases statuses.len(),
{
    if statuses.len() == 0 {
        0
    } else {
        active_count(statuses.drop_last()) + (if is_active(statuses.last()) {
            1nat
        } else {
            0nat
        })
    }
}

fn status_is_active(status: &str) -> (r: bool)
    ensures
        r == is_active(status@),
{
    str_eq(status, "running") || str_eq(status, "queued") || str_eq(status, "agent_queued")
        || str_eq(status, "stop_requested")
}

fn count_active(statuses: &Vec<String>) -> (r: usize)
    ensures
        r == active_count(texts(statuses@)),
        r <= statuses@.len(),
{
    let ghost all = texts(statuses@);
    let mut n: usize = 0;
    let mut i: usize = 0;
    assert(all.take(0) =~= seq![]);
    while i < statuses.len()
        invariant
            i <= statuses@.len(),
            n <= i,
            all == texts(statuses@),
            n == active_count(all.take(i as int)),
        decreases statuses@.len() - i,
    {
        proof {
            assert(all.take(i + 1).drop_last() =~= all.take(i as int));
            assert(all.take(i + 1).last() == statuses@[i as int]@);
        }
        if status_is_active(statuses[i].as_str()) {
            n = n + 1;
        }
        i = i + 1;
    }
    assert(all.take(i as int) =~= all);
    n
}

/// How the listener for agents over QUIC stands.
#[derive(Debug)]
pub struct QuicStatus {
    pub enabled: bool,
    pub listen: String,
    pub alpn: String,
    pub listener_started: bool,
    pub last_error: Option<String>,
}

/// The listener as the runtime status tells of it.
pub open spec fn quic_tree(q: QuicStatus) -> Tree {
    Tree::Object(
        no_fields()
            .push(field("enabled"@, Tree::Bool(q.enabled)))
            .push(field("listen"@, Tree::Text(q.listen@)))
            .push(field("alpn"@, Tree::Text(q.alpn@)))
            .push(field("listener_started"@, Tree::Bool(q.listener_started)))
            .push(field("last_error"@, opt_text_tree(opt_text(q.last_error)))),
    )
}

/// The listener as the runtime status tells of it.
pub fn quic_json(q: &QuicStatus) -> (r: Json)
    ensures
        r@ == quic_tree(*q),
{
    ObjectBuilder::new()
        .with("enabled", boolean(q.enabled))
        .with("listen", text(q.listen.as_str()))
        .with("alpn", text(q.alpn.as_str()))
        .with("listener_started", boolean(q.listener_started))
        .with("last_error", opt_text_json(&q.last_error))
        .build()
}

/// What the machine knows of the runtime.
#[derive(Debug)]
pub struct RuntimeFacts {
    pub projects_configured: bool,
    pub projects_count: usize,
    pub config_path: Option<String>,
    pub load_error: Option<String>,
    pub build: Json,
    pub server_time: i64,
    pub pid: u64,
    pub auth_enabled: bool,
    pub configured_public_url: Option<String>,
    pub session_store: Json,
    /// The listener for agents over QUIC, where there is one.
    pub quic: Option<QuicStatus>,
    /// The statuses of the jobs on this machine that the caller sees and that could
    /// be read.
    pub local_statuses: Vec<String>,
    /// The number of jobs on this machine that the caller sees.
    pub local_known: usize,
}

/// The configured projects as the runtime status tells of them.
pub open spec fn configured_projects(f: RuntimeFacts) -> Tree {
    Tree::Object(
        no_fields()
            .push(field("configured"@, Tree::Bool(f.projects_configured)))
            .push(field("count"@, Tree::Number(if f.projects_configured { f.projects_count as int } else { 0 })))
            .push(field("config_path"@, opt_text_tree(opt_text(f.config_path))))
            .push(field("load_error"@, if f.projects_configured {
                Tree::Null
            } else {
                match f.load_error {
                    Some(e) => Tree::Text(e@),
                    None => Tree::Text("Projects not configured"@),
                }
            })),
    )
}

/// The jobs as the runtime status tells of them.
pub open spec fn runtime_jobs(f: RuntimeFacts, agent_statuses: Seq<Seq<char>>) -> Tree {
    Tree::Object(
        no_fields()
            .push(field("agent_known_count"@, Tree::Number(agent_statuses.len() as int)))
            .push(field("local_known_count"@, Tree::Number(f.local_known as int)))
            .push(field("active_count"@, Tree::Number((active_count(agent_statuses) + active_count(texts(f.local_statuses@))) as int))),
    )
}

/// The runtime status.
pub open spec fn runtime_tree(
    f: RuntimeFacts,
    clients: Seq<ClientViewModel>,
    agent_statuses: Seq<Seq<char>>,
    tool_names: Seq<Seq<char>>,
) -> Tree {
    let members = no_fields()
        .push(field("service"@, Tree::Text("webcodex"@)))
        .push(field("version"@, Tree::Text(VERSION@)))
        .push(field("build"@, f.build@))
        .push(field("server_time"@, Tree::Number(f.server_time as int)))
        .push(field("pid"@, Tree::Number(f.pid as int)))
        .push(field("auth_enabled"@, Tree::Bool(f.auth_enabled)))
        .push(field("configured_public_url"@, opt_text_tree(opt_text(f.configured_public_url))))
        .push(field("projects"@, configured_projects(f)))
        .push(field("agents"@, agent_status_tree(clients)))
        .push(field("jobs"@, runtime_jobs(f, agent_statuses)))
        .push(field("tools"@, Tree::Object(
            no_fields()
                .push(field("count"@, Tree::Number(tool_names.len() as int)))
                .push(field("names"@, text_trees(tool_names))),
        )))
        .push(field("session_store"@, f.session_store@));
    Tree::Object(
        match f.quic {
            Some(q) => members.push(field("quic"@, quic_tree(q))),
            None => members,
        },
    )
}

/// The statuses of jobs.
pub open spec fn statuses_of(jobs: Seq<JobInfoModel>) -> Seq<Seq<char>> {
    jobs.map_values(|j: JobInfoModel| j.status)
}

fn copy_statuses(jobs: &Vec<ShellJobInfo>) -> (r: Vec<String>)
    ensures
        texts(r@) == statuses_of(views(jobs@)),
{
    let mut out: Vec<String> = Vec::new();
    let mut i: usize = 0;
    while i < jobs.len()
        invariant
            i <= jobs@.len(),
            out@.len() == i,
            forall|j: int| 0 <= j < i ==> (#[trigger] out@[j])@ == jobs@[j].status@,
        decreases jobs@.len() - i,
    {
        out.push(jobs[i].status.clone());
        i = i + 1;
    }
    assert(texts(out@) =~= statuses_of(views(jobs@)));
    out
}

/// The runtime status, given the clients and the jobs that the caller sees and the
/// names of the tools.
pub fn told_runtime(
    facts: &RuntimeFacts,
    clients: &Vec<ShellClientView>,
    agent_jobs: &Vec<ShellJobInfo>,
    tool_names: &Vec<String>,
) -> (r: ToolResult)
    requires
        agent_jobs@.len() + facts.local_statuses@.len() <= usize::MAX,
    ensures
        r@ == tool_ok(
            runtime_tree(
                *facts,
                views(clients@),
                statuses_of(views(agent_jobs@)),
                texts(tool_names@),
            ),
        ),
{
    let count: usize = if facts.projects_configured {
        facts.projects_count
    } else {
        0
    };
    let load_error = if facts.projects_configured {
        null()
    } else {
        match &facts.load_error {
            Some(e) => text(e.as_str()),
            None => text("Projects not configured"),
        }
    };
    let projects = ObjectBuilder::new()
        .with("configured", boolean(facts.projects_configured))
        .with("count", number(count))
        .with("config_path", opt_text_json(&facts.config_path))
        .with("load_error", load_error)
        .build();
    let statuses = copy_statuses(agent_jobs);
    assert(texts(statuses@).len() == statuses@.len());
    assert(statuses@.len() == agent_jobs@.len());
    let active = count_active(&statuses) + count_active(&facts.local_statuses);
    let jobs = ObjectBuilder::new()
        .with("agent_known_count", number(statuses.len()))
        .with("local_known_count", number(facts.local_known))
        .with("active_count", number(active))
        .build();
    let tools = ObjectBuilder::new()
        .with("count", number(tool_names.len()))
        .with("names", text_array(tool_names))
        .build();
    let members = ObjectBuilder::new()
        .with("service", text("webcodex"))
        .with("version", text(VERSION))
        .with("build", facts.build.copy())
        .with("server_time", signed(facts.server_time))
        .with("pid", unsigned(facts.pid))
        .with("auth_enabled", boolean(facts.auth_enabled))
        .with("configured_public_url", opt_text_json(&facts.configured_public_url))
        .with("projects", projects)
        .with("agents", agent_status_json(clients))
        .with("jobs", jobs)
        .with("tools", tools)
        .with("session_store", facts.session_store.copy());
    match &facts.quic {
        Some(q) => ToolResult::ok(members.with("quic", quic_json(q)).build()),
        None => ToolResult::ok(members.build()),
    }
}

/// Whether `r` is the runtime status for the caller: it tells of the clients that were
/// listed at `now`, of the latest jobs that were listed at `later`, which brings every
/// job up to date, and of the tools that are offered.
pub open spec fn tells_runtime(
    before: RegistryModel,
    after: RegistryModel,
    auth: Option<AuthModel>,
    facts: RuntimeFacts,
    clients: Seq<ClientViewModel>,
    now: i64,
    jobs: Seq<JobInfoModel>,
    later: i64,
    r: ToolModel,
) -> bool {
    &&& is_client_listing(before, auth, now, clients)
    &&& after == before.refreshed_all(later)
    &&& is_limited_listing(after, auth, None, None, None, later, jobs)
    &&& r == tool_ok(
        runtime_tree(facts, clients, statuses_of(jobs), names_of(tool_table())),
    )
}

/// The runtime status for the caller.
pub fn runtime_status(
    registry: &mut ShellClientRegistry,
    runtime: &ToolRuntime,
    facts: &RuntimeFacts,
    auth: Option<&AuthContext>,
) -> (r: ToolResult)
    requires
        old(registry).wf(),
        facts.local_statuses@.len() + 20 <= usize::MAX,
    ensures
        final(registry).wf(),
        exists|clients: Seq<ClientViewModel>, now: i64, jobs: Seq<JobInfoModel>, later: i64|
            tells_runtime(
                old(registry)@,
                final(registry)@,
                caller(auth),
                *facts,
                clients,
                now,
                jobs,
                later,
                r@,
            ),
{
    let ghost before = registry@;
    let clients = registry.list_clients_for_auth(auth);
    let ghost now = choose|now: i64| #[trigger]
        is_client_listing(before, caller(auth), now, views(clients@));
    let jobs = registry.list_jobs_for_auth(auth, None);
    let ghost later = choose|later: i64|
        registry@ == #[trigger] before.refreshed_all(later) && is_limited_listing(
            registry@,
            caller(auth),
            None,
            None,
            None,
            later,
            views(jobs@),
        );
    assert(views(jobs@).len() <= 20);
    assert(views(jobs@).len() == jobs@.len());
    let names = runtime.offered_names();
    let r = told_runtime(facts, &clients, &jobs, &names);
    assert(tells_runtime(
        before,
        registry@,
        caller(auth),
        *facts,
        views(clients@),
        now,
        views(jobs@),
        later,
        r@,
    ));
    r
}

// ---------------------------------------------------------------------------
// Laws
// ---------------------------------------------------------------------------

/// Whether two clients differ at most in what their projects are, not in how many.
pub open spec fn alike_but_for_projects(a: ClientViewModel, b: ClientViewModel) -> bool {
    b == (ClientViewModel { projects: b.projects, ..a }) && a.projects.len() == b.projects.len()
}

proof fn lemma_same_connected(a: Seq<ClientViewModel>, b: Seq<ClientViewModel>)
    requires
        a.len() == b.len(),
        forall|i: int| 0 <= i < a.len() ==> #[trigger] alike_but_for_projects(a[i], b[i]),
    ensures
        connected_count(a) == connected_count(b),
    decreases a.len(),
{
    if a.len() > 0 {
        let n = a.len() - 1;
        assert(alike_but_for_projects(a[n], b[n]));
        assert forall|i: int| 0 <= i < n implies #[trigger] alike_but_for_projects(
            a.drop_last()[i],
            b.drop_last()[i],
        ) by {
            assert(alike_but_for_projects(a[i], b[i]));
        }
        lemma_same_connected(a.drop_last(), b.drop_last());
    }
}

/// The runtime status tells how many projects a client has, and nothing else of them:
/// neither their paths nor their names.
pub proof fn law_status_hides_projects(
    f: RuntimeFacts,
    a: Seq<ClientViewModel>,
    b: Seq<ClientViewModel>,
    agent_statuses: Seq<Seq<char>>,
    tool_names: Seq<Seq<char>>,
)
    requires
        a.len() == b.len(),
        forall|i: int| 0 <= i < a.len() ==> #[trigger] alike_but_for_projects(a[i], b[i]),
    ensures
        runtime_tree(f, a, agent_statuses, tool_names) == runtime_tree(
            f,
            b,
            agent_statuses,
            tool_names,
        ),
{
    lemma_same_connected(a, b);
    let in_a = a.map_values(|c: ClientViewModel| client_json_tree(c));
    let in_b = b.map_values(|c: ClientViewModel| client_json_tree(c));
    assert forall|i: int| 0 <= i < a.len() implies in_a[i] == in_b[i] by {
        assert(alike_but_for_projects(a[i], b[i]));
    }
    assert(in_a =~= in_b);
}

} // verus!
