//! Which project a caller means.
use crate::cut::{cut_at, split_once};
use crate::json::{
    array, boolean, field, no_fields, opt_text_json, opt_text_tree, signed, text, trees, Json,
    ObjectBuilder, Tree,
};
use crate::lines::{join, join_all};
use crate::order::{
    lemma_less_irreflexive, lemma_less_total, lemma_less_transitive, str_less, text_less,
};
use crate::shell_client::access::{caller, AuthContext};
use crate::shell_client::protocol::{
    ClientViewModel, ProjectModel, ShellAgentProjectSummary, ShellClientView,
};
use crate::shell_client::registry::{is_client_listing, ShellClientRegistry};
use crate::text::{concat3, opt_clone, opt_text, str_eq, str_trim, strip_prefix, texts, trim, views};
use crate::tool_runtime::types::{tool_failed, ToolModel, ToolResult};
use vstd::prelude::*;
use vstd::string::*;

verus! {

/// Who carries the work on a project out.
#[derive(Debug, Clone, Copy, PartialEq, Eq, Structural)]
pub enum Executor {
    Local,
    Agent,
}

/// The ways in which a project stays unresolved.
#[derive(Debug, Clone, Copy, PartialEq, Eq, Structural)]
pub enum ProjectResolverErrorKind {
    UnknownProject,
    AmbiguousProject,
}

/// A project that a caller may mean.
#[derive(Debug)]
pub struct ProjectResolverCandidate {
    pub id: String,
    pub client_id: String,
    pub agent_project_id: String,
    pub name: Option<String>,
    pub path: String,
    pub allow_patch: bool,
    pub connected: bool,
    pub status: String,
    pub last_seen: i64,
}

/// The mathematical value of a [`ProjectResolverCandidate`].
#[verifier::ext_equal]
pub struct CandidateModel {
    pub id: Seq<char>,
    pub client_id: Seq<char>,
    pub agent_project_id: Seq<char>,
    pub name: Option<Seq<char>>,
    pub path: Seq<char>,
    pub allow_patch: bool,
    pub connected: bool,
    pub status: Seq<char>,
    pub last_seen: i64,
}

impl View for ProjectResolverCandidate {
    type V = CandidateModel;

    open spec fn view(&self) -> CandidateModel {
        CandidateModel {
            id: self.id@,
            client_id: self.client_id@,
            agent_project_id: self.agent_project_id@,
            name: opt_text(self.name),
            path: self.path@,
            allow_patch: self.allow_patch,
            connected: self.connected,
            status: self.status@,
            last_seen: self.last_seen,
        }
    }
}

impl ProjectResolverCandidate {
    /// A copy with the same value.
    pub fn copy(&self) -> (r: Self)
        ensures
            r@ == self@,
    {
        ProjectResolverCandidate {
            id: self.id.clone(),
            client_id: self.client_id.clone(),
            agent_project_id: self.agent_project_id.clone(),
            name: opt_clone(&self.name),
            path: self.path.clone(),
            allow_patch: self.allow_patch,
            connected: self.connected,
            status: self.status.clone(),
            last_seen: self.last_seen,
        }
    }

    /// A copy of a list with the same values.
    pub fn copy_all(v: &Vec<Self>) -> (r: Vec<Self>)
        ensures
            views(r@) == views(v@),
    {
        let mut out: Vec<Self> = Vec::new();
        let mut i: usize = 0;
        while i < v.len()
            invariant
                i <= v@.len(),
                out@.len() == i,
                forall|j: int| 0 <= j < i ==> (#[trigger] out@[j])@ == v@[j]@,
            decreases v@.len() - i,
        {
            out.push(v[i].copy());
            i = i + 1;
        }
        assert(views(out@) =~= views(v@));
        out
    }
}

/// How a project is worked on.
#[derive(Debug)]
pub struct ProjectConfig {
    pub path: String,
    pub executor: Executor,
    pub client_id: Option<String>,
    pub allow_patch: bool,
    pub allow_command_requests: bool,
    pub allow_raw_command_requests: bool,
    pub default_apply_patch_backend: Option<String>,
    pub allowed_checks: Vec<String>,
}

/// The mathematical value of a [`ProjectConfig`].
#[verifier::ext_equal]
pub struct ConfigModel {
    pub path: Seq<char>,
    pub executor: Executor,
    pub client_id: Option<Seq<char>>,
    pub allow_patch: bool,
    pub allow_command_requests: bool,
    pub allow_raw_command_requests: bool,
    pub default_apply_patch_backend: Option<Seq<char>>,
    pub allowed_checks: Seq<Seq<char>>,
}

impl View for ProjectConfig {
    type V = ConfigModel;

    open spec fn view(&self) -> ConfigModel {
        ConfigModel {
            path: self.path@,
            executor: self.executor,
            client_id: opt_text(self.client_id),
            allow_patch: self.allow_patch,
            allow_command_requests: self.allow_command_requests,
            allow_raw_command_requests: self.allow_raw_command_requests,
            default_apply_patch_backend: opt_text(self.default_apply_patch_backend),
            allowed_checks: texts(self.allowed_checks@),
        }
    }
}

/// The project that a caller meant.
#[derive(Debug)]
pub struct ResolvedProject {
    pub input: String,
    pub resolved_id: String,
    pub config: ProjectConfig,
}

/// The mathematical value of a [`ResolvedProject`].
#[verifier::ext_equal]
pub struct ResolvedModel {
    pub input: Seq<char>,
    pub resolved_id: Seq<char>,
    pub config: ConfigModel,
}

impl View for ResolvedProject {
    type V = ResolvedModel;

    open spec fn view(&self) -> ResolvedModel {
        ResolvedModel {
            input: self.input@,
            resolved_id: self.resolved_id@,
            config: self.config@,
        }
    }
}

/// Why it is not known which project a caller meant.
#[derive(Debug)]
pub struct ProjectResolverError {
    pub kind: ProjectResolverErrorKind,
    pub project: String,
    pub candidates: Vec<ProjectResolverCandidate>,
}

/// The mathematical value of a [`ProjectResolverError`].
#[verifier::ext_equal]
pub struct ResolverErrorModel {
    pub kind: ProjectResolverErrorKind,
    pub project: Seq<char>,
    pub candidates: Seq<CandidateModel>,
}

impl View for ProjectResolverError {
    type V = ResolverErrorModel;

    open spec fn view(&self) -> ResolverErrorModel {
        ResolverErrorModel {
            kind: self.kind,
            project: self.project@,
            candidates: views(self.candidates@),
        }
    }
}

impl ProjectConfig {
    /// Whether an agent carries the work out.
    pub fn is_agent(&self) -> (r: bool)
        ensures
            r == (self.executor == Executor::Agent),
    {
        self.executor == Executor::Agent
    }
}

// ---------------------------------------------------------------------------
// Complaints
// ---------------------------------------------------------------------------

/// The word for the way in which a project stays unresolved.
pub open spec fn kind_word(kind: ProjectResolverErrorKind) -> Seq<char> {
    match kind {
        ProjectResolverErrorKind::UnknownProject => "unknown_project"@,
        ProjectResolverErrorKind::AmbiguousProject => "ambiguous_project"@,
    }
}

impl ProjectResolverErrorKind {
    /// The word for the way in which a project stays unresolved.
    pub fn as_str(self) -> (r: &'static str)
        ensures
            r@ == kind_word(self),
    {
        match self {
            ProjectResolverErrorKind::UnknownProject => "unknown_project",
            ProjectResolverErrorKind::AmbiguousProject => "ambiguous_project",
        }
    }
}

/// A candidate as JSON.
pub open spec fn candidate_tree(c: CandidateModel) -> Tree {
    Tree::Object(
        no_fields()
            .push(field("id"@, Tree::Text(c.id)))
            .push(field("client_id"@, Tree::Text(c.client_id)))
            .push(field("agent_project_id"@, Tree::Text(c.agent_project_id)))
            .push(field("name"@, opt_text_tree(c.name)))
            .push(field("path"@, Tree::Text(c.path)))
            .push(field("connected"@, Tree::Bool(c.connected)))
            .push(field("status"@, Tree::Text(c.status)))
            .push(field("last_seen"@, Tree::Number(c.last_seen as int))),
    )
}

/// The hint that goes with every complaint.
pub const RESOLVER_HINT: &'static str = "Use a full runtime project id in the form agent:<client_id>:<project_id> from list_projects.";

/// The complaint as JSON.
pub open spec fn resolver_output(e: ResolverErrorModel) -> Tree {
    Tree::Object(
        no_fields()
            .push(field("error_kind"@, Tree::Text(kind_word(e.kind))))
            .push(field("project"@, Tree::Text(e.project)))
            .push(field("hint"@, Tree::Text(RESOLVER_HINT@)))
            .push(field("candidates"@, Tree::Array(e.candidates.map_values(|c: CandidateModel| candidate_tree(c))))),
    )
}

/// A candidate in words.
pub open spec fn candidate_words(c: CandidateModel) -> Seq<char> {
    c.id + " ["@ + c.client_id + "] "@ + c.path + " ("@ + c.status + ")"@
}

/// The complaint as the result of a tool call.
pub open spec fn not_resolved(e: ResolverErrorModel) -> ToolModel {
    tool_failed(resolver_output(e), resolver_message(e))
}

/// The complaint in words.
pub open spec fn resolver_message(e: ResolverErrorModel) -> Seq<char> {
    let head = kind_word(e.kind) + " '"@ + e.project + "'. "@ + RESOLVER_HINT@;
    if e.candidates.len() == 0 {
        head
    } else {
        head + " Candidates: "@ + join(
            e.candidates.map_values(|c: CandidateModel| candidate_words(c)),
            "; "@,
        )
    }
}

impl ProjectResolverError {
    fn candidate_payload(candidate: &ProjectResolverCandidate) -> (r: Json)
        ensures
            r@ == candidate_tree(candidate@),
    {
        ObjectBuilder::new()
            .with("id", text(candidate.id.as_str()))
            .with("client_id", text(candidate.client_id.as_str()))
            .with("agent_project_id", text(candidate.agent_project_id.as_str()))
            .with("name", opt_text_json(&candidate.name))
            .with("path", text(candidate.path.as_str()))
            .with("connected", boolean(candidate.connected))
            .with("status", text(candidate.status.as_str()))
            .with("last_seen", signed(candidate.last_seen))
            .build()
    }

    /// The complaint as JSON.
    pub fn to_output(&self) -> (r: Json)
        ensures
            r@ == resolver_output(self@),
    {
        let mut candidates: Vec<Json> = Vec::new();
        let mut i: usize = 0;
        while i < self.candidates.len()
            invariant
                i <= self.candidates@.len(),
                candidates@.len() == i,
                forall|j: int|
                    0 <= j < i ==> (#[trigger] candidates@[j])@ == candidate_tree(
                        self.candidates@[j]@,
                    ),
            decreases self.candidates@.len() - i,
        {
            candidates.push(Self::candidate_payload(&self.candidates[i]));
            i = i + 1;
        }
        assert(trees(candidates@) =~= views(self.candidates@).map_values(
            |c: CandidateModel| candidate_tree(c),
        ));
        ObjectBuilder::new()
            .with("error_kind", text(self.kind.as_str()))
            .with("project", text(self.project.as_str()))
            .with("hint", text(RESOLVER_HINT))
            .with("candidates", array(candidates))
            .build()
    }

    fn describe(candidate: &ProjectResolverCandidate) -> (r: String)
        ensures
            r@ == candidate_words(candidate@),
    {
        let mut out = concat3(candidate.id.as_str(), " [", candidate.client_id.as_str());
        out.append("] ");
        out.append(candidate.path.as_str());
        out.append(" (");
        out.append(candidate.status.as_str());
        out.append(")");
        out
    }

    /// The complaint in words.
    pub fn to_message(&self) -> (r: String)
        ensures
            r@ == resolver_message(self@),
    {
        let mut message = concat3(self.kind.as_str(), " '", self.project.as_str());
        message.append("'. ");
        message.append(RESOLVER_HINT);
        assert(views(self.candidates@).len() == self.candidates@.len());
        if self.candidates.len() == 0 {
            return message;
        }
        let mut words: Vec<String> = Vec::new();
        let mut i: usize = 0;
        while i < self.candidates.len()
            invariant
                i <= self.candidates@.len(),
                words@.len() == i,
                forall|j: int|
                    0 <= j < i ==> (#[trigger] words@[j])@ == candidate_words(
                        self.candidates@[j]@,
                    ),
            decreases self.candidates@.len() - i,
        {
            words.push(Self::describe(&self.candidates[i]));
            i = i + 1;
        }
        assert(texts(words@) =~= views(self.candidates@).map_values(
            |c: CandidateModel| candidate_words(c),
        ));
        let summary = join_all(&words, "; ");
        message.append(" Candidates: ");
        message.append(summary.as_str());
        message
    }

    /// The complaint as the result of a tool call.
    pub fn into_tool_result(self) -> (r: ToolResult)
        ensures
            r@ == not_resolved(self@),
    {
        let message = self.to_message();
        ToolResult::failed(self.to_output(), message.as_str())
    }
}

// ---------------------------------------------------------------------------
// The order of candidates
// ---------------------------------------------------------------------------

/// Whether `a` comes before `b`: connected ones first, then by status, then the
/// latest seen first, then by id.
pub open spec fn candidate_before(a: CandidateModel, b: CandidateModel) -> bool {
    if a.connected != b.connected {
        a.connected
    } else if a.status != b.status {
        text_less(a.status, b.status)
    } else if a.last_seen != b.last_seen {
        a.last_seen > b.last_seen
    } else {
        text_less(a.id, b.id)
    }
}

/// The number of leading candidates that `c` does not come before.
pub open spec fn candidate_place(s: Seq<CandidateModel>, c: CandidateModel) -> int
    decreases s.len(),
{
    if s.len() == 0 || candidate_before(c, s[0]) {
        0
    } else {
        1 + candidate_place(s.skip(1), c)
    }
}

/// The candidates in order; equal ones stay as they were.
pub open spec fn in_order(s: Seq<CandidateModel>) -> Seq<CandidateModel>
    decreases s.len(),
{
    if s.len() == 0 {
        seq![]
    } else {
        let front = in_order(s.drop_last());
        front.insert(candidate_place(front, s.last()), s.last())
    }
}

pub proof fn lemma_candidate_place(s: Seq<CandidateModel>, c: CandidateModel)
    ensures
        0 <= candidate_place(s, c) <= s.len(),
        forall|i: int| 0 <= i < candidate_place(s, c) ==> !candidate_before(c, #[trigger] s[i]),
        candidate_place(s, c) < s.len() ==> candidate_before(c, s[candidate_place(s, c)]),
    decreases s.len(),
{
    if s.len() > 0 && !candidate_before(c, s[0]) {
        lemma_candidate_place(s.skip(1), c);
        assert forall|i: int| 0 <= i < candidate_place(s, c) implies !candidate_before(
            c,
            #[trigger] s[i],
        ) by {
            if i > 0 {
                assert(s[i] == s.skip(1)[i - 1]);
            }
        }
        if candidate_place(s, c) < s.len() {
            assert(s[candidate_place(s, c)] == s.skip(1)[candidate_place(s, c) - 1]);
        }
    }
}

/// The order of candidates is transitive.
pub proof fn lemma_before_transitive(a: CandidateModel, b: CandidateModel, c: CandidateModel)
    requires
        candidate_before(a, b),
        candidate_before(b, c),
    ensures
        candidate_before(a, c),
{
    if a.connected == b.connected && b.connected == c.connected {
        if a.status != b.status && b.status != c.status {
            lemma_less_transitive(a.status, b.status, c.status);
            if a.status == c.status {
                lemma_less_irreflexive(a.status);
            }
        } else if a.status == b.status && b.status == c.status && a.last_seen == b.last_seen
            && b.last_seen == c.last_seen {
            lemma_less_transitive(a.id, b.id, c.id);
        }
    }
}

/// No candidate comes before itself, and of two one does not come before the other.
pub proof fn lemma_before_asymmetric(a: CandidateModel, b: CandidateModel)
    requires
        candidate_before(a, b),
    ensures
        !candidate_before(b, a),
{
    if candidate_before(b, a) {
        lemma_before_transitive(a, b, a);
        lemma_less_irreflexive(a.id);
    }
}

/// Whether no candidate comes before one that stands in front of it.
pub open spec fn is_in_order(s: Seq<CandidateModel>) -> bool {
    forall|i: int, j: int| 0 <= i < j < s.len() ==> !candidate_before(s[j], s[i])
}

/// What does not come before `b`, which does not come before `c`, does not come
/// before `c` in reverse.
pub proof fn lemma_not_before_transitive(a: CandidateModel, b: CandidateModel, c: CandidateModel)
    requires
        candidate_before(a, b),
        !candidate_before(c, b),
    ensures
        candidate_before(a, c),
{
    if a.connected == b.connected && b.connected == c.connected {
        lemma_less_total(c.status, b.status);
        lemma_less_total(c.id, b.id);
        if a.status != b.status {
            if b.status != c.status {
                lemma_less_transitive(a.status, b.status, c.status);
                if a.status == c.status {
                    lemma_less_irreflexive(a.status);
                }
            }
        } else if b.status == c.status {
            if a.last_seen == b.last_seen && b.last_seen == c.last_seen && b.id != c.id {
                lemma_less_transitive(a.id, b.id, c.id);
            }
        }
    }
}

/// Ordering candidates puts them in order, and keeps each of them.
pub proof fn law_in_order(s: Seq<CandidateModel>)
    ensures
        is_in_order(in_order(s)),
        in_order(s).to_multiset() == s.to_multiset(),
    decreases s.len(),
{
    broadcast use vstd::seq_lib::group_to_multiset_ensures;

    if s.len() > 0 {
        let front = in_order(s.drop_last());
        let c = s.last();
        law_in_order(s.drop_last());
        lemma_candidate_place(front, c);
        let k = candidate_place(front, c);
        let t = front.insert(k, c);
        assert forall|i: int, j: int| 0 <= i < j < t.len() implies !candidate_before(t[j], t[i]) by {
            if j < k {
                assert(t[i] == front[i] && t[j] == front[j]);
            } else if j == k {
                assert(t[i] == front[i]);
            } else if i < k {
                assert(t[i] == front[i] && t[j] == front[j - 1]);
            } else if i == k {
                assert(t[j] == front[j - 1]);
                if j - 1 > k {
                    assert(!candidate_before(front[j - 1], front[k]));
                    lemma_not_before_transitive(c, front[k], front[j - 1]);
                }
                lemma_before_asymmetric(c, front[j - 1]);
            } else {
                assert(t[i] == front[i - 1] && t[j] == front[j - 1]);
            }
        }
        lemma_insert_multiset(front, k, c);
        assert(s =~= s.drop_last().push(c));
        assert(s.drop_last().push(c).to_multiset() == s.drop_last().to_multiset().insert(c));
    } else {
        assert(in_order(s) =~= s);
    }
}

proof fn lemma_insert_multiset(s: Seq<CandidateModel>, k: int, c: CandidateModel)
    requires
        0 <= k <= s.len(),
    ensures
        s.insert(k, c).to_multiset() == s.to_multiset().insert(c),
{
    broadcast use vstd::seq_lib::group_to_multiset_ensures;

    vstd::seq_lib::to_multiset_insert(s, k, c);
}

fn comes_before(a: &ProjectResolverCandidate, b: &ProjectResolverCandidate) -> (r: bool)
    ensures
        r == candidate_before(a@, b@),
{
    if a.connected != b.connected {
        a.connected
    } else if !str_eq(a.status.as_str(), b.status.as_str()) {
        str_less(a.status.as_str(), b.status.as_str())
    } else if a.last_seen != b.last_seen {
        a.last_seen > b.last_seen
    } else {
        str_less(a.id.as_str(), b.id.as_str())
    }
}

/// Puts candidates in order.
pub fn sort_resolver_candidates(candidates: &Vec<ProjectResolverCandidate>) -> (r: Vec<
    ProjectResolverCandidate,
>)
    ensures
        views(r@) == in_order(views(candidates@)),
{
    let ghost all = views(candidates@);
    let mut out: Vec<ProjectResolverCandidate> = Vec::new();
    let mut i: usize = 0;
    assert(all.take(0) =~= seq![]);
    assert(views(out@) =~= seq![]);
    while i < candidates.len()
        invariant
            i <= candidates@.len(),
            all == views(candidates@),
            views(out@) == in_order(all.take(i as int)),
        decreases candidates@.len() - i,
    {
        let ghost before = views(out@);
        let item = candidates[i].copy();
        let mut place: usize = 0;
        assert(before.skip(0) =~= before);
        while place < out.len() && !comes_before(&item, &out[place])
            invariant
                place <= out@.len(),
                before == views(out@),
                candidate_place(before, item@) == place + candidate_place(
                    before.skip(place as int),
                    item@,
                ),
            decreases out@.len() - place,
        {
            assert(before.skip(place as int).skip(1) =~= before.skip(place + 1));
            place = place + 1;
        }
        proof {
            assert(all.take(i + 1).drop_last() =~= all.take(i as int));
            assert(all.take(i + 1).last() == item@);
        }
        out.insert(place, item);
        assert(views(out@) =~= before.insert(place as int, item@));
        i = i + 1;
    }
    assert(all.take(i as int) =~= all);
    out
}

// ---------------------------------------------------------------------------
// Candidates
// ---------------------------------------------------------------------------

/// The id under which a project of a client is known.
pub open spec fn runtime_id(client_id: Seq<char>, project_id: Seq<char>) -> Seq<char> {
    "agent:"@ + client_id + ":"@ + project_id
}

/// The id under which a project of a client is known.
pub fn agent_project_runtime_id(client_id: &str, project_id: &str) -> (r: String)
    ensures
        r@ == runtime_id(client_id@, project_id@),
{
    let mut out = concat3("agent:", client_id, ":");
    out.append(project_id);
    out
}

/// The candidate for a project of a client.
pub open spec fn candidate_of(client: ClientViewModel, p: ProjectModel) -> CandidateModel {
    CandidateModel {
        id: runtime_id(client.client_id, p.id),
        client_id: client.client_id,
        agent_project_id: p.id,
        name: p.name,
        path: p.path,
        allow_patch: p.allow_patch,
        connected: client.connected,
        status: client.status,
        last_seen: client.last_seen,
    }
}

/// The candidate for a project of a client.
pub fn project_candidate_from_view(client: &ShellClientView, project: &ShellAgentProjectSummary)
    -> (r: ProjectResolverCandidate)
    ensures
        r@ == candidate_of(client@, project@),
{
    ProjectResolverCandidate {
        id: agent_project_runtime_id(client.client_id.as_str(), project.id.as_str()),
        client_id: client.client_id.clone(),
        agent_project_id: project.id.clone(),
        name: opt_clone(&project.name),
        path: project.path.clone(),
        allow_patch: project.allow_patch,
        connected: client.connected,
        status: client.status.clone(),
        last_seen: client.last_seen,
    }
}

/// The candidates for the projects of a client that are not disabled.
pub open spec fn client_candidates(client: ClientViewModel, projects: Seq<ProjectModel>) -> Seq<
    CandidateModel,
>
    decreases projects.len(),
{
    if projects.len() == 0 {
        seq![]
    } else {
        let front = client_candidates(client, projects.drop_last());
        if projects.last().disabled {
            front
        } else {
            front.push(candidate_of(client, projects.last()))
        }
    }
}

/// The candidates for the projects of all clients.
pub open spec fn all_candidates(clients: Seq<ClientViewModel>) -> Seq<CandidateModel>
    decreases clients.len(),
{
    if clients.len() == 0 {
        seq![]
    } else {
        all_candidates(clients.drop_last()) + client_candidates(
            clients.last(),
            clients.last().projects,
        )
    }
}

fn add_candidates(out: &mut Vec<ProjectResolverCandidate>, client: &ShellClientView)
    ensures
        views(final(out)@) == views(old(out)@) + client_candidates(client@, client@.projects),
{
    let ghost base = views(out@);
    let ghost all = views(client.projects@);
    let mut i: usize = 0;
    assert(all.take(0) =~= seq![]);
    assert(base + seq![] =~= base);
    while i < client.projects.len()
        invariant
            i <= client.projects@.len(),
            all == views(client.projects@),
            views(out@) == base + client_candidates(client@, all.take(i as int)),
        decreases client.projects@.len() - i,
    {
        proof {
            assert(all.take(i + 1).drop_last() =~= all.take(i as int));
            assert(all.take(i + 1).last() == client.projects@[i as int]@);
        }
        if !client.projects[i].disabled {
            let ghost before = views(out@);
            let c = project_candidate_from_view(client, &client.projects[i]);
            out.push(c);
            assert(views(out@) =~= before.push(c@));
            assert(before.push(c@) =~= base + client_candidates(client@, all.take(i + 1)));
        }
        i = i + 1;
    }
    assert(all.take(i as int) =~= all);
}

/// The candidates for the projects of the clients, in order.
pub fn project_candidates(clients: &Vec<ShellClientView>) -> (r: Vec<ProjectResolverCandidate>)
    ensures
        views(r@) == in_order(all_candidates(views(clients@))),
{
    let ghost all = views(clients@);
    let mut out: Vec<ProjectResolverCandidate> = Vec::new();
    let mut i: usize = 0;
    assert(all.take(0) =~= seq![]);
    assert(views(out@) =~= seq![]);
    while i < clients.len()
        invariant
            i <= clients@.len(),
            all == views(clients@),
            views(out@) == all_candidates(all.take(i as int)),
        decreases clients@.len() - i,
    {
        proof {
            assert(all.take(i + 1).drop_last() =~= all.take(i as int));
            assert(all.take(i + 1).last() == clients@[i as int]@);
        }
        add_candidates(&mut out, &clients[i]);
        i = i + 1;
    }
    assert(all.take(i as int) =~= all);
    sort_resolver_candidates(&out)
}

/// The candidates among the projects that the caller sees.
pub fn agent_project_candidates_for_auth(
    registry: &ShellClientRegistry,
    auth: Option<&AuthContext>,
) -> (r: Vec<ProjectResolverCandidate>)
    requires
        registry.wf(),
    ensures
        exists|clients: Seq<ClientViewModel>, now: i64| #[trigger]
            is_client_listing(registry@, caller(auth), now, clients) && views(r@) == in_order(
                all_candidates(clients),
            ),
{
    let clients = registry.list_clients_for_auth(auth);
    project_candidates(&clients)
}

/// How the project of a candidate is worked on.
pub open spec fn config_of(c: CandidateModel) -> ConfigModel {
    ConfigModel {
        path: c.path,
        executor: Executor::Agent,
        client_id: Some(c.client_id),
        allow_patch: c.allow_patch,
        allow_command_requests: false,
        allow_raw_command_requests: false,
        default_apply_patch_backend: None,
        allowed_checks: seq![],
    }
}

/// How the project of a candidate is worked on.
pub fn project_config_from_candidate(candidate: &ProjectResolverCandidate) -> (r: ProjectConfig)
    ensures
        r@ == config_of(candidate@),
{
    let r = ProjectConfig {
        path: candidate.path.clone(),
        executor: Executor::Agent,
        client_id: Some(candidate.client_id.clone()),
        allow_patch: candidate.allow_patch,
        allow_command_requests: false,
        allow_raw_command_requests: false,
        default_apply_patch_backend: None,
        allowed_checks: Vec::new(),
    };
    assert(r@ =~= config_of(candidate@));
    r
}

// ---------------------------------------------------------------------------
// Resolving
// ---------------------------------------------------------------------------

/// What a candidate is asked for.
pub enum CandidateTest {
    /// Its full id.
    Id(Seq<char>),
    /// Its client.
    Client(Seq<char>),
    /// Its client and the id of its project there.
    ClientProject(Seq<char>, Seq<char>),
    /// The id of its project at its client.
    ShortId(Seq<char>),
    /// Its name.
    Name(Seq<char>),
}

/// Whether a candidate is what was asked for.
pub open spec fn passes(c: CandidateModel, test: CandidateTest) -> bool {
    match test {
        CandidateTest::Id(id) => c.id == id,
        CandidateTest::Client(client) => c.client_id == client,
        CandidateTest::ClientProject(client, project) => c.client_id == client
            && c.agent_project_id == project,
        CandidateTest::ShortId(id) => c.agent_project_id == id,
        CandidateTest::Name(name) => c.name == Some(name),
    }
}

/// The candidates that are what was asked for.
pub open spec fn passing(s: Seq<CandidateModel>, test: CandidateTest) -> Seq<CandidateModel>
    decreases s.len(),
{
    if s.len() == 0 {
        seq![]
    } else if passes(s.last(), test) {
        passing(s.drop_last(), test).push(s.last())
    } else {
        passing(s.drop_last(), test)
    }
}

/// The candidate as the project that was meant.
pub open spec fn resolved(input: Seq<char>, c: CandidateModel) -> Result<
    ResolvedModel,
    ResolverErrorModel,
> {
    Ok(ResolvedModel { input, resolved_id: c.id, config: config_of(c) })
}

/// The complaint that no project is meant.
pub open spec fn unknown(project: Seq<char>, candidates: Seq<CandidateModel>) -> Result<
    ResolvedModel,
    ResolverErrorModel,
> {
    Err(
        ResolverErrorModel {
            kind: ProjectResolverErrorKind::UnknownProject,
            project,
            candidates,
        },
    )
}

/// The complaint that several projects may be meant.
pub open spec fn ambiguous(project: Seq<char>, candidates: Seq<CandidateModel>) -> Result<
    ResolvedModel,
    ResolverErrorModel,
> {
    Err(
        ResolverErrorModel {
            kind: ProjectResolverErrorKind::AmbiguousProject,
            project,
            candidates,
        },
    )
}

/// What is meant by a full id.
pub open spec fn resolve_full(input: Seq<char>, raw: Seq<char>, all: Seq<CandidateModel>) -> Result<
    ResolvedModel,
    ResolverErrorModel,
> {
    match cut_at(raw.skip(6), ":"@) {
        None => unknown(raw, all),
        Some((client, project)) => if trim(client).len() == 0 || trim(project).len() == 0 {
            unknown(raw, all)
        } else if passing(all, CandidateTest::Id(raw)).len() > 0 {
            resolved(input, passing(all, CandidateTest::Id(raw))[0])
        } else {
            unknown(raw, in_order(passing(all, CandidateTest::Client(client))))
        },
    }
}

/// What is meant by a client and a project of it.
pub open spec fn resolve_pair(
    input: Seq<char>,
    raw: Seq<char>,
    client: Seq<char>,
    project: Seq<char>,
    all: Seq<CandidateModel>,
) -> Result<ResolvedModel, ResolverErrorModel> {
    let found = in_order(passing(all, CandidateTest::ClientProject(client, project)));
    if found.len() == 1 {
        resolved(input, found[0])
    } else if found.len() == 0 {
        unknown(raw, in_order(passing(all, CandidateTest::Client(client))))
    } else {
        ambiguous(raw, found)
    }
}

/// What is meant by a short id or a name.
pub open spec fn resolve_word(input: Seq<char>, raw: Seq<char>, all: Seq<CandidateModel>) -> Result<
    ResolvedModel,
    ResolverErrorModel,
> {
    let short = in_order(passing(all, CandidateTest::ShortId(raw)));
    let named = in_order(passing(all, CandidateTest::Name(raw)));
    if short.len() == 1 {
        resolved(input, short[0])
    } else if short.len() > 1 {
        ambiguous(raw, short)
    } else if named.len() == 1 {
        resolved(input, named[0])
    } else if named.len() > 1 {
        ambiguous(raw, named)
    } else {
        unknown(raw, all)
    }
}

/// Which of the candidates `input` means: by its full id, by its client and the id
/// of its project, by that id alone, or by its name. It is never guessed.
pub open spec fn resolve(input: Seq<char>, all: Seq<CandidateModel>) -> Result<
    ResolvedModel,
    ResolverErrorModel,
> {
    let raw = trim(input);
    if raw.len() == 0 {
        unknown(input, all)
    } else if "agent:"@.is_prefix_of(raw) {
        resolve_full(input, raw, all)
    } else {
        match cut_at(raw, ":"@) {
            Some((client, project)) => if trim(client).len() > 0 && trim(project).len() > 0 {
                resolve_pair(input, raw, client, project, all)
            } else {
                resolve_word(input, raw, all)
            },
            None => resolve_word(input, raw, all),
        }
    }
}

/// The value of what was resolved.
pub open spec fn resolution(r: Result<ResolvedProject, ProjectResolverError>) -> Result<
    ResolvedModel,
    ResolverErrorModel,
> {
    match r {
        Ok(p) => Ok(p@),
        Err(e) => Err(e@),
    }
}

enum Ask<'a> {
    Id(&'a str),
    Client(&'a str),
    ClientProject(&'a str, &'a str),
    ShortId(&'a str),
    Name(&'a str),
}

spec fn asked<'a>(ask: Ask<'a>) -> CandidateTest {
    match ask {
        Ask::Id(id) => CandidateTest::Id(id@),
        Ask::Client(client) => CandidateTest::Client(client@),
        Ask::ClientProject(client, project) => CandidateTest::ClientProject(client@, project@),
        Ask::ShortId(id) => CandidateTest::ShortId(id@),
        Ask::Name(name) => CandidateTest::Name(name@),
    }
}

fn is_asked<'a>(c: &ProjectResolverCandidate, ask: &Ask<'a>) -> (r: bool)
    ensures
        r == passes(c@, asked(*ask)),
{
    match ask {
        Ask::Id(id) => str_eq(c.id.as_str(), id),
        Ask::Client(client) => str_eq(c.client_id.as_str(), client),
        Ask::ClientProject(client, project) => str_eq(c.client_id.as_str(), client) && str_eq(
            c.agent_project_id.as_str(),
            project,
        ),
        Ask::ShortId(id) => str_eq(c.agent_project_id.as_str(), id),
        Ask::Name(wanted) => match &c.name {
            Some(name) => str_eq(name.as_str(), wanted),
            None => false,
        },
    }
}

fn select<'a>(all: &Vec<ProjectResolverCandidate>, ask: Ask<'a>) -> (r: Vec<
    ProjectResolverCandidate,
>)
    ensures
        views(r@) == passing(views(all@), asked(ask)),
{
    let ghost models = views(all@);
    let mut out: Vec<ProjectResolverCandidate> = Vec::new();
    let mut i: usize = 0;
    assert(models.take(0) =~= seq![]);
    assert(views(out@) =~= seq![]);
    while i < all.len()
        invariant
            i <= all@.len(),
            models == views(all@),
            views(out@) == passing(models.take(i as int), asked(ask)),
        decreases all@.len() - i,
    {
        proof {
            assert(models.take(i + 1).drop_last() =~= models.take(i as int));
            assert(models.take(i + 1).last() == all@[i as int]@);
        }
        if is_asked(&all[i], &ask) {
            let ghost before = views(out@);
            let c = all[i].copy();
            out.push(c);
            assert(views(out@) =~= before.push(c@));
        }
        i = i + 1;
    }
    assert(models.take(i as int) =~= models);
    out
}

fn accept(input: &str, c: &ProjectResolverCandidate) -> (r: Result<
    ResolvedProject,
    ProjectResolverError,
>)
    ensures
        resolution(r) == resolved(input@, c@),
{
    Ok(
        ResolvedProject {
            input: input.to_owned(),
            resolved_id: c.id.clone(),
            config: project_config_from_candidate(c),
        },
    )
}

fn refuse(
    kind: ProjectResolverErrorKind,
    project: &str,
    candidates: Vec<ProjectResolverCandidate>,
) -> (r: Result<ResolvedProject, ProjectResolverError>)
    ensures
        resolution(r) == Err::<ResolvedModel, ResolverErrorModel>(
            ResolverErrorModel { kind, project: project@, candidates: views(candidates@) },
        ),
{
    Err(ProjectResolverError { kind, project: project.to_owned(), candidates })
}

fn resolve_full_id(input: &str, raw: &str, rest: &str, all: Vec<ProjectResolverCandidate>) -> (r:
    Result<ResolvedProject, ProjectResolverError>)
    requires
        rest@ == raw@.skip(6),
    ensures
        resolution(r) == resolve_full(input@, raw@, views(all@)),
{
    let Some((client, project)) = split_once(rest, ":") else {
        return refuse(ProjectResolverErrorKind::UnknownProject, raw, all);
    };
    if str_trim(client).is_empty() || str_trim(project).is_empty() {
        return refuse(ProjectResolverErrorKind::UnknownProject, raw, all);
    }
    let found = select(&all, Ask::Id(raw));
    assert(views(found@).len() == found@.len());
    if found.len() > 0 {
        assert(views(found@)[0] == found@[0]@);
        return accept(input, &found[0]);
    }
    let same_client = sort_resolver_candidates(&select(&all, Ask::Client(client)));
    refuse(ProjectResolverErrorKind::UnknownProject, raw, same_client)
}

fn resolve_client_project(
    input: &str,
    raw: &str,
    client: &str,
    project: &str,
    all: Vec<ProjectResolverCandidate>,
) -> (r: Result<ResolvedProject, ProjectResolverError>)
    ensures
        resolution(r) == resolve_pair(input@, raw@, client@, project@, views(all@)),
{
    let found = sort_resolver_candidates(&select(&all, Ask::ClientProject(client, project)));
    assert(views(found@).len() == found@.len());
    if found.len() == 1 {
        assert(views(found@)[0] == found@[0]@);
        return accept(input, &found[0]);
    }
    if found.len() == 0 {
        let same_client = sort_resolver_candidates(&select(&all, Ask::Client(client)));
        return refuse(ProjectResolverErrorKind::UnknownProject, raw, same_client);
    }
    refuse(ProjectResolverErrorKind::AmbiguousProject, raw, found)
}

fn resolve_short(input: &str, raw: &str, all: Vec<ProjectResolverCandidate>) -> (r: Result<
    ResolvedProject,
    ProjectResolverError,
>)
    ensures
        resolution(r) == resolve_word(input@, raw@, views(all@)),
{
    let short = sort_resolver_candidates(&select(&all, Ask::ShortId(raw)));
    assert(views(short@).len() == short@.len());
    if short.len() == 1 {
        assert(views(short@)[0] == short@[0]@);
        return accept(input, &short[0]);
    }
    if short.len() > 1 {
        return refuse(ProjectResolverErrorKind::AmbiguousProject, raw, short);
    }
    let named = sort_resolver_candidates(&select(&all, Ask::Name(raw)));
    assert(views(named@).len() == named@.len());
    if named.len() == 1 {
        assert(views(named@)[0] == named@[0]@);
        return accept(input, &named[0]);
    }
    if named.len() > 1 {
        return refuse(ProjectResolverErrorKind::AmbiguousProject, raw, named);
    }
    refuse(ProjectResolverErrorKind::UnknownProject, raw, all)
}

/// Resolves what a caller means among the candidates.
pub fn resolve_among(project: &str, all: Vec<ProjectResolverCandidate>) -> (r: Result<
    ResolvedProject,
    ProjectResolverError,
>)
    ensures
        resolution(r) == resolve(project@, views(all@)),
{
    let raw = str_trim(project);
    if raw.is_empty() {
        return refuse(ProjectResolverErrorKind::UnknownProject, project, all);
    }
    if let Some(rest) = strip_prefix(raw, "agent:") {
        proof {
            reveal_strlit("agent:");
        }
        return resolve_full_id(project, raw, rest, all);
    }
    if let Some((client, rest)) = split_once(raw, ":") {
        if !str_trim(client).is_empty() && !str_trim(rest).is_empty() {
            return resolve_client_project(project, raw, client, rest, all);
        }
    }
    resolve_short(project, raw, all)
}

/// Resolves what a caller means among the projects that it sees.
pub fn resolve_project_input_for_auth(
    registry: &ShellClientRegistry,
    project: &str,
    auth: Option<&AuthContext>,
) -> (r: Result<ResolvedProject, ProjectResolverError>)
    requires
        registry.wf(),
    ensures
        exists|clients: Seq<ClientViewModel>, now: i64| #[trigger]
            is_client_listing(registry@, caller(auth), now, clients) && resolution(r) == resolve(
                project@,
                in_order(all_candidates(clients)),
            ),
{
    let all = agent_project_candidates_for_auth(registry, auth);
    resolve_among(project, all)
}

/// Resolves what is meant among all projects.
pub fn resolve_project_input(registry: &ShellClientRegistry, project: &str) -> (r: Result<
    ResolvedProject,
    ProjectResolverError,
>)
    requires
        registry.wf(),
    ensures
        exists|clients: Seq<ClientViewModel>, now: i64| #[trigger]
            is_client_listing(registry@, None, now, clients) && resolution(r) == resolve(
                project@,
                in_order(all_candidates(clients)),
            ),
{
    resolve_project_input_for_auth(registry, project, None)
}

/// How the project that a caller means is worked on.
pub fn resolve_project_for_auth(
    registry: &ShellClientRegistry,
    project: &str,
    auth: Option<&AuthContext>,
) -> (r: Result<ProjectConfig, ProjectResolverError>)
    requires
        registry.wf(),
    ensures
        exists|clients: Seq<ClientViewModel>, now: i64| #[trigger]
            is_client_listing(registry@, caller(auth), now, clients) && (match r {
                Ok(config) => resolve(project@, in_order(all_candidates(clients))) is Ok
                    && config@ == resolve(project@, in_order(all_candidates(clients)))->Ok_0.config,
                Err(e) => resolve(project@, in_order(all_candidates(clients))) == Err::<
                    ResolvedModel,
                    ResolverErrorModel,
                >(e@),
            }),
{
    match resolve_project_input_for_auth(registry, project, auth) {
        Ok(resolved) => Ok(resolved.config),
        Err(e) => Err(e),
    }
}

/// How the project that is meant is worked on.
pub fn resolve_project(registry: &ShellClientRegistry, project: &str) -> (r: Result<
    ProjectConfig,
    ProjectResolverError,
>)
    requires
        registry.wf(),
    ensures
        exists|clients: Seq<ClientViewModel>, now: i64| #[trigger]
            is_client_listing(registry@, None, now, clients) && (match r {
                Ok(config) => resolve(project@, in_order(all_candidates(clients))) is Ok
                    && config@ == resolve(project@, in_order(all_candidates(clients)))->Ok_0.config,
                Err(e) => resolve(project@, in_order(all_candidates(clients))) == Err::<
                    ResolvedModel,
                    ResolverErrorModel,
                >(e@),
            }),
{
    resolve_project_for_auth(registry, project, None)
}

// ---------------------------------------------------------------------------
// Laws
// ---------------------------------------------------------------------------

/// The candidates that pass are those of the list that do.
pub proof fn lemma_passing(s: Seq<CandidateModel>, test: CandidateTest)
    ensures
        forall|i: int|
            0 <= i < passing(s, test).len() ==> passes(#[trigger] passing(s, test)[i], test)
                && s.contains(passing(s, test)[i]),
        forall|i: int| 0 <= i < s.len() && passes(#[trigger] s[i], test) ==> passing(
            s,
            test,
        ).contains(s[i]),
    decreases s.len(),
{
    if s.len() > 0 {
        let front = s.drop_last();
        lemma_passing(front, test);
        let p = passing(s, test);
        let q = passing(front, test);
        assert forall|i: int| 0 <= i < p.len() implies passes(#[trigger] p[i], test)
            && s.contains(p[i]) by {
            if i < q.len() {
                assert(p[i] == q[i]);
                let k = choose|k: int| 0 <= k < front.len() && front[k] == q[i];
                assert(s[k] == p[i]);
            } else {
                assert(s[s.len() - 1] == p[i]);
            }
        }
        assert forall|i: int| 0 <= i < s.len() && passes(#[trigger] s[i], test) implies p.contains(
            s[i],
        ) by {
            if i < front.len() {
                assert(front[i] == s[i]);
                let k = choose|k: int| 0 <= k < q.len() && q[k] == s[i];
                assert(p[k] == s[i]);
            } else {
                assert(p[p.len() - 1] == s[i]);
            }
        }
    }
}

/// Putting candidates in order keeps each of them.
pub proof fn lemma_in_order_contains(s: Seq<CandidateModel>, c: CandidateModel)
    ensures
        in_order(s).contains(c) == s.contains(c),
        in_order(s).len() == s.len(),
{
    broadcast use vstd::seq_lib::group_to_multiset_ensures;

    law_in_order(s);
    s.to_multiset_ensures();
    in_order(s).to_multiset_ensures();
    assert(in_order(s).to_multiset().count(c) == s.to_multiset().count(c));
}

/// A project is never made up: what is resolved is one of the candidates, and it is
/// the full id, the client and project, the short id or the name of that candidate
/// that was given.
pub proof fn law_resolved_is_a_candidate(input: Seq<char>, all: Seq<CandidateModel>)
    requires
        resolve(input, all) is Ok,
    ensures
        exists|c: CandidateModel| #[trigger]
            all.contains(c) && resolve(input, all) == resolved(input, c) && means(trim(input), c),
{
    let raw = trim(input);
    if "agent:"@.is_prefix_of(raw) {
        let test = CandidateTest::Id(raw);
        lemma_passing(all, test);
        let c = passing(all, test)[0];
        assert(all.contains(c) && means(raw, c));
    } else {
        match cut_at(raw, ":"@) {
            Some((client, project)) => {
                if trim(client).len() > 0 && trim(project).len() > 0 {
                    let test = CandidateTest::ClientProject(client, project);
                    let found = passing(all, test);
                    lemma_passing(all, test);
                    lemma_in_order_contains(found, in_order(found)[0]);
                    assert(in_order(found).contains(in_order(found)[0]));
                    let k = choose|k: int| 0 <= k < found.len() && found[k] == in_order(found)[0];
                    assert(all.contains(found[k]) && means(raw, found[k]));
                } else {
                    lemma_word_is_a_candidate(input, raw, all);
                }
            },
            None => {
                lemma_word_is_a_candidate(input, raw, all);
            },
        }
    }
}

/// Whether `raw` is a way to say the candidate.
pub open spec fn means(raw: Seq<char>, c: CandidateModel) -> bool {
    ||| c.id == raw
    ||| cut_at(raw, ":"@) == Some((c.client_id, c.agent_project_id))
    ||| c.agent_project_id == raw
    ||| c.name == Some(raw)
}

proof fn lemma_word_is_a_candidate(input: Seq<char>, raw: Seq<char>, all: Seq<CandidateModel>)
    requires
        resolve_word(input, raw, all) is Ok,
    ensures
        exists|c: CandidateModel| #[trigger]
            all.contains(c) && resolve_word(input, raw, all) == resolved(input, c) && means(raw, c),
{
    let short = passing(all, CandidateTest::ShortId(raw));
    let named = passing(all, CandidateTest::Name(raw));
    lemma_passing(all, CandidateTest::ShortId(raw));
    lemma_passing(all, CandidateTest::Name(raw));
    if in_order(short).len() == 1 {
        lemma_in_order_contains(short, in_order(short)[0]);
        assert(in_order(short).contains(in_order(short)[0]));
        let k = choose|k: int| 0 <= k < short.len() && short[k] == in_order(short)[0];
        assert(all.contains(short[k]) && means(raw, short[k]));
    } else {
        lemma_in_order_contains(named, in_order(named)[0]);
        assert(in_order(named).contains(in_order(named)[0]));
        let k = choose|k: int| 0 <= k < named.len() && named[k] == in_order(named)[0];
        assert(all.contains(named[k]) && means(raw, named[k]));
    }
}

/// Two projects with the short id that was given are never chosen between, whatever
/// their state: the caller is told of both.
pub proof fn law_short_ids_are_not_guessed(
    input: Seq<char>,
    all: Seq<CandidateModel>,
    i: int,
    j: int,
)
    requires
        0 <= i < j < all.len(),
        all[i] != all[j],
        all[i].agent_project_id == trim(input),
        all[j].agent_project_id == trim(input),
        trim(input).len() > 0,
        cut_at(trim(input), ":"@) is None,
        !"agent:"@.is_prefix_of(trim(input)),
    ensures
        resolve(input, all) is Err,
        resolve(input, all)->Err_0.kind == ProjectResolverErrorKind::AmbiguousProject,
        resolve(input, all)->Err_0.candidates.contains(all[i]),
        resolve(input, all)->Err_0.candidates.contains(all[j]),
{
    let test = CandidateTest::ShortId(trim(input));
    let found = passing(all, test);
    lemma_passing(all, test);
    assert(passes(all[i], test) && passes(all[j], test));
    assert(found.contains(all[i]) && found.contains(all[j]));
    let a = choose|a: int| 0 <= a < found.len() && found[a] == all[i];
    let b = choose|b: int| 0 <= b < found.len() && found[b] == all[j];
    assert(a != b);
    lemma_in_order_contains(found, all[i]);
    lemma_in_order_contains(found, all[j]);
}

} // verus!
