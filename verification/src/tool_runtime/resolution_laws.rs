//! What holds of the ids that projects are resolved to.
use crate::cut::cut_at;
use crate::order::lemma_less_irreflexive;
use crate::shell_client::access::{sees_client, AuthModel};
use crate::shell_client::invariants::{lemma_trim_id, lemma_trim_tight};
use crate::shell_client::model::RegistryModel;
use crate::shell_client::protocol::{ClientViewModel, ProjectModel};
use crate::shell_client::registry::{is_client_listing, lists_client};
use crate::shell_client::validation::{id_error, is_id_char};
use crate::text::{is_space, lemma_find_from, occurs_at, trim, trim_start};
use crate::tool_runtime::project_resolution::{
    all_candidates, candidate_of, client_candidates, config_of, in_order, law_resolved_is_a_candidate,
    lemma_in_order_contains, lemma_passing, passes, passing, resolve, resolved, runtime_id,
    CandidateModel, CandidateTest, ResolvedModel, ResolverErrorModel,
};
use vstd::prelude::*;

verus! {

/// Whether the candidate stands for the project `k` of the client `i`, which is not
/// disabled.
pub open spec fn stands_for(
    clients: Seq<ClientViewModel>,
    i: int,
    k: int,
    c: CandidateModel,
) -> bool {
    &&& 0 <= i < clients.len()
    &&& 0 <= k < clients[i].projects.len()
    &&& !clients[i].projects[k].disabled
    &&& c == candidate_of(clients[i], clients[i].projects[k])
}

proof fn lemma_client_candidates(
    client: ClientViewModel,
    projects: Seq<ProjectModel>,
    c: CandidateModel,
)
    requires
        client_candidates(client, projects).contains(c),
    ensures
        exists|k: int|
            0 <= k < projects.len() && !(#[trigger] projects[k]).disabled && c == candidate_of(
                client,
                projects[k],
            ),
    decreases projects.len(),
{
    if projects.len() > 0 {
        let front = projects.drop_last();
        let last = projects.len() - 1;
        if !projects.last().disabled && c == candidate_of(client, projects.last()) {
            assert(!projects[last].disabled);
        } else {
            let q = client_candidates(client, front);
            let p = client_candidates(client, projects);
            let n = choose|n: int| 0 <= n < p.len() && p[n] == c;
            assert(q[n] == c);
            lemma_client_candidates(client, front, c);
            let k = choose|k: int|
                0 <= k < front.len() && !(#[trigger] front[k]).disabled && c == candidate_of(
                    client,
                    front[k],
                );
            assert(projects[k] == front[k]);
        }
    }
}

/// Every candidate stands for a project of one of the clients.
pub proof fn lemma_all_candidates(clients: Seq<ClientViewModel>, c: CandidateModel)
    requires
        all_candidates(clients).contains(c),
    ensures
        exists|i: int, k: int| stands_for(clients, i, k, c),
    decreases clients.len(),
{
    if clients.len() > 0 {
        let front = clients.drop_last();
        let last = clients.len() - 1;
        let q = all_candidates(front);
        let own = client_candidates(clients.last(), clients.last().projects);
        let n = choose|n: int| 0 <= n < (q + own).len() && (q + own)[n] == c;
        if n < q.len() {
            assert(q[n] == c);
            lemma_all_candidates(front, c);
            let (i, k) = choose|i: int, k: int| stands_for(front, i, k, c);
            assert(clients[i] == front[i]);
            assert(stands_for(clients, i, k, c));
        } else {
            assert(own[n - q.len()] == c);
            lemma_client_candidates(clients.last(), clients.last().projects, c);
            let k = choose|k: int|
                0 <= k < clients.last().projects.len() && !(
                #[trigger] clients.last().projects[k]).disabled && c == candidate_of(
                    clients.last(),
                    clients.last().projects[k],
                );
            assert(stands_for(clients, last, k, c));
        }
    }
}

/// Every project of one of the clients that is not disabled has its candidate.
pub proof fn lemma_stands_for_listed(
    clients: Seq<ClientViewModel>,
    i: int,
    k: int,
    c: CandidateModel,
)
    requires
        stands_for(clients, i, k, c),
    ensures
        all_candidates(clients).contains(c),
    decreases clients.len(),
{
    let front = clients.drop_last();
    let q = all_candidates(front);
    let own = client_candidates(clients.last(), clients.last().projects);
    if i < front.len() {
        assert(front[i] == clients[i]);
        lemma_stands_for_listed(front, i, k, c);
        let n = choose|n: int| 0 <= n < q.len() && q[n] == c;
        assert((q + own)[n] == c);
    } else {
        lemma_client_candidate_listed(clients.last(), clients.last().projects, k);
        let n = choose|n: int| 0 <= n < own.len() && own[n] == c;
        assert((q + own)[q.len() + n] == c);
    }
}

proof fn lemma_client_candidate_listed(
    client: ClientViewModel,
    projects: Seq<ProjectModel>,
    k: int,
)
    requires
        0 <= k < projects.len(),
        !projects[k].disabled,
    ensures
        client_candidates(client, projects).contains(candidate_of(client, projects[k])),
    decreases projects.len(),
{
    let c = candidate_of(client, projects[k]);
    let front = projects.drop_last();
    let q = client_candidates(client, front);
    let p = client_candidates(client, projects);
    if k < front.len() {
        assert(front[k] == projects[k]);
        lemma_client_candidate_listed(client, front, k);
        let n = choose|n: int| 0 <= n < q.len() && q[n] == c;
        assert(p[n] == c);
    } else {
        assert(p[q.len() as int] == c);
    }
}

/// A client id holds no colon, so that a full id is cut after it.
proof fn lemma_runtime_id_is_cut(client_id: Seq<char>, project_id: Seq<char>)
    requires
        id_error(client_id, "client_id"@) is None,
    ensures
        "agent:"@.is_prefix_of(runtime_id(client_id, project_id)),
        cut_at(runtime_id(client_id, project_id).skip(6), ":"@) == Some((client_id, project_id)),
{
    reveal_strlit("agent:");
    reveal_strlit(":");
    let id = runtime_id(client_id, project_id);
    let rest = id.skip(6);
    let colon = ":"@;
    let k = client_id.len() as int;
    assert("agent:"@.len() == 6 && colon.len() == 1);
    assert(id.take(6) =~= "agent:"@);
    assert(rest =~= client_id + colon + project_id);
    assert(rest.subrange(k, k + 1) =~= colon);
    assert(occurs_at(rest, colon, k));
    assert forall|j: int| 0 <= j < k implies !occurs_at(rest, colon, j) by {
        if occurs_at(rest, colon, j) {
            assert(rest.subrange(j, j + 1)[0] == colon[0]);
            assert(is_id_char(client_id[j]));
        }
    }
    lemma_find_from(rest, colon, 0);
    assert(rest.take(k) =~= client_id);
    assert(rest.skip(k + 1) =~= project_id);
}

/// Full ids tell projects apart.
proof fn lemma_candidates_by_id(
    m: RegistryModel,
    auth: Option<AuthModel>,
    now: i64,
    clients: Seq<ClientViewModel>,
    a: CandidateModel,
    b: CandidateModel,
)
    requires
        m.consistent(),
        is_client_listing(m, auth, now, clients),
        all_candidates(clients).contains(a),
        all_candidates(clients).contains(b),
        a.id == b.id,
    ensures
        a == b,
{
    lemma_all_candidates(clients, a);
    lemma_all_candidates(clients, b);
    let (i, k) = choose|i: int, k: int| stands_for(clients, i, k, a);
    let (j, l) = choose|j: int, l: int| stands_for(clients, j, l, b);
    let p = clients[i].projects[k];
    let q = clients[j].projects[l];
    assert(m.clients.contains_key(clients[i].client_id));
    assert(m.clients.contains_key(clients[j].client_id));
    lemma_runtime_id_is_cut(clients[i].client_id, p.id);
    lemma_runtime_id_is_cut(clients[j].client_id, q.id);
    assert(clients[i].client_id == clients[j].client_id);
    lemma_less_irreflexive(clients[i].client_id);
    assert(i == j);
    lemma_less_irreflexive(p.id);
    assert(k == l);
}

/// A full id whose project part does not end in white space is its own trimmed form.
proof fn lemma_runtime_id_trim(client_id: Seq<char>, project_id: Seq<char>)
    requires
        project_id.len() > 0,
        !is_space(project_id.last()),
    ensures
        trim(runtime_id(client_id, project_id)) == runtime_id(client_id, project_id),
{
    reveal_strlit("agent:");
    let id = runtime_id(client_id, project_id);
    assert(id[0] == 'a');
    assert(id.last() == project_id.last());
    lemma_trim_tight(id);
}

/// A text that does not end in white space is not blank.
proof fn lemma_not_blank(s: Seq<char>)
    requires
        s.len() > 0,
        !is_space(s.last()),
    ensures
        trim_start(s).len() > 0,
        trim_start(s).last() == s.last(),
        trim(s).len() > 0,
    decreases s.len(),
{
    if is_space(s[0]) {
        assert(s.skip(1).len() > 0);
        assert(s.skip(1).last() == s.last());
        lemma_not_blank(s.skip(1));
    }
}

/// What a project is resolved to can be resolved again. The id is the full id of a
/// project of a client that the caller sees, and that project is not disabled. Where the
/// id of the project is not empty and does not end in white space, so that it can be
/// written in a request, the full id means the same project as long as the registry
/// stays as it is, though its clients may have gone offline since.
pub proof fn law_resolved_id_resolves_again(
    m: RegistryModel,
    auth: Option<AuthModel>,
    now: i64,
    clients: Seq<ClientViewModel>,
    later: i64,
    again: Seq<ClientViewModel>,
    input: Seq<char>,
)
    requires
        m.consistent(),
        is_client_listing(m, auth, now, clients),
        is_client_listing(m, auth, later, again),
        resolve(input, in_order(all_candidates(clients))) is Ok,
    ensures
        ({
            let p = resolve(input, in_order(all_candidates(clients)))->Ok_0;
            exists|i: int, k: int|
                {
                    &&& 0 <= i < clients.len()
                    &&& 0 <= k < clients[i].projects.len()
                    &&& !(#[trigger] clients[i].projects[k]).disabled
                    &&& p.resolved_id == runtime_id(
                        clients[i].client_id,
                        clients[i].projects[k].id,
                    )
                    &&& p.config == config_of(candidate_of(clients[i], clients[i].projects[k]))
                    &&& p.config.path == clients[i].projects[k].path
                    &&& clients[i].projects[k].id.len() > 0 && !is_space(
                        clients[i].projects[k].id.last(),
                    ) ==> resolve(p.resolved_id, in_order(all_candidates(again))) == Ok::<
                        _,
                        ResolverErrorModel,
                    >(
                        (ResolvedModel {
                            input: p.resolved_id,
                            resolved_id: p.resolved_id,
                            config: p.config,
                        }),
                    )
                }
        }),
{
    let listed = all_candidates(clients);
    let all = in_order(listed);
    law_resolved_is_a_candidate(input, all);
    let c = choose|c: CandidateModel| #[trigger]
        all.contains(c) && resolve(input, all) == resolved(input, c);
    lemma_in_order_contains(listed, c);
    lemma_all_candidates(clients, c);
    let (i, k) = choose|i: int, k: int| stands_for(clients, i, k, c);
    let client = clients[i];
    let project = client.projects[k];
    assert(m.clients.contains_key(client.client_id));
    if project.id.len() > 0 && !is_space(project.id.last()) {
        lemma_full_id_resolves(m, auth, later, again, client.client_id, k);
    }
    assert(!clients[i].projects[k].disabled);
}

/// The full id of a project of a client that the caller sees means that project.
pub proof fn lemma_full_id_resolves(
    m: RegistryModel,
    auth: Option<AuthModel>,
    now: i64,
    clients: Seq<ClientViewModel>,
    client_id: Seq<char>,
    k: int,
)
    requires
        m.consistent(),
        is_client_listing(m, auth, now, clients),
        m.clients.contains_key(client_id),
        sees_client(auth, m.clients[client_id]),
        0 <= k < m.clients[client_id].projects.len(),
        !m.clients[client_id].projects[k].disabled,
        m.clients[client_id].projects[k].id.len() > 0,
        !is_space(m.clients[client_id].projects[k].id.last()),
    ensures
        ({
            let project = m.clients[client_id].projects[k];
            let id = runtime_id(client_id, project.id);
            resolve(id, in_order(all_candidates(clients))) == resolved(
                id,
                candidate_of(m.client_view(client_id, now), project),
            )
        }),
{
    let listed = all_candidates(clients);
    let all = in_order(listed);
    assert(lists_client(clients, client_id));
    let i = choose|i: int| 0 <= i < clients.len() && (#[trigger] clients[i]).client_id == client_id;
    let project = m.clients[client_id].projects[k];
    let c = candidate_of(clients[i], project);
    assert(clients[i] == m.client_view(client_id, now));
    assert(stands_for(clients, i, k, c));
    lemma_stands_for_listed(clients, i, k, c);
    lemma_in_order_contains(listed, c);
    let id = runtime_id(client_id, project.id);
    let test = CandidateTest::Id(id);
    lemma_runtime_id_trim(client_id, project.id);
    lemma_runtime_id_is_cut(client_id, project.id);
    lemma_trim_id(client_id, "client_id"@);
    lemma_not_blank(project.id);
    lemma_passing(all, test);
    let n = choose|n: int| 0 <= n < all.len() && all[n] == c;
    assert(passes(all[n], test));
    let found = passing(all, test);
    assert(found.contains(c));
    assert(passes(found[0], test) && all.contains(found[0]));
    lemma_in_order_contains(listed, found[0]);
    lemma_candidates_by_id(m, auth, now, clients, found[0], c);
    reveal_strlit("agent:");
    assert(id.len() > 0);
}

} // verus!
