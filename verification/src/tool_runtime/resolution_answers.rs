//! Which project a caller gets for what it says, and when it gets none.
use crate::cut::cut_at;
use crate::order::text_less;
use crate::shell_client::access::AuthModel;
use crate::shell_client::model::RegistryModel;
use crate::shell_client::protocol::ClientViewModel;
use crate::shell_client::registry::is_client_listing;
use crate::text::{lemma_find_from, occurs_at, trim};
use crate::tool_runtime::project_resolution::{
    all_candidates, candidate_before, in_order, law_in_order, lemma_in_order_contains, lemma_passing,
    passes, passing, resolve, CandidateModel, CandidateTest, Executor, ProjectResolverErrorKind,
    ResolvedModel, ResolverErrorModel,
};
use crate::tool_runtime::resolution_laws::{lemma_all_candidates, stands_for};
use vstd::prelude::*;

verus! {

/// Whether the answer is that the caller means the candidate, and says where and by whom
/// its project is worked on.
pub open spec fn means_candidate(
    r: Result<ResolvedModel, ResolverErrorModel>,
    input: Seq<char>,
    c: CandidateModel,
) -> bool {
    &&& r is Ok
    &&& r->Ok_0.input == input
    &&& r->Ok_0.resolved_id == c.id
    &&& r->Ok_0.config.path == c.path
    &&& r->Ok_0.config.client_id == Some(c.client_id)
    &&& r->Ok_0.config.executor == Executor::Agent
    &&& r->Ok_0.config.allow_patch == c.allow_patch
    &&& !r->Ok_0.config.allow_command_requests
    &&& !r->Ok_0.config.allow_raw_command_requests
    &&& r->Ok_0.config.allowed_checks.len() == 0
}

/// Whether the answer is that several candidates may be meant, those two among them.
pub open spec fn may_mean_both(
    r: Result<ResolvedModel, ResolverErrorModel>,
    said: Seq<char>,
    a: CandidateModel,
    b: CandidateModel,
) -> bool {
    &&& r is Err
    &&& r->Err_0.kind == ProjectResolverErrorKind::AmbiguousProject
    &&& r->Err_0.project == said
    &&& r->Err_0.candidates.contains(a)
    &&& r->Err_0.candidates.contains(b)
}

proof fn lemma_passing_none(s: Seq<CandidateModel>, test: CandidateTest)
    requires
        forall|j: int| 0 <= j < s.len() ==> !passes(#[trigger] s[j], test),
    ensures
        passing(s, test).len() == 0,
{
    lemma_passing(s, test);
    if passing(s, test).len() > 0 {
        let c = passing(s, test)[0];
        assert(passes(c, test) && s.contains(c));
    }
}

proof fn lemma_passing_one(s: Seq<CandidateModel>, test: CandidateTest, i: int)
    requires
        0 <= i < s.len(),
        passes(s[i], test),
        forall|j: int| 0 <= j < s.len() && j != i ==> !passes(#[trigger] s[j], test),
    ensures
        passing(s, test) =~= seq![s[i]],
    decreases s.len(),
{
    let front = s.drop_last();
    if i == s.len() - 1 {
        assert forall|j: int| 0 <= j < front.len() implies !passes(#[trigger] front[j], test) by {
            assert(front[j] == s[j]);
        }
        lemma_passing_none(front, test);
    } else {
        assert(s.last() == s[s.len() - 1]);
        assert forall|j: int| 0 <= j < front.len() && j != i implies !passes(
            #[trigger] front[j],
            test,
        ) by {
            assert(front[j] == s[j]);
        }
        assert(front[i] == s[i]);
        lemma_passing_one(front, test, i);
    }
}

proof fn lemma_ordered_one(c: CandidateModel)
    ensures
        in_order(seq![c]) =~= seq![c],
{
    lemma_in_order_contains(seq![c], c);
    assert(seq![c][0] == c);
    let s = in_order(seq![c]);
    let k = choose|k: int| 0 <= k < s.len() && s[k] == c;
    assert(s[k] == c);
}

proof fn lemma_passing_two(s: Seq<CandidateModel>, test: CandidateTest, i: int, j: int)
    requires
        0 <= i < j < s.len(),
        passes(s[i], test),
        passes(s[j], test),
    ensures
        passing(s, test).len() >= 2,
        in_order(passing(s, test)).len() >= 2,
        in_order(passing(s, test)).contains(s[i]),
        in_order(passing(s, test)).contains(s[j]),
    decreases s.len(),
{
    let found = passing(s, test);
    lemma_passing(s, test);
    assert(found.contains(s[i]) && found.contains(s[j]));
    lemma_in_order_contains(found, s[i]);
    lemma_in_order_contains(found, s[j]);
    let front = s.drop_last();
    if j == s.len() - 1 {
        lemma_passing(front, test);
        assert(front[i] == s[i]);
        assert(passing(front, test).contains(s[i]));
        assert(s.last() == s[j]);
    } else {
        assert(front[i] == s[i] && front[j] == s[j]);
        lemma_passing_two(front, test, i, j);
    }
}

/// A text without a colon is neither a full id nor a client and a project.
proof fn lemma_no_colon(raw: Seq<char>)
    requires
        !raw.contains(':'),
    ensures
        cut_at(raw, ":"@) is None,
        !"agent:"@.is_prefix_of(raw),
{
    reveal_strlit(":");
    reveal_strlit("agent:");
    assert(":"@.len() == 1 && ":"@[0] == ':');
    assert("agent:"@.len() == 6 && "agent:"@[5] == ':');
    lemma_find_from(raw, ":"@, 0);
    assert forall|i: int| !occurs_at(raw, ":"@, i) by {
        if occurs_at(raw, ":"@, i) {
            assert(raw.subrange(i, i + 1)[0] == ':');
            assert(raw[i] == ':');
        }
    }
    if "agent:"@.is_prefix_of(raw) {
        assert(raw[5] == "agent:"@[5]);
    }
}

/// A text in which a colon stands first at `k` is cut there.
proof fn lemma_cut_at_colon(raw: Seq<char>, k: int)
    requires
        0 <= k < raw.len(),
        raw[k] == ':',
        !raw.take(k).contains(':'),
    ensures
        cut_at(raw, ":"@) == Some((raw.take(k), raw.skip(k + 1))),
{
    reveal_strlit(":");
    assert(":"@.len() == 1 && ":"@[0] == ':');
    assert(raw.subrange(k, k + 1) =~= ":"@);
    assert(occurs_at(raw, ":"@, k));
    assert forall|i: int| 0 <= i < k implies !occurs_at(raw, ":"@, i) by {
        if occurs_at(raw, ":"@, i) {
            assert(raw.subrange(i, i + 1)[0] == ':');
            assert(raw.take(k)[i] == ':');
        }
    }
    lemma_find_from(raw, ":"@, 0);
}

/// A short id that one candidate has, and no other, means that candidate, whatever the
/// names of the others.
pub proof fn law_short_id_resolves(input: Seq<char>, all: Seq<CandidateModel>, i: int)
    requires
        trim(input).len() > 0,
        !trim(input).contains(':'),
        0 <= i < all.len(),
        all[i].agent_project_id == trim(input),
        forall|j: int|
            0 <= j < all.len() && j != i ==> (#[trigger] all[j]).agent_project_id != trim(input),
    ensures
        means_candidate(resolve(input, all), input, all[i]),
{
    let test = CandidateTest::ShortId(trim(input));
    lemma_no_colon(trim(input));
    lemma_passing_one(all, test, i);
    lemma_ordered_one(all[i]);
}

/// A name that one candidate has, and no other, means that candidate, where it is the
/// short id of none.
pub proof fn law_name_resolves(input: Seq<char>, all: Seq<CandidateModel>, i: int)
    requires
        trim(input).len() > 0,
        !trim(input).contains(':'),
        forall|j: int| 0 <= j < all.len() ==> (#[trigger] all[j]).agent_project_id != trim(input),
        0 <= i < all.len(),
        all[i].name == Some(trim(input)),
        forall|j: int|
            0 <= j < all.len() && j != i ==> (#[trigger] all[j]).name != Some(trim(input)),
    ensures
        means_candidate(resolve(input, all), input, all[i]),
{
    lemma_no_colon(trim(input));
    lemma_passing_none(all, CandidateTest::ShortId(trim(input)));
    lemma_in_order_contains(passing(all, CandidateTest::ShortId(trim(input))), all[i]);
    lemma_passing_one(all, CandidateTest::Name(trim(input)), i);
    lemma_ordered_one(all[i]);
}

/// A short id that several candidates have is ambiguous, and so is a name that several
/// have and that is the short id of none.
pub proof fn law_several_are_ambiguous(
    input: Seq<char>,
    all: Seq<CandidateModel>,
    i: int,
    j: int,
)
    requires
        trim(input).len() > 0,
        !trim(input).contains(':'),
        0 <= i < j < all.len(),
        (all[i].agent_project_id == trim(input) && all[j].agent_project_id == trim(input)) || (
        all[i].name == Some(trim(input)) && all[j].name == Some(trim(input)) && forall|k: int|
            0 <= k < all.len() ==> (#[trigger] all[k]).agent_project_id != trim(input)),
    ensures
        may_mean_both(resolve(input, all), trim(input), all[i], all[j]),
{
    let raw = trim(input);
    lemma_no_colon(raw);
    if all[i].agent_project_id == raw {
        lemma_passing_two(all, CandidateTest::ShortId(raw), i, j);
    } else {
        lemma_passing_none(all, CandidateTest::ShortId(raw));
        lemma_in_order_contains(passing(all, CandidateTest::ShortId(raw)), all[i]);
        lemma_passing_two(all, CandidateTest::Name(raw), i, j);
    }
}

/// A text that is the short id and the name of no candidate means none; the caller is told
/// of all that it could mean.
pub proof fn law_unknown_words_are_refused(input: Seq<char>, all: Seq<CandidateModel>)
    requires
        trim(input).len() > 0,
        !trim(input).contains(':'),
        forall|j: int|
            0 <= j < all.len() ==> (#[trigger] all[j]).agent_project_id != trim(input)
                && all[j].name != Some(trim(input)),
    ensures
        resolve(input, all) is Err,
        resolve(input, all)->Err_0.kind == ProjectResolverErrorKind::UnknownProject,
        resolve(input, all)->Err_0.project == trim(input),
        resolve(input, all)->Err_0.candidates == all,
{
    let raw = trim(input);
    let none = Seq::<CandidateModel>::empty();
    lemma_no_colon(raw);
    lemma_passing_none(all, CandidateTest::ShortId(raw));
    lemma_passing_none(all, CandidateTest::Name(raw));
    assert(passing(all, CandidateTest::ShortId(raw)) =~= none);
    assert(passing(all, CandidateTest::Name(raw)) =~= none);
    assert(in_order(none).len() == 0);
}

/// Nothing but white space means no project.
pub proof fn law_blank_is_refused(input: Seq<char>, all: Seq<CandidateModel>)
    requires
        trim(input).len() == 0,
    ensures
        resolve(input, all) is Err,
        resolve(input, all)->Err_0.kind == ProjectResolverErrorKind::UnknownProject,
{
}

/// A client and a project of it, with a colon between, mean the candidate with that client
/// and that short id; where there is none, the caller is told of the projects of that
/// client and of no other.
pub proof fn law_client_and_project_resolve(
    input: Seq<char>,
    all: Seq<CandidateModel>,
    k: int,
    i: int,
)
    requires
        0 <= k < trim(input).len(),
        trim(input)[k] == ':',
        !trim(input).take(k).contains(':'),
        !"agent:"@.is_prefix_of(trim(input)),
        trim(trim(input).take(k)).len() > 0,
        trim(trim(input).skip(k + 1)).len() > 0,
    ensures
        ({
            let client = trim(input).take(k);
            let project = trim(input).skip(k + 1);
            let r = resolve(input, all);
            &&& (0 <= i < all.len() && all[i].client_id == client && all[i].agent_project_id
                == project && forall|j: int|
                0 <= j < all.len() && j != i ==> !((#[trigger] all[j]).client_id == client
                    && all[j].agent_project_id == project)) ==> means_candidate(r, input, all[i])
            &&& (forall|j: int|
                0 <= j < all.len() ==> !((#[trigger] all[j]).client_id == client
                    && all[j].agent_project_id == project)) ==> {
                &&& r is Err
                &&& r->Err_0.kind == ProjectResolverErrorKind::UnknownProject
                &&& r->Err_0.project == trim(input)
                &&& forall|j: int|
                    0 <= j < r->Err_0.candidates.len() ==> (
                    #[trigger] r->Err_0.candidates[j]).client_id == client
                &&& forall|j: int|
                    0 <= j < all.len() && (#[trigger] all[j]).client_id == client
                        ==> r->Err_0.candidates.contains(all[j])
            }
        }),
{
    let raw = trim(input);
    let client = raw.take(k);
    let project = raw.skip(k + 1);
    let test = CandidateTest::ClientProject(client, project);
    lemma_cut_at_colon(raw, k);
    if 0 <= i < all.len() && passes(all[i], test) && forall|j: int|
        0 <= j < all.len() && j != i ==> !passes(#[trigger] all[j], test) {
        lemma_passing_one(all, test, i);
        lemma_ordered_one(all[i]);
    }
    if forall|j: int| 0 <= j < all.len() ==> !passes(#[trigger] all[j], test) {
        lemma_passing_none(all, test);
        assert(passing(all, test) =~= Seq::<CandidateModel>::empty());
        lemma_of_client(all, client);
    }
    assert(forall|j: int|
        0 <= j < all.len() ==> (passes(#[trigger] all[j], test) <==> (all[j].client_id == client
            && all[j].agent_project_id == project)));
}

proof fn lemma_of_client(all: Seq<CandidateModel>, client: Seq<char>)
    ensures
        ({
            let found = in_order(passing(all, CandidateTest::Client(client)));
            &&& forall|j: int| 0 <= j < found.len() ==> (#[trigger] found[j]).client_id == client
            &&& forall|j: int|
                0 <= j < all.len() && (#[trigger] all[j]).client_id == client ==> found.contains(
                    all[j],
                )
        }),
{
    let test = CandidateTest::Client(client);
    let found = passing(all, test);
    let ordered = in_order(found);
    lemma_passing(all, test);
    assert forall|j: int| 0 <= j < ordered.len() implies (#[trigger] ordered[j]).client_id
        == client by {
        lemma_in_order_contains(found, ordered[j]);
        assert(ordered.contains(ordered[j]));
        let n = choose|n: int| 0 <= n < found.len() && found[n] == ordered[j];
        assert(passes(found[n], test));
    }
    assert forall|j: int|
        0 <= j < all.len() && (#[trigger] all[j]).client_id == client implies ordered.contains(
        all[j],
    ) by {
        assert(passes(all[j], test));
        lemma_in_order_contains(found, all[j]);
    }
}

/// A full id means the candidate that has it. Where none has it, the project is unknown,
/// and the caller is told of the projects of the client that it names, or of all where it
/// names none.
pub proof fn law_full_id_resolves(input: Seq<char>, all: Seq<CandidateModel>, k: int, i: int)
    requires
        "agent:"@.is_prefix_of(trim(input)),
        6 <= k < trim(input).len(),
        trim(input)[k] == ':',
        !trim(input).subrange(6, k).contains(':'),
        trim(trim(input).subrange(6, k)).len() > 0,
        trim(trim(input).skip(k + 1)).len() > 0,
    ensures
        ({
            let r = resolve(input, all);
            &&& (0 <= i < all.len() && all[i].id == trim(input) && forall|j: int|
                0 <= j < all.len() && j != i ==> (#[trigger] all[j]).id != trim(input))
                ==> means_candidate(r, input, all[i])
            &&& (forall|j: int| 0 <= j < all.len() ==> (#[trigger] all[j]).id != trim(input)) ==> {
                &&& r is Err
                &&& r->Err_0.kind == ProjectResolverErrorKind::UnknownProject
                &&& r->Err_0.project == trim(input)
                &&& forall|j: int|
                    0 <= j < r->Err_0.candidates.len() ==> (
                    #[trigger] r->Err_0.candidates[j]).client_id == trim(input).subrange(6, k)
            }
        }),
{
    let raw = trim(input);
    let rest = raw.skip(6);
    let test = CandidateTest::Id(raw);
    reveal_strlit("agent:");
    assert(raw.len() > 0);
    assert(rest.take(k - 6) =~= raw.subrange(6, k));
    assert(rest.skip(k - 6 + 1) =~= raw.skip(k + 1));
    lemma_cut_at_colon(rest, k - 6);
    if 0 <= i < all.len() && all[i].id == raw && forall|j: int|
        0 <= j < all.len() && j != i ==> (#[trigger] all[j]).id != raw {
        assert(forall|j: int|
            0 <= j < all.len() && j != i ==> !passes(#[trigger] all[j], test)) by {
            assert(forall|j: int| 0 <= j < all.len() ==> passes(all[j], test) == (all[j].id == raw));
        }
        lemma_passing_one(all, test, i);
    }
    if forall|j: int| 0 <= j < all.len() ==> (#[trigger] all[j]).id != raw {
        lemma_passing_none(all, test);
        lemma_of_client(all, raw.subrange(6, k));
    }
}

/// Candidates are told in order: those that are connected come first; among those with the
/// same state the latest seen come first; and among those the ids ascend.
pub proof fn law_candidates_are_told_in_order(s: Seq<CandidateModel>, i: int, j: int)
    requires
        0 <= i < j < s.len(),
    ensures
        ({
            let a = in_order(s)[i];
            let b = in_order(s)[j];
            &&& in_order(s).len() == s.len()
            &&& b.connected ==> a.connected
            &&& a.connected == b.connected && a.status == b.status ==> {
                &&& a.last_seen >= b.last_seen
                &&& a.last_seen == b.last_seen ==> !text_less(b.id, a.id)
            }
            &&& a.connected == b.connected && a.status != b.status ==> !text_less(
                b.status,
                a.status,
            )
        }),
{
    law_in_order(s);
    lemma_in_order_contains(s, s[0]);
    assert(!candidate_before(in_order(s)[j], in_order(s)[i]));
}

/// What is resolved for a caller is a project of a client that the caller sees, and it is
/// worked on by that client, where the client has it, as far as the client lets it be
/// patched.
pub proof fn law_resolved_project_is_the_clients(
    m: RegistryModel,
    auth: Option<AuthModel>,
    now: i64,
    clients: Seq<ClientViewModel>,
    c: CandidateModel,
)
    requires
        is_client_listing(m, auth, now, clients),
        in_order(all_candidates(clients)).contains(c),
    ensures
        exists|i: int, k: int|
            {
                &&& 0 <= i < clients.len()
                &&& 0 <= k < clients[i].projects.len()
                &&& !(#[trigger] clients[i].projects[k]).disabled
                &&& c.id == "agent:"@ + clients[i].client_id + ":"@ + clients[i].projects[k].id
                &&& c.client_id == clients[i].client_id
                &&& c.agent_project_id == clients[i].projects[k].id
                &&& c.name == clients[i].projects[k].name
                &&& c.path == clients[i].projects[k].path
                &&& c.allow_patch == clients[i].projects[k].allow_patch
                &&& c.connected == clients[i].connected
                &&& c.status == clients[i].status
                &&& c.last_seen == clients[i].last_seen
                &&& m.clients.contains_key(c.client_id)
                &&& m.clients[c.client_id].projects == clients[i].projects
            },
{
    lemma_in_order_contains(all_candidates(clients), c);
    lemma_all_candidates(clients, c);
    let (i, k) = choose|i: int, k: int| stands_for(clients, i, k, c);
    assert(m.clients.contains_key(clients[i].client_id));
    assert(!clients[i].projects[k].disabled);
}

} // verus!
