//! What a task warns of when it starts and when it ends, and what it tells of its session.
use crate::json::{law_put_get, lemma_find_push, text_trees, Tree};
use crate::text::{texts, trim};
use crate::tool_runtime::coding_task::{
    compact_startup_runtime_status_tree, hygiene_warnings, rules_tree,
    workspace_payload_from_show_changes_tree, workspace_warnings, ProjectInstructionsSnapshot,
};
use crate::tool_runtime::coding_task_results::{
    binding_tree, binding_warnings, finish_mismatch, finish_warnings, finish_workspace,
    git_summary_tree, output_or_null, plain_warning, start_base, start_tree, start_warnings,
    with_failure, CurrentBinding, FinishTaskInputs, StartTaskInputs,
};
use crate::tool_runtime::session_context::{
    mismatch_warning, SessionTransport, SESSION_PROJECT_MISMATCH_KIND,
};
use crate::tool_runtime::sessions::{event_tree, events_tree, paths_changed, with_paths, SessionEvent};
use crate::tool_runtime::types::ToolModel;
use crate::tool_runtime::verdict_laws::is_positive;
use vstd::prelude::*;

verus! {

broadcast use lemma_find_push;

/// Whether one of the warnings is of the kind.
pub open spec fn warns(list: Seq<Tree>, kind: Seq<char>) -> bool {
    exists|i: int| 0 <= i < list.len() && (#[trigger] list[i]).at("kind"@) == Tree::Text(kind)
}

proof fn lemma_warns_push(list: Seq<Tree>, w: Tree, kind: Seq<char>)
    ensures
        warns(list.push(w), kind) <==> warns(list, kind) || w.at("kind"@) == Tree::Text(kind),
{
    let all = list.push(w);
    if warns(list, kind) {
        let i = choose|i: int|
            0 <= i < list.len() && (#[trigger] list[i]).at("kind"@) == Tree::Text(kind);
        assert(all[i] == list[i]);
    }
    if w.at("kind"@) == Tree::Text(kind) {
        assert(all[list.len() as int] == w);
    }
    if warns(all, kind) {
        let i = choose|i: int|
            0 <= i < all.len() && (#[trigger] all[i]).at("kind"@) == Tree::Text(kind);
        if i < list.len() {
            assert(list[i] == all[i]);
        }
    }
}

proof fn lemma_warns_add(a: Seq<Tree>, b: Seq<Tree>, kind: Seq<char>)
    ensures
        warns(a + b, kind) <==> warns(a, kind) || warns(b, kind),
    decreases b.len(),
{
    if b.len() == 0 {
        assert(a + b =~= a);
        assert(!warns(b, kind));
    } else {
        let front = b.drop_last();
        assert(a + b =~= (a + front).push(b.last()));
        assert(b =~= front.push(b.last()));
        lemma_warns_add(a, front, kind);
        lemma_warns_push(a + front, b.last(), kind);
        lemma_warns_push(front, b.last(), kind);
    }
}

proof fn lemma_plain(kind: Seq<char>, message: Tree)
    ensures
        plain_warning(kind, message).at("kind"@) == Tree::Text(kind),
        plain_warning(kind, message).at("message"@) == message,
{
    reveal_strlit("kind");
    reveal_strlit("message");
    assert("kind"@.len() == 4);
    assert("message"@.len() == 7);
}

/// A call that failed gives one more warning, which says what failed and why; one that
/// succeeded gives none.
pub proof fn law_failed_call_warns(list: Seq<Tree>, kind: Seq<char>, r: ToolModel, x: Seq<char>)
    ensures
        r.success ==> with_failure(list, kind, r) == list,
        !r.success ==> {
            let w = with_failure(list, kind, r).last();
            &&& with_failure(list, kind, r).len() == list.len() + 1
            &&& w.at("kind"@) == Tree::Text(kind)
            &&& w.at("message"@) == match r.error {
                Some(e) => Tree::Text(e),
                None => Tree::Null,
            }
        },
        warns(with_failure(list, kind, r), x) <==> warns(list, x) || (!r.success && x == kind),
{
    let w = plain_warning(kind, crate::json::opt_text_tree(r.error));
    lemma_plain(kind, crate::json::opt_text_tree(r.error));
    lemma_warns_push(list, w, x);
}

/// A start warns of a session that could not become the current one, and of a runtime
/// status, an overview of the changes and a list of commits that could not be had; and of
/// nothing else.
pub proof fn law_start_warns(p: StartTaskInputs, x: Seq<char>)
    ensures
        ({
            let all = start_tree(p).at("warnings"@);
            &&& all is Array
            &&& warns(all->Array_0, x) <==> {
                ||| p.binding is Failed && x == "current_binding_failed"@
                ||| p.binding is Unavailable && x == "current_binding_unavailable"@
                ||| p.runtime_status is Some && !p.runtime_status->0.success && x
                    == "runtime_status_unavailable"@
                ||| p.show_changes is Some && !p.show_changes->0.success && x
                    == "git_status_unavailable"@
                ||| p.recent_commits is Some && !p.recent_commits->0.success && x
                    == "recent_commits_unavailable"@
            }
        }),
{
    let none = Seq::<Tree>::empty();
    let a = binding_warnings(p.binding);
    assert(!warns(none, x));
    match p.binding {
        CurrentBinding::Failed => {
            let message = Tree::Text("new session could not be bound as current"@);
            lemma_plain("current_binding_failed"@, message);
            lemma_warns_push(none, plain_warning("current_binding_failed"@, message), x);
        },
        CurrentBinding::Unavailable(m) => {
            lemma_plain("current_binding_unavailable"@, Tree::Text(m@));
            lemma_warns_push(
                none,
                plain_warning("current_binding_unavailable"@, Tree::Text(m@)),
                x,
            );
        },
        _ => {},
    }
    if p.runtime_status is Some {
        law_failed_call_warns(a, "runtime_status_unavailable"@, p.runtime_status->0@, x);
    }
    let b = match p.runtime_status {
        Some(r) => with_failure(a, "runtime_status_unavailable"@, r@),
        None => a,
    };
    if p.show_changes is Some {
        law_failed_call_warns(b, "git_status_unavailable"@, p.show_changes->0@, x);
    }
    let c = match p.show_changes {
        Some(r) => with_failure(b, "git_status_unavailable"@, r@),
        None => b,
    };
    if p.recent_commits is Some {
        law_failed_call_warns(c, "recent_commits_unavailable"@, p.recent_commits->0@, x);
    }
    lemma_start_warnings_told(p);
}

proof fn lemma_start_warnings_told(p: StartTaskInputs)
    ensures
        start_tree(p).at("warnings"@) == Tree::Array(start_warnings(p)),
        start_tree(p).at("session"@).at("current_binding"@) == binding_tree(p),
        start_tree(p).at("rules"@) == rules_tree(p.rules),
        start_tree(p).at("deterministic"@) == Tree::Bool(true),
        start_tree(p).at("llm_summary"@) == Tree::Bool(false),
{
    reveal_strlit("project");
    reveal_strlit("resolved_project");
    reveal_strlit("session");
    reveal_strlit("runtime_status");
    reveal_strlit("permissions");
    reveal_strlit("rules");
    reveal_strlit("git");
    reveal_strlit("recommended_flow");
    reveal_strlit("deterministic");
    reveal_strlit("llm_summary");
    reveal_strlit("warnings");
    reveal_strlit("tool_manifest");
    reveal_strlit("startup_verdict");
    assert("project"@.len() == 7 && "project"@[0] == 'p');
    assert("resolved_project"@.len() == 16 && "resolved_project"@[2] == 's');
    assert("session"@.len() == 7 && "session"@[0] == 's');
    assert("runtime_status"@.len() == 14);
    assert("permissions"@.len() == 11 && "permissions"@[0] == 'p');
    assert("rules"@.len() == 5);
    assert("git"@.len() == 3);
    assert("recommended_flow"@.len() == 16 && "recommended_flow"@[2] == 'c');
    assert("deterministic"@.len() == 13 && "deterministic"@[0] == 'd');
    assert("llm_summary"@.len() == 11 && "llm_summary"@[0] == 'l');
    assert("warnings"@.len() == 8);
    assert("tool_manifest"@.len() == 13 && "tool_manifest"@[0] == 't');
    assert("startup_verdict"@.len() == 15);
    let bare = start_base(StartTaskInputs { tool_manifest: None, ..p });
    let base = start_base(p);
    let v = crate::tool_runtime::coding_task::startup_tree(
        base,
        crate::tool_runtime::coding_task_results::start_request(p),
    );
    if p.tool_manifest is Some {
        let m = p.tool_manifest->0@;
        assert(base == bare.put("tool_manifest"@, m));
        law_put_get(bare, "tool_manifest"@, m, "warnings"@);
        law_put_get(bare, "tool_manifest"@, m, "session"@);
        law_put_get(bare, "tool_manifest"@, m, "rules"@);
        law_put_get(bare, "tool_manifest"@, m, "deterministic"@);
        law_put_get(bare, "tool_manifest"@, m, "llm_summary"@);
    } else {
        assert(base == bare);
    }
    assert(bare.at("warnings"@) == Tree::Array(start_warnings(p)));
    law_put_get(base, "startup_verdict"@, v, "warnings"@);
    law_put_get(base, "startup_verdict"@, v, "session"@);
    law_put_get(base, "startup_verdict"@, v, "rules"@);
    law_put_get(base, "startup_verdict"@, v, "deterministic"@);
    law_put_get(base, "startup_verdict"@, v, "llm_summary"@);
    assert(crate::tool_runtime::coding_task_results::start_session_tree(p).at("current_binding"@)
        == binding_tree(p)) by {
    reveal_strlit("session_id");
    reveal_strlit("mode");
    reveal_strlit("guards");
    reveal_strlit("explicit_session_id_recommended");
    reveal_strlit("explicit_session_id_fields");
    reveal_strlit("current_binding");
    assert("session_id"@.len() == 10);
    assert("mode"@.len() == 4);
    assert("guards"@.len() == 6);
    assert("explicit_session_id_recommended"@.len() == 31);
    assert("explicit_session_id_fields"@.len() == 26);
    assert("current_binding"@.len() == 15);
    }
}

/// A start tells whether its session became the current one: where it did, which session it
/// is and of which project; where nobody is known that it could be the session of, that.
pub proof fn law_binding_is_told(p: StartTaskInputs)
    ensures
        ({
            let t = start_tree(p).at("session"@).at("current_binding"@);
            &&& t.at("bound"@) == Tree::Bool(p.binding is Bound)
            &&& t.at("process_local_in_memory"@) == Tree::Bool(true)
            &&& t.at("transport"@) == match p.transport {
                SessionTransport::Api => Tree::Text("api"@),
                SessionTransport::Mcp => Tree::Text("mcp"@),
            }
            &&& p.binding is Bound ==> t.at("session_id"@) == Tree::Text(p.binding->Bound_0@)
                && t.at("resolved_project"@) == Tree::Text(p.resolved.resolved_id@)
            &&& p.binding is Unavailable ==> t.at("error_kind"@) == Tree::Text(
                "current_session_unavailable"@,
            )
            &&& !(p.binding is Unavailable) ==> t.get("error_kind"@) is None
        }),
{
    lemma_start_warnings_told(p);
    reveal_strlit("bound");
    reveal_strlit("session_id");
    reveal_strlit("process_local_in_memory");
    reveal_strlit("transport");
    reveal_strlit("resolved_project");
    reveal_strlit("error_kind");
    assert("bound"@.len() == 5);
    assert("session_id"@.len() == 10 && "session_id"@[0] == 's');
    assert("process_local_in_memory"@.len() == 23);
    assert("transport"@.len() == 9);
    assert("resolved_project"@.len() == 16);
    assert("error_kind"@.len() == 10 && "error_kind"@[0] == 'e');
}

/// Without a look at git nothing is said of it: it is not available, and no branch, commit
/// or change is told.
pub proof fn law_git_unseen()
    ensures
        ({
            let t = git_summary_tree(None, None);
            &&& t.at("available"@) == Tree::Bool(false)
            &&& t.at("branch"@) == Tree::Null
            &&& t.at("head"@) == Tree::Null
            &&& t.at("clean"@) == Tree::Null
            &&& t.at("changed_files_count"@) == Tree::Number(0)
            &&& t.at("recent_commits"@) == Tree::Array(Seq::empty())
            &&& t.at("warnings"@) == Tree::Array(Seq::empty())
        }),
{
    reveal_strlit("available");
    reveal_strlit("branch");
    reveal_strlit("head");
    reveal_strlit("clean");
    reveal_strlit("changed_files_count");
    reveal_strlit("counts");
    reveal_strlit("recent_commits");
    reveal_strlit("warnings");
    assert("available"@.len() == 9);
    assert("branch"@.len() == 6 && "branch"@[0] == 'b');
    assert("head"@.len() == 4);
    assert("clean"@.len() == 5);
    assert("changed_files_count"@.len() == 19);
    assert("counts"@.len() == 6 && "counts"@[0] == 'c');
    assert("recent_commits"@.len() == 14);
    assert("warnings"@.len() == 8);
}

/// The short form of the runtime status keeps how many tools there are and how many jobs are
/// active, and what is known of the agents and the projects.
pub proof fn law_short_status_keeps(status: Tree)
    ensures
        ({
            let t = compact_startup_runtime_status_tree(status);
            &&& t is Object
            &&& t.at("compact"@) == Tree::Bool(true)
            &&& t.at("tools"@).at("count"@) == status.at("tools"@).at("count"@)
            &&& t.at("jobs"@).at("active_count"@) == status.at("jobs"@).at("active_count"@)
            &&& t.at("build"@).at("version"@) == status.at("version"@)
            &&& t.at("build"@).at("git_commit"@) == status.at("build"@).at("git_commit"@)
            &&& status.at("agents"@).get("summary"@) is Some ==> t.at("agents"@).at("summary"@)
                == status.at("agents"@).at("summary"@)
            &&& status.at("projects"@).get("effective"@) is Some ==> t.at("projects"@).at(
                "effective"@,
            ) == status.at("projects"@).at("effective"@)
            &&& status.at("projects"@).get("agent_registered"@) is Some ==> t.at("projects"@).at(
                "agent_registered"@,
            ) == status.at("projects"@).at("agent_registered"@)
        }),
{
    reveal_strlit("compact");
    reveal_strlit("build");
    reveal_strlit("tools");
    reveal_strlit("jobs");
    reveal_strlit("agents");
    reveal_strlit("projects");
    assert("compact"@.len() == 7);
    assert("build"@.len() == 5 && "build"@[0] == 'b');
    assert("tools"@.len() == 5 && "tools"@[0] == 't');
    assert("jobs"@.len() == 4);
    assert("agents"@.len() == 6);
    assert("projects"@.len() == 8);
    reveal_strlit("version");
    reveal_strlit("git_commit");
    reveal_strlit("git_dirty");
    reveal_strlit("count");
    reveal_strlit("active_count");
    reveal_strlit("summary");
    reveal_strlit("effective");
    reveal_strlit("agent_registered");
    reveal_strlit("server_static");
    assert("version"@.len() == 7 && "version"@[0] == 'v');
    assert("git_commit"@.len() == 10);
    assert("git_dirty"@.len() == 9 && "git_dirty"@[0] == 'g');
    assert("count"@.len() == 5);
    assert("active_count"@.len() == 12);
    assert("summary"@.len() == 7 && "summary"@[0] == 's');
    assert("effective"@.len() == 9 && "effective"@[0] == 'e');
    assert("agent_registered"@.len() == 16);
    assert("server_static"@.len() == 13);
}

/// The rules of a project are told where they were looked for: whether there are any, how
/// long they are, and whether they were cut.
pub proof fn law_rules_are_told(s: ProjectInstructionsSnapshot)
    ensures
        rules_tree(None) == Tree::Null,
        ({
            let t = rules_tree(Some(s));
            &&& t.at("present"@) == Tree::Bool(s.loaded)
            &&& t.at("loaded"@) == Tree::Bool(s.loaded)
            &&& t.at("truncated"@) == Tree::Bool(s.truncated)
            &&& t.at("total_chars"@) == Tree::Number(s.total_chars as int)
            &&& t.at("candidate_paths"@) == text_trees(texts(s.candidate_paths@))
            &&& t.at("sources"@) is Array && t.at("sources"@)->Array_0.len() == s.files@.len()
        }),
{
    reveal_strlit("present");
    reveal_strlit("loaded");
    reveal_strlit("sources");
    reveal_strlit("candidate_paths");
    reveal_strlit("total_chars");
    reveal_strlit("max_total_chars");
    reveal_strlit("truncated");
    reveal_strlit("summary");
    reveal_strlit("note");
    assert("present"@.len() == 7 && "present"@[0] == 'p');
    assert("loaded"@.len() == 6);
    assert("sources"@.len() == 7 && "sources"@[0] == 's' && "sources"@[1] == 'o');
    assert("candidate_paths"@.len() == 15 && "candidate_paths"@[0] == 'c');
    assert("total_chars"@.len() == 11);
    assert("max_total_chars"@.len() == 15 && "max_total_chars"@[0] == 'm');
    assert("truncated"@.len() == 9);
    assert("summary"@.len() == 7 && "summary"@[0] == 's' && "summary"@[1] == 'u');
    assert("note"@.len() == 4);
}

// ---------------------------------------------------------------------------
// The end
// ---------------------------------------------------------------------------

/// The end of a task warns of a session of another project or of none, of what could not be
/// looked up, of changes in the workspace and findings in it, and of what the jobs warn of;
/// and of nothing else.
pub proof fn law_finish_warns_of(p: FinishTaskInputs, x: Seq<char>)
    ensures
        warns(finish_warnings(p), x) <==> {
            ||| p.session_project is Some && p.session_project->0@ != p.resolved.resolved_id@ && x
                == SESSION_PROJECT_MISMATCH_KIND@
            ||| p.session_project is None && x == "session_has_no_project"@
            ||| !p.changes.success && x == "show_changes_failed"@
            ||| p.changes.output@.at("clean"@) != Tree::Bool(true) && x == "dirty_worktree"@
            ||| p.changes.output@.at("git_available"@) != Tree::Bool(true) && x
                == "git_unavailable"@
            ||| p.hygiene is Some && !p.hygiene->0.success && x == "workspace_hygiene_failed"@
            ||| p.hygiene is Some && is_positive(
                p.hygiene->0.output@.at("counts"@).at("findings"@),
            ) && x == "workspace_hygiene_findings"@
            ||| warns(p.jobs@.at("warnings"@).items(), x)
            ||| p.handoff is Some && !p.handoff->0.success && x == "session_handoff_failed"@
        },
{
    let none = Seq::<Tree>::empty();
    assert(!warns(none, x));
    let a = match finish_mismatch(p) {
        Some((s, r)) => none.push(mismatch_warning(s, r, false)),
        None => none,
    };
    if finish_mismatch(p) is Some {
        let (s, r) = finish_mismatch(p)->0;
        lemma_warns_push(none, mismatch_warning(s, r, false), x);
        assert(mismatch_warning(s, r, false).at("kind"@) == Tree::Text(
            SESSION_PROJECT_MISMATCH_KIND@,
        )) by {
    reveal_strlit("kind");
    reveal_strlit("session_project");
    reveal_strlit("request_project");
    reveal_strlit("allow_cross_project_session");
    assert("kind"@.len() == 4);
    assert("session_project"@.len() == 15 && "session_project"@[0] == 's');
    assert("request_project"@.len() == 15 && "request_project"@[0] == 'r');
    assert("allow_cross_project_session"@.len() == 27);
        }
    }
    let message = Tree::Text("session was not created with a project association"@);
    let lone = plain_warning("session_has_no_project"@, message);
    lemma_plain("session_has_no_project"@, message);
    lemma_warns_push(a, lone, x);
    let b = if p.session_project is None {
        a.push(lone)
    } else {
        a
    };
    law_failed_call_warns(b, "show_changes_failed"@, p.changes@, x);
    let b2 = with_failure(b, "show_changes_failed"@, p.changes@);
    let w = workspace_warnings(finish_workspace(p));
    lemma_warns_add(b2, w, x);
    lemma_workspace_warns(p.changes.output@, x);
    let c = b2 + w;
    if p.hygiene is Some {
        law_failed_call_warns(c, "workspace_hygiene_failed"@, p.hygiene->0@, x);
    }
    let d = match p.hygiene {
        Some(h) => with_failure(c, "workspace_hygiene_failed"@, h@),
        None => c,
    };
    let h = hygiene_warnings(output_or_null(p.hygiene));
    let j = p.jobs@.at("warnings"@).items();
    lemma_warns_add(d, h, x);
    lemma_warns_add(d + h, j, x);
    lemma_hygiene_warns(output_or_null(p.hygiene), x);
    let e = d + h + j;
    if p.handoff is Some {
        law_failed_call_warns(e, "session_handoff_failed"@, p.handoff->0@, x);
    }
}

proof fn lemma_workspace_warns(o: Tree, x: Seq<char>)
    ensures
        warns(workspace_warnings(workspace_payload_from_show_changes_tree(o)), x) <==> {
            ||| o.at("clean"@) != Tree::Bool(true) && x == "dirty_worktree"@
            ||| o.at("git_available"@) != Tree::Bool(true) && x == "git_unavailable"@
        },
{
    let t = workspace_payload_from_show_changes_tree(o);
    crate::tool_runtime::handoff_laws::law_workspace_is_told(o);
    crate::tool_runtime::handoff_laws::law_finish_warns(t, Tree::Null);
    let w = workspace_warnings(t);
    if o.at("clean"@) != Tree::Bool(true) {
        assert(w[0].at("kind"@) == Tree::Text("dirty_worktree"@));
    }
    if o.at("git_available"@) != Tree::Bool(true) {
        assert(w[w.len() - 1].at("kind"@) == Tree::Text("git_unavailable"@));
    }
    if warns(w, x) {
        let i = choose|i: int| 0 <= i < w.len() && (#[trigger] w[i]).at("kind"@) == Tree::Text(x);
        assert(i == 0 || i == w.len() - 1);
    }
}

proof fn lemma_hygiene_warns(h: Tree, x: Seq<char>)
    ensures
        warns(hygiene_warnings(h), x) <==> is_positive(h.at("counts"@).at("findings"@)) && x
            == "workspace_hygiene_findings"@,
{
    crate::tool_runtime::handoff_laws::law_finish_warns(Tree::Null, h);
    let w = hygiene_warnings(h);
    if w.len() > 0 {
        assert(w[0].at("kind"@) == Tree::Text("workspace_hygiene_findings"@));
    }
    if warns(w, x) {
        let i = choose|i: int| 0 <= i < w.len() && (#[trigger] w[i]).at("kind"@) == Tree::Text(x);
        assert(i == 0);
    }
}

// ---------------------------------------------------------------------------
// Events
// ---------------------------------------------------------------------------

/// An event is told with what was called, where, how it ended and when.
pub proof fn law_events_are_told(events: Seq<SessionEvent>, i: int)
    requires
        0 <= i < events.len(),
    ensures
        ({
            let t = events_tree(events)->Array_0[i];
            let e = events[i];
            &&& events_tree(events) is Array && events_tree(events)->Array_0.len() == events.len()
            &&& t.at("event_id"@) == Tree::Text(e.event_id@)
            &&& t.at("kind"@) == Tree::Text(e.kind@)
            &&& t.at("timestamp"@) == Tree::Number(e.timestamp as int)
            &&& t.at("tool_name"@) == match e.tool_name {
                Some(s) => Tree::Text(s@),
                None => Tree::Null,
            }
            &&& t.at("project"@) == match e.project {
                Some(s) => Tree::Text(s@),
                None => Tree::Null,
            }
            &&& t.at("status"@) == match e.status {
                Some(s) => Tree::Text(s@),
                None => Tree::Null,
            }
            &&& t.at("error_kind"@) == match e.error_kind {
                Some(s) => Tree::Text(s@),
                None => Tree::Null,
            }
            &&& t.at("write_like"@) == Tree::Bool(e.write_like)
            &&& t.at("shell_like"@) == Tree::Bool(e.shell_like)
            &&& t.at("read_like"@) == Tree::Bool(e.read_like)
            &&& t.at("git_like"@) == Tree::Bool(e.git_like)
            &&& t.at("changed_paths"@) == text_trees(texts(e.changed_paths@))
        }),
{
    reveal_strlit("event_id");
    reveal_strlit("kind");
    reveal_strlit("timestamp");
    reveal_strlit("transport");
    reveal_strlit("tool_name");
    reveal_strlit("project");
    reveal_strlit("resolved_project");
    reveal_strlit("risk_class");
    reveal_strlit("read_like");
    reveal_strlit("write_like");
    reveal_strlit("shell_like");
    reveal_strlit("git_like");
    reveal_strlit("change_summary_like");
    reveal_strlit("started_at");
    reveal_strlit("finished_at");
    reveal_strlit("status");
    reveal_strlit("exit_code");
    reveal_strlit("failure_kind");
    reveal_strlit("duration_ms");
    reveal_strlit("error_kind");
    reveal_strlit("error_message_summary");
    reveal_strlit("changed_paths");
    reveal_strlit("job_id");
    assert("event_id"@.len() == 8 && "event_id"@[0] == 'e');
    assert("kind"@.len() == 4);
    assert("timestamp"@.len() == 9 && "timestamp"@[1] == 'i');
    assert("transport"@.len() == 9 && "transport"@[1] == 'r');
    assert("tool_name"@.len() == 9 && "tool_name"@[1] == 'o');
    assert("project"@.len() == 7);
    assert("resolved_project"@.len() == 16);
    assert("risk_class"@.len() == 10 && "risk_class"@[0] == 'r');
    assert("read_like"@.len() == 9 && "read_like"@[1] == 'e');
    assert("write_like"@.len() == 10 && "write_like"@[0] == 'w');
    assert("shell_like"@.len() == 10 && "shell_like"@[0] == 's' && "shell_like"@[1] == 'h');
    assert("git_like"@.len() == 8 && "git_like"@[0] == 'g');
    assert("change_summary_like"@.len() == 19);
    assert("started_at"@.len() == 10 && "started_at"@[0] == 's' && "started_at"@[1] == 't');
    assert("finished_at"@.len() == 11 && "finished_at"@[0] == 'f');
    assert("status"@.len() == 6 && "status"@[0] == 's');
    assert("exit_code"@.len() == 9 && "exit_code"@[1] == 'x');
    assert("failure_kind"@.len() == 12);
    assert("duration_ms"@.len() == 11 && "duration_ms"@[0] == 'd');
    assert("error_kind"@.len() == 10 && "error_kind"@[0] == 'e');
    assert("error_message_summary"@.len() == 21);
    assert("changed_paths"@.len() == 13);
    assert("job_id"@.len() == 6 && "job_id"@[0] == 'j');
    assert(events_tree(events)->Array_0[i] == event_tree(events[i]));
}

/// A path that an event changed is told, without the white space around it, and each path
/// once.
pub proof fn law_changed_paths_are_told(paths: Seq<Seq<char>>, more: Seq<Seq<char>>, path: Seq<char>)
    ensures
        ({
            let before = with_paths(paths, more);
            let after = with_paths(paths, more.push(path));
            let p = trim(path);
            &&& p.len() == 0 || before.contains(p) ==> after == before
            &&& p.len() > 0 && !before.contains(p) ==> after == before.push(p)
        }),
        with_paths(paths, Seq::<Seq<char>>::empty()) == paths,
        paths_changed(Seq::<SessionEvent>::empty()).len() == 0,
{
    assert(more.push(path).drop_last() =~= more);
    assert(more.push(path).last() == path);
}

} // verus!
