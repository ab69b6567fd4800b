//! What a handoff and the end of a task tell of a session.
use crate::json::{lemma_find_push, text_trees, Tree};
use crate::text::{opt_text, texts, trim};
use crate::tool_runtime::actions::with_if;
use crate::tool_runtime::coding_task::{
    counts_sum, finish_actions, hygiene_warnings, shown_lines,
    workspace_payload_from_show_changes_tree, workspace_warnings,
};
use crate::tool_runtime::handoff::{
    checkpoint_tree, checkpoints_tree, failure_actions, handoff_actions, latest_good, message_tree,
    message_trees,
};
use crate::tool_runtime::handoff_summary::{
    failed_calls, handoff_base, handoff_counts, handoff_planned, handoff_warnings, is_failed_call,
    jobs_project, project_mismatch, HandoffInputs, HandoffPlan,
};
use crate::tool_runtime::sessions::{SessionEvent, SessionMessage};
use crate::tool_runtime::types::ToolModel;
use crate::tool_runtime::verdict_laws::{is_false, is_positive, kept_count};
use vstd::prelude::*;

verus! {

broadcast use lemma_find_push;

/// A message is handed over with who it is and what it says, up to 240 characters of it.
pub proof fn law_message_is_told(m: SessionMessage)
    ensures
        ({
            let t = message_tree(m);
            &&& t.at("message_id"@) == Tree::Text(m.message_id@)
            &&& t.at("created_at"@) == Tree::Number(m.created_at as int)
            &&& t.at("kind"@) == Tree::Text(m.kind@)
            &&& t.at("status"@) == Tree::Text(m.status@)
            &&& t.at("priority"@) == Tree::Text(m.priority@)
            &&& t.at("tags"@) == text_trees(texts(m.tags@))
            &&& m.message@.len() <= 240 ==> t.at("message"@) == Tree::Text(m.message@)
            &&& m.message@.len() > 240 ==> t.at("message"@) == Tree::Text(
                m.message@.take(240) + "..."@,
            )
        }),
{
    reveal_strlit("message_id");
    reveal_strlit("created_at");
    reveal_strlit("kind");
    reveal_strlit("status");
    reveal_strlit("priority");
    reveal_strlit("message");
    reveal_strlit("tags");
    reveal_strlit("resolved_at");
    assert("message_id"@.len() == 10 && "message_id"@[0] == 'm');
    assert("created_at"@.len() == 10 && "created_at"@[0] == 'c');
    assert("kind"@.len() == 4 && "kind"@[0] == 'k');
    assert("status"@.len() == 6);
    assert("priority"@.len() == 8);
    assert("message"@.len() == 7);
    assert("tags"@.len() == 4 && "tags"@[0] == 't');
    assert("resolved_at"@.len() == 11);
}

/// Messages are handed over in their order, the first ones up to the limit.
pub proof fn law_messages_are_told(messages: Seq<SessionMessage>, max: nat, i: int)
    ensures
        message_trees(messages, max).len() == if messages.len() <= max {
            messages.len()
        } else {
            max
        },
        0 <= i < message_trees(messages, max).len() ==> message_trees(messages, max)[i]
            == message_tree(messages[i]),
{
}

/// One more event is handed over first where it is a call that failed, as long as there is
/// room; and no other event is.
pub proof fn law_failed_calls_are_told(events: Seq<SessionEvent>, e: SessionEvent, max: nat)
    requires
        max > 0,
    ensures
        ({
            let before = failed_calls(events, max);
            let after = failed_calls(events.push(e), max);
            let failed = e.kind@ == "tool_call_finished"@ && e.status is Some && e.status->0@
                == "failed"@;
            &&& !failed ==> after == before
            &&& failed ==> {
                &&& after.len() > 0
                &&& after[0].at("tool_name"@) == match e.tool_name {
                    Some(n) => Tree::Text(n@),
                    None => Tree::Null,
                }
                &&& after[0].at("error_kind"@) == match e.error_kind {
                    Some(n) => Tree::Text(n@),
                    None => Tree::Null,
                }
                &&& after[0].at("created_at"@) == Tree::Number(e.timestamp as int)
                &&& after.skip(1) == failed_calls(events, (max - 1) as nat)
            }
        }),
{
    reveal_strlit("tool_name");
    reveal_strlit("error_kind");
    reveal_strlit("failure_kind");
    reveal_strlit("created_at");
    reveal_strlit("write_like");
    reveal_strlit("job_like");
    assert("tool_name"@.len() == 9);
    assert("error_kind"@.len() == 10 && "error_kind"@[0] == 'e');
    assert("failure_kind"@.len() == 12);
    assert("created_at"@.len() == 10 && "created_at"@[0] == 'c');
    assert("write_like"@.len() == 10 && "write_like"@[0] == 'w');
    assert("job_like"@.len() == 8);
    assert(events.push(e).drop_last() =~= events);
    let after = failed_calls(events.push(e), max);
    if is_failed_call(e) {
        assert(after.skip(1) =~= failed_calls(events, (max - 1) as nat));
    }
}

/// A handoff tells what waits on the message board: the open todos, risks, questions and
/// guidance, twenty of each at most, and the ten latest notes of progress and decisions;
/// and it counts them all.
pub proof fn law_handoff_tells_board(p: HandoffInputs, asked: Option<Seq<char>>)
    ensures
        ({
            let t = handoff_base(p, asked);
            let c = t.at("counts"@);
            let d = p.discussion;
            &&& t.at("session_id"@) == Tree::Text(p.summary.session_id@)
            &&& t.at("title"@) == match p.summary.title {
                Some(s) => Tree::Text(s@),
                None => Tree::Null,
            }
            &&& t.at("mode"@) == p.summary.mode@
            &&& t.at("guards"@) == p.summary.guards@
            &&& t.at("created_at"@) == Tree::Number(p.summary.created_at as int)
            &&& t.at("updated_at"@) == Tree::Number(p.summary.updated_at as int)
            &&& t.at("open_todos"@) == Tree::Array(message_trees(d.open_todos@, 20))
            &&& t.at("open_risks"@) == Tree::Array(message_trees(d.open_risks@, 20))
            &&& t.at("open_questions"@) == Tree::Array(message_trees(d.open_questions@, 20))
            &&& t.at("open_guidance"@) == Tree::Array(message_trees(d.open_guidance@, 20))
            &&& t.at("recent_progress"@) == Tree::Array(message_trees(d.recent_progress@, 10))
            &&& t.at("recent_decisions"@) == Tree::Array(message_trees(d.recent_decisions@, 10))
            &&& t.at("recent_failed_tools"@) == Tree::Array(failed_calls(p.summary.events@, 10))
            &&& c.at("events"@) == Tree::Number(p.summary.events@.len() as int)
            &&& c.at("failed_tool_calls"@) == Tree::Number(
                failed_calls(p.summary.events@, 10).len() as int,
            )
            &&& c.at("messages"@) == Tree::Number(d.total as int)
            &&& c.at("open_todos"@) == Tree::Number(d.todo as int)
            &&& c.at("open_risks"@) == Tree::Number(d.risk as int)
            &&& c.at("open_questions"@) == Tree::Number(d.question as int)
            &&& c.at("open_guidance"@) == Tree::Number(d.guidance as int)
        }),
{
    reveal_strlit("session_id");
    reveal_strlit("project");
    reveal_strlit("title");
    reveal_strlit("mode");
    reveal_strlit("guards");
    reveal_strlit("created_at");
    reveal_strlit("updated_at");
    reveal_strlit("counts");
    reveal_strlit("permissions");
    reveal_strlit("open_todos");
    reveal_strlit("open_risks");
    reveal_strlit("open_questions");
    reveal_strlit("open_guidance");
    reveal_strlit("recent_progress");
    reveal_strlit("recent_decisions");
    reveal_strlit("recent_failed_tools");
    reveal_strlit("tool_failures");
    reveal_strlit("expected_failed_tool_calls");
    reveal_strlit("unexpected_failed_tool_calls");
    reveal_strlit("expectation_mismatches");
    reveal_strlit("unexpected_success_tool_calls");
    reveal_strlit("jobs");
    reveal_strlit("warnings");
    assert("session_id"@.len() == 10 && "session_id"@[0] == 's');
    assert("project"@.len() == 7);
    assert("title"@.len() == 5);
    assert("mode"@.len() == 4 && "mode"@[0] == 'm');
    assert("guards"@.len() == 6 && "guards"@[0] == 'g');
    assert("created_at"@.len() == 10 && "created_at"@[0] == 'c');
    assert("updated_at"@.len() == 10 && "updated_at"@[0] == 'u');
    assert("counts"@.len() == 6 && "counts"@[0] == 'c');
    assert("permissions"@.len() == 11);
    assert("open_todos"@.len() == 10 && "open_todos"@[0] == 'o' && "open_todos"@[5] == 't');
    assert("open_risks"@.len() == 10 && "open_risks"@[0] == 'o' && "open_risks"@[5] == 'r');
    assert("open_questions"@.len() == 14);
    assert("open_guidance"@.len() == 13 && "open_guidance"@[0] == 'o');
    assert("recent_progress"@.len() == 15);
    assert("recent_decisions"@.len() == 16);
    assert("recent_failed_tools"@.len() == 19);
    assert("tool_failures"@.len() == 13 && "tool_failures"@[0] == 't');
    assert("expected_failed_tool_calls"@.len() == 26);
    assert("unexpected_failed_tool_calls"@.len() == 28);
    assert("expectation_mismatches"@.len() == 22);
    assert("unexpected_success_tool_calls"@.len() == 29);
    assert("jobs"@.len() == 4 && "jobs"@[0] == 'j');
    assert("warnings"@.len() == 8);
    assert(handoff_base(p, asked).at("counts"@) == handoff_counts(p));
    lemma_counts_told(p);
}

proof fn lemma_counts_told(p: HandoffInputs)
    ensures
        ({
            let c = handoff_counts(p);
            let d = p.discussion;
            &&& c.at("events"@) == Tree::Number(p.summary.events@.len() as int)
            &&& c.at("failed_tool_calls"@) == Tree::Number(
                failed_calls(p.summary.events@, 10).len() as int,
            )
            &&& c.at("messages"@) == Tree::Number(d.total as int)
            &&& c.at("open_todos"@) == Tree::Number(d.todo as int)
            &&& c.at("open_risks"@) == Tree::Number(d.risk as int)
            &&& c.at("open_questions"@) == Tree::Number(d.question as int)
            &&& c.at("open_guidance"@) == Tree::Number(d.guidance as int)
        }),
{
    reveal_strlit("events");
    reveal_strlit("failed_tool_calls");
    reveal_strlit("messages");
    reveal_strlit("open_todos");
    reveal_strlit("open_risks");
    reveal_strlit("open_questions");
    reveal_strlit("open_guidance");
    assert("events"@.len() == 6);
    assert("failed_tool_calls"@.len() == 17);
    assert("messages"@.len() == 8);
    assert("open_todos"@.len() == 10 && "open_todos"@[5] == 't');
    assert("open_risks"@.len() == 10 && "open_risks"@[5] == 'r');
    assert("open_questions"@.len() == 14);
    assert("open_guidance"@.len() == 13);
}

/// A handoff warns where its session is of another project than the one that was named, and
/// tells the warnings about jobs.
pub proof fn law_handoff_warns(p: HandoffInputs, asked: Option<Seq<char>>)
    ensures
        ({
            let t = handoff_base(p, asked).at("warnings"@);
            let jobs = p.jobs@.at("warnings"@).items();
            let other = p.summary.project is Some && asked is Some && trim(asked->0).len() > 0
                && p.summary.project->0@ != asked->0;
            &&& t is Array
            &&& !other ==> t->Array_0 == jobs
            &&& other ==> {
                let w = t->Array_0[0];
                &&& t->Array_0.len() == jobs.len() + 1
                &&& w.at("session_project"@) == Tree::Text(p.summary.project->0@)
                &&& w.at("request_project"@) == Tree::Text(trim(asked->0))
                &&& t->Array_0.skip(1) == jobs
            }
        }),
{
    reveal_strlit("session_id");
    reveal_strlit("project");
    reveal_strlit("title");
    reveal_strlit("mode");
    reveal_strlit("guards");
    reveal_strlit("created_at");
    reveal_strlit("updated_at");
    reveal_strlit("counts");
    reveal_strlit("permissions");
    reveal_strlit("open_todos");
    reveal_strlit("open_risks");
    reveal_strlit("open_questions");
    reveal_strlit("open_guidance");
    reveal_strlit("recent_progress");
    reveal_strlit("recent_decisions");
    reveal_strlit("recent_failed_tools");
    reveal_strlit("tool_failures");
    reveal_strlit("expected_failed_tool_calls");
    reveal_strlit("unexpected_failed_tool_calls");
    reveal_strlit("expectation_mismatches");
    reveal_strlit("unexpected_success_tool_calls");
    reveal_strlit("jobs");
    reveal_strlit("warnings");
    assert("session_id"@.len() == 10 && "session_id"@[0] == 's');
    assert("project"@.len() == 7);
    assert("title"@.len() == 5);
    assert("mode"@.len() == 4 && "mode"@[0] == 'm');
    assert("guards"@.len() == 6 && "guards"@[0] == 'g');
    assert("created_at"@.len() == 10 && "created_at"@[0] == 'c');
    assert("updated_at"@.len() == 10 && "updated_at"@[0] == 'u');
    assert("counts"@.len() == 6 && "counts"@[0] == 'c');
    assert("permissions"@.len() == 11);
    assert("open_todos"@.len() == 10 && "open_todos"@[0] == 'o' && "open_todos"@[5] == 't');
    assert("open_risks"@.len() == 10 && "open_risks"@[0] == 'o' && "open_risks"@[5] == 'r');
    assert("open_questions"@.len() == 14);
    assert("open_guidance"@.len() == 13 && "open_guidance"@[0] == 'o');
    assert("recent_progress"@.len() == 15);
    assert("recent_decisions"@.len() == 16);
    assert("recent_failed_tools"@.len() == 19);
    assert("tool_failures"@.len() == 13 && "tool_failures"@[0] == 't');
    assert("expected_failed_tool_calls"@.len() == 26);
    assert("unexpected_failed_tool_calls"@.len() == 28);
    assert("expectation_mismatches"@.len() == 22);
    assert("unexpected_success_tool_calls"@.len() == 29);
    assert("jobs"@.len() == 4 && "jobs"@[0] == 'j');
    assert("warnings"@.len() == 8);
    let all = handoff_warnings(p, asked);
    assert(handoff_base(p, asked).at("warnings"@) == Tree::Array(all));
    let jobs = p.jobs@.at("warnings"@).items();
    lemma_mismatch_told(p, asked);
    match project_mismatch(opt_text(p.summary.project), asked) {
        Some((a, b)) => {
            assert(all.skip(1) =~= jobs);
        },
        None => {
            assert(all =~= jobs);
        },
    }
}

proof fn lemma_mismatch_told(p: HandoffInputs, asked: Option<Seq<char>>)
    ensures
        project_mismatch(opt_text(p.summary.project), asked) is Some ==> {
            let (a, b) = project_mismatch(opt_text(p.summary.project), asked)->0;
            let w = crate::tool_runtime::session_context::mismatch_warning(a, b, false);
            w.at("session_project"@) == Tree::Text(a) && w.at("request_project"@) == Tree::Text(b)
        },
{
    reveal_strlit("kind");
    reveal_strlit("session_project");
    reveal_strlit("request_project");
    reveal_strlit("allow_cross_project_session");
    assert("kind"@.len() == 4);
    assert("session_project"@.len() == 15 && "session_project"@[0] == 's');
    assert("request_project"@.len() == 15 && "request_project"@[0] == 'r');
    assert("allow_cross_project_session"@.len() == 27);
}

/// The jobs that are looked at are those of the project that was named, under its full id
/// where it is known, else under the name; and without a name those of the project of the
/// session.
pub proof fn law_jobs_project(
    project: Option<Seq<char>>,
    resolved: Option<Seq<char>>,
    of_session: Option<Seq<char>>,
)
    ensures
        ({
            let r = jobs_project(project, resolved, of_session);
            let named = project is Some && trim(project->0).len() > 0;
            &&& named && resolved is Some && resolved->0.len() > 0 ==> r == resolved
            &&& named && resolved is None ==> r == Some(trim(project->0))
            &&& !named && of_session is Some && of_session->0.len() > 0 ==> r == of_session
            &&& !named && of_session is None ==> r is None
        }),
{
}

/// What is handed over is what was asked for: all of it unless it is refused, the workspace
/// and the checkpoints only of a project that is named; 20 events unless another number up
/// to 100 is asked for.
pub proof fn law_handoff_plan(
    project: Option<Seq<char>>,
    workspace: Option<bool>,
    checkpoints: Option<bool>,
    validation: Option<bool>,
    limit: Option<usize>,
    plan: HandoffPlan,
)
    requires
        handoff_planned(project, workspace, checkpoints, validation, limit, plan),
    ensures
        ({
            let named = project is Some && trim(project->0).len() > 0;
            &&& plan.workspace == (named && !(workspace is Some && !workspace->0))
            &&& plan.checkpoints == (named && !(checkpoints is Some && !checkpoints->0))
            &&& plan.validation == !(validation is Some && !validation->0)
            &&& crate::tool_runtime::git_laws::is_limited(limit, 20, 100, plan.limit)
        }),
{
}

/// The workspace that is handed over tells how many files changed: the sum of the counts.
pub proof fn law_changed_files_are_summed(counts: Tree)
    ensures
        counts_sum(counts) == kept_count(counts.at("modified"@))->Number_0 + kept_count(
            counts.at("added"@),
        )->Number_0 + kept_count(counts.at("deleted"@))->Number_0 + kept_count(
            counts.at("renamed"@),
        )->Number_0 + kept_count(counts.at("copied"@))->Number_0 + kept_count(
            counts.at("untracked"@),
        )->Number_0,
{
}

/// The workspace at the end of a task is told as the overview tells it.
pub proof fn law_workspace_is_told(o: Tree)
    ensures
        ({
            let t = workspace_payload_from_show_changes_tree(o);
            &&& t.at("clean"@) == Tree::Bool(o.at("clean"@) == Tree::Bool(true))
            &&& t.at("git_available"@) == Tree::Bool(o.at("git_available"@) == Tree::Bool(true))
            &&& t.at("non_git_project"@) == Tree::Bool(
                o.at("non_git_project"@) == Tree::Bool(true),
            )
            &&& t.at("branch"@) == o.at("branch"@)
            &&& t.at("head"@) == o.at("head"@)
            &&& t.at("changed_files_count"@) == Tree::Number(counts_sum(o.at("counts"@)))
            &&& o.get("counts"@) is Some ==> t.at("counts"@) == o.at("counts"@)
            &&& o.get("warnings"@) is Some ==> t.at("warnings"@) == o.at("warnings"@)
        }),
{
    reveal_strlit("clean");
    reveal_strlit("git_available");
    reveal_strlit("non_git_project");
    reveal_strlit("branch");
    reveal_strlit("head");
    reveal_strlit("changed_files_count");
    reveal_strlit("counts");
    reveal_strlit("warnings");
    assert("clean"@.len() == 5);
    assert("git_available"@.len() == 13);
    assert("non_git_project"@.len() == 15);
    assert("branch"@.len() == 6 && "branch"@[0] == 'b');
    assert("head"@.len() == 4);
    assert("changed_files_count"@.len() == 19);
    assert("counts"@.len() == 6 && "counts"@[0] == 'c');
    assert("warnings"@.len() == 8);
}

/// A workspace with changes gives a warning that says how many, one without git gives one
/// that says so, and findings in the workspace give one that counts them; nothing else gives
/// a warning.
pub proof fn law_finish_warns(workspace: Tree, hygiene: Tree)
    ensures
        ({
            let w = workspace_warnings(workspace);
            let h = hygiene_warnings(hygiene);
            let dirty = workspace.at("clean"@) != Tree::Bool(true);
            let no_git = is_false(workspace.at("git_available"@));
            &&& w.len() == (if dirty {
                1int
            } else {
                0int
            }) + (if no_git {
                1int
            } else {
                0int
            })
            &&& dirty ==> w[0].at("kind"@) == Tree::Text("dirty_worktree"@) && w[0].at(
                "changed_files_count"@,
            ) == kept_count(workspace.at("changed_files_count"@))
            &&& no_git ==> w.last().at("kind"@) == Tree::Text("git_unavailable"@)
            &&& (h.len() > 0) == is_positive(hygiene.at("counts"@).at("findings"@))
            &&& h.len() > 0 ==> h.len() == 1 && h[0].at("kind"@) == Tree::Text(
                "workspace_hygiene_findings"@,
            ) && h[0].at("findings"@) == hygiene.at("counts"@).at("findings"@)
        }),
{
    reveal_strlit("kind");
    reveal_strlit("changed_files_count");
    reveal_strlit("message");
    reveal_strlit("findings");
    assert("kind"@.len() == 4);
    assert("changed_files_count"@.len() == 19);
    assert("message"@.len() == 7);
    assert("findings"@.len() == 8);
}

proof fn lemma_with_if_has(list: Seq<Seq<char>>, wanted: bool, item: Seq<char>)
    ensures
        forall|x: Seq<char>| #[trigger]
            with_if(list, wanted, item).contains(x) <==> list.contains(x) || (wanted && x == item),
        with_if(list, wanted, item).len() > 0 <==> list.len() > 0 || wanted,
{
    let all = list.push(item);
    assert forall|x: Seq<char>| #[trigger]
        with_if(list, wanted, item).contains(x) <==> list.contains(x) || (wanted && x == item) by {
        if wanted && !list.contains(item) {
            if list.contains(x) {
                let i = choose|i: int| 0 <= i < list.len() && list[i] == x;
                assert(all[i] == x);
            }
            assert(all[list.len() as int] == item);
            if all.contains(x) && x != item {
                let i = choose|i: int| 0 <= i < all.len() && all[i] == x;
                assert(list[i] == x);
            }
        }
    }
    if wanted && list.contains(item) {
        let i = choose|i: int| 0 <= i < list.len() && list[i] == item;
        assert(list.len() > 0);
    }
}

proof fn lemma_failure_actions(f: Tree, x: Seq<char>)
    ensures
        ({
            let unexpected = is_positive(f.at("unexpected_count"@));
            let mismatches = is_positive(f.at("expectation_mismatch_count"@));
            let successes = is_positive(f.at("unexpected_success_count"@));
            let matched = is_positive(f.at("expected_count"@)) && !unexpected && !mismatches
                && !successes;
            &&& failure_actions(f).contains(x) <==> {
                ||| unexpected && x == "review unexpected failed tool calls before proceeding"@
                ||| mismatches && x == "review expected failure mismatches before proceeding"@
                ||| successes && x
                    == "review expected-failure assertions that unexpectedly succeeded"@
                ||| matched && x == "expected failure assertions matched"@
            }
            &&& failure_actions(f).len() > 0 <==> unexpected || mismatches || successes || matched
        }),
{
    let unexpected = is_positive(f.at("unexpected_count"@));
    let mismatches = is_positive(f.at("expectation_mismatch_count"@));
    let successes = is_positive(f.at("unexpected_success_count"@));
    let matched = is_positive(f.at("expected_count"@)) && !unexpected && !mismatches && !successes;
    let a0 = Seq::<Seq<char>>::empty();
    let a1 = with_if(a0, unexpected, "review unexpected failed tool calls before proceeding"@);
    let a2 = with_if(a1, mismatches, "review expected failure mismatches before proceeding"@);
    let a3 = with_if(
        a2,
        successes,
        "review expected-failure assertions that unexpectedly succeeded"@,
    );
    lemma_with_if_has(a0, unexpected, "review unexpected failed tool calls before proceeding"@);
    lemma_with_if_has(a1, mismatches, "review expected failure mismatches before proceeding"@);
    lemma_with_if_has(
        a2,
        successes,
        "review expected-failure assertions that unexpectedly succeeded"@,
    );
    lemma_with_if_has(a3, matched, "expected failure assertions matched"@);
}

/// What is suggested at the end of a task follows from what was found: failed calls,
/// changes in the workspace and jobs that block.
pub proof fn law_finish_suggests(output: Tree, x: Seq<char>)
    ensures
        ({
            let f = output.at("tool_failures"@);
            let unexpected = is_positive(f.at("unexpected_count"@));
            let mismatches = is_positive(f.at("expectation_mismatch_count"@));
            let successes = is_positive(f.at("unexpected_success_count"@));
            let matched = is_positive(f.at("expected_count"@)) && !unexpected && !mismatches
                && !successes;
            finish_actions(output).contains(x) <==> {
                ||| unexpected && x == "review unexpected failed tool calls before proceeding"@
                ||| mismatches && x == "review expected failure mismatches before proceeding"@
                ||| successes && x
                    == "review expected-failure assertions that unexpectedly succeeded"@
                ||| matched && x == "expected failure assertions matched"@
                ||| is_false(output.at("workspace"@).at("clean"@)) && x
                    == "review workspace changes with show_changes"@
                ||| is_positive(output.at("jobs"@).at("blocking_active_count"@)) && x
                    == "stop or await blocking active jobs"@
            }
        }),
{
    let a = failure_actions(output.at("tool_failures"@));
    let dirty = is_false(output.at("workspace"@).at("clean"@));
    let b = with_if(a, dirty, "review workspace changes with show_changes"@);
    lemma_failure_actions(output.at("tool_failures"@), x);
    lemma_with_if_has(a, dirty, "review workspace changes with show_changes"@);
    lemma_with_if_has(
        b,
        is_positive(output.at("jobs"@).at("blocking_active_count"@)),
        "stop or await blocking active jobs"@,
    );
}

/// What is suggested to whoever takes a session over follows from what is open: todos,
/// risks and questions, changes in the workspace, a missing checkpoint and failed calls;
/// where nothing is open, that the session is ready.
pub proof fn law_handoff_suggests(output: Tree, x: Seq<char>)
    ensures
        ({
            let f = output.at("tool_failures"@);
            let c = output.at("counts"@);
            let w = output.at("workspace"@);
            let unexpected = is_positive(f.at("unexpected_count"@));
            let mismatches = is_positive(f.at("expectation_mismatch_count"@));
            let successes = is_positive(f.at("unexpected_success_count"@));
            let matched = is_positive(f.at("expected_count"@)) && !unexpected && !mismatches
                && !successes;
            let todos = is_positive(c.at("open_todos"@));
            let risks = is_positive(c.at("open_risks"@));
            let questions = is_positive(c.at("open_questions"@));
            let dirty = w.at("git_available"@) == Tree::Bool(true) && is_false(w.at("clean"@));
            let no_checkpoint = output.get("checkpoints"@) is Some && output.at("checkpoints"@).at(
                "latest_last_known_good"@,
            ) == Tree::Null;
            let any = unexpected || mismatches || successes || matched || todos || risks
                || questions || dirty || no_checkpoint;
            handoff_actions(output).contains(x) <==> {
                ||| unexpected && x == "review unexpected failed tool calls before proceeding"@
                ||| mismatches && x == "review expected failure mismatches before proceeding"@
                ||| successes && x
                    == "review expected-failure assertions that unexpectedly succeeded"@
                ||| matched && x == "expected failure assertions matched"@
                ||| todos && x == "address open todos"@
                ||| risks && x == "mitigate open risks"@
                ||| questions && x == "answer open questions"@
                ||| dirty && x == "review workspace changes with show_changes"@
                ||| no_checkpoint && x == "consider creating a last_known_good checkpoint"@
                ||| !any && x == "session is ready for handoff; proceed with the next task step"@
            }
        }),
{
    let c = output.at("counts"@);
    let w = output.at("workspace"@);
    let todos = is_positive(c.at("open_todos"@));
    let risks = is_positive(c.at("open_risks"@));
    let questions = is_positive(c.at("open_questions"@));
    let dirty = w.at("git_available"@) == Tree::Bool(true) && is_false(w.at("clean"@));
    let no_checkpoint = output.get("checkpoints"@) is Some && output.at("checkpoints"@).at(
        "latest_last_known_good"@,
    ) == Tree::Null;
    let a0 = failure_actions(output.at("tool_failures"@));
    let a1 = with_if(a0, todos, "address open todos"@);
    let a2 = with_if(a1, risks, "mitigate open risks"@);
    let a3 = with_if(a2, questions, "answer open questions"@);
    let a4 = with_if(a3, dirty, "review workspace changes with show_changes"@);
    let a5 = with_if(a4, no_checkpoint, "consider creating a last_known_good checkpoint"@);
    lemma_failure_actions(output.at("tool_failures"@), x);
    lemma_with_if_has(a0, todos, "address open todos"@);
    lemma_with_if_has(a1, risks, "mitigate open risks"@);
    lemma_with_if_has(a2, questions, "answer open questions"@);
    lemma_with_if_has(a3, dirty, "review workspace changes with show_changes"@);
    lemma_with_if_has(a4, no_checkpoint, "consider creating a last_known_good checkpoint"@);
    if a5.len() == 0 {
        let last = "session is ready for handoff; proceed with the next task step"@;
        assert(a5.push(last)[0] == last);
        assert(a5.push(last) =~= seq![last]);
        if a5.push(last).contains(x) {
            let i = choose|i: int| 0 <= i < a5.push(last).len() && a5.push(last)[i] == x;
            assert(i == 0);
        }
    }
}

/// The checkpoints that are handed over: the ten first in the list, and the one that is to
/// be preferred among those that are known to be good, where there is one.
pub proof fn law_checkpoints_are_told(list: ToolModel, i: int)
    ensures
        ({
            let t = checkpoints_tree(list);
            let all = list.output.at("checkpoints"@).items();
            let recent = t.at("recent"@);
            &&& recent is Array
            &&& !list.success ==> recent->Array_0.len() == 0 && t.at("latest_last_known_good"@)
                == Tree::Null
            &&& list.success ==> {
                &&& recent->Array_0.len() == if all.len() <= 10 {
                    all.len()
                } else {
                    10
                }
                &&& 0 <= i < recent->Array_0.len() ==> recent->Array_0[i].at("checkpoint_id"@)
                    == all[i].at("checkpoint_id"@) && recent->Array_0[i].at("kind"@) == all[i].at(
                    "kind"@,
                )
                &&& latest_good(all) is Some ==> t.at("latest_last_known_good"@).at(
                    "checkpoint_id"@,
                ) == latest_good(all)->0.at("checkpoint_id"@)
                &&& latest_good(all) is None ==> t.at("latest_last_known_good"@) == Tree::Null
            }
        }),
{
    reveal_strlit("latest_last_known_good");
    reveal_strlit("recent");
    assert("latest_last_known_good"@.len() == 22 && "recent"@.len() == 6);
    let all = list.output.at("checkpoints"@).items();
    if list.success {
        if latest_good(all) is Some {
            lemma_checkpoint_told(latest_good(all)->0, true);
        }
        if 0 <= i < all.len() {
            lemma_checkpoint_told(all[i], false);
        }
    } else {
        assert(latest_good(Seq::<Tree>::empty()) is None);
    }
}

proof fn lemma_checkpoint_told(c: Tree, labels: bool)
    ensures
        checkpoint_tree(c, labels).at("checkpoint_id"@) == c.at("checkpoint_id"@),
        checkpoint_tree(c, labels).at("kind"@) == c.at("kind"@),
        checkpoint_tree(c, labels).at("created_at"@) == c.at("created_at"@),
        checkpoint_tree(c, labels).at("title"@) == c.at("title"@),
{
    reveal_strlit("checkpoint_id");
    reveal_strlit("kind");
    reveal_strlit("labels");
    reveal_strlit("validation_status");
    reveal_strlit("created_at");
    reveal_strlit("title");
    assert("checkpoint_id"@.len() == 13);
    assert("kind"@.len() == 4);
    assert("labels"@.len() == 6);
    assert("validation_status"@.len() == 17);
    assert("created_at"@.len() == 10);
    assert("title"@.len() == 5);
}

/// The last known good checkpoint is one whose validation passed, where there is one, and
/// among those the one that was made last.
pub proof fn law_preferred_checkpoint(s: Seq<Tree>, i: int)
    requires
        0 <= i < s.len(),
        s[i].at("kind"@) == Tree::Text("last_known_good"@),
    ensures
        latest_good(s) is Some,
        latest_good(s)->0.at("kind"@) == Tree::Text("last_known_good"@),
        s[i].at("validation_status"@) == Tree::Text("passed"@) ==> latest_good(s)->0.at(
            "validation_status"@,
        ) == Tree::Text("passed"@),
        s[i].at("validation_status"@) == latest_good(s)->0.at("validation_status"@)
            && s[i].at("created_at"@) is Number && latest_good(s)->0.at("created_at"@) is Number
            && i64::MIN <= s[i].at("created_at"@)->Number_0 <= i64::MAX && i64::MIN
            <= latest_good(s)->0.at("created_at"@)->Number_0 <= i64::MAX ==> s[i].at(
            "created_at"@,
        )->Number_0 <= latest_good(s)->0.at("created_at"@)->Number_0,
{
    crate::tool_runtime::handoff::law_latest_good(s);
    assert(crate::tool_runtime::handoff::is_known_good(s[i]));
}

/// Of the rules of a project the first headings and the first lines that say something are
/// told, each without the white space around it and up to 180 characters.
pub proof fn law_rules_are_shown(lines: Seq<Seq<char>>, line: Seq<char>, headings: bool, max: nat)
    requires
        max > 0,
    ensures
        ({
            let shown = if headings {
                "#"@.is_prefix_of(trim(line))
            } else {
                trim(line).len() > 0
            };
            let all = shown_lines(seq![line] + lines, headings, max);
            &&& shown ==> {
                &&& all.len() > 0
                &&& trim(line).len() <= 180 ==> all[0] == trim(line)
                &&& trim(line).len() > 180 ==> all[0] == trim(line).take(180)
                &&& all.skip(1) == shown_lines(lines, headings, (max - 1) as nat)
            }
            &&& !shown ==> all == shown_lines(lines, headings, max)
        }),
        shown_lines(lines, headings, 0).len() == 0,
{
    let every = seq![line] + lines;
    assert(every[0] == line);
    assert(every.skip(1) =~= lines);
    let all = shown_lines(every, headings, max);
    if crate::tool_runtime::coding_task::is_shown(trim(line), headings) {
        assert(all.skip(1) =~= shown_lines(lines, headings, (max - 1) as nat));
    }
}

} // verus!
