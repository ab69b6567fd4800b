//! When a task can start, by what is known of the runtime, the workspace and the agents.
use crate::json::{law_put_get, lemma_find_push, text_trees, Tree};
use crate::tool_runtime::coding_task::{
    action_for, agent_check, check_actions, check_tree, clean_check, jobs_check, manifest_check,
    resolved_project_payload_tree, runtime_check, startup_checks, startup_tree, worst_status,
    CheckModel, StartupRequest,
};
use crate::tool_runtime::coding_task_results::{
    git_summary_tree, no_git_summary, start_base, start_request, start_tree, with_commits,
    with_overview, StartTaskInputs,
};
use crate::tool_runtime::handoff_summary::with_part;
use crate::tool_runtime::project_resolution::{Executor, ResolvedModel};
use crate::tool_runtime::types::{ToolModel, ToolResult};
use crate::tool_runtime::verdict_laws::{is_false, is_positive, lists};
use vstd::prelude::*;

verus! {

broadcast use lemma_find_push;

/// How many agents are online: the number in the summary, or else the one beside it.
pub open spec fn nobody_online(output: Tree) -> bool {
    let agents = output.at("runtime_status"@).at("agents"@);
    match agents.at("summary"@).get("online"@) {
        Some(n) => n == Tree::Number(0),
        None => agents.at("online_count"@) == Tree::Number(0),
    }
}

/// Whether it is known how many agents are online.
pub open spec fn agents_known(output: Tree) -> bool {
    let agents = output.at("runtime_status"@).at("agents"@);
    let n = match agents.at("summary"@).get("online"@) {
        Some(n) => n,
        None => agents.at("online_count"@),
    };
    n is Number && 0 <= n->Number_0 <= u64::MAX
}

/// Whether something keeps a task from starting: a runtime that does not answer or has no
/// tools, a workspace with changes, jobs that block, no agent for a project that needs one,
/// or no list of tools.
pub open spec fn cannot_start(output: Tree, q: StartupRequest) -> bool {
    let status = output.at("runtime_status"@);
    let git = output.at("git"@);
    ||| q.runtime_status && (q.runtime_status_failed || !(status is Object) || status.at(
        "tools"@,
    ).at("count"@) == Tree::Number(0))
    ||| q.git && !is_false(git.at("available"@)) && is_false(git.at("clean"@))
    ||| q.runtime_status && is_positive(status.at("jobs"@).at("blocking_active_count"@))
    ||| q.runtime_status && output.at("resolved_project"@).at("executor"@) == Tree::Text("agent"@)
        && nobody_online(output)
    ||| q.tool_manifest && !(output.at("tool_manifest"@) is Object)
}

/// Whether everything was looked up and found in order.
pub open spec fn is_all_in_order(output: Tree, q: StartupRequest) -> bool {
    let status = output.at("runtime_status"@);
    let git = output.at("git"@);
    let executor = output.at("resolved_project"@).at("executor"@);
    let manifest = output.at("tool_manifest"@);
    &&& q.runtime_status && q.git && q.tool_manifest
    &&& !q.runtime_status_failed
    &&& status is Object
    &&& is_positive(status.at("tools"@).at("count"@))
    &&& !is_false(git.at("available"@))
    &&& git.at("clean"@) == Tree::Bool(true)
    &&& !is_positive(status.at("jobs"@).at("blocking_active_count"@))
    &&& status.at("jobs"@).at("active_count"@) == Tree::Number(0)
    &&& executor == Tree::Text("local"@) || (agents_known(output) && !(executor == Tree::Text(
        "agent"@,
    ) && nobody_online(output)))
    &&& manifest is Object
    &&& manifest.at("truncated"@) != Tree::Bool(true)
}

/// A start fails exactly where something keeps the task from starting, and passes exactly
/// where everything was looked up and found in order; else it warns.
pub proof fn law_start_is_checked(output: Tree, q: StartupRequest)
    ensures
        ({
            let v = startup_tree(output, q);
            &&& v.at("status"@) == Tree::Text("fail"@) <==> cannot_start(output, q)
            &&& v.at("blocking"@) == Tree::Bool(cannot_start(output, q))
            &&& v.at("status"@) == Tree::Text("pass"@) <==> is_all_in_order(output, q)
            &&& !cannot_start(output, q) && !is_all_in_order(output, q) ==> v.at("status"@)
                == Tree::Text("warn"@)
        }),
{
    lemma_startup_fields(output, q);
    let checks = startup_checks(output, q);
    reveal_strlit("pass");
    reveal_strlit("warn");
    reveal_strlit("fail");
    assert("pass"@.len() == 4 && "pass"@[0] == 'p');
    assert("warn"@.len() == 4 && "warn"@[0] == 'w');
    assert("fail"@.len() == 4 && "fail"@[0] == 'f');
    reveal_strlit("agent");
    reveal_strlit("local");
    reveal_strlit("limit");
    assert("agent"@.len() == 5 && "agent"@[0] == 'a');
    assert("local"@.len() == 5 && "local"@[0] == 'l' && "local"@[1] == 'o');
    assert("limit"@.len() == 5 && "limit"@[0] == 'l' && "limit"@[1] == 'i');
    assert(checks.len() == 5);
    let c0 = runtime_check(output, q.runtime_status, q.runtime_status_failed);
    let c1 = clean_check(output, q.git);
    let c2 = jobs_check(output, q.runtime_status);
    let c3 = agent_check(output, q.runtime_status);
    let c4 = manifest_check(output, q.tool_manifest);
    assert(checks[0] == c0 && checks[1] == c1 && checks[2] == c2 && checks[3] == c3 && checks[4]
        == c4);
    assert(c0.status == "fail"@ <==> q.runtime_status && (q.runtime_status_failed || !(output.at(
        "runtime_status"@,
    ) is Object) || output.at("runtime_status"@).at("tools"@).at("count"@) == Tree::Number(0)));
    assert(c1.status == "fail"@ <==> q.git && !is_false(output.at("git"@).at("available"@))
        && is_false(output.at("git"@).at("clean"@)));
    assert(c2.status == "fail"@ <==> q.runtime_status && is_positive(
        output.at("runtime_status"@).at("jobs"@).at("blocking_active_count"@),
    ));
    assert(c3.status == "fail"@ <==> q.runtime_status && output.at("resolved_project"@).at(
        "executor"@,
    ) == Tree::Text("agent"@) && nobody_online(output));
    assert(c4.status == "fail"@ <==> q.tool_manifest && !(output.at("tool_manifest"@) is Object));
    lemma_worst(checks);
    assert(c0.status == "pass"@ || c0.status == "warn"@ || c0.status == "fail"@);
    assert(c1.status == "pass"@ || c1.status == "warn"@ || c1.status == "fail"@);
    assert(c2.status == "pass"@ || c2.status == "warn"@ || c2.status == "fail"@);
    assert(c3.status == "pass"@ || c3.status == "warn"@ || c3.status == "fail"@);
    assert(c4.status == "pass"@ || c4.status == "warn"@ || c4.status == "fail"@);
    assert(is_all_in_order(output, q) <==> c0.status == "pass"@ && c1.status == "pass"@ && c2.status
        == "pass"@ && c3.status == "pass"@ && c4.status == "pass"@);
}

proof fn lemma_worst(checks: Seq<CheckModel>)
    requires
        checks.len() == 5,
    ensures
        worst_status(checks) == if checks[0].status == "fail"@ || checks[1].status == "fail"@
            || checks[2].status == "fail"@ || checks[3].status == "fail"@ || checks[4].status
            == "fail"@ {
            "fail"@
        } else if checks[0].status == "warn"@ || checks[1].status == "warn"@ || checks[2].status
            == "warn"@ || checks[3].status == "warn"@ || checks[4].status == "warn"@ {
            "warn"@
        } else {
            "pass"@
        },
{
    if exists|i: int| 0 <= i < checks.len() && (#[trigger] checks[i]).status == "fail"@ {
        let i = choose|i: int| 0 <= i < checks.len() && (#[trigger] checks[i]).status == "fail"@;
        assert(i == 0 || i == 1 || i == 2 || i == 3 || i == 4);
    }
    if exists|i: int| 0 <= i < checks.len() && (#[trigger] checks[i]).status == "warn"@ {
        let i = choose|i: int| 0 <= i < checks.len() && (#[trigger] checks[i]).status == "warn"@;
        assert(i == 0 || i == 1 || i == 2 || i == 3 || i == 4);
    }
}

proof fn lemma_startup_fields(output: Tree, q: StartupRequest)
    ensures
        ({
            let v = startup_tree(output, q);
            let checks = startup_checks(output, q);
            let actions = check_actions(checks);
            &&& v.at("status"@) == Tree::Text(worst_status(checks))
            &&& v.at("blocking"@) == Tree::Bool(worst_status(checks) == "fail"@)
            &&& v.at("checks"@) is Array
            &&& v.at("checks"@)->Array_0 =~= seq![
                check_tree("runtime_status"@, checks[0]),
                check_tree("workspace"@, checks[1]),
                check_tree("jobs"@, checks[2]),
                check_tree("agent"@, checks[3]),
                check_tree("tool_manifest"@, checks[4]),
            ]
            &&& v.at("suggested_next_actions"@) == text_trees(
                if actions.len() == 0 {
                    actions.push("proceed with the coding task using the explicit session_id"@)
                } else {
                    actions
                },
            )
        }),
{
    reveal_strlit("status");
    reveal_strlit("blocking");
    reveal_strlit("checks");
    reveal_strlit("suggested_next_actions");
    assert("status"@.len() == 6 && "status"@[0] == 's');
    assert("blocking"@.len() == 8);
    assert("checks"@.len() == 6 && "checks"@[0] == 'c');
    assert("suggested_next_actions"@.len() == 22);
}

/// Whether a check is told under its name with the status and the reason.
pub open spec fn tells_check(t: Tree, name: Seq<char>, status: Seq<char>, reason: Seq<char>) -> bool {
    &&& t.at("name"@) == Tree::Text(name)
    &&& t.at("status"@) == Tree::Text(status)
    &&& reason.len() > 0 ==> t.at("reason"@) == Tree::Text(reason)
    &&& reason.len() == 0 ==> t.get("reason"@) is None
}

proof fn lemma_check_told(name: Seq<char>, c: CheckModel)
    ensures
        tells_check(check_tree(name, c), name, c.status, c.reason),
{
    reveal_strlit("name");
    reveal_strlit("status");
    reveal_strlit("reason");
    assert("name"@.len() == 4);
    assert("status"@.len() == 6 && "status"@[0] == 's');
    assert("reason"@.len() == 6 && "reason"@[0] == 'r');
}

/// Every check of a start is told in its place, with what it found.
pub proof fn law_checks_are_told(output: Tree, q: StartupRequest)
    ensures
        ({
            let told = startup_tree(output, q).at("checks"@)->Array_0;
            let status = output.at("runtime_status"@);
            let git = output.at("git"@);
            let jobs = status.at("jobs"@);
            let executor = output.at("resolved_project"@).at("executor"@);
            let manifest = output.at("tool_manifest"@);
            &&& told.len() == 5
            &&& !q.runtime_status ==> tells_check(
                told[0],
                "runtime_status"@,
                "warn"@,
                "runtime_status_not_requested"@,
            )
            &&& q.runtime_status && q.runtime_status_failed ==> tells_check(
                told[0],
                "runtime_status"@,
                "fail"@,
                "runtime_status_call_failed"@,
            )
            &&& q.runtime_status && !q.runtime_status_failed && status is Object && is_positive(
                status.at("tools"@).at("count"@),
            ) ==> tells_check(told[0], "runtime_status"@, "pass"@, ""@)
            &&& !q.git ==> tells_check(told[1], "workspace"@, "warn"@, "workspace_not_checked"@)
            &&& q.git && is_false(git.at("available"@)) ==> tells_check(
                told[1],
                "workspace"@,
                "warn"@,
                "git_unavailable"@,
            )
            &&& q.git && !is_false(git.at("available"@)) && is_false(git.at("clean"@))
                ==> tells_check(told[1], "workspace"@, "fail"@, "workspace_dirty"@)
            &&& q.git && !is_false(git.at("available"@)) && git.at("clean"@) == Tree::Bool(true)
                ==> tells_check(told[1], "workspace"@, "pass"@, ""@)
            &&& q.runtime_status && is_positive(jobs.at("blocking_active_count"@)) ==> tells_check(
                told[2],
                "jobs"@,
                "fail"@,
                "blocking_active_jobs"@,
            )
            &&& q.runtime_status && !is_positive(jobs.at("blocking_active_count"@)) && is_positive(
                jobs.at("active_count"@),
            ) ==> tells_check(told[2], "jobs"@, "warn"@, "active_jobs_present"@)
            &&& q.runtime_status && !is_positive(jobs.at("blocking_active_count"@)) && jobs.at(
                "active_count"@,
            ) == Tree::Number(0) ==> tells_check(told[2], "jobs"@, "pass"@, ""@)
            &&& q.runtime_status && executor == Tree::Text("agent"@) && nobody_online(output)
                ==> tells_check(told[3], "agent"@, "fail"@, "agent_offline"@)
            &&& q.runtime_status && executor == Tree::Text("local"@) ==> tells_check(
                told[3],
                "agent"@,
                "pass"@,
                ""@,
            )
            &&& !q.tool_manifest ==> tells_check(
                told[4],
                "tool_manifest"@,
                "warn"@,
                "tool_manifest_not_requested"@,
            )
            &&& q.tool_manifest && !(manifest is Object) ==> tells_check(
                told[4],
                "tool_manifest"@,
                "fail"@,
                "tool_manifest_unavailable"@,
            )
            &&& q.tool_manifest && manifest is Object && manifest.at("truncated"@) != Tree::Bool(
                true,
            ) ==> tells_check(told[4], "tool_manifest"@, "pass"@, ""@)
        }),
{
    lemma_startup_fields(output, q);
    let checks = startup_checks(output, q);
    lemma_check_told("runtime_status"@, checks[0]);
    lemma_check_told("workspace"@, checks[1]);
    lemma_check_told("jobs"@, checks[2]);
    lemma_check_told("agent"@, checks[3]);
    lemma_check_told("tool_manifest"@, checks[4]);
    reveal_strlit("agent");
    reveal_strlit("local");
    assert("agent"@.len() == 5 && "agent"@[0] == 'a');
    assert("local"@.len() == 5 && "local"@[0] == 'l');
}

/// What a start suggests: for each thing that is wrong what to do about it, and to go on
/// exactly where there is nothing to do.
pub proof fn law_start_suggests(output: Tree, q: StartupRequest)
    ensures
        ({
            let v = startup_tree(output, q);
            let said = v.at("suggested_next_actions"@);
            let git = output.at("git"@);
            &&& said is Array && said->Array_0.len() > 0
            &&& q.git && !is_false(git.at("available"@)) && is_false(git.at("clean"@)) ==> lists(
                said,
                "review workspace changes with show_changes"@,
            )
            &&& q.runtime_status && is_positive(
                output.at("runtime_status"@).at("jobs"@).at("blocking_active_count"@),
            ) ==> lists(said, "inspect active jobs before proceeding"@)
            &&& q.runtime_status && output.at("resolved_project"@).at("executor"@) == Tree::Text(
                "agent"@,
            ) && nobody_online(output) ==> lists(said, "check agent connectivity with list_agents"@)
            &&& q.runtime_status && q.runtime_status_failed ==> lists(
                said,
                "inspect runtime_status directly"@,
            )
            &&& q.tool_manifest && !(output.at("tool_manifest"@) is Object) ==> lists(
                said,
                "inspect tool_manifest directly"@,
            )
            &&& is_all_in_order(output, q) ==> lists(
                said,
                "proceed with the coding task using the explicit session_id"@,
            ) && said->Array_0.len() == 1
        }),
{
    lemma_startup_fields(output, q);
    let checks = startup_checks(output, q);
    let actions = check_actions(checks);
    reveal_strlit("agent");
    reveal_strlit("local");
    assert("agent"@.len() == 5 && "agent"@[0] == 'a');
    assert("local"@.len() == 5 && "local"@[0] == 'l');
    reveal_strlit("runtime_status_not_requested");
    reveal_strlit("runtime_status_call_failed");
    reveal_strlit("workspace_not_checked");
    reveal_strlit("workspace_dirty");
    reveal_strlit("active_jobs_present");
    reveal_strlit("blocking_active_jobs");
    reveal_strlit("agent_offline");
    reveal_strlit("tool_manifest_not_requested");
    reveal_strlit("truncated_by_limit");
    reveal_strlit("tool_manifest_unavailable");
    assert("runtime_status_not_requested"@.len() == 28);
    assert("runtime_status_call_failed"@.len() == 26);
    assert("workspace_not_checked"@.len() == 21);
    assert("workspace_dirty"@.len() == 15);
    assert("active_jobs_present"@.len() == 19);
    assert("blocking_active_jobs"@.len() == 20);
    assert("agent_offline"@.len() == 13);
    assert("tool_manifest_not_requested"@.len() == 27);
    assert("truncated_by_limit"@.len() == 18);
    assert("tool_manifest_unavailable"@.len() == 25);
    reveal_strlit("");
    lemma_actions_hold(checks);
    if actions.len() == 0 {
        let last = "proceed with the coding task using the explicit session_id"@;
        assert(actions.push(last)[0] == last);
        assert(text_trees(actions.push(last))->Array_0[0] == Tree::Text(last));
    }
    if is_all_in_order(output, q) {
        assert(checks[0].reason == ""@ && checks[1].reason == ""@ && checks[2].reason == ""@
            && checks[3].reason == ""@ && checks[4].reason == ""@);
        assert(actions.len() == 0);
    }
    assert(checks[1].reason == "workspace_dirty"@ ==> action_for(checks[1].reason) == Some(
        "review workspace changes with show_changes"@,
    ));
    lemma_listed(actions, "review workspace changes with show_changes"@);
    lemma_listed(actions, "inspect active jobs before proceeding"@);
    lemma_listed(actions, "check agent connectivity with list_agents"@);
    lemma_listed(actions, "inspect runtime_status directly"@);
    lemma_listed(actions, "inspect tool_manifest directly"@);
}

proof fn lemma_listed(list: Seq<Seq<char>>, word: Seq<char>)
    ensures
        list.contains(word) ==> lists(text_trees(list), word) && list.len() > 0,
{
    if list.contains(word) {
        let i = choose|i: int| 0 <= i < list.len() && list[i] == word;
        assert(text_trees(list)->Array_0[i] == Tree::Text(word));
    }
}

proof fn lemma_actions_hold(checks: Seq<CheckModel>)
    ensures
        forall|i: int|
            0 <= i < checks.len() && action_for((#[trigger] checks[i]).reason) is Some
                ==> check_actions(checks).contains(action_for(checks[i].reason)->0),
        (forall|i: int| 0 <= i < checks.len() ==> action_for((#[trigger] checks[i]).reason) is None)
            ==> check_actions(checks).len() == 0,
    decreases checks.len(),
{
    if checks.len() > 0 {
        let front = checks.drop_last();
        lemma_actions_hold(front);
        let before = check_actions(front);
        let all = check_actions(checks);
        let a = action_for(checks.last().reason);
        assert forall|x: Seq<char>| before.contains(x) implies #[trigger] all.contains(x) by {
            let k = choose|k: int| 0 <= k < before.len() && before[k] == x;
            if a is Some && !before.contains(a->0) {
                assert(all[k] == x);
            }
        }
        if a is Some && !before.contains(a->0) {
            assert(all[before.len() as int] == a->0);
        }
        assert forall|i: int|
            0 <= i < checks.len() && action_for((#[trigger] checks[i]).reason) is Some implies all.contains(
            action_for(checks[i].reason)->0,
        ) by {
            if i < front.len() {
                assert(front[i] == checks[i]);
                assert(before.contains(action_for(front[i].reason)->0));
            } else {
                assert(checks[i] == checks.last());
            }
        }
        if forall|i: int| 0 <= i < checks.len() ==> action_for((#[trigger] checks[i]).reason) is None {
            assert(action_for(checks[checks.len() - 1].reason) is None);
            assert forall|i: int| 0 <= i < front.len() implies action_for(
                (#[trigger] front[i]).reason,
            ) is None by {
                assert(front[i] == checks[i]);
            }
        }
    }
}

// ---------------------------------------------------------------------------
// The start of a task
// ---------------------------------------------------------------------------

proof fn lemma_git_overview(git: Tree, show: ToolModel)
    requires
        git is Object,
    ensures
        ({
            let t = with_overview(git, show);
            &&& t is Object
            &&& t.at("available"@) == Tree::Bool(
                match show.output.at("git_available"@) {
                    Tree::Bool(b) => b,
                    _ => show.success,
                },
            )
            &&& t.at("branch"@) == show.output.at("branch"@)
            &&& t.at("head"@) == show.output.at("head"@)
            &&& t.at("clean"@) == show.output.at("clean"@)
            &&& t.at("show_changes"@) == show.output
        }),
{
    reveal_strlit("available");
    reveal_strlit("branch");
    reveal_strlit("head");
    reveal_strlit("clean");
    reveal_strlit("counts");
    reveal_strlit("changed_files_count");
    reveal_strlit("warnings");
    reveal_strlit("show_changes");
    assert("available"@.len() == 9);
    assert("branch"@.len() == 6 && "branch"@[0] == 'b');
    assert("head"@.len() == 4);
    assert("clean"@.len() == 5);
    assert("counts"@.len() == 6 && "counts"@[0] == 'c');
    assert("changed_files_count"@.len() == 19);
    assert("warnings"@.len() == 8);
    assert("show_changes"@.len() == 12);
    let o = show.output;
    let v0 = Tree::Bool(crate::tool_runtime::handoff::bool_or(o.at("git_available"@), show.success));
    let v4 = crate::json::tree_or(o.get("counts"@), Tree::Object(Seq::empty()));
    let v5 = Tree::Number(crate::tool_runtime::coding_task::counts_sum(o.at("counts"@)));
    let v6 = crate::json::tree_or(o.get("warnings"@), Tree::Array(Seq::empty()));
    let t0 = git.put("available"@, v0);
    let t1 = t0.put("branch"@, o.at("branch"@));
    let t2 = t1.put("head"@, o.at("head"@));
    let t3 = t2.put("clean"@, o.at("clean"@));
    let t4 = t3.put("counts"@, v4);
    let t5 = t4.put("changed_files_count"@, v5);
    let t6 = t5.put("warnings"@, v6);
    assert forall|x: Seq<char>|
        #![trigger t6.put("show_changes"@, o).get(x)]
        (x == "available"@ || x == "branch"@ || x == "head"@ || x == "clean"@) implies t6.put(
        "show_changes"@,
        o,
    ).get(x) == t3.get(x) by {
        law_put_get(t3, "counts"@, v4, x);
        law_put_get(t4, "changed_files_count"@, v5, x);
        law_put_get(t5, "warnings"@, v6, x);
        law_put_get(t6, "show_changes"@, o, x);
    }
    law_put_get(t6, "show_changes"@, o, "show_changes"@);
    law_put_get(git, "available"@, v0, "available"@);
    law_put_get(t0, "branch"@, o.at("branch"@), "available"@);
    law_put_get(t1, "head"@, o.at("head"@), "available"@);
    law_put_get(t2, "clean"@, o.at("clean"@), "available"@);
    law_put_get(t1, "head"@, o.at("head"@), "branch"@);
    law_put_get(t2, "clean"@, o.at("clean"@), "branch"@);
    law_put_get(t2, "clean"@, o.at("clean"@), "head"@);
    let t = with_overview(git, show);
    assert(t == t6.put("show_changes"@, o));
    assert(t.get("available"@) == Some(v0));
    assert(t.get("branch"@) == Some(o.at("branch"@)));
    assert(t.get("head"@) == Some(o.at("head"@)));
    assert(t.get("clean"@) == Some(o.at("clean"@)));
}

proof fn lemma_commits_keep(git: Tree, log: ToolModel)
    requires
        git is Object,
    ensures
        ({
            let t = with_commits(git, log);
            &&& t.at("available"@) == git.at("available"@)
            &&& t.at("branch"@) == git.at("branch"@)
            &&& t.at("head"@) == git.at("head"@)
            &&& t.at("clean"@) == git.at("clean"@)
            &&& log.success && log.output.get("commits"@) is Some ==> t.at("recent_commits"@)
                == log.output.at("commits"@)
            &&& !log.success ==> t.at("recent_commits"@) == Tree::Array(Seq::empty())
        }),
{
    reveal_strlit("available");
    reveal_strlit("branch");
    reveal_strlit("head");
    reveal_strlit("clean");
    reveal_strlit("recent_commits");
    reveal_strlit("recent_commits_truncated");
    assert("available"@.len() == 9);
    assert("branch"@.len() == 6);
    assert("head"@.len() == 4);
    assert("clean"@.len() == 5);
    assert("recent_commits"@.len() == 14);
    assert("recent_commits_truncated"@.len() == 24);
    let (a, b) = if log.success {
        (
            crate::json::tree_or(log.output.get("commits"@), Tree::Array(Seq::empty())),
            crate::json::tree_or(log.output.get("truncated"@), Tree::Bool(false)),
        )
    } else {
        (Tree::Array(Seq::empty()), Tree::Bool(false))
    };
    let t = git.put("recent_commits"@, a);
    law_put_get(git, "recent_commits"@, a, "available"@);
    law_put_get(git, "recent_commits"@, a, "branch"@);
    law_put_get(git, "recent_commits"@, a, "head"@);
    law_put_get(git, "recent_commits"@, a, "clean"@);
    law_put_get(t, "recent_commits_truncated"@, b, "available"@);
    law_put_get(t, "recent_commits_truncated"@, b, "branch"@);
    law_put_get(t, "recent_commits_truncated"@, b, "head"@);
    law_put_get(t, "recent_commits_truncated"@, b, "clean"@);
    law_put_get(t, "recent_commits_truncated"@, b, "recent_commits"@);
}

/// The state of git at the start is that of the overview, where it was looked up.
pub proof fn law_start_tells_git(show: ToolResult, log: Option<ToolResult>)
    ensures
        ({
            let t = git_summary_tree(Some(show), log);
            let o = show.output@;
            &&& t.at("clean"@) == o.at("clean"@)
            &&& t.at("branch"@) == o.at("branch"@)
            &&& t.at("head"@) == o.at("head"@)
            &&& t.at("available"@) == Tree::Bool(
                match o.at("git_available"@) {
                    Tree::Bool(b) => b,
                    _ => show.success,
                },
            )
            &&& log is Some && log->0.success && log->0.output@.get("commits"@) is Some ==> t.at(
                "recent_commits"@,
            ) == log->0.output@.at("commits"@)
        }),
{
    lemma_git_overview(no_git_summary(), show@);
    if log is Some {
        lemma_commits_keep(with_overview(no_git_summary(), show@), log->0@);
    }
}

/// The start of a task tells what was looked up, each part under its name.
pub proof fn law_start_tells_parts(p: StartTaskInputs)
    ensures
        ({
            let r = start_tree(p);
            &&& r.at("project"@) == Tree::Text(p.project@)
            &&& r.at("resolved_project"@).at("id"@) == Tree::Text(p.resolved.resolved_id@)
            &&& r.at("resolved_project"@).at("path"@) == Tree::Text(p.resolved.config.path@)
            &&& r.at("resolved_project"@).at("executor"@) == Tree::Text(
                if p.resolved.config.executor == Executor::Agent {
                    "agent"@
                } else {
                    "local"@
                },
            )
            &&& r.at("session"@).at("session_id"@) == Tree::Text(p.session_id@)
            &&& r.at("session"@).at("mode"@) == p.mode@
            &&& r.at("session"@).at("guards"@) == p.guards@
            &&& r.at("permissions"@) == p.permissions@
            &&& p.runtime_status is Some && !p.compact_startup ==> r.at("runtime_status"@)
                == p.runtime_status->0.output@
            &&& p.runtime_status is None ==> r.at("runtime_status"@) == Tree::Null
            &&& p.show_changes is Some ==> r.at("git"@) == git_summary_tree(
                p.show_changes,
                p.recent_commits,
            )
            &&& p.show_changes is None && p.recent_commits is None ==> r.at("git"@) == Tree::Null
            &&& r.get("tool_manifest"@) == match p.tool_manifest {
                Some(m) => Some(m@),
                None => None::<Tree>,
            }
            &&& r.at("startup_verdict"@) == startup_tree(start_base(p), start_request(p))
        }),
{
    lemma_start_base(p);
    let base = start_base(p);
    let v = startup_tree(base, start_request(p));
    reveal_strlit("project");
    reveal_strlit("resolved_project");
    reveal_strlit("session");
    reveal_strlit("runtime_status");
    reveal_strlit("permissions");
    reveal_strlit("rules");
    reveal_strlit("git");
    reveal_strlit("recommended_flow");
    reveal_strlit("deterministic");
    reveal_strlit("llm_summary");
    reveal_strlit("warnings");
    reveal_strlit("tool_manifest");
    reveal_strlit("startup_verdict");
    assert("project"@.len() == 7 && "project"@[0] == 'p');
    assert("resolved_project"@.len() == 16 && "resolved_project"@[2] == 's');
    assert("session"@.len() == 7 && "session"@[0] == 's');
    assert("runtime_status"@.len() == 14);
    assert("permissions"@.len() == 11 && "permissions"@[0] == 'p');
    assert("rules"@.len() == 5);
    assert("git"@.len() == 3);
    assert("recommended_flow"@.len() == 16 && "recommended_flow"@[2] == 'c');
    assert("deterministic"@.len() == 13 && "deterministic"@[0] == 'd');
    assert("llm_summary"@.len() == 11 && "llm_summary"@[0] == 'l');
    assert("warnings"@.len() == 8);
    assert("tool_manifest"@.len() == 13 && "tool_manifest"@[0] == 't');
    assert("startup_verdict"@.len() == 15);
    law_put_get(base, "startup_verdict"@, v, "startup_verdict"@);
    law_put_get(base, "startup_verdict"@, v, "project"@);
    law_put_get(base, "startup_verdict"@, v, "resolved_project"@);
    law_put_get(base, "startup_verdict"@, v, "session"@);
    law_put_get(base, "startup_verdict"@, v, "permissions"@);
    law_put_get(base, "startup_verdict"@, v, "runtime_status"@);
    law_put_get(base, "startup_verdict"@, v, "git"@);
    law_put_get(base, "startup_verdict"@, v, "tool_manifest"@);
    lemma_project_told(p.resolved@);
    assert(crate::tool_runtime::coding_task_results::start_session_tree(p).at("session_id"@)
        == Tree::Text(p.session_id@)
        && crate::tool_runtime::coding_task_results::start_session_tree(p).at("mode"@) == p.mode@
        && crate::tool_runtime::coding_task_results::start_session_tree(p).at("guards"@)
        == p.guards@) by {
    reveal_strlit("session_id");
    reveal_strlit("mode");
    reveal_strlit("guards");
    reveal_strlit("explicit_session_id_recommended");
    reveal_strlit("explicit_session_id_fields");
    reveal_strlit("current_binding");
    assert("session_id"@.len() == 10);
    assert("mode"@.len() == 4);
    assert("guards"@.len() == 6);
    assert("explicit_session_id_recommended"@.len() == 31);
    assert("explicit_session_id_fields"@.len() == 26);
    assert("current_binding"@.len() == 15);
    }
}

proof fn lemma_project_told(p: ResolvedModel)
    ensures
        ({
            let t = resolved_project_payload_tree(p);
            &&& t.at("input"@) == Tree::Text(p.input)
            &&& t.at("id"@) == Tree::Text(p.resolved_id)
            &&& t.at("path"@) == Tree::Text(p.config.path)
            &&& t.at("executor"@) == Tree::Text(
                if p.config.executor == Executor::Agent {
                    "agent"@
                } else {
                    "local"@
                },
            )
            &&& t.at("allow_patch"@) == Tree::Bool(p.config.allow_patch)
        }),
{
    reveal_strlit("input");
    reveal_strlit("id");
    reveal_strlit("path");
    reveal_strlit("executor");
    reveal_strlit("client_id");
    reveal_strlit("allow_patch");
    assert("input"@.len() == 5);
    assert("id"@.len() == 2);
    assert("path"@.len() == 4);
    assert("executor"@.len() == 8);
    assert("client_id"@.len() == 9);
    assert("allow_patch"@.len() == 11);
}

proof fn lemma_start_base(p: StartTaskInputs)
    ensures
        ({
            let base = start_base(p);
            &&& base is Object
            &&& base.get("project"@) == Some(Tree::Text(p.project@))
            &&& base.get("resolved_project"@) == Some(resolved_project_payload_tree(p.resolved@))
            &&& base.get("session"@) == Some(
                crate::tool_runtime::coding_task_results::start_session_tree(p),
            )
            &&& base.get("runtime_status"@) == Some(
                crate::tool_runtime::coding_task_results::told_status(p),
            )
            &&& base.get("permissions"@) == Some(p.permissions@)
            &&& base.get("git"@) == Some(
                if p.show_changes is Some || p.recent_commits is Some {
                    git_summary_tree(p.show_changes, p.recent_commits)
                } else {
                    Tree::Null
                },
            )
            &&& base.get("tool_manifest"@) == match p.tool_manifest {
                Some(m) => Some(m@),
                None => None::<Tree>,
            }
        }),
{
    reveal_strlit("project");
    reveal_strlit("resolved_project");
    reveal_strlit("session");
    reveal_strlit("runtime_status");
    reveal_strlit("permissions");
    reveal_strlit("rules");
    reveal_strlit("git");
    reveal_strlit("recommended_flow");
    reveal_strlit("deterministic");
    reveal_strlit("llm_summary");
    reveal_strlit("warnings");
    reveal_strlit("tool_manifest");
    assert("project"@.len() == 7 && "project"@[0] == 'p');
    assert("resolved_project"@.len() == 16 && "resolved_project"@[2] == 's');
    assert("session"@.len() == 7 && "session"@[0] == 's');
    assert("runtime_status"@.len() == 14);
    assert("permissions"@.len() == 11 && "permissions"@[0] == 'p');
    assert("rules"@.len() == 5);
    assert("git"@.len() == 3);
    assert("recommended_flow"@.len() == 16 && "recommended_flow"@[2] == 'c');
    assert("deterministic"@.len() == 13 && "deterministic"@[0] == 'd');
    assert("llm_summary"@.len() == 11 && "llm_summary"@[0] == 'l');
    assert("warnings"@.len() == 8);
    assert("tool_manifest"@.len() == 13 && "tool_manifest"@[0] == 't');
    let bare = with_part(start_base(StartTaskInputs { tool_manifest: None, ..p }), "tool_manifest"@, None);
    let part = match p.tool_manifest {
        Some(m) => Some(m@),
        None => None,
    };
    assert(start_base(p) == with_part(bare, "tool_manifest"@, part));
    if part is Some {
        law_put_get(bare, "tool_manifest"@, part->0, "tool_manifest"@);
        law_put_get(bare, "tool_manifest"@, part->0, "project"@);
        law_put_get(bare, "tool_manifest"@, part->0, "resolved_project"@);
        law_put_get(bare, "tool_manifest"@, part->0, "session"@);
        law_put_get(bare, "tool_manifest"@, part->0, "runtime_status"@);
        law_put_get(bare, "tool_manifest"@, part->0, "permissions"@);
        law_put_get(bare, "tool_manifest"@, part->0, "git"@);
    }
}

/// A task whose workspace has changes, whose runtime did not answer or is blocked by jobs,
/// or whose agent is not there, is blocked at its start.
pub proof fn law_start_is_judged(p: StartTaskInputs)
    ensures
        ({
            let v = start_tree(p).at("startup_verdict"@);
            let dirty = p.show_changes is Some && is_false(p.show_changes->0.output@.at("clean"@))
                && !is_false(p.show_changes->0.output@.at("git_available"@)) && (
            p.show_changes->0.success || p.show_changes->0.output@.at("git_available"@)
                == Tree::Bool(true));
            let unanswered = p.runtime_status is Some && !p.runtime_status->0.success;
            let blocked = p.runtime_status is Some && !p.compact_startup && is_positive(
                p.runtime_status->0.output@.at("jobs"@).at("blocking_active_count"@),
            );
            let untold = p.tool_manifest is Some && !(p.tool_manifest->0@ is Object);
            &&& dirty || unanswered || blocked || untold ==> v.at("status"@) == Tree::Text("fail"@)
                && v.at("blocking"@) == Tree::Bool(true)
            &&& v.at("blocking"@) == Tree::Bool(true) <==> v.at("status"@) == Tree::Text("fail"@)
            &&& p.runtime_status is None || p.show_changes is None || p.tool_manifest is None
                ==> v.at("status"@) != Tree::Text("pass"@)
        }),
{
    let base = start_base(p);
    let q = start_request(p);
    lemma_start_base(p);
    law_start_tells_parts(p);
    law_start_is_checked(base, q);
    if p.show_changes is Some {
        law_start_tells_git(p.show_changes->0, p.recent_commits);
    }
}

} // verus!
