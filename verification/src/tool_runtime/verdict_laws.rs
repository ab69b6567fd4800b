//! When the work of a task can be closed, by what is known of it.
use crate::json::{field, law_put_get, lemma_find_push, no_fields, text_trees, Tree};
use crate::tool_runtime::actions::with_if;
use crate::tool_runtime::coding_task::{finish_actions, workspace_payload_from_show_changes_tree};
use crate::tool_runtime::coding_task_results::{
    finish_base, finish_mismatch, finish_tree, finish_warnings, FinishTaskInputs,
};
use crate::tool_runtime::handoff::{
    blocking_reasons, compact_tree, facts_of, handoff_actions, texts_in, verdict_actions,
    verdict_of, verdict_tree, warning_reasons, VerdictFacts,
};
use crate::tool_runtime::handoff_summary::{
    handoff_base, handoff_parts, handoff_tree, project_mismatch, with_mismatch, with_part,
    HandoffInputs,
};
use crate::tool_runtime::types::ToolModel;
use vstd::prelude::*;

verus! {

broadcast use lemma_find_push;

/// Whether a value is a number above zero.
pub open spec fn is_positive(v: Tree) -> bool {
    v is Number && 0 < v->Number_0 <= u64::MAX
}

/// Whether a value says no.
pub open spec fn is_false(v: Tree) -> bool {
    v == Tree::Bool(false)
}

/// Whether a list holds the text.
pub open spec fn lists(v: Tree, word: Seq<char>) -> bool {
    v is Array && v->Array_0.contains(Tree::Text(word))
}

/// Whether something keeps the work from being closed: uncommitted changes, a workspace
/// that is not clean, jobs that block, tool calls that failed or succeeded against
/// expectation, or validation that failed or is mixed.
pub open spec fn keeps_open(output: Tree) -> bool {
    ||| is_false(output.at("workspace_clean"@))
    ||| is_false(output.at("hygiene_clean"@))
    ||| is_positive(output.at("jobs"@).at("blocking_active_count"@))
    ||| is_positive(output.at("tool_failures"@).at("unexpected_count"@))
    ||| is_positive(output.at("tool_failures"@).at("expectation_mismatch_count"@))
    ||| is_positive(output.at("tool_failures"@).at("unexpected_success_count"@))
    ||| output.at("validation"@).at("status"@) == Tree::Text("failed"@)
    ||| output.at("validation"@).at("status"@) == Tree::Text("mixed"@)
}

/// Whether a reader has to know something before the work is closed.
pub open spec fn needs_a_look(
    output: Tree,
    workspace_checked: bool,
    hygiene_checked: Option<bool>,
) -> bool {
    ||| !workspace_checked
    ||| hygiene_checked == Some(false)
    ||| is_positive(output.at("jobs"@).at("terminal_pending_count"@))
    ||| is_positive(output.at("tool_failures"@).at("expected_count"@)) && !is_positive(output.at("tool_failures"@).at("unexpected_count"@)) && !is_positive(output.at("tool_failures"@).at("expectation_mismatch_count"@)) && !is_positive(output.at("tool_failures"@).at("unexpected_success_count"@))
    ||| output.at("validation"@).at("status"@) == Tree::Text("not_run"@)
    ||| (!(output.at("validation"@).at("status"@) is Text) || output.at("validation"@).at("status"@) == Tree::Text("unknown"@))
}

proof fn lemma_with_if(list: Seq<Seq<char>>, wanted: bool, item: Seq<char>)
    ensures
        forall|x: Seq<char>| #[trigger]
            with_if(list, wanted, item).contains(x) <==> list.contains(x) || (wanted && x == item),
        with_if(list, wanted, item).len() > 0 <==> list.len() > 0 || wanted,
{
    let all = list.push(item);
    assert forall|x: Seq<char>| #[trigger]
        with_if(list, wanted, item).contains(x) <==> list.contains(x) || (wanted && x == item) by {
        if wanted && !list.contains(item) {
            if list.contains(x) {
                let i = choose|i: int| 0 <= i < list.len() && list[i] == x;
                assert(all[i] == x);
            }
            assert(all[list.len() as int] == item);
            if all.contains(x) && x != item {
                let i = choose|i: int| 0 <= i < all.len() && all[i] == x;
                assert(list[i] == x);
            }
        }
    }
    if wanted && list.contains(item) {
        let i = choose|i: int| 0 <= i < list.len() && list[i] == item;
        assert(list.len() > 0);
    }
}

proof fn lemma_lists(list: Seq<Seq<char>>, word: Seq<char>)
    ensures
        lists(text_trees(list), word) <==> list.contains(word),
{
    let all = text_trees(list)->Array_0;
    if list.contains(word) {
        let i = choose|i: int| 0 <= i < list.len() && list[i] == word;
        assert(all[i] == Tree::Text(word));
    }
    if all.contains(Tree::Text(word)) {
        let i = choose|i: int| 0 <= i < all.len() && all[i] == Tree::Text(word);
        assert(list[i] == word);
    }
}

proof fn lemma_facts(output: Tree, workspace_checked: bool, hygiene_checked: Option<bool>)
    ensures
        ({
            let f = facts_of(output, workspace_checked, hygiene_checked);
            &&& f.dirty == is_false(output.at("workspace_clean"@))
            &&& f.unhygienic == is_false(output.at("hygiene_clean"@))
            &&& f.blocking_jobs == is_positive(output.at("jobs"@).at("blocking_active_count"@))
            &&& f.unexpected == is_positive(output.at("tool_failures"@).at("unexpected_count"@))
            &&& f.mismatches == is_positive(output.at("tool_failures"@).at("expectation_mismatch_count"@))
            &&& f.successes == is_positive(output.at("tool_failures"@).at("unexpected_success_count"@))
            &&& f.failed == (output.at("validation"@).at("status"@) == Tree::Text("failed"@))
            &&& f.mixed == (output.at("validation"@).at("status"@) == Tree::Text("mixed"@))
            &&& f.workspace_unchecked == (!workspace_checked)
            &&& f.hygiene_unchecked == (hygiene_checked == Some(false))
            &&& f.pending_jobs == is_positive(output.at("jobs"@).at("terminal_pending_count"@))
            &&& f.matched == (is_positive(output.at("tool_failures"@).at("expected_count"@)) && !is_positive(output.at("tool_failures"@).at("unexpected_count"@)) && !is_positive(output.at("tool_failures"@).at("expectation_mismatch_count"@)) && !is_positive(output.at("tool_failures"@).at("unexpected_success_count"@)))
            &&& f.not_run == (output.at("validation"@).at("status"@) == Tree::Text("not_run"@))
            &&& f.unknown == (!(output.at("validation"@).at("status"@) is Text) || output.at("validation"@).at("status"@) == Tree::Text("unknown"@))
        }),
{
}

proof fn lemma_blocking(f: VerdictFacts, x: Seq<char>)
    ensures
        blocking_reasons(f).len() > 0 <==> (f.dirty || f.unhygienic || f.blocking_jobs
            || f.unexpected || f.mismatches || f.successes || f.failed || f.mixed),
        blocking_reasons(f).contains(x) <==> {
            ||| f.dirty && x == "workspace_dirty"@
            ||| f.unhygienic && x == "hygiene_failed"@
            ||| f.blocking_jobs && x == "blocking_active_jobs"@
            ||| f.unexpected && x == "unexpected_tool_failures"@
            ||| f.mismatches && x == "expectation_mismatches"@
            ||| f.successes && x == "unexpected_successes"@
            ||| f.failed && x == "validation_failed"@
            ||| f.mixed && x == "validation_mixed"@
        },
{
    let a0 = Seq::<Seq<char>>::empty();
    let a1 = with_if(a0, f.dirty, "workspace_dirty"@);
    let a2 = with_if(a1, f.unhygienic, "hygiene_failed"@);
    let a3 = with_if(a2, f.blocking_jobs, "blocking_active_jobs"@);
    let a4 = with_if(a3, f.unexpected, "unexpected_tool_failures"@);
    let a5 = with_if(a4, f.mismatches, "expectation_mismatches"@);
    let a6 = with_if(a5, f.successes, "unexpected_successes"@);
    let a7 = with_if(a6, f.failed, "validation_failed"@);
    lemma_with_if(a0, f.dirty, "workspace_dirty"@);
    lemma_with_if(a1, f.unhygienic, "hygiene_failed"@);
    lemma_with_if(a2, f.blocking_jobs, "blocking_active_jobs"@);
    lemma_with_if(a3, f.unexpected, "unexpected_tool_failures"@);
    lemma_with_if(a4, f.mismatches, "expectation_mismatches"@);
    lemma_with_if(a5, f.successes, "unexpected_successes"@);
    lemma_with_if(a6, f.failed, "validation_failed"@);
    lemma_with_if(a7, f.mixed, "validation_mixed"@);
}

proof fn lemma_warning(f: VerdictFacts, x: Seq<char>)
    ensures
        warning_reasons(f).len() > 0 <==> (f.workspace_unchecked || f.hygiene_unchecked
            || f.pending_jobs || f.matched || f.not_run || f.unknown),
        warning_reasons(f).contains(x) <==> {
            ||| f.workspace_unchecked && x == "workspace_not_checked"@
            ||| f.hygiene_unchecked && x == "hygiene_not_checked"@
            ||| f.pending_jobs && x == "jobs_terminal_pending"@
            ||| f.matched && x == "expected_failures_matched"@
            ||| f.not_run && x == "validation_not_run"@
            ||| f.unknown && x == "validation_unknown"@
        },
{
    let a0 = Seq::<Seq<char>>::empty();
    let a1 = with_if(a0, f.workspace_unchecked, "workspace_not_checked"@);
    let a2 = with_if(a1, f.hygiene_unchecked, "hygiene_not_checked"@);
    let a3 = with_if(a2, f.pending_jobs, "jobs_terminal_pending"@);
    let a4 = with_if(a3, f.matched, "expected_failures_matched"@);
    let a5 = with_if(a4, f.not_run, "validation_not_run"@);
    lemma_with_if(a0, f.workspace_unchecked, "workspace_not_checked"@);
    lemma_with_if(a1, f.hygiene_unchecked, "hygiene_not_checked"@);
    lemma_with_if(a2, f.pending_jobs, "jobs_terminal_pending"@);
    lemma_with_if(a3, f.matched, "expected_failures_matched"@);
    lemma_with_if(a4, f.not_run, "validation_not_run"@);
    lemma_with_if(a5, f.unknown, "validation_unknown"@);
}

proof fn lemma_actions(f: VerdictFacts, before: Seq<Seq<char>>, x: Seq<char>)
    ensures
        verdict_actions(f, before).len() > 0,
        before.contains(x) ==> verdict_actions(f, before).contains(x),
        ({
            let any = before.len() > 0 || f.workspace_unchecked || f.dirty || f.hygiene_unchecked
                || f.unhygienic || f.blocking_jobs || f.unexpected || f.mismatches || f.successes
                || f.matched || f.not_run || f.failed || f.mixed;
            verdict_actions(f, before).contains(x) <==> {
                ||| before.contains(x)
                ||| f.workspace_unchecked && x == "run show_changes before final handoff"@
                ||| f.dirty && x == "review workspace changes with show_changes"@
                ||| f.hygiene_unchecked && x == "run workspace_hygiene_check before closeout"@
                ||| f.unhygienic && x == "review workspace hygiene before closeout"@
                ||| f.blocking_jobs && x == "stop or await blocking active jobs"@
                ||| f.unexpected && x == "review unexpected failed tool calls before proceeding"@
                ||| f.mismatches && x == "review expected failure mismatches before proceeding"@
                ||| f.successes && x
                    == "review expected-failure assertions that unexpectedly succeeded"@
                ||| f.matched && x == "expected failure assertions matched"@
                ||| f.not_run && x == "run validation before closeout when available"@
                ||| f.failed && x == "review validation failures before closeout"@
                ||| f.mixed && x == "review mixed validation results before closeout"@
                ||| !any && x == "proceed with handoff or closeout"@
            }
        }),
{
    let a0 = before;
    let a1 = with_if(a0, f.workspace_unchecked, "run show_changes before final handoff"@);
    let a2 = with_if(a1, f.dirty, "review workspace changes with show_changes"@);
    let a3 = with_if(a2, f.hygiene_unchecked, "run workspace_hygiene_check before closeout"@);
    let a4 = with_if(a3, f.unhygienic, "review workspace hygiene before closeout"@);
    let a5 = with_if(a4, f.blocking_jobs, "stop or await blocking active jobs"@);
    let a6 = with_if(a5, f.unexpected, "review unexpected failed tool calls before proceeding"@);
    let a7 = with_if(a6, f.mismatches, "review expected failure mismatches before proceeding"@);
    let a8 = with_if(
        a7,
        f.successes,
        "review expected-failure assertions that unexpectedly succeeded"@,
    );
    let a9 = with_if(a8, f.matched, "expected failure assertions matched"@);
    let a10 = with_if(a9, f.not_run, "run validation before closeout when available"@);
    let a11 = with_if(a10, f.failed, "review validation failures before closeout"@);
    let a12 = with_if(a11, f.mixed, "review mixed validation results before closeout"@);
    lemma_with_if(a0, f.workspace_unchecked, "run show_changes before final handoff"@);
    lemma_with_if(a1, f.dirty, "review workspace changes with show_changes"@);
    lemma_with_if(a2, f.hygiene_unchecked, "run workspace_hygiene_check before closeout"@);
    lemma_with_if(a3, f.unhygienic, "review workspace hygiene before closeout"@);
    lemma_with_if(a4, f.blocking_jobs, "stop or await blocking active jobs"@);
    lemma_with_if(a5, f.unexpected, "review unexpected failed tool calls before proceeding"@);
    lemma_with_if(a6, f.mismatches, "review expected failure mismatches before proceeding"@);
    lemma_with_if(
        a7,
        f.successes,
        "review expected-failure assertions that unexpectedly succeeded"@,
    );
    lemma_with_if(a8, f.matched, "expected failure assertions matched"@);
    lemma_with_if(a9, f.not_run, "run validation before closeout when available"@);
    lemma_with_if(a10, f.failed, "review validation failures before closeout"@);
    lemma_with_if(a11, f.mixed, "review mixed validation results before closeout"@);
    if a12.len() == 0 {
        let last = "proceed with handoff or closeout"@;
        assert(a12.push(last)[0] == last);
        assert(before.len() == 0);
        assert(!before.contains(x));
    }
}

proof fn lemma_verdict_fields(f: VerdictFacts, before: Seq<Seq<char>>)
    ensures
        ({
            let v = verdict_of(f, before);
            &&& v.at("status"@) == Tree::Text(
                if blocking_reasons(f).len() > 0 {
                    "fail"@
                } else if warning_reasons(f).len() > 0 {
                    "warn"@
                } else {
                    "pass"@
                },
            )
            &&& v.at("blocking"@) == Tree::Bool(blocking_reasons(f).len() > 0)
            &&& v.at("blocking_reasons"@) == text_trees(blocking_reasons(f))
            &&& v.at("warning_reasons"@) == text_trees(warning_reasons(f))
            &&& v.at("suggested_next_actions"@) == text_trees(verdict_actions(f, before))
        }),
{
    reveal_strlit("status");
    reveal_strlit("blocking");
    reveal_strlit("blocking_reasons");
    reveal_strlit("warning_reasons");
    reveal_strlit("suggested_next_actions");
    assert("status"@.len() == 6);
    assert("blocking"@.len() == 8);
    assert("blocking_reasons"@.len() == 16);
    assert("warning_reasons"@.len() == 15);
    assert("suggested_next_actions"@.len() == 22);
}

/// Whether `v` is a verdict on a compact summary: it fails where something keeps the work
/// open, warns where a reader has to know something, and passes else; and it names every
/// reason that there is, and no other.
pub open spec fn is_verdict_on(
    output: Tree,
    workspace_checked: bool,
    hygiene_checked: Option<bool>,
    v: Tree,
) -> bool {
    &&& v.at("blocking"@) == Tree::Bool(keeps_open(output))
    &&& v.at("status"@) == Tree::Text(
        if keeps_open(output) {
            "fail"@
        } else if needs_a_look(output, workspace_checked, hygiene_checked) {
            "warn"@
        } else {
            "pass"@
        },
    )
    &&& lists(v.at("blocking_reasons"@), "workspace_dirty"@) <==> is_false(output.at("workspace_clean"@))
    &&& lists(v.at("blocking_reasons"@), "hygiene_failed"@) <==> is_false(output.at("hygiene_clean"@))
    &&& lists(v.at("blocking_reasons"@), "blocking_active_jobs"@) <==> is_positive(output.at("jobs"@).at("blocking_active_count"@))
    &&& lists(v.at("blocking_reasons"@), "unexpected_tool_failures"@) <==> is_positive(output.at("tool_failures"@).at("unexpected_count"@))
    &&& lists(v.at("blocking_reasons"@), "expectation_mismatches"@) <==> is_positive(output.at("tool_failures"@).at("expectation_mismatch_count"@))
    &&& lists(v.at("blocking_reasons"@), "unexpected_successes"@) <==> is_positive(output.at("tool_failures"@).at("unexpected_success_count"@))
    &&& lists(v.at("blocking_reasons"@), "validation_failed"@) <==> (output.at("validation"@).at("status"@) == Tree::Text("failed"@))
    &&& lists(v.at("blocking_reasons"@), "validation_mixed"@) <==> (output.at("validation"@).at("status"@) == Tree::Text("mixed"@))
    &&& lists(v.at("warning_reasons"@), "workspace_not_checked"@) <==> (!workspace_checked)
    &&& lists(v.at("warning_reasons"@), "hygiene_not_checked"@) <==> (hygiene_checked == Some(false))
    &&& lists(v.at("warning_reasons"@), "jobs_terminal_pending"@) <==> (is_positive(output.at("jobs"@).at("terminal_pending_count"@)))
    &&& lists(v.at("warning_reasons"@), "expected_failures_matched"@) <==> (is_positive(output.at("tool_failures"@).at("expected_count"@)) && !is_positive(output.at("tool_failures"@).at("unexpected_count"@)) && !is_positive(output.at("tool_failures"@).at("expectation_mismatch_count"@)) && !is_positive(output.at("tool_failures"@).at("unexpected_success_count"@)))
    &&& lists(v.at("warning_reasons"@), "validation_not_run"@) <==> (output.at("validation"@).at("status"@) == Tree::Text("not_run"@))
    &&& lists(v.at("warning_reasons"@), "validation_unknown"@) <==> ((!(output.at("validation"@).at("status"@) is Text) || output.at("validation"@).at("status"@) == Tree::Text("unknown"@)))
}

/// The verdict on a compact summary says whether the work can be closed, by what the
/// summary holds.
pub proof fn law_verdict_follows_summary(
    output: Tree,
    workspace_checked: bool,
    hygiene_checked: Option<bool>,
)
    ensures
        is_verdict_on(
            output,
            workspace_checked,
            hygiene_checked,
            verdict_tree(output, workspace_checked, hygiene_checked),
        ),
{
    let f = facts_of(output, workspace_checked, hygiene_checked);
    let before = texts_in(output.at("suggested_next_actions"@).items());
    lemma_facts(output, workspace_checked, hygiene_checked);
    lemma_verdict_fields(f, before);
    lemma_blocking(f, ""@);
    lemma_warning(f, ""@);
    assert forall|x: Seq<char>| lists(text_trees(blocking_reasons(f)), x) <==> #[trigger] blocking_reasons(f).contains(x) by {
        lemma_lists(blocking_reasons(f), x);
    }
    assert forall|x: Seq<char>| lists(text_trees(warning_reasons(f)), x) <==> #[trigger] warning_reasons(f).contains(x) by {
        lemma_lists(warning_reasons(f), x);
    }
    reveal_strlit("workspace_dirty");
    reveal_strlit("hygiene_failed");
    reveal_strlit("blocking_active_jobs");
    reveal_strlit("unexpected_tool_failures");
    reveal_strlit("expectation_mismatches");
    reveal_strlit("unexpected_successes");
    reveal_strlit("validation_failed");
    reveal_strlit("validation_mixed");
    assert("workspace_dirty"@.len() == 15);
    assert("hygiene_failed"@.len() == 14);
    assert("blocking_active_jobs"@.len() == 20 && "blocking_active_jobs"@[0] == 'b');
    assert("unexpected_tool_failures"@.len() == 24);
    assert("expectation_mismatches"@.len() == 22);
    assert("unexpected_successes"@.len() == 20 && "unexpected_successes"@[0] == 'u');
    assert("validation_failed"@.len() == 17);
    assert("validation_mixed"@.len() == 16);
    reveal_strlit("workspace_not_checked");
    reveal_strlit("hygiene_not_checked");
    reveal_strlit("jobs_terminal_pending");
    reveal_strlit("expected_failures_matched");
    reveal_strlit("validation_not_run");
    reveal_strlit("validation_unknown");
    assert("workspace_not_checked"@.len() == 21 && "workspace_not_checked"@[0] == 'w');
    assert("hygiene_not_checked"@.len() == 19);
    assert("jobs_terminal_pending"@.len() == 21 && "jobs_terminal_pending"@[0] == 'j');
    assert("expected_failures_matched"@.len() == 25);
    assert("validation_not_run"@.len() == 18 && "validation_not_run"@[11] == 'n');
    assert("validation_unknown"@.len() == 18 && "validation_unknown"@[11] == 'u');
    lemma_blocking(f, "workspace_dirty"@);
    lemma_blocking(f, "hygiene_failed"@);
    lemma_blocking(f, "blocking_active_jobs"@);
    lemma_blocking(f, "unexpected_tool_failures"@);
    lemma_blocking(f, "expectation_mismatches"@);
    lemma_blocking(f, "unexpected_successes"@);
    lemma_blocking(f, "validation_failed"@);
    lemma_blocking(f, "validation_mixed"@);
    lemma_warning(f, "workspace_not_checked"@);
    lemma_warning(f, "hygiene_not_checked"@);
    lemma_warning(f, "jobs_terminal_pending"@);
    lemma_warning(f, "expected_failures_matched"@);
    lemma_warning(f, "validation_not_run"@);
    lemma_warning(f, "validation_unknown"@);
}

/// The verdict suggests what to do about each reason, keeps what was suggested before, and
/// suggests to go on exactly where there is nothing else to suggest.
pub proof fn law_verdict_suggests(
    output: Tree,
    workspace_checked: bool,
    hygiene_checked: Option<bool>,
    i: int,
)
    ensures
        ({
            let v = verdict_tree(output, workspace_checked, hygiene_checked);
            let said = v.at("suggested_next_actions"@);
            let before = output.at("suggested_next_actions"@).items();
            &&& said is Array && said->Array_0.len() > 0
            &&& 0 <= i < before.len() && before[i] is Text ==> lists(said, before[i]->Text_0)
            &&& (!workspace_checked) ==> lists(said, "run show_changes before final handoff"@)
            &&& (is_false(output.at("workspace_clean"@))) ==> lists(said, "review workspace changes with show_changes"@)
            &&& (hygiene_checked == Some(false)) ==> lists(said, "run workspace_hygiene_check before closeout"@)
            &&& (is_false(output.at("hygiene_clean"@))) ==> lists(said, "review workspace hygiene before closeout"@)
            &&& (is_positive(output.at("jobs"@).at("blocking_active_count"@))) ==> lists(said, "stop or await blocking active jobs"@)
            &&& (is_positive(output.at("tool_failures"@).at("unexpected_count"@))) ==> lists(said, "review unexpected failed tool calls before proceeding"@)
            &&& (is_positive(output.at("tool_failures"@).at("expectation_mismatch_count"@))) ==> lists(said, "review expected failure mismatches before proceeding"@)
            &&& (is_positive(output.at("tool_failures"@).at("unexpected_success_count"@))) ==> lists(said, "review expected-failure assertions that unexpectedly succeeded"@)
            &&& (is_positive(output.at("tool_failures"@).at("expected_count"@)) && !is_positive(output.at("tool_failures"@).at("unexpected_count"@)) && !is_positive(output.at("tool_failures"@).at("expectation_mismatch_count"@)) && !is_positive(output.at("tool_failures"@).at("unexpected_success_count"@))) ==> lists(said, "expected failure assertions matched"@)
            &&& (output.at("validation"@).at("status"@) == Tree::Text("not_run"@)) ==> lists(said, "run validation before closeout when available"@)
            &&& (output.at("validation"@).at("status"@) == Tree::Text("failed"@)) ==> lists(said, "review validation failures before closeout"@)
            &&& (output.at("validation"@).at("status"@) == Tree::Text("mixed"@)) ==> lists(said, "review mixed validation results before closeout"@)
            &&& output.at("suggested_next_actions"@).items().len() == 0 && !keeps_open(output) && !((!workspace_checked) || (hygiene_checked == Some(false)) || (is_positive(output.at("tool_failures"@).at("expected_count"@)) && !is_positive(output.at("tool_failures"@).at("unexpected_count"@)) && !is_positive(output.at("tool_failures"@).at("expectation_mismatch_count"@)) && !is_positive(output.at("tool_failures"@).at("unexpected_success_count"@))) || (output.at("validation"@).at("status"@) == Tree::Text("not_run"@))) ==> said == Tree::Array(
                seq![Tree::Text("proceed with handoff or closeout"@)],
            )
        }),
{
    let f = facts_of(output, workspace_checked, hygiene_checked);
    let before = output.at("suggested_next_actions"@).items();
    let told = texts_in(before);
    lemma_facts(output, workspace_checked, hygiene_checked);
    lemma_verdict_fields(f, told);
    lemma_actions(f, told, ""@);
    if 0 <= i < before.len() && before[i] is Text {
        lemma_texts_in(before, i);
        lemma_actions(f, told, before[i]->Text_0);
        lemma_lists(verdict_actions(f, told), before[i]->Text_0);
    }
    lemma_actions(f, told, "run show_changes before final handoff"@);
    lemma_lists(verdict_actions(f, told), "run show_changes before final handoff"@);
    lemma_actions(f, told, "review workspace changes with show_changes"@);
    lemma_lists(verdict_actions(f, told), "review workspace changes with show_changes"@);
    lemma_actions(f, told, "run workspace_hygiene_check before closeout"@);
    lemma_lists(verdict_actions(f, told), "run workspace_hygiene_check before closeout"@);
    lemma_actions(f, told, "review workspace hygiene before closeout"@);
    lemma_lists(verdict_actions(f, told), "review workspace hygiene before closeout"@);
    lemma_actions(f, told, "stop or await blocking active jobs"@);
    lemma_lists(verdict_actions(f, told), "stop or await blocking active jobs"@);
    lemma_actions(f, told, "review unexpected failed tool calls before proceeding"@);
    lemma_lists(verdict_actions(f, told), "review unexpected failed tool calls before proceeding"@);
    lemma_actions(f, told, "review expected failure mismatches before proceeding"@);
    lemma_lists(verdict_actions(f, told), "review expected failure mismatches before proceeding"@);
    lemma_actions(f, told, "review expected-failure assertions that unexpectedly succeeded"@);
    lemma_lists(verdict_actions(f, told), "review expected-failure assertions that unexpectedly succeeded"@);
    lemma_actions(f, told, "expected failure assertions matched"@);
    lemma_lists(verdict_actions(f, told), "expected failure assertions matched"@);
    lemma_actions(f, told, "run validation before closeout when available"@);
    lemma_lists(verdict_actions(f, told), "run validation before closeout when available"@);
    lemma_actions(f, told, "review validation failures before closeout"@);
    lemma_lists(verdict_actions(f, told), "review validation failures before closeout"@);
    lemma_actions(f, told, "review mixed validation results before closeout"@);
    lemma_lists(verdict_actions(f, told), "review mixed validation results before closeout"@);
    if before.len() == 0 {
        assert(told =~= Seq::<Seq<char>>::empty());
        if !keeps_open(output) && !((!workspace_checked) || (hygiene_checked == Some(false)) || (is_positive(output.at("tool_failures"@).at("expected_count"@)) && !is_positive(output.at("tool_failures"@).at("unexpected_count"@)) && !is_positive(output.at("tool_failures"@).at("expectation_mismatch_count"@)) && !is_positive(output.at("tool_failures"@).at("unexpected_success_count"@))) || (output.at("validation"@).at("status"@) == Tree::Text("not_run"@))) {
            let last = "proceed with handoff or closeout"@;
            assert(verdict_actions(f, told) =~= seq![last]);
            assert(text_trees(seq![last])->Array_0 =~= seq![Tree::Text(last)]);
        }
    }
}

proof fn lemma_texts_in(items: Seq<Tree>, i: int)
    requires
        0 <= i < items.len(),
        items[i] is Text,
    ensures
        texts_in(items).contains(items[i]->Text_0),
    decreases items.len(),
{
    let front = texts_in(items.drop_last());
    let all = texts_in(items);
    if i == items.len() - 1 {
        assert(items.last() == items[i]);
        assert(all[front.len() as int] == items[i]->Text_0);
    } else {
        assert(items.drop_last()[i] == items[i]);
        lemma_texts_in(items.drop_last(), i);
        let k = choose|k: int| 0 <= k < front.len() && front[k] == items[i]->Text_0;
        assert(all[k] == items[i]->Text_0);
    }
}

// ---------------------------------------------------------------------------
// The compact summary
// ---------------------------------------------------------------------------

/// What a compact summary keeps of the whole one: what was found of the workspace, the
/// numbers of jobs and of failed calls, and how validation ended.
pub proof fn law_compact_keeps_facts(
    output: Tree,
    workspace_clean: bool,
    hygiene_clean: bool,
    warnings: Seq<char>,
)
    ensures
        ({
            let c = compact_tree(output, workspace_clean, hygiene_clean, warnings);
            let jobs = output.at("jobs"@);
            let failures = output.at("tool_failures"@);
            let validation = output.at("validation"@);
            let permissions = output.at("permissions"@);
            &&& c is Object
            &&& c.at("summary_only"@) == Tree::Bool(true)
            &&& c.at("project"@) == output.at("project"@)
            &&& c.at("session_id"@) == output.at("session_id"@)
            &&& c.at("workspace_clean"@) == Tree::Bool(workspace_clean)
            &&& c.at("hygiene_clean"@) == Tree::Bool(hygiene_clean)
            &&& c.at("jobs"@).at("active_count"@) == kept_count(jobs.at("active_count"@))
            &&& c.at("jobs"@).at("blocking_active_count"@) == kept_count(
                jobs.at("blocking_active_count"@),
            )
            &&& c.at("jobs"@).at("nonblocking_active_count"@) == kept_count(
                jobs.at("nonblocking_active_count"@),
            )
            &&& c.at("jobs"@).at("terminal_pending_count"@) == kept_count(
                jobs.at("terminal_pending_count"@),
            )
            &&& c.at("tool_failures"@).at("expected_count"@) == kept_count(
                failures.at("expected_count"@),
            )
            &&& c.at("tool_failures"@).at("unexpected_count"@) == kept_count(
                failures.at("unexpected_count"@),
            )
            &&& c.at("tool_failures"@).at("expectation_mismatch_count"@) == kept_count(
                failures.at("expectation_mismatch_count"@),
            )
            &&& c.at("tool_failures"@).at("unexpected_success_count"@) == kept_count(
                failures.at("unexpected_success_count"@),
            )
            &&& c.at("permissions"@).at("required_count"@) == kept_count(
                permissions.at("required_count"@),
            )
            &&& c.at("permissions"@).at("manual_approved_count"@) == kept_count(
                permissions.at("manual_approved_count"@),
            )
            &&& c.at("permissions"@).at("auto_approved_count"@) == kept_count(
                permissions.at("auto_approved_count"@),
            )
            &&& c.at("permissions"@).at("total_approved_count"@) == kept_count(
                permissions.at("total_approved_count"@),
            )
            &&& c.at("permissions"@).at("hard_denied_count"@) == kept_count(
                permissions.at("hard_denied_count"@),
            )
            &&& validation.get("status"@) is Some ==> c.at("validation"@).at("status"@)
                == validation.at("status"@)
            &&& validation.get("status"@) is None ==> c.at("validation"@).at("status"@)
                == Tree::Text("not_run"@)
            &&& validation.get("reason"@) is Some ==> c.at("validation"@).at("reason"@)
                == validation.at("reason"@)
            &&& c.at("warnings"@) == match output.get(warnings) {
                Some(w) => w,
                None => Tree::Array(Seq::empty()),
            }
            &&& c.at("suggested_next_actions"@) == match output.get("suggested_next_actions"@) {
                Some(w) => w,
                None => Tree::Array(Seq::empty()),
            }
        }),
{
    reveal_strlit("summary_only");
    reveal_strlit("project");
    reveal_strlit("session_id");
    reveal_strlit("workspace_clean");
    reveal_strlit("hygiene_clean");
    reveal_strlit("jobs");
    reveal_strlit("permissions");
    reveal_strlit("tool_failures");
    reveal_strlit("validation");
    reveal_strlit("warnings");
    reveal_strlit("suggested_next_actions");
    assert("summary_only"@.len() == 12);
    assert("project"@.len() == 7);
    assert("session_id"@.len() == 10 && "session_id"@[0] == 's');
    assert("workspace_clean"@.len() == 15);
    assert("hygiene_clean"@.len() == 13 && "hygiene_clean"@[0] == 'h');
    assert("jobs"@.len() == 4);
    assert("permissions"@.len() == 11);
    assert("tool_failures"@.len() == 13 && "tool_failures"@[0] == 't');
    assert("validation"@.len() == 10 && "validation"@[0] == 'v');
    assert("warnings"@.len() == 8);
    assert("suggested_next_actions"@.len() == 22);
    reveal_strlit("active_count");
    reveal_strlit("blocking_active_count");
    reveal_strlit("nonblocking_active_count");
    reveal_strlit("terminal_pending_count");
    reveal_strlit("warnings");
    assert("active_count"@.len() == 12);
    assert("blocking_active_count"@.len() == 21);
    assert("nonblocking_active_count"@.len() == 24);
    assert("terminal_pending_count"@.len() == 22);
    assert("warnings"@.len() == 8);
    reveal_strlit("expected_count");
    reveal_strlit("unexpected_count");
    reveal_strlit("expectation_mismatch_count");
    reveal_strlit("unexpected_success_count");
    assert("expected_count"@.len() == 14);
    assert("unexpected_count"@.len() == 16);
    assert("expectation_mismatch_count"@.len() == 26);
    assert("unexpected_success_count"@.len() == 24);
    reveal_strlit("required_count");
    reveal_strlit("manual_approved_count");
    reveal_strlit("auto_approved_count");
    reveal_strlit("total_approved_count");
    reveal_strlit("hard_denied_count");
    assert("required_count"@.len() == 14);
    assert("manual_approved_count"@.len() == 21);
    assert("auto_approved_count"@.len() == 19);
    assert("total_approved_count"@.len() == 20);
    assert("hard_denied_count"@.len() == 17);
    reveal_strlit("status");
    reveal_strlit("reason");
    assert("status"@.len() == 6 && "status"@[0] == 's');
    assert("reason"@.len() == 6 && "reason"@[0] == 'r');
}

/// A count as it is kept: the number, or zero where there is none.
pub open spec fn kept_count(v: Tree) -> Tree {
    if v is Number && 0 <= v->Number_0 <= u64::MAX {
        v
    } else {
        Tree::Number(0)
    }
}

// ---------------------------------------------------------------------------
// The end of a task and a handoff
// ---------------------------------------------------------------------------

proof fn lemma_mismatch_keeps(
    output: Tree,
    mismatch: Option<(Seq<char>, Seq<char>)>,
    name: Seq<char>,
)
    requires
        output is Object,
        name != "warning_kind"@,
        name != "session_project"@,
        name != "request_project"@,
        name != "allow_cross_project_session_required"@,
        name != "allow_cross_project_session"@,
    ensures
        with_mismatch(output, mismatch) is Object,
        with_mismatch(output, mismatch).get(name) == output.get(name),
{
    if mismatch is Some {
        let (session, asked) = mismatch->0;
        let kind = Tree::Text(crate::tool_runtime::session_context::SESSION_PROJECT_MISMATCH_KIND@);
        let a = output.put("warning_kind"@, kind);
        let b = a.put("session_project"@, Tree::Text(session));
        let c = b.put("request_project"@, Tree::Text(asked));
        let d = c.put("allow_cross_project_session_required"@, Tree::Bool(true));
        law_put_get(output, "warning_kind"@, kind, name);
        law_put_get(a, "session_project"@, Tree::Text(session), name);
        law_put_get(b, "request_project"@, Tree::Text(asked), name);
        law_put_get(c, "allow_cross_project_session_required"@, Tree::Bool(true), name);
        law_put_get(d, "allow_cross_project_session"@, Tree::Bool(false), name);
    }
}

proof fn lemma_names_apart()
    ensures
        forall|name: Seq<char>|
            (name == "workspace"@ || name == "hygiene"@ || name == "jobs"@ || name
                == "tool_failures"@ || name == "validation"@ || name == "checkpoints"@ || name
                == "project"@ || name == "session_id"@ || name == "permissions"@ || name
                == "changes"@ || name == "handoff"@ || name == "final_warnings"@ || name
                == "warnings"@ || name == "counts"@) ==> {
                &&& #[trigger] is_apart(name)
            },
{
    reveal_strlit("workspace");
    reveal_strlit("hygiene");
    reveal_strlit("jobs");
    reveal_strlit("tool_failures");
    reveal_strlit("validation");
    reveal_strlit("checkpoints");
    reveal_strlit("project");
    reveal_strlit("session_id");
    reveal_strlit("permissions");
    reveal_strlit("changes");
    reveal_strlit("handoff");
    reveal_strlit("final_warnings");
    reveal_strlit("warnings");
    reveal_strlit("counts");
    reveal_strlit("warning_kind");
    reveal_strlit("session_project");
    reveal_strlit("request_project");
    reveal_strlit("allow_cross_project_session_required");
    reveal_strlit("allow_cross_project_session");
    reveal_strlit("suggested_next_actions");
    assert("workspace"@.len() == 9);
    assert("hygiene"@.len() == 7 && "hygiene"@[0] == 'h' && "hygiene"@[1] == 'y');
    assert("jobs"@.len() == 4);
    assert("tool_failures"@.len() == 13);
    assert("validation"@.len() == 10 && "validation"@[0] == 'v');
    assert("checkpoints"@.len() == 11 && "checkpoints"@[0] == 'c');
    assert("project"@.len() == 7 && "project"@[0] == 'p');
    assert("session_id"@.len() == 10 && "session_id"@[0] == 's');
    assert("permissions"@.len() == 11 && "permissions"@[0] == 'p');
    assert("changes"@.len() == 7 && "changes"@[0] == 'c');
    assert("handoff"@.len() == 7 && "handoff"@[0] == 'h' && "handoff"@[1] == 'a');
    assert("final_warnings"@.len() == 14);
    assert("warnings"@.len() == 8);
    assert("counts"@.len() == 6);
    assert("warning_kind"@.len() == 12);
    assert("session_project"@.len() == 15 && "session_project"@[0] == 's');
    assert("request_project"@.len() == 15 && "request_project"@[0] == 'r');
    assert("allow_cross_project_session_required"@.len() == 36);
    assert("allow_cross_project_session"@.len() == 27);
    assert("suggested_next_actions"@.len() == 22);
}

/// Whether a name is none of those that are added to a summary in the end.
pub open spec fn is_apart(name: Seq<char>) -> bool {
    &&& name != "warning_kind"@
    &&& name != "session_project"@
    &&& name != "request_project"@
    &&& name != "allow_cross_project_session_required"@
    &&& name != "allow_cross_project_session"@
    &&& name != "suggested_next_actions"@
}

/// The whole end of a task tells what was looked up, each part under its name.
pub proof fn law_finish_tells_parts(p: FinishTaskInputs)
    ensures
        ({
            let r = finish_tree(p, false);
            let changes = p.changes.output@;
            &&& r is Object
            &&& r.at("project"@) == Tree::Text(p.project@)
            &&& r.at("session_id"@) == Tree::Text(p.session_id@)
            &&& r.at("validation"@) == p.validation@
            &&& r.at("permissions"@) == p.permissions@
            &&& r.at("tool_failures"@) == p.tool_failures@
            &&& r.at("jobs"@) == p.jobs@
            &&& r.at("changes"@).at("show_changes"@) == changes
            &&& r.at("hygiene"@) == match p.hygiene {
                Some(h) => h.output@,
                None => Tree::Null,
            }
            &&& r.at("handoff"@) == match p.handoff {
                Some(h) => h.output@,
                None => Tree::Null,
            }
            &&& r.at("workspace"@).at("clean"@) == Tree::Bool(changes.at("clean"@) == Tree::Bool(true))
            &&& r.at("workspace"@).at("git_available"@) == Tree::Bool(
                changes.at("git_available"@) == Tree::Bool(true),
            )
            &&& r.at("workspace"@).at("branch"@) == changes.at("branch"@)
            &&& r.at("workspace"@).at("head"@) == changes.at("head"@)
            &&& r.get("suggested_next_actions"@) is Some
            &&& r.at("final_warnings"@) == Tree::Array(finish_warnings(p))
            &&& r.at("changes"@).at("hunks_truncated"@) == Tree::Bool(
                changes.at("hunks_truncated"@) == Tree::Bool(true),
            )
        }),
{
    let base = finish_base(p);
    let told = text_trees(finish_actions(base));
    let workspace = workspace_payload_from_show_changes_tree(p.changes.output@);
    lemma_names_apart();
    assert(workspace.at("clean"@) == Tree::Bool(p.changes.output@.at("clean"@) == Tree::Bool(true))
        && workspace.at("git_available"@) == Tree::Bool(
        p.changes.output@.at("git_available"@) == Tree::Bool(true),
    ) && workspace.at("branch"@) == p.changes.output@.at("branch"@) && workspace.at("head"@)
        == p.changes.output@.at("head"@)) by {
    reveal_strlit("clean");
    reveal_strlit("git_available");
    reveal_strlit("non_git_project");
    reveal_strlit("branch");
    reveal_strlit("head");
    reveal_strlit("changed_files_count");
    reveal_strlit("counts");
    reveal_strlit("warnings");
    assert("clean"@.len() == 5);
    assert("git_available"@.len() == 13);
    assert("non_git_project"@.len() == 15);
    assert("branch"@.len() == 6 && "branch"@[0] == 'b');
    assert("head"@.len() == 4);
    assert("changed_files_count"@.len() == 19);
    assert("counts"@.len() == 6 && "counts"@[0] == 'c');
    assert("warnings"@.len() == 8);
    }
    lemma_finish_base(p);
    assert forall|name: Seq<char>| is_apart(name) implies #[trigger] base.put(
        "suggested_next_actions"@,
        told,
    ).get(name) == base.get(name) by {
        law_put_get(base, "suggested_next_actions"@, told, name);
    }
    law_put_get(base, "suggested_next_actions"@, told, "suggested_next_actions"@);
    let r = base.put("suggested_next_actions"@, told);
    assert(is_apart("project"@) && is_apart("session_id"@) && is_apart("validation"@)
        && is_apart("permissions"@) && is_apart("tool_failures"@) && is_apart("jobs"@) && is_apart(
        "changes"@,
    ) && is_apart("hygiene"@) && is_apart("handoff"@) && is_apart("workspace"@) && is_apart(
        "final_warnings"@,
    ));
    assert(base.at("changes"@).at("show_changes"@) == p.changes.output@ && base.at("changes"@).at(
        "hunks_truncated"@,
    ) == Tree::Bool(p.changes.output@.at("hunks_truncated"@) == Tree::Bool(true))) by {
    reveal_strlit("show_changes");
    reveal_strlit("hunks_truncated");
    assert("show_changes"@.len() == 12);
    assert("hunks_truncated"@.len() == 15);
    }
    assert(r.get("project"@) == base.get("project"@));
    assert(r.get("session_id"@) == base.get("session_id"@));
    assert(r.get("validation"@) == base.get("validation"@));
    assert(r.get("permissions"@) == base.get("permissions"@));
    assert(r.get("tool_failures"@) == base.get("tool_failures"@));
    assert(r.get("jobs"@) == base.get("jobs"@));
    assert(r.get("changes"@) == base.get("changes"@));
    assert(r.get("hygiene"@) == base.get("hygiene"@));
    assert(r.get("handoff"@) == base.get("handoff"@));
    assert(r.get("workspace"@) == base.get("workspace"@));
    assert(r.get("final_warnings"@) == base.get("final_warnings"@));
}

proof fn lemma_finish_base(p: FinishTaskInputs)
    ensures
        ({
            let base = finish_base(p);
            &&& base is Object
            &&& base.at("project"@) == Tree::Text(p.project@)
            &&& base.at("session_id"@) == Tree::Text(p.session_id@)
            &&& base.at("workspace"@) == workspace_payload_from_show_changes_tree(
                p.changes.output@,
            )
            &&& base.at("changes"@) == Tree::Object(
                no_fields()
                    .push(field("show_changes"@, p.changes.output@))
                    .push(field("hunks_truncated"@, Tree::Bool(
                        crate::tool_runtime::handoff::bool_or(
                            p.changes.output@.at("hunks_truncated"@),
                            false,
                        ),
                    ))),
            )
            &&& base.at("validation"@) == p.validation@
            &&& base.at("permissions"@) == p.permissions@
            &&& base.at("tool_failures"@) == p.tool_failures@
            &&& base.at("hygiene"@) == match p.hygiene {
                Some(h) => h.output@,
                None => Tree::Null,
            }
            &&& base.at("handoff"@) == match p.handoff {
                Some(h) => h.output@,
                None => Tree::Null,
            }
            &&& base.at("jobs"@) == p.jobs@
            &&& base.at("final_warnings"@) == Tree::Array(finish_warnings(p))
        }),
{
    lemma_names_apart();
    assert(is_apart("project"@) && is_apart("session_id"@) && is_apart("validation"@)
        && is_apart("permissions"@) && is_apart("tool_failures"@) && is_apart("jobs"@) && is_apart(
        "changes"@,
    ) && is_apart("hygiene"@) && is_apart("handoff"@) && is_apart("workspace"@) && is_apart(
        "final_warnings"@,
    ));
    let members = no_fields()
        .push(field("project"@, Tree::Text(p.project@)))
        .push(field("resolved_project"@, crate::tool_runtime::coding_task::resolved_project_payload_tree(p.resolved@)))
        .push(field("session_id"@, Tree::Text(p.session_id@)))
        .push(field("workspace"@, crate::tool_runtime::coding_task_results::finish_workspace(p)))
        .push(field("changes"@, Tree::Object(
            no_fields()
                .push(field("show_changes"@, p.changes.output@))
                .push(field("hunks_truncated"@, Tree::Bool(crate::tool_runtime::handoff::bool_or(p.changes.output@.at("hunks_truncated"@), false)))),
        )))
        .push(field("validation"@, p.validation@))
        .push(field("permissions"@, p.permissions@))
        .push(field("tool_failures"@, p.tool_failures@))
        .push(field("hygiene"@, crate::tool_runtime::coding_task_results::output_or_null(p.hygiene)))
        .push(field("handoff"@, crate::tool_runtime::coding_task_results::output_or_null(p.handoff)))
        .push(field("jobs"@, p.jobs@))
        .push(field("deterministic"@, Tree::Bool(true)))
        .push(field("llm_summary"@, Tree::Bool(false)))
        .push(field("final_warnings"@, Tree::Array(finish_warnings(p))));
    let bare = Tree::Object(members);
    let m = finish_mismatch(p);
    assert(finish_base(p) == with_mismatch(bare, m));
    lemma_mismatch_keeps(bare, m, "project"@);
    lemma_mismatch_keeps(bare, m, "session_id"@);
    lemma_mismatch_keeps(bare, m, "workspace"@);
    lemma_mismatch_keeps(bare, m, "changes"@);
    lemma_mismatch_keeps(bare, m, "validation"@);
    lemma_mismatch_keeps(bare, m, "permissions"@);
    lemma_mismatch_keeps(bare, m, "tool_failures"@);
    lemma_mismatch_keeps(bare, m, "hygiene"@);
    lemma_mismatch_keeps(bare, m, "handoff"@);
    lemma_mismatch_keeps(bare, m, "jobs"@);
    lemma_mismatch_keeps(bare, m, "final_warnings"@);
    reveal_strlit("project");
    reveal_strlit("resolved_project");
    reveal_strlit("session_id");
    reveal_strlit("workspace");
    reveal_strlit("changes");
    reveal_strlit("validation");
    reveal_strlit("permissions");
    reveal_strlit("tool_failures");
    reveal_strlit("hygiene");
    reveal_strlit("handoff");
    reveal_strlit("jobs");
    reveal_strlit("deterministic");
    reveal_strlit("llm_summary");
    reveal_strlit("final_warnings");
    assert("project"@.len() == 7 && "project"@[0] == 'p');
    assert("resolved_project"@.len() == 16);
    assert("session_id"@.len() == 10 && "session_id"@[0] == 's');
    assert("workspace"@.len() == 9);
    assert("changes"@.len() == 7 && "changes"@[0] == 'c');
    assert("validation"@.len() == 10 && "validation"@[0] == 'v');
    assert("permissions"@.len() == 11 && "permissions"@[0] == 'p');
    assert("tool_failures"@.len() == 13 && "tool_failures"@[0] == 't');
    assert("hygiene"@.len() == 7 && "hygiene"@[0] == 'h' && "hygiene"@[1] == 'y');
    assert("handoff"@.len() == 7 && "handoff"@[0] == 'h' && "handoff"@[1] == 'a');
    assert("jobs"@.len() == 4);
    assert("deterministic"@.len() == 13 && "deterministic"@[0] == 'd');
    assert("llm_summary"@.len() == 11 && "llm_summary"@[0] == 'l');
    assert("final_warnings"@.len() == 14);
}

/// The verdict at the end of a task, by what was looked up for it. Changes that are not
/// committed, findings in the workspace, jobs that block, calls that failed or succeeded
/// against expectation, and validation that failed or is mixed each block, and each is
/// named.
pub proof fn law_finish_is_judged(p: FinishTaskInputs)
    ensures
        ({
            let v = finish_tree(p, true).at("verdict"@);
            let jobs = p.jobs@;
            let failures = p.tool_failures@;
            let status = p.validation@.at("status"@);
            let dirty = p.changes.output@.at("clean"@) != Tree::Bool(true);
            let unhygienic = p.hygiene is Some && is_false(p.hygiene->0.output@.at("clean"@));
            let blocks = dirty || unhygienic || is_positive(jobs.at("blocking_active_count"@))
                || is_positive(failures.at("unexpected_count"@)) || is_positive(
                failures.at("expectation_mismatch_count"@),
            ) || is_positive(failures.at("unexpected_success_count"@)) || status == Tree::Text(
                "failed"@,
            ) || status == Tree::Text("mixed"@);
            &&& v.at("blocking"@) == Tree::Bool(blocks)
            &&& blocks <==> v.at("status"@) == Tree::Text("fail"@)
            &&& lists(v.at("blocking_reasons"@), "workspace_dirty"@) <==> dirty
            &&& lists(v.at("blocking_reasons"@), "hygiene_failed"@) <==> unhygienic
            &&& lists(v.at("blocking_reasons"@), "blocking_active_jobs"@) <==> is_positive(
                jobs.at("blocking_active_count"@),
            )
            &&& lists(v.at("blocking_reasons"@), "unexpected_tool_failures"@) <==> is_positive(
                failures.at("unexpected_count"@),
            )
            &&& lists(v.at("blocking_reasons"@), "expectation_mismatches"@) <==> is_positive(
                failures.at("expectation_mismatch_count"@),
            )
            &&& lists(v.at("blocking_reasons"@), "unexpected_successes"@) <==> is_positive(
                failures.at("unexpected_success_count"@),
            )
            &&& lists(v.at("blocking_reasons"@), "validation_failed"@) <==> status == Tree::Text(
                "failed"@,
            )
            &&& lists(v.at("blocking_reasons"@), "validation_mixed"@) <==> status == Tree::Text(
                "mixed"@,
            )
            &&& lists(v.at("warning_reasons"@), "validation_not_run"@) <==> (status == Tree::Text(
                "not_run"@,
            ) || p.validation@.get("status"@) is None)
            &&& lists(v.at("warning_reasons"@), "jobs_terminal_pending"@) <==> is_positive(
                jobs.at("terminal_pending_count"@),
            )
            &&& p.hygiene is None ==> lists(v.at("warning_reasons"@), "hygiene_not_checked"@)
            &&& !lists(v.at("warning_reasons"@), "workspace_not_checked"@)
        }),
{
    let full = finish_tree(p, false);
    let clean = p.changes.output@.at("clean"@) == Tree::Bool(true);
    let hygienic = crate::tool_runtime::handoff::bool_or(full.at("hygiene"@).at("clean"@), true);
    let compact = compact_tree(full, clean, hygienic, "final_warnings"@);
    let checked = Some(!(full.at("hygiene"@) is Null));
    law_finish_tells_parts(p);
    law_compact_keeps_facts(full, clean, hygienic, "final_warnings"@);
    law_verdict_follows_summary(compact, true, checked);
    law_put_get(compact, "verdict"@, verdict_tree(compact, true, checked), "verdict"@);
    reveal_strlit("failed");
    reveal_strlit("mixed");
    reveal_strlit("not_run");
    reveal_strlit("unknown");
    reveal_strlit("fail");
    reveal_strlit("warn");
    reveal_strlit("pass");
    assert("failed"@.len() == 6);
    assert("mixed"@.len() == 5);
    assert("not_run"@.len() == 7 && "not_run"@[0] == 'n');
    assert("unknown"@.len() == 7 && "unknown"@[0] == 'u');
    assert("fail"@.len() == 4 && "fail"@[0] == 'f');
    assert("warn"@.len() == 4 && "warn"@[0] == 'w');
    assert("pass"@.len() == 4 && "pass"@[0] == 'p');
}

/// The verdict of a handoff, by what was looked up for it.
pub proof fn law_handoff_is_judged(p: HandoffInputs, asked: Option<Seq<char>>)
    ensures
        ({
            let v = handoff_tree(p, asked, true).at("verdict"@);
            let jobs = p.jobs@;
            let failures = p.tool_failures@;
            let dirty = p.workspace is Some && p.workspace->0.success && is_false(
                p.workspace->0.output@.at("clean"@),
            );
            let failed = p.validation is Some && p.validation->0@.at("status"@) == Tree::Text(
                "failed"@,
            );
            let mixed = p.validation is Some && p.validation->0@.at("status"@) == Tree::Text(
                "mixed"@,
            );
            let blocks = dirty || is_positive(jobs.at("blocking_active_count"@)) || is_positive(
                failures.at("unexpected_count"@),
            ) || is_positive(failures.at("expectation_mismatch_count"@)) || is_positive(
                failures.at("unexpected_success_count"@),
            ) || failed || mixed;
            &&& v.at("blocking"@) == Tree::Bool(blocks)
            &&& blocks <==> v.at("status"@) == Tree::Text("fail"@)
            &&& lists(v.at("blocking_reasons"@), "workspace_dirty"@) <==> dirty
            &&& lists(v.at("blocking_reasons"@), "blocking_active_jobs"@) <==> is_positive(
                jobs.at("blocking_active_count"@),
            )
            &&& lists(v.at("blocking_reasons"@), "unexpected_tool_failures"@) <==> is_positive(
                failures.at("unexpected_count"@),
            )
            &&& lists(v.at("blocking_reasons"@), "expectation_mismatches"@) <==> is_positive(
                failures.at("expectation_mismatch_count"@),
            )
            &&& lists(v.at("blocking_reasons"@), "unexpected_successes"@) <==> is_positive(
                failures.at("unexpected_success_count"@),
            )
            &&& lists(v.at("blocking_reasons"@), "validation_failed"@) <==> failed
            &&& lists(v.at("blocking_reasons"@), "validation_mixed"@) <==> mixed
            &&& lists(v.at("warning_reasons"@), "workspace_not_checked"@) <==> p.workspace is None
        }),
{
    let full = handoff_tree(p, asked, false);
    law_handoff_tells_parts(p, asked);
    let clean = crate::tool_runtime::handoff::bool_or(full.at("workspace"@).at("clean"@), true);
    let compact = compact_tree(full, clean, true, "warnings"@);
    let checked = full.get("workspace"@) is Some;
    law_compact_keeps_facts(full, clean, true, "warnings"@);
    law_verdict_follows_summary(compact, checked, None);
    law_put_get(compact, "verdict"@, verdict_tree(compact, checked, None), "verdict"@);
    reveal_strlit("failed");
    reveal_strlit("mixed");
    reveal_strlit("not_run");
    reveal_strlit("unknown");
    reveal_strlit("fail");
    reveal_strlit("warn");
    reveal_strlit("pass");
    assert("failed"@.len() == 6);
    assert("mixed"@.len() == 5);
    assert("not_run"@.len() == 7 && "not_run"@[0] == 'n');
    assert("unknown"@.len() == 7 && "unknown"@[0] == 'u');
    assert("fail"@.len() == 4 && "fail"@[0] == 'f');
    assert("warn"@.len() == 4 && "warn"@[0] == 'w');
    assert("pass"@.len() == 4 && "pass"@[0] == 'p');
}

/// The whole handoff tells what was looked up, each part under its name.
pub proof fn law_handoff_tells_parts(p: HandoffInputs, asked: Option<Seq<char>>)
    ensures
        ({
            let r = handoff_tree(p, asked, false);
            &&& r is Object
            &&& r.at("session_id"@) == Tree::Text(p.summary.session_id@)
            &&& r.at("project"@) == match p.summary.project {
                Some(s) => Tree::Text(s@),
                None => Tree::Null,
            }
            &&& r.at("permissions"@) == p.permissions@
            &&& r.at("tool_failures"@) == p.tool_failures@
            &&& r.at("jobs"@) == p.jobs@
            &&& r.get("validation"@) == match p.validation {
                Some(v) => Some(v@),
                None => None::<Tree>,
            }
            &&& (r.get("workspace"@) is Some) == (p.workspace is Some)
            &&& (r.get("checkpoints"@) is Some) == (p.checkpoints is Some)
            &&& p.workspace is Some ==> {
                let show = p.workspace->0;
                let told = r.at("workspace"@);
                &&& show.success ==> told.at("clean"@) == match show.output@.get("clean"@) {
                    Some(c) => c,
                    None => Tree::Bool(true),
                }
                &&& !show.success ==> told.at("clean"@) == Tree::Bool(true) && told.at(
                    "git_available"@,
                ) == Tree::Bool(false)
                &&& show.success ==> told.at("branch"@) == show.output@.at("branch"@) && told.at(
                    "head"@,
                ) == show.output@.at("head"@)
            }
        }),
{
    let base = handoff_base(p, asked);
    let m = project_mismatch(crate::text::opt_text(p.summary.project), asked);
    let project = match asked {
        Some(a) => a,
        None => Seq::<char>::empty(),
    };
    lemma_handoff_base(p, asked);
    let a = with_mismatch(base, m);
    let w = match p.workspace {
        Some(show) => Some(crate::tool_runtime::handoff_summary::workspace_tree(project, show@)),
        None => None,
    };
    let b = with_part(a, "workspace"@, w);
    let k = match p.checkpoints {
        Some(list) => Some(crate::tool_runtime::handoff::checkpoints_tree(list@)),
        None => None,
    };
    let c = with_part(b, "checkpoints"@, k);
    let l = match p.validation {
        Some(v) => Some(v@),
        None => None,
    };
    let d = with_part(c, "validation"@, l);
    assert(handoff_parts(p, asked) == d);
    let told = text_trees(handoff_actions(d));
    lemma_names_apart();
    assert(is_apart("project"@) && is_apart("session_id"@) && is_apart("validation"@)
        && is_apart("permissions"@) && is_apart("tool_failures"@) && is_apart("jobs"@)
        && is_apart("workspace"@) && is_apart("checkpoints"@));
    reveal_strlit("workspace");
    reveal_strlit("checkpoints");
    reveal_strlit("validation");
    reveal_strlit("session_id");
    reveal_strlit("project");
    reveal_strlit("permissions");
    reveal_strlit("tool_failures");
    reveal_strlit("jobs");
    assert("workspace"@.len() == 9);
    assert("checkpoints"@.len() == 11 && "checkpoints"@[0] == 'c');
    assert("validation"@.len() == 10 && "validation"@[0] == 'v');
    assert("session_id"@.len() == 10 && "session_id"@[0] == 's');
    assert("project"@.len() == 7);
    assert("permissions"@.len() == 11 && "permissions"@[0] == 'p');
    assert("tool_failures"@.len() == 13);
    assert("jobs"@.len() == 4);
    lemma_carried(base, m, w, k, l, told, "session_id"@);
    lemma_carried(base, m, w, k, l, told, "project"@);
    lemma_carried(base, m, w, k, l, told, "permissions"@);
    lemma_carried(base, m, w, k, l, told, "tool_failures"@);
    lemma_carried(base, m, w, k, l, told, "jobs"@);
    lemma_carried(base, m, w, k, l, told, "validation"@);
    lemma_carried(base, m, w, k, l, told, "workspace"@);
    lemma_carried(base, m, w, k, l, told, "checkpoints"@);
    let r = d.put("suggested_next_actions"@, told);
    assert(handoff_tree(p, asked, false) == r);
    if p.workspace is Some {
        lemma_workspace_told(project, p.workspace->0@);
        assert(r.at("workspace"@) == w->0);
    }
}

proof fn lemma_workspace_told(project: Seq<char>, show: ToolModel)
    ensures
        ({
            let told = crate::tool_runtime::handoff_summary::workspace_tree(project, show);
            &&& told.at("project"@) == Tree::Text(project)
            &&& show.success ==> told.at("clean"@) == match show.output.get("clean"@) {
                Some(c) => c,
                None => Tree::Bool(true),
            }
            &&& !show.success ==> told.at("clean"@) == Tree::Bool(true) && told.at(
                "git_available"@,
            ) == Tree::Bool(false)
            &&& show.success ==> told.at("branch"@) == show.output.at("branch"@) && told.at(
                "head"@,
            ) == show.output.at("head"@)
        }),
{
    reveal_strlit("project");
    reveal_strlit("git_available");
    reveal_strlit("non_git_project");
    reveal_strlit("clean");
    reveal_strlit("branch");
    reveal_strlit("head");
    reveal_strlit("changed_files_count");
    reveal_strlit("warnings");
    reveal_strlit("suggested_next_actions");
    assert("project"@.len() == 7);
    assert("git_available"@.len() == 13);
    assert("non_git_project"@.len() == 15);
    assert("clean"@.len() == 5);
    assert("branch"@.len() == 6);
    assert("head"@.len() == 4);
    assert("changed_files_count"@.len() == 19);
    assert("warnings"@.len() == 8);
    assert("suggested_next_actions"@.len() == 22);
}

proof fn lemma_carried(
    base: Tree,
    m: Option<(Seq<char>, Seq<char>)>,
    w: Option<Tree>,
    k: Option<Tree>,
    l: Option<Tree>,
    told: Tree,
    name: Seq<char>,
)
    requires
        base is Object,
        base.get("workspace"@) is None,
        base.get("checkpoints"@) is None,
        base.get("validation"@) is None,
        is_apart(name),
    ensures
        ({
            let d = with_part(
                with_part(
                    with_part(with_mismatch(base, m), "workspace"@, w),
                    "checkpoints"@,
                    k,
                ),
                "validation"@,
                l,
            );
            let r = d.put("suggested_next_actions"@, told);
            &&& r is Object
            &&& r.get(name) == if name == "workspace"@ {
                w
            } else if name == "checkpoints"@ {
                k
            } else if name == "validation"@ {
                l
            } else {
                base.get(name)
            }
        }),
{
    reveal_strlit("workspace");
    reveal_strlit("checkpoints");
    reveal_strlit("validation");
    assert("workspace"@.len() == 9);
    assert("checkpoints"@.len() == 11);
    assert("validation"@.len() == 10);
    lemma_mismatch_keeps(base, m, name);
    let a = with_mismatch(base, m);
    if w is Some {
        law_put_get(a, "workspace"@, w->0, name);
    }
    let b = with_part(a, "workspace"@, w);
    if k is Some {
        law_put_get(b, "checkpoints"@, k->0, name);
    }
    let c = with_part(b, "checkpoints"@, k);
    if l is Some {
        law_put_get(c, "validation"@, l->0, name);
    }
    let d = with_part(c, "validation"@, l);
    law_put_get(d, "suggested_next_actions"@, told, name);
}

proof fn lemma_handoff_base(p: HandoffInputs, asked: Option<Seq<char>>)
    ensures
        ({
            let base = handoff_base(p, asked);
            &&& base is Object
            &&& base.get("session_id"@) == Some(Tree::Text(p.summary.session_id@))
            &&& base.get("project"@) == Some(
                crate::json::opt_text_tree(crate::text::opt_text(p.summary.project)),
            )
            &&& base.get("permissions"@) == Some(p.permissions@)
            &&& base.get("tool_failures"@) == Some(p.tool_failures@)
            &&& base.get("jobs"@) == Some(p.jobs@)
            &&& base.get("workspace"@) is None
            &&& base.get("checkpoints"@) is None
            &&& base.get("validation"@) is None
        }),
{
    reveal_strlit("session_id");
    reveal_strlit("project");
    reveal_strlit("title");
    reveal_strlit("mode");
    reveal_strlit("guards");
    reveal_strlit("created_at");
    reveal_strlit("updated_at");
    reveal_strlit("counts");
    reveal_strlit("permissions");
    reveal_strlit("open_todos");
    reveal_strlit("open_risks");
    reveal_strlit("open_questions");
    reveal_strlit("open_guidance");
    reveal_strlit("recent_progress");
    reveal_strlit("recent_decisions");
    reveal_strlit("recent_failed_tools");
    reveal_strlit("tool_failures");
    reveal_strlit("expected_failed_tool_calls");
    reveal_strlit("unexpected_failed_tool_calls");
    reveal_strlit("expectation_mismatches");
    reveal_strlit("unexpected_success_tool_calls");
    reveal_strlit("jobs");
    reveal_strlit("warnings");
    reveal_strlit("workspace");
    reveal_strlit("checkpoints");
    reveal_strlit("validation");
    assert("session_id"@.len() == 10 && "session_id"@[0] == 's');
    assert("project"@.len() == 7);
    assert("title"@.len() == 5);
    assert("mode"@.len() == 4 && "mode"@[0] == 'm');
    assert("guards"@.len() == 6 && "guards"@[0] == 'g');
    assert("created_at"@.len() == 10 && "created_at"@[0] == 'c');
    assert("updated_at"@.len() == 10 && "updated_at"@[0] == 'u');
    assert("counts"@.len() == 6 && "counts"@[0] == 'c');
    assert("permissions"@.len() == 11 && "permissions"@[0] == 'p');
    assert("open_todos"@.len() == 10 && "open_todos"@[0] == 'o' && "open_todos"@[5] == 't');
    assert("open_risks"@.len() == 10 && "open_risks"@[0] == 'o' && "open_risks"@[5] == 'r');
    assert("open_questions"@.len() == 14);
    assert("open_guidance"@.len() == 13 && "open_guidance"@[0] == 'o');
    assert("recent_progress"@.len() == 15);
    assert("recent_decisions"@.len() == 16);
    assert("recent_failed_tools"@.len() == 19);
    assert("tool_failures"@.len() == 13 && "tool_failures"@[0] == 't');
    assert("expected_failed_tool_calls"@.len() == 26);
    assert("unexpected_failed_tool_calls"@.len() == 28);
    assert("expectation_mismatches"@.len() == 22);
    assert("unexpected_success_tool_calls"@.len() == 29);
    assert("jobs"@.len() == 4 && "jobs"@[0] == 'j');
    assert("warnings"@.len() == 8);
    assert("workspace"@.len() == 9);
    assert("checkpoints"@.len() == 11 && "checkpoints"@[0] == 'c');
    assert("validation"@.len() == 10 && "validation"@[0] == 'v');
}

} // verus!
