//! Handing a session over: what a reader without its context needs to know.
//! Nothing is summarized in prose, and every list is bounded.
use crate::json::{
    array, boolean, copy_or, count_of, empty_array, field, law_put_get, no_fields, no_items, null,
    signed, text, text_array, text_trees, tree_or, trees, unsigned, Json, ObjectBuilder, Tree,
};
use crate::text::{char_count, concat2, lemma_texts_push, texts};
use crate::tool_runtime::actions::{no_texts, push_if, with_if};
use crate::tool_runtime::sessions::{opt_int_json, opt_int_tree, SessionMessage};
use crate::tool_runtime::types::{ToolModel, ToolResult};
use vstd::prelude::*;
use vstd::string::*;

verus! {

pub const MAX_RECENT_CHECKPOINTS: usize = 10;

pub const HANDOFF_MESSAGE_CHARS: usize = 240;

// ---------------------------------------------------------------------------
// Bounded messages
// ---------------------------------------------------------------------------

/// `s`, or where it is longer its first `max` characters and three dots.
pub open spec fn shortened(s: Seq<char>, max: nat) -> Seq<char> {
    if s.len() <= max {
        s
    } else {
        s.take(max as int) + "..."@
    }
}

/// A text, or where it is too long its beginning and three dots.
pub fn bound_chars(value: &str, max_chars: usize) -> (r: String)
    ensures
        r@ == shortened(value@, max_chars as nat),
{
    if char_count(value) <= max_chars {
        value.to_owned()
    } else {
        assert(value@.subrange(0, max_chars as int) =~= value@.take(max_chars as int));
        concat2(value.substring_char(0, max_chars), "...")
    }
}

/// A message as it is handed over.
pub open spec fn message_tree(m: SessionMessage) -> Tree {
    Tree::Object(
        no_fields()
            .push(field("message_id"@, Tree::Text(m.message_id@)))
            .push(field("created_at"@, Tree::Number(m.created_at as int)))
            .push(field("kind"@, Tree::Text(m.kind@)))
            .push(field("status"@, Tree::Text(m.status@)))
            .push(field("priority"@, Tree::Text(m.priority@)))
            .push(field("message"@, Tree::Text(shortened(m.message@, HANDOFF_MESSAGE_CHARS as nat))))
            .push(field("tags"@, text_trees(texts(m.tags@))))
            .push(field("resolved_at"@, opt_int_tree(m.resolved_at))),
    )
}

/// At most `max` messages as they are handed over.
pub open spec fn message_trees(messages: Seq<SessionMessage>, max: nat) -> Seq<Tree> {
    Seq::new(
        if messages.len() <= max {
            messages.len()
        } else {
            max
        },
        |i: int| message_tree(messages[i]),
    )
}

fn message_json(m: &SessionMessage) -> (r: Json)
    ensures
        r@ == message_tree(*m),
{
    let body = bound_chars(m.message.as_str(), HANDOFF_MESSAGE_CHARS);
    ObjectBuilder::new()
        .with("message_id", text(m.message_id.as_str()))
        .with("created_at", signed(m.created_at))
        .with("kind", text(m.kind.as_str()))
        .with("status", text(m.status.as_str()))
        .with("priority", text(m.priority.as_str()))
        .with("message", text(body.as_str()))
        .with("tags", text_array(&m.tags))
        .with("resolved_at", opt_int_json(m.resolved_at))
        .build()
}

/// At most `max_items` messages, each with a bounded body.
pub fn bound_messages(messages: &Vec<SessionMessage>, max_items: usize) -> (r: Vec<Json>)
    ensures
        trees(r@) == message_trees(messages@, max_items as nat),
{
    let mut out: Vec<Json> = Vec::new();
    let mut i: usize = 0;
    while i < messages.len() && i < max_items
        invariant
            i <= messages@.len(),
            i <= max_items,
            out@.len() == i,
            forall|j: int| 0 <= j < i ==> (#[trigger] out@[j])@ == message_tree(messages@[j]),
        decreases messages@.len() - i,
    {
        out.push(message_json(&messages[i]));
        i = i + 1;
    }
    assert(trees(out@) =~= message_trees(messages@, max_items as nat));
    out
}

/// A list in a summary of failed tool calls, or the empty one.
pub fn output_recent(tool_failures: &Json, key: &str) -> (r: Json)
    ensures
        r@ == tree_or(tool_failures@.get(key@), Tree::Array(Seq::empty())),
{
    copy_or(tool_failures.get(key), empty_array())
}

// ---------------------------------------------------------------------------
// Compact forms
// ---------------------------------------------------------------------------

/// The number under the key, or zero.
pub fn count_field(value: &Json, key: &str) -> (r: u64)
    ensures
        r == count_of(value@.at(key@)),
{
    value.count_at(key)
}

/// The numbers of jobs, and the warnings about them.
pub open spec fn compact_jobs_tree(jobs: Tree) -> Tree {
    Tree::Object(
        no_fields()
            .push(field("active_count"@, Tree::Number(count_of(jobs.at("active_count"@)) as int)))
            .push(field("blocking_active_count"@, Tree::Number(count_of(jobs.at("blocking_active_count"@)) as int)))
            .push(field("nonblocking_active_count"@, Tree::Number(count_of(jobs.at("nonblocking_active_count"@)) as int)))
            .push(field("terminal_pending_count"@, Tree::Number(count_of(jobs.at("terminal_pending_count"@)) as int)))
            .push(field("warnings"@, tree_or(jobs.get("warnings"@), Tree::Array(Seq::empty())))),
    )
}

/// The numbers of jobs, and the warnings about them.
pub fn compact_jobs(jobs: &Json) -> (r: Json)
    ensures
        r@ == compact_jobs_tree(jobs@),
{
    let members =
        ObjectBuilder::new()
            .with("active_count", unsigned(jobs.count_at("active_count")))
            .with("blocking_active_count", unsigned(jobs.count_at("blocking_active_count")))
            .with("nonblocking_active_count", unsigned(jobs.count_at("nonblocking_active_count")))
            .with("terminal_pending_count", unsigned(jobs.count_at("terminal_pending_count")))
            .with("warnings", copy_or(jobs.get("warnings"), empty_array()));
    members.build()
}

/// The numbers of permissions.
pub open spec fn compact_permissions_tree(permissions: Tree) -> Tree {
    Tree::Object(
        no_fields()
            .push(field("required_count"@, Tree::Number(count_of(permissions.at("required_count"@)) as int)))
            .push(field("manual_approved_count"@, Tree::Number(count_of(permissions.at("manual_approved_count"@)) as int)))
            .push(field("auto_approved_count"@, Tree::Number(count_of(permissions.at("auto_approved_count"@)) as int)))
            .push(field("total_approved_count"@, Tree::Number(count_of(permissions.at("total_approved_count"@)) as int)))
            .push(field("hard_denied_count"@, Tree::Number(count_of(permissions.at("hard_denied_count"@)) as int))),
    )
}

/// The numbers of permissions.
pub fn compact_permissions(permissions: &Json) -> (r: Json)
    ensures
        r@ == compact_permissions_tree(permissions@),
{
    let members =
        ObjectBuilder::new()
            .with("required_count", unsigned(permissions.count_at("required_count")))
            .with("manual_approved_count", unsigned(permissions.count_at("manual_approved_count")))
            .with("auto_approved_count", unsigned(permissions.count_at("auto_approved_count")))
            .with("total_approved_count", unsigned(permissions.count_at("total_approved_count")))
            .with("hard_denied_count", unsigned(permissions.count_at("hard_denied_count")));
    members.build()
}

/// The numbers of failed tool calls.
pub open spec fn compact_tool_failures_tree(tool_failures: Tree) -> Tree {
    Tree::Object(
        no_fields()
            .push(field("expected_count"@, Tree::Number(count_of(tool_failures.at("expected_count"@)) as int)))
            .push(field("unexpected_count"@, Tree::Number(count_of(tool_failures.at("unexpected_count"@)) as int)))
            .push(field("expectation_mismatch_count"@, Tree::Number(count_of(tool_failures.at("expectation_mismatch_count"@)) as int)))
            .push(field("unexpected_success_count"@, Tree::Number(count_of(tool_failures.at("unexpected_success_count"@)) as int))),
    )
}

/// The numbers of failed tool calls.
pub fn compact_tool_failures(tool_failures: &Json) -> (r: Json)
    ensures
        r@ == compact_tool_failures_tree(tool_failures@),
{
    let members =
        ObjectBuilder::new()
            .with("expected_count", unsigned(tool_failures.count_at("expected_count")))
            .with("unexpected_count", unsigned(tool_failures.count_at("unexpected_count")))
            .with("expectation_mismatch_count", unsigned(tool_failures.count_at("expectation_mismatch_count")))
            .with("unexpected_success_count", unsigned(tool_failures.count_at("unexpected_success_count")));
    members.build()
}

/// How validation ended, and why.
pub open spec fn compact_validation_tree(validation: Tree) -> Tree {
    Tree::Object(
        no_fields()
            .push(field("status"@, tree_or(validation.get("status"@), Tree::Text("not_run"@))))
            .push(field("reason"@, tree_or(validation.get("reason"@), Tree::Text("no_validation_tool_invoked"@)))),
    )
}

/// How validation ended, and why.
pub fn compact_validation(validation: &Json) -> (r: Json)
    ensures
        r@ == compact_validation_tree(validation@),
{
    let members =
        ObjectBuilder::new()
            .with("status", copy_or(validation.get("status"), text("not_run")))
            .with("reason", copy_or(validation.get("reason"), text("no_validation_tool_invoked")));
    members.build()
}

/// The texts among the items.
pub open spec fn texts_in(items: Seq<Tree>) -> Seq<Seq<char>>
    decreases items.len(),
{
    if items.len() == 0 {
        seq![]
    } else {
        match items.last() {
            Tree::Text(s) => texts_in(items.drop_last()).push(s),
            _ => texts_in(items.drop_last()),
        }
    }
}

/// The texts among the items of an array.
pub fn string_array(value: Option<&Json>) -> (r: Vec<String>)
    ensures
        texts(r@) == texts_in(crate::json::tree_or_null(value).items()),
{
    let items = crate::json::copy_items(value);
    let ghost all = trees(items@);
    let mut out = no_texts();
    let mut i: usize = 0;
    assert(all.take(0) =~= seq![]);
    while i < items.len()
        invariant
            i <= items@.len(),
            all == trees(items@),
            texts(out@) == texts_in(all.take(i as int)),
        decreases items@.len() - i,
    {
        proof {
            assert(all.take(i + 1).drop_last() =~= all.take(i as int));
            assert(all.take(i + 1).last() == items@[i as int]@);
        }
        if let Some(s) = items[i].as_str() {
            let copy = s.to_owned();
            proof {
                lemma_texts_push(out@, copy);
            }
            out.push(copy);
        }
        i = i + 1;
    }
    assert(all.take(i as int) =~= all);
    out
}

// ---------------------------------------------------------------------------
// The verdict
// ---------------------------------------------------------------------------

/// Whether a number is above zero.
pub open spec fn some_of(v: Tree) -> bool {
    count_of(v) > 0
}

/// Whether every expected failure came, and nothing else failed.
pub open spec fn only_expected_failures(f: Tree) -> bool {
    &&& some_of(f.at("expected_count"@))
    &&& !some_of(f.at("unexpected_count"@))
    &&& !some_of(f.at("expectation_mismatch_count"@))
    &&& !some_of(f.at("unexpected_success_count"@))
}

/// How validation ended.
pub open spec fn validation_status(output: Tree) -> Option<Seq<char>> {
    output.at("validation"@).at("status"@).as_text()
}

/// What a verdict depends on.
#[derive(Debug, Clone, Copy)]
pub struct VerdictFacts {
    pub workspace_unchecked: bool,
    pub dirty: bool,
    pub hygiene_unchecked: bool,
    pub unhygienic: bool,
    pub blocking_jobs: bool,
    pub pending_jobs: bool,
    pub unexpected: bool,
    pub mismatches: bool,
    pub successes: bool,
    pub matched: bool,
    pub not_run: bool,
    pub failed: bool,
    pub mixed: bool,
    pub unknown: bool,
}

/// What the verdict on a compact summary depends on.
pub open spec fn facts_of(output: Tree, workspace_checked: bool, hygiene_checked: Option<bool>) -> VerdictFacts {
    let f = output.at("tool_failures"@);
    let v = validation_status(output);
    VerdictFacts {
        workspace_unchecked: !workspace_checked,
        dirty: output.at("workspace_clean"@).as_bool() == Some(false),
        hygiene_unchecked: hygiene_checked == Some(false),
        unhygienic: output.at("hygiene_clean"@).as_bool() == Some(false),
        blocking_jobs: some_of(output.at("jobs"@).at("blocking_active_count"@)),
        pending_jobs: some_of(output.at("jobs"@).at("terminal_pending_count"@)),
        unexpected: some_of(f.at("unexpected_count"@)),
        mismatches: some_of(f.at("expectation_mismatch_count"@)),
        successes: some_of(f.at("unexpected_success_count"@)),
        matched: only_expected_failures(f),
        not_run: v == Some("not_run"@),
        failed: v == Some("failed"@),
        mixed: v == Some("mixed"@),
        unknown: v is None || v == Some("unknown"@),
    }
}

fn read_facts(output: &Json, workspace_checked: bool, hygiene_checked: Option<bool>) -> (r:
    VerdictFacts)
    ensures
        r == facts_of(output@, workspace_checked, hygiene_checked),
{
    let unexpected = output.count_at2("tool_failures", "unexpected_count") > 0;
    let mismatches = output.count_at2("tool_failures", "expectation_mismatch_count") > 0;
    let successes = output.count_at2("tool_failures", "unexpected_success_count") > 0;
    let validation = output.at("validation");
    let untold = match validation.get("status") {
        Some(s) => s.as_str().is_none(),
        None => true,
    };
    VerdictFacts {
        workspace_unchecked: !workspace_checked,
        dirty: match output.bool_at("workspace_clean") {
            Some(clean) => !clean,
            None => false,
        },
        hygiene_unchecked: match hygiene_checked {
            Some(checked) => !checked,
            None => false,
        },
        unhygienic: match output.bool_at("hygiene_clean") {
            Some(clean) => !clean,
            None => false,
        },
        blocking_jobs: output.count_at2("jobs", "blocking_active_count") > 0,
        pending_jobs: output.count_at2("jobs", "terminal_pending_count") > 0,
        unexpected,
        mismatches,
        successes,
        matched: output.count_at2("tool_failures", "expected_count") > 0 && !unexpected
            && !mismatches && !successes,
        not_run: validation.is_text_at("status", "not_run"),
        failed: validation.is_text_at("status", "failed"),
        mixed: validation.is_text_at("status", "mixed"),
        unknown: untold || validation.is_text_at("status", "unknown"),
    }
}

/// What keeps the work from being closed.
pub open spec fn blocking_reasons(f: VerdictFacts) -> Seq<Seq<char>> {
    let a = with_if(Seq::empty(), f.dirty, "workspace_dirty"@);
    let a = with_if(a, f.unhygienic, "hygiene_failed"@);
    let a = with_if(a, f.blocking_jobs, "blocking_active_jobs"@);
    let a = with_if(a, f.unexpected, "unexpected_tool_failures"@);
    let a = with_if(a, f.mismatches, "expectation_mismatches"@);
    let a = with_if(a, f.successes, "unexpected_successes"@);
    let a = with_if(a, f.failed, "validation_failed"@);
    with_if(a, f.mixed, "validation_mixed"@)
}

fn blocking_list(f: VerdictFacts) -> (r: Vec<String>)
    ensures
        texts(r@) == blocking_reasons(f),
{
    let mut blocking = no_texts();
    push_if(&mut blocking, f.dirty, "workspace_dirty");
    push_if(&mut blocking, f.unhygienic, "hygiene_failed");
    push_if(&mut blocking, f.blocking_jobs, "blocking_active_jobs");
    push_if(&mut blocking, f.unexpected, "unexpected_tool_failures");
    push_if(&mut blocking, f.mismatches, "expectation_mismatches");
    push_if(&mut blocking, f.successes, "unexpected_successes");
    push_if(&mut blocking, f.failed, "validation_failed");
    push_if(&mut blocking, f.mixed, "validation_mixed");
    blocking
}

/// What a reader has to know before the work is closed.
pub open spec fn warning_reasons(f: VerdictFacts) -> Seq<Seq<char>> {
    let a = with_if(Seq::empty(), f.workspace_unchecked, "workspace_not_checked"@);
    let a = with_if(a, f.hygiene_unchecked, "hygiene_not_checked"@);
    let a = with_if(a, f.pending_jobs, "jobs_terminal_pending"@);
    let a = with_if(a, f.matched, "expected_failures_matched"@);
    let a = with_if(a, f.not_run, "validation_not_run"@);
    with_if(a, f.unknown, "validation_unknown"@)
}

fn warning_list(f: VerdictFacts) -> (r: Vec<String>)
    ensures
        texts(r@) == warning_reasons(f),
{
    let mut warnings = no_texts();
    push_if(&mut warnings, f.workspace_unchecked, "workspace_not_checked");
    push_if(&mut warnings, f.hygiene_unchecked, "hygiene_not_checked");
    push_if(&mut warnings, f.pending_jobs, "jobs_terminal_pending");
    push_if(&mut warnings, f.matched, "expected_failures_matched");
    push_if(&mut warnings, f.not_run, "validation_not_run");
    push_if(&mut warnings, f.unknown, "validation_unknown");
    warnings
}

/// What is suggested next, beside what was suggested before.
pub open spec fn verdict_actions(f: VerdictFacts, before: Seq<Seq<char>>) -> Seq<Seq<char>> {
    let a = with_if(before, f.workspace_unchecked, "run show_changes before final handoff"@);
    let a = with_if(a, f.dirty, "review workspace changes with show_changes"@);
    let a = with_if(a, f.hygiene_unchecked, "run workspace_hygiene_check before closeout"@);
    let a = with_if(a, f.unhygienic, "review workspace hygiene before closeout"@);
    let a = with_if(a, f.blocking_jobs, "stop or await blocking active jobs"@);
    let a = with_if(a, f.unexpected, "review unexpected failed tool calls before proceeding"@);
    let a = with_if(a, f.mismatches, "review expected failure mismatches before proceeding"@);
    let a = with_if(
        a,
        f.successes,
        "review expected-failure assertions that unexpectedly succeeded"@,
    );
    let a = with_if(a, f.matched, "expected failure assertions matched"@);
    let a = with_if(a, f.not_run, "run validation before closeout when available"@);
    let a = with_if(a, f.failed, "review validation failures before closeout"@);
    let a = with_if(a, f.mixed, "review mixed validation results before closeout"@);
    if a.len() == 0 {
        a.push("proceed with handoff or closeout"@)
    } else {
        a
    }
}

fn add_verdict_actions(actions: &mut Vec<String>, f: VerdictFacts)
    ensures
        texts(final(actions)@) == verdict_actions(f, texts(old(actions)@)),
{
    push_if(actions, f.workspace_unchecked, "run show_changes before final handoff");
    push_if(actions, f.dirty, "review workspace changes with show_changes");
    push_if(actions, f.hygiene_unchecked, "run workspace_hygiene_check before closeout");
    push_if(actions, f.unhygienic, "review workspace hygiene before closeout");
    push_if(actions, f.blocking_jobs, "stop or await blocking active jobs");
    push_if(actions, f.unexpected, "review unexpected failed tool calls before proceeding");
    push_if(actions, f.mismatches, "review expected failure mismatches before proceeding");
    push_if(
        actions,
        f.successes,
        "review expected-failure assertions that unexpectedly succeeded",
    );
    push_if(actions, f.matched, "expected failure assertions matched");
    push_if(actions, f.not_run, "run validation before closeout when available");
    push_if(actions, f.failed, "review validation failures before closeout");
    push_if(actions, f.mixed, "review mixed validation results before closeout");
    assert(texts(actions@).len() == actions@.len());
    if actions.len() == 0 {
        let last = "proceed with handoff or closeout".to_owned();
        proof {
            lemma_texts_push(actions@, last);
        }
        actions.push(last);
    }
}

/// What is told in sum. It fails where something blocks, and warns where a reader has to
/// know something.
pub open spec fn verdict_of(f: VerdictFacts, before: Seq<Seq<char>>) -> Tree {
    let blocking = blocking_reasons(f);
    let warnings = warning_reasons(f);
    Tree::Object(
        no_fields()
            .push(field("status"@, Tree::Text(if blocking.len() > 0 { "fail"@ } else if warnings.len() > 0 { "warn"@ } else { "pass"@ })))
            .push(field("blocking"@, Tree::Bool(blocking.len() > 0)))
            .push(field("blocking_reasons"@, text_trees(blocking)))
            .push(field("warning_reasons"@, text_trees(warnings)))
            .push(field("suggested_next_actions"@, text_trees(verdict_actions(f, before)))),
    )
}

/// The verdict on a compact summary.
pub open spec fn verdict_tree(output: Tree, workspace_checked: bool, hygiene_checked: Option<bool>) -> Tree {
    verdict_of(
        facts_of(output, workspace_checked, hygiene_checked),
        texts_in(output.at("suggested_next_actions"@).items()),
    )
}

/// The verdict on a compact summary.
pub fn compact_workflow_verdict(
    output: &Json,
    workspace_checked: bool,
    hygiene_checked: Option<bool>,
) -> (r: Json)
    ensures
        r@ == verdict_tree(output@, workspace_checked, hygiene_checked),
{
    let facts = read_facts(output, workspace_checked, hygiene_checked);
    let blocking = blocking_list(facts);
    let warnings = warning_list(facts);
    let mut actions = string_array(output.get("suggested_next_actions"));
    add_verdict_actions(&mut actions, facts);
    assert(texts(blocking@).len() == blocking@.len());
    assert(texts(warnings@).len() == warnings@.len());
    let status = if blocking.len() > 0 {
        "fail"
    } else if warnings.len() > 0 {
        "warn"
    } else {
        "pass"
    };
    ObjectBuilder::new()
        .with("status", text(status))
        .with("blocking", boolean(blocking.len() > 0))
        .with("blocking_reasons", text_array(&blocking))
        .with("warning_reasons", text_array(&warnings))
        .with("suggested_next_actions", text_array(&actions))
        .build()
}

proof fn lemma_with_if_keeps(list: Seq<Seq<char>>, wanted: bool, item: Seq<char>, x: Seq<char>)
    ensures
        list.contains(x) ==> with_if(list, wanted, item).contains(x),
        wanted ==> with_if(list, wanted, item).contains(item),
        list.len() <= with_if(list, wanted, item).len(),
{
    if wanted && !list.contains(item) {
        let all = list.push(item);
        assert(all[list.len() as int] == item);
        if list.contains(x) {
            let i = choose|i: int| 0 <= i < list.len() && list[i] == x;
            assert(all[i] == x);
        }
    }
}

/// Uncommitted changes, failed hygiene, blocking jobs, unexpected failures and failed
/// or mixed validation each keep the work from being closed, and nothing else does:
/// in these states the verdict fails, and in all others it does not.
pub proof fn law_blocking_states(f: VerdictFacts)
    ensures
        (f.dirty || f.unhygienic || f.blocking_jobs || f.unexpected || f.mismatches || f.successes
            || f.failed || f.mixed) <==> blocking_reasons(f).len() > 0,
        f.dirty ==> blocking_reasons(f).contains("workspace_dirty"@),
        f.failed ==> blocking_reasons(f).contains("validation_failed"@),
{
    let a0 = Seq::<Seq<char>>::empty();
    let a1 = with_if(a0, f.dirty, "workspace_dirty"@);
    let a2 = with_if(a1, f.unhygienic, "hygiene_failed"@);
    let a3 = with_if(a2, f.blocking_jobs, "blocking_active_jobs"@);
    let a4 = with_if(a3, f.unexpected, "unexpected_tool_failures"@);
    let a5 = with_if(a4, f.mismatches, "expectation_mismatches"@);
    let a6 = with_if(a5, f.successes, "unexpected_successes"@);
    let a7 = with_if(a6, f.failed, "validation_failed"@);
    let d = "workspace_dirty"@;
    lemma_with_if_keeps(a0, f.dirty, d, d);
    lemma_with_if_keeps(a1, f.unhygienic, "hygiene_failed"@, d);
    lemma_with_if_keeps(a2, f.blocking_jobs, "blocking_active_jobs"@, d);
    lemma_with_if_keeps(a3, f.unexpected, "unexpected_tool_failures"@, d);
    lemma_with_if_keeps(a4, f.mismatches, "expectation_mismatches"@, d);
    lemma_with_if_keeps(a5, f.successes, "unexpected_successes"@, d);
    lemma_with_if_keeps(a6, f.failed, "validation_failed"@, d);
    lemma_with_if_keeps(a7, f.mixed, "validation_mixed"@, d);
    lemma_with_if_keeps(a7, f.mixed, "validation_mixed"@, "validation_failed"@);
}

// ---------------------------------------------------------------------------
// Suggestions
// ---------------------------------------------------------------------------

/// The suggestions that follow from failed tool calls.
pub open spec fn failure_actions(f: Tree) -> Seq<Seq<char>> {
    let a = with_if(
        Seq::empty(),
        some_of(f.at("unexpected_count"@)),
        "review unexpected failed tool calls before proceeding"@,
    );
    let a = with_if(
        a,
        some_of(f.at("expectation_mismatch_count"@)),
        "review expected failure mismatches before proceeding"@,
    );
    let a = with_if(
        a,
        some_of(f.at("unexpected_success_count"@)),
        "review expected-failure assertions that unexpectedly succeeded"@,
    );
    with_if(a, only_expected_failures(f), "expected failure assertions matched"@)
}

/// The suggestions that follow from failed tool calls.
pub fn failure_suggestions(output: &Json) -> (r: Vec<String>)
    ensures
        texts(r@) == failure_actions(output@.at("tool_failures"@)),
{
    let unexpected = output.count_at2("tool_failures", "unexpected_count") > 0;
    let mismatches = output.count_at2("tool_failures", "expectation_mismatch_count") > 0;
    let successes = output.count_at2("tool_failures", "unexpected_success_count") > 0;
    let expected = output.count_at2("tool_failures", "expected_count") > 0;
    let mut actions = no_texts();
    push_if(&mut actions, unexpected, "review unexpected failed tool calls before proceeding");
    push_if(&mut actions, mismatches, "review expected failure mismatches before proceeding");
    push_if(
        &mut actions,
        successes,
        "review expected-failure assertions that unexpectedly succeeded",
    );
    push_if(
        &mut actions,
        expected && !unexpected && !mismatches && !successes,
        "expected failure assertions matched",
    );
    actions
}

/// What is suggested to whoever takes the session over.
pub open spec fn handoff_actions(output: Tree) -> Seq<Seq<char>> {
    let counts = output.at("counts"@);
    let a = failure_actions(output.at("tool_failures"@));
    let a = with_if(a, some_of(counts.at("open_todos"@)), "address open todos"@);
    let a = with_if(a, some_of(counts.at("open_risks"@)), "mitigate open risks"@);
    let a = with_if(a, some_of(counts.at("open_questions"@)), "answer open questions"@);
    let a = with_if(
        a,
        output.at("workspace"@).at("git_available"@).as_bool() == Some(true) && output.at(
            "workspace"@,
        ).at("clean"@).as_bool() == Some(false),
        "review workspace changes with show_changes"@,
    );
    let a = with_if(
        a,
        output.get("checkpoints"@) is Some && output.at("checkpoints"@).at(
            "latest_last_known_good"@,
        ) is Null,
        "consider creating a last_known_good checkpoint"@,
    );
    if a.len() == 0 {
        a.push("session is ready for handoff; proceed with the next task step"@)
    } else {
        a
    }
}

/// What is suggested to whoever takes the session over.
pub fn handoff_suggested_next_actions(output: &Json) -> (r: Vec<String>)
    ensures
        texts(r@) == handoff_actions(output@),
{
    let mut actions = failure_suggestions(output);
    push_if(&mut actions, output.count_at2("counts", "open_todos") > 0, "address open todos");
    push_if(&mut actions, output.count_at2("counts", "open_risks") > 0, "mitigate open risks");
    push_if(
        &mut actions,
        output.count_at2("counts", "open_questions") > 0,
        "answer open questions",
    );
    let git_available = match output.bool_at2("workspace", "git_available") {
        Some(b) => b,
        None => false,
    };
    let dirty = match output.bool_at2("workspace", "clean") {
        Some(clean) => !clean,
        None => false,
    };
    push_if(&mut actions, git_available && dirty, "review workspace changes with show_changes");
    let no_checkpoint = match output.get("checkpoints") {
        Some(checkpoints) => checkpoints.at("latest_last_known_good").is_null(),
        None => false,
    };
    push_if(&mut actions, no_checkpoint, "consider creating a last_known_good checkpoint");
    assert(texts(actions@).len() == actions@.len());
    if actions.len() == 0 {
        let last = "session is ready for handoff; proceed with the next task step".to_owned();
        proof {
            lemma_texts_push(actions@, last);
        }
        actions.push(last);
    }
    actions
}

// ---------------------------------------------------------------------------
// The compact summary
// ---------------------------------------------------------------------------

/// The truth value, or the default where there is none.
pub open spec fn bool_or(v: Tree, default: bool) -> bool {
    match v.as_bool() {
        Some(b) => b,
        None => default,
    }
}

/// A summary in compact form, without its verdict.
pub open spec fn compact_tree(
    output: Tree,
    workspace_clean: bool,
    hygiene_clean: bool,
    warnings: Seq<char>,
) -> Tree {
    Tree::Object(
        no_fields()
            .push(field("summary_only"@, Tree::Bool(true)))
            .push(field("project"@, output.at("project"@)))
            .push(field("session_id"@, output.at("session_id"@)))
            .push(field("workspace_clean"@, Tree::Bool(workspace_clean)))
            .push(field("hygiene_clean"@, Tree::Bool(hygiene_clean)))
            .push(field("jobs"@, compact_jobs_tree(output.at("jobs"@))))
            .push(field("permissions"@, compact_permissions_tree(output.at("permissions"@))))
            .push(field("tool_failures"@, compact_tool_failures_tree(output.at("tool_failures"@))))
            .push(field("validation"@, compact_validation_tree(output.at("validation"@))))
            .push(field("warnings"@, tree_or(output.get(warnings), Tree::Array(Seq::empty()))))
            .push(field("suggested_next_actions"@, tree_or(output.get("suggested_next_actions"@), Tree::Array(Seq::empty())))),
    )
}

/// A summary in compact form, without its verdict. Its warnings stand under the
/// name `warnings` of the output.
pub fn compact_summary(output: &Json, workspace_clean: bool, hygiene_clean: bool, warnings: &str) -> (r:
    Json)
    ensures
        r@ == compact_tree(output@, workspace_clean, hygiene_clean, warnings@),
{
    ObjectBuilder::new()
        .with("summary_only", boolean(true))
        .with("project", output.at("project"))
        .with("session_id", output.at("session_id"))
        .with("workspace_clean", boolean(workspace_clean))
        .with("hygiene_clean", boolean(hygiene_clean))
        .with("jobs", compact_jobs(&output.at("jobs")))
        .with("permissions", compact_permissions(&output.at("permissions")))
        .with("tool_failures", compact_tool_failures(&output.at("tool_failures")))
        .with("validation", compact_validation(&output.at("validation")))
        .with("warnings", copy_or(output.get(warnings), empty_array()))
        .with("suggested_next_actions", copy_or(output.get("suggested_next_actions"), empty_array()))
        .build()
}

/// A handoff in compact form, with its verdict.
pub open spec fn compact_handoff_tree(output: Tree) -> Tree {
    let compact = compact_tree(
        output,
        bool_or(output.at("workspace"@).at("clean"@), true),
        true,
        "warnings"@,
    );
    compact.put("verdict"@, verdict_tree(compact, output.get("workspace"@) is Some, None))
}

/// A handoff in compact form, with its verdict.
pub fn compact_handoff_output(output: &Json) -> (r: Json)
    ensures
        r@ == compact_handoff_tree(output@),
{
    let clean = match output.bool_at2("workspace", "clean") {
        Some(b) => b,
        None => true,
    };
    let mut compact = compact_summary(output, clean, true, "warnings");
    let verdict = compact_workflow_verdict(&compact, output.get("workspace").is_some(), None);
    compact.set("verdict", verdict);
    compact
}

// ---------------------------------------------------------------------------
// Checkpoints
// ---------------------------------------------------------------------------

/// Whether a checkpoint is a last known good one.
pub open spec fn is_known_good(c: Tree) -> bool {
    c.at("kind"@).as_text() == Some("last_known_good"@)
}

/// Whether the validation of a checkpoint passed.
pub open spec fn has_passed(c: Tree) -> bool {
    c.at("validation_status"@).as_text() == Some("passed"@)
}

/// When a checkpoint was made.
pub open spec fn made_at(c: Tree) -> i64 {
    match c.at("created_at"@).as_i64() {
        Some(t) => t,
        None => 0,
    }
}

/// Whether `a` is to be preferred to `b`: one that passed to one that did not, and
/// of two alike the later one.
pub open spec fn is_better(a: Tree, b: Tree) -> bool {
    (has_passed(a) && !has_passed(b)) || (has_passed(a) == has_passed(b) && made_at(a) > made_at(b))
}

/// The last known good checkpoint that is preferred; of equal ones the first.
pub open spec fn latest_good(s: Seq<Tree>) -> Option<Tree>
    decreases s.len(),
{
    if s.len() == 0 {
        None
    } else {
        let front = latest_good(s.drop_last());
        if !is_known_good(s.last()) {
            front
        } else {
            match front {
                None => Some(s.last()),
                Some(c) => if is_better(s.last(), c) {
                    Some(s.last())
                } else {
                    front
                },
            }
        }
    }
}

/// The checkpoint that is chosen is a last known good one of the list, and none of
/// the others is to be preferred to it. None is chosen only where there is none.
pub proof fn law_latest_good(s: Seq<Tree>)
    ensures
        match latest_good(s) {
            Some(c) => s.contains(c) && is_known_good(c) && forall|i: int|
                0 <= i < s.len() && is_known_good(#[trigger] s[i]) ==> !is_better(s[i], c),
            None => forall|i: int| 0 <= i < s.len() ==> !is_known_good(#[trigger] s[i]),
        },
    decreases s.len(),
{
    if s.len() > 0 {
        let front = s.drop_last();
        law_latest_good(front);
        assert(s[s.len() - 1] == s.last());
        assert forall|i: int| 0 <= i < front.len() implies #[trigger] s[i] == front[i] by {}
        match latest_good(front) {
            Some(c) => {
                let k = choose|k: int| 0 <= k < front.len() && front[k] == c;
                assert(s[k] == c);
            },
            None => {},
        }
    }
}

/// A checkpoint as it is handed over; one that is singled out has its labels too.
pub open spec fn checkpoint_tree(c: Tree, labels: bool) -> Tree {
    let head = no_fields().push(field("checkpoint_id"@, c.at("checkpoint_id"@))).push(
        field("kind"@, c.at("kind"@)),
    );
    let labelled = if labels {
        head.push(field("labels"@, tree_or(c.get("labels"@), Tree::Array(Seq::empty()))))
    } else {
        head
    };
    Tree::Object(
        labelled.push(
            field(
                "validation_status"@,
                tree_or(c.get("validation_status"@), Tree::Text("unknown"@)),
            ),
        ).push(field("created_at"@, c.at("created_at"@))).push(field("title"@, c.at("title"@))),
    )
}

fn checkpoint_json(c: &Json, labels: bool) -> (r: Json)
    ensures
        r@ == checkpoint_tree(c@, labels),
{
    let head = ObjectBuilder::new().with("checkpoint_id", c.at("checkpoint_id")).with(
        "kind",
        c.at("kind"),
    );
    let labelled = if labels {
        head.with("labels", copy_or(c.get("labels"), empty_array()))
    } else {
        head
    };
    labelled.with(
        "validation_status",
        copy_or(c.get("validation_status"), text("unknown")),
    ).with("created_at", c.at("created_at")).with("title", c.at("title")).build()
}

/// The checkpoints of a project as they are handed over.
pub open spec fn checkpoints_tree(list: ToolModel) -> Tree {
    let all = if list.success {
        list.output.at("checkpoints"@).items()
    } else {
        Seq::empty()
    };
    Tree::Object(
        no_fields()
            .push(field("latest_last_known_good"@, match latest_good(all) {
                Some(c) => checkpoint_tree(c, true),
                None => Tree::Null,
            }))
            .push(field("recent"@, Tree::Array(Seq::new(
                if all.len() <= MAX_RECENT_CHECKPOINTS { all.len() } else { MAX_RECENT_CHECKPOINTS as nat },
                |i: int| checkpoint_tree(all[i], false),
            )))),
    )
}

fn find_latest_good(all: &Vec<Json>) -> (r: Option<usize>)
    ensures
        match r {
            Some(i) => i < all@.len() && latest_good(trees(all@)) == Some(all@[i as int]@),
            None => latest_good(trees(all@)) is None,
        },
{
    let ghost models = trees(all@);
    let mut best: Option<usize> = None;
    let mut i: usize = 0;
    assert(models.take(0) =~= seq![]);
    while i < all.len()
        invariant
            i <= all@.len(),
            models == trees(all@),
            match best {
                Some(k) => k < i && latest_good(models.take(i as int)) == Some(all@[k as int]@),
                None => latest_good(models.take(i as int)) is None,
            },
        decreases all@.len() - i,
    {
        proof {
            assert(models.take(i + 1).drop_last() =~= models.take(i as int));
            assert(models.take(i + 1).last() == all@[i as int]@);
        }
        if all[i].is_text_at("kind", "last_known_good") {
            match best {
                None => {
                    best = Some(i);
                },
                Some(k) => {
                    let passed = all[i].is_text_at("validation_status", "passed");
                    let best_passed = all[k].is_text_at("validation_status", "passed");
                    let time: i64 = match all[i].i64_at("created_at") {
                        Some(t) => t,
                        None => 0,
                    };
                    let best_time: i64 = match all[k].i64_at("created_at") {
                        Some(t) => t,
                        None => 0,
                    };
                    if (passed && !best_passed) || (passed == best_passed && time > best_time) {
                        best = Some(i);
                    }
                },
            }
        }
        i = i + 1;
    }
    assert(models.take(i as int) =~= models);
    best
}

/// The checkpoints of a project as they are handed over, given the list of them.
pub fn handoff_checkpoint_summary(list: &ToolResult) -> (r: Json)
    ensures
        r@ == checkpoints_tree(list@),
{
    let all = if list.success {
        list.output.items_at("checkpoints")
    } else {
        no_items()
    };
    let latest = match find_latest_good(&all) {
        Some(i) => checkpoint_json(&all[i], true),
        None => null(),
    };
    let mut recent: Vec<Json> = Vec::new();
    let mut i: usize = 0;
    let ghost models = trees(all@);
    while i < all.len() && i < MAX_RECENT_CHECKPOINTS
        invariant
            i <= all@.len(),
            i <= MAX_RECENT_CHECKPOINTS,
            models == trees(all@),
            recent@.len() == i,
            forall|j: int|
                0 <= j < i ==> (#[trigger] recent@[j])@ == checkpoint_tree(models[j], false),
        decreases all@.len() - i,
    {
        recent.push(checkpoint_json(&all[i], false));
        i = i + 1;
    }
    assert(trees(recent@) =~= Seq::new(
        if models.len() <= MAX_RECENT_CHECKPOINTS {
            models.len()
        } else {
            MAX_RECENT_CHECKPOINTS as nat
        },
        |i: int| checkpoint_tree(models[i], false),
    ));
    ObjectBuilder::new()
        .with("latest_last_known_good", latest)
        .with("recent", array(recent))
        .build()
}

/// No more messages are handed over than asked for, and none with a long body.
pub proof fn law_messages_are_bounded(messages: Seq<SessionMessage>, max: nat, i: int)
    requires
        0 <= i < message_trees(messages, max).len(),
    ensures
        message_trees(messages, max).len() <= max,
        message_trees(messages, max)[i] == message_tree(messages[i]),
        shortened(messages[i].message@, HANDOFF_MESSAGE_CHARS as nat).len()
            <= HANDOFF_MESSAGE_CHARS + 3,
{
    reveal_strlit("...");
    assert("..."@.len() == 3);
}

/// Of a checkpoint nothing is handed over but its id, its kind, its labels, how its
/// validation ended, its time and its title: neither commands nor diffs.
pub proof fn law_checkpoints_tell_only(c: Tree, name: Seq<char>, value: Tree, labels: bool)
    requires
        c is Object,
        name != "checkpoint_id"@,
        name != "kind"@,
        name != "labels"@,
        name != "validation_status"@,
        name != "created_at"@,
        name != "title"@,
    ensures
        checkpoint_tree(c.put(name, value), labels) == checkpoint_tree(c, labels),
{
    law_put_get(c, name, value, "checkpoint_id"@);
    law_put_get(c, name, value, "kind"@);
    law_put_get(c, name, value, "labels"@);
    law_put_get(c, name, value, "validation_status"@);
    law_put_get(c, name, value, "created_at"@);
    law_put_get(c, name, value, "title"@);
}

} // verus!
