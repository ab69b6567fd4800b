//! What is recorded of the tool calls of a session.
use crate::json::{
    boolean, field, no_fields, null, opt_text_json, opt_text_tree, signed, text, text_array,
    text_trees, trees, unsigned, Json, ObjectBuilder, Tree,
};
use crate::text::{opt_text, str_trim, texts, trim};
use crate::tool_runtime::actions::{no_texts, push_if, with_if};
use vstd::prelude::*;

verus! {

/// One recorded tool call.
#[derive(Debug)]
pub struct SessionEvent {
    pub event_id: String,
    pub kind: String,
    pub timestamp: i64,
    pub transport: String,
    pub tool_name: Option<String>,
    pub project: Option<String>,
    pub resolved_project: Option<String>,
    pub risk_class: Option<String>,
    pub read_like: bool,
    pub write_like: bool,
    pub shell_like: bool,
    pub git_like: bool,
    pub change_summary_like: bool,
    pub started_at: Option<i64>,
    pub finished_at: Option<i64>,
    pub status: Option<String>,
    pub exit_code: Option<i64>,
    pub failure_kind: Option<String>,
    pub duration_ms: Option<u64>,
    pub error_kind: Option<String>,
    pub error_message_summary: Option<String>,
    pub changed_paths: Vec<String>,
    pub job_id: Option<String>,
}

/// A session with its recent events.
#[derive(Debug)]
pub struct SessionSummary {
    pub session_id: String,
    pub project: Option<String>,
    pub title: Option<String>,
    pub created_at: i64,
    pub updated_at: i64,
    pub mode: Json,
    pub guards: Json,
    /// The number of events by kind.
    pub counts: Json,
    pub events: Vec<SessionEvent>,
}

/// One message on the board of a session.
#[derive(Debug)]
pub struct SessionMessage {
    pub message_id: String,
    pub created_at: i64,
    pub kind: String,
    pub status: String,
    pub priority: String,
    pub message: String,
    pub tags: Vec<String>,
    pub resolved_at: Option<i64>,
}

/// The message board of a session.
#[derive(Debug)]
pub struct SessionDiscussionSummary {
    pub total: u64,
    pub todo: u64,
    pub risk: u64,
    pub question: u64,
    pub guidance: u64,
    pub open_guidance: Vec<SessionMessage>,
    pub open_questions: Vec<SessionMessage>,
    pub open_risks: Vec<SessionMessage>,
    pub open_todos: Vec<SessionMessage>,
    pub recent_progress: Vec<SessionMessage>,
    pub recent_decisions: Vec<SessionMessage>,
}

/// An optional signed number as JSON.
pub open spec fn opt_int_tree(n: Option<i64>) -> Tree {
    match n {
        Some(n) => Tree::Number(n as int),
        None => Tree::Null,
    }
}

/// An optional signed number as JSON.
pub fn opt_int_json(n: Option<i64>) -> (r: Json)
    ensures
        r@ == opt_int_tree(n),
{
    match n {
        Some(n) => signed(n),
        None => null(),
    }
}

/// An optional unsigned number as JSON.
pub open spec fn opt_uint_tree(n: Option<u64>) -> Tree {
    match n {
        Some(n) => Tree::Number(n as int),
        None => Tree::Null,
    }
}

/// An optional unsigned number as JSON.
pub fn opt_uint_json(n: Option<u64>) -> (r: Json)
    ensures
        r@ == opt_uint_tree(n),
{
    match n {
        Some(n) => unsigned(n),
        None => null(),
    }
}

/// An event as JSON.
pub open spec fn event_tree(e: SessionEvent) -> Tree {
    Tree::Object(
        no_fields()
            .push(field("event_id"@, Tree::Text(e.event_id@)))
            .push(field("kind"@, Tree::Text(e.kind@)))
            .push(field("timestamp"@, Tree::Number(e.timestamp as int)))
            .push(field("transport"@, Tree::Text(e.transport@)))
            .push(field("tool_name"@, opt_text_tree(opt_text(e.tool_name))))
            .push(field("project"@, opt_text_tree(opt_text(e.project))))
            .push(field("resolved_project"@, opt_text_tree(opt_text(e.resolved_project))))
            .push(field("risk_class"@, opt_text_tree(opt_text(e.risk_class))))
            .push(field("read_like"@, Tree::Bool(e.read_like)))
            .push(field("write_like"@, Tree::Bool(e.write_like)))
            .push(field("shell_like"@, Tree::Bool(e.shell_like)))
            .push(field("git_like"@, Tree::Bool(e.git_like)))
            .push(field("change_summary_like"@, Tree::Bool(e.change_summary_like)))
            .push(field("started_at"@, opt_int_tree(e.started_at)))
            .push(field("finished_at"@, opt_int_tree(e.finished_at)))
            .push(field("status"@, opt_text_tree(opt_text(e.status))))
            .push(field("exit_code"@, opt_int_tree(e.exit_code)))
            .push(field("failure_kind"@, opt_text_tree(opt_text(e.failure_kind))))
            .push(field("duration_ms"@, opt_uint_tree(e.duration_ms)))
            .push(field("error_kind"@, opt_text_tree(opt_text(e.error_kind))))
            .push(field("error_message_summary"@, opt_text_tree(opt_text(e.error_message_summary))))
            .push(field("changed_paths"@, text_trees(texts(e.changed_paths@))))
            .push(field("job_id"@, opt_text_tree(opt_text(e.job_id)))),
    )
}

/// An event as JSON.
pub fn show_changes_session_event(e: &SessionEvent) -> (r: Json)
    ensures
        r@ == event_tree(*e),
{
    let members =
        ObjectBuilder::new()
            .with("event_id", text(e.event_id.as_str()))
            .with("kind", text(e.kind.as_str()))
            .with("timestamp", signed(e.timestamp))
            .with("transport", text(e.transport.as_str()))
            .with("tool_name", opt_text_json(&e.tool_name))
            .with("project", opt_text_json(&e.project))
            .with("resolved_project", opt_text_json(&e.resolved_project))
            .with("risk_class", opt_text_json(&e.risk_class))
            .with("read_like", boolean(e.read_like))
            .with("write_like", boolean(e.write_like))
            .with("shell_like", boolean(e.shell_like))
            .with("git_like", boolean(e.git_like))
            .with("change_summary_like", boolean(e.change_summary_like))
            .with("started_at", opt_int_json(e.started_at))
            .with("finished_at", opt_int_json(e.finished_at))
            .with("status", opt_text_json(&e.status))
            .with("exit_code", opt_int_json(e.exit_code))
            .with("failure_kind", opt_text_json(&e.failure_kind))
            .with("duration_ms", opt_uint_json(e.duration_ms))
            .with("error_kind", opt_text_json(&e.error_kind))
            .with("error_message_summary", opt_text_json(&e.error_message_summary))
            .with("changed_paths", text_array(&e.changed_paths))
            .with("job_id", opt_text_json(&e.job_id));
    members.build()
}

/// `paths` with the paths of a list, trimmed, those that are left and not there.
pub open spec fn with_paths(paths: Seq<Seq<char>>, more: Seq<Seq<char>>) -> Seq<Seq<char>>
    decreases more.len(),
{
    if more.len() == 0 {
        paths
    } else {
        let front = with_paths(paths, more.drop_last());
        with_if(front, trim(more.last()).len() > 0, trim(more.last()))
    }
}

/// The paths that the events changed, each once.
pub open spec fn paths_changed(events: Seq<SessionEvent>) -> Seq<Seq<char>>
    decreases events.len(),
{
    if events.len() == 0 {
        seq![]
    } else {
        with_paths(paths_changed(events.drop_last()), texts(events.last().changed_paths@))
    }
}

fn add_paths(paths: &mut Vec<String>, more: &Vec<String>)
    ensures
        texts(final(paths)@) == with_paths(texts(old(paths)@), texts(more@)),
{
    let ghost base = texts(paths@);
    let ghost all = texts(more@);
    let mut i: usize = 0;
    assert(all.take(0) =~= seq![]);
    while i < more.len()
        invariant
            i <= more@.len(),
            all == texts(more@),
            texts(paths@) == with_paths(base, all.take(i as int)),
        decreases more@.len() - i,
    {
        proof {
            assert(all.take(i + 1).drop_last() =~= all.take(i as int));
            assert(all.take(i + 1).last() == more@[i as int]@);
        }
        let path = str_trim(more[i].as_str());
        push_if(paths, !path.is_empty(), path);
        i = i + 1;
    }
    assert(all.take(i as int) =~= all);
}

/// The paths that the events changed, each once.
pub fn session_changed_paths(events: &Vec<SessionEvent>) -> (r: Vec<String>)
    ensures
        texts(r@) == paths_changed(events@),
{
    let mut paths = no_texts();
    let mut i: usize = 0;
    assert(events@.take(0) =~= seq![]);
    while i < events.len()
        invariant
            i <= events@.len(),
            texts(paths@) == paths_changed(events@.take(i as int)),
        decreases events@.len() - i,
    {
        proof {
            assert(events@.take(i + 1).drop_last() =~= events@.take(i as int));
            assert(events@.take(i + 1).last() == events@[i as int]);
        }
        add_paths(&mut paths, &events[i].changed_paths);
        i = i + 1;
    }
    assert(events@.take(i as int) =~= events@);
    paths
}

/// Events as JSON.
pub open spec fn events_tree(events: Seq<SessionEvent>) -> Tree {
    Tree::Array(Seq::new(events.len(), |i: int| event_tree(events[i])))
}

/// Events as JSON.
pub fn events_json(events: &Vec<SessionEvent>) -> (r: Json)
    ensures
        r@ == events_tree(events@),
{
    let mut out: Vec<Json> = Vec::new();
    let mut i: usize = 0;
    while i < events.len()
        invariant
            i <= events@.len(),
            out@.len() == i,
            forall|j: int| 0 <= j < i ==> (#[trigger] out@[j])@ == event_tree(events@[j]),
        decreases events@.len() - i,
    {
        out.push(show_changes_session_event(&events[i]));
        i = i + 1;
    }
    assert(trees(out@) =~= Seq::new(events@.len(), |i: int| event_tree(events@[i])));
    crate::json::array(out)
}

} // verus!
