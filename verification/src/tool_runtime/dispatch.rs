//! What happens to a call before and after its tool does its work.
//!
//! The work of most tools is done elsewhere. What is decided here is in which session
//! a call is recorded, whether it gets through, and what is told of the outcome.
use crate::json::{
    boolean, field, no_fields, null, opt_text_json, opt_text_tree, signed, text, Json,
    ObjectBuilder, Tree,
};
use crate::shell_client::access::{caller, AuthContext, AuthModel};
use crate::text::{opt_str, opt_text, opt_view, str_eq};
use crate::tool_runtime::calls::{
    is_current_session_eligible, name_of, takes_current_session, ToolCall, ToolKind,
};
use crate::tool_runtime::project_resolution::{ResolvedModel, ResolvedProject};
use crate::tool_runtime::session_context::{
    current_session_key, current_session_unavailable_result, guard_denied, message_refused,
    no_current_session, session_guard_denied_result, session_key, session_message_error_result,
    unknown_session, unknown_session_result, CurrentSessionKey, KeyModel, SessionGuardDenial,
    SessionMessageError, SessionTransport,
};
use crate::tool_runtime::types::{tool_failed, tool_ok, ToolModel, ToolResult};
use vstd::prelude::*;

verus! {

/// Why nobody can have Codex run from here.
pub const RUN_CODEX_DISABLED_MESSAGE: &'static str = "run_codex is currently disabled on model-facing surfaces; use run_job or external local Codex manually.";

/// The answer to a call that would have Codex run.
pub open spec fn run_codex_disabled() -> ToolModel {
    tool_failed(
        Tree::Object(
            no_fields()
                .push(field("code"@, Tree::Text("run_codex_disabled"@)))
                .push(field("tool"@, Tree::Text("run_codex"@)))
                .push(field("message"@, Tree::Text(RUN_CODEX_DISABLED_MESSAGE@))),
        ),
        RUN_CODEX_DISABLED_MESSAGE@,
    )
}

/// The answer to a call that would have Codex run.
pub fn run_codex_disabled_result() -> (r: ToolResult)
    ensures
        r@ == run_codex_disabled(),
{
    ToolResult::failed(
        ObjectBuilder::new()
            .with("code", text("run_codex_disabled"))
            .with("tool", text("run_codex"))
            .with("message", text(RUN_CODEX_DISABLED_MESSAGE))
            .build(),
        RUN_CODEX_DISABLED_MESSAGE,
    )
}

// ---------------------------------------------------------------------------
// The session of a call
// ---------------------------------------------------------------------------

/// In which session a call is recorded.
#[derive(Debug)]
pub enum SessionChoice {
    /// In the one that it names, or in none.
    AsNamed,
    /// In the current session under the key, where there is one.
    Current(CurrentSessionKey),
    /// The call is refused.
    Refuse(ToolResult),
}

/// Whether the current session is looked up for a call.
pub open spec fn looks_for_current(call: ToolCall, resolved: Option<Seq<char>>, use_current: bool) -> bool {
    use_current && call.session_id is None && takes_current_session(call) && resolved is Some
}

/// Chooses the session in which a call is recorded; `resolved_project` is the project
/// that it is about, where that could be resolved.
pub fn choose_session(
    call: &ToolCall,
    auth: Option<&AuthContext>,
    transport: SessionTransport,
    resolved_project: Option<&str>,
    use_current_session: bool,
) -> (r: SessionChoice)
    ensures
        if looks_for_current(*call, opt_str(resolved_project), use_current_session) {
            match session_key(caller(auth), transport, resolved_project->0@) {
                Ok(key) => r is Current && r->Current_0@ == key,
                Err(e) => r is Refuse && r->Refuse_0@ == no_current_session(e),
            }
        } else {
            r is AsNamed
        },
{
    if use_current_session && call.session_id.is_none() && is_current_session_eligible(call) {
        if let Some(project) = resolved_project {
            return match current_session_key(auth, transport, project) {
                Ok(key) => SessionChoice::Current(key),
                Err(e) => SessionChoice::Refuse(current_session_unavailable_result(e.as_str())),
            };
        }
    }
    SessionChoice::AsNamed
}

/// The call recorded in the current session that was found, where one was.
pub fn with_effective_session(call: ToolCall, current: Option<String>) -> (r: ToolCall)
    ensures
        r.kind == call.kind,
        r.project == call.project,
        r.arguments == call.arguments,
        r.session_id == (match current {
            Some(id) => Some(id),
            None => call.session_id,
        }),
{
    match current {
        Some(id) => ToolCall {
            kind: call.kind,
            project: call.project,
            session_id: Some(id),
            arguments: call.arguments,
        },
        None => call,
    }
}

/// Whether a call gets through to its tool.
#[derive(Debug)]
pub enum Admission {
    /// It does.
    Admit,
    /// It does not, and no session records it.
    Refuse(ToolResult),
    /// It does not, and its session, where it has one, records it under this kind of
    /// error.
    RefuseRecorded(ToolResult, &'static str),
}

/// Whether a call gets through, as far as its session decides: the session has to
/// exist, Codex does not run from here, and the guards of the session have to let the
/// tool run.
pub fn admit_call(call: &ToolCall, session_known: bool, denial: Option<SessionGuardDenial>) -> (r:
    Admission)
    ensures
        if call.session_id is Some && !session_known {
            r is Refuse && r->Refuse_0@ == unknown_session(call.session_id->0@)
        } else if call.kind == ToolKind::RunCodex {
            r is RefuseRecorded && r->RefuseRecorded_0@ == run_codex_disabled()
                && r->RefuseRecorded_1@ == "tool_disabled"@
        } else if call.session_id is Some && denial is Some {
            r is RefuseRecorded && r->RefuseRecorded_0@ == guard_denied(
                call.session_id->0@,
                name_of(call.kind),
                denial->0,
            ) && r->RefuseRecorded_1@ == "session_guard_denied"@
        } else {
            r is Admit
        },
{
    if let Some(id) = &call.session_id {
        if !session_known {
            return Admission::Refuse(unknown_session_result(id.as_str()));
        }
    }
    let codex = match call.kind {
        ToolKind::RunCodex => true,
        _ => false,
    };
    if codex {
        return Admission::RefuseRecorded(run_codex_disabled_result(), "tool_disabled");
    }
    if let Some(id) = &call.session_id {
        if let Some(d) = &denial {
            let result = session_guard_denied_result(id.as_str(), call.kind.tool_name(), d);
            return Admission::RefuseRecorded(result, "session_guard_denied");
        }
    }
    Admission::Admit
}

// ---------------------------------------------------------------------------
// What is told of sessions
// ---------------------------------------------------------------------------

/// A session as far as the session tools tell of it.
#[derive(Debug)]
pub struct SessionInfo {
    pub session_id: String,
    pub project: Option<String>,
    pub title: Option<String>,
    pub mode: Json,
    pub guards: Json,
    pub created_at: i64,
}

/// The input and the id of a resolved project, or null.
pub open spec fn input_tree(p: Option<ResolvedModel>) -> Tree {
    match p {
        Some(p) => Tree::Text(p.input),
        None => Tree::Null,
    }
}

/// The id of a resolved project, or null.
pub open spec fn resolved_tree(p: Option<ResolvedModel>) -> Tree {
    match p {
        Some(p) => Tree::Text(p.resolved_id),
        None => Tree::Null,
    }
}

/// The answer to the start of a session.
pub open spec fn session_started(
    resolved: Option<ResolvedModel>,
    session: SessionInfo,
    instructions: Tree,
) -> ToolModel {
    tool_ok(
        Tree::Object(
            no_fields()
                .push(field("success"@, Tree::Bool(true)))
                .push(field("session_id"@, Tree::Text(session.session_id@)))
                .push(field("project"@, opt_text_tree(opt_text(session.project))))
                .push(field("project_input"@, input_tree(resolved)))
                .push(field("resolved_project"@, resolved_tree(resolved)))
                .push(field("title"@, opt_text_tree(opt_text(session.title))))
                .push(field("mode"@, session.mode@))
                .push(field("guards"@, session.guards@))
                .push(field("created_at"@, Tree::Number(session.created_at as int)))
                .push(field("project_instructions"@, instructions)),
        ),
    )
}

/// The answer to the start of a session.
pub fn start_session_result(
    resolved: &Option<ResolvedProject>,
    session: &SessionInfo,
    instructions: &Json,
) -> (r: ToolResult)
    ensures
        r@ == session_started(opt_view(*resolved), *session, instructions@),
{
    let (input, id) = match resolved {
        Some(p) => (text(p.input.as_str()), text(p.resolved_id.as_str())),
        None => (null(), null()),
    };
    ToolResult::ok(
        ObjectBuilder::new()
            .with("success", boolean(true))
            .with("session_id", text(session.session_id.as_str()))
            .with("project", opt_text_json(&session.project))
            .with("project_input", input)
            .with("resolved_project", id)
            .with("title", opt_text_json(&session.title))
            .with("mode", session.mode.copy())
            .with("guards", session.guards.copy())
            .with("created_at", signed(session.created_at))
            .with("project_instructions", instructions.copy())
            .build(),
    )
}

/// The answer to a question for a session: the session, or that there is none.
pub open spec fn summary_told(session_id: Seq<char>, summary: Option<Json>) -> ToolModel {
    match summary {
        Some(s) => tool_ok(s@),
        None => unknown_session(session_id),
    }
}

/// The answer to a question for a session: the session, or that there is none.
pub fn session_summary_result(session_id: &str, summary: Option<Json>) -> (r: ToolResult)
    ensures
        r@ == summary_told(session_id@, summary),
{
    match summary {
        Some(s) => ToolResult::ok(s),
        None => unknown_session_result(session_id),
    }
}

/// A message that was posted or resolved, as it is told.
pub open spec fn message_done(session_id: Seq<char>, message_id: Seq<char>, message: Tree) -> ToolModel {
    tool_ok(
        Tree::Object(
            no_fields()
                .push(field("success"@, Tree::Bool(true)))
                .push(field("session_id"@, Tree::Text(session_id)))
                .push(field("message_id"@, Tree::Text(message_id)))
                .push(field("message"@, message)),
        ),
    )
}

/// The answer to a message that was posted or resolved. `asked` is the message that
/// was to be resolved.
pub open spec fn message_told(
    session_id: Seq<char>,
    asked: Option<Seq<char>>,
    outcome: Result<(String, Json), SessionMessageError>,
) -> ToolModel {
    match outcome {
        Ok((id, message)) => message_done(session_id, id@, message@),
        Err(e) => message_refused(session_id, asked, e),
    }
}

/// The answer to a message that was posted or resolved. `asked` is the message that
/// was to be resolved.
pub fn session_message_result(
    session_id: &str,
    asked: Option<&str>,
    outcome: Result<(String, Json), SessionMessageError>,
) -> (r: ToolResult)
    ensures
        r@ == message_told(session_id@, opt_str(asked), outcome),
{
    match outcome {
        Ok((id, message)) => ToolResult::ok(
            ObjectBuilder::new()
                .with("success", boolean(true))
                .with("session_id", text(session_id))
                .with("message_id", text(id.as_str()))
                .with("message", message)
                .build(),
        ),
        Err(e) => session_message_error_result(session_id, asked, &e),
    }
}

/// The answer to a question for the messages of a session.
pub open spec fn messages_told(
    session_id: Seq<char>,
    outcome: Result<Json, SessionMessageError>,
) -> ToolModel {
    match outcome {
        Ok(messages) => tool_ok(
            Tree::Object(
                no_fields()
                    .push(field("success"@, Tree::Bool(true)))
                    .push(field("session_id"@, Tree::Text(session_id)))
                    .push(field("messages"@, messages@)),
            ),
        ),
        Err(e) => message_refused(session_id, None, e),
    }
}

/// The answer to a question for the messages of a session.
pub fn list_session_messages_result(
    session_id: &str,
    outcome: Result<Json, SessionMessageError>,
) -> (r: ToolResult)
    ensures
        r@ == messages_told(session_id@, outcome),
{
    match outcome {
        Ok(messages) => ToolResult::ok(
            ObjectBuilder::new()
                .with("success", boolean(true))
                .with("session_id", text(session_id))
                .with("messages", messages)
                .build(),
        ),
        Err(e) => session_message_error_result(session_id, None, &e),
    }
}

/// The message board of a session in the words of its store.
#[derive(Debug)]
pub struct DiscussionParts {
    pub counts: Json,
    pub open_guidance: Json,
    pub open_questions: Json,
    pub open_risks: Json,
    pub open_todos: Json,
    pub recent_progress: Json,
    pub recent_decisions: Json,
}

/// The answer to a question for the message board of a session.
pub open spec fn discussion_told(
    session_id: Seq<char>,
    outcome: Result<DiscussionParts, SessionMessageError>,
) -> ToolModel {
    match outcome {
        Ok(d) => tool_ok(
            Tree::Object(
                no_fields()
                    .push(field("success"@, Tree::Bool(true)))
                    .push(field("session_id"@, Tree::Text(session_id)))
                    .push(field("counts"@, d.counts@))
                    .push(field("open_guidance"@, d.open_guidance@))
                    .push(field("open_questions"@, d.open_questions@))
                    .push(field("open_risks"@, d.open_risks@))
                    .push(field("open_todos"@, d.open_todos@))
                    .push(field("recent_progress"@, d.recent_progress@))
                    .push(field("recent_decisions"@, d.recent_decisions@)),
            ),
        ),
        Err(e) => message_refused(session_id, None, e),
    }
}

/// The answer to a question for the message board of a session.
pub fn session_discussion_summary_result(
    session_id: &str,
    outcome: Result<DiscussionParts, SessionMessageError>,
) -> (r: ToolResult)
    ensures
        r@ == discussion_told(session_id@, outcome),
{
    match outcome {
        Ok(d) => ToolResult::ok(
            ObjectBuilder::new()
                .with("success", boolean(true))
                .with("session_id", text(session_id))
                .with("counts", d.counts)
                .with("open_guidance", d.open_guidance)
                .with("open_questions", d.open_questions)
                .with("open_risks", d.open_risks)
                .with("open_todos", d.open_todos)
                .with("recent_progress", d.recent_progress)
                .with("recent_decisions", d.recent_decisions)
                .build(),
        ),
        Err(e) => session_message_error_result(session_id, None, &e),
    }
}

// ---------------------------------------------------------------------------
// Binding the current session
// ---------------------------------------------------------------------------

/// The complaint that a session is of another project than the one that it is to be
/// the current session of.
pub open spec fn wrong_project(
    session_id: Seq<char>,
    session_project: Option<Seq<char>>,
    project: Seq<char>,
    resolved: Seq<char>,
) -> ToolModel {
    tool_failed(
        Tree::Object(
            no_fields()
                .push(field("error_kind"@, Tree::Text("session_project_mismatch"@)))
                .push(field("session_id"@, Tree::Text(session_id)))
                .push(field("session_project"@, opt_text_tree(session_project)))
                .push(field("project"@, Tree::Text(project)))
                .push(field("resolved_project"@, Tree::Text(resolved))),
        ),
        "session_project_mismatch"@,
    )
}

/// Why a session is not made the current one of a project, or under which key it is.
pub open spec fn bind_decision(
    auth: Option<AuthModel>,
    transport: SessionTransport,
    project: Seq<char>,
    resolved: Seq<char>,
    session_id: Seq<char>,
    session: Option<Option<Seq<char>>>,
) -> Result<KeyModel, ToolModel> {
    match session {
        None => Err(unknown_session(session_id)),
        Some(session_project) => if session_project != Some(resolved) {
            Err(wrong_project(session_id, session_project, project, resolved))
        } else {
            match session_key(auth, transport, resolved) {
                Ok(key) => Ok(key),
                Err(e) => Err(no_current_session(e)),
            }
        },
    }
}

/// Decides whether a session becomes the current one of a project. `session` is the
/// session, where it exists, by its project.
pub fn bind_current_session(
    auth: Option<&AuthContext>,
    transport: SessionTransport,
    project: &str,
    resolved: &str,
    session_id: &str,
    session: Option<Option<String>>,
) -> (r: Result<CurrentSessionKey, ToolResult>)
    ensures
        bind_decision(
            caller(auth),
            transport,
            project@,
            resolved@,
            session_id@,
            match session {
                Some(p) => Some(opt_text(p)),
                None => None,
            },
        ) == (match r {
            Ok(key) => Ok(key@),
            Err(e) => Err(e@),
        }),
{
    let Some(session_project) = session else {
        return Err(unknown_session_result(session_id));
    };
    let same = match &session_project {
        Some(p) => str_eq(p.as_str(), resolved),
        None => false,
    };
    if !same {
        return Err(
            ToolResult::failed(
                ObjectBuilder::new()
                    .with("error_kind", text("session_project_mismatch"))
                    .with("session_id", text(session_id))
                    .with("session_project", opt_text_json(&session_project))
                    .with("project", text(project))
                    .with("resolved_project", text(resolved))
                    .build(),
                "session_project_mismatch",
            ),
        );
    }
    match current_session_key(auth, transport, resolved) {
        Ok(key) => Ok(key),
        Err(e) => Err(current_session_unavailable_result(e.as_str())),
    }
}

/// A current session as it is told: under `flag` that it was found or bound.
pub open spec fn current_tree(
    flag: Seq<char>,
    session: SessionInfo,
    project: Seq<char>,
    resolved: Seq<char>,
) -> Tree {
    Tree::Object(
        no_fields()
            .push(field(flag, Tree::Bool(true)))
            .push(field("session_id"@, Tree::Text(session.session_id@)))
            .push(field("project"@, Tree::Text(project)))
            .push(field("resolved_project"@, Tree::Text(resolved)))
            .push(field("mode"@, session.mode@))
            .push(field("guards"@, session.guards@)),
    )
}

fn current_json(flag: &str, session: &SessionInfo, project: &str, resolved: &str) -> (r: Json)
    ensures
        r@ == current_tree(flag@, *session, project@, resolved@),
{
    ObjectBuilder::new()
        .with(flag, boolean(true))
        .with("session_id", text(session.session_id.as_str()))
        .with("project", text(project))
        .with("resolved_project", text(resolved))
        .with("mode", session.mode.copy())
        .with("guards", session.guards.copy())
        .build()
}

/// The answer to a request to make a session the current one, given what came of it.
pub open spec fn bound_told(
    session_id: Seq<char>,
    bound: Option<SessionInfo>,
    project: Seq<char>,
    resolved: Seq<char>,
) -> ToolModel {
    match bound {
        Some(s) => tool_ok(current_tree("bound"@, s, project, resolved)),
        None => unknown_session(session_id),
    }
}

/// The answer to a request to make a session the current one, given what came of it.
pub fn bind_current_session_result(
    session_id: &str,
    bound: &Option<SessionInfo>,
    project: &str,
    resolved: &str,
) -> (r: ToolResult)
    ensures
        r@ == bound_told(session_id@, *bound, project@, resolved@),
{
    match bound {
        Some(s) => ToolResult::ok(current_json("bound", s, project, resolved)),
        None => unknown_session_result(session_id),
    }
}

/// The answer to a question for the current session.
pub open spec fn current_told(
    current: Option<SessionInfo>,
    project: Seq<char>,
    resolved: Seq<char>,
) -> ToolModel {
    tool_ok(
        match current {
            Some(s) => current_tree("found"@, s, project, resolved),
            None => Tree::Object(
                no_fields()
                    .push(field("found"@, Tree::Bool(false)))
                    .push(field("project"@, Tree::Text(project)))
                    .push(field("resolved_project"@, Tree::Text(resolved))),
            ),
        },
    )
}

/// The answer to a question for the current session.
pub fn current_session_result(current: &Option<SessionInfo>, project: &str, resolved: &str) -> (r:
    ToolResult)
    ensures
        r@ == current_told(*current, project@, resolved@),
{
    match current {
        Some(s) => ToolResult::ok(current_json("found", s, project, resolved)),
        None => ToolResult::ok(
            ObjectBuilder::new()
                .with("found", boolean(false))
                .with("project", text(project))
                .with("resolved_project", text(resolved))
                .build(),
        ),
    }
}

/// The answer to a request to have no current session.
pub open spec fn unbound_told(had_binding: bool, project: Seq<char>, resolved: Seq<char>) -> ToolModel {
    tool_ok(
        Tree::Object(
            no_fields()
                .push(field("unbound"@, Tree::Bool(true)))
                .push(field("had_binding"@, Tree::Bool(had_binding)))
                .push(field("project"@, Tree::Text(project)))
                .push(field("resolved_project"@, Tree::Text(resolved))),
        ),
    )
}

/// The answer to a request to have no current session.
pub fn unbind_current_session_result(had_binding: bool, project: &str, resolved: &str) -> (r:
    ToolResult)
    ensures
        r@ == unbound_told(had_binding, project@, resolved@),
{
    ToolResult::ok(
        ObjectBuilder::new()
            .with("unbound", boolean(true))
            .with("had_binding", boolean(had_binding))
            .with("project", text(project))
            .with("resolved_project", text(resolved))
            .build(),
    )
}

/// A session is the current one only of the project that it was started for.
pub proof fn law_bound_sessions_fit_their_project(
    auth: Option<AuthModel>,
    transport: SessionTransport,
    project: Seq<char>,
    resolved: Seq<char>,
    session_id: Seq<char>,
    session: Option<Option<Seq<char>>>,
)
    requires
        bind_decision(auth, transport, project, resolved, session_id, session) is Ok,
    ensures
        session == Some(Some(resolved)),
        bind_decision(auth, transport, project, resolved, session_id, session)->Ok_0.resolved_project
            == resolved,
{
}

} // verus!
