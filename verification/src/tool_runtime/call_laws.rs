//! What becomes of a call, from the caller to the tool and back.
use crate::json::{law_put_get, lemma_find_push, Json, Tree};
use crate::shell_client::access::{access_error, AuthContext, AuthKind, AuthModel};
use crate::shell_client::model::{run_request, RegistryModel};
use crate::shell_client::protocol::{
    ClientViewModel, ShellAgentPollRequest, ShellClientCapabilities, ShellRunRequest,
};
use crate::shell_client::round_trips::{lemma_alone_is_polled, lemma_kinds_differ, polls_for};
use crate::shell_client::state::PendingModel;
use crate::shell_client::validation::run_request_error;
use crate::text::trim;
use crate::tool_runtime::authorization::{call_refusal, can_do};
use crate::tool_runtime::calls::{capability_for, ToolCall, ToolKind};
use crate::tool_runtime::dispatch::{
    bind_decision, bound_told, current_told, discussion_told, looks_for_current, message_told,
    messages_told, run_codex_disabled, session_started, summary_told, unbound_told,
    DiscussionParts, SessionInfo,
};
use crate::tool_runtime::dispatch_flow::{steps_to, DispatchAction, DispatchEvent, DispatchState};
use crate::tool_runtime::kernel::{scope_error, OAuthToolScopePolicy};
use crate::tool_runtime::kernel_flow::{
    kernel_steps_to, KernelAction, KernelContext, KernelEvent, KernelState,
};
use crate::tool_runtime::project_commands::starts_command;
use crate::tool_runtime::project_resolution::{
    all_candidates, in_order, resolve, ConfigModel, Executor, ResolvedModel,
};
use crate::tool_runtime::session_context::{
    message_refused, session_key, SessionGuardDenial, SessionMessageError, SessionTransport,
};
use crate::tool_runtime::types::ToolResult;
use vstd::prelude::*;

verus! {

broadcast use lemma_find_push;

// ---------------------------------------------------------------------------
// The way of a call
// ---------------------------------------------------------------------------

/// A call that is authorized is performed as it is, and without a session its caller gets
/// the result of the tool as it is.
pub proof fn law_result_reaches_caller(
    auth: Option<&AuthContext>,
    transport: SessionTransport,
    call: ToolCall,
    s1: DispatchState,
    a1: DispatchAction,
    result: ToolResult,
    s2: DispatchState,
    a2: DispatchAction,
)
    requires
        steps_to(
            auth,
            transport,
            DispatchState::Authorizing { call },
            DispatchEvent::Authorized,
            s1,
            a1,
        ),
        steps_to(auth, transport, s1, DispatchEvent::Performed(result), s2, a2),
    ensures
        a1 == DispatchAction::Perform(call),
        call.session_id is None ==> s2 is Done && a2 == DispatchAction::Respond(result),
        call.session_id is Some ==> a2 is RecordEnd && a2->RecordEnd_session_id@
            == call.session_id->0@,
{
}

/// A call in a session answers with what its tool gave, its success and its error as they
/// are, once its end is recorded; what the tool told stays, and it is told whether the call
/// was recorded and where.
pub proof fn law_recorded_result_reaches_caller(
    auth: Option<&AuthContext>,
    transport: SessionTransport,
    session_id: String,
    result: ToolResult,
    event_id: Option<String>,
    hint: Option<Json>,
    after: DispatchState,
    action: DispatchAction,
    name: Seq<char>,
)
    requires
        steps_to(
            auth,
            transport,
            DispatchState::Recording { session_id, result },
            DispatchEvent::Recorded { event_id, hint },
            after,
            action,
        ),
        result.output@ is Object,
        name != "session_recorded"@,
        name != "session_id"@,
        name != "session_event_id"@,
        name != "session_hint"@,
    ensures
        after is Done,
        action is Respond,
        action->Respond_0.success == result.success,
        action->Respond_0.error == result.error,
        ({
            let told = action->Respond_0.output@;
            &&& told.get(name) == result.output@.get(name)
            &&& told.at("session_recorded"@) == Tree::Bool(event_id is Some)
            &&& result.output@.get("session_id"@) is Some ==> told.get("session_id"@)
                == result.output@.get("session_id"@)
            &&& result.output@.get("session_id"@) is None ==> told.at("session_id"@) == Tree::Text(
                session_id@,
            )
            &&& event_id is Some ==> told.at("session_event_id"@) == Tree::Text(event_id->0@)
            &&& hint is Some ==> told.at("session_hint"@) == hint->0@
        }),
{
    reveal_strlit("session_recorded");
    reveal_strlit("session_id");
    reveal_strlit("session_event_id");
    reveal_strlit("session_hint");
    assert("session_recorded"@.len() == 16 && "session_recorded"@[8] == 'r');
    assert("session_id"@.len() == 10);
    assert("session_event_id"@.len() == 16 && "session_event_id"@[8] == 'e');
    assert("session_hint"@.len() == 12);
    let o = result.output@;
    let flag = Tree::Bool(event_id is Some);
    let a = o.put("session_recorded"@, flag);
    let sid = Tree::Text(session_id@);
    let b = if a.get("session_id"@) is Some {
        a
    } else {
        a.put("session_id"@, sid)
    };
    let c = match event_id {
        Some(id) => b.put("session_event_id"@, Tree::Text(id@)),
        None => b,
    };
    law_put_get(o, "session_recorded"@, flag, name);
    law_put_get(o, "session_recorded"@, flag, "session_id"@);
    law_put_get(a, "session_id"@, sid, name);
    law_put_get(a, "session_id"@, sid, "session_recorded"@);
    if event_id is Some {
        let v = Tree::Text(event_id->0@);
        law_put_get(b, "session_event_id"@, v, name);
        law_put_get(b, "session_event_id"@, v, "session_recorded"@);
        law_put_get(b, "session_event_id"@, v, "session_id"@);
    }
    if hint is Some {
        let h = hint->0@;
        law_put_get(c, "session_hint"@, h, name);
        law_put_get(c, "session_hint"@, h, "session_recorded"@);
        law_put_get(c, "session_hint"@, h, "session_id"@);
        law_put_get(c, "session_hint"@, h, "session_event_id"@);
    }
}

/// A call in a session that does not exist, or whose guards are against it, is not
/// performed: its caller is told why, and the refusal by a guard is recorded first.
pub proof fn law_guards_are_kept(
    auth: Option<&AuthContext>,
    transport: SessionTransport,
    call: ToolCall,
    session_id: String,
    resolved: Option<String>,
    known: bool,
    denial: Option<SessionGuardDenial>,
    after: DispatchState,
    action: DispatchAction,
)
    requires
        steps_to(
            auth,
            transport,
            DispatchState::InspectingSession { call, session_id, resolved },
            DispatchEvent::SessionInspected { known, denial },
            after,
            action,
        ),
        call.kind != ToolKind::RunCodex,
    ensures
        !known ==> {
            &&& action is Respond
            &&& !action->Respond_0.success
            &&& action->Respond_0.output@.at("error_kind"@) == Tree::Text("unknown_session_id"@)
            &&& action->Respond_0.output@.at("session_id"@) == Tree::Text(session_id@)
        },
        known && denial is Some ==> {
            &&& action is RecordRefusal
            &&& action->RecordRefusal_session_id@ == session_id@
            &&& action->error_kind@ == "session_guard_denied"@
            &&& after is Recording
            &&& !after->result.success
            &&& after->result.output@.at("error_kind"@) == Tree::Text("session_guard_denied"@)
            &&& after->result.output@.at("guard"@) == Tree::Text(denial->0.guard@)
            &&& after->result.output@.at("mode"@) == Tree::Text(denial->0.mode@)
        },
        known && denial is None ==> action is Authorize && after == (DispatchState::Authorizing {
            call,
        }),
{
    reveal_strlit("error_kind");
    reveal_strlit("session_id");
    reveal_strlit("tool_name");
    reveal_strlit("guard");
    reveal_strlit("mode");
    reveal_strlit("command_started");
    assert("error_kind"@.len() == 10 && "error_kind"@[0] == 'e');
    assert("session_id"@.len() == 10 && "session_id"@[0] == 's');
    assert("tool_name"@.len() == 9);
    assert("guard"@.len() == 5);
    assert("mode"@.len() == 4);
    assert("command_started"@.len() == 15);
}

/// A call that is refused is not performed, and its caller gets the refusal.
pub proof fn law_refusals_reach_caller(
    auth: Option<&AuthContext>,
    transport: SessionTransport,
    call: ToolCall,
    result: ToolResult,
    after: DispatchState,
    action: DispatchAction,
)
    requires
        steps_to(
            auth,
            transport,
            DispatchState::Authorizing { call },
            DispatchEvent::Refused(result),
            after,
            action,
        ),
    ensures
        !(action is Perform),
        call.session_id is None ==> action == DispatchAction::Respond(result),
        call.session_id is Some ==> action is RecordEnd && after is Recording && after->result
            == result,
{
}

/// A named call goes the whole way: the call that was read is the one that is dispatched,
/// and what came of it is its outcome.
pub proof fn law_outcome_is_the_tools(
    context: KernelContext,
    call: ToolCall,
    s1: KernelState,
    a1: KernelAction,
    result: ToolResult,
    s2: KernelState,
    a2: KernelAction,
    s3: KernelState,
    a3: KernelAction,
)
    requires
        kernel_steps_to(
            context,
            KernelState::Reading,
            KernelEvent::ArgumentsRead(Ok(call)),
            s1,
            a1,
        ),
        kernel_steps_to(context, s1, KernelEvent::Dispatched(result), s2, a2),
        kernel_steps_to(context, s2, KernelEvent::EndRecorded, s3, a3),
    ensures
        a1 == KernelAction::Dispatch(call),
        a2 is RecordEnd,
        a3 is Respond,
        a3->Respond_0.success == result.success,
        a3->Respond_0.result == Some(result),
        a3->Respond_0.error_status is None,
{
}

/// A call whose arguments cannot be read, or that the scopes of its caller do not allow,
/// reaches no tool: its outcome is a failure without a result.
pub proof fn law_rejected_calls_fail(
    context: KernelContext,
    event: KernelEvent,
    before: KernelState,
    after: KernelState,
    action: KernelAction,
)
    requires
        kernel_steps_to(context, before, event, after, action),
        (before is Reading && event is ArgumentsRead && event->ArgumentsRead_0 is Err) || (before
            is Recording && event is StartRecorded && scope_error(
            crate::shell_client::access::caller(context.auth),
            context.policy,
        ) is Some && context.record_oauth_scope_denials),
    ensures
        action is RecordRejection,
        after is Rejecting,
        !after->Rejecting_0.success,
        after->Rejecting_0.result is None,
        after->Rejecting_0.error_status is Some,
{
}

/// Only OAuth tokens are held to scopes, and they may call a tool exactly where the tool
/// names a scope and they have it.
pub proof fn law_scopes(auth: AuthModel, policy: OAuthToolScopePolicy)
    ensures
        scope_error(None, policy) is None,
        auth.kind != AuthKind::OAuth2Token ==> scope_error(Some(auth), policy) is None,
        auth.kind == AuthKind::OAuth2Token ==> (scope_error(Some(auth), policy) is None <==> (
        policy is Require && auth.scopes.contains(policy->Require_0@))),
{
}

/// A call that would have Codex run is refused in words that say so.
pub proof fn law_codex_is_refused()
    ensures
        ({
            let r = run_codex_disabled();
            &&& !r.success && r.error is Some
            &&& r.output.at("code"@) == Tree::Text("run_codex_disabled"@)
            &&& r.output.at("tool"@) == Tree::Text("run_codex"@)
            &&& r.output.at("message"@) == Tree::Text(r.error->0)
        }),
{
    reveal_strlit("code");
    reveal_strlit("tool");
    reveal_strlit("message");
    assert("code"@.len() == 4 && "code"@[0] == 'c');
    assert("tool"@.len() == 4 && "tool"@[0] == 't');
    assert("message"@.len() == 7);
}

/// The current session is looked up exactly for a call that names no session, is about a
/// project that is known, may be recorded in the current session, and neither manages it
/// nor asks for a handoff.
pub proof fn law_current_session_is_looked_up(
    call: ToolCall,
    resolved: Option<Seq<char>>,
    use_current: bool,
)
    ensures
        looks_for_current(call, resolved, use_current) <==> {
            &&& use_current
            &&& call.session_id is None
            &&& call.project is Some
            &&& resolved is Some
            &&& call.kind != ToolKind::SessionHandoffSummary
            &&& call.kind != ToolKind::BindCurrentSession
            &&& call.kind != ToolKind::CurrentSession
            &&& call.kind != ToolKind::UnbindCurrentSession
        },
{
}

/// A session becomes the current one of a project exactly where it exists, was started for
/// that project and its caller can be known again; a session of another project is refused
/// with both projects named.
pub proof fn law_who_is_bound(
    auth: Option<AuthModel>,
    transport: SessionTransport,
    project: Seq<char>,
    resolved: Seq<char>,
    session_id: Seq<char>,
    session: Option<Option<Seq<char>>>,
)
    ensures
        ({
            let r = bind_decision(auth, transport, project, resolved, session_id, session);
            &&& r is Ok <==> session == Some(Some(resolved)) && session_key(
                auth,
                transport,
                resolved,
            ) is Ok
            &&& session is None ==> is_unknown_session(r->Err_0, session_id)
            &&& session is Some && session->0 != Some(resolved) ==> {
                let t = r->Err_0.output;
                &&& !r->Err_0.success
                &&& r->Err_0.error == Some("session_project_mismatch"@)
                &&& t.at("error_kind"@) == Tree::Text("session_project_mismatch"@)
                &&& t.at("session_id"@) == Tree::Text(session_id)
                &&& t.at("resolved_project"@) == Tree::Text(resolved)
                &&& t.at("session_project"@) == match session->0 {
                    Some(s) => Tree::Text(s),
                    None => Tree::Null,
                }
            }
        }),
{
    reveal_strlit("error_kind");
    reveal_strlit("session_id");
    reveal_strlit("session_project");
    reveal_strlit("project");
    reveal_strlit("resolved_project");
    assert("error_kind"@.len() == 10 && "error_kind"@[0] == 'e');
    assert("session_id"@.len() == 10 && "session_id"@[0] == 's');
    assert("session_project"@.len() == 15);
    assert("project"@.len() == 7);
    assert("resolved_project"@.len() == 16);
}

/// Why nothing was done on a message board is told: no such session, no such message, or
/// what is wrong with the message.
pub proof fn law_message_refusals(
    session_id: Seq<char>,
    asked: Option<Seq<char>>,
    error: SessionMessageError,
)
    ensures
        ({
            let r = message_refused(session_id, asked, error);
            &&& !r.success && r.error is Some
            &&& r.output.at("session_id"@) == Tree::Text(session_id)
            &&& error is UnknownSession ==> is_unknown_session(r, session_id)
            &&& error is UnknownMessage ==> r.output.at("error_kind"@) == Tree::Text(
                "unknown_message_id"@,
            ) && r.output.at("message_id"@) == match asked {
                Some(id) => Tree::Text(id),
                None => Tree::Null,
            }
            &&& error is InvalidInput ==> r.output.at("error_kind"@) == Tree::Text(
                "invalid_session_message"@,
            ) && r.error == Some(error->InvalidInput_0@)
        }),
{
    reveal_strlit("error_kind");
    reveal_strlit("session_id");
    reveal_strlit("message_id");
    reveal_strlit("error");
    assert("error_kind"@.len() == 10 && "error_kind"@[0] == 'e');
    assert("session_id"@.len() == 10 && "session_id"@[0] == 's');
    assert("message_id"@.len() == 10 && "message_id"@[0] == 'm');
    assert("error"@.len() == 5);
}

// ---------------------------------------------------------------------------
// Agents
// ---------------------------------------------------------------------------

/// What an agent has to be able to do for a tool: to run commands for the tools that do, to
/// write files for edits, to read them for reading, git or commands for the git tools, and
/// jobs for jobs.
pub proof fn law_tools_need(kind: ToolKind, caps: ShellClientCapabilities)
    ensures
        (kind == ToolKind::ReadFile || kind == ToolKind::ListProjectFiles) ==> capability_for(
            kind,
        ) is Some && can_do(caps, capability_for(kind)->0) == caps.file_read,
        (kind == ToolKind::ReplaceLineRange || kind == ToolKind::InsertAtLine || kind
            == ToolKind::DeleteLineRange || kind == ToolKind::ApplyTextEdits || kind
            == ToolKind::ReplaceExactBlock || kind == ToolKind::InsertBeforePattern || kind
            == ToolKind::InsertAfterPattern) ==> capability_for(kind) is Some && can_do(
            caps,
            capability_for(kind)->0,
        ) == caps.file_write,
        (kind == ToolKind::RunShell || kind == ToolKind::ApplyPatch || kind
            == ToolKind::ApplyPatchChecked || kind == ToolKind::DeleteProjectFiles || kind
            == ToolKind::GitRestorePaths || kind == ToolKind::DiscardUntracked || kind
            == ToolKind::ValidatePatch || kind == ToolKind::ReplaceInFile || kind
            == ToolKind::WriteProjectFile || kind == ToolKind::SaveProjectArtifact || kind
            == ToolKind::ReadProjectArtifact || kind == ToolKind::ReadProjectArtifactMetadata
            || kind == ToolKind::SearchProjectText || kind == ToolKind::CargoFmt || kind
            == ToolKind::CargoCheck || kind == ToolKind::CargoTest || kind
            == ToolKind::WorkspaceCheckpointCreate || kind == ToolKind::WorkspaceCheckpointRestore)
            ==> capability_for(kind) is Some && can_do(caps, capability_for(kind)->0) == caps.shell,
        (kind == ToolKind::GitStatus || kind == ToolKind::GitDiff || kind == ToolKind::GitDiffHunks
            || kind == ToolKind::GitLog || kind == ToolKind::GitDiffSummary || kind
            == ToolKind::ShowChanges || kind == ToolKind::WorkspaceHygieneCheck) ==> capability_for(
            kind,
        ) is Some && can_do(caps, capability_for(kind)->0) == (caps.shell || caps.git),
        (kind == ToolKind::RunJob || kind == ToolKind::RunCodex) ==> capability_for(kind) is Some
            && can_do(caps, capability_for(kind)->0) == (caps.async_jobs || caps.async_shell_jobs),
        (kind == ToolKind::ListTools || kind == ToolKind::ListProjects || kind
            == ToolKind::ListAgents || kind == ToolKind::RuntimeStatus || kind
            == ToolKind::StartSession || kind == ToolKind::JobStatus || kind == ToolKind::JobLog)
            ==> capability_for(kind) is None,
{
    reveal_strlit("shell");
    reveal_strlit("file_read");
    reveal_strlit("file_write");
    reveal_strlit("git");
    reveal_strlit("jobs");
    reveal_strlit("async_jobs");
    reveal_strlit("async_shell_jobs");
    assert("shell"@.len() == 5);
    assert("file_read"@.len() == 9);
    assert("file_write"@.len() == 10 && "file_write"@[0] == 'f');
    assert("git"@.len() == 3);
    assert("jobs"@.len() == 4);
    assert("async_jobs"@.len() == 10 && "async_jobs"@[0] == 'a');
    assert("async_shell_jobs"@.len() == 16);
}

/// A call for a project of an agent is let through exactly where its caller may use the
/// agent and the agent can do what the tool needs; one that means no project is refused.
pub proof fn law_calls_let_through(
    m: RegistryModel,
    clients: Seq<ClientViewModel>,
    auth: Option<AuthModel>,
    call: ToolCall,
    client_id: Seq<char>,
)
    requires
        call.project is Some,
        capability_for(call.kind) is Some,
    ensures
        ({
            let meant = resolve(call.project->0@, in_order(all_candidates(clients)));
            let needs = capability_for(call.kind)->0;
            &&& meant is Err ==> call_refusal(m, clients, auth, call) is Some && !call_refusal(
                m,
                clients,
                auth,
                call,
            )->0.success
            &&& meant is Ok && meant->Ok_0.config.executor == Executor::Agent
                && meant->Ok_0.config.client_id == Some(client_id) ==> (call_refusal(
                m,
                clients,
                auth,
                call,
            ) is None <==> {
                &&& m.clients.contains_key(client_id)
                &&& access_error(auth, m.clients[client_id]) is None
                &&& can_do(m.clients[client_id].capabilities, needs)
            })
        }),
{
}

/// A command of a tool in a project of an agent goes to that agent, and runs where the
/// project is, within half a minute.
pub proof fn law_tool_command_reaches_agent(
    m: RegistryModel,
    config: ConfigModel,
    command: Seq<char>,
    request_id: Seq<char>,
    now: i64,
    after: RegistryModel,
    r: Result<crate::tool_runtime::project_commands::CommandStart, ToolResult>,
    poll: ShellAgentPollRequest,
    at: i64,
)
    requires
        config.executor == Executor::Agent,
        config.client_id is Some,
        starts_command(m, config, command, request_id, now, after, r),
        r is Ok,
        polls_for(m, config.client_id->0, poll),
        m.queue_of(config.client_id->0).len() == 0,
    ensures
        r->Ok_0 is Agent,
        r->Ok_0->request_id@ == request_id,
        ({
            let got = after.poll(poll, at).1;
            let request = got->Ok_0->0;
            &&& got is Ok && got->Ok_0 is Some
            &&& request.request_id == request_id
            &&& request.client_id == config.client_id->0
            &&& request.kind == "run_shell"@
            &&& request.command == command
            &&& request.cwd == Some(trim(config.path))
            &&& request.stdin is None
            &&& request.timeout_secs == 30
            &&& request.requested_by == "tool_runtime"@
        }),
{
    let client_id = config.client_id->0;
    let body = choose|body: ShellRunRequest| #[trigger]
        crate::tool_runtime::project_commands::is_command_body(
            body,
            client_id,
            config.path,
            command,
        ) && ({
            let queued = m.enqueue(
                run_request_error(body),
                run_request(body, "tool_runtime"@, request_id, now),
            );
            &&& after == queued.0
            &&& match queued.1 {
                Ok(id) => r is Ok && r->Ok_0 is Agent && r->Ok_0->request_id@ == id,
                Err(e) => r is Err && r->Err_0@ == crate::tool_runtime::types::tool_err(e),
            }
        });
    let request = run_request(body, "tool_runtime"@, request_id, now);
    let p = PendingModel { request, waiter: true, job_id: None };
    lemma_kinds_differ(seq![]);
    lemma_alone_is_polled(m, p, poll, at);
}

// ---------------------------------------------------------------------------
// Sessions
// ---------------------------------------------------------------------------

/// The start of a session tells the session that was started, and the project that was
/// meant.
pub proof fn law_started_session_is_told(
    resolved: Option<ResolvedModel>,
    session: SessionInfo,
    instructions: Tree,
)
    ensures
        ({
            let r = session_started(resolved, session, instructions);
            &&& r.success && r.error is None
            &&& r.output.at("success"@) == Tree::Bool(true)
            &&& r.output.at("session_id"@) == Tree::Text(session.session_id@)
            &&& r.output.at("project"@) == match session.project {
                Some(p) => Tree::Text(p@),
                None => Tree::Null,
            }
            &&& r.output.at("project_input"@) == match resolved {
                Some(p) => Tree::Text(p.input),
                None => Tree::Null,
            }
            &&& r.output.at("resolved_project"@) == match resolved {
                Some(p) => Tree::Text(p.resolved_id),
                None => Tree::Null,
            }
            &&& r.output.at("mode"@) == session.mode@
            &&& r.output.at("guards"@) == session.guards@
            &&& r.output.at("created_at"@) == Tree::Number(session.created_at as int)
            &&& r.output.at("project_instructions"@) == instructions
        }),
{
    reveal_strlit("success");
    reveal_strlit("session_id");
    reveal_strlit("project");
    reveal_strlit("project_input");
    reveal_strlit("resolved_project");
    reveal_strlit("title");
    reveal_strlit("mode");
    reveal_strlit("guards");
    reveal_strlit("created_at");
    reveal_strlit("project_instructions");
    assert("success"@.len() == 7 && "success"@[0] == 's');
    assert("session_id"@.len() == 10 && "session_id"@[0] == 's');
    assert("project"@.len() == 7 && "project"@[0] == 'p');
    assert("project_input"@.len() == 13);
    assert("resolved_project"@.len() == 16);
    assert("title"@.len() == 5);
    assert("mode"@.len() == 4);
    assert("guards"@.len() == 6);
    assert("created_at"@.len() == 10 && "created_at"@[0] == 'c');
    assert("project_instructions"@.len() == 20);
}

/// What is asked of a session that exists is told as it is, and of one that does not, that
/// it does not.
pub proof fn law_session_answers(
    session_id: Seq<char>,
    summary: Option<Json>,
    messages: Result<Json, SessionMessageError>,
    posted: Result<(String, Json), SessionMessageError>,
    asked: Option<Seq<char>>,
    board: Result<DiscussionParts, SessionMessageError>,
)
    ensures
        summary is Some ==> summary_told(session_id, summary).success && summary_told(
            session_id,
            summary,
        ).output == summary->0@,
        summary is None ==> is_unknown_session(summary_told(session_id, summary), session_id),
        messages is Ok ==> messages_told(session_id, messages).success && messages_told(
            session_id,
            messages,
        ).output.at("messages"@) == messages->Ok_0@ && messages_told(
            session_id,
            messages,
        ).output.at("session_id"@) == Tree::Text(session_id),
        messages is Err ==> !messages_told(session_id, messages).success,
        messages is Ok ==> messages_told(session_id, messages).output.at("success"@)
            == Tree::Bool(true),
        posted is Ok ==> {
            let r = message_told(session_id, asked, posted);
            &&& r.success && r.output.at("success"@) == Tree::Bool(true)
            &&& r.output.at("session_id"@) == Tree::Text(session_id)
            &&& r.output.at("message_id"@) == Tree::Text(posted->Ok_0.0@)
            &&& r.output.at("message"@) == posted->Ok_0.1@
        },
        posted is Err ==> !message_told(session_id, asked, posted).success,
        posted is Err && posted->Err_0 is UnknownSession ==> is_unknown_session(
            message_told(session_id, asked, posted),
            session_id,
        ),
        board is Ok ==> {
            let r = discussion_told(session_id, board);
            let d = board->Ok_0;
            &&& r.success && r.output.at("success"@) == Tree::Bool(true)
            &&& r.output.at("session_id"@) == Tree::Text(session_id)
            &&& r.output.at("counts"@) == d.counts@
            &&& r.output.at("open_guidance"@) == d.open_guidance@
            &&& r.output.at("open_questions"@) == d.open_questions@
            &&& r.output.at("open_risks"@) == d.open_risks@
            &&& r.output.at("open_todos"@) == d.open_todos@
            &&& r.output.at("recent_progress"@) == d.recent_progress@
            &&& r.output.at("recent_decisions"@) == d.recent_decisions@
        },
        board is Err ==> !discussion_told(session_id, board).success,
{
    reveal_strlit("success");
    reveal_strlit("session_id");
    reveal_strlit("message_id");
    reveal_strlit("message");
    reveal_strlit("messages");
    reveal_strlit("counts");
    reveal_strlit("open_guidance");
    reveal_strlit("open_questions");
    reveal_strlit("open_risks");
    reveal_strlit("open_todos");
    reveal_strlit("recent_progress");
    reveal_strlit("recent_decisions");
    reveal_strlit("error_kind");
    reveal_strlit("error");
    assert("success"@.len() == 7 && "success"@[0] == 's');
    assert("session_id"@.len() == 10 && "session_id"@[0] == 's');
    assert("message_id"@.len() == 10 && "message_id"@[0] == 'm');
    assert("message"@.len() == 7 && "message"@[0] == 'm');
    assert("messages"@.len() == 8);
    assert("counts"@.len() == 6);
    assert("open_guidance"@.len() == 13);
    assert("open_questions"@.len() == 14);
    assert("open_risks"@.len() == 10 && "open_risks"@[0] == 'o' && "open_risks"@[5] == 'r');
    assert("open_todos"@.len() == 10 && "open_todos"@[0] == 'o' && "open_todos"@[5] == 't');
    assert("recent_progress"@.len() == 15);
    assert("recent_decisions"@.len() == 16);
    assert("error_kind"@.len() == 10 && "error_kind"@[0] == 'e');
    assert("error"@.len() == 5);
}

/// Whether a result says that no session has the id.
pub open spec fn is_unknown_session(
    r: crate::tool_runtime::types::ToolModel,
    session_id: Seq<char>,
) -> bool {
    &&& !r.success
    &&& r.output.at("error_kind"@) == Tree::Text("unknown_session_id"@)
    &&& r.output.at("session_id"@) == Tree::Text(session_id)
    &&& r.error == Some("unknown_session_id: "@ + session_id)
}

/// The current session of a project is told where there is one, and that there is none
/// where there is not; giving it up says whether there was one.
pub proof fn law_current_session_is_told(
    session: Option<SessionInfo>,
    session_id: Seq<char>,
    project: Seq<char>,
    resolved: Seq<char>,
    had: bool,
)
    ensures
        ({
            let found = current_told(session, project, resolved);
            let bound = bound_told(session_id, session, project, resolved);
            let given_up = unbound_told(had, project, resolved);
            &&& found.success
            &&& found.output.at("found"@) == Tree::Bool(session is Some)
            &&& session is Some ==> found.output.at("session_id"@) == Tree::Text(
                session->0.session_id@,
            ) && found.output.at("mode"@) == session->0.mode@ && found.output.at("guards"@)
                == session->0.guards@
            &&& session is None ==> found.output.get("session_id"@) is None
            &&& found.output.at("project"@) == Tree::Text(project)
            &&& found.output.at("resolved_project"@) == Tree::Text(resolved)
            &&& bound.success == (session is Some)
            &&& session is Some ==> bound.output.at("bound"@) == Tree::Bool(true)
                && bound.output.at("session_id"@) == Tree::Text(session->0.session_id@)
            &&& session is None ==> is_unknown_session(bound, session_id)
            &&& given_up.success
            &&& given_up.output.at("had_binding"@) == Tree::Bool(had)
            &&& given_up.output.at("unbound"@) == Tree::Bool(true)
            &&& given_up.output.at("resolved_project"@) == Tree::Text(resolved)
        }),
{
    reveal_strlit("found");
    reveal_strlit("bound");
    reveal_strlit("session_id");
    reveal_strlit("project");
    reveal_strlit("resolved_project");
    reveal_strlit("mode");
    reveal_strlit("guards");
    reveal_strlit("unbound");
    reveal_strlit("had_binding");
    reveal_strlit("error_kind");
    assert("found"@.len() == 5 && "found"@[0] == 'f');
    assert("bound"@.len() == 5 && "bound"@[0] == 'b');
    assert("session_id"@.len() == 10 && "session_id"@[0] == 's');
    assert("project"@.len() == 7 && "project"@[0] == 'p');
    assert("resolved_project"@.len() == 16);
    assert("mode"@.len() == 4);
    assert("guards"@.len() == 6);
    assert("unbound"@.len() == 7 && "unbound"@[0] == 'u');
    assert("had_binding"@.len() == 11);
    assert("error_kind"@.len() == 10 && "error_kind"@[0] == 'e');
}

} // verus!
