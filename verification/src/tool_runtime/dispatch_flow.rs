//! The way of a call through the runtime, step by step.
//!
//! The lookups, the recording and the work of the tools are done elsewhere. A run holds
//! what is known of a call so far. It is handed what came of the last action, and tells
//! the next one, until it tells the result.
use crate::json::Json;
use crate::shell_client::access::{caller, AuthContext};
use crate::text::{opt_clone, opt_text};
use crate::tool_runtime::calls::{is_session_control, name_of, ToolCall, ToolKind};
use crate::tool_runtime::dispatch::{
    admit_call, choose_session, looks_for_current, run_codex_disabled, run_codex_disabled_result,
    with_effective_session, Admission, SessionChoice,
};
use crate::tool_runtime::registry::ToolRuntime;
use crate::tool_runtime::session_context::{
    add_session_telemetry_hint, guard_denied, no_current_session, session_key, unknown_session,
    with_telemetry, CurrentSessionKey, SessionGuardDenial, SessionTransport,
};
use crate::tool_runtime::types::{ToolModel, ToolResult};
use vstd::prelude::*;

verus! {

/// What is known of a call so far.
#[derive(Debug)]
#[allow(inconsistent_fields)]
pub enum DispatchState {
    /// Its project is being resolved.
    Resolving { call: ToolCall, use_current_session: bool },
    /// The current session is being looked up.
    SeekingSession { call: ToolCall, resolved: Option<String> },
    /// What is known of its session is being looked up.
    InspectingSession { call: ToolCall, session_id: String, resolved: Option<String> },
    /// Whether its caller may use the agent is being looked up.
    Authorizing { call: ToolCall },
    /// Its tool is at work.
    Performing { session_id: Option<String> },
    /// Its end is being recorded.
    Recording { session_id: String, result: ToolResult },
    /// It is over.
    Done,
}

/// What came of the last action.
#[derive(Debug)]
#[allow(inconsistent_fields)]
pub enum DispatchEvent {
    /// The project, where it could be resolved.
    ProjectResolved(Option<String>),
    /// The current session, where there is one.
    CurrentSession(Option<String>),
    /// Whether the session exists, and what its guards have against the tool.
    SessionInspected { known: bool, denial: Option<SessionGuardDenial> },
    /// The caller may use the agent.
    Authorized,
    /// The caller may not use the agent.
    Refused(ToolResult),
    /// What the tool handed back.
    Performed(ToolResult),
    /// The event under which the end was recorded, where it was, and what waits on the
    /// board of the session.
    Recorded { event_id: Option<String>, hint: Option<Json> },
}

/// What is to be done next.
#[derive(Debug)]
#[allow(inconsistent_fields)]
pub enum DispatchAction {
    /// Resolve a project for the caller.
    ResolveProject(String),
    /// Look up the current session under a key.
    FindCurrentSession(CurrentSessionKey),
    /// Look up whether a session exists and what its guards have against a tool.
    InspectSession { session_id: String, tool: &'static str },
    /// Record the start of the call, where it has a session, and look up whether its
    /// caller may use the agent.
    Authorize { session_id: Option<String>, resolved: Option<String> },
    /// Record the start and the end of a call that does not get through, under this
    /// kind of error.
    RecordRefusal { session_id: String, error_kind: &'static str },
    /// Have the tool do its work.
    Perform(ToolCall),
    /// Record the end of the call.
    RecordEnd { session_id: String },
    /// The call is over with this result.
    Respond(ToolResult),
    /// Nothing: the event does not fit.
    Ignore,
}

/// A call on its way.
pub struct DispatchRun<'a> {
    auth: Option<&'a AuthContext>,
    transport: SessionTransport,
    state: DispatchState,
}

/// The caller gets the result.
pub open spec fn responds(result: ToolModel, after: DispatchState, action: DispatchAction) -> bool {
    after is Done && action is Respond && action->Respond_0@ == result
}

/// The call is recorded in its session, where it has one, and its caller is looked at.
pub open spec fn goes_to_agent(
    call: ToolCall,
    resolved: Option<Seq<char>>,
    after: DispatchState,
    action: DispatchAction,
) -> bool {
    &&& after == DispatchState::Authorizing { call }
    &&& action is Authorize
    &&& opt_text(action->Authorize_session_id) == opt_text(call.session_id)
    &&& opt_text(action->Authorize_resolved) == resolved
}

/// The session of the call is looked at, where it has one. Without one, Codex is the one
/// tool that does not run.
pub open spec fn goes_to_session(
    call: ToolCall,
    resolved: Option<Seq<char>>,
    after: DispatchState,
    action: DispatchAction,
) -> bool {
    match call.session_id {
        Some(id) => {
            &&& after is InspectingSession
            &&& after->InspectingSession_call == call
            &&& after->InspectingSession_session_id@ == id@
            &&& opt_text(after->InspectingSession_resolved) == resolved
            &&& action is InspectSession
            &&& action->InspectSession_session_id@ == id@
            &&& action->tool@ == name_of(call.kind)
        },
        None => if call.kind == ToolKind::RunCodex {
            responds(run_codex_disabled(), after, action)
        } else {
            goes_to_agent(call, resolved, after, action)
        },
    }
}

/// The refusal is recorded in the session.
pub open spec fn records_refusal(
    session_id: Seq<char>,
    result: ToolModel,
    error_kind: Seq<char>,
    after: DispatchState,
    action: DispatchAction,
) -> bool {
    &&& after is Recording
    &&& after->Recording_session_id@ == session_id
    &&& after->result@ == result
    &&& action is RecordRefusal
    &&& action->RecordRefusal_session_id@ == session_id
    &&& action->error_kind@ == error_kind
}

/// The end of the call is recorded, where it has a session; else its caller gets the
/// result.
pub open spec fn ends(
    session_id: Option<Seq<char>>,
    result: ToolResult,
    after: DispatchState,
    action: DispatchAction,
) -> bool {
    match session_id {
        Some(id) => {
            &&& after is Recording
            &&& after->Recording_session_id@ == id
            &&& after->result == result
            &&& action is RecordEnd
            &&& action->RecordEnd_session_id@ == id
        },
        None => after is Done && action == DispatchAction::Respond(result),
    }
}

/// The call in the session that was found, where one was.
pub open spec fn in_session(call: ToolCall, found: Option<String>) -> ToolCall {
    ToolCall {
        kind: call.kind,
        project: call.project,
        session_id: match found {
            Some(id) => Some(id),
            None => call.session_id,
        },
        arguments: call.arguments,
    }
}

/// What is known after an event, and what is to be done.
pub open spec fn steps_to(
    auth: Option<&AuthContext>,
    transport: SessionTransport,
    before: DispatchState,
    event: DispatchEvent,
    after: DispatchState,
    action: DispatchAction,
) -> bool {
    match (before, event) {
        (
            DispatchState::Resolving { call, use_current_session },
            DispatchEvent::ProjectResolved(resolved),
        ) => if looks_for_current(call, opt_text(resolved), use_current_session) {
            match session_key(caller(auth), transport, resolved->0@) {
                Ok(key) => {
                    &&& after == DispatchState::SeekingSession { call, resolved }
                    &&& action is FindCurrentSession
                    &&& action->FindCurrentSession_0@ == key
                },
                Err(e) => responds(no_current_session(e), after, action),
            }
        } else {
            goes_to_session(call, opt_text(resolved), after, action)
        },
        (
            DispatchState::SeekingSession { call, resolved },
            DispatchEvent::CurrentSession(found),
        ) => goes_to_session(in_session(call, found), opt_text(resolved), after, action),
        (
            DispatchState::InspectingSession { call, session_id, resolved },
            DispatchEvent::SessionInspected { known, denial },
        ) => if !known {
            responds(unknown_session(session_id@), after, action)
        } else if call.kind == ToolKind::RunCodex {
            records_refusal(session_id@, run_codex_disabled(), "tool_disabled"@, after, action)
        } else {
            match denial {
                Some(d) => records_refusal(
                    session_id@,
                    guard_denied(session_id@, name_of(call.kind), d),
                    "session_guard_denied"@,
                    after,
                    action,
                ),
                None => goes_to_agent(call, opt_text(resolved), after, action),
            }
        },
        (DispatchState::Authorizing { call }, DispatchEvent::Authorized) => {
            &&& after is Performing
            &&& opt_text(after->Performing_session_id) == opt_text(call.session_id)
            &&& action == DispatchAction::Perform(call)
        },
        (DispatchState::Authorizing { call }, DispatchEvent::Refused(result)) => ends(
            opt_text(call.session_id),
            result,
            after,
            action,
        ),
        (DispatchState::Performing { session_id }, DispatchEvent::Performed(result)) => ends(
            opt_text(session_id),
            result,
            after,
            action,
        ),
        (
            DispatchState::Recording { session_id, result },
            DispatchEvent::Recorded { event_id, hint },
        ) => {
            &&& after is Done
            &&& action is Respond
            &&& action->Respond_0.success == result.success
            &&& action->Respond_0.error == result.error
            &&& action->Respond_0.output@ == with_telemetry(
                result.output@,
                session_id@,
                opt_text(event_id),
                match hint {
                    Some(h) => Some(h@),
                    None => None,
                },
            )
        },
        _ => after == before && action == DispatchAction::Ignore,
    }
}

/// What holds of a call on its way: its session is the one that is being looked at, and
/// Codex gets no further.
pub open spec fn on_its_way(state: DispatchState) -> bool {
    match state {
        DispatchState::SeekingSession { call, resolved } => call.session_id is None,
        DispatchState::InspectingSession { call, session_id, resolved } => call.session_id is Some
            && call.session_id->0@ == session_id@,
        DispatchState::Authorizing { call } => call.kind != ToolKind::RunCodex,
        _ => true,
    }
}

fn to_agent(call: ToolCall, resolved: Option<String>) -> (r: (DispatchState, DispatchAction))
    ensures
        goes_to_agent(call, opt_text(resolved), r.0, r.1),
{
    let session_id = opt_clone(&call.session_id);
    (DispatchState::Authorizing { call }, DispatchAction::Authorize { session_id, resolved })
}

fn to_session(call: ToolCall, resolved: Option<String>) -> (r: (DispatchState, DispatchAction))
    ensures
        goes_to_session(call, opt_text(resolved), r.0, r.1),
{
    match opt_clone(&call.session_id) {
        Some(session_id) => {
            let asked = session_id.clone();
            let tool = call.kind.tool_name();
            (
                DispatchState::InspectingSession { call, session_id, resolved },
                DispatchAction::InspectSession { session_id: asked, tool },
            )
        },
        None => if call.kind == ToolKind::RunCodex {
            (DispatchState::Done, DispatchAction::Respond(run_codex_disabled_result()))
        } else {
            to_agent(call, resolved)
        },
    }
}

fn to_refusal(session_id: String, result: ToolResult, error_kind: &'static str) -> (r: (
    DispatchState,
    DispatchAction,
))
    ensures
        records_refusal(session_id@, result@, error_kind@, r.0, r.1),
{
    let recorded = session_id.clone();
    (
        DispatchState::Recording { session_id, result },
        DispatchAction::RecordRefusal { session_id: recorded, error_kind },
    )
}

fn to_end(session_id: Option<String>, result: ToolResult) -> (r: (DispatchState, DispatchAction))
    ensures
        ends(opt_text(session_id), result, r.0, r.1),
{
    match session_id {
        Some(session_id) => {
            let recorded = session_id.clone();
            (
                DispatchState::Recording { session_id, result },
                DispatchAction::RecordEnd { session_id: recorded },
            )
        },
        None => (DispatchState::Done, DispatchAction::Respond(result)),
    }
}

fn inspected(
    call: ToolCall,
    session_id: String,
    resolved: Option<String>,
    known: bool,
    denial: Option<SessionGuardDenial>,
) -> (r: (DispatchState, DispatchAction))
    requires
        call.session_id is Some,
        call.session_id->0@ == session_id@,
    ensures
        if !known {
            responds(unknown_session(session_id@), r.0, r.1)
        } else if call.kind == ToolKind::RunCodex {
            records_refusal(session_id@, run_codex_disabled(), "tool_disabled"@, r.0, r.1)
        } else {
            match denial {
                Some(d) => records_refusal(
                    session_id@,
                    guard_denied(session_id@, name_of(call.kind), d),
                    "session_guard_denied"@,
                    r.0,
                    r.1,
                ),
                None => goes_to_agent(call, opt_text(resolved), r.0, r.1),
            }
        },
{
    match admit_call(&call, known, denial) {
        Admission::Admit => to_agent(call, resolved),
        Admission::Refuse(result) => (DispatchState::Done, DispatchAction::Respond(result)),
        Admission::RefuseRecorded(result, error_kind) => to_refusal(
            session_id,
            result,
            error_kind,
        ),
    }
}

fn resolved_step(
    auth: Option<&AuthContext>,
    transport: SessionTransport,
    call: ToolCall,
    resolved: Option<String>,
    use_current_session: bool,
) -> (r: (DispatchState, DispatchAction))
    ensures
        steps_to(
            auth,
            transport,
            DispatchState::Resolving { call, use_current_session },
            DispatchEvent::ProjectResolved(resolved),
            r.0,
            r.1,
        ),
{
    let project = match &resolved {
        Some(p) => Some(p.as_str()),
        None => None,
    };
    match choose_session(&call, auth, transport, project, use_current_session) {
        SessionChoice::Current(key) => (
            DispatchState::SeekingSession { call, resolved },
            DispatchAction::FindCurrentSession(key),
        ),
        SessionChoice::Refuse(result) => (DispatchState::Done, DispatchAction::Respond(result)),
        SessionChoice::AsNamed => to_session(call, resolved),
    }
}

fn next_step(
    auth: Option<&AuthContext>,
    transport: SessionTransport,
    state: DispatchState,
    event: DispatchEvent,
) -> (r: (DispatchState, DispatchAction))
    requires
        on_its_way(state),
    ensures
        steps_to(auth, transport, state, event, r.0, r.1),
{
    match (state, event) {
        (
            DispatchState::Resolving { call, use_current_session },
            DispatchEvent::ProjectResolved(resolved),
        ) => resolved_step(auth, transport, call, resolved, use_current_session),
        (
            DispatchState::SeekingSession { call, resolved },
            DispatchEvent::CurrentSession(found),
        ) => {
            let ghost before = call;
            let call = with_effective_session(call, found);
            assert(call == in_session(before, found));
            to_session(call, resolved)
        },
        (
            DispatchState::InspectingSession { call, session_id, resolved },
            DispatchEvent::SessionInspected { known, denial },
        ) => inspected(call, session_id, resolved, known, denial),
        (DispatchState::Authorizing { call }, DispatchEvent::Authorized) => {
            let session_id = opt_clone(&call.session_id);
            (DispatchState::Performing { session_id }, DispatchAction::Perform(call))
        },
        (DispatchState::Authorizing { call }, DispatchEvent::Refused(result)) => to_end(
            call.session_id,
            result,
        ),
        (DispatchState::Performing { session_id }, DispatchEvent::Performed(result)) => to_end(
            session_id,
            result,
        ),
        (
            DispatchState::Recording { session_id, result },
            DispatchEvent::Recorded { event_id, hint },
        ) => {
            let event = match &event_id {
                Some(id) => Some(id.as_str()),
                None => None,
            };
            let result = add_session_telemetry_hint(result, session_id.as_str(), event, hint);
            (DispatchState::Done, DispatchAction::Respond(result))
        },
        (state, _) => (state, DispatchAction::Ignore),
    }
}

impl<'a> DispatchRun<'a> {
    /// What holds of a call on its way.
    pub open spec fn wf(&self) -> bool {
        on_its_way(self.at())
    }

    /// Whose call it is.
    pub closed spec fn by(&self) -> Option<&'a AuthContext> {
        self.auth
    }

    /// The transport by which the call came in.
    pub closed spec fn over(&self) -> SessionTransport {
        self.transport
    }

    /// How far the call got.
    pub closed spec fn at(&self) -> DispatchState {
        self.state
    }

    /// How far the call got.
    pub fn state(&self) -> (r: &DispatchState)
        ensures
            *r == self.at(),
    {
        &self.state
    }

    /// Takes in what came of the last action, and tells the next one.
    pub fn step(self, event: DispatchEvent) -> (r: (Self, DispatchAction))
        requires
            self.wf(),
        ensures
            r.0.wf(),
            r.0.by() == self.by(),
            r.0.over() == self.over(),
            steps_to(self.by(), self.over(), self.at(), event, r.0.at(), r.1),
    {
        let (state, action) = next_step(self.auth, self.transport, self.state, event);
        (DispatchRun { auth: self.auth, transport: self.transport, state }, action)
    }
}

/// How a call sets out: its project is resolved first, where it names one.
pub open spec fn sets_out(
    call: ToolCall,
    use_current_session: bool,
    after: DispatchState,
    action: DispatchAction,
) -> bool {
    match call.project {
        Some(project) => {
            &&& after == DispatchState::Resolving { call, use_current_session }
            &&& action is ResolveProject
            &&& action->ResolveProject_0@ == project@
        },
        None => goes_to_session(call, None, after, action),
    }
}

impl ToolRuntime {
    /// Sets a call on its way without a caller: nobody is known to own an agent then.
    pub fn dispatch<'a>(&self, call: ToolCall) -> (r: (DispatchRun<'a>, DispatchAction))
        ensures
            r.0.wf(),
            r.0.by() is None,
            r.0.over() == SessionTransport::Api,
            sets_out(call, true, r.0.at(), r.1),
    {
        self.dispatch_with_auth(call, None)
    }

    /// Sets a call of a caller on its way.
    pub fn dispatch_with_auth<'a>(&self, call: ToolCall, auth: Option<&'a AuthContext>) -> (r: (
        DispatchRun<'a>,
        DispatchAction,
    ))
        ensures
            r.0.wf(),
            r.0.by() == auth,
            r.0.over() == SessionTransport::Api,
            sets_out(call, true, r.0.at(), r.1),
    {
        self.dispatch_with_auth_transport(call, auth, SessionTransport::Api)
    }

    /// Sets a call of a caller on its way, which came in by a transport.
    pub fn dispatch_with_auth_transport<'a>(
        &self,
        call: ToolCall,
        auth: Option<&'a AuthContext>,
        transport: SessionTransport,
    ) -> (r: (DispatchRun<'a>, DispatchAction))
        ensures
            r.0.wf(),
            r.0.by() == auth,
            r.0.over() == transport,
            sets_out(call, true, r.0.at(), r.1),
    {
        self.dispatch_with_auth_transport_options(call, auth, transport, true)
    }

    /// Sets a call of a caller on its way, which may be recorded in the current session.
    pub fn dispatch_with_auth_transport_options<'a>(
        &self,
        call: ToolCall,
        auth: Option<&'a AuthContext>,
        transport: SessionTransport,
        use_current_session: bool,
    ) -> (r: (DispatchRun<'a>, DispatchAction))
        ensures
            r.0.wf(),
            r.0.by() == auth,
            r.0.over() == transport,
            sets_out(call, use_current_session, r.0.at(), r.1),
    {
        let (state, action) = match opt_clone(&call.project) {
            Some(project) => (
                DispatchState::Resolving { call, use_current_session },
                DispatchAction::ResolveProject(project),
            ),
            None => to_session(call, None),
        };
        (DispatchRun { auth, transport, state }, action)
    }
}

// ---------------------------------------------------------------------------
// Laws
// ---------------------------------------------------------------------------

/// A tool does its work only after its caller was found to be allowed to have it done,
/// and it does what was asked for. Codex never does.
pub proof fn law_performed_when_authorized(
    auth: Option<&AuthContext>,
    transport: SessionTransport,
    before: DispatchState,
    event: DispatchEvent,
    after: DispatchState,
    action: DispatchAction,
)
    requires
        on_its_way(before),
        steps_to(auth, transport, before, event, after, action),
        action is Perform,
    ensures
        before is Authorizing,
        event is Authorized,
        action->Perform_0 == before->Authorizing_call,
        action->Perform_0.kind != ToolKind::RunCodex,
{
}

/// A call that is recorded in a session answers only after its end was recorded there.
pub proof fn law_recorded_before_answered(
    auth: Option<&AuthContext>,
    transport: SessionTransport,
    before: DispatchState,
    event: DispatchEvent,
    after: DispatchState,
    action: DispatchAction,
)
    requires
        on_its_way(before),
        steps_to(auth, transport, before, event, after, action),
        action is Respond,
    ensures
        before is Authorizing ==> before->Authorizing_call.session_id is None,
        before is Performing ==> before->Performing_session_id is None,
        before is Recording ==> event is Recorded,
        before is InspectingSession ==> event is SessionInspected && !event->known,
{
}

/// The current session is looked up only for a call that names none, and never for one
/// that manages the current session or asks for a handoff.
pub proof fn law_current_session_stands_in(
    auth: Option<&AuthContext>,
    transport: SessionTransport,
    before: DispatchState,
    event: DispatchEvent,
    after: DispatchState,
    action: DispatchAction,
)
    requires
        steps_to(auth, transport, before, event, after, action),
        action is FindCurrentSession,
    ensures
        before is Resolving,
        before->Resolving_call.session_id is None,
        before->use_current_session,
        before->Resolving_call.kind != ToolKind::SessionHandoffSummary,
        !is_session_control(before->Resolving_call.kind),
{
}

/// How many events may still come.
pub open spec fn steps_left(state: DispatchState) -> nat {
    match state {
        DispatchState::Resolving { .. } => 6,
        DispatchState::SeekingSession { .. } => 5,
        DispatchState::InspectingSession { .. } => 4,
        DispatchState::Authorizing { .. } => 3,
        DispatchState::Performing { .. } => 2,
        DispatchState::Recording { .. } => 1,
        DispatchState::Done => 0,
    }
}

/// Every event that fits brings a call nearer to its end, and it is over when its result
/// is told, no sooner and no later.
pub proof fn law_dispatch_ends(
    auth: Option<&AuthContext>,
    transport: SessionTransport,
    before: DispatchState,
    event: DispatchEvent,
    after: DispatchState,
    action: DispatchAction,
)
    requires
        steps_to(auth, transport, before, event, after, action),
        !(action is Ignore),
    ensures
        steps_left(after) < steps_left(before),
        after is Done <==> action is Respond,
{
}

} // verus!
