//! What is told about sessions, and who the current session belongs to.
use crate::json::{
    boolean, field, law_put_get, no_fields, opt_text_json, opt_text_tree, text, Json, ObjectBuilder,
    Tree,
};
use crate::shell_client::access::{caller, AuthContext, AuthKind, AuthModel};
use crate::text::{concat2, concat3, opt_clone, opt_str, opt_text, str_eq};
use crate::tool_runtime::types::{tool_failed, ToolModel, ToolResult};
use vstd::prelude::*;
use vstd::string::*;

verus! {

/// The kind of the warning that a session is of another project.
pub const SESSION_PROJECT_MISMATCH_KIND: &'static str = "session_project_mismatch";

/// The warning that a session is of another project than the one asked for.
pub open spec fn mismatch_warning(session: Seq<char>, asked: Seq<char>, allowed: bool) -> Tree {
    Tree::Object(
        no_fields()
            .push(field("kind"@, Tree::Text(SESSION_PROJECT_MISMATCH_KIND@)))
            .push(field("session_project"@, Tree::Text(session)))
            .push(field("request_project"@, Tree::Text(asked)))
            .push(field("allow_cross_project_session"@, Tree::Bool(allowed))),
    )
}

/// The warning that a session is of another project than the one asked for.
pub fn session_project_mismatch_warning(session: &str, asked: &str, allowed: bool) -> (r: Json)
    ensures
        r@ == mismatch_warning(session@, asked@, allowed),
{
    ObjectBuilder::new()
        .with("kind", text(SESSION_PROJECT_MISMATCH_KIND))
        .with("session_project", text(session))
        .with("request_project", text(asked))
        .with("allow_cross_project_session", boolean(allowed))
        .build()
}

// ---------------------------------------------------------------------------
// Complaints
// ---------------------------------------------------------------------------

/// The complaint that no session has this id.
pub open spec fn unknown_session(session_id: Seq<char>) -> ToolModel {
    tool_failed(
        Tree::Object(
            no_fields()
                .push(field("error_kind"@, Tree::Text("unknown_session_id"@)))
                .push(field("session_id"@, Tree::Text(session_id))),
        ),
        "unknown_session_id: "@ + session_id,
    )
}

/// The complaint that no session has this id.
pub fn unknown_session_result(session_id: &str) -> (r: ToolResult)
    ensures
        r@ == unknown_session(session_id@),
{
    let message = concat2("unknown_session_id: ", session_id);
    ToolResult::failed(
        ObjectBuilder::new()
            .with("error_kind", text("unknown_session_id"))
            .with("session_id", text(session_id))
            .build(),
        message.as_str(),
    )
}

/// Why a session does not let a tool run.
#[derive(Debug)]
pub struct SessionGuardDenial {
    /// The guard that speaks.
    pub guard: String,
    /// The mode of the session.
    pub mode: String,
}

/// The complaint that a session does not let a tool run. Where it is the guard of
/// shell tools, it also says that no command was started.
pub open spec fn guard_denied(
    session_id: Seq<char>,
    tool_name: Seq<char>,
    denial: SessionGuardDenial,
) -> ToolModel {
    let members = no_fields()
        .push(field("error_kind"@, Tree::Text("session_guard_denied"@)))
        .push(field("session_id"@, Tree::Text(session_id)))
        .push(field("tool_name"@, Tree::Text(tool_name)))
        .push(field("guard"@, Tree::Text(denial.guard@)))
        .push(field("mode"@, Tree::Text(denial.mode@)));
    tool_failed(
        Tree::Object(
            if denial.guard@ == "deny_shell_tools"@ {
                members.push(field("command_started"@, Tree::Bool(false)))
            } else {
                members
            },
        ),
        "session_guard_denied: "@ + tool_name + " blocked by "@ + denial.mode@ + " session"@,
    )
}

/// The complaint that a session does not let a tool run.
pub fn session_guard_denied_result(session_id: &str, tool_name: &str, denial: &SessionGuardDenial)
    -> (r: ToolResult)
    ensures
        r@ == guard_denied(session_id@, tool_name@, *denial),
{
    let members = ObjectBuilder::new()
        .with("error_kind", text("session_guard_denied"))
        .with("session_id", text(session_id))
        .with("tool_name", text(tool_name))
        .with("guard", text(denial.guard.as_str()))
        .with("mode", text(denial.mode.as_str()));
    let output = if str_eq(denial.guard.as_str(), "deny_shell_tools") {
        members.with("command_started", boolean(false)).build()
    } else {
        members.build()
    };
    let mut message = concat3("session_guard_denied: ", tool_name, " blocked by ");
    message.append(denial.mode.as_str());
    message.append(" session");
    ToolResult::failed(output, message.as_str())
}

/// Why nothing was done on the message board of a session.
#[derive(Debug)]
pub enum SessionMessageError {
    UnknownSession,
    UnknownMessage,
    InvalidInput(String),
}

/// The complaint that nothing was done on the message board.
pub open spec fn message_refused(
    session_id: Seq<char>,
    message_id: Option<Seq<char>>,
    error: SessionMessageError,
) -> ToolModel {
    match error {
        SessionMessageError::UnknownSession => unknown_session(session_id),
        SessionMessageError::UnknownMessage => tool_failed(
            Tree::Object(
                no_fields()
                    .push(field("error_kind"@, Tree::Text("unknown_message_id"@)))
                    .push(field("session_id"@, Tree::Text(session_id)))
                    .push(field("message_id"@, opt_text_tree(message_id))),
            ),
            match message_id {
                Some(id) => "unknown_message_id: "@ + id,
                None => "unknown_message_id"@,
            },
        ),
        SessionMessageError::InvalidInput(message) => tool_failed(
            Tree::Object(
                no_fields()
                    .push(field("error_kind"@, Tree::Text("invalid_session_message"@)))
                    .push(field("session_id"@, Tree::Text(session_id)))
                    .push(field("error"@, Tree::Text(message@))),
            ),
            message@,
        ),
    }
}

/// The complaint that nothing was done on the message board.
pub fn session_message_error_result(
    session_id: &str,
    message_id: Option<&str>,
    error: &SessionMessageError,
) -> (r: ToolResult)
    ensures
        r@ == message_refused(session_id@, opt_str(message_id), *error),
{
    match error {
        SessionMessageError::UnknownSession => unknown_session_result(session_id),
        SessionMessageError::UnknownMessage => {
            let owned = match message_id {
                Some(id) => Some(id.to_owned()),
                None => None,
            };
            let message = match message_id {
                Some(id) => concat2("unknown_message_id: ", id),
                None => "unknown_message_id".to_owned(),
            };
            ToolResult::failed(
                ObjectBuilder::new()
                    .with("error_kind", text("unknown_message_id"))
                    .with("session_id", text(session_id))
                    .with("message_id", opt_text_json(&owned))
                    .build(),
                message.as_str(),
            )
        },
        SessionMessageError::InvalidInput(message) => ToolResult::failed(
            ObjectBuilder::new()
                .with("error_kind", text("invalid_session_message"))
                .with("session_id", text(session_id))
                .with("error", text(message.as_str()))
                .build(),
            message.as_str(),
        ),
    }
}

/// The complaint that there is no current session to speak of.
pub open spec fn no_current_session(message: Seq<char>) -> ToolModel {
    tool_failed(
        Tree::Object(
            no_fields().push(field("error_kind"@, Tree::Text("current_session_unavailable"@))),
        ),
        message,
    )
}

/// The complaint that there is no current session to speak of.
pub fn current_session_unavailable_result(message: &str) -> (r: ToolResult)
    ensures
        r@ == no_current_session(message@),
{
    ToolResult::failed(
        ObjectBuilder::new().with("error_kind", text("current_session_unavailable")).build(),
        message,
    )
}

// ---------------------------------------------------------------------------
// Telemetry
// ---------------------------------------------------------------------------

/// An output as an object: one that is none becomes its `value`.
pub open spec fn as_object(output: Tree) -> Tree {
    match output {
        Tree::Object(_) => output,
        _ => Tree::Object(no_fields().push(field("value"@, output))),
    }
}

/// The output of a call that was recorded in a session. A session id that the tool
/// itself tells stays.
pub open spec fn with_telemetry(
    output: Tree,
    session_id: Seq<char>,
    event_id: Option<Seq<char>>,
    hint: Option<Tree>,
) -> Tree {
    let a = as_object(output).put("session_recorded"@, Tree::Bool(event_id is Some));
    let b = if a.get("session_id"@) is Some {
        a
    } else {
        a.put("session_id"@, Tree::Text(session_id))
    };
    let c = match event_id {
        Some(id) => b.put("session_event_id"@, Tree::Text(id)),
        None => b,
    };
    match hint {
        Some(h) => c.put("session_hint"@, h),
        None => c,
    }
}

/// Notes in the result of a call that it was recorded in a session, and what waits
/// on the board of the session.
pub fn add_session_telemetry_hint(
    result: ToolResult,
    session_id: &str,
    event_id: Option<&str>,
    hint: Option<Json>,
) -> (r: ToolResult)
    ensures
        r.success == result.success,
        r.error == result.error,
        r.output@ == with_telemetry(
            result.output@,
            session_id@,
            opt_str(event_id),
            match hint {
                Some(h) => Some(h@),
                None => None,
            },
        ),
{
    let success = result.success;
    let error = result.error;
    let mut output = if result.output.is_object() {
        result.output
    } else {
        ObjectBuilder::new().with("value", result.output).build()
    };
    output.set("session_recorded", boolean(event_id.is_some()));
    if output.get("session_id").is_none() {
        output.set("session_id", text(session_id));
    }
    if let Some(id) = event_id {
        output.set("session_event_id", text(id));
    }
    if let Some(h) = hint {
        output.set("session_hint", h);
    }
    ToolResult { success, output, error }
}

/// A session that a tool itself tells of stays in its output, whatever session records
/// the call.
pub proof fn law_told_session_stays(
    output: Tree,
    session_id: Seq<char>,
    event_id: Option<Seq<char>>,
    hint: Option<Tree>,
)
    requires
        output is Object,
        output.get("session_id"@) is Some,
    ensures
        with_telemetry(output, session_id, event_id, hint).get("session_id"@) == output.get(
            "session_id"@,
        ),
{
    reveal_strlit("session_id");
    reveal_strlit("session_recorded");
    reveal_strlit("session_event_id");
    reveal_strlit("session_hint");
    assert("session_id"@.len() == 10 && "session_recorded"@.len() == 16);
    assert("session_event_id"@.len() == 16 && "session_hint"@.len() == 12);
    let a = output.put("session_recorded"@, Tree::Bool(event_id is Some));
    law_put_get(output, "session_recorded"@, Tree::Bool(event_id is Some), "session_id"@);
    let b = match event_id {
        Some(id) => a.put("session_event_id"@, Tree::Text(id)),
        None => a,
    };
    if let Some(id) = event_id {
        law_put_get(a, "session_event_id"@, Tree::Text(id), "session_id"@);
    }
    if let Some(h) = hint {
        law_put_get(b, "session_hint"@, h, "session_id"@);
    }
}

// ---------------------------------------------------------------------------
// The current session
// ---------------------------------------------------------------------------

/// The ways in which calls come in.
#[derive(Debug, Clone, Copy, PartialEq, Eq, Structural)]
pub enum SessionTransport {
    Api,
    Mcp,
}

/// The word for a way in which calls come in.
pub open spec fn transport_word(t: SessionTransport) -> Seq<char> {
    match t {
        SessionTransport::Api => "api"@,
        SessionTransport::Mcp => "mcp"@,
    }
}

impl SessionTransport {
    /// The word for the way in which calls come in.
    pub fn as_str(self) -> (r: &'static str)
        ensures
            r@ == transport_word(self),
    {
        match self {
            SessionTransport::Api => "api",
            SessionTransport::Mcp => "mcp",
        }
    }
}

/// What a current session belongs to.
#[derive(Debug, PartialEq, Eq)]
pub struct CurrentSessionKey {
    pub principal_kind: String,
    pub principal_id: String,
    pub transport: String,
    pub resolved_project: String,
}

/// The mathematical value of a [`CurrentSessionKey`].
#[verifier::ext_equal]
pub struct KeyModel {
    pub principal_kind: Seq<char>,
    pub principal_id: Seq<char>,
    pub transport: Seq<char>,
    pub resolved_project: Seq<char>,
}

impl View for CurrentSessionKey {
    type V = KeyModel;

    open spec fn view(&self) -> KeyModel {
        KeyModel {
            principal_kind: self.principal_kind@,
            principal_id: self.principal_id@,
            transport: self.transport@,
            resolved_project: self.resolved_project@,
        }
    }
}

/// The first of two texts.
pub open spec fn first_of(a: Option<Seq<char>>, b: Option<Seq<char>>) -> Option<Seq<char>> {
    match a {
        Some(_) => a,
        None => b,
    }
}

/// The id by which a caller is known again.
pub open spec fn stable_id(auth: AuthModel) -> Option<Seq<char>> {
    if auth.kind == AuthKind::OpenAnonymous {
        Some("open-anonymous"@)
    } else {
        first_of(
            auth.api_key_id,
            first_of(
                auth.user_id,
                first_of(auth.username, first_of(auth.allowed_client_id, auth.shared_key_hash)),
            ),
        )
    }
}

/// The word for what a caller is.
pub open spec fn principal_word(auth: AuthModel) -> Seq<char> {
    match auth.kind {
        AuthKind::ApiToken => match auth.token_kind {
            Some(k) => k,
            None => "api_token"@,
        },
        AuthKind::AgentToken => "agent_token"@,
        AuthKind::AccountCredential => "account_credential"@,
        AuthKind::OAuth2Token => "oauth2"@,
        AuthKind::Bootstrap => "bootstrap"@,
        AuthKind::SharedKey => "shared-key"@,
        AuthKind::OpenAnonymous => "open"@,
    }
}

/// Who a caller is: what it is and its id. A caller that cannot be known again is
/// nobody.
pub open spec fn principal_of(auth: Option<AuthModel>) -> Result<(Seq<char>, Seq<char>), Seq<char>> {
    match auth {
        None => Ok(("dev"@, "dev"@)),
        Some(a) => if a.is_bootstrap {
            Ok(
                (
                    "bootstrap"@,
                    match first_of(a.user_id, a.username) {
                        Some(id) => id,
                        None => "bootstrap"@,
                    },
                ),
            )
        } else {
            match stable_id(a) {
                Some(id) => Ok((principal_word(a), id)),
                None => Err(
                    "current_session_unavailable: authenticated caller has no stable principal id"@,
                ),
            }
        },
    }
}

fn or_next(a: Option<String>, b: &Option<String>) -> (r: Option<String>)
    ensures
        opt_text(r) == first_of(opt_text(a), opt_text(*b)),
{
    match a {
        Some(s) => Some(s),
        None => opt_clone(b),
    }
}

/// Who a caller is.
pub fn current_session_principal(auth: Option<&AuthContext>) -> (r: Result<
    (String, String),
    String,
>)
    ensures
        principal_of(caller(auth)) == (match r {
            Ok((kind, id)) => Ok((kind@, id@)),
            Err(e) => Err(e@),
        }),
{
    let Some(auth) = auth else {
        return Ok(("dev".to_owned(), "dev".to_owned()));
    };
    if auth.is_bootstrap {
        let id = match or_next(opt_clone(&auth.user_id), &auth.username) {
            Some(id) => id,
            None => "bootstrap".to_owned(),
        };
        return Ok(("bootstrap".to_owned(), id));
    }
    let id = if auth.kind == AuthKind::OpenAnonymous {
        Some("open-anonymous".to_owned())
    } else {
        or_next(
            or_next(
                or_next(
                    or_next(opt_clone(&auth.api_key_id), &auth.user_id),
                    &auth.username,
                ),
                &auth.allowed_client_id,
            ),
            &auth.shared_key_hash,
        )
    };
    let Some(principal_id) = id else {
        return Err(
            "current_session_unavailable: authenticated caller has no stable principal id".to_owned(),
        );
    };
    let kind = match auth.kind {
        AuthKind::ApiToken => match &auth.token_kind {
            Some(k) => k.clone(),
            None => "api_token".to_owned(),
        },
        AuthKind::AgentToken => "agent_token".to_owned(),
        AuthKind::AccountCredential => "account_credential".to_owned(),
        AuthKind::OAuth2Token => "oauth2".to_owned(),
        AuthKind::Bootstrap => "bootstrap".to_owned(),
        AuthKind::SharedKey => "shared-key".to_owned(),
        AuthKind::OpenAnonymous => "open".to_owned(),
    };
    Ok((kind, principal_id))
}

/// What the current session of a caller belongs to.
pub open spec fn session_key(
    auth: Option<AuthModel>,
    transport: SessionTransport,
    project: Seq<char>,
) -> Result<KeyModel, Seq<char>> {
    match principal_of(auth) {
        Ok((kind, id)) => Ok(
            KeyModel {
                principal_kind: kind,
                principal_id: id,
                transport: transport_word(transport),
                resolved_project: project,
            },
        ),
        Err(e) => Err(e),
    }
}

/// What the current session of a caller belongs to.
pub fn current_session_key(
    auth: Option<&AuthContext>,
    transport: SessionTransport,
    resolved_project: &str,
) -> (r: Result<CurrentSessionKey, String>)
    ensures
        session_key(caller(auth), transport, resolved_project@) == (match r {
            Ok(key) => Ok(key@),
            Err(e) => Err(e@),
        }),
{
    match current_session_principal(auth) {
        Ok((principal_kind, principal_id)) => Ok(
            CurrentSessionKey {
                principal_kind,
                principal_id,
                transport: transport.as_str().to_owned(),
                resolved_project: resolved_project.to_owned(),
            },
        ),
        Err(e) => Err(e),
    }
}

/// Callers that differ in the id by which they are known do not share a current
/// session, and neither do projects nor ways in which calls come in.
pub proof fn law_current_sessions_are_separate(
    a: Option<AuthModel>,
    b: Option<AuthModel>,
    t: SessionTransport,
    u: SessionTransport,
    p: Seq<char>,
    q: Seq<char>,
)
    requires
        session_key(a, t, p) is Ok,
        session_key(a, t, p) == session_key(b, u, q),
    ensures
        principal_of(a) == principal_of(b),
        t == u,
        p == q,
{
    reveal_strlit("api");
    reveal_strlit("mcp");
    assert("api"@[0] == 'a' && "mcp"@[0] == 'm');
}

} // verus!
