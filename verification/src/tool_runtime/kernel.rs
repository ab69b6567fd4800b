//! The way of a tool call from its name and arguments to its outcome.
use crate::shell_client::access::{caller, AuthContext, AuthKind, AuthModel};
use crate::text::{concat2, opt_text};
use crate::tool_runtime::calls::{tells_project, ToolCall};
use crate::tool_runtime::session_context::SessionTransport;
use crate::tool_runtime::types::ToolResult;
use vstd::prelude::*;

verus! {

/// The ways in which tool calls come in.
#[derive(Debug, Clone, Copy, PartialEq, Eq, Structural)]
pub enum ToolTransport {
    Api,
    Mcp,
}

impl ToolTransport {
    /// The way under which a session records the call.
    pub fn session_transport(self) -> (r: SessionTransport)
        ensures
            r == (match self {
                ToolTransport::Api => SessionTransport::Api,
                ToolTransport::Mcp => SessionTransport::Mcp,
            }),
    {
        match self {
            ToolTransport::Api => SessionTransport::Api,
            ToolTransport::Mcp => SessionTransport::Mcp,
        }
    }
}

/// What an OAuth token needs for a tool.
#[derive(Debug)]
pub enum OAuthToolScopePolicy {
    /// This scope.
    Require(String),
    /// It cannot call the tool.
    FirstPartyOnly,
    /// There is no such tool.
    Unknown,
}

/// Why a tool call did not reach its tool.
#[derive(Debug, PartialEq, Eq)]
pub enum ToolCallErrorStatus {
    InvalidArguments { message: String },
    InsufficientScope { required_scope: Option<String>, description: String },
}

/// The mathematical value of a [`ToolCallErrorStatus`].
#[verifier::ext_equal]
pub enum StatusModel {
    InvalidArguments { message: Seq<char> },
    InsufficientScope { required_scope: Option<Seq<char>>, description: Seq<char> },
}

impl View for ToolCallErrorStatus {
    type V = StatusModel;

    open spec fn view(&self) -> StatusModel {
        match self {
            ToolCallErrorStatus::InvalidArguments { message } => StatusModel::InvalidArguments {
                message: message@,
            },
            ToolCallErrorStatus::InsufficientScope { required_scope, description } => {
                StatusModel::InsufficientScope {
                    required_scope: opt_text(*required_scope),
                    description: description@,
                }
            },
        }
    }
}

/// Why the scopes of a caller do not let it call a tool. Only OAuth tokens are held
/// to them.
pub open spec fn scope_error(auth: Option<AuthModel>, policy: OAuthToolScopePolicy) -> Option<
    StatusModel,
> {
    if auth is None || auth->0.kind != AuthKind::OAuth2Token {
        None
    } else {
        match policy {
            OAuthToolScopePolicy::Require(scope) => if auth->0.has_scope(scope@) {
                None
            } else {
                Some(
                    StatusModel::InsufficientScope {
                        required_scope: Some(scope@),
                        description: "missing required scope: "@ + scope@,
                    },
                )
            },
            OAuthToolScopePolicy::FirstPartyOnly => Some(
                StatusModel::InsufficientScope {
                    required_scope: None,
                    description: "OAuth2 access tokens cannot call first-party-only tools"@,
                },
            ),
            OAuthToolScopePolicy::Unknown => Some(
                StatusModel::InsufficientScope {
                    required_scope: None,
                    description: "OAuth2 access tokens cannot call unknown runtime tools"@,
                },
            ),
        }
    }
}

/// Checks that the scopes of a caller let it call a tool with the policy.
pub fn check_oauth_runtime_tool_scope(auth: Option<&AuthContext>, policy: &OAuthToolScopePolicy)
    -> (r: Result<(), ToolCallErrorStatus>)
    ensures
        match r {
            Ok(_) => scope_error(caller(auth), *policy) is None,
            Err(e) => scope_error(caller(auth), *policy) == Some(e@),
        },
{
    let Some(auth) = auth else {
        return Ok(());
    };
    if !auth.is_oauth_token() {
        return Ok(());
    }
    match policy {
        OAuthToolScopePolicy::Require(scope) => if auth.has_scope(scope.as_str()) {
            Ok(())
        } else {
            Err(
                ToolCallErrorStatus::InsufficientScope {
                    required_scope: Some(scope.clone()),
                    description: concat2("missing required scope: ", scope.as_str()),
                },
            )
        },
        OAuthToolScopePolicy::FirstPartyOnly => Err(
            ToolCallErrorStatus::InsufficientScope {
                required_scope: None,
                description: "OAuth2 access tokens cannot call first-party-only tools".to_owned(),
            },
        ),
        OAuthToolScopePolicy::Unknown => Err(
            ToolCallErrorStatus::InsufficientScope {
                required_scope: None,
                description: "OAuth2 access tokens cannot call unknown runtime tools".to_owned(),
            },
        ),
    }
}

/// What became of a tool call.
#[derive(Debug)]
pub struct ToolCallOutcome {
    pub success: bool,
    pub result: Option<ToolResult>,
    pub error_status: Option<ToolCallErrorStatus>,
    pub project: Option<String>,
}

/// Whether an outcome is that of a call that did not reach its tool.
pub open spec fn is_rejection(o: ToolCallOutcome, status: StatusModel) -> bool {
    &&& !o.success
    &&& o.result is None
    &&& o.error_status is Some
    &&& o.error_status->0@ == status
    &&& o.project is None
}

/// How a session records the end of a call that did not reach its tool.
#[derive(Debug)]
pub struct RecordedRejection {
    pub message: String,
    pub error_kind: &'static str,
}

/// A step on the way of a tool call.
#[derive(Debug)]
pub enum KernelStep {
    /// The call is over, and its session records nothing.
    RejectSilently(ToolCallOutcome),
    /// The call is over, and its session records how it ended.
    RejectRecorded(ToolCallOutcome, RecordedRejection),
    /// The call goes on.
    GoOn,
}

fn rejected(status: ToolCallErrorStatus) -> (r: ToolCallOutcome)
    ensures
        is_rejection(r, status@),
{
    ToolCallOutcome { success: false, result: None, error_status: Some(status), project: None }
}

/// The first step: before its session records the start of a call. A call whose scope
/// denials are not recorded ends here without a trace.
pub fn before_recording(
    auth: Option<&AuthContext>,
    policy: &OAuthToolScopePolicy,
    record_oauth_scope_denials: bool,
) -> (r: KernelStep)
    ensures
        match scope_error(caller(auth), *policy) {
            Some(e) => if record_oauth_scope_denials {
                r is GoOn
            } else {
                r is RejectSilently && is_rejection(r->RejectSilently_0, e)
            },
            None => r is GoOn,
        },
{
    if !record_oauth_scope_denials {
        if let Err(status) = check_oauth_runtime_tool_scope(auth, policy) {
            return KernelStep::RejectSilently(rejected(status));
        }
    }
    KernelStep::GoOn
}

/// The words of a status for the record.
pub open spec fn status_words(status: StatusModel) -> Seq<char> {
    match status {
        StatusModel::InvalidArguments { message } => message,
        StatusModel::InsufficientScope { required_scope, description } => description,
    }
}

fn words_of_status(status: &ToolCallErrorStatus) -> (r: String)
    ensures
        r@ == status_words(status@),
{
    match status {
        ToolCallErrorStatus::InvalidArguments { message } => message.clone(),
        ToolCallErrorStatus::InsufficientScope { description, .. } => description.clone(),
    }
}

/// The second step: after its session recorded the start of a call, before its
/// arguments are read.
pub fn after_recording(
    auth: Option<&AuthContext>,
    policy: &OAuthToolScopePolicy,
    record_oauth_scope_denials: bool,
) -> (r: KernelStep)
    ensures
        match scope_error(caller(auth), *policy) {
            Some(e) => if record_oauth_scope_denials {
                &&& r is RejectRecorded
                &&& is_rejection(r->RejectRecorded_0, e)
                &&& r->RejectRecorded_1.message@ == status_words(e)
                &&& r->RejectRecorded_1.error_kind@ == "insufficient_scope"@
            } else {
                r is GoOn
            },
            None => r is GoOn,
        },
{
    if record_oauth_scope_denials {
        if let Err(status) = check_oauth_runtime_tool_scope(auth, policy) {
            let message = words_of_status(&status);
            return KernelStep::RejectRecorded(
                rejected(status),
                RecordedRejection { message, error_kind: "insufficient_scope" },
            );
        }
    }
    KernelStep::GoOn
}

/// The third step, for a call whose arguments cannot be read.
pub fn arguments_refused(message: String) -> (r: KernelStep)
    ensures
        r is RejectRecorded,
        is_rejection(
            r->RejectRecorded_0,
            (StatusModel::InvalidArguments { message: message@ }),
        ),
        r->RejectRecorded_1.message@ == message@,
        r->RejectRecorded_1.error_kind@ == "invalid_arguments"@,
{
    let words = message.clone();
    KernelStep::RejectRecorded(
        rejected(ToolCallErrorStatus::InvalidArguments { message }),
        RecordedRejection { message: words, error_kind: "invalid_arguments" },
    )
}

/// The outcome of a call that reached its tool.
pub open spec fn is_outcome(o: ToolCallOutcome, project: Option<Seq<char>>, result: ToolResult) -> bool {
    &&& o.success == result.success
    &&& o.result == Some(result)
    &&& o.error_status is None
    &&& opt_text(o.project) == project
}

/// The project that is told beside the outcome of a call.
pub open spec fn told_project(call: ToolCall) -> Option<Seq<char>> {
    if tells_project(call.kind) {
        opt_text(call.project)
    } else {
        None
    }
}

/// The outcome of a call that reached its tool.
pub fn finished_call(project: Option<String>, result: ToolResult) -> (r: ToolCallOutcome)
    ensures
        is_outcome(r, opt_text(project), result),
{
    ToolCallOutcome { success: result.success, result: Some(result), error_status: None, project }
}

} // verus!
