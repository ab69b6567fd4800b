//! The way of a named call to its tool and back, step by step.
//!
//! The session of the caller records the start and the end of the call, its arguments are
//! read elsewhere, and so is the call dispatched. A run is handed what came of the last
//! action, and tells the next one, until it tells the outcome.
use crate::shell_client::access::{caller, AuthContext};
use crate::text::opt_text;
use crate::tool_runtime::calls::{tool_project, ToolCall};
use crate::tool_runtime::kernel::{
    after_recording, arguments_refused, before_recording, finished_call, is_outcome, is_rejection,
    scope_error, status_words, told_project, KernelStep, OAuthToolScopePolicy, RecordedRejection,
    StatusModel, ToolCallOutcome, ToolTransport,
};
use crate::tool_runtime::registry::ToolRuntime;
use crate::tool_runtime::types::ToolResult;
use vstd::prelude::*;

verus! {

/// How far a call has come.
#[derive(Debug)]
pub enum KernelState {
    /// Its start is being recorded.
    Recording,
    /// Its arguments are being read.
    Reading,
    /// That it was turned away is being recorded.
    Rejecting(ToolCallOutcome),
    /// It is being dispatched.
    Dispatching { project: Option<String> },
    /// Its end is being recorded.
    Ending(ToolCallOutcome),
    /// It is over.
    Done,
}

/// What came of the last action.
#[derive(Debug)]
pub enum KernelEvent {
    /// The start is recorded.
    StartRecorded,
    /// The arguments as the call of a tool, or what is wrong with them.
    ArgumentsRead(Result<ToolCall, String>),
    /// What the dispatched call handed back.
    Dispatched(ToolResult),
    /// The end is recorded.
    EndRecorded,
}

/// What is to be done next.
#[derive(Debug)]
pub enum KernelAction {
    /// Record the start of the call.
    RecordStart,
    /// Read its arguments.
    ReadArguments,
    /// Record that the call was turned away.
    RecordRejection(RecordedRejection),
    /// Dispatch the call.
    Dispatch(ToolCall),
    /// Record the end of the call.
    RecordEnd,
    /// The call is over with this outcome.
    Respond(ToolCallOutcome),
    /// Nothing: the event does not fit.
    Ignore,
}

/// Who calls, by which way, and what is asked of the call.
pub struct KernelContext<'a> {
    pub transport: ToolTransport,
    pub auth: Option<&'a AuthContext>,
    /// What the tool asks of OAuth tokens.
    pub policy: OAuthToolScopePolicy,
    /// Whether the session records calls that the scopes of their callers do not allow.
    pub record_oauth_scope_denials: bool,
}

impl<'a> KernelContext<'a> {
    /// Why the scopes of the caller do not let it call the tool.
    pub open spec fn denial(self) -> Option<StatusModel> {
        scope_error(caller(self.auth), self.policy)
    }
}

/// A call on its way.
pub struct KernelRun<'a> {
    context: KernelContext<'a>,
    state: KernelState,
}

/// The call is turned away for the reason, which is recorded.
pub open spec fn turns_away(
    status: StatusModel,
    error_kind: Seq<char>,
    after: KernelState,
    action: KernelAction,
) -> bool {
    &&& after is Rejecting
    &&& is_rejection(after->Rejecting_0, status)
    &&& action is RecordRejection
    &&& action->RecordRejection_0.message@ == status_words(status)
    &&& action->RecordRejection_0.error_kind@ == error_kind
}

/// How a call sets out. One that the scopes of its caller do not allow ends at once,
/// unless that is to be recorded.
pub open spec fn kernel_sets_out(
    context: KernelContext,
    after: KernelState,
    action: KernelAction,
) -> bool {
    match context.denial() {
        Some(status) if !context.record_oauth_scope_denials => {
            &&& after is Done
            &&& action is Respond
            &&& is_rejection(action->Respond_0, status)
        },
        _ => after is Recording && action is RecordStart,
    }
}

/// How a call goes on after an event.
pub open spec fn kernel_steps_to(
    context: KernelContext,
    before: KernelState,
    event: KernelEvent,
    after: KernelState,
    action: KernelAction,
) -> bool {
    match (before, event) {
        (KernelState::Recording, KernelEvent::StartRecorded) => match context.denial() {
            Some(status) if context.record_oauth_scope_denials => turns_away(
                status,
                "insufficient_scope"@,
                after,
                action,
            ),
            _ => after is Reading && action is ReadArguments,
        },
        (KernelState::Reading, KernelEvent::ArgumentsRead(Ok(call))) => {
            &&& after is Dispatching
            &&& opt_text(after->project) == told_project(call)
            &&& action == KernelAction::Dispatch(call)
        },
        (KernelState::Reading, KernelEvent::ArgumentsRead(Err(message))) => turns_away(
            StatusModel::InvalidArguments { message: message@ },
            "invalid_arguments"@,
            after,
            action,
        ),
        (KernelState::Dispatching { project }, KernelEvent::Dispatched(result)) => {
            &&& after is Ending
            &&& is_outcome(after->Ending_0, opt_text(project), result)
            &&& action is RecordEnd
        },
        (KernelState::Rejecting(outcome), KernelEvent::EndRecorded) => after is Done && action
            == KernelAction::Respond(outcome),
        (KernelState::Ending(outcome), KernelEvent::EndRecorded) => after is Done && action
            == KernelAction::Respond(outcome),
        _ => after == before && action is Ignore,
    }
}

/// What holds of a call on its way: one whose start is to be recorded may be turned away
/// only after that, and one that got further is allowed by the scopes of its caller.
pub open spec fn kernel_on_its_way(context: KernelContext, state: KernelState) -> bool {
    match state {
        KernelState::Recording => context.denial() is Some ==> context.record_oauth_scope_denials,
        KernelState::Reading => context.denial() is None,
        KernelState::Dispatching { .. } => context.denial() is None,
        _ => true,
    }
}

fn rejection(step: KernelStep) -> (r: (KernelState, KernelAction))
    requires
        step is RejectRecorded,
    ensures
        r.0 == KernelState::Rejecting(step->RejectRecorded_0),
        r.1 == KernelAction::RecordRejection(step->RejectRecorded_1),
{
    match step {
        KernelStep::RejectRecorded(outcome, record) => (
            KernelState::Rejecting(outcome),
            KernelAction::RecordRejection(record),
        ),
        _ => vstd::pervasive::unreached(),
    }
}

impl<'a> KernelRun<'a> {
    /// What holds of a call on its way.
    pub open spec fn wf(&self) -> bool {
        kernel_on_its_way(self.under(), self.at())
    }

    /// What the call is made under.
    pub closed spec fn under(&self) -> KernelContext<'a> {
        self.context
    }

    /// How far the call got.
    pub closed spec fn at(&self) -> KernelState {
        self.state
    }

    /// How far the call got.
    pub fn state(&self) -> (r: &KernelState)
        ensures
            *r == self.at(),
    {
        &self.state
    }

    /// Takes in what came of the last action, and tells the next one.
    pub fn step(self, event: KernelEvent) -> (r: (Self, KernelAction))
        requires
            self.wf(),
        ensures
            r.0.wf(),
            r.0.under() == self.under(),
            kernel_steps_to(self.under(), self.at(), event, r.0.at(), r.1),
    {
        let context = self.context;
        let (state, action) = match (self.state, event) {
            (KernelState::Recording, KernelEvent::StartRecorded) => {
                match after_recording(
                    context.auth,
                    &context.policy,
                    context.record_oauth_scope_denials,
                ) {
                    KernelStep::RejectRecorded(outcome, record) => (
                        KernelState::Rejecting(outcome),
                        KernelAction::RecordRejection(record),
                    ),
                    _ => (KernelState::Reading, KernelAction::ReadArguments),
                }
            },
            (KernelState::Reading, KernelEvent::ArgumentsRead(Ok(call))) => {
                let project = tool_project(&call);
                (KernelState::Dispatching { project }, KernelAction::Dispatch(call))
            },
            (KernelState::Reading, KernelEvent::ArgumentsRead(Err(message))) => rejection(
                arguments_refused(message),
            ),
            (KernelState::Dispatching { project }, KernelEvent::Dispatched(result)) => (
                KernelState::Ending(finished_call(project, result)),
                KernelAction::RecordEnd,
            ),
            (KernelState::Rejecting(outcome), KernelEvent::EndRecorded) => (
                KernelState::Done,
                KernelAction::Respond(outcome),
            ),
            (KernelState::Ending(outcome), KernelEvent::EndRecorded) => (
                KernelState::Done,
                KernelAction::Respond(outcome),
            ),
            (state, _) => (state, KernelAction::Ignore),
        };
        (KernelRun { context, state }, action)
    }
}

impl ToolRuntime {
    /// Sets a named call on its way.
    pub fn call_tool_with_context<'a>(&self, context: KernelContext<'a>) -> (r: (
        KernelRun<'a>,
        KernelAction,
    ))
        ensures
            r.0.wf(),
            r.0.under() == context,
            kernel_sets_out(context, r.0.at(), r.1),
    {
        let (state, action) = match before_recording(
            context.auth,
            &context.policy,
            context.record_oauth_scope_denials,
        ) {
            KernelStep::RejectSilently(outcome) => (
                KernelState::Done,
                KernelAction::Respond(outcome),
            ),
            _ => (KernelState::Recording, KernelAction::RecordStart),
        };
        (KernelRun { context, state }, action)
    }
}

// ---------------------------------------------------------------------------
// Laws
// ---------------------------------------------------------------------------

/// A call that the scopes of its caller do not allow is not dispatched.
pub proof fn law_denied_calls_are_not_dispatched(
    context: KernelContext,
    before: KernelState,
    event: KernelEvent,
    after: KernelState,
    action: KernelAction,
)
    requires
        kernel_on_its_way(context, before),
        kernel_steps_to(context, before, event, after, action),
        action is Dispatch,
    ensures
        context.denial() is None,
        before is Reading,
        event == KernelEvent::ArgumentsRead(Ok(action->Dispatch_0)),
{
}

/// A call whose start was recorded answers only after its end was.
pub proof fn law_ends_are_recorded(
    context: KernelContext,
    before: KernelState,
    event: KernelEvent,
    after: KernelState,
    action: KernelAction,
)
    requires
        kernel_steps_to(context, before, event, after, action),
        action is Respond,
    ensures
        event is EndRecorded,
        before is Rejecting || before is Ending,
{
}

/// How many events may still come.
pub open spec fn kernel_steps_left(state: KernelState) -> nat {
    match state {
        KernelState::Recording => 4,
        KernelState::Reading => 3,
        KernelState::Dispatching { .. } => 2,
        KernelState::Rejecting(_) => 1,
        KernelState::Ending(_) => 1,
        KernelState::Done => 0,
    }
}

/// Every event that fits brings a call nearer to its end, and it is over when its outcome
/// is told, no sooner and no later.
pub proof fn law_calls_end(
    context: KernelContext,
    before: KernelState,
    event: KernelEvent,
    after: KernelState,
    action: KernelAction,
)
    requires
        kernel_steps_to(context, before, event, after, action),
        !(action is Ignore),
    ensures
        kernel_steps_left(after) < kernel_steps_left(before),
        after is Done <==> action is Respond,
{
}

} // verus!
