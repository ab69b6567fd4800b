//! Whether a caller may have an agent do what a tool asks of it.
use crate::shell_client::access::{
    access_error, caller, sees_client, unknown_client, AuthContext, AuthModel,
};
use crate::shell_client::model::RegistryModel;
use crate::shell_client::protocol::{ClientViewModel, ShellClientCapabilities};
use crate::shell_client::registry::{is_client_listing, supports, ShellClientRegistry};
use crate::text::{concat2, concat3};
use crate::tool_runtime::calls::{
    capability_for, required_agent_capability, AgentCapability, ToolCall,
};
use crate::tool_runtime::project_commands::no_agent_named;
use crate::tool_runtime::project_resolution::{
    all_candidates, in_order, resolve, resolver_message, resolver_output, Executor,
};
use crate::tool_runtime::types::{tool_err, tool_failed, ToolModel, ToolResult};
use vstd::prelude::*;
use vstd::string::*;

verus! {

/// Whether an agent with the capabilities can do what a tool needs.
pub open spec fn can_do(caps: ShellClientCapabilities, required: AgentCapability) -> bool {
    match required {
        AgentCapability::OwnerOnly => true,
        AgentCapability::Shell => supports(caps, "shell"@),
        AgentCapability::FileRead => supports(caps, "file_read"@),
        AgentCapability::FileWrite => supports(caps, "file_write"@),
        AgentCapability::GitOrShell => supports(caps, "shell"@) || supports(caps, "git"@),
        AgentCapability::AsyncJobs => supports(caps, "async_jobs"@) || supports(
            caps,
            "async_shell_jobs"@,
        ),
    }
}

/// The words for what a tool needs.
pub open spec fn capability_words(required: AgentCapability) -> Seq<char> {
    match required {
        AgentCapability::OwnerOnly => "owner boundary"@,
        AgentCapability::Shell => "shell"@,
        AgentCapability::FileRead => "file_read"@,
        AgentCapability::FileWrite => "file_write"@,
        AgentCapability::GitOrShell => "shell or git"@,
        AgentCapability::AsyncJobs => "async shell jobs"@,
    }
}

/// Why the agent is not used for the caller.
pub open spec fn agent_refusal(
    m: RegistryModel,
    auth: Option<AuthModel>,
    client_id: Seq<char>,
    required: AgentCapability,
) -> Option<Seq<char>> {
    if !(m.clients.contains_key(client_id) && sees_client(auth, m.clients[client_id])) {
        Some(unknown_client(client_id))
    } else if access_error(auth, m.clients[client_id]) is Some {
        access_error(auth, m.clients[client_id])
    } else if !can_do(m.clients[client_id].capabilities, required) {
        Some("agent client "@ + client_id + " does not support "@ + capability_words(required))
    } else {
        None
    }
}

/// Why a call is refused. Calls that need no agent are not.
pub open spec fn call_refusal(
    m: RegistryModel,
    clients: Seq<ClientViewModel>,
    auth: Option<AuthModel>,
    call: ToolCall,
) -> Option<ToolModel> {
    if call.project is None || capability_for(call.kind) is None {
        None
    } else {
        match resolve(call.project->0@, in_order(all_candidates(clients))) {
            Err(e) => Some(tool_failed(resolver_output(e), resolver_message(e))),
            Ok(p) => if p.config.executor != Executor::Agent {
                None
            } else if p.config.client_id is None {
                Some(tool_err(no_agent_named()))
            } else {
                match agent_refusal(
                    m,
                    auth,
                    p.config.client_id->0,
                    capability_for(call.kind)->0,
                ) {
                    Some(e) => Some(tool_err(e)),
                    None => None,
                }
            },
        }
    }
}

fn is_supported(registry: &ShellClientRegistry, client_id: &str, required: AgentCapability) -> (r:
    bool)
    requires
        registry.wf(),
        registry@.clients.contains_key(client_id@),
    ensures
        r == can_do(registry@.clients[client_id@].capabilities, required),
{
    let (first, second) = match required {
        AgentCapability::OwnerOnly => {
            return true;
        },
        AgentCapability::Shell => ("shell", "shell"),
        AgentCapability::FileRead => ("file_read", "file_read"),
        AgentCapability::FileWrite => ("file_write", "file_write"),
        AgentCapability::GitOrShell => ("shell", "git"),
        AgentCapability::AsyncJobs => ("async_jobs", "async_shell_jobs"),
    };
    let a = match registry.client_supports(client_id, first) {
        Ok(b) => b,
        Err(_) => false,
    };
    let b = match registry.client_supports(client_id, second) {
        Ok(b) => b,
        Err(_) => false,
    };
    a || b
}

fn describe(required: AgentCapability) -> (r: &'static str)
    ensures
        r@ == capability_words(required),
{
    match required {
        AgentCapability::OwnerOnly => "owner boundary",
        AgentCapability::Shell => "shell",
        AgentCapability::FileRead => "file_read",
        AgentCapability::FileWrite => "file_write",
        AgentCapability::GitOrShell => "shell or git",
        AgentCapability::AsyncJobs => "async shell jobs",
    }
}

/// Checks that the caller may use the agent for what a tool needs.
pub fn authorize_client(
    registry: &ShellClientRegistry,
    auth: Option<&AuthContext>,
    client_id: &str,
    required: AgentCapability,
) -> (r: Result<(), ToolResult>)
    requires
        registry.wf(),
    ensures
        match r {
            Ok(_) => agent_refusal(registry@, caller(auth), client_id@, required) is None,
            Err(e) => agent_refusal(registry@, caller(auth), client_id@, required) is Some && e@
                == tool_err(agent_refusal(registry@, caller(auth), client_id@, required)->0),
        },
{
    if registry.get_client_view_for_auth(client_id, auth).is_none() {
        let message = concat2("unknown shell client: ", client_id);
        return Err(ToolResult::err(message.as_str()));
    }
    match registry.assert_client_access(auth, client_id) {
        Ok(_) => {},
        Err(e) => {
            return Err(ToolResult::err(e.as_str()));
        },
    }
    if !is_supported(registry, client_id, required) {
        let mut message = concat3("agent client ", client_id, " does not support ");
        message.append(describe(required));
        return Err(ToolResult::err(message.as_str()));
    }
    Ok(())
}

/// Checks that the caller may have an agent do what the call asks of it.
pub fn authorize_agent_tool(
    registry: &ShellClientRegistry,
    call: &ToolCall,
    auth: Option<&AuthContext>,
) -> (r: Result<(), ToolResult>)
    requires
        registry.wf(),
    ensures
        exists|clients: Seq<ClientViewModel>, now: i64| #[trigger]
            is_client_listing(registry@, caller(auth), now, clients) && (match r {
                Ok(_) => call_refusal(registry@, clients, caller(auth), *call) is None,
                Err(e) => call_refusal(registry@, clients, caller(auth), *call) == Some(e@),
            }),
{
    let all = registry.list_clients_for_auth(auth);
    let ghost listed = crate::text::views(all@);
    let ghost now = choose|now: i64| #[trigger]
        is_client_listing(registry@, caller(auth), now, listed);
    assert(is_client_listing(registry@, caller(auth), now, listed));
    let Some(project) = &call.project else {
        return Ok(());
    };
    let Some(required) = required_agent_capability(call) else {
        return Ok(());
    };
    let candidates = crate::tool_runtime::project_resolution::project_candidates(&all);
    match crate::tool_runtime::project_resolution::resolve_among(project.as_str(), candidates) {
        Err(e) => Err(e.into_tool_result()),
        Ok(resolved) => {
            if !resolved.config.is_agent() {
                return Ok(());
            }
            match &resolved.config.client_id {
                Some(client_id) => authorize_client(registry, auth, client_id.as_str(), required),
                None => Err(ToolResult::err("agent project has no client_id")),
            }
        },
    }
}

/// A call for an agent that gets through is for an agent that the caller sees and
/// may use, and that can do what the tool needs.
pub proof fn law_authorized_calls_are_within_bounds(
    m: RegistryModel,
    auth: Option<AuthModel>,
    client_id: Seq<char>,
    required: AgentCapability,
)
    requires
        agent_refusal(m, auth, client_id, required) is None,
    ensures
        m.clients.contains_key(client_id),
        access_error(auth, m.clients[client_id]) is None,
        can_do(m.clients[client_id].capabilities, required),
{
}

} // verus!
