//! Who may act as an agent.
use crate::shell_client::access::{caller, AuthContext, AuthKind, AuthModel};
use crate::text::{concat2, concat3, opt_str, opt_text, str_eq};
use vstd::prelude::*;
use vstd::string::*;

verus! {

impl AuthModel {
    /// Whether the caller came in without an account: by a shared key or openly.
    pub open spec fn is_lightweight(self) -> bool {
        self.kind == AuthKind::SharedKey || self.kind == AuthKind::OpenAnonymous
    }

    /// Whether the caller may act as an agent at all.
    pub open spec fn is_agent(self) -> bool {
        self.is_bootstrap || self.is_lightweight() || self.kind == AuthKind::AgentToken
    }
}

/// The complaint that a token of a user is no token of an agent.
pub open spec fn user_token_refused() -> Seq<char> {
    "user tokens are not allowed on agent transport endpoints"@
}

/// Why the caller may not act as the agent of a client. An agent token is bound to one
/// client.
pub open spec fn transport_error(auth: Option<AuthModel>, client_id: Seq<char>) -> Option<
    Seq<char>,
> {
    match auth {
        None => None,
        Some(a) => if !a.is_agent() {
            Some(user_token_refused())
        } else if a.is_bootstrap || a.is_lightweight() || a.allowed_client_id == Some(client_id) {
            None
        } else {
            Some("agent token is not bound to client_id "@ + client_id)
        },
    }
}

/// Checks that the caller may act as the agent of a client. Without a caller there is
/// nothing to check.
pub fn enforce_agent_transport(auth: Option<&AuthContext>, client_id: &str) -> (r: Result<
    (),
    String,
>)
    ensures
        match r {
            Ok(_) => transport_error(caller(auth), client_id@) is None,
            Err(e) => transport_error(caller(auth), client_id@) == Some(e@),
        },
{
    let Some(a) = auth else {
        return Ok(());
    };
    if a.is_bootstrap || a.is_lightweight() {
        return Ok(());
    }
    if a.kind != AuthKind::AgentToken {
        return Err("user tokens are not allowed on agent transport endpoints".to_owned());
    }
    if let Some(id) = &a.allowed_client_id {
        if str_eq(id.as_str(), client_id) {
            return Ok(());
        }
    }
    Err(concat2("agent token is not bound to client_id ", client_id))
}

/// Why the caller may not register a client for an owner. An agent token registers for
/// its own user only.
pub open spec fn register_error(
    auth: Option<AuthModel>,
    client_id: Seq<char>,
    owner: Option<Seq<char>>,
) -> Option<Seq<char>> {
    match transport_error(auth, client_id) {
        Some(e) => Some(e),
        None => match (auth, owner) {
            (Some(a), Some(o)) => if a.is_bootstrap || a.is_lightweight() || a.username == Some(
                o,
            ) {
                None
            } else {
                Some(
                    "agent token owner is '"@ + (match a.username {
                        Some(name) => name,
                        None => ""@,
                    }) + "', but the request names '"@ + o + "'"@,
                )
            },
            _ => None,
        },
    }
}

/// Checks that the caller may register a client for an owner.
pub fn enforce_register_owner(
    auth: Option<&AuthContext>,
    client_id: &str,
    owner: Option<&str>,
) -> (r: Result<(), String>)
    ensures
        match r {
            Ok(_) => register_error(caller(auth), client_id@, opt_str(owner)) is None,
            Err(e) => register_error(caller(auth), client_id@, opt_str(owner)) == Some(e@),
        },
{
    if let Err(e) = enforce_agent_transport(auth, client_id) {
        return Err(e);
    }
    let Some(a) = auth else {
        return Ok(());
    };
    let Some(o) = owner else {
        return Ok(());
    };
    if a.is_bootstrap || a.is_lightweight() {
        return Ok(());
    }
    let name = match &a.username {
        Some(name) => {
            if str_eq(name.as_str(), o) {
                return Ok(());
            }
            name.as_str()
        },
        None => "",
    };
    let mut message = concat3("agent token owner is '", name, "', but the request names '");
    message.append(o);
    message.append("'");
    Err(message)
}

/// The owner that a client gets: the user of an agent token, else the owner asked for.
pub open spec fn owner_for(auth: Option<AuthModel>, owner: Option<Seq<char>>) -> Option<Seq<char>> {
    if auth is Some && !auth->0.is_bootstrap && auth->0.kind == AuthKind::AgentToken {
        auth->0.username
    } else {
        owner
    }
}

/// The owner that a client gets when it registers.
pub fn effective_register_owner(auth: Option<&AuthContext>, owner: Option<&str>) -> (r: Option<
    String,
>)
    ensures
        opt_text(r) == owner_for(caller(auth), opt_str(owner)),
{
    if let Some(a) = auth {
        if !a.is_bootstrap && a.kind == AuthKind::AgentToken {
            return match &a.username {
                Some(name) => Some(name.clone()),
                None => None,
            };
        }
    }
    match owner {
        Some(o) => Some(o.to_owned()),
        None => None,
    }
}

/// Why the caller may not use an endpoint for agents that asks for a scope.
pub open spec fn agent_scope_error(auth: Option<AuthModel>, scope: Seq<char>) -> Option<Seq<char>> {
    match auth {
        None => None,
        Some(a) => if a.is_bootstrap || (a.is_agent() && a.has_scope(scope)) {
            None
        } else {
            Some("missing required scope: "@ + scope)
        },
    }
}

/// Checks that the caller may use an endpoint for agents that asks for a scope. Only
/// those who may act as an agent can have such a scope.
pub fn require_agent_transport_scope(auth: Option<&AuthContext>, scope: &str) -> (r: Result<
    (),
    String,
>)
    ensures
        match r {
            Ok(_) => agent_scope_error(caller(auth), scope@) is None,
            Err(e) => agent_scope_error(caller(auth), scope@) == Some(e@),
        },
{
    let Some(a) = auth else {
        return Ok(());
    };
    if a.is_bootstrap {
        return Ok(());
    }
    let agent = a.is_lightweight() || a.kind == AuthKind::AgentToken;
    if agent && a.has_scope(scope) {
        return Ok(());
    }
    Err(concat2("missing required scope: ", scope))
}

// ---------------------------------------------------------------------------
// Laws
// ---------------------------------------------------------------------------

/// Whoever may register a client may act as its agent, and the owner that the client gets
/// is the one that was asked for, where one was.
pub proof fn law_registering_is_acting(
    auth: Option<AuthModel>,
    client_id: Seq<char>,
    owner: Option<Seq<char>>,
)
    requires
        register_error(auth, client_id, owner) is None,
    ensures
        transport_error(auth, client_id) is None,
        owner is Some ==> owner_for(auth, owner) == owner,
{
}

/// A token of a user, an OAuth token among them, neither registers clients, nor acts as an
/// agent, nor has a scope for agents.
pub proof fn law_user_tokens_are_no_agents(
    auth: AuthModel,
    client_id: Seq<char>,
    owner: Option<Seq<char>>,
    scope: Seq<char>,
)
    requires
        !auth.is_bootstrap,
        auth.kind == AuthKind::ApiToken || auth.kind == AuthKind::OAuth2Token || auth.kind
            == AuthKind::AccountCredential,
    ensures
        register_error(Some(auth), client_id, owner) == Some(user_token_refused()),
        transport_error(Some(auth), client_id) == Some(user_token_refused()),
        agent_scope_error(Some(auth), scope) == Some("missing required scope: "@ + scope),
{
}

/// An agent token acts for one client only.
pub proof fn law_agent_tokens_are_bound(auth: AuthModel, client_id: Seq<char>)
    requires
        !auth.is_bootstrap,
        auth.kind == AuthKind::AgentToken,
    ensures
        transport_error(Some(auth), client_id) is None <==> auth.allowed_client_id == Some(
            client_id,
        ),
{
}

} // verus!
