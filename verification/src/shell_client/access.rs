//! Who may see and use which client.
use crate::shell_client::state::{ClientModel, ShellClientRecord};
use crate::text::{concat2, concat3, opt_str, opt_text, opt_view, str_eq, texts};
use vstd::prelude::*;
use vstd::string::*;

verus! {

/// How a caller proved who it is.
#[derive(Debug, Clone, Copy, PartialEq, Eq, Structural)]
pub enum AuthKind {
    Bootstrap,
    ApiToken,
    AgentToken,
    AccountCredential,
    OAuth2Token,
    SharedKey,
    OpenAnonymous,
}

/// What is known of a caller.
#[derive(Debug)]
pub struct AuthContext {
    pub kind: AuthKind,
    pub user_id: Option<String>,
    pub username: Option<String>,
    pub api_key_id: Option<String>,
    pub api_key_name: Option<String>,
    pub role: Option<String>,
    pub scopes: Vec<String>,
    pub is_bootstrap: bool,
    pub token_kind: Option<String>,
    pub allowed_client_id: Option<String>,
    pub shared_key_hash: Option<String>,
}

/// The mathematical value of an [`AuthContext`].
#[verifier::ext_equal]
pub struct AuthModel {
    pub kind: AuthKind,
    pub user_id: Option<Seq<char>>,
    pub username: Option<Seq<char>>,
    pub api_key_id: Option<Seq<char>>,
    pub api_key_name: Option<Seq<char>>,
    pub role: Option<Seq<char>>,
    pub scopes: Seq<Seq<char>>,
    pub is_bootstrap: bool,
    pub token_kind: Option<Seq<char>>,
    pub allowed_client_id: Option<Seq<char>>,
    pub shared_key_hash: Option<Seq<char>>,
}

impl View for AuthContext {
    type V = AuthModel;

    open spec fn view(&self) -> AuthModel {
        AuthModel {
            kind: self.kind,
            user_id: opt_text(self.user_id),
            username: opt_text(self.username),
            api_key_id: opt_text(self.api_key_id),
            api_key_name: opt_text(self.api_key_name),
            role: opt_text(self.role),
            scopes: texts(self.scopes@),
            is_bootstrap: self.is_bootstrap,
            token_kind: opt_text(self.token_kind),
            allowed_client_id: opt_text(self.allowed_client_id),
            shared_key_hash: opt_text(self.shared_key_hash),
        }
    }
}

/// The caller, where there is one.
pub open spec fn caller(auth: Option<&AuthContext>) -> Option<AuthModel> {
    match auth {
        Some(a) => Some(a@),
        None => None,
    }
}

impl AuthModel {
    /// Whether the caller has the scope.
    pub open spec fn has_scope(self, scope: Seq<char>) -> bool {
        self.scopes.contains(scope)
    }

    /// Whether the caller may see and use everything.
    pub open spec fn is_admin(self) -> bool {
        self.is_bootstrap || self.has_scope("admin"@)
    }

    /// Whether the caller holds an OAuth token that stands for a shared key.
    pub open spec fn is_oauth_shared_key_subject(self) -> bool {
        self.kind == AuthKind::OAuth2Token && self.token_kind == Some("oauth2_shared_key"@)
            && self.shared_key_hash is Some
    }
}

impl AuthContext {
    /// Whether the caller has the scope.
    pub fn has_scope(&self, scope: &str) -> (r: bool)
        ensures
            r == self@.has_scope(scope@),
    {
        let mut i: usize = 0;
        while i < self.scopes.len()
            invariant
                i <= self.scopes@.len(),
                forall|j: int| 0 <= j < i ==> self.scopes@[j]@ != scope@,
            decreases self.scopes@.len() - i,
        {
            if str_eq(self.scopes[i].as_str(), scope) {
                assert(texts(self.scopes@)[i as int] == scope@);
                return true;
            }
            i = i + 1;
        }
        assert forall|j: int| 0 <= j < texts(self.scopes@).len() implies texts(self.scopes@)[j]
            != scope@ by {
            assert(texts(self.scopes@)[j] == self.scopes@[j]@);
        }
        false
    }

    /// Whether the caller may see and use everything.
    pub fn is_admin(&self) -> (r: bool)
        ensures
            r == self@.is_admin(),
    {
        self.is_bootstrap || self.has_scope("admin")
    }

    /// Whether the caller holds an OAuth token.
    pub fn is_oauth_token(&self) -> (r: bool)
        ensures
            r == (self.kind == AuthKind::OAuth2Token),
    {
        self.kind == AuthKind::OAuth2Token
    }

    /// Whether the caller came in without an account: by a shared key or openly.
    pub fn is_lightweight(&self) -> (r: bool)
        ensures
            r == (self.kind == AuthKind::SharedKey || self.kind == AuthKind::OpenAnonymous),
    {
        self.kind == AuthKind::SharedKey || self.kind == AuthKind::OpenAnonymous
    }

    /// Whether the caller holds an OAuth token that stands for a shared key.
    pub fn is_oauth_shared_key_subject(&self) -> (r: bool)
        ensures
            r == self@.is_oauth_shared_key_subject(),
    {
        if self.kind != AuthKind::OAuth2Token || self.shared_key_hash.is_none() {
            return false;
        }
        match &self.token_kind {
            Some(k) => str_eq(k.as_str(), "oauth2_shared_key"),
            None => false,
        }
    }
}

/// A group of callers and clients that see only each other.
#[derive(Debug, PartialEq, Eq)]
pub enum ShellClientAuthGroup {
    SharedKey(String),
    OpenAnonymous,
}

/// The mathematical value of a [`ShellClientAuthGroup`].
#[verifier::ext_equal]
pub enum GroupModel {
    SharedKey(Seq<char>),
    OpenAnonymous,
}

impl View for ShellClientAuthGroup {
    type V = GroupModel;

    open spec fn view(&self) -> GroupModel {
        match self {
            ShellClientAuthGroup::SharedKey(hash) => GroupModel::SharedKey(hash@),
            ShellClientAuthGroup::OpenAnonymous => GroupModel::OpenAnonymous,
        }
    }
}

/// The group that a caller belongs to.
pub open spec fn group_of(auth: AuthModel) -> Option<GroupModel> {
    if auth.kind == AuthKind::OpenAnonymous {
        Some(GroupModel::OpenAnonymous)
    } else if auth.kind == AuthKind::SharedKey || auth.is_oauth_shared_key_subject() {
        match auth.shared_key_hash {
            Some(hash) => Some(GroupModel::SharedKey(hash)),
            None => None,
        }
    } else {
        None
    }
}

/// The group that an optional caller belongs to.
pub open spec fn caller_group(auth: Option<AuthModel>) -> Option<GroupModel> {
    match auth {
        Some(a) => group_of(a),
        None => None,
    }
}

impl ShellClientAuthGroup {
    /// The group that a caller belongs to.
    pub fn from_auth(auth: &AuthContext) -> (r: Option<ShellClientAuthGroup>)
        ensures
            opt_view(r) == group_of(auth@),
    {
        if auth.kind == AuthKind::OpenAnonymous {
            return Some(ShellClientAuthGroup::OpenAnonymous);
        }
        if auth.kind == AuthKind::SharedKey || auth.is_oauth_shared_key_subject() {
            match &auth.shared_key_hash {
                Some(hash) => Some(ShellClientAuthGroup::SharedKey(hash.clone())),
                None => None,
            }
        } else {
            None
        }
    }
}

fn same_group(a: &Option<ShellClientAuthGroup>, b: &Option<ShellClientAuthGroup>) -> (r: bool)
    ensures
        r == (opt_view(*a) == opt_view(*b)),
{
    match (a, b) {
        (None, None) => true,
        (Some(ShellClientAuthGroup::OpenAnonymous), Some(ShellClientAuthGroup::OpenAnonymous)) => {
            true
        },
        (
            Some(ShellClientAuthGroup::SharedKey(x)),
            Some(ShellClientAuthGroup::SharedKey(y)),
        ) => str_eq(x.as_str(), y.as_str()),
        _ => false,
    }
}

/// The name under which a caller's requests are recorded.
pub open spec fn requester(auth: Option<AuthModel>) -> Seq<char> {
    match auth {
        Some(a) => if a.is_bootstrap {
            "bootstrap"@
        } else {
            match a.username {
                Some(name) => name,
                None => "anonymous"@,
            }
        },
        None => "anonymous"@,
    }
}

/// The name under which a caller's requests are recorded.
pub fn requested_by_from_auth(auth: Option<&AuthContext>) -> (r: String)
    ensures
        r@ == requester(caller(auth)),
{
    match auth {
        Some(a) => if a.is_bootstrap {
            "bootstrap".to_owned()
        } else {
            match &a.username {
                Some(name) => name.clone(),
                None => "anonymous".to_owned(),
            }
        },
        None => "anonymous".to_owned(),
    }
}

/// The complaint that no client has this id.
pub open spec fn unknown_client(client_id: Seq<char>) -> Seq<char> {
    "unknown shell client: "@ + client_id
}

/// Why the caller is not the owner of the client.
pub open spec fn owner_error(
    auth: Option<AuthModel>,
    client_id: Seq<char>,
    owner: Option<Seq<char>>,
) -> Option<Seq<char>> {
    if auth is Some && auth->0.is_admin() {
        None
    } else {
        match owner {
            None => Some("agent client "@ + client_id + " has no owner"@),
            Some(o) => if auth is Some && auth->0.username == Some(o) {
                None
            } else {
                Some(
                    "agent client "@ + client_id + " is owned by "@ + o + ", but the token belongs to "@
                        + requester(auth),
                )
            },
        }
    }
}

/// Checks that the caller owns the client.
pub fn assert_shell_client_owner(
    auth: Option<&AuthContext>,
    client_id: &str,
    owner: Option<&str>,
) -> (r: Result<(), String>)
    ensures
        match r {
            Ok(_) => owner_error(caller(auth), client_id@, opt_str(owner)) is None,
            Err(e) => owner_error(caller(auth), client_id@, opt_str(owner)) == Some(e@),
        },
{
    if let Some(a) = auth {
        if a.is_admin() {
            return Ok(());
        }
    }
    let Some(o) = owner else {
        return Err(concat3("agent client ", client_id, " has no owner"));
    };
    if let Some(a) = auth {
        if let Some(name) = &a.username {
            if str_eq(name.as_str(), o) {
                return Ok(());
            }
        }
    }
    let mut message = concat3("agent client ", client_id, " is owned by ");
    message.append(o);
    message.append(", but the token belongs to ");
    let name = requested_by_from_auth(auth);
    message.append(name.as_str());
    Err(message)
}

/// Why the caller may not use the client. A client of another group is not
/// admitted to exist.
pub open spec fn access_error(auth: Option<AuthModel>, client: ClientModel) -> Option<Seq<char>> {
    if auth is Some && auth->0.is_admin() {
        None
    } else if caller_group(auth) != client.auth_group {
        Some(unknown_client(client.client_id))
    } else if client.auth_group is Some {
        None
    } else {
        owner_error(auth, client.client_id, client.owner)
    }
}

/// Checks that the caller may use the client.
pub fn assert_shell_client_access(auth: Option<&AuthContext>, client: &ShellClientRecord) -> (r:
    Result<(), String>)
    ensures
        match r {
            Ok(_) => access_error(caller(auth), client@) is None,
            Err(e) => access_error(caller(auth), client@) == Some(e@),
        },
{
    let mut group: Option<ShellClientAuthGroup> = None;
    if let Some(a) = auth {
        if a.is_admin() {
            return Ok(());
        }
        group = ShellClientAuthGroup::from_auth(a);
    }
    if !same_group(&group, &client.auth_group) {
        return Err(concat2("unknown shell client: ", client.client_id.as_str()));
    }
    if client.auth_group.is_some() {
        return Ok(());
    }
    let owner = match &client.owner {
        Some(o) => Some(o.as_str()),
        None => None,
    };
    assert_shell_client_owner(auth, client.client_id.as_str(), owner)
}

/// Whether the caller sees the client. Without a caller everything is seen.
pub open spec fn sees_client(auth: Option<AuthModel>, client: ClientModel) -> bool {
    auth is None || access_error(auth, client) is None
}

/// Whether the caller sees the client.
pub fn shell_client_visible_to_auth(auth: Option<&AuthContext>, client: &ShellClientRecord) -> (r:
    bool)
    ensures
        r == sees_client(caller(auth), client@),
{
    auth.is_none() || assert_shell_client_access(auth, client).is_ok()
}

} // verus!
