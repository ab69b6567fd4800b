//! Which requests are taken and from whom, and what registering leaves behind.
use crate::shell_client::access::{
    access_error, requester, sees_client, AuthKind, AuthModel, GroupModel,
};
use crate::shell_client::model::{register_fields_error, RegistryModel};
use crate::shell_client::protocol::{
    ShellClientCapabilities, ShellClientRegisterRequest, ShellFileOpRequest, ShellRunRequest,
};
use crate::shell_client::registry::supports;
use crate::shell_client::requests::{file_refusal, run_refusal};
use crate::shell_client::state::ClientModel;
use crate::shell_client::transport::{agent_scope_error, owner_for, register_error, transport_error};
use crate::shell_client::validation::{
    file_request_error, id_error, instance_error, run_request_error,
};
use crate::shell_client::invariants::{lemma_trim_id, lemma_trim_instance};
use crate::text::{byte_len, opt_text, opt_view, trim};
use vstd::prelude::*;

verus! {

// ---------------------------------------------------------------------------
// Ids
// ---------------------------------------------------------------------------

/// Whether a character is an ASCII letter or digit.
pub open spec fn is_word_char(c: char) -> bool {
    ('0' <= c && c <= '9') || ('a' <= c && c <= 'z') || ('A' <= c && c <= 'Z')
}

/// An id is one to eighty bytes of letters, digits, dashes, underscores and dots; the id of
/// an agent instance is one to 128 of these without dots. Nothing else is an id.
pub proof fn law_ids(value: Seq<char>, field: Seq<char>)
    ensures
        id_error(value, field) is None <==> {
            &&& value.len() > 0
            &&& byte_len(value) <= 80
            &&& forall|i: int|
                0 <= i < value.len() ==> is_word_char(#[trigger] value[i]) || value[i] == '-'
                    || value[i] == '_' || value[i] == '.'
        },
        instance_error(value) is None <==> {
            &&& value.len() > 0
            &&& byte_len(value) <= 128
            &&& forall|i: int|
                0 <= i < value.len() ==> is_word_char(#[trigger] value[i]) || value[i] == '-'
                    || value[i] == '_'
        },
{
}

// ---------------------------------------------------------------------------
// Commands
// ---------------------------------------------------------------------------

/// Whether a text has at most so many bytes and no NUL, where there is one.
pub open spec fn fits(v: Option<Seq<char>>, max: nat) -> bool {
    v is Some ==> byte_len(v->0) <= max && !v->0.contains('\0')
}

/// A request to run a command is taken exactly where it names a client by a valid id, its
/// command says something and fits, its input and its directory fit, and its times are
/// within their limits.
pub proof fn law_run_requests_taken(b: ShellRunRequest)
    ensures
        run_request_error(b) is None <==> {
            &&& id_error(b.client_id@, "client_id"@) is None
            &&& trim(b.command@).len() > 0
            &&& fits(Some(b.command@), 8000)
            &&& fits(opt_text(b.stdin), 15728640)
            &&& fits(opt_text(b.cwd), 1024)
            &&& 1 <= b.timeout_secs <= 86400
            &&& b.wait_timeout_secs <= 120
        },
{
}

// ---------------------------------------------------------------------------
// File operations
// ---------------------------------------------------------------------------

/// Whether the parts of a file request are in order that every operation has.
pub open spec fn is_addressed(b: ShellFileOpRequest) -> bool {
    &&& id_error(b.client_id@, "client_id"@) is None
    &&& trim(b.path@).len() > 0
    &&& fits(Some(b.path@), 2048)
    &&& fits(opt_text(b.cwd), 1024)
    &&& b.wait_timeout_secs <= 120
}

/// Whether a file request has none of the fields by which an edit finds its place.
pub open spec fn names_no_place(b: ShellFileOpRequest) -> bool {
    &&& b.old_text is None
    &&& b.pattern is None
    &&& b.expected_prefix is None
    &&& b.start_line is None
    &&& b.end_line is None
    &&& b.line is None
}

/// Whether a range of lines is one.
pub open spec fn is_range(start: Option<usize>, end: Option<usize>) -> bool {
    start is Some && end is Some && 1 <= start->0 <= end->0
}

/// Whether the content of a request fits.
pub open spec fn content_fits(b: ShellFileOpRequest) -> bool {
    b.content is Some ==> byte_len(b.content->0@) <= 524288
}

/// Whether the expected checksum is one, where there is one.
pub open spec fn checksum_is_one(b: ShellFileOpRequest) -> bool {
    b.expected_sha256 is Some ==> byte_len(b.expected_sha256->0@) == 64 && forall|i: int|
        0 <= i < b.expected_sha256->0@.len() ==> {
            let c = #[trigger] b.expected_sha256->0@[i];
            ('0' <= c && c <= '9') || ('a' <= c && c <= 'f') || ('A' <= c && c <= 'F')
        }
}

/// Whether the expected beginning holds no NUL.
pub open spec fn prefix_is_text(b: ShellFileOpRequest) -> bool {
    b.expected_prefix is Some ==> !b.expected_prefix->0@.contains('\0')
}

/// A read is taken exactly where it says where to read and nothing else; it may ask for a
/// range of lines.
pub proof fn law_reads_taken(b: ShellFileOpRequest)
    requires
        b.op@ == "read"@,
    ensures
        file_request_error(b) is None <==> {
            &&& is_addressed(b)
            &&& b.content is None && b.old_text is None && b.pattern is None
            &&& b.expected_sha256 is None && b.expected_prefix is None && b.line is None
            &&& !b.create_dirs
            &&& (b.start_line is None && b.end_line is None) || is_range(b.start_line, b.end_line)
        },
{
    reveal_strlit("read");
    reveal_strlit("write");
    reveal_strlit("list");
    reveal_strlit("replace_line_range");
    reveal_strlit("insert_at_line");
    reveal_strlit("delete_line_range");
    reveal_strlit("replace_exact_block");
    reveal_strlit("insert_before_pattern");
    reveal_strlit("insert_after_pattern");
    reveal_strlit("apply_text_edits");
    assert("read"@.len() == 4 && "read"@[0] == 'r');
    assert("write"@.len() == 5);
    assert("list"@.len() == 4 && "list"@[0] == 'l');
    assert("replace_line_range"@.len() == 18);
    assert("insert_at_line"@.len() == 14);
    assert("delete_line_range"@.len() == 17);
    assert("replace_exact_block"@.len() == 19);
    assert("insert_before_pattern"@.len() == 21);
    assert("insert_after_pattern"@.len() == 20);
    assert("apply_text_edits"@.len() == 16);
}

/// A write is taken exactly where it has content that fits and names no place in the file;
/// it may expect a checksum and ask for directories.
pub proof fn law_writes_taken(b: ShellFileOpRequest)
    requires
        b.op@ == "write"@,
    ensures
        file_request_error(b) is None <==> {
            &&& is_addressed(b)
            &&& b.content is Some && content_fits(b)
            &&& checksum_is_one(b)
            &&& names_no_place(b)
        },
{
    reveal_strlit("read");
    reveal_strlit("write");
    reveal_strlit("list");
    reveal_strlit("replace_line_range");
    reveal_strlit("insert_at_line");
    reveal_strlit("delete_line_range");
    reveal_strlit("replace_exact_block");
    reveal_strlit("insert_before_pattern");
    reveal_strlit("insert_after_pattern");
    reveal_strlit("apply_text_edits");
    assert("read"@.len() == 4 && "read"@[0] == 'r');
    assert("write"@.len() == 5);
    assert("list"@.len() == 4 && "list"@[0] == 'l');
    assert("replace_line_range"@.len() == 18);
    assert("insert_at_line"@.len() == 14);
    assert("delete_line_range"@.len() == 17);
    assert("replace_exact_block"@.len() == 19);
    assert("insert_before_pattern"@.len() == 21);
    assert("insert_after_pattern"@.len() == 20);
    assert("apply_text_edits"@.len() == 16);
}

/// A listing is taken exactly where it says what to list and nothing else, and a batch of
/// text edits where it says nothing but its content.
pub proof fn law_lists_and_batches_taken(b: ShellFileOpRequest)
    requires
        b.op@ == "list"@ || b.op@ == "apply_text_edits"@,
    ensures
        file_request_error(b) is None <==> {
            &&& is_addressed(b)
            &&& names_no_place(b)
            &&& b.expected_sha256 is None
            &&& !b.create_dirs
            &&& content_fits(b)
            &&& b.op@ == "list"@ ==> b.content is None
        },
{
    reveal_strlit("read");
    reveal_strlit("write");
    reveal_strlit("list");
    reveal_strlit("replace_line_range");
    reveal_strlit("insert_at_line");
    reveal_strlit("delete_line_range");
    reveal_strlit("replace_exact_block");
    reveal_strlit("insert_before_pattern");
    reveal_strlit("insert_after_pattern");
    reveal_strlit("apply_text_edits");
    assert("read"@.len() == 4 && "read"@[0] == 'r');
    assert("write"@.len() == 5);
    assert("list"@.len() == 4 && "list"@[0] == 'l');
    assert("replace_line_range"@.len() == 18);
    assert("insert_at_line"@.len() == 14);
    assert("delete_line_range"@.len() == 17);
    assert("replace_exact_block"@.len() == 19);
    assert("insert_before_pattern"@.len() == 21);
    assert("insert_after_pattern"@.len() == 20);
    assert("apply_text_edits"@.len() == 16);
}

/// An edit of lines is taken exactly where it names its lines: a range to replace, with
/// the new content; a range to delete, with none; or a line to insert at, with content. It
/// may expect a checksum and a beginning.
pub proof fn law_line_edits_taken(b: ShellFileOpRequest)
    requires
        b.op@ == "replace_line_range"@ || b.op@ == "delete_line_range"@ || b.op@
            == "insert_at_line"@,
    ensures
        file_request_error(b) is None <==> {
            &&& is_addressed(b)
            &&& b.old_text is None && b.pattern is None
            &&& !b.create_dirs
            &&& checksum_is_one(b)
            &&& prefix_is_text(b)
            &&& content_fits(b)
            &&& b.op@ == "insert_at_line"@ ==> {
                &&& b.line is Some && b.line->0 >= 1
                &&& b.start_line is None && b.end_line is None
                &&& b.content is Some
            }
            &&& b.op@ == "replace_line_range"@ ==> {
                &&& is_range(b.start_line, b.end_line)
                &&& b.line is None
                &&& b.content is Some
            }
            &&& b.op@ == "delete_line_range"@ ==> {
                &&& is_range(b.start_line, b.end_line)
                &&& b.line is None
                &&& b.content is None
            }
        },
{
    reveal_strlit("read");
    reveal_strlit("write");
    reveal_strlit("list");
    reveal_strlit("replace_line_range");
    reveal_strlit("insert_at_line");
    reveal_strlit("delete_line_range");
    reveal_strlit("replace_exact_block");
    reveal_strlit("insert_before_pattern");
    reveal_strlit("insert_after_pattern");
    reveal_strlit("apply_text_edits");
    assert("read"@.len() == 4 && "read"@[0] == 'r');
    assert("write"@.len() == 5);
    assert("list"@.len() == 4 && "list"@[0] == 'l');
    assert("replace_line_range"@.len() == 18);
    assert("insert_at_line"@.len() == 14);
    assert("delete_line_range"@.len() == 17);
    assert("replace_exact_block"@.len() == 19);
    assert("insert_before_pattern"@.len() == 21);
    assert("insert_after_pattern"@.len() == 20);
    assert("apply_text_edits"@.len() == 16);
}

/// An edit that finds its place by text is taken exactly where it says that text, which is
/// not empty, and the content; a replacement may expect a checksum, an insertion may not.
pub proof fn law_anchor_edits_taken(b: ShellFileOpRequest)
    requires
        b.op@ == "replace_exact_block"@ || b.op@ == "insert_before_pattern"@ || b.op@
            == "insert_after_pattern"@,
    ensures
        file_request_error(b) is None <==> {
            &&& is_addressed(b)
            &&& !b.create_dirs
            &&& b.expected_prefix is None && b.start_line is None && b.end_line is None
            &&& b.line is None
            &&& b.content is Some && content_fits(b)
            &&& if b.op@ == "replace_exact_block"@ {
                &&& b.old_text is Some && b.old_text->0@.len() > 0
                &&& !b.old_text->0@.contains('\0')
                &&& b.pattern is None
                &&& checksum_is_one(b)
            } else {
                &&& b.pattern is Some && b.pattern->0@.len() > 0
                &&& !b.pattern->0@.contains('\0')
                &&& b.content->0@.len() > 0
                &&& b.old_text is None && b.expected_sha256 is None
            }
        },
{
    reveal_strlit("read");
    reveal_strlit("write");
    reveal_strlit("list");
    reveal_strlit("replace_line_range");
    reveal_strlit("insert_at_line");
    reveal_strlit("delete_line_range");
    reveal_strlit("replace_exact_block");
    reveal_strlit("insert_before_pattern");
    reveal_strlit("insert_after_pattern");
    reveal_strlit("apply_text_edits");
    assert("read"@.len() == 4 && "read"@[0] == 'r');
    assert("write"@.len() == 5);
    assert("list"@.len() == 4 && "list"@[0] == 'l');
    assert("replace_line_range"@.len() == 18);
    assert("insert_at_line"@.len() == 14);
    assert("delete_line_range"@.len() == 17);
    assert("replace_exact_block"@.len() == 19);
    assert("insert_before_pattern"@.len() == 21);
    assert("insert_after_pattern"@.len() == 20);
    assert("apply_text_edits"@.len() == 16);
}

/// Any other operation is refused.
pub proof fn law_other_file_ops_are_refused(b: ShellFileOpRequest)
    requires
        b.op@ != "read"@,
        b.op@ != "write"@,
        b.op@ != "list"@,
        b.op@ != "apply_text_edits"@,
        b.op@ != "replace_line_range"@,
        b.op@ != "delete_line_range"@,
        b.op@ != "insert_at_line"@,
        b.op@ != "replace_exact_block"@,
        b.op@ != "insert_before_pattern"@,
        b.op@ != "insert_after_pattern"@,
    ensures
        file_request_error(b) is Some,
{
}

// ---------------------------------------------------------------------------
// Callers
// ---------------------------------------------------------------------------

/// Whether the caller may do everything.
pub open spec fn rules_all(auth: Option<AuthModel>) -> bool {
    auth is Some && (auth->0.is_bootstrap || auth->0.scopes.contains("admin"@))
}

/// Whether the caller is in the group of a client: it came in openly as the client did, or
/// with the same shared key, by itself or by an OAuth token that stands for it.
pub open spec fn shares_group(auth: Option<AuthModel>, client: ClientModel) -> bool {
    &&& auth is Some
    &&& match client.auth_group {
        Some(GroupModel::OpenAnonymous) => auth->0.kind == AuthKind::OpenAnonymous,
        Some(GroupModel::SharedKey(hash)) => {
            &&& auth->0.shared_key_hash == Some(hash)
            &&& auth->0.kind == AuthKind::SharedKey || (auth->0.kind == AuthKind::OAuth2Token
                && auth->0.token_kind == Some("oauth2_shared_key"@))
        },
        None => false,
    }
}

/// Whether the caller is in no group: it has an account, or none and no key.
pub open spec fn is_in_no_group(auth: Option<AuthModel>) -> bool {
    auth is None || {
        &&& auth->0.kind != AuthKind::OpenAnonymous
        &&& !(auth->0.shared_key_hash is Some && (auth->0.kind == AuthKind::SharedKey || (
        auth->0.kind == AuthKind::OAuth2Token && auth->0.token_kind == Some(
            "oauth2_shared_key"@,
        ))))
    }
}

/// A client can be used by an administrator, by the callers of its group, and, where it is
/// in none, by its owner; by nobody else. Whoever may use it sees it, and of the callers
/// that are known nobody else does.
pub proof fn law_who_may_use_a_client(auth: Option<AuthModel>, client: ClientModel)
    ensures
        access_error(auth, client) is None <==> {
            ||| rules_all(auth)
            ||| shares_group(auth, client)
            ||| client.auth_group is None && is_in_no_group(auth) && client.owner is Some
                && auth is Some && auth->0.username == client.owner
        },
        auth is Some ==> (sees_client(auth, client) <==> access_error(auth, client) is None),
        auth is None ==> sees_client(auth, client),
{
}

/// A command or a file operation of a caller who may not use its client is not queued.
pub proof fn law_only_users_queue(
    m: RegistryModel,
    auth: Option<AuthModel>,
    run: ShellRunRequest,
    file: ShellFileOpRequest,
)
    ensures
        !m.clients.contains_key(run.client_id@) || access_error(auth, m.clients[run.client_id@])
            is Some ==> run_refusal(m, auth, run) is Some,
        !m.clients.contains_key(file.client_id@) || access_error(auth, m.clients[file.client_id@])
            is Some ==> file_refusal(m, auth, file) is Some,
        run_refusal(m, auth, run) is None <==> {
            &&& m.clients.contains_key(run.client_id@)
            &&& access_error(auth, m.clients[run.client_id@]) is None
            &&& run_request_error(run) is None
            &&& m.queue_of(run.client_id@).len() < 256
        },
        file_refusal(m, auth, file) is None <==> {
            &&& m.clients.contains_key(file.client_id@)
            &&& access_error(auth, m.clients[file.client_id@]) is None
            &&& file_request_error(file) is None
            &&& m.queue_of(file.client_id@).len() < 256
        },
{
}

/// A request is recorded under the name of its caller: the user that it is, the bootstrap
/// token, or nobody that is known.
pub proof fn law_requests_name_their_caller(auth: Option<AuthModel>)
    ensures
        auth is Some && auth->0.is_bootstrap ==> requester(auth) == "bootstrap"@,
        auth is Some && !auth->0.is_bootstrap && auth->0.username is Some ==> requester(auth)
            == auth->0.username->0,
        auth is None || (!auth->0.is_bootstrap && auth->0.username is None) ==> requester(auth)
            == "anonymous"@,
{
}

/// Who may act as the agent of a client, and register it: whoever comes in without an
/// account, the bootstrap token, and the agent token that is bound to the client, which
/// registers it for its own user only.
pub proof fn law_who_may_act_as_agent(
    auth: AuthModel,
    client_id: Seq<char>,
    owner: Option<Seq<char>>,
    scope: Seq<char>,
)
    ensures
        ({
            let free = auth.is_bootstrap || auth.kind == AuthKind::SharedKey || auth.kind
                == AuthKind::OpenAnonymous;
            let bound = auth.kind == AuthKind::AgentToken && auth.allowed_client_id == Some(
                client_id,
            );
            &&& transport_error(Some(auth), client_id) is None <==> free || bound
            &&& register_error(Some(auth), client_id, owner) is None <==> free || (bound && (
            owner is None || auth.username == owner))
            &&& agent_scope_error(Some(auth), scope) is None <==> auth.is_bootstrap || ((free
                || auth.kind == AuthKind::AgentToken) && auth.scopes.contains(scope))
            &&& owner_for(Some(auth), owner) == if auth.kind == AuthKind::AgentToken
                && !auth.is_bootstrap {
                auth.username
            } else {
                owner
            }
        }),
        transport_error(None, client_id) is None,
        agent_scope_error(None, scope) is None,
        owner_for(None, owner) == owner,
{
}

// ---------------------------------------------------------------------------
// Registering
// ---------------------------------------------------------------------------

/// An optional text without the white space around it, or none where nothing is left.
pub open spec fn is_trimmed_form(given: Option<Seq<char>>, kept: Option<Seq<char>>) -> bool {
    if given is Some && trim(given->0).len() > 0 {
        kept == Some(trim(given->0))
    } else {
        kept is None
    }
}

/// A client that registers is known under its id from then on, with all that it said of
/// itself; it is online, it owns its queue, and other clients stay as they are.
pub proof fn law_registration_is_kept(
    m: RegistryModel,
    b: ShellClientRegisterRequest,
    auth: Option<AuthModel>,
    now: i64,
    other: Seq<char>,
)
    requires
        m.consistent(),
        m.register(b, auth, now).1 is Ok,
        other != b.client_id@,
    ensures
        ({
            let (next, told) = m.register(b, auth, now);
            let c = next.clients[b.client_id@];
            let v = told->Ok_0;
            &&& next.clients.contains_key(b.client_id@)
            &&& c.client_id == b.client_id@
            &&& c.agent_instance_id == b.agent_instance_id@
            &&& is_trimmed_form(opt_text(b.display_name), c.display_name)
            &&& is_trimmed_form(opt_text(b.owner), c.owner)
            &&& is_trimmed_form(opt_text(b.hostname), c.hostname)
            &&& b.capabilities is Some ==> c.capabilities == b.capabilities->0
            &&& b.capabilities is None ==> c.capabilities == (ShellClientCapabilities {
                shell: true,
                file_read: false,
                file_write: false,
                git: false,
                jobs: false,
                async_jobs: false,
                async_shell_jobs: false,
            })
            &&& c.last_seen == now
            &&& c.transport == "polling"@
            &&& c.policy == opt_view(b.policy)
            &&& is_trimmed_form(
                opt_text(b.agent_protocol_version),
                Some(c.agent_protocol_version),
            ) || (is_trimmed_form(opt_text(b.agent_protocol_version), None)
                && c.agent_protocol_version == "unknown"@)
            &&& v.client_id == c.client_id
            &&& v.agent_instance_id == c.agent_instance_id
            &&& v.display_name == c.display_name
            &&& v.owner == c.owner
            &&& v.hostname == c.hostname
            &&& v.status == "online"@ && v.connected
            &&& v.last_seen == now
            &&& v.capabilities == c.capabilities
            &&& v.pending_requests == m.queue_of(b.client_id@).len()
            &&& v.projects == c.projects
            &&& v.agent_protocol_version == c.agent_protocol_version
            &&& v.transport == c.transport
            &&& v.policy == c.policy
            &&& next.clients.contains_key(other) == m.clients.contains_key(other)
            &&& m.clients.contains_key(other) ==> next.clients[other] == m.clients[other]
            &&& next.queues == m.queues && next.pending == m.pending && next.jobs == m.jobs
        }),
{
    assert(register_fields_error(b) is None);
    lemma_trim_id(b.client_id@, "client_id"@);
    lemma_trim_instance(b.agent_instance_id@);
    assert(m.queue_of(b.client_id@).len() <= 256) by {
        if m.queues.contains_key(b.client_id@) {
        }
    }
}

/// A client is online exactly while it was seen within the last minute.
pub proof fn law_online_window(m: RegistryModel, client_id: Seq<char>, now: i64)
    requires
        m.clients.contains_key(client_id),
    ensures
        m.connected(client_id, now) <==> now - m.clients[client_id].last_seen <= 60,
        m.client_view(client_id, now).connected == m.connected(client_id, now),
        m.client_view(client_id, now).status == if m.connected(client_id, now) {
            "online"@
        } else {
            "stale"@
        },
{
}

/// A client can do exactly what it said that it can.
pub proof fn law_capabilities_are_as_said(caps: ShellClientCapabilities)
    ensures
        supports(caps, "shell"@) == caps.shell,
        supports(caps, "file_read"@) == caps.file_read,
        supports(caps, "file_write"@) == caps.file_write,
        supports(caps, "git"@) == caps.git,
        supports(caps, "jobs"@) == caps.jobs,
        supports(caps, "async_jobs"@) == caps.async_jobs,
        supports(caps, "async_shell_jobs"@) == caps.async_shell_jobs,
{
    reveal_strlit("shell");
    reveal_strlit("file_read");
    reveal_strlit("file_write");
    reveal_strlit("git");
    reveal_strlit("jobs");
    reveal_strlit("async_jobs");
    reveal_strlit("async_shell_jobs");
    assert("shell"@.len() == 5);
    assert("file_read"@.len() == 9);
    assert("file_write"@.len() == 10 && "file_write"@[0] == 'f');
    assert("git"@.len() == 3);
    assert("jobs"@.len() == 4);
    assert("async_jobs"@.len() == 10 && "async_jobs"@[0] == 'a');
    assert("async_shell_jobs"@.len() == 16);
}

} // verus!
