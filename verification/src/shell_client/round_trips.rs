//! What is carried between callers and agents, and back, and how it arrives.
use crate::shell_client::jobs::{
    bounded_option, bounded_output, fitting_tail, lemma_byte_len_add, preview,
};
use crate::shell_client::model::{
    file_request, project_op_error, project_request, run_request, RegistryModel,
};
use crate::shell_client::protocol::{
    RequestModel, ResponseModel, ShellAgentPollRequest, ShellAgentResultRequest, ShellFileOpRequest,
    ShellRunRequest,
};
use crate::shell_client::requests::file_response;
use crate::shell_client::state::PendingModel;
use crate::shell_client::validation::{
    file_request_error, id_error, instance_error, run_request_error, sha256_hex_of,
};
use crate::lines::lines_of;
use crate::numbers::decimal;
use crate::text::{byte_len, opt_text, trim};
use vstd::prelude::*;

verus! {

// ---------------------------------------------------------------------------
// Output
// ---------------------------------------------------------------------------

/// Whether `told` is what is kept of the output `given`: all of it where it is at most
/// 262144 bytes long, else a notice and the longest end of it that is.
pub open spec fn keeps_output(given: Option<Seq<char>>, told: Option<Seq<char>>) -> bool {
    match given {
        None => told is None,
        Some(s) => if byte_len(s) <= 262144 {
            told == Some(s)
        } else {
            exists|k: int|
                {
                    &&& 0 < k <= s.len()
                    &&& told == Some(
                        "[output truncated to last 262144 bytes]\n"@ + #[trigger] s.skip(k),
                    )
                    &&& byte_len(s.skip(k)) <= 262144
                    &&& byte_len(s.skip(k - 1)) > 262144
                }
        },
    }
}

proof fn lemma_tail_is_longest(s: Seq<char>, max: nat) -> (k: int)
    requires
        byte_len(s) > max,
    ensures
        0 < k <= s.len(),
        fitting_tail(s, max) == s.skip(k),
        byte_len(s.skip(k)) <= max,
        byte_len(s.skip(k - 1)) > max,
    decreases s.len(),
{
    assert(s.skip(0) =~= s);
    if s.len() == 0 {
        assert(byte_len(s) == 0) by {
            assert(s =~= seq![]);
            lemma_byte_len_add(s, s);
            assert(s + s =~= s);
        }
        0
    } else {
        let t = s.skip(1);
        if byte_len(t) <= max {
            assert(fitting_tail(t, max) == t);
            1
        } else {
            let j = lemma_tail_is_longest(t, max);
            assert(t.skip(j) =~= s.skip(j + 1));
            assert(t.skip(j - 1) =~= s.skip(j));
            j + 1
        }
    }
}

/// Of every output all is kept that fits, and where something is cut off, that is said
/// and it is the front.
pub proof fn law_output_is_kept(given: Option<Seq<char>>)
    ensures
        keeps_output(given, bounded_option(given)),
{
    if given is Some && byte_len(given->0) > 262144 {
        let k = lemma_tail_is_longest(given->0, 262144);
        assert(bounded_output(given->0) == "[output truncated to last 262144 bytes]\n"@
            + given->0.skip(k));
    }
}

/// Whether `shown` is what is shown of a command: its first line without the white space
/// around it, cut to 120 characters.
pub open spec fn shows_command(command: Seq<char>, shown: Seq<char>) -> bool {
    let lines = lines_of(command);
    if lines.len() == 0 {
        shown.len() == 0
    } else if trim(lines[0]).len() <= 120 {
        shown == trim(lines[0])
    } else {
        shown.len() > 120 && shown.take(120) == trim(lines[0]).take(120) && shown.skip(120)
            == "…"@
    }
}

/// Of a command the front of its first line is shown.
pub proof fn law_commands_are_shown(command: Seq<char>)
    ensures
        shows_command(command, preview(command)),
{
    let lines = lines_of(command);
    if lines.len() > 0 && trim(lines[0]).len() > 120 {
        reveal_strlit("…");
        let line = trim(lines[0]);
        assert(preview(command).take(120) =~= line.take(120));
        assert(preview(command).skip(120) =~= "…"@);
    }
}

// ---------------------------------------------------------------------------
// The way to the agent
// ---------------------------------------------------------------------------

/// Whether the poll is one of the agent that holds the lease on the client.
pub open spec fn polls_for(m: RegistryModel, client_id: Seq<char>, poll: ShellAgentPollRequest) -> bool {
    &&& m.clients.contains_key(client_id)
    &&& id_error(client_id, "client_id"@) is None
    &&& poll.client_id@ == client_id
    &&& poll.agent_instance_id@ == m.clients[client_id].agent_instance_id
    &&& instance_error(poll.agent_instance_id@) is None
}

/// Whether the result is one that the agent that holds the lease on the client hands in.
pub open spec fn answers_for(
    m: RegistryModel,
    client_id: Seq<char>,
    request_id: Seq<char>,
    result: ShellAgentResultRequest,
) -> bool {
    &&& m.clients.contains_key(client_id)
    &&& id_error(client_id, "client_id"@) is None
    &&& id_error(request_id, "request_id"@) is None
    &&& result.client_id@ == client_id
    &&& result.request_id@ == request_id
    &&& result.agent_instance_id@ == m.clients[client_id].agent_instance_id
    &&& instance_error(result.agent_instance_id@) is None
}

/// A request that is alone in the queue of its client is what the agent polls, and it
/// stays pending until it is answered.
pub proof fn lemma_alone_is_polled(
    m: RegistryModel,
    p: PendingModel,
    poll: ShellAgentPollRequest,
    at: i64,
)
    requires
        polls_for(m, p.request.client_id, poll),
        m.queue_of(p.request.client_id).len() == 0,
        p.request.kind != "stop_job"@,
    ensures
        ({
            let queued = m.with_request(p);
            let (polled, got) = queued.poll(poll, at);
            &&& got == Ok::<Option<RequestModel>, Seq<char>>(Some(p.request))
            &&& polled.pending.contains_key(p.request.request_id)
            &&& polled.pending[p.request.request_id] == p
            &&& polled.clients.contains_key(p.request.client_id)
            &&& polled.clients[p.request.client_id].agent_instance_id
                == m.clients[p.request.client_id].agent_instance_id
            &&& polled.queue_of(p.request.client_id).len() == 0
        }),
{
    let queued = m.with_request(p);
    assert(queued.queues[p.request.client_id] =~= seq![p.request.request_id]);
}

pub proof fn lemma_kinds_differ(op: Seq<char>)
    ensures
        "run_shell"@ != "stop_job"@,
        "start_job"@ != "stop_job"@,
        "register_project"@ != "stop_job"@,
        "create_project"@ != "stop_job"@,
        "file_"@ + op != "stop_job"@,
{
    reveal_strlit("run_shell");
    reveal_strlit("start_job");
    reveal_strlit("stop_job");
    reveal_strlit("register_project");
    reveal_strlit("create_project");
    reveal_strlit("file_");
    assert("run_shell"@.len() == 9 && "run_shell"@[0] == 'r');
    assert("start_job"@.len() == 9 && "start_job"@[0] == 's');
    assert("stop_job"@.len() == 8);
    assert("register_project"@.len() == 16);
    assert("create_project"@.len() == 14);
    assert("file_"@.len() == 5);
    assert("stop_job"@[0] == 's' && ("file_"@ + op)[0] == 'f') by {
        assert("file_"@[0] == 'f');
    }
}

// ---------------------------------------------------------------------------
// Results
// ---------------------------------------------------------------------------

/// Whether `told` tells the caller who waits for the request what the result holds: how
/// the command ended, in every field.
pub open spec fn tells_result(
    request: RequestModel,
    result: ShellAgentResultRequest,
    told: ResponseModel,
) -> bool {
    &&& told.success == (result.error is None && result.exit_code == Some(0i32))
    &&& told.request_id == request.request_id
    &&& told.client_id == request.client_id
    &&& told.cwd == request.cwd
    &&& shows_command(request.command, told.command_preview)
    &&& told.exit_code == result.exit_code
    &&& keeps_output(opt_text(result.stdout), told.stdout)
    &&& keeps_output(opt_text(result.stderr), told.stderr)
    &&& told.duration_ms == result.duration_ms
    &&& told.error == opt_text(result.error)
}

/// Whoever waits for a request is told all that the agent hands in for it: its exit code,
/// its two outputs, how long it took and its error, each as it was handed in.
pub proof fn law_result_is_told(
    m: RegistryModel,
    request_id: Seq<char>,
    result: ShellAgentResultRequest,
    now: i64,
)
    requires
        m.consistent(),
        m.pending.contains_key(request_id),
        m.pending[request_id].waiter,
        answers_for(m, m.pending[request_id].request.client_id, request_id, result),
    ensures
        ({
            let (done, told) = m.complete(result, now);
            &&& told is Ok
            &&& told->Ok_0 is Some
            &&& tells_result(m.pending[request_id].request, result, told->Ok_0->0)
            &&& !done.pending.contains_key(request_id)
        }),
{
    law_output_is_kept(opt_text(result.stdout));
    law_output_is_kept(opt_text(result.stderr));
    law_commands_are_shown(m.pending[request_id].request.command);
}

/// A command goes the whole way. The agent that polls gets the command, its input, its
/// directory and its time as the caller gave them, and the caller is told the exit code,
/// both outputs, the duration and the error as the agent handed them in.
pub proof fn law_run_is_carried(
    m: RegistryModel,
    b: ShellRunRequest,
    requested_by: Seq<char>,
    request_id: Seq<char>,
    poll: ShellAgentPollRequest,
    result: ShellAgentResultRequest,
    now: i64,
    polled_at: i64,
    completed_at: i64,
)
    requires
        m.consistent(),
        run_request_error(b) is None,
        polls_for(m, b.client_id@, poll),
        m.queue_of(b.client_id@).len() == 0,
        answers_for(m, b.client_id@, request_id, result),
    ensures
        ({
            let (queued, accepted) = m.enqueue(
                run_request_error(b),
                run_request(b, requested_by, request_id, now),
            );
            let (polled, got) = queued.poll(poll, polled_at);
            let (done, told) = polled.complete(result, completed_at);
            let request = got->Ok_0->0;
            let answer = told->Ok_0->0;
            &&& accepted == Ok::<Seq<char>, Seq<char>>(request_id)
            &&& got is Ok && got->Ok_0 is Some
            &&& request.request_id == request_id
            &&& request.client_id == b.client_id@
            &&& request.kind == "run_shell"@
            &&& request.job_id is None
            &&& request.command == b.command@
            &&& request.stdin == opt_text(b.stdin)
            &&& request.cwd == match b.cwd {
                Some(c) => Some(trim(c@)),
                None => None,
            }
            &&& request.timeout_secs == b.timeout_secs
            &&& request.requested_by == requested_by
            &&& request.created_at == now
            &&& request.path is None && request.content is None
            &&& told is Ok && told->Ok_0 is Some
            &&& answer.success == (result.error is None && result.exit_code == Some(0i32))
            &&& answer.request_id == request_id
            &&& answer.client_id == b.client_id@
            &&& answer.cwd == request.cwd
            &&& shows_command(b.command@, answer.command_preview)
            &&& answer.exit_code == result.exit_code
            &&& keeps_output(opt_text(result.stdout), answer.stdout)
            &&& keeps_output(opt_text(result.stderr), answer.stderr)
            &&& answer.duration_ms == result.duration_ms
            &&& answer.error == opt_text(result.error)
            &&& !done.pending.contains_key(request_id)
            &&& done.queue_of(b.client_id@).len() == 0
        }),
{
    let request = run_request(b, requested_by, request_id, now);
    let p = PendingModel { request, waiter: true, job_id: None };
    lemma_kinds_differ(seq![]);
    lemma_alone_is_polled(m, p, poll, polled_at);
    law_output_is_kept(opt_text(result.stdout));
    law_output_is_kept(opt_text(result.stderr));
    law_commands_are_shown(b.command@);
}

// ---------------------------------------------------------------------------
// File operations
// ---------------------------------------------------------------------------

/// A file operation goes the whole way to the agent: the request that it polls holds every
/// field of the caller's request.
pub proof fn law_file_op_is_carried(
    m: RegistryModel,
    b: ShellFileOpRequest,
    requested_by: Seq<char>,
    request_id: Seq<char>,
    poll: ShellAgentPollRequest,
    result: ShellAgentResultRequest,
    now: i64,
    polled_at: i64,
    completed_at: i64,
)
    requires
        m.consistent(),
        file_request_error(b) is None,
        polls_for(m, b.client_id@, poll),
        m.queue_of(b.client_id@).len() == 0,
        answers_for(m, b.client_id@, request_id, result),
    ensures
        ({
            let (queued, accepted) = m.enqueue(
                file_request_error(b),
                file_request(b, requested_by, request_id, now),
            );
            let (polled, got) = queued.poll(poll, polled_at);
            let (done, told) = polled.complete(result, completed_at);
            let request = got->Ok_0->0;
            let answer = told->Ok_0->0;
            &&& accepted == Ok::<Seq<char>, Seq<char>>(request_id)
            &&& got is Ok && got->Ok_0 is Some
            &&& request.request_id == request_id
            &&& request.client_id == b.client_id@
            &&& request.kind == "file_"@ + b.op@
            &&& request.path == Some(trim(b.path@))
            &&& request.cwd == match b.cwd {
                Some(c) => Some(trim(c@)),
                None => None,
            }
            &&& request.content == opt_text(b.content)
            &&& request.max_bytes == b.max_bytes
            &&& request.old_text == opt_text(b.old_text)
            &&& request.pattern == opt_text(b.pattern)
            &&& request.expected_sha256 == opt_text(b.expected_sha256)
            &&& request.expected_prefix == opt_text(b.expected_prefix)
            &&& request.start_line == b.start_line
            &&& request.end_line == b.end_line
            &&& request.line == b.line
            &&& request.create_dirs == b.create_dirs
            &&& request.requested_by == requested_by
            &&& request.created_at == now
            &&& request.timeout_secs == 30
            &&& request.command.len() == 0 && request.stdin is None && request.job_id is None
            &&& told is Ok && told->Ok_0 is Some
            &&& tells_result(request, result, answer)
            &&& !done.pending.contains_key(request_id)
        }),
{
    let request = file_request(b, requested_by, request_id, now);
    let p = PendingModel { request, waiter: true, job_id: None };
    lemma_kinds_differ(b.op@);
    lemma_alone_is_polled(m, p, poll, polled_at);
    law_output_is_kept(opt_text(result.stdout));
    law_output_is_kept(opt_text(result.stderr));
    law_commands_are_shown(request.command);
}

/// What the agent answered to a file operation reaches the caller. A read that succeeded
/// gives the text that the agent wrote, its length and its checksum; a write gives the
/// number of bytes that the agent wrote and the checksum of what was to be written; a
/// listing gives a line for each entry. What failed gives none of these, and in any case
/// the caller is told the error and what the agent wrote beside it.
pub proof fn law_file_answer_is_told(
    op: Seq<char>,
    path: Seq<char>,
    cwd: Option<Seq<char>>,
    content: Option<Seq<char>>,
    response: ResponseModel,
)
    ensures
        ({
            let r = file_response(op, path, cwd, content, response);
            let ok = response.error is None && response.exit_code == Some(0i32);
            let out = match response.stdout {
                Some(s) => s,
                None => Seq::<char>::empty(),
            };
            &&& r.success == ok
            &&& r.op == op && r.path == path && r.cwd == cwd
            &&& r.request_id == response.request_id && r.client_id == response.client_id
            &&& r.stderr == response.stderr && r.error == response.error
            &&& ok && op == "read"@ ==> {
                &&& r.content == Some(out)
                &&& r.bytes == Some(byte_len(out) as usize)
                &&& r.sha256 == Some(sha256_hex_of(out))
            }
            &&& ok && op == "write"@ ==> {
                &&& r.content is None
                &&& r.bytes is Some
                &&& content is Some ==> r.sha256 == Some(sha256_hex_of(content->0))
                &&& content is None ==> r.sha256 is None
                &&& forall|n: nat|
                    n <= usize::MAX && trim(out) == #[trigger] decimal(n) ==> r.bytes == Some(
                        n as usize,
                    )
            }
            &&& ok && op == "list"@ ==> r.entries == lines_of(out)
            &&& !ok ==> r.content is None && r.bytes is None && r.sha256 is None
                && r.entries.len() == 0
            &&& op != "read"@ ==> r.content is None
            &&& op != "list"@ ==> r.entries.len() == 0
            &&& op != "read"@ && op != "write"@ ==> r.bytes is None && r.sha256 is None
        }),
{
    reveal_strlit("read");
    reveal_strlit("write");
    reveal_strlit("list");
    assert("read"@.len() == 4 && "read"@[0] == 'r');
    assert("write"@.len() == 5);
    assert("list"@.len() == 4 && "list"@[0] == 'l');
    let out = match response.stdout {
        Some(s) => s,
        None => Seq::<char>::empty(),
    };
    assert forall|n: nat| n <= usize::MAX && trim(out) == #[trigger] decimal(n) implies
        crate::numbers::parse_unsigned(trim(out), usize::MAX as nat) == Some(n) by {
        crate::numbers::law_decimal_is_read(n, usize::MAX as nat);
    }
}

// ---------------------------------------------------------------------------
// Project operations
// ---------------------------------------------------------------------------

/// A project operation goes to the agent with its kind and its payload.
pub proof fn law_project_op_is_carried(
    m: RegistryModel,
    client_id: Seq<char>,
    kind: Seq<char>,
    payload: Seq<char>,
    requested_by: Seq<char>,
    request_id: Seq<char>,
    poll: ShellAgentPollRequest,
    result: ShellAgentResultRequest,
    now: i64,
    polled_at: i64,
    completed_at: i64,
)
    requires
        m.consistent(),
        kind == "register_project"@ || kind == "create_project"@,
        !payload.contains('\0'),
        polls_for(m, client_id, poll),
        m.queue_of(client_id).len() == 0,
        answers_for(m, client_id, request_id, result),
    ensures
        ({
            let (queued, accepted) = m.enqueue(
                project_op_error(client_id, kind, payload),
                project_request(client_id, kind, payload, requested_by, request_id, now),
            );
            let (polled, got) = queued.poll(poll, polled_at);
            let (done, told) = polled.complete(result, completed_at);
            let request = got->Ok_0->0;
            &&& accepted == Ok::<Seq<char>, Seq<char>>(request_id)
            &&& got is Ok && got->Ok_0 is Some
            &&& request.request_id == request_id
            &&& request.client_id == client_id
            &&& request.kind == kind
            &&& request.stdin == Some(payload)
            &&& request.command.len() == 0
            &&& request.timeout_secs == 30
            &&& request.requested_by == requested_by
            &&& request.created_at == now
            &&& told is Ok && told->Ok_0 is Some
            &&& tells_result(request, result, told->Ok_0->0)
        }),
{
    let request = project_request(client_id, kind, payload, requested_by, request_id, now);
    let p = PendingModel { request, waiter: true, job_id: None };
    lemma_kinds_differ(seq![]);
    lemma_alone_is_polled(m, p, poll, polled_at);
    law_output_is_kept(opt_text(result.stdout));
    law_output_is_kept(opt_text(result.stderr));
    law_commands_are_shown(request.command);
}

/// Other project operations, and payloads that hold NUL, are refused and change nothing.
pub proof fn law_other_project_ops_are_refused(
    m: RegistryModel,
    client_id: Seq<char>,
    kind: Seq<char>,
    payload: Seq<char>,
    request: RequestModel,
)
    requires
        (kind != "register_project"@ && kind != "create_project"@) || payload.contains('\0'),
    ensures
        m.enqueue(project_op_error(client_id, kind, payload), request).1 is Err,
        m.enqueue(project_op_error(client_id, kind, payload), request).0 == m,
{
}

} // verus!
