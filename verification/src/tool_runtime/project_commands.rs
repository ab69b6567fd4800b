//! Commands that tools have run in a project.
use crate::shell_client::model::{run_request, RegistryModel};
use crate::shell_client::protocol::ShellRunRequest;
use crate::shell_client::registry::{is_client_listing, draw_id, ShellClientRegistry};
use crate::shell_client::jobs::now_ts;
use crate::shell_client::protocol::ClientViewModel;
use crate::shell_client::requests::WaitOutcome;
use crate::shell_client::validation::{id_error, is_new_id, run_request_error};
use crate::text::{opt_text, views};
use crate::tool_runtime::git_tools::CommandOutcome;
use crate::tool_runtime::project_resolution::{
    all_candidates, in_order, project_candidates, resolve, resolve_among, resolver_message,
    ConfigModel, Executor, ProjectConfig,
};
use crate::tool_runtime::types::{tool_err, CommandOutput, ToolResult};
use vstd::prelude::*;

verus! {

/// How long a command of a tool may run.
pub const COMMAND_TIMEOUT_SECS: u64 = 30;

/// How long a command of a tool is waited for by its request.
pub const COMMAND_REQUEST_WAIT_SECS: u64 = 32;

/// How long a tool waits for its command.
pub const COMMAND_WAIT_SECS: u64 = 34;

/// Where a command of a tool runs.
#[derive(Debug)]
pub enum CommandStart {
    /// At an agent, under the id of a request.
    Agent { request_id: String },
    /// On this machine, in a directory.
    Local { root: String },
}

/// Whether a request carries a command of a tool for the project at `path`.
pub open spec fn is_command_body(
    b: ShellRunRequest,
    client_id: Seq<char>,
    path: Seq<char>,
    command: Seq<char>,
) -> bool {
    &&& b.client_id@ == client_id
    &&& opt_text(b.cwd) == Some(path)
    &&& b.command@ == command
    &&& b.stdin is None
    &&& b.timeout_secs == COMMAND_TIMEOUT_SECS
    &&& b.wait_timeout_secs == COMMAND_REQUEST_WAIT_SECS
}

/// The complaint that a project of an agent does not name its agent.
pub open spec fn no_agent_named() -> Seq<char> {
    "agent project has no client_id"@
}

/// How a command of a tool starts in a project: at the agent of the project it is queued,
/// else it runs on this machine.
pub open spec fn starts_command(
    before: RegistryModel,
    config: ConfigModel,
    command: Seq<char>,
    request_id: Seq<char>,
    now: i64,
    after: RegistryModel,
    r: Result<CommandStart, ToolResult>,
) -> bool {
    if config.executor == Executor::Agent {
        match config.client_id {
            Some(client_id) => exists|body: ShellRunRequest| #[trigger]
                is_command_body(body, client_id, config.path, command) && ({
                    let queued = before.enqueue(
                        run_request_error(body),
                        run_request(body, "tool_runtime"@, request_id, now),
                    );
                    &&& after == queued.0
                    &&& match queued.1 {
                        Ok(id) => r is Ok && r->Ok_0 is Agent && r->Ok_0->request_id@ == id,
                        Err(e) => r is Err && r->Err_0@ == tool_err(e),
                    }
                }),
            None => after == before && r is Err && r->Err_0@ == tool_err(no_agent_named()),
        }
    } else {
        after == before && r is Ok && r->Ok_0 is Local && r->Ok_0->root@ == config.path
    }
}

/// Starts a command of a tool in a project at `now`, under the id `request_id`.
pub fn start_in_project_at(
    registry: &mut ShellClientRegistry,
    config: &ProjectConfig,
    command: String,
    request_id: String,
    now: i64,
) -> (r: Result<CommandStart, ToolResult>)
    requires
        old(registry).wf(),
        id_error(request_id@, "request_id"@) is None,
    ensures
        final(registry).wf(),
        starts_command(
            old(registry)@,
            config@,
            command@,
            request_id@,
            now,
            final(registry)@,
            r,
        ),
{
    if !config.is_agent() {
        return Ok(CommandStart::Local { root: config.path.clone() });
    }
    let Some(client_id) = &config.client_id else {
        return Err(ToolResult::err("agent project has no client_id"));
    };
    let body = ShellRunRequest {
        client_id: client_id.clone(),
        cwd: Some(config.path.clone()),
        command,
        stdin: None,
        timeout_secs: COMMAND_TIMEOUT_SECS,
        wait_timeout_secs: COMMAND_REQUEST_WAIT_SECS,
    };
    assert(is_command_body(body, config@.client_id->0, config@.path, command@));
    match registry.enqueue_run_at(body, "tool_runtime".to_owned(), request_id, now) {
        Ok(request_id) => Ok(CommandStart::Agent { request_id }),
        Err(e) => Err(ToolResult::err(e.as_str())),
    }
}

/// How a command of a tool starts in the project that is meant.
pub open spec fn starts_where_meant(
    before: RegistryModel,
    clients: Seq<ClientViewModel>,
    project: Seq<char>,
    command: Seq<char>,
    request_id: Seq<char>,
    now: i64,
    after: RegistryModel,
    r: Result<CommandStart, ToolResult>,
) -> bool {
    match resolve(project, in_order(all_candidates(clients))) {
        Ok(p) => starts_command(before, p.config, command, request_id, now, after, r),
        Err(e) => after == before && r is Err && r->Err_0@ == tool_err(resolver_message(e)),
    }
}

/// Starts a command of a tool at `now` in the project that is meant among all, under the
/// id `request_id`.
pub fn start_project_command_at(
    registry: &mut ShellClientRegistry,
    project: &str,
    command: String,
    request_id: String,
    now: i64,
) -> (r: Result<CommandStart, ToolResult>)
    requires
        old(registry).wf(),
        id_error(request_id@, "request_id"@) is None,
    ensures
        final(registry).wf(),
        exists|clients: Seq<ClientViewModel>| #[trigger]
            is_client_listing(old(registry)@, None, now, clients) && starts_where_meant(
                old(registry)@,
                clients,
                project@,
                command@,
                request_id@,
                now,
                final(registry)@,
                r,
            ),
{
    let clients = registry.list_clients_at(None, now);
    assert(is_client_listing(old(registry)@, None, now, views(clients@)));
    match resolve_among(project, project_candidates(&clients)) {
        Ok(resolved) => start_in_project_at(registry, &resolved.config, command, request_id, now),
        Err(e) => {
            let message = e.to_message();
            Err(ToolResult::err(message.as_str()))
        },
    }
}

/// Starts a command of a tool in the project that is meant among all.
pub fn start_project_command(registry: &mut ShellClientRegistry, project: &str, command: String)
    -> (r: Result<CommandStart, ToolResult>)
    requires
        old(registry).wf(),
    ensures
        final(registry).wf(),
        exists|clients: Seq<ClientViewModel>, request_id: Seq<char>, now: i64|
            is_new_id(request_id, "request_id"@) && #[trigger] is_client_listing(
                old(registry)@,
                None,
                now,
                clients,
            ) && #[trigger] starts_where_meant(
                old(registry)@,
                clients,
                project@,
                command@,
                request_id,
                now,
                final(registry)@,
                r,
            ),
{
    let now: i64 = now_ts();
    let request_id = draw_id();
    let ghost id = request_id@;
    let ghost before = registry@;
    let r = start_project_command_at(registry, project, command, request_id, now);
    proof {
        let clients = choose|clients: Seq<ClientViewModel>| #[trigger]
            is_client_listing(before, None, now, clients) && starts_where_meant(
                before,
                clients,
                project@,
                command@,
                id,
                now,
                registry@,
                r,
            );
        assert(is_client_listing(before, None, now, clients));
        assert(starts_where_meant(before, clients, project@, command@, id, now, registry@, r));
    }
    r
}

/// How a command at an agent ended. Where nobody waits for it any more, its request is
/// dropped.
pub fn finish_project_command(
    registry: &mut ShellClientRegistry,
    request_id: &str,
    outcome: WaitOutcome,
) -> (r: CommandOutcome)
    requires
        old(registry).wf(),
    ensures
        final(registry).wf(),
        final(registry)@ == (if outcome is Answered {
            old(registry)@
        } else {
            old(registry)@.cancelled(request_id@)
        }),
        r == (match outcome {
            WaitOutcome::Answered(response) => CommandOutcome::Finished {
                exit_code: response.exit_code,
                stdout: response.stdout,
                stderr: response.stderr,
            },
            WaitOutcome::Dropped => CommandOutcome::Dropped,
            WaitOutcome::TimedOut => CommandOutcome::TimedOut,
        }),
{
    match outcome {
        WaitOutcome::Answered(response) => CommandOutcome::Finished {
            exit_code: response.exit_code,
            stdout: response.stdout,
            stderr: response.stderr,
        },
        WaitOutcome::Dropped => {
            registry.cancel_request(request_id);
            CommandOutcome::Dropped
        },
        WaitOutcome::TimedOut => {
            registry.cancel_request(request_id);
            CommandOutcome::TimedOut
        },
    }
}

/// A text, or the empty one.
pub open spec fn text_or_empty(s: Option<String>) -> Seq<char> {
    match s {
        Some(s) => s@,
        None => seq![],
    }
}

/// The complaint about a command that did not end.
pub open spec fn not_finished(outcome: CommandOutcome) -> Option<Seq<char>> {
    match outcome {
        CommandOutcome::Finished { .. } => None,
        CommandOutcome::Dropped => Some("request dropped"@),
        CommandOutcome::TimedOut => Some("timed out"@),
        CommandOutcome::Failed(e) => Some(e@),
    }
}

fn some_or_empty(s: Option<String>) -> (r: String)
    ensures
        r@ == text_or_empty(s),
{
    match s {
        Some(s) => s,
        None => {
            let none = String::new();
            assert(none@ =~= seq![]);
            none
        },
    }
}

/// What a command left behind, or why it did not end.
pub fn captured(outcome: CommandOutcome) -> (r: Result<CommandOutput, ToolResult>)
    ensures
        match not_finished(outcome) {
            Some(e) => r is Err && r->Err_0@ == tool_err(e),
            None => {
                &&& r is Ok
                &&& r->Ok_0.exit_code == outcome->exit_code
                &&& r->Ok_0.stdout@ == text_or_empty(outcome->stdout)
                &&& r->Ok_0.stderr@ == text_or_empty(outcome->stderr)
            },
        },
{
    match outcome {
        CommandOutcome::Finished { exit_code, stdout, stderr } => Ok(
            CommandOutput {
                exit_code,
                stdout: some_or_empty(stdout),
                stderr: some_or_empty(stderr),
            },
        ),
        CommandOutcome::Dropped => Err(ToolResult::err("request dropped")),
        CommandOutcome::TimedOut => Err(ToolResult::err("timed out")),
        CommandOutcome::Failed(e) => Err(ToolResult::err(e.as_str())),
    }
}

} // verus!
