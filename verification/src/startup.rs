//! What the server program does with its command line.
use crate::lines::{join, join_all};
use crate::text::{concat2, concat3, opt_text, starts_with, str_eq, texts};
use vstd::prelude::*;
use vstd::string::*;

verus! {

/// The version of the program.
pub const VERSION: &'static str = "0.1.0";

/// The commit that the program was built from, where the build recorded one.
pub const BUILD_COMMIT: &'static str = "unknown";

/// The options of a project command.
#[derive(Debug, PartialEq, Eq)]
pub struct ProjectCommandOptions {
    pub root: Option<String>,
    pub console_assets_dir: Option<String>,
}

/// The mathematical value of [`ProjectCommandOptions`].
#[verifier::ext_equal]
pub struct OptionsModel {
    pub root: Option<Seq<char>>,
    pub console_assets_dir: Option<Seq<char>>,
}

impl View for ProjectCommandOptions {
    type V = OptionsModel;

    open spec fn view(&self) -> OptionsModel {
        OptionsModel {
            root: opt_text(self.root),
            console_assets_dir: opt_text(self.console_assets_dir),
        }
    }
}

/// What the program does next.
#[derive(Debug, PartialEq, Eq)]
pub enum ServerCliAction {
    /// Run the server.
    Run,
    Setup(ProjectCommandOptions),
    Doctor(ProjectCommandOptions),
    Status(ProjectCommandOptions),
    AgentStart(ProjectCommandOptions),
    /// Hand these arguments to the task commands.
    Task(Vec<String>),
    /// Hand these arguments to the admin commands.
    Admin(Vec<String>),
    /// Print and exit.
    Exit { code: i32, stdout: String, stderr: String },
}

/// The mathematical value of a [`ServerCliAction`].
#[verifier::ext_equal]
pub enum ActionModel {
    Run,
    Setup(OptionsModel),
    Doctor(OptionsModel),
    Status(OptionsModel),
    AgentStart(OptionsModel),
    Task(Seq<Seq<char>>),
    Admin(Seq<Seq<char>>),
    Exit { code: i32, stdout: Seq<char>, stderr: Seq<char> },
}

impl View for ServerCliAction {
    type V = ActionModel;

    open spec fn view(&self) -> ActionModel {
        match self {
            ServerCliAction::Run => ActionModel::Run,
            ServerCliAction::Setup(o) => ActionModel::Setup(o@),
            ServerCliAction::Doctor(o) => ActionModel::Doctor(o@),
            ServerCliAction::Status(o) => ActionModel::Status(o@),
            ServerCliAction::AgentStart(o) => ActionModel::AgentStart(o@),
            ServerCliAction::Task(args) => ActionModel::Task(texts(args@)),
            ServerCliAction::Admin(args) => ActionModel::Admin(texts(args@)),
            ServerCliAction::Exit { code, stdout, stderr } => ActionModel::Exit {
                code: *code,
                stdout: stdout@,
                stderr: stderr@,
            },
        }
    }
}

// ---------------------------------------------------------------------------
// Help texts
// ---------------------------------------------------------------------------

/// How the project commands are used.
pub const PROJECT_USAGE: &'static str = "Project commands:\n  webcodex setup [--root PATH]\n  webcodex doctor [--root PATH]\n  webcodex status [--root PATH]\n  webcodex agent start [--root PATH] [--console-assets-dir ABSOLUTE_PATH]\n\n";

/// How the task commands are used.
pub const TASK_USAGE: &'static str = "Usage: webcodex task <COMMAND> [ARGS] [OPTIONS]\n";

/// How the admin commands are used.
pub const ADMIN_USAGE: &'static str = "Admin commands:\n  webcodex token <COMMAND>\n  webcodex agent-token <COMMAND>\n\n";

pub const SERVER_USAGE_HEAD: &'static str = "Usage: webcodex [OPTIONS]\n       webcodex setup [OPTIONS]\n       webcodex doctor [OPTIONS]\n       webcodex agent start [OPTIONS]\n       webcodex status [OPTIONS]\n       webcodex task <COMMAND> [ARGS] [OPTIONS]\n       webcodex <ADMIN-COMMAND>\n\nCommands:\nsetup              Configure the current Git project\ndoctor             Diagnose why the current project cannot work\nagent start        Start the project runtime and local Agent in foreground\nstatus             Show concise project coding readiness\ntask               Review tasks and make host-local decisions\nserve              Run the HTTP runtime (internal/advanced mode)\n\nOptions:\n-h, --help       Print help and exit\n-V, --version    Print version and exit\n\n";

pub const SERVER_USAGE_ENVIRONMENT: &'static str = "Environment:\nWEBCODEX_ENV_FILE      Load environment variables from this file\nWEBCODEX_TOKEN         Bearer token for protected API endpoints\nWEBCODEX_ADDR          Listen address, default 0.0.0.0:8080\nWEBCODEX_DATA          Data directory, default ./data\nWEBCODEX_PUBLIC_URL    Public URL reported to clients\nWEBCODEX_CONSOLE_ASSETS_DIR  Advanced `serve`-only development override; prefer `agent start --console-assets-dir`\nWEBCODEX_ALLOW_ANONYMOUS  Allow anonymous GPT/MCP and client access (--open). Default off; only safe on localhost/trusted LAN/temporary demos.\nWEBCODEX_QUIC_ENABLED  Enable QUIC agent transport (default off)\nWEBCODEX_QUIC_LISTEN   QUIC UDP listen addr, default 0.0.0.0:8443\nWEBCODEX_QUIC_CERT     PEM cert path for the QUIC listener\nWEBCODEX_QUIC_KEY      PEM key path for the QUIC listener\nWEBCODEX_QUIC_ALPN     QUIC ALPN, default webcodex-runner/1\n";

/// How the server is used.
pub open spec fn server_usage_text() -> Seq<char> {
    SERVER_USAGE_HEAD@ + PROJECT_USAGE@ + ADMIN_USAGE@ + SERVER_USAGE_ENVIRONMENT@
}

/// How the server is used.
pub fn server_usage() -> (r: String)
    ensures
        r@ == server_usage_text(),
{
    let mut out = concat3(SERVER_USAGE_HEAD, PROJECT_USAGE, ADMIN_USAGE);
    out.append(SERVER_USAGE_ENVIRONMENT);
    out
}

/// The version line of a program.
pub open spec fn version_text(program: Seq<char>) -> Seq<char> {
    program + " "@ + VERSION@ + " (commit "@ + BUILD_COMMIT@ + ")\n"@
}

/// The version line of a program.
pub fn version_output(program: &str) -> (r: String)
    ensures
        r@ == version_text(program@),
{
    let mut out = concat3(program, " ", VERSION);
    out.append(" (commit ");
    out.append(BUILD_COMMIT);
    out.append(")\n");
    out
}

// ---------------------------------------------------------------------------
// Options
// ---------------------------------------------------------------------------

/// The options that `args` give beside `given`; only some commands take the
/// directory of console assets.
pub open spec fn options_from(
    args: Seq<Seq<char>>,
    command: Seq<char>,
    given: OptionsModel,
) -> Result<OptionsModel, Seq<char>>
    decreases args.len(),
{
    if args.len() == 0 {
        Ok(given)
    } else if args[0] == "--root"@ {
        if args.len() == 1 {
            Err("--root requires a value"@)
        } else {
            options_from(
                args.skip(2),
                command,
                OptionsModel { root: Some(args[1]), ..given },
            )
        }
    } else if args[0] == "--console-assets-dir"@ && command == "agent start"@ {
        if args.len() == 1 {
            Err("--console-assets-dir requires a value"@)
        } else if !"/"@.is_prefix_of(args[1]) {
            Err("--console-assets-dir must be an absolute path"@)
        } else {
            options_from(
                args.skip(2),
                command,
                OptionsModel { console_assets_dir: Some(args[1]), ..given },
            )
        }
    } else {
        Err("unknown argument for webcodex "@ + command + ": "@ + args[0])
    }
}

/// No options.
pub open spec fn no_options() -> OptionsModel {
    OptionsModel { root: None, console_assets_dir: None }
}

/// Reads the options `args[from..]` of a project command.
pub fn parse_options(args: &Vec<String>, from: usize, command: &str) -> (r: Result<
    ProjectCommandOptions,
    String,
>)
    requires
        from <= args@.len(),
    ensures
        options_from(texts(args@).skip(from as int), command@, no_options()) == (match r {
            Ok(o) => Ok(o@),
            Err(e) => Err(e@),
        }),
{
    let mut options = ProjectCommandOptions { root: None, console_assets_dir: None };
    let takes_assets = str_eq(command, "agent start");
    let ghost all = texts(args@);
    let mut i: usize = from;
    while i < args.len()
        invariant
            from <= i <= args@.len(),
            all == texts(args@),
            takes_assets == (command@ == "agent start"@),
            options_from(all.skip(from as int), command@, no_options()) == options_from(
                all.skip(i as int),
                command@,
                options@,
            ),
        decreases args@.len() - i,
    {
        let ghost rest = all.skip(i as int);
        assert(rest[0] == args@[i as int]@);
        let arg = args[i].as_str();
        if str_eq(arg, "--root") {
            if i + 1 == args.len() {
                return Err("--root requires a value".to_owned());
            }
            assert(rest[1] == args@[i + 1]@);
            assert(rest.skip(2) =~= all.skip(i + 2));
            options.root = Some(args[i + 1].clone());
            i = i + 2;
        } else if takes_assets && str_eq(arg, "--console-assets-dir") {
            if i + 1 == args.len() {
                return Err("--console-assets-dir requires a value".to_owned());
            }
            assert(rest[1] == args@[i + 1]@);
            assert(rest.skip(2) =~= all.skip(i + 2));
            if !starts_with(args[i + 1].as_str(), "/") {
                return Err("--console-assets-dir must be an absolute path".to_owned());
            }
            options.console_assets_dir = Some(args[i + 1].clone());
            i = i + 2;
        } else {
            let mut message = concat3("unknown argument for webcodex ", command, ": ");
            message.append(arg);
            return Err(message);
        }
    }
    Ok(options)
}

// ---------------------------------------------------------------------------
// The action
// ---------------------------------------------------------------------------

/// The program prints `stdout` and is done.
pub open spec fn exit_ok(stdout: Seq<char>) -> ActionModel {
    ActionModel::Exit { code: 0, stdout, stderr: seq![] }
}

/// The program prints `stderr` and fails.
pub open spec fn exit_usage(stderr: Seq<char>) -> ActionModel {
    ActionModel::Exit { code: 2, stdout: seq![], stderr }
}

/// Whether `arg` asks for help.
pub open spec fn is_help(arg: Seq<char>) -> bool {
    arg == "--help"@ || arg == "-h"@
}

/// Whether `arg` names a group of admin commands.
pub open spec fn is_admin_word(arg: Seq<char>) -> bool {
    arg == "token"@ || arg == "agent-token"@
}

/// What a project command does, given what its options are.
pub open spec fn project_action(
    command: Seq<char>,
    options: Result<OptionsModel, Seq<char>>,
) -> ActionModel {
    match options {
        Ok(o) => if command == "setup"@ {
            ActionModel::Setup(o)
        } else if command == "doctor"@ {
            ActionModel::Doctor(o)
        } else if command == "status"@ {
            ActionModel::Status(o)
        } else {
            ActionModel::AgentStart(o)
        },
        Err(e) => exit_usage(e + "\n\n"@ + PROJECT_USAGE@),
    }
}

/// What the program does with the arguments `args`.
pub open spec fn action_of(args: Seq<Seq<char>>) -> ActionModel {
    if args.len() == 0 {
        ActionModel::Run
    } else if args[0] == "setup"@ || args[0] == "doctor"@ || args[0] == "status"@ {
        if args.len() == 2 && is_help(args[1]) {
            exit_ok(PROJECT_USAGE@)
        } else {
            project_action(args[0], options_from(args.skip(1), args[0], no_options()))
        }
    } else if args[0] == "agent"@ {
        if (args.len() == 2 && is_help(args[1])) || (args.len() == 3 && args[1] == "start"@
            && is_help(args[2])) {
            exit_ok(PROJECT_USAGE@)
        } else if args.len() < 2 || args[1] != "start"@ {
            exit_usage("expected `webcodex agent start`\n\n"@ + PROJECT_USAGE@)
        } else {
            project_action(
                "agent start"@,
                options_from(args.skip(2), "agent start"@, no_options()),
            )
        }
    } else if args[0] == "task"@ {
        if args.len() == 2 && is_help(args[1]) {
            exit_ok(TASK_USAGE@)
        } else {
            ActionModel::Task(args.skip(1))
        }
    } else if args.len() == 1 && args[0] == "serve"@ {
        ActionModel::Run
    } else if is_admin_word(args[0]) {
        ActionModel::Admin(args)
    } else if args.len() == 1 && is_help(args[0]) {
        exit_ok(server_usage_text())
    } else if args.len() == 1 && (args[0] == "--version"@ || args[0] == "-V"@) {
        exit_ok(version_text("webcodex"@))
    } else {
        exit_usage("unknown argument(s): "@ + join(args, " "@) + "\n"@ + server_usage_text())
    }
}

fn print_and_exit(stdout: String) -> (r: ServerCliAction)
    ensures
        r@ == exit_ok(stdout@),
{
    let none = String::new();
    assert(none@ =~= seq![]);
    ServerCliAction::Exit { code: 0, stdout, stderr: none }
}

fn complain_and_exit(stderr: String) -> (r: ServerCliAction)
    ensures
        r@ == exit_usage(stderr@),
{
    let none = String::new();
    assert(none@ =~= seq![]);
    ServerCliAction::Exit { code: 2, stdout: none, stderr }
}

fn asks_help(arg: &str) -> (r: bool)
    ensures
        r == is_help(arg@),
{
    str_eq(arg, "--help") || str_eq(arg, "-h")
}

/// Whether `arg` names a group of admin commands.
pub fn is_admin_group(arg: &str) -> (r: bool)
    ensures
        r == is_admin_word(arg@),
{
    str_eq(arg, "token") || str_eq(arg, "agent-token")
}

fn rest_of(args: &Vec<String>, from: usize) -> (r: Vec<String>)
    requires
        from <= args@.len(),
    ensures
        texts(r@) == texts(args@).skip(from as int),
{
    let mut out: Vec<String> = Vec::new();
    let mut i: usize = from;
    while i < args.len()
        invariant
            from <= i <= args@.len(),
            out@.len() == i - from,
            forall|j: int| 0 <= j < out@.len() ==> (#[trigger] out@[j])@ == args@[from + j]@,
        decreases args@.len() - i,
    {
        out.push(args[i].clone());
        i = i + 1;
    }
    assert(texts(out@) =~= texts(args@).skip(from as int));
    out
}

fn project_command(args: &Vec<String>, from: usize, command: &str) -> (r: ServerCliAction)
    requires
        from <= args@.len(),
    ensures
        r@ == project_action(
            command@,
            options_from(texts(args@).skip(from as int), command@, no_options()),
        ),
{
    match parse_options(args, from, command) {
        Ok(options) => if str_eq(command, "setup") {
            ServerCliAction::Setup(options)
        } else if str_eq(command, "doctor") {
            ServerCliAction::Doctor(options)
        } else if str_eq(command, "status") {
            ServerCliAction::Status(options)
        } else {
            ServerCliAction::AgentStart(options)
        },
        Err(e) => complain_and_exit(concat3(e.as_str(), "\n\n", PROJECT_USAGE)),
    }
}

/// What the program does with its arguments.
pub fn server_cli_action(args: &[&str]) -> (r: ServerCliAction)
    ensures
        r@ == action_of(Seq::new(args@.len(), |i: int| args@[i]@)),
{
    let ghost all = Seq::new(args@.len(), |i: int| args@[i]@);
    let mut words: Vec<String> = Vec::new();
    let mut i: usize = 0;
    while i < args.len()
        invariant
            i <= args@.len(),
            words@.len() == i,
            forall|j: int| 0 <= j < i ==> (#[trigger] words@[j])@ == args@[j]@,
        decreases args@.len() - i,
    {
        words.push(args[i].to_owned());
        i = i + 1;
    }
    assert(texts(words@) =~= all);
    let count = words.len();
    if count == 0 {
        return ServerCliAction::Run;
    }
    let first = words[0].as_str();
    assert(first@ == all[0]);
    if str_eq(first, "setup") || str_eq(first, "doctor") || str_eq(first, "status") {
        if count == 2 && asks_help(words[1].as_str()) {
            return print_and_exit(PROJECT_USAGE.to_owned());
        }
        return project_command(&words, 1, first);
    }
    if str_eq(first, "agent") {
        if (count == 2 && asks_help(words[1].as_str())) || (count == 3 && str_eq(
            words[1].as_str(),
            "start",
        ) && asks_help(words[2].as_str())) {
            return print_and_exit(PROJECT_USAGE.to_owned());
        }
        if count < 2 || !str_eq(words[1].as_str(), "start") {
            return complain_and_exit(
                concat2("expected `webcodex agent start`\n\n", PROJECT_USAGE),
            );
        }
        proof {
            lemma_agent_start_is_its_own();
        }
        return project_command(&words, 2, "agent start");
    }
    if str_eq(first, "task") {
        if count == 2 && asks_help(words[1].as_str()) {
            return print_and_exit(TASK_USAGE.to_owned());
        }
        return ServerCliAction::Task(rest_of(&words, 1));
    }
    if count == 1 && str_eq(first, "serve") {
        return ServerCliAction::Run;
    }
    if is_admin_group(first) {
        return ServerCliAction::Admin(words);
    }
    if count == 1 && asks_help(first) {
        return print_and_exit(server_usage());
    }
    if count == 1 && (str_eq(first, "--version") || str_eq(first, "-V")) {
        return print_and_exit(version_output("webcodex"));
    }
    let joined = join_all(&words, " ");
    let usage = server_usage();
    let mut message = concat3("unknown argument(s): ", joined.as_str(), "\n");
    message.append(usage.as_str());
    complain_and_exit(message)
}

proof fn lemma_agent_start_is_its_own()
    ensures
        "agent start"@ != "setup"@,
        "agent start"@ != "doctor"@,
        "agent start"@ != "status"@,
{
    reveal_strlit("agent start");
    reveal_strlit("setup");
    reveal_strlit("doctor");
    reveal_strlit("status");
    assert("agent start"@.len() == 11 && "setup"@.len() == 5 && "doctor"@.len() == 6
        && "status"@.len() == 6);
}

/// What the program does when the task commands refuse their arguments: a request
/// for help is none.
pub open spec fn task_refused(error: Seq<char>) -> ActionModel {
    if error == "help requested"@ {
        exit_ok(TASK_USAGE@)
    } else {
        exit_usage(error + "\n\n"@ + TASK_USAGE@)
    }
}

/// What the program does when the task commands refuse their arguments.
pub fn task_cli_refused(error: &str) -> (r: ServerCliAction)
    ensures
        r@ == task_refused(error@),
{
    if str_eq(error, "help requested") {
        print_and_exit(TASK_USAGE.to_owned())
    } else {
        complain_and_exit(concat3(error, "\n\n", TASK_USAGE))
    }
}

/// What the program does when the admin commands refuse their arguments.
pub fn admin_cli_refused(error: &str) -> (r: ServerCliAction)
    ensures
        r@ == exit_usage(error@ + "\n"@),
{
    complain_and_exit(concat2(error, "\n"))
}

// ---------------------------------------------------------------------------
// Laws
// ---------------------------------------------------------------------------

/// Whether a directory of console assets may stand among the options of a command: only
/// starting the agent takes one, and it is an absolute path.
pub open spec fn fits_assets(command: Seq<char>, options: OptionsModel) -> bool {
    options.console_assets_dir is Some ==> command == "agent start"@ && "/"@.is_prefix_of(
        options.console_assets_dir->0,
    )
}

proof fn lemma_options_fit(args: Seq<Seq<char>>, command: Seq<char>, given: OptionsModel)
    requires
        fits_assets(command, given),
    ensures
        match options_from(args, command, given) {
            Ok(o) => fits_assets(command, o),
            Err(_) => true,
        },
    decreases args.len(),
{
    if args.len() >= 2 {
        if args[0] == "--root"@ {
            lemma_options_fit(
                args.skip(2),
                command,
                OptionsModel { root: Some(args[1]), ..given },
            );
        } else if args[0] == "--console-assets-dir"@ && command == "agent start"@
            && "/"@.is_prefix_of(args[1]) {
            lemma_options_fit(
                args.skip(2),
                command,
                OptionsModel { console_assets_dir: Some(args[1]), ..given },
            );
        }
    }
}

/// A directory of console assets is accepted only where the agent is started, and only
/// as an absolute path.
pub proof fn law_console_assets(args: Seq<Seq<char>>)
    ensures
        match action_of(args) {
            ActionModel::Setup(o) => o.console_assets_dir is None,
            ActionModel::Doctor(o) => o.console_assets_dir is None,
            ActionModel::Status(o) => o.console_assets_dir is None,
            ActionModel::AgentStart(o) => o.console_assets_dir is Some ==> "/"@.is_prefix_of(
                o.console_assets_dir->0,
            ),
            _ => true,
        },
{
    reveal_strlit("setup");
    reveal_strlit("doctor");
    reveal_strlit("status");
    reveal_strlit("agent start");
    assert("setup"@.len() == 5 && "doctor"@.len() == 6 && "status"@.len() == 6);
    assert("agent start"@.len() == 11);
    if args.len() > 0 {
        lemma_options_fit(args.skip(1), args[0], no_options());
    }
    if args.len() > 1 {
        lemma_options_fit(args.skip(2), "agent start"@, no_options());
    }
}

/// Where the program only prints and ends, it prints to one of its two outputs, and
/// fails exactly where it complains.
pub proof fn law_exits_say_why(args: Seq<Seq<char>>)
    ensures
        match action_of(args) {
            ActionModel::Exit { code, stdout, stderr } => {
                &&& code == 0 || code == 2
                &&& code == 0 ==> stderr.len() == 0 && stdout.len() > 0
                &&& code == 2 ==> stdout.len() == 0 && stderr.len() > 0
            },
            _ => true,
        },
{
    reveal_strlit("\n\n");
    reveal_strlit("\n");
    reveal_strlit(" ");
    lemma_usage_is_told();
    assert("\n\n"@.len() == 2 && "\n"@.len() == 1 && " "@.len() == 1);
}

proof fn lemma_usage_is_told()
    ensures
        PROJECT_USAGE@.len() > 0,
        TASK_USAGE@.len() > 0,
{
    reveal_strlit("Project commands:\n  webcodex setup [--root PATH]\n  webcodex doctor [--root PATH]\n  webcodex status [--root PATH]\n  webcodex agent start [--root PATH] [--console-assets-dir ABSOLUTE_PATH]\n\n");
    reveal_strlit("Usage: webcodex task <COMMAND> [ARGS] [OPTIONS]\n");
}

} // verus!
