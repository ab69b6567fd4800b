//! What the program does for each command line.
use crate::lines::join;
use crate::startup::{
    action_of, no_options, options_from, server_usage_text, task_refused, version_text, ActionModel,
    OptionsModel, TASK_USAGE,
};
use vstd::prelude::*;

verus! {

/// Without arguments the server runs, and by its own word it runs too.
pub proof fn law_server_runs()
    ensures
        action_of(Seq::<Seq<char>>::empty()) is Run,
        action_of(seq!["serve"@]) is Run,
{
    reveal_strlit("serve");
    reveal_strlit("setup");
    reveal_strlit("doctor");
    reveal_strlit("status");
    reveal_strlit("agent");
    reveal_strlit("task");
    reveal_strlit("token");
    assert("serve"@.len() == 5 && "serve"@[2] == 'r');
    assert("setup"@.len() == 5 && "setup"@[2] == 't');
    assert("doctor"@.len() == 6 && "doctor"@[0] == 'd');
    assert("status"@.len() == 6 && "status"@[0] == 's');
    assert("agent"@.len() == 5 && "agent"@[2] == 'e');
    assert("task"@.len() == 4);
    assert("token"@.len() == 5 && "token"@[2] == 'k');
}

/// What is done for a project command, by its word.
pub open spec fn does_command(command: Seq<char>, action: ActionModel, options: OptionsModel) -> bool {
    &&& command == "setup"@ ==> action == ActionModel::Setup(options)
    &&& command == "doctor"@ ==> action == ActionModel::Doctor(options)
    &&& command == "status"@ ==> action == ActionModel::Status(options)
}

/// A project command works on the root that it names, the last one where it names several,
/// and on none where it names none.
pub proof fn law_project_commands(command: Seq<char>, root: Seq<char>, other: Seq<char>)
    requires
        command == "setup"@ || command == "doctor"@ || command == "status"@,
    ensures
        does_command(
            command,
            action_of(seq![command]),
            OptionsModel { root: None, console_assets_dir: None },
        ),
        does_command(
            command,
            action_of(seq![command, "--root"@, root]),
            OptionsModel { root: Some(root), console_assets_dir: None },
        ),
        does_command(
            command,
            action_of(seq![command, "--root"@, other, "--root"@, root]),
            OptionsModel { root: Some(root), console_assets_dir: None },
        ),
{
    reveal_strlit("setup");
    reveal_strlit("doctor");
    reveal_strlit("status");
    reveal_strlit("agent");
    assert("setup"@.len() == 5 && "setup"@[0] == 's');
    assert("doctor"@.len() == 6 && "doctor"@[0] == 'd');
    assert("status"@.len() == 6 && "status"@[0] == 's');
    assert("agent"@.len() == 5 && "agent"@[0] == 'a');
    reveal_strlit("--root");
    reveal_strlit("--console-assets-dir");
    assert("--root"@.len() == 6 && "--console-assets-dir"@.len() == 20);
    let none = Seq::<Seq<char>>::empty();
    let a = seq![command];
    let b = seq![command, "--root"@, root];
    let c = seq![command, "--root"@, other, "--root"@, root];
    assert(a.skip(1) =~= none);
    assert(b.skip(1).skip(2) =~= none);
    assert(c.skip(1).skip(2) =~= seq!["--root"@, root]);
    assert(c.skip(1).skip(2).skip(2) =~= none);
    let given = OptionsModel { root: Some(root), ..no_options() };
    let first = OptionsModel { root: Some(other), ..no_options() };
    assert(options_from(none, command, no_options()) == Ok::<OptionsModel, Seq<char>>(no_options()));
    assert(options_from(none, command, given) == Ok::<OptionsModel, Seq<char>>(given));
    assert(b.skip(1)[0] == "--root"@ && b.skip(1)[1] == root);
    assert(options_from(b.skip(1), command, no_options()) == Ok::<OptionsModel, Seq<char>>(given));
    assert(c.skip(1)[0] == "--root"@ && c.skip(1)[1] == other);
    let d = c.skip(1).skip(2);
    assert(d[0] == "--root"@ && d[1] == root);
    assert(OptionsModel { root: Some(root), ..first } =~= given);
    assert(options_from(d, command, first) == Ok::<OptionsModel, Seq<char>>(given));
    assert(options_from(c.skip(1), command, no_options()) == options_from(d, command, first));
}

/// The agent is started with the root and the directory of assets that it is given, and an
/// assets directory that is not absolute is refused.
pub proof fn law_agent_start(root: Seq<char>, dir: Seq<char>)
    ensures
        action_of(seq!["agent"@, "start"@]) == ActionModel::AgentStart(
            OptionsModel { root: None, console_assets_dir: None },
        ),
        action_of(seq!["agent"@, "start"@, "--root"@, root]) == ActionModel::AgentStart(
            OptionsModel { root: Some(root), console_assets_dir: None },
        ),
        dir.len() > 0 && dir[0] == '/' ==> action_of(
            seq!["agent"@, "start"@, "--console-assets-dir"@, dir],
        ) == ActionModel::AgentStart(OptionsModel { root: None, console_assets_dir: Some(dir) }),
        (dir.len() == 0 || dir[0] != '/') ==> {
            let r = action_of(seq!["agent"@, "start"@, "--console-assets-dir"@, dir]);
            r is Exit && r->code == 2
        },
{
    reveal_strlit("setup");
    reveal_strlit("doctor");
    reveal_strlit("status");
    reveal_strlit("agent");
    reveal_strlit("start");
    assert("setup"@.len() == 5 && "setup"@[0] == 's' && "setup"@[1] == 'e');
    assert("doctor"@.len() == 6 && "doctor"@[0] == 'd');
    assert("status"@.len() == 6 && "status"@[0] == 's');
    assert("agent"@.len() == 5 && "agent"@[0] == 'a');
    assert("start"@.len() == 5 && "start"@[0] == 's' && "start"@[1] == 't');
    reveal_strlit("--root");
    reveal_strlit("--console-assets-dir");
    reveal_strlit("agent start");
    reveal_strlit("/");
    reveal_strlit("--help");
    reveal_strlit("-h");
    assert("--help"@.len() == 6 && "-h"@.len() == 2);
    assert("--root"@.len() == 6 && "--console-assets-dir"@.len() == 20 && "agent start"@.len()
        == 11);
    assert("/"@.len() == 1 && "/"@[0] == '/');
    let word = "agent start"@;
    let none = Seq::<Seq<char>>::empty();
    let a = seq!["agent"@, "start"@];
    let b = seq!["agent"@, "start"@, "--root"@, root];
    let c = seq!["agent"@, "start"@, "--console-assets-dir"@, dir];
    assert(a.skip(2) =~= none);
    assert(b.skip(2) =~= seq!["--root"@, root]);
    assert(c.skip(2) =~= seq!["--console-assets-dir"@, dir]);
    let p = b.skip(2);
    let q = c.skip(2);
    assert(p[0] == "--root"@ && p[1] == root && p.skip(2) =~= none);
    assert(q[0] == "--console-assets-dir"@ && q[1] == dir && q.skip(2) =~= none);
    let rooted = OptionsModel { root: Some(root), ..no_options() };
    let dressed = OptionsModel { console_assets_dir: Some(dir), ..no_options() };
    assert(options_from(none, word, no_options()) == Ok::<OptionsModel, Seq<char>>(no_options()));
    assert(options_from(none, word, rooted) == Ok::<OptionsModel, Seq<char>>(rooted));
    assert(options_from(none, word, dressed) == Ok::<OptionsModel, Seq<char>>(dressed));
    if dir.len() > 0 && dir[0] == '/' {
        assert(dir.subrange(0, 1) =~= "/"@);
    } else if "/"@.is_prefix_of(dir) {
        assert(dir.subrange(0, 1)[0] == '/');
    }
}

/// Task and admin commands are handed on with the words that follow, whatever they are;
/// only a plain request for help on tasks is answered.
pub proof fn law_other_commands(rest: Seq<Seq<char>>)
    ensures
        !(rest.len() == 1 && (rest[0] == "--help"@ || rest[0] == "-h"@)) ==> action_of(
            seq!["task"@] + rest,
        ) == ActionModel::Task(rest),
        rest.len() == 1 && (rest[0] == "--help"@ || rest[0] == "-h"@) ==> {
            let r = action_of(seq!["task"@] + rest);
            r is Exit && r->code == 0 && r->stdout == TASK_USAGE@
        },
        action_of(seq!["token"@] + rest) == ActionModel::Admin(seq!["token"@] + rest),
        action_of(seq!["agent-token"@] + rest) == ActionModel::Admin(seq!["agent-token"@] + rest),
{
    reveal_strlit("setup");
    reveal_strlit("doctor");
    reveal_strlit("status");
    reveal_strlit("agent");
    reveal_strlit("task");
    reveal_strlit("serve");
    reveal_strlit("token");
    assert("setup"@.len() == 5 && "setup"@[0] == 's' && "setup"@[2] == 't');
    assert("doctor"@.len() == 6 && "doctor"@[0] == 'd');
    assert("status"@.len() == 6 && "status"@[0] == 's');
    assert("agent"@.len() == 5 && "agent"@[0] == 'a');
    assert("task"@.len() == 4);
    assert("serve"@.len() == 5 && "serve"@[0] == 's' && "serve"@[2] == 'r');
    assert("token"@.len() == 5 && "token"@[0] == 't');
    reveal_strlit("agent-token");
    assert("agent-token"@.len() == 11);
    let a = seq!["task"@] + rest;
    let b = seq!["token"@] + rest;
    let c = seq!["agent-token"@] + rest;
    assert(a[0] == "task"@ && b[0] == "token"@ && c[0] == "agent-token"@);
    assert(a.skip(1) =~= rest);
    if rest.len() == 1 {
        assert(a[1] == rest[0]);
    }
}

/// Help and the version are printed, and the program is done; anything else is complained
/// of, and the program fails.
pub proof fn law_help_and_version(word: Seq<char>)
    ensures
        word == "--help"@ || word == "-h"@ ==> action_of(seq![word]) == (ActionModel::Exit {
            code: 0,
            stdout: server_usage_text(),
            stderr: Seq::empty(),
        }),
        word == "--version"@ || word == "-V"@ ==> action_of(seq![word]) == (ActionModel::Exit {
            code: 0,
            stdout: version_text("webcodex"@),
            stderr: Seq::empty(),
        }),
        word.len() > 0 && word[0] == '-' && word != "--help"@ && word != "-h"@ && word
            != "--version"@ && word != "-V"@ ==> {
            let r = action_of(seq![word]);
            &&& r is Exit
            &&& r->code == 2
            &&& r->stdout.len() == 0
            &&& r->stderr == "unknown argument(s): "@ + word + "\n"@ + server_usage_text()
        },
{
    reveal_strlit("setup");
    reveal_strlit("doctor");
    reveal_strlit("status");
    reveal_strlit("agent");
    reveal_strlit("task");
    reveal_strlit("serve");
    reveal_strlit("token");
    assert("setup"@.len() == 5 && "setup"@[0] == 's' && "setup"@[2] == 't');
    assert("doctor"@.len() == 6 && "doctor"@[0] == 'd');
    assert("status"@.len() == 6 && "status"@[0] == 's');
    assert("agent"@.len() == 5 && "agent"@[0] == 'a');
    assert("task"@.len() == 4);
    assert("serve"@.len() == 5 && "serve"@[0] == 's' && "serve"@[2] == 'r');
    assert("token"@.len() == 5 && "token"@[0] == 't');
    reveal_strlit("--help");
    reveal_strlit("-h");
    reveal_strlit("--version");
    reveal_strlit("-V");
    reveal_strlit("agent-token");
    assert("--help"@.len() == 6 && "--help"@[0] == '-' && "-h"@.len() == 2 && "-h"@[1] == 'h');
    assert("--version"@.len() == 9 && "-V"@.len() == 2 && "-V"@[1] == 'V' && "-V"@[0] == '-');
    assert("agent-token"@.len() == 11 && "agent-token"@[0] == 'a');
    assert("setup"@[0] == 's' && "doctor"@[0] == 'd' && "status"@[0] == 's' && "agent"@[0] == 'a'
        && "task"@[0] == 't' && "serve"@[0] == 's' && "token"@[0] == 't');
    assert(seq![word][0] == word);
    assert(join(seq![word], " "@) == word);
}

/// Where the task commands refuse their words, the program says why and fails, unless they
/// were asked for help.
pub proof fn law_task_refusals(error: Seq<char>)
    ensures
        error == "help requested"@ ==> task_refused(error) == (ActionModel::Exit {
            code: 0,
            stdout: TASK_USAGE@,
            stderr: Seq::empty(),
        }),
        error != "help requested"@ ==> {
            let r = task_refused(error);
            &&& r is Exit
            &&& r->code == 2
            &&& r->stdout.len() == 0
            &&& error.is_prefix_of(r->stderr)
        },
{
    if error != "help requested"@ {
        let e = task_refused(error)->stderr;
        assert(e.subrange(0, error.len() as int) =~= error);
    }
}

} // verus!
