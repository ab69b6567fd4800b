//! What is done for a call, and which paths it may name.
use crate::json::{law_put_get, lemma_find_push, text_trees, Tree};
use crate::lines::{index_of, lemma_index_of, split_at_char};
use crate::shell_client::access::AuthModel;
use crate::shell_client::protocol::ClientViewModel;
use crate::text::{opt_text, texts, trim, views};
use crate::tool_runtime::calls::{ToolCall, ToolKind};
use crate::tool_runtime::changes::{
    session_tree, signals_of, with_session, with_suggestions, with_warning,
};
use crate::tool_runtime::git::{diff_path_error, diff_paths_error, plain_path, plain_paths};
use crate::tool_runtime::handoff_summary::HandoffPlan;
use crate::tool_runtime::lookups::{are_handoff_lookups, HandoffLookups};
use crate::tool_runtime::project_resolution::{all_candidates, in_order, resolve};
use crate::tool_runtime::registry::ToolRuntime;
use crate::tool_runtime::session_context::SessionTransport;
use crate::tool_runtime::sessions::SessionSummary;
use crate::tool_runtime::shell_text::{quoted_words, relative_path_error};
use crate::tool_runtime::tool_work::{
    is_first_step, is_next_step, CommandWork, PathsWork, StepReply, ToolStep,
};
use vstd::prelude::*;

verus! {

// ---------------------------------------------------------------------------
// Paths
// ---------------------------------------------------------------------------

/// Whether `word` is the component of the path at `i`: it stands between slashes or ends.
pub open spec fn is_component_at(path: Seq<char>, word: Seq<char>, i: int) -> bool {
    &&& 0 <= i <= i + word.len() <= path.len()
    &&& path.subrange(i, i + word.len()) == word
    &&& i == 0 || path[i - 1] == '/'
    &&& i + word.len() == path.len() || path[i + word.len()] == '/'
}

proof fn lemma_component_is_piece(path: Seq<char>, word: Seq<char>, i: int)
    requires
        is_component_at(path, word, i),
        !word.contains('/'),
    ensures
        split_at_char(path, '/').contains(word),
    decreases path.len(),
{
    let k = index_of(path, '/');
    let all = split_at_char(path, '/');
    lemma_index_of(path, '/');
    let j = i + word.len();
    assert forall|n: int| i <= n < j implies path[n] != '/' by {
        assert(path.subrange(i, j)[n - i] == path[n]);
        assert(word.contains(word[n - i]));
    }
    if k >= path.len() {
        if i > 0 {
            assert(path[i - 1] == '/');
        }
        if j < path.len() {
            assert(path[j] == '/');
        }
        assert(path.subrange(0, path.len() as int) =~= path);
        assert(all[0] == word);
    } else if i == 0 {
        if j < k {
            assert(path[j] == '/');
        }
        if j > k {
            assert(path[k] != '/');
        }
        assert(path.take(k) =~= path.subrange(0, j));
        assert(all[0] == word);
    } else {
        let rest = path.skip(k + 1);
        assert(path[i - 1] == '/');
        assert(i - 1 >= k) by {
            if i - 1 < k {
                assert(path[i - 1] != '/');
            }
        }
        let m = i - k - 1;
        assert(rest.subrange(m, m + word.len()) =~= path.subrange(i, j));
        if m > 0 {
            assert(rest[m - 1] == path[i - 1]);
        }
        if m + word.len() < rest.len() {
            assert(rest[m + word.len()] == path[j]);
        }
        lemma_component_is_piece(rest, word, m);
        let tail = split_at_char(rest, '/');
        let n = choose|n: int| 0 <= n < tail.len() && tail[n] == word;
        assert(all[n + 1] == word);
    }
}

proof fn lemma_piece_is_component(path: Seq<char>, n: int) -> (i: int)
    requires
        0 <= n < split_at_char(path, '/').len(),
    ensures
        is_component_at(path, split_at_char(path, '/')[n], i),
    decreases path.len(),
{
    let k = index_of(path, '/');
    let all = split_at_char(path, '/');
    lemma_index_of(path, '/');
    if k >= path.len() {
        assert(path.subrange(0, path.len() as int) =~= path);
        0
    } else if n == 0 {
        assert(path.subrange(0, k) =~= path.take(k));
        0
    } else {
        let rest = path.skip(k + 1);
        let tail = split_at_char(rest, '/');
        assert(all[n] == tail[n - 1]);
        let m = lemma_piece_is_component(rest, n - 1);
        let w = all[n];
        let i = m + k + 1;
        assert(path.subrange(i, i + w.len()) =~= rest.subrange(m, m + w.len()));
        if m > 0 {
            assert(rest[m - 1] == path[i - 1]);
        }
        if m + w.len() < rest.len() {
            assert(rest[m + w.len()] == path[i + w.len()]);
        }
        i
    }
}

/// A path is taken exactly where it stays inside the project: it says something, holds no
/// NUL, does not start at the root, and has no component that leads upwards.
pub proof fn law_paths_stay_inside(path: Seq<char>)
    ensures
        relative_path_error(path) is None <==> {
            let p = trim(path);
            &&& p.len() > 0
            &&& !p.contains('\0')
            &&& p[0] != '/'
            &&& forall|i: int| !#[trigger] is_component_at(p, ".."@, i)
        },
{
    let p = trim(path);
    let up = ".."@;
    reveal_strlit("..");
    reveal_strlit("/");
    assert(up.len() == 2 && up[0] == '.' && up[1] == '.');
    assert("/"@.len() == 1 && "/"@[0] == '/');
    assert(!up.contains('/'));
    if p.len() > 0 {
        if p[0] == '/' {
            assert(p.subrange(0, 1) =~= "/"@);
        }
        if "/"@.is_prefix_of(p) {
            assert(p.subrange(0, 1)[0] == '/');
        }
    }
    let pieces = split_at_char(p, '/');
    if pieces.contains(up) {
        let n = choose|n: int| 0 <= n < pieces.len() && pieces[n] == up;
        let i = lemma_piece_is_component(p, n);
        assert(is_component_at(p, up, i));
    }
    assert forall|i: int| #[trigger] is_component_at(p, up, i) implies pieces.contains(up) by {
        lemma_component_is_piece(p, up, i);
    }
}

/// One more path to diff is complained of where it leads out of the project or names the
/// project itself, unless an earlier one was; and it is looked at once, without what says
/// that it is relative or a directory.
pub proof fn law_diff_paths(paths: Seq<Seq<char>>, path: Seq<char>)
    ensures
        diff_paths_error(paths) is Some ==> diff_paths_error(paths.push(path))
            == diff_paths_error(paths),
        diff_paths_error(paths) is None ==> diff_paths_error(paths.push(path)) == diff_path_error(
            path,
        ),
        diff_paths_error(Seq::<Seq<char>>::empty()) is None,
        relative_path_error(path) is Some ==> diff_path_error(path) is Some,
        diff_path_error(path) is None ==> plain_path(path).len() > 0 && plain_path(path) != "."@,
        plain_paths(paths.push(path)).contains(plain_path(path)),
        plain_paths(paths).contains(plain_path(path)) ==> plain_paths(paths.push(path))
            == plain_paths(paths),
        !plain_paths(paths).contains(plain_path(path)) ==> plain_paths(paths.push(path))
            == plain_paths(paths).push(plain_path(path)),
{
    let all = paths.push(path);
    assert(all.drop_last() =~= paths);
    assert(all.last() == path);
    let before = plain_paths(paths);
    if !before.contains(plain_path(path)) {
        assert(before.push(plain_path(path))[before.len() as int] == plain_path(path));
    }
}

// ---------------------------------------------------------------------------
// Commands
// ---------------------------------------------------------------------------

/// What the git tools run: the status, the diff of all or of the words that are given, and
/// the restoring and discarding of paths, each path as one word.
pub proof fn law_git_commands(args: Vec<String>, paths: Seq<Seq<char>>)
    ensures
        CommandWork::Status.script() == "git status --porcelain"@,
        args@.len() == 0 ==> (CommandWork::Diff { args }).script() == "git diff"@,
        args@.len() > 0 ==> (CommandWork::Diff { args }).script() == "git diff -- "@
            + quoted_words(texts(args@)),
        PathsWork::Restore.script(paths) == "git restore -- "@ + quoted_words(paths),
        PathsWork::Discard.script(paths) == "git clean -f -- "@ + quoted_words(paths),
{
}

// ---------------------------------------------------------------------------
// First steps
// ---------------------------------------------------------------------------

/// Whether a call is one of the git tools that only look.
pub open spec fn is_git_look(kind: ToolKind) -> bool {
    kind == ToolKind::GitStatus || kind == ToolKind::GitDiff || kind == ToolKind::GitDiffHunks
        || kind == ToolKind::GitDiffSummary || kind == ToolKind::ShowChanges
}

/// The git tools that only look run their command in the project that the call names; the
/// hunks of a diff are refused where a path is complained of.
pub proof fn law_git_looks_run(
    call: ToolCall,
    clients: Seq<ClientViewModel>,
    runtime: ToolRuntime,
    auth: Option<AuthModel>,
    transport: SessionTransport,
    r: ToolStep,
)
    requires
        is_first_step(call, clients, runtime, auth, transport, r),
        is_git_look(call.kind),
    ensures
        call.kind == ToolKind::GitStatus ==> r is RunCommand && r->work is Status,
        call.kind == ToolKind::GitDiff ==> r is RunCommand && r->work is Diff,
        call.kind == ToolKind::GitDiffSummary ==> r is RunCommand && r->work is Summary,
        call.kind == ToolKind::ShowChanges ==> r is RunCommand && r->work is Changes && opt_text(
            r->work->session_id,
        ) == opt_text(call.session_id),
        call.kind == ToolKind::GitDiffHunks ==> (r is Answer && !r->Answer_0.success) || (r
            is RunCommand && r->work is Hunks),
        r is RunCommand ==> r->RunCommand_project@ == call.project->0@,
{
}

/// Lists are answered at once, and so is a call that would have Codex run: with a refusal.
pub proof fn law_lists_are_answered(
    call: ToolCall,
    clients: Seq<ClientViewModel>,
    runtime: ToolRuntime,
    auth: Option<AuthModel>,
    transport: SessionTransport,
    r: ToolStep,
)
    requires
        is_first_step(call, clients, runtime, auth, transport, r),
        call.kind == ToolKind::ListTools || call.kind == ToolKind::ListProjects || call.kind
            == ToolKind::ListAgents || call.kind == ToolKind::ToolManifest || call.kind
            == ToolKind::RunCodex,
    ensures
        r is Answer,
        r->Answer_0.success == (call.kind != ToolKind::RunCodex),
{
}

/// What is about a session goes to the session that the call names.
pub proof fn law_session_calls_go_to_their_session(
    call: ToolCall,
    clients: Seq<ClientViewModel>,
    runtime: ToolRuntime,
    auth: Option<AuthModel>,
    transport: SessionTransport,
    r: ToolStep,
)
    requires
        is_first_step(call, clients, runtime, auth, transport, r),
        call.kind == ToolKind::SessionSummary || call.kind == ToolKind::PostSessionMessage
            || call.kind == ToolKind::ListSessionMessages || call.kind
            == ToolKind::ResolveSessionMessage || call.kind == ToolKind::SessionHandoffSummary,
    ensures
        call.kind == ToolKind::SessionSummary ==> r is SummarizeSession && Some(
            r->SummarizeSession_session_id,
        ) == call.session_id,
        call.kind == ToolKind::PostSessionMessage ==> r is PostMessage && Some(
            r->PostMessage_session_id,
        ) == call.session_id && r->PostMessage_arguments == call.arguments,
        call.kind == ToolKind::ListSessionMessages ==> r is ListMessages && Some(
            r->ListMessages_session_id,
        ) == call.session_id,
        call.kind == ToolKind::ResolveSessionMessage ==> r is ResolveMessage && Some(
            r->ResolveMessage_session_id,
        ) == call.session_id,
        call.kind == ToolKind::SessionHandoffSummary ==> r is FindHandoff && Some(
            r->FindHandoff_session_id,
        ) == call.session_id && r->FindHandoff_project == call.project,
{
}

/// Paths are checked before anything is restored or discarded, the runtime is told with the
/// clients that the caller sees, and tools that an agent carries out are handed on as they
/// are.
pub proof fn law_other_calls_go_on(
    call: ToolCall,
    clients: Seq<ClientViewModel>,
    runtime: ToolRuntime,
    auth: Option<AuthModel>,
    transport: SessionTransport,
    r: ToolStep,
)
    requires
        is_first_step(call, clients, runtime, auth, transport, r),
        call.kind == ToolKind::GitRestorePaths || call.kind == ToolKind::DiscardUntracked
            || call.kind == ToolKind::RuntimeStatus || call.kind == ToolKind::RunShell || call.kind
            == ToolKind::ReadFile || call.kind == ToolKind::ApplyPatch || call.kind
            == ToolKind::RunJob,
    ensures
        call.kind == ToolKind::GitRestorePaths ==> r is CheckPaths && r->CheckPaths_paths_work
            == PathsWork::Restore && Some(r->CheckPaths_project) == call.project,
        call.kind == ToolKind::DiscardUntracked ==> r is CheckPaths && r->CheckPaths_paths_work
            == PathsWork::Discard && Some(r->CheckPaths_project) == call.project,
        call.kind == ToolKind::RuntimeStatus ==> r is TellRuntime && views(
            r->TellRuntime_clients@,
        ) == clients,
        (call.kind == ToolKind::RunShell || call.kind == ToolKind::ReadFile || call.kind
            == ToolKind::ApplyPatch || call.kind == ToolKind::RunJob) ==> r == ToolStep::Perform(
            call,
        ),
{
}

/// A call for the current session of a project, or for a session in a project, is answered
/// with the complaint where no project is meant.
pub proof fn law_project_has_to_be_meant(
    call: ToolCall,
    clients: Seq<ClientViewModel>,
    runtime: ToolRuntime,
    auth: Option<AuthModel>,
    transport: SessionTransport,
    r: ToolStep,
)
    requires
        is_first_step(call, clients, runtime, auth, transport, r),
        call.project is Some,
        call.kind == ToolKind::StartSession || call.kind == ToolKind::BindCurrentSession || call.kind
            == ToolKind::CurrentSession || call.kind == ToolKind::UnbindCurrentSession,
    ensures
        ({
            let meant = resolve(call.project->0@, in_order(all_candidates(clients)));
            &&& meant is Err ==> r is Answer && !r->Answer_0.success
            &&& meant is Ok && call.kind == ToolKind::StartSession ==> r is StartSession
                && r->StartSession_resolved is Some && r->StartSession_resolved->0.resolved_id@
                == meant->Ok_0.resolved_id
            &&& meant is Ok && call.kind == ToolKind::BindCurrentSession ==> r is InspectForBinding
                && r->InspectForBinding_session_id@ == call.session_id->0@
                && r->InspectForBinding_resolved@ == meant->Ok_0.resolved_id
        }),
{
}

// ---------------------------------------------------------------------------
// Next steps
// ---------------------------------------------------------------------------

/// What came of a step is what the call answers: the session that was started, the summary
/// and the messages of a session, and the output of a command, with its exit code.
pub proof fn law_replies_are_answered(
    step: ToolStep,
    reply: StepReply,
    auth: Option<AuthModel>,
    transport: SessionTransport,
    r: ToolStep,
)
    requires
        is_next_step(step, reply, auth, transport, r),
    ensures
        step is StartSession && reply is SessionStarted ==> r is Answer && r->Answer_0.success
            && r->Answer_0.output@.at("session_id"@) == Tree::Text(reply->session.session_id@),
        step is SummarizeSession && reply is SessionSummed && reply->SessionSummed_0 is Some ==> r
            is Answer && r->Answer_0.success && r->Answer_0.output@
            == reply->SessionSummed_0->0@,
        step is SummarizeSession && reply is SessionSummed && reply->SessionSummed_0 is None ==> r
            is Answer && !r->Answer_0.success,
        step is ListMessages && reply is Messages && reply->Messages_0 is Ok ==> r is Answer
            && r->Answer_0.success && r->Answer_0.output@.at("messages"@)
            == reply->Messages_0->Ok_0@,
        step is RunCommand && step->work is Status && reply is Ran && reply->outcome is Finished
            ==> r is Answer && r->Answer_0.success && r->Answer_0.output@.at("stdout"@)
            == match reply->outcome->stdout {
            Some(s) => Tree::Text(s@),
            None => Tree::Null,
        },
        step is RunCommand && reply is Ran && reply->outcome is TimedOut ==> r is Answer
            && !r->Answer_0.success && r->Answer_0.error is Some && r->Answer_0.error->0@
            == "timed out"@,
        step is RunCommand && reply is Ran && reply->outcome is Dropped ==> r is Answer
            && !r->Answer_0.success,
        step is RunCommand && (step->work is Hunks || step->work is Changes) && reply is Ran
            && reply->outcome is Finished ==> r is Answer && r->Answer_0.success == (
        reply->outcome->exit_code == Some(0i32)),
        step is RunOnPaths && reply is RanOnPaths ==> r is Answer && r->Answer_0.success
            == reply->RanOnPaths_0.success,
        step is FindHandoff && reply is HandoffFound && reply->found is None ==> r is Answer
            && !r->Answer_0.success,
        step is GatherHandoff && reply is HandoffGathered && r is Answer ==> r->Answer_0.success,
        step is Perform ==> r == step,
{
    if step is StartSession && reply is SessionStarted {
        crate::tool_runtime::call_laws::law_started_session_is_told(
            crate::text::opt_view(step->StartSession_resolved),
            reply->session,
            reply->instructions@,
        );
    }
    if step is ListMessages && reply is Messages && reply->Messages_0 is Ok {
        broadcast use lemma_find_push;

    reveal_strlit("success");
    reveal_strlit("session_id");
    reveal_strlit("messages");
    assert("success"@.len() == 7);
    assert("session_id"@.len() == 10);
    assert("messages"@.len() == 8);
    }
    if step is RunCommand && step->work is Status && reply is Ran {
        crate::tool_runtime::git_laws::law_plain_result_is_told(reply->outcome);
    }
}

/// A handoff looks at as much as was planned: so many events and messages, ten failed calls
/// and active jobs, twenty permissions, and 200 events for the validation.
pub proof fn law_handoff_lookups(
    plan: HandoffPlan,
    project: Option<Seq<char>>,
    of_jobs: Option<Seq<char>>,
    l: HandoffLookups,
)
    requires
        are_handoff_lookups(plan, project, of_jobs, l),
    ensures
        l.session_events == plan.limit,
        l.messages == plan.limit,
        l.failed_tools == 10,
        l.permissions == 20,
        l.jobs.limit == 10,
        opt_text(l.jobs.project) == of_jobs,
        plan.workspace && project is Some ==> l.changes is Some && l.changes->0.project@
            == project->0 && !l.changes->0.include_diff && l.changes->0.session_id is None,
        !plan.workspace ==> l.changes is None,
        plan.checkpoints && project is Some ==> l.checkpoints is Some && l.checkpoints->0.limit
            == plan.limit && opt_text(l.checkpoints->0.project) == project,
        !plan.checkpoints ==> l.checkpoints is None,
        plan.validation ==> l.validation_events == Some(200usize),
        !plan.validation ==> l.validation_events is None,
{
}

/// The overview of the changes tells of the session that was asked for, where it is found;
/// says that it is not, and warns of it, where it is not; and tells of none where none was
/// asked for.
pub proof fn law_overview_tells_session(
    output: Tree,
    session_id: Option<Seq<char>>,
    summary: Option<SessionSummary>,
)
    requires
        output is Object,
        output.at("warnings"@) is Array,
    ensures
        ({
            let t = with_session(output, session_id, summary);
            let s = t.at("session"@);
            &&& session_id is None ==> s == Tree::Null
            &&& session_id is Some && summary is Some ==> {
                &&& s.at("found"@) == Tree::Bool(true)
                &&& s.at("session_id"@) == Tree::Text(summary->0.session_id@)
                &&& s.at("counts"@) == summary->0.counts@
            }
            &&& session_id is Some && summary is None ==> {
                &&& s.at("found"@) == Tree::Bool(false)
                &&& s.at("session_id"@) == Tree::Text(session_id->0)
                &&& t.at("warnings"@) is Array
                &&& t.at("warnings"@)->Array_0.len() == output.at("warnings"@)->Array_0.len() + 1
                &&& t.at("warnings"@)->Array_0.last().at("kind"@) == Tree::Text(
                    "session_not_found"@,
                )
            }
            &&& t.at("clean"@) == output.at("clean"@)
            &&& t.at("files"@) == output.at("files"@)
        }),
{
    reveal_strlit("session");
    reveal_strlit("warnings");
    reveal_strlit("suggested_next_actions");
    reveal_strlit("clean");
    reveal_strlit("files");
    assert("session"@.len() == 7);
    assert("warnings"@.len() == 8);
    assert("suggested_next_actions"@.len() == 22);
    assert("clean"@.len() == 5 && "clean"@[0] == 'c');
    assert("files"@.len() == 5 && "files"@[0] == 'f');
    let told = with_session(output, session_id, summary);
    let s = if session_id is None {
        Tree::Null
    } else if summary is Some {
        session_tree(summary->0)
    } else {
        Tree::Object(
            crate::json::no_fields()
                .push(crate::json::field("found"@, Tree::Bool(false)))
                .push(crate::json::field("session_id"@, Tree::Text(session_id->0)))
                .push(crate::json::field("message"@, Tree::Text("session not found"@))),
        )
    };
    let a = output.put("session"@, s);
    law_put_get(output, "session"@, s, "session"@);
    law_put_get(output, "session"@, s, "warnings"@);
    law_put_get(output, "session"@, s, "clean"@);
    law_put_get(output, "session"@, s, "files"@);
    lemma_session_told(session_id, summary);
    if session_id is Some && summary is Some {
        let b = with_suggestions(a, Some(signals_of(summary->0)));
        let v = b.at("suggested_next_actions"@);
        lemma_suggestions_keep(a, Some(signals_of(summary->0)));
    } else if session_id is Some {
        let w = Tree::Object(
            crate::json::no_fields()
                .push(crate::json::field("kind"@, Tree::Text("session_not_found"@)))
                .push(crate::json::field("session_id"@, Tree::Text(session_id->0)))
                .push(crate::json::field("message"@, Tree::Text("session not found"@))),
        );
        let b = with_warning(a, w);
        assert(a.get("warnings"@) == output.get("warnings"@));
        assert(a.get("warnings"@) is Some);
        let more = a.at("warnings"@).push(w);
        assert(b == a.put("warnings"@, more));
        law_put_get(a, "warnings"@, more, "warnings"@);
        law_put_get(a, "warnings"@, more, "session"@);
        law_put_get(a, "warnings"@, more, "clean"@);
        law_put_get(a, "warnings"@, more, "files"@);
        lemma_suggestions_keep(b, None);
        assert(w.at("kind"@) == Tree::Text("session_not_found"@)) by {
            broadcast use lemma_find_push;

    reveal_strlit("kind");
    reveal_strlit("session_id");
    reveal_strlit("message");
    assert("kind"@.len() == 4);
    assert("session_id"@.len() == 10);
    assert("message"@.len() == 7);
        }
        assert(told == with_suggestions(b, None));
    }
}

proof fn lemma_session_told(session_id: Option<Seq<char>>, summary: Option<SessionSummary>)
    ensures
        summary is Some ==> {
            let t = session_tree(summary->0);
            &&& t.at("found"@) == Tree::Bool(true)
            &&& t.at("session_id"@) == Tree::Text(summary->0.session_id@)
            &&& t.at("counts"@) == summary->0.counts@
        },
        session_id is Some ==> {
            let t = Tree::Object(
                crate::json::no_fields()
                    .push(crate::json::field("found"@, Tree::Bool(false)))
                    .push(crate::json::field("session_id"@, Tree::Text(session_id->0)))
                    .push(crate::json::field("message"@, Tree::Text("session not found"@))),
            );
            t.at("found"@) == Tree::Bool(false) && t.at("session_id"@) == Tree::Text(session_id->0)
        },
{
    broadcast use lemma_find_push;

    reveal_strlit("found");
    reveal_strlit("session_id");
    reveal_strlit("project");
    reveal_strlit("title");
    reveal_strlit("created_at");
    reveal_strlit("updated_at");
    reveal_strlit("counts");
    reveal_strlit("changed_paths");
    reveal_strlit("recent_events");
    reveal_strlit("message");
    assert("found"@.len() == 5 && "found"@[0] == 'f');
    assert("session_id"@.len() == 10 && "session_id"@[0] == 's');
    assert("project"@.len() == 7 && "project"@[0] == 'p');
    assert("title"@.len() == 5 && "title"@[0] == 't');
    assert("created_at"@.len() == 10 && "created_at"@[0] == 'c');
    assert("updated_at"@.len() == 10 && "updated_at"@[0] == 'u');
    assert("counts"@.len() == 6);
    assert("changed_paths"@.len() == 13 && "changed_paths"@[0] == 'c');
    assert("recent_events"@.len() == 13 && "recent_events"@[0] == 'r');
    assert("message"@.len() == 7 && "message"@[0] == 'm');
}

proof fn lemma_suggestions_keep(
    output: Tree,
    session: Option<crate::tool_runtime::changes::SessionActionSignals>,
)
    requires
        output is Object,
    ensures
        ({
            let t = with_suggestions(output, session);
            &&& t.get("session"@) == output.get("session"@)
            &&& t.get("warnings"@) == output.get("warnings"@)
            &&& t.get("clean"@) == output.get("clean"@)
            &&& t.get("files"@) == output.get("files"@)
        }),
{
    reveal_strlit("session");
    reveal_strlit("warnings");
    reveal_strlit("suggested_next_actions");
    reveal_strlit("clean");
    reveal_strlit("files");
    assert("session"@.len() == 7);
    assert("warnings"@.len() == 8);
    assert("suggested_next_actions"@.len() == 22);
    assert("clean"@.len() == 5 && "clean"@[0] == 'c');
    assert("files"@.len() == 5 && "files"@[0] == 'f');
    let told = with_suggestions(output, session);
    let v = text_trees(
        crate::tool_runtime::changes::next_actions(
            output.at("clean"@).as_bool() == Some(true),
            crate::tool_runtime::changes::counts_some(output.at("counts"@), "untracked"@),
            crate::tool_runtime::changes::warns_of_smoke(output.at("warnings"@).items()),
            session,
        ),
    );
    assert(told == output.put("suggested_next_actions"@, v));
    law_put_get(output, "suggested_next_actions"@, v, "session"@);
    law_put_get(output, "suggested_next_actions"@, v, "warnings"@);
    law_put_get(output, "suggested_next_actions"@, v, "clean"@);
    law_put_get(output, "suggested_next_actions"@, v, "files"@);
}

} // verus!
