//! What the git tools read out of the output of git, and what they tell of it.
use crate::cut::{byte_skip, cut_at, pieces, trim_end_set, trim_set, trim_start_set};
use crate::json::{lemma_find_push, text_trees, Tree};
use crate::lines::lines_of;
use crate::shell_client::invariants::lemma_trim_tight;
use crate::shell_client::jobs::{char_bytes, lemma_byte_len_first};
use crate::text::{
    after_prefix, byte_len, find_from, has_text, is_space, lemma_find_from, occurs_at, texts, trim,
};
use crate::tool_runtime::actions::with_if;
use crate::tool_runtime::changes::{
    changed_files, changed_tree, counts_tree, head_tree, next_actions, overview, overview_tree,
    staged_files, unstaged_files, untracked_warnings, with_status, SessionActionSignals,
};
use crate::tool_runtime::diff::read_diff;
use crate::tool_runtime::git::{
    bare_path, branch_of, changed_file, diff_summary_parts, diff_words, porcelain_line_path,
    porcelain_paths, show_changes_parts, ChangedModel, PorcelainKind, SHOW_CHANGES_SENTINEL,
};
use crate::tool_runtime::git_tools::{
    changes_planned, changes_result, hunks_planned, hunks_result, paths_result, plain_result,
    summary_result, within, CommandOutcome, DiffHunksPlan, ShowChangesPlan,
};
use crate::tool_runtime::shell_text::{shell_reads, law_shell_quoting};
use crate::tool_runtime::types::{CommandOutput, ToolModel};
use vstd::prelude::*;

verus! {

broadcast use lemma_find_push;

// ---------------------------------------------------------------------------
// Status lines
// ---------------------------------------------------------------------------

/// Whether a path stands in a status line as it is: it says something, and has neither
/// white space nor quotes around it.
pub open spec fn is_bare(path: Seq<char>) -> bool {
    &&& path.len() > 0
    &&& !is_space(path[0]) && path[0] != '"'
    &&& !is_space(path.last()) && path.last() != '"'
}

/// Whether the two characters are ones that git writes in front of a path.
pub open spec fn are_marks(x: char, y: char) -> bool {
    &&& x == ' ' || x == 'M' || x == 'T' || x == 'A' || x == 'D' || x == 'R' || x == 'C' || x
        == 'U' || x == '?'
    &&& y == ' ' || y == 'M' || y == 'T' || y == 'A' || y == 'D' || y == 'R' || y == 'C' || y
        == 'U' || y == '?'
}

/// The state that the two characters stand for.
pub open spec fn is_state(x: char, y: char, state: Seq<char>) -> bool {
    &&& x == '?' && y == '?' ==> state == "untracked"@
    &&& !(x == '?' && y == '?') && (x == 'R' || y == 'R') ==> state == "renamed"@
    &&& x != 'R' && y != 'R' && (x == 'C' || y == 'C') ==> state == "copied"@
    &&& x != 'R' && y != 'R' && x != 'C' && y != 'C' && (x == 'D' || y == 'D') ==> state
        == "deleted"@
    &&& x != 'R' && y != 'R' && x != 'C' && y != 'C' && x != 'D' && y != 'D' && (x == 'A' || y
        == 'A') ==> state == "added"@
    &&& (x == ' ' || x == 'M' || x == 'T' || x == 'U') && (y == ' ' || y == 'M' || y == 'T' || y
        == 'U') ==> state == "modified"@
}

proof fn lemma_bare(path: Seq<char>)
    requires
        is_bare(path),
    ensures
        trim(path) == path,
        bare_path(path) == path,
{
    lemma_trim_tight(path);
    reveal_strlit("\"");
    let set = "\""@;
    assert(set.len() == 1 && set[0] == '"');
    assert(!set.contains(path[0]));
    assert(!set.contains(path.last()));
    assert(trim_start_set(path, set) == path);
    assert(trim_end_set(path, set) == path);
}

proof fn lemma_marked_line(x: char, y: char, rest: Seq<char>)
    requires
        are_marks(x, y),
        rest.len() > 0,
    ensures
        ({
            let line = seq![x, y, ' '] + rest;
            &&& byte_skip(line, 3) == Some(rest)
            &&& byte_len(line) >= 4
            &&& branch_of(line) is None
            &&& line[0] == x && line[1] == y
        }),
{
    let line = seq![x, y, ' '] + rest;
    let a = line.skip(1);
    let b = a.skip(1);
    let c = b.skip(1);
    assert(c =~= rest);
    assert(line[0] == x && a[0] == y && b[0] == ' ');
    assert(char_bytes(x) == 1 && char_bytes(y) == 1 && char_bytes(' ') == 1);
    lemma_byte_len_first(line);
    lemma_byte_len_first(a);
    lemma_byte_len_first(b);
    lemma_byte_len_first(rest);
    assert(char_bytes(rest[0]) >= 1);
    assert(byte_skip(rest, 0) == Some(rest));
    assert(byte_skip(b, 1) == Some(rest));
    assert(byte_skip(a, 2) == Some(rest));
    reveal_strlit("## ");
    if "## "@.is_prefix_of(line) {
        assert(line.subrange(0, 3)[0] == '#');
    }
}

/// A line of a status names the file that stands behind its two marks, and says what
/// became of it: in the index by the first mark, outside of it by the second.
pub proof fn law_status_line_is_read(x: char, y: char, path: Seq<char>)
    requires
        are_marks(x, y),
        is_bare(path),
        !has_text(path, " -> "@),
    ensures
        ({
            let line = seq![x, y, ' '] + path;
            let f = changed_file(line)->0;
            &&& changed_file(line) is Some
            &&& f.path == path
            &&& f.old_path is None
            &&& is_state(x, y, f.status)
            &&& f.untracked == (x == '?' && y == '?')
            &&& f.staged == (x != ' ' && x != '?')
            &&& f.unstaged == (y != ' ' && y != '?')
            &&& porcelain_line_path(line) == Some(path)
        }),
{
    lemma_marked_line(x, y, path);
    lemma_bare(path);
    lemma_find_from(path, " -> "@, 0);
    assert forall|i: int| !occurs_at(path, " -> "@, i) by {}
}

/// A line of a status that names two files with an arrow between them says that the first
/// was renamed or copied to the second.
pub proof fn law_renamed_status_line_is_read(
    x: char,
    y: char,
    from: Seq<char>,
    to: Seq<char>,
)
    requires
        are_marks(x, y),
        is_bare(from),
        is_bare(to),
        !from.contains('>'),
    ensures
        ({
            let line = seq![x, y, ' '] + from + " -> "@ + to;
            let f = changed_file(line)->0;
            &&& changed_file(line) is Some
            &&& f.path == to
            &&& f.old_path == Some(from)
            &&& is_state(x, y, f.status)
            &&& f.staged == (x != ' ' && x != '?')
            &&& f.unstaged == (y != ' ' && y != '?')
            &&& porcelain_line_path(line) == Some(to)
        }),
{
    let arrow = " -> "@;
    reveal_strlit(" -> ");
    assert(arrow.len() == 4 && arrow[2] == '>');
    let part = from + arrow + to;
    let line = seq![x, y, ' '] + from + arrow + to;
    assert(line =~= seq![x, y, ' '] + part);
    lemma_marked_line(x, y, part);
    assert(part[0] == from[0]);
    assert(part.last() == to.last());
    lemma_bare(part);
    lemma_bare(from);
    lemma_bare(to);
    let k = from.len() as int;
    assert(part.subrange(k, k + 4) =~= arrow);
    assert(occurs_at(part, arrow, k));
    assert forall|i: int| 0 <= i < k implies !occurs_at(part, arrow, i) by {
        if occurs_at(part, arrow, i) {
            assert(part.subrange(i, i + 4)[2] == '>');
            assert(part[i + 2] == '>');
            if i + 2 < k {
                assert(from[i + 2] == '>');
            } else if i + 2 < k + 4 {
                assert(part[i + 2] == arrow[i + 2 - k]);
                assert(arrow[0] == ' ' && arrow[1] == '-');
            }
        }
    }
    lemma_find_from(part, arrow, 0);
    assert(part.take(k) =~= from);
    assert(part.skip(k + 4) =~= to);
    assert(cut_at(part, arrow) == Some((from, to)));
}

/// A line that says that a file is ignored, or that names the branch, names no changed
/// file.
pub proof fn law_other_status_lines_name_no_file(line: Seq<char>)
    requires
        (line.len() >= 2 && line[0] == '!' && line[1] == '!') || branch_of(line) is Some,
    ensures
        changed_file(line) is None,
{
}

/// The line of a status that names the branch names it in front of three dots, where there
/// are any.
pub proof fn law_branch_is_read(branch: Seq<char>, rest: Seq<char>)
    requires
        is_bare(branch),
        !branch.contains('.'),
    ensures
        branch_of("## "@ + branch) == Some(branch),
        branch_of("## "@ + branch + "..."@ + rest) == Some(branch),
{
    lemma_branch_line(branch);
    lemma_branch_line(branch + "..."@ + rest);
    assert("## "@ + (branch + "..."@ + rest) =~= "## "@ + branch + "..."@ + rest);
    lemma_bare(branch);
    lemma_dots(branch, rest);
}

proof fn lemma_branch_line(s: Seq<char>)
    ensures
        after_prefix("## "@ + s, "## "@) == Some(s),
{
    reveal_strlit("## ");
    let a = "## "@ + s;
    assert(a.subrange(0, 3) =~= "## "@);
    assert(a.skip(3) =~= s);
}

proof fn lemma_dots(branch: Seq<char>, rest: Seq<char>)
    requires
        !branch.contains('.'),
    ensures
        cut_at(branch, "..."@) is None,
        cut_at(branch + "..."@ + rest, "..."@) == Some((branch, rest)),
{
    let dots = "..."@;
    reveal_strlit("...");
    assert(dots.len() == 3 && dots[0] == '.');
    let s = branch + dots + rest;
    assert forall|i: int| !occurs_at(branch, dots, i) by {
        if occurs_at(branch, dots, i) {
            assert(branch.subrange(i, i + 3)[0] == '.');
            assert(branch[i] == '.');
        }
    }
    lemma_find_from(branch, dots, 0);
    let k = branch.len() as int;
    assert(s.subrange(k, k + 3) =~= dots);
    assert(occurs_at(s, dots, k));
    assert forall|i: int| 0 <= i < k implies !occurs_at(s, dots, i) by {
        if occurs_at(s, dots, i) {
            assert(s.subrange(i, i + 3)[0] == '.');
            assert(branch[i] == '.');
        }
    }
    lemma_find_from(s, dots, 0);
    assert(s.take(k) =~= branch);
    assert(s.skip(k + 3) =~= rest);
}

/// One more line of a status adds the file that it names, and nothing else.
pub proof fn law_status_lines_add_up(lines: Seq<Seq<char>>, line: Seq<char>)
    ensures
        changed_file(line) is Some ==> changed_files(lines.push(line)) == changed_files(lines).push(
            changed_file(line)->0,
        ),
        changed_file(line) is None ==> changed_files(lines.push(line)) == changed_files(lines),
        changed_files(Seq::<Seq<char>>::empty()).len() == 0,
        porcelain_paths(lines.push(line), PorcelainKind::All).len() == porcelain_paths(
            lines,
            PorcelainKind::All,
        ).len() + (if porcelain_line_path(line) is Some {
            1int
        } else {
            0int
        }),
        porcelain_line_path(line) is Some ==> {
            let path = porcelain_line_path(line)->0;
            let all = porcelain_paths(lines.push(line), PorcelainKind::All);
            let known = porcelain_paths(lines.push(line), PorcelainKind::Known);
            let untracked = porcelain_paths(lines.push(line), PorcelainKind::Untracked);
            let ignored = porcelain_paths(lines.push(line), PorcelainKind::Ignored);
            let new = line.len() >= 2 && line[0] == '?' && line[1] == '?';
            let left = line.len() >= 2 && line[0] == '!' && line[1] == '!';
            &&& all == porcelain_paths(lines, PorcelainKind::All).push(path)
            &&& untracked == if new {
                porcelain_paths(lines, PorcelainKind::Untracked).push(path)
            } else {
                porcelain_paths(lines, PorcelainKind::Untracked)
            }
            &&& ignored == if left {
                porcelain_paths(lines, PorcelainKind::Ignored).push(path)
            } else {
                porcelain_paths(lines, PorcelainKind::Ignored)
            }
            &&& known == if !new && !left {
                porcelain_paths(lines, PorcelainKind::Known).push(path)
            } else {
                porcelain_paths(lines, PorcelainKind::Known)
            }
        },
{
    let all = lines.push(line);
    assert(all.drop_last() =~= lines);
    assert(all.last() == line);
    reveal_strlit("??");
    reveal_strlit("!!");
    let a = "??"@;
    let b = "!!"@;
    assert(a.len() == 2 && a[0] == '?' && a[1] == '?');
    assert(b.len() == 2 && b[0] == '!' && b[1] == '!');
    if line.len() >= 2 {
        if line[0] == '?' && line[1] == '?' {
            assert(line.subrange(0, 2) =~= a);
        }
        if line[0] == '!' && line[1] == '!' {
            assert(line.subrange(0, 2) =~= b);
        }
        if a.is_prefix_of(line) {
            assert(line.subrange(0, 2)[0] == '?' && line.subrange(0, 2)[1] == '?');
        }
        if b.is_prefix_of(line) {
            assert(line.subrange(0, 2)[0] == '!' && line.subrange(0, 2)[1] == '!');
        }
    }
}

// ---------------------------------------------------------------------------
// The overview of the changes
// ---------------------------------------------------------------------------

/// One more file is counted under its status, and where it is staged or not, and nowhere
/// else.
pub proof fn law_files_are_counted(files: Seq<ChangedModel>, f: ChangedModel)
    ensures
        ({
            let before = counts_tree(files);
            let after = counts_tree(files.push(f));
            &&& counts(after, "modified"@) == counts(before, "modified"@) + one_if(
                f.status == "modified"@,
            )
            &&& counts(after, "added"@) == counts(before, "added"@) + one_if(f.status == "added"@)
            &&& counts(after, "deleted"@) == counts(before, "deleted"@) + one_if(
                f.status == "deleted"@,
            )
            &&& counts(after, "renamed"@) == counts(before, "renamed"@) + one_if(
                f.status == "renamed"@,
            )
            &&& counts(after, "copied"@) == counts(before, "copied"@) + one_if(
                f.status == "copied"@,
            )
            &&& counts(after, "untracked"@) == counts(before, "untracked"@) + one_if(
                f.status == "untracked"@,
            )
            &&& counts(after, "staged"@) == counts(before, "staged"@) + one_if(f.staged)
            &&& counts(after, "unstaged"@) == counts(before, "unstaged"@) + one_if(f.unstaged)
        }),
        counts(counts_tree(Seq::<ChangedModel>::empty()), "modified"@) == 0,
        counts(counts_tree(Seq::<ChangedModel>::empty()), "untracked"@) == 0,
        counts(counts_tree(Seq::<ChangedModel>::empty()), "staged"@) == 0,
{
    assert(files.push(f).drop_last() =~= files);
    lemma_counts(files);
    lemma_counts(files.push(f));
    lemma_counts(Seq::<ChangedModel>::empty());
}

/// The number under a name.
pub open spec fn counts(t: Tree, name: Seq<char>) -> int {
    t.at(name)->Number_0
}

/// One where something holds.
pub open spec fn one_if(b: bool) -> int {
    if b {
        1
    } else {
        0
    }
}

proof fn lemma_counts(files: Seq<ChangedModel>)
    ensures
        ({
            let t = counts_tree(files);
            &&& counts(t, "modified"@) == with_status(files, "modified"@)
            &&& counts(t, "added"@) == with_status(files, "added"@)
            &&& counts(t, "deleted"@) == with_status(files, "deleted"@)
            &&& counts(t, "renamed"@) == with_status(files, "renamed"@)
            &&& counts(t, "copied"@) == with_status(files, "copied"@)
            &&& counts(t, "untracked"@) == with_status(files, "untracked"@)
            &&& counts(t, "staged"@) == staged_files(files)
            &&& counts(t, "unstaged"@) == unstaged_files(files)
        }),
{
    reveal_strlit("modified");
    reveal_strlit("added");
    reveal_strlit("deleted");
    reveal_strlit("renamed");
    reveal_strlit("copied");
    reveal_strlit("untracked");
    reveal_strlit("staged");
    reveal_strlit("unstaged");
    assert("modified"@.len() == 8 && "modified"@[0] == 'm');
    assert("added"@.len() == 5);
    assert("deleted"@.len() == 7 && "deleted"@[0] == 'd');
    assert("renamed"@.len() == 7 && "renamed"@[0] == 'r');
    assert("copied"@.len() == 6 && "copied"@[0] == 'c');
    assert("untracked"@.len() == 9);
    assert("staged"@.len() == 6 && "staged"@[0] == 's');
    assert("unstaged"@.len() == 8 && "unstaged"@[0] == 'u');
}

/// The overview tells of every file that the status names, in its order, and says that the
/// workspace is clean exactly where it names none.
pub proof fn law_overview_tells_status(
    project: Seq<char>,
    status: Seq<char>,
    head: Seq<char>,
    diff_stat: Seq<char>,
    diff: Option<Seq<char>>,
    max_hunks: usize,
    max_hunk_lines: usize,
    exit_code: Option<i32>,
    stderr: Seq<char>,
    i: int,
)
    ensures
        ({
            let t = overview_tree(
                project,
                status,
                head,
                diff_stat,
                diff,
                max_hunks,
                max_hunk_lines,
                exit_code,
                stderr,
            );
            let files = changed_files(lines_of(status));
            let told = t.at("files"@)->Array_0;
            &&& t.at("project"@) == Tree::Text(project)
            &&& t.at("clean"@) == Tree::Bool(files.len() == 0)
            &&& t.at("files"@) is Array && told.len() == files.len()
            &&& 0 <= i < files.len() ==> told[i] == changed_tree(files[i])
            &&& t.at("counts"@) == counts_tree(files)
            &&& t.at("head"@) == head_tree(head)
            &&& t.at("diff_stat"@) == Tree::Text(diff_stat)
            &&& t.at("stderr"@) == Tree::Text(stderr)
            &&& t.at("exit_code"@) == match exit_code {
                Some(c) => Tree::Number(c as int),
                None => Tree::Null,
            }
            &&& t.at("session"@) == Tree::Null
            &&& t.at("warnings"@) == Tree::Array(untracked_warnings(files))
            &&& (t.get("hunks"@) is Some) == (diff is Some)
            &&& diff is Some ==> {
                let s = read_diff(lines_of(diff->0), max_hunks as nat, max_hunk_lines as nat);
                &&& t.at("hunks"@) == crate::tool_runtime::diff::files_tree(s.all_files())
                &&& t.at("hunk_count"@) == Tree::Number(s.count as int)
                &&& t.at("hunks_truncated"@) == Tree::Bool(s.truncated)
            }
        }),
{
    reveal_strlit("project");
    reveal_strlit("branch");
    reveal_strlit("head");
    reveal_strlit("clean");
    reveal_strlit("counts");
    reveal_strlit("files");
    reveal_strlit("diff_stat");
    reveal_strlit("warnings");
    reveal_strlit("suggested_next_actions");
    reveal_strlit("session");
    reveal_strlit("exit_code");
    reveal_strlit("stderr");
    reveal_strlit("hunks");
    reveal_strlit("hunk_count");
    reveal_strlit("hunks_truncated");
    assert("project"@.len() == 7 && "project"@[0] == 'p');
    assert("branch"@.len() == 6 && "branch"@[0] == 'b');
    assert("head"@.len() == 4);
    assert("clean"@.len() == 5 && "clean"@[0] == 'c');
    assert("counts"@.len() == 6 && "counts"@[0] == 'c');
    assert("files"@.len() == 5 && "files"@[0] == 'f');
    assert("diff_stat"@.len() == 9 && "diff_stat"@[0] == 'd');
    assert("warnings"@.len() == 8);
    assert("suggested_next_actions"@.len() == 22);
    assert("session"@.len() == 7 && "session"@[0] == 's');
    assert("exit_code"@.len() == 9 && "exit_code"@[0] == 'e');
    assert("stderr"@.len() == 6 && "stderr"@[0] == 's');
    assert("hunks"@.len() == 5 && "hunks"@[0] == 'h');
    assert("hunk_count"@.len() == 10);
    assert("hunks_truncated"@.len() == 15);
}

/// The branch that is told is the one that the first line names, where no other line names
/// one.
pub proof fn law_overview_tells_branch(
    project: Seq<char>,
    status: Seq<char>,
    head: Seq<char>,
    diff_stat: Seq<char>,
    exit_code: Option<i32>,
    stderr: Seq<char>,
)
    requires
        lines_of(status).len() > 0,
        forall|i: int| 1 <= i < lines_of(status).len() ==> branch_of(#[trigger] lines_of(status)[i]) is None,
    ensures
        Tree::Object(overview(project, status, head, diff_stat, exit_code, stderr)).at("branch"@)
            == match branch_of(lines_of(status)[0]) {
            Some(b) => Tree::Text(b),
            None => Tree::Null,
        },
{
    reveal_strlit("project");
    reveal_strlit("branch");
    reveal_strlit("head");
    reveal_strlit("clean");
    reveal_strlit("counts");
    reveal_strlit("files");
    reveal_strlit("diff_stat");
    reveal_strlit("warnings");
    reveal_strlit("suggested_next_actions");
    reveal_strlit("session");
    reveal_strlit("exit_code");
    reveal_strlit("stderr");
    assert("project"@.len() == 7 && "project"@[0] == 'p');
    assert("branch"@.len() == 6 && "branch"@[0] == 'b');
    assert("head"@.len() == 4);
    assert("clean"@.len() == 5 && "clean"@[0] == 'c');
    assert("counts"@.len() == 6 && "counts"@[0] == 'c');
    assert("files"@.len() == 5 && "files"@[0] == 'f');
    assert("diff_stat"@.len() == 9 && "diff_stat"@[0] == 'd');
    assert("warnings"@.len() == 8);
    assert("suggested_next_actions"@.len() == 22);
    assert("session"@.len() == 7 && "session"@[0] == 's');
    assert("exit_code"@.len() == 9 && "exit_code"@[0] == 'e');
    assert("stderr"@.len() == 6 && "stderr"@[0] == 's');
    lemma_last_branch(lines_of(status));
}

proof fn lemma_last_branch(lines: Seq<Seq<char>>)
    requires
        lines.len() > 0,
        forall|i: int| 1 <= i < lines.len() ==> branch_of(#[trigger] lines[i]) is None,
    ensures
        crate::tool_runtime::changes::last_branch(lines) == branch_of(lines[0]),
    decreases lines.len(),
{
    let front = lines.drop_last();
    if lines.len() > 1 {
        assert(branch_of(lines[lines.len() - 1]) is None);
        assert forall|i: int| 1 <= i < front.len() implies branch_of(#[trigger] front[i]) is None by {
            assert(front[i] == lines[i]);
        }
        lemma_last_branch(front);
        assert(front[0] == lines[0]);
    } else {
        assert(lines.last() == lines[0]);
        assert(front =~= Seq::<Seq<char>>::empty());
        assert(crate::tool_runtime::changes::last_branch(front) is None);
    }
}

/// A changed file is told with its path, its state, and where it is staged, untracked or
/// renamed.
pub proof fn law_changed_file_is_told(f: ChangedModel)
    ensures
        ({
            let t = changed_tree(f);
            &&& t.at("path"@) == Tree::Text(f.path)
            &&& t.at("status"@) == Tree::Text(f.status)
            &&& t.at("staged"@) == Tree::Bool(f.staged)
            &&& t.at("unstaged"@) == Tree::Bool(f.unstaged)
            &&& t.at("kind"@) == Tree::Text(
                if f.untracked {
                    "untracked"@
                } else {
                    "tracked"@
                },
            )
            &&& t.get("old_path"@) == match f.old_path {
                Some(p) => Some(Tree::Text(p)),
                None => None::<Tree>,
            }
        }),
{
    reveal_strlit("path");
    reveal_strlit("status");
    reveal_strlit("staged");
    reveal_strlit("unstaged");
    reveal_strlit("kind");
    reveal_strlit("old_path");
    assert("path"@.len() == 4 && "path"@[0] == 'p');
    assert("status"@.len() == 6 && "status"@[3] == 't');
    assert("staged"@.len() == 6 && "staged"@[3] == 'g');
    assert("unstaged"@.len() == 8 && "unstaged"@[0] == 'u');
    assert("kind"@.len() == 4 && "kind"@[0] == 'k');
    assert("old_path"@.len() == 8 && "old_path"@[0] == 'o');
}

/// The last commit is read as git prints it: its id, its short id and its summary, with NUL
/// between them.
pub proof fn law_head_is_read(commit: Seq<char>, short: Seq<char>, summary: Seq<char>)
    requires
        is_bare(commit),
        is_bare(short),
        is_bare(summary),
        !commit.contains('\0'),
        !short.contains('\0'),
    ensures
        ({
            let t = head_tree(commit + seq!['\0'] + short + seq!['\0'] + summary);
            &&& t.at("commit"@) == Tree::Text(commit)
            &&& t.at("short"@) == Tree::Text(short)
            &&& t.at("summary"@) == Tree::Text(summary)
        }),
{
    reveal_strlit("\0");
    let nul = "\0"@;
    assert(nul.len() == 1 && nul[0] == '\0');
    let rest = short + seq!['\0'] + summary;
    let head = commit + seq!['\0'] + short + seq!['\0'] + summary;
    assert(head =~= commit + seq!['\0'] + rest);
    lemma_cut_at_nul(commit, rest);
    lemma_cut_at_nul(short, summary);
    lemma_bare(commit);
    lemma_bare(short);
    lemma_bare(summary);
    reveal_strlit("commit");
    reveal_strlit("short");
    reveal_strlit("summary");
    assert("commit"@.len() == 6);
    assert("short"@.len() == 5);
    assert("summary"@.len() == 7);
}

proof fn lemma_cut_at_nul(a: Seq<char>, b: Seq<char>)
    requires
        !a.contains('\0'),
    ensures
        cut_at(a + seq!['\0'] + b, "\0"@) == Some((a, b)),
{
    reveal_strlit("\0");
    let nul = "\0"@;
    let s = a + seq!['\0'] + b;
    let k = a.len() as int;
    assert(nul.len() == 1 && nul[0] == '\0');
    assert(s.subrange(k, k + 1) =~= nul);
    assert(occurs_at(s, nul, k));
    assert forall|i: int| 0 <= i < k implies !occurs_at(s, nul, i) by {
        if occurs_at(s, nul, i) {
            assert(s.subrange(i, i + 1)[0] == '\0');
            assert(a[i] == '\0');
        }
    }
    lemma_find_from(s, nul, 0);
    assert(s.take(k) =~= a);
    assert(s.skip(k + 1) =~= b);
}

proof fn lemma_with_if_one(list: Seq<Seq<char>>, wanted: bool, item: Seq<char>)
    ensures
        forall|x: Seq<char>| #[trigger]
            with_if(list, wanted, item).contains(x) <==> list.contains(x) || (wanted && x == item),
{
    let all = list.push(item);
    assert forall|x: Seq<char>| #[trigger]
        with_if(list, wanted, item).contains(x) <==> list.contains(x) || (wanted && x == item) by {
        if wanted && !list.contains(item) {
            if list.contains(x) {
                let i = choose|i: int| 0 <= i < list.len() && list[i] == x;
                assert(all[i] == x);
            }
            assert(all[list.len() as int] == item);
            if all.contains(x) && x != item {
                let i = choose|i: int| 0 <= i < all.len() && all[i] == x;
                assert(list[i] == x);
            }
        }
    }
}

/// What is suggested follows from what was found: a look at the diff, tests and a commit
/// where there are changes, more where files are untracked, and what the session calls for.
pub proof fn law_changes_suggest(
    clean: bool,
    has_untracked: bool,
    has_smoke: bool,
    session: Option<SessionActionSignals>,
    x: Seq<char>,
)
    ensures
        next_actions(clean, has_untracked, has_smoke, session).contains(x) <==> {
            ||| clean && !(session is Some && session->0.failed) && x == "no changes detected"@
            ||| !clean && (x == "review diff"@ || x == "run focused tests"@ || x
                == "commit or revert changes after review"@)
            ||| !clean && has_untracked && x == "review untracked files before commit"@
            ||| !clean && has_smoke && x
                == "clean untracked smoke/tmp files or intentionally commit them"@
            ||| session is Some && session->0.failed && x
                == "review failed tool calls in session_summary"@
            ||| session is Some && session->0.write_like && x
                == "review changed paths from this session"@
            ||| session is Some && session->0.shell_like && x
                == "check command/test results before commit"@
        },
{
    let failed = session is Some && session->0.failed;
    let write_like = session is Some && session->0.write_like;
    let shell_like = session is Some && session->0.shell_like;
    let a0 = Seq::<Seq<char>>::empty();
    let a1 = with_if(a0, clean && !failed, "no changes detected"@);
    let a2 = with_if(a1, !clean, "review diff"@);
    let a3 = with_if(a2, !clean, "run focused tests"@);
    let a4 = with_if(a3, !clean && has_untracked, "review untracked files before commit"@);
    let a5 = with_if(
        a4,
        !clean && has_smoke,
        "clean untracked smoke/tmp files or intentionally commit them"@,
    );
    let a6 = with_if(a5, !clean, "commit or revert changes after review"@);
    let a7 = with_if(a6, failed, "review failed tool calls in session_summary"@);
    let a8 = with_if(a7, write_like, "review changed paths from this session"@);
    lemma_with_if_one(a0, clean && !failed, "no changes detected"@);
    lemma_with_if_one(a1, !clean, "review diff"@);
    lemma_with_if_one(a2, !clean, "run focused tests"@);
    lemma_with_if_one(a3, !clean && has_untracked, "review untracked files before commit"@);
    lemma_with_if_one(
        a4,
        !clean && has_smoke,
        "clean untracked smoke/tmp files or intentionally commit them"@,
    );
    lemma_with_if_one(a5, !clean, "commit or revert changes after review"@);
    lemma_with_if_one(a6, failed, "review failed tool calls in session_summary"@);
    lemma_with_if_one(a7, write_like, "review changed paths from this session"@);
    lemma_with_if_one(a8, shell_like, "check command/test results before commit"@);
}

/// Every untracked file gets a warning that names it, and no other file does.
pub proof fn law_untracked_files_are_warned_of(files: Seq<ChangedModel>, f: ChangedModel)
    ensures
        ({
            let before = untracked_warnings(files);
            let after = untracked_warnings(files.push(f));
            &&& !f.untracked ==> after == before
            &&& f.untracked ==> {
                &&& after.len() == before.len() + 1
                &&& after.drop_last() == before
                &&& after.last().at("path"@) == Tree::Text(f.path)
                &&& after.last().at("kind"@) == Tree::Text("untracked_file"@) || after.last().at(
                    "kind"@,
                ) == Tree::Text("untracked_smoke_file"@)
            }
        }),
{
    assert(files.push(f).drop_last() =~= files);
    let before = untracked_warnings(files);
    if f.untracked {
    reveal_strlit("kind");
    reveal_strlit("path");
    reveal_strlit("message");
    assert("kind"@.len() == 4 && "kind"@[0] == 'k');
    assert("path"@.len() == 4 && "path"@[0] == 'p');
    assert("message"@.len() == 7);
        assert(untracked_warnings(files.push(f)).drop_last() =~= before);
    }
}

// ---------------------------------------------------------------------------
// The parts of an output
// ---------------------------------------------------------------------------

/// Whether a text can stand between two sentinels and be read back: it does not hold the
/// sentinel, and it has no line ends around it.
pub open spec fn is_part(s: Seq<char>) -> bool {
    &&& !has_text(s, SHOW_CHANGES_SENTINEL@)
    &&& s.len() > 0 ==> s[0] != '\n' && s[0] != '\r' && s.last() != '\n' && s.last() != '\r'
}

/// A text behind which the sentinel is printed on a line of its own.
pub open spec fn printed(s: Seq<char>) -> Seq<char> {
    s + seq!['\n'] + SHOW_CHANGES_SENTINEL@
}

proof fn lemma_first_piece(s: Seq<char>, rest: Seq<char>)
    requires
        !has_text(s, SHOW_CHANGES_SENTINEL@),
    ensures
        pieces(printed(s) + rest, SHOW_CHANGES_SENTINEL@) == seq![s + seq!['\n']] + pieces(
            rest,
            SHOW_CHANGES_SENTINEL@,
        ),
{
    let p = SHOW_CHANGES_SENTINEL@;
    reveal_strlit("@@WEBCODEX_SHOW_CHANGES_SEP@@");
    assert(p.len() == 29);
    let all = printed(s) + rest;
    let k = s.len() as int + 1;
    assert(all[k - 1] == '\n');
    assert(all.subrange(k, k + p.len()) =~= p);
    assert(occurs_at(all, p, k));
    assert forall|j: int| 0 <= j < k implies !occurs_at(all, p, j) by {
        if occurs_at(all, p, j) {
            let found = all.subrange(j, j + p.len());
            if j + p.len() <= s.len() {
                assert(s.subrange(j, j + p.len()) =~= found);
                assert(occurs_at(s, p, j));
            } else {
                assert(found[k - 1 - j] == '\n');
                lemma_one_line(k - 1 - j);
            }
        }
    }
    lemma_find_from(all, p, 0);
    assert(find_from(all, p, 0) == Some(k));
    assert(all.take(k) =~= s + seq!['\n']);
    assert(all.skip(k + p.len()) =~= rest);
}

proof fn lemma_one_line(i: int)
    requires
        0 <= i < SHOW_CHANGES_SENTINEL@.len(),
    ensures
        SHOW_CHANGES_SENTINEL@[i] != '\n',
{
    reveal_strlit("@@WEBCODEX_SHOW_CHANGES_SEP@@");
}

proof fn lemma_last_piece(s: Seq<char>)
    requires
        !has_text(s, SHOW_CHANGES_SENTINEL@),
    ensures
        pieces(s, SHOW_CHANGES_SENTINEL@) == seq![s],
{
    lemma_find_from(s, SHOW_CHANGES_SENTINEL@, 0);
}

proof fn lemma_line_break_part(s: Seq<char>)
    requires
        is_part(s),
    ensures
        !has_text(seq!['\n'] + s, SHOW_CHANGES_SENTINEL@),
        trim_set(seq!['\n'] + s + seq!['\n'], "\n\r"@) == s,
        trim_set(seq!['\n'] + s, "\n\r"@) == s,
        trim_end_set(s + seq!['\n'], "\n\r"@) == s,
        trim_start_set(seq!['\n'] + s + seq!['\n'], "\n\r"@) == (if s.len() > 0 {
            s + seq!['\n']
        } else {
            seq![]
        }),
{
    let ends = "\n\r"@;
    let p = SHOW_CHANGES_SENTINEL@;
    reveal_strlit("\n\r");
    reveal_strlit("@@WEBCODEX_SHOW_CHANGES_SEP@@");
    assert(ends.len() == 2 && ends[0] == '\n' && ends[1] == '\r');
    assert(ends.contains('\n')) by {
        assert(ends[0] == '\n');
    }
    let t = seq!['\n'] + s;
    assert forall|j: int| !occurs_at(t, p, j) by {
        if occurs_at(t, p, j) {
            let found = t.subrange(j, j + p.len());
            if j == 0 {
                assert(found[0] == '\n');
                lemma_one_line(0);
            } else {
                assert(s.subrange(j - 1, j - 1 + p.len()) =~= found);
                assert(occurs_at(s, p, j - 1));
            }
        }
    }
    assert(s.len() > 0 ==> !ends.contains(s[0]) && !ends.contains(s.last()));
    assert(t.skip(1) =~= s);
    assert(trim_start_set(s, ends) == s);
    assert(trim_start_set(t, ends) == s);
    assert(trim_end_set(s, ends) == s);
    let u = s + seq!['\n'];
    assert(u.drop_last() =~= s);
    assert(trim_end_set(u, ends) == s);
    let v = seq!['\n'] + s + seq!['\n'];
    assert(v.skip(1) =~= u);
    assert(trim_start_set(v, ends) == trim_start_set(u, ends));
    if s.len() > 0 {
        assert(u[0] == s[0]);
        assert(trim_start_set(u, ends) == u);
    } else {
        assert(u.skip(1) =~= Seq::<char>::empty());
        assert(trim_start_set(Seq::<char>::empty(), ends) =~= Seq::<char>::empty());
        assert(trim_start_set(u, ends) =~= Seq::<char>::empty());
        assert(s =~= Seq::<char>::empty());
    }
}

/// The parts of an overview come out as they went in: the status, the last commit and the
/// statistics, and with a diff also the previews.
pub proof fn law_overview_parts_are_cut(
    status: Seq<char>,
    head: Seq<char>,
    stat: Seq<char>,
    diff: Seq<char>,
    previews: Seq<char>,
)
    requires
        is_part(status),
        is_part(head),
        is_part(stat),
        is_part(diff),
        is_part(previews),
    ensures
        ({
            let nl = seq!['\n'];
            let short = printed(status) + printed(nl + head) + (nl + stat);
            let long = printed(status) + printed(nl + head) + printed(nl + stat) + printed(
                nl + diff,
            ) + (nl + previews);
            let a = show_changes_parts(short, false);
            let b = show_changes_parts(long, true);
            &&& a.0 == status && a.1 == head && a.2 == stat
            &&& a.3.len() == 0 && a.4.len() == 0
            &&& b.0 == status && b.1 == head && b.2 == stat && b.4 == previews
            &&& b.3 == if diff.len() > 0 {
                diff + nl
            } else {
                Seq::<char>::empty()
            }
        }),
{
    let nl = seq!['\n'];
    let p = SHOW_CHANGES_SENTINEL@;
    lemma_line_break_part(status);
    lemma_line_break_part(head);
    lemma_line_break_part(stat);
    lemma_line_break_part(diff);
    lemma_line_break_part(previews);
    let s2 = nl + stat;
    let s1 = printed(nl + head) + s2;
    let short = printed(status) + printed(nl + head) + (nl + stat);
    assert(short =~= printed(status) + s1);
    lemma_first_piece(status, s1);
    lemma_first_piece(nl + head, s2);
    lemma_last_piece(s2);
    let va = pieces(short, p);
    assert(va[0] == status + nl && va[1] == nl + head + nl && va[2] == nl + stat);
    let l4 = nl + previews;
    let l3 = printed(nl + diff) + l4;
    let l2 = printed(nl + stat) + l3;
    let l1 = printed(nl + head) + l2;
    let long = printed(status) + printed(nl + head) + printed(nl + stat) + printed(nl + diff) + (nl
        + previews);
    assert(long =~= printed(status) + l1);
    lemma_first_piece(status, l1);
    lemma_first_piece(nl + head, l2);
    lemma_first_piece(nl + stat, l3);
    lemma_first_piece(nl + diff, l4);
    lemma_last_piece(l4);
    let vb = pieces(long, p);
    assert(vb[0] == status + nl && vb[1] == nl + head + nl && vb[2] == nl + stat + nl && vb[3] == nl
        + diff + nl && vb[4] == nl + previews);
}

// ---------------------------------------------------------------------------
// Results
// ---------------------------------------------------------------------------

/// A plain git command that ran is told with both outputs and its exit code; one that did
/// not run to its end is told as failed.
pub proof fn law_plain_result_is_told(outcome: CommandOutcome)
    ensures
        ({
            let r = plain_result(outcome);
            match outcome {
                CommandOutcome::Finished { exit_code, stdout, stderr } => {
                    &&& r.success && r.error is None
                    &&& r.output.at("stdout"@) == match stdout {
                        Some(s) => Tree::Text(s@),
                        None => Tree::Null,
                    }
                    &&& r.output.at("stderr"@) == match stderr {
                        Some(s) => Tree::Text(s@),
                        None => Tree::Null,
                    }
                    &&& r.output.at("exit_code"@) == match exit_code {
                        Some(c) => Tree::Number(c as int),
                        None => Tree::Null,
                    }
                },
                CommandOutcome::Dropped => !r.success && r.error == Some("request dropped"@),
                CommandOutcome::TimedOut => !r.success && r.error == Some("timed out"@),
                CommandOutcome::Failed(e) => !r.success && r.error == Some(e@),
            }
        }),
{
    reveal_strlit("stdout");
    reveal_strlit("stderr");
    reveal_strlit("exit_code");
    assert("stdout"@.len() == 6 && "stdout"@[3] == 'o');
    assert("stderr"@.len() == 6 && "stderr"@[3] == 'e');
    assert("exit_code"@.len() == 9);
}

/// The hunks of a diff are told with what was asked for, and the call fails exactly where
/// git did.
pub proof fn law_hunks_are_told(project: Seq<char>, plan: DiffHunksPlan, output: CommandOutput)
    ensures
        ({
            let r = hunks_result(project, plan, output);
            let s = read_diff(
                lines_of(output.stdout@),
                plan.max_hunks as nat,
                plan.max_hunk_lines as nat,
            );
            &&& r.success == (output.exit_code == Some(0i32))
            &&& r.success ==> r.error is None
            &&& !r.success ==> r.error == Some("git diff failed"@)
            &&& r.output.at("project"@) == Tree::Text(project)
            &&& r.output.at("cached"@) == Tree::Bool(plan.cached)
            &&& r.output.at("paths"@) == text_trees(texts(plan.paths@))
            &&& r.output.at("files"@) == crate::tool_runtime::diff::files_tree(s.all_files())
            &&& r.output.at("hunk_count"@) == Tree::Number(s.count as int)
            &&& r.output.at("truncated"@) == Tree::Bool(s.truncated)
            &&& r.output.at("stderr"@) == Tree::Text(output.stderr@)
            &&& r.output.at("exit_code"@) == match output.exit_code {
                Some(c) => Tree::Number(c as int),
                None => Tree::Null,
            }
        }),
{
    reveal_strlit("project");
    reveal_strlit("paths");
    reveal_strlit("cached");
    reveal_strlit("files");
    reveal_strlit("hunk_count");
    reveal_strlit("truncated");
    reveal_strlit("exit_code");
    reveal_strlit("stderr");
    assert("project"@.len() == 7);
    assert("paths"@.len() == 5 && "paths"@[0] == 'p');
    assert("cached"@.len() == 6 && "cached"@[0] == 'c');
    assert("files"@.len() == 5 && "files"@[0] == 'f');
    assert("hunk_count"@.len() == 10);
    assert("truncated"@.len() == 9 && "truncated"@[0] == 't');
    assert("exit_code"@.len() == 9 && "exit_code"@[0] == 'e');
    assert("stderr"@.len() == 6 && "stderr"@[0] == 's');
}

/// The diff summary tells the status, the statistics and the paths, by what git says of
/// them.
pub proof fn law_summary_is_told(stdout: Seq<char>, exit_code: Option<i32>)
    ensures
        ({
            let r = summary_result(stdout, exit_code);
            let lines = lines_of(diff_summary_parts(stdout).0);
            &&& r.success && r.error is None
            &&& r.output.at("porcelain"@) == Tree::Text(diff_summary_parts(stdout).0)
            &&& r.output.at("diff_stat"@) == Tree::Text(diff_summary_parts(stdout).1)
            &&& r.output.at("changed_files"@) == text_trees(
                porcelain_paths(lines, PorcelainKind::All),
            )
            &&& r.output.at("changed_files_count"@) == Tree::Number(
                porcelain_paths(lines, PorcelainKind::All).len() as int,
            )
            &&& r.output.at("tracked_changed_files"@) == text_trees(
                porcelain_paths(lines, PorcelainKind::Known),
            )
            &&& r.output.at("untracked_files"@) == text_trees(
                porcelain_paths(lines, PorcelainKind::Untracked),
            )
            &&& r.output.at("ignored_files"@) == text_trees(
                porcelain_paths(lines, PorcelainKind::Ignored),
            )
            &&& r.output.at("exit_code"@) == match exit_code {
                Some(c) => Tree::Number(c as int),
                None => Tree::Null,
            }
        }),
{
    reveal_strlit("porcelain");
    reveal_strlit("diff_stat");
    reveal_strlit("changed_files");
    reveal_strlit("changed_files_count");
    reveal_strlit("tracked_changed_files");
    reveal_strlit("untracked_files");
    reveal_strlit("ignored_files");
    reveal_strlit("exit_code");
    assert("porcelain"@.len() == 9 && "porcelain"@[0] == 'p');
    assert("diff_stat"@.len() == 9 && "diff_stat"@[0] == 'd');
    assert("changed_files"@.len() == 13 && "changed_files"@[0] == 'c');
    assert("changed_files_count"@.len() == 19);
    assert("tracked_changed_files"@.len() == 21);
    assert("untracked_files"@.len() == 15);
    assert("ignored_files"@.len() == 13 && "ignored_files"@[0] == 'i');
    assert("exit_code"@.len() == 9 && "exit_code"@[0] == 'e');
}

/// What was restored or discarded is told with the paths where the command succeeded, and
/// the failure as it is where it did not.
pub proof fn law_paths_are_told(name: Seq<char>, paths: Seq<Seq<char>>, run: ToolModel)
    requires
        name != "command_result"@,
    ensures
        ({
            let r = paths_result(name, paths, run);
            &&& r.success == run.success
            &&& run.success ==> r.error is None && r.output.at(name) == text_trees(paths)
                && r.output.at("command_result"@) == run.output
            &&& !run.success ==> r == run
        }),
{
}

/// The overview fails exactly where git did.
pub proof fn law_overview_fails_with_git(
    project: Seq<char>,
    plan: ShowChangesPlan,
    output: CommandOutput,
    session_id: Option<Seq<char>>,
    summary: Option<crate::tool_runtime::sessions::SessionSummary>,
)
    ensures
        ({
            let r = changes_result(project, plan, output, session_id, summary);
            &&& r.success == (output.exit_code == Some(0i32))
            &&& r.success ==> r.error is None
            &&& !r.success ==> r.error == Some("show_changes git inspection failed"@)
        }),
{
}

/// A number that is asked for is taken where it is above zero and within the limit; one
/// above the limit is cut to it, and none or zero stands for the usual number.
pub proof fn law_limits(
    given: Seq<Seq<char>>,
    hunks: Option<usize>,
    lines: Option<usize>,
    events: Option<usize>,
    flag: Option<bool>,
    diff: DiffHunksPlan,
    changes: ShowChangesPlan,
)
    requires
        hunks_planned(given, hunks, lines, flag, diff),
        changes_planned(flag, hunks, lines, events, changes),
    ensures
        is_limited(hunks, 30, 100, diff.max_hunks),
        is_limited(lines, 160, 400, diff.max_hunk_lines),
        is_limited(hunks, 20, 100, changes.max_hunks),
        is_limited(lines, 80, 240, changes.max_hunk_lines),
        is_limited(events, 30, 200, changes.session_event_limit),
        diff.cached == (flag == Some(true)),
        changes.include_diff == (flag == Some(true)),
{
}

/// Whether `n` is the number that is used for `asked`.
pub open spec fn is_limited(asked: Option<usize>, usual: usize, max: usize, n: usize) -> bool {
    &&& asked is None || asked->0 == 0 ==> n == usual
    &&& asked is Some && 1 <= asked->0 <= max ==> n == asked->0
    &&& asked is Some && asked->0 > max ==> n == max
}

/// The diff command names the index exactly where it is asked for, and every path, each as
/// one word that a shell reads as the path.
pub proof fn law_diff_words(paths: Seq<Seq<char>>, cached: bool, i: int)
    requires
        0 <= i < paths.len(),
    ensures
        ({
            let w = diff_words(paths, cached);
            let first: int = if cached {
                5
            } else {
                4
            };
            &&& w.len() == first + paths.len()
            &&& w[0] == "git"@ && w[1] == "diff"@
            &&& cached ==> w[2] == "--cached"@ && w[3] == "--unified=80"@ && w[4] == "--"@
            &&& !cached ==> w[2] == "--unified=80"@ && w[3] == "--"@
            &&& shell_reads(w[first + i], false) == Some(paths[i])
        }),
{
    law_shell_quoting(paths[i]);
}

} // verus!
