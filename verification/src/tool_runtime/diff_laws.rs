//! What is read out of a diff, line by line: its files, their paths and states, and their
//! hunks.
use crate::cut::{cut_at, trim_start_set};
use crate::json::{lemma_find_push, Tree};
use crate::lines::{join, word_len, words_of};
use crate::numbers::{decimal, law_decimal_is_read};
use crate::text::{after_prefix, is_digit, is_space, lemma_find_from, occurs_at};
use crate::tool_runtime::diff::{
    file_tree, file_with_line, files_tree, hunk_ranges, hunk_tree, opened_file, range_of,
    read_diff, without_side, DiffState, FileModel, HunkModel,
};
use vstd::prelude::*;

verus! {

broadcast use lemma_find_push;

// ---------------------------------------------------------------------------
// Lines
// ---------------------------------------------------------------------------

/// Whether a line opens a file of a diff.
pub open spec fn opens_file(line: Seq<char>) -> bool {
    "diff --git "@.is_prefix_of(line)
}

/// Whether a line says something of the file that it stands in.
pub open spec fn is_header_line(line: Seq<char>) -> bool {
    ||| "new file mode "@.is_prefix_of(line)
    ||| "deleted file mode "@.is_prefix_of(line)
    ||| "rename from "@.is_prefix_of(line)
    ||| "rename to "@.is_prefix_of(line)
    ||| "Binary files "@.is_prefix_of(line)
    ||| "--- "@.is_prefix_of(line)
    ||| "+++ "@.is_prefix_of(line)
}

/// Whether none of the lines opens a file.
pub open spec fn within_file(lines: Seq<Seq<char>>) -> bool {
    forall|i: int| 0 <= i < lines.len() ==> !opens_file(#[trigger] lines[i])
}

/// Whether none of the lines opens a file or says something of one.
pub open spec fn are_plain(lines: Seq<Seq<char>>) -> bool {
    forall|i: int|
        0 <= i < lines.len() ==> !opens_file(#[trigger] lines[i]) && !is_header_line(lines[i])
}

/// Whether none of the lines opens a file or a hunk.
pub open spec fn within_hunk(lines: Seq<Seq<char>>) -> bool {
    forall|i: int|
        0 <= i < lines.len() ==> !opens_file(#[trigger] lines[i]) && !"@@ "@.is_prefix_of(lines[i])
}

/// The file after the lines, hunks aside.
spec fn noted(f: FileModel, lines: Seq<Seq<char>>) -> FileModel
    decreases lines.len(),
{
    if lines.len() == 0 {
        f
    } else {
        file_with_line(noted(f, lines.drop_last()), lines.last())
    }
}

spec fn same_head(a: FileModel, b: FileModel) -> bool {
    a.path == b.path && a.old_path == b.old_path && a.status == b.status && a.binary == b.binary
}

proof fn lemma_noted_add(f: FileModel, a: Seq<Seq<char>>, b: Seq<Seq<char>>)
    ensures
        noted(f, a + b) == noted(noted(f, a), b),
    decreases b.len(),
{
    if b.len() == 0 {
        assert(a + b =~= a);
    } else {
        assert((a + b).drop_last() =~= a + b.drop_last());
        assert((a + b).last() == b.last());
        lemma_noted_add(f, a, b.drop_last());
    }
}

proof fn lemma_noted_plain(f: FileModel, lines: Seq<Seq<char>>)
    requires
        are_plain(lines),
    ensures
        noted(f, lines) == f,
    decreases lines.len(),
{
    if lines.len() > 0 {
        let front = lines.drop_last();
        assert forall|i: int| 0 <= i < front.len() implies !opens_file(#[trigger] front[i])
            && !is_header_line(front[i]) by {
            assert(front[i] == lines[i]);
        }
        lemma_noted_plain(f, front);
        assert(lines.last() == lines[lines.len() - 1]);
    }
}

proof fn lemma_section(
    before: Seq<Seq<char>>,
    head: Seq<char>,
    body: Seq<Seq<char>>,
    max_hunks: nat,
    max_lines: nat,
)
    requires
        opens_file(head),
        within_file(body),
    ensures
        ({
            let s = read_diff(before.push(head) + body, max_hunks, max_lines);
            &&& s.files == read_diff(before, max_hunks, max_lines).all_files()
            &&& s.file is Some
            &&& same_head(s.file->0, noted(opened_file(after_prefix(head, "diff --git "@)->0), body))
            &&& s.all_files().len() == s.files.len() + 1
            &&& same_head(
                s.all_files().last(),
                noted(opened_file(after_prefix(head, "diff --git "@)->0), body),
            )
        }),
    decreases body.len(),
{
    let lines = before.push(head) + body;
    if body.len() == 0 {
        assert(lines =~= before.push(head));
        assert(lines.drop_last() =~= before);
    } else {
        let front = body.drop_last();
        assert forall|i: int| 0 <= i < front.len() implies !opens_file(#[trigger] front[i]) by {
            assert(front[i] == body[i]);
        }
        lemma_section(before, head, front, max_hunks, max_lines);
        assert(lines.drop_last() =~= before.push(head) + front);
        assert(lines.last() == body.last());
        assert(!opens_file(body[body.len() - 1]));
    }
}

/// A diff has as many files as lines that open one.
pub proof fn law_every_file_is_read(
    before: Seq<Seq<char>>,
    head: Seq<char>,
    body: Seq<Seq<char>>,
    max_hunks: nat,
    max_lines: nat,
)
    requires
        opens_file(head),
        within_file(body),
    ensures
        ({
            let all = read_diff(before.push(head) + body, max_hunks, max_lines).all_files();
            let earlier = read_diff(before, max_hunks, max_lines).all_files();
            &&& all.len() == earlier.len() + 1
            &&& all.drop_last() == earlier
        }),
{
    lemma_section(before, head, body, max_hunks, max_lines);
    let s = read_diff(before.push(head) + body, max_hunks, max_lines);
    assert(s.all_files().drop_last() =~= s.files);
}

/// Lines before the first file are no file.
pub proof fn law_no_file_without_its_line(lines: Seq<Seq<char>>, max_hunks: nat, max_lines: nat)
    requires
        within_file(lines),
    ensures
        read_diff(lines, max_hunks, max_lines).all_files().len() == 0,
        read_diff(lines, max_hunks, max_lines).count == 0,
        !read_diff(lines, max_hunks, max_lines).truncated,
    decreases lines.len(),
{
    lemma_nothing_open(lines, max_hunks, max_lines);
}

proof fn lemma_nothing_open(lines: Seq<Seq<char>>, max_hunks: nat, max_lines: nat)
    requires
        within_file(lines),
    ensures
        read_diff(lines, max_hunks, max_lines) == (DiffState {
            files: seq![],
            file: None,
            hunk: None,
            count: 0,
            truncated: false,
        }),
    decreases lines.len(),
{
    if lines.len() > 0 {
        let front = lines.drop_last();
        assert forall|i: int| 0 <= i < front.len() implies !opens_file(#[trigger] front[i]) by {
            assert(front[i] == lines[i]);
        }
        lemma_nothing_open(front, max_hunks, max_lines);
        assert(!opens_file(lines[lines.len() - 1]));
    }
}

// ---------------------------------------------------------------------------
// Paths and states
// ---------------------------------------------------------------------------

/// A path without the `a/` or `b/` in front of it.
pub open spec fn is_without_side(path: Seq<char>, bare: Seq<char>) -> bool {
    if path.len() >= 2 && (path[0] == 'a' || path[0] == 'b') && path[1] == '/' {
        bare == path.skip(2)
    } else {
        bare == path
    }
}

proof fn lemma_without_side(path: Seq<char>)
    ensures
        is_without_side(path, without_side(path)),
{
    reveal_strlit("a/");
    reveal_strlit("b/");
    assert("a/"@.len() == 2 && "a/"@[0] == 'a' && "a/"@[1] == '/');
    assert("b/"@.len() == 2 && "b/"@[0] == 'b' && "b/"@[1] == '/');
    if path.len() >= 2 && path[1] == '/' {
        if path[0] == 'a' {
            assert(path.subrange(0, 2) =~= "a/"@);
        } else if path[0] == 'b' {
            assert(path.subrange(0, 2) =~= "b/"@);
        }
    }
    if "a/"@.is_prefix_of(path) {
        assert(path.subrange(0, 2)[0] == 'a' && path.subrange(0, 2)[1] == '/');
    }
    if "b/"@.is_prefix_of(path) {
        assert(path.subrange(0, 2)[0] == 'b' && path.subrange(0, 2)[1] == '/');
    }
}

proof fn lemma_starts(line: Seq<char>, p: Seq<char>, rest: Seq<char>)
    requires
        line == p + rest,
    ensures
        p.is_prefix_of(line),
        after_prefix(line, p) == Some(rest),
{
    assert(line.subrange(0, p.len() as int) =~= p);
    assert(line.skip(p.len() as int) =~= rest);
}

proof fn lemma_other_start(line: Seq<char>, p: Seq<char>, i: int)
    requires
        0 <= i < p.len(),
        i < line.len() ==> line[i] != p[i],
    ensures
        !p.is_prefix_of(line),
        after_prefix(line, p) is None,
{
    if p.is_prefix_of(line) {
        assert(line.subrange(0, p.len() as int)[i] == p[i]);
    }
}

proof fn lemma_old_side(f: FileModel, path: Seq<char>)
    ensures
        file_with_line(f, "--- "@ + path) == (if path == "/dev/null"@ {
            FileModel { old_path: None, status: "added"@, ..f }
        } else {
            FileModel { old_path: Some(without_side(path)), ..f }
        }),
{
    let line = "--- "@ + path;
    reveal_strlit("--- ");
    reveal_strlit("new file mode ");
    reveal_strlit("deleted file mode ");
    reveal_strlit("rename from ");
    reveal_strlit("rename to ");
    reveal_strlit("Binary files ");
    assert(line[0] == '-');
    lemma_other_start(line, "new file mode "@, 0);
    lemma_other_start(line, "deleted file mode "@, 0);
    lemma_other_start(line, "rename from "@, 0);
    lemma_other_start(line, "rename to "@, 0);
    lemma_other_start(line, "Binary files "@, 0);
    lemma_starts(line, "--- "@, path);
}

proof fn lemma_new_side(f: FileModel, path: Seq<char>)
    ensures
        file_with_line(f, "+++ "@ + path) == (if path == "/dev/null"@ {
            FileModel { path: None, status: "deleted"@, ..f }
        } else {
            FileModel { path: Some(without_side(path)), ..f }
        }),
{
    let line = "+++ "@ + path;
    reveal_strlit("+++ ");
    reveal_strlit("--- ");
    reveal_strlit("new file mode ");
    reveal_strlit("deleted file mode ");
    reveal_strlit("rename from ");
    reveal_strlit("rename to ");
    reveal_strlit("Binary files ");
    assert(line[0] == '+');
    lemma_other_start(line, "new file mode "@, 0);
    lemma_other_start(line, "deleted file mode "@, 0);
    lemma_other_start(line, "rename from "@, 0);
    lemma_other_start(line, "rename to "@, 0);
    lemma_other_start(line, "Binary files "@, 0);
    lemma_other_start(line, "--- "@, 0);
    lemma_starts(line, "+++ "@, path);
}

/// The lines of a file of a diff: what git says of it, its two sides, and its hunks.
pub open spec fn file_lines(
    said: Seq<Seq<char>>,
    old_side: Seq<char>,
    new_side: Seq<char>,
    hunks: Seq<Seq<char>>,
) -> Seq<Seq<char>> {
    said + seq!["--- "@ + old_side, "+++ "@ + new_side] + hunks
}

proof fn lemma_sides(
    f: FileModel,
    said: Seq<Seq<char>>,
    old_side: Seq<char>,
    new_side: Seq<char>,
    hunks: Seq<Seq<char>>,
)
    requires
        within_file(said),
        are_plain(hunks),
    ensures
        ({
            let body = file_lines(said, old_side, new_side, hunks);
            let g = noted(f, said);
            let h = if old_side == "/dev/null"@ {
                FileModel { old_path: None, status: "added"@, ..g }
            } else {
                FileModel { old_path: Some(without_side(old_side)), ..g }
            };
            &&& within_file(body)
            &&& noted(f, body) == (if new_side == "/dev/null"@ {
                FileModel { path: None, status: "deleted"@, ..h }
            } else {
                FileModel { path: Some(without_side(new_side)), ..h }
            })
        }),
{
    let a = "--- "@ + old_side;
    let b = "+++ "@ + new_side;
    let sides = seq![a, b];
    let body = file_lines(said, old_side, new_side, hunks);
    reveal_strlit("--- ");
    reveal_strlit("+++ ");
    reveal_strlit("diff --git ");
    assert(a[0] == '-' && b[0] == '+' && "diff --git "@[0] == 'd');
    lemma_other_start(a, "diff --git "@, 0);
    lemma_other_start(b, "diff --git "@, 0);
    assert forall|i: int| 0 <= i < body.len() implies !opens_file(#[trigger] body[i]) by {
        if i < said.len() {
            assert(body[i] == said[i]);
        } else if i < said.len() + 2 {
            assert(body[i] == sides[i - said.len()]);
        } else {
            assert(body[i] == hunks[i - said.len() - 2]);
        }
    }
    lemma_noted_add(f, said + sides, hunks);
    lemma_noted_add(f, said, sides);
    let g = noted(f, said);
    assert(sides.drop_last() =~= seq![a]);
    assert(seq![a].drop_last() =~= Seq::<Seq<char>>::empty());
    assert(noted(g, Seq::<Seq<char>>::empty()) == g);
    assert(noted(g, seq![a]) == file_with_line(g, a));
    assert(noted(g, sides) == file_with_line(file_with_line(g, a), b));
    lemma_old_side(g, old_side);
    lemma_new_side(file_with_line(g, a), new_side);
    lemma_noted_plain(noted(f, said + sides), hunks);
}

/// A file with nothing on its old side was added: it has the path of its new side, and no
/// old one.
pub proof fn law_added_file_is_read(
    before: Seq<Seq<char>>,
    head: Seq<char>,
    said: Seq<Seq<char>>,
    new_side: Seq<char>,
    hunks: Seq<Seq<char>>,
    max_hunks: nat,
    max_lines: nat,
)
    requires
        opens_file(head),
        within_file(said),
        are_plain(hunks),
        new_side != "/dev/null"@,
    ensures
        ({
            let body = file_lines(said, "/dev/null"@, new_side, hunks);
            let f = read_diff(before.push(head) + body, max_hunks, max_lines).all_files().last();
            &&& f.status == "added"@
            &&& f.old_path is None
            &&& f.path is Some
            &&& is_without_side(new_side, f.path->0)
        }),
{
    let body = file_lines(said, "/dev/null"@, new_side, hunks);
    lemma_sides(
        opened_file(after_prefix(head, "diff --git "@)->0),
        said,
        "/dev/null"@,
        new_side,
        hunks,
    );
    lemma_section(before, head, body, max_hunks, max_lines);
    lemma_without_side(new_side);
}

/// A file with nothing on its new side was deleted: it has no path, and the old one where
/// it had one.
pub proof fn law_deleted_file_is_read(
    before: Seq<Seq<char>>,
    head: Seq<char>,
    said: Seq<Seq<char>>,
    old_side: Seq<char>,
    hunks: Seq<Seq<char>>,
    max_hunks: nat,
    max_lines: nat,
)
    requires
        opens_file(head),
        within_file(said),
        are_plain(hunks),
    ensures
        ({
            let body = file_lines(said, old_side, "/dev/null"@, hunks);
            let f = read_diff(before.push(head) + body, max_hunks, max_lines).all_files().last();
            &&& f.status == "deleted"@
            &&& f.path is None
            &&& old_side == "/dev/null"@ ==> f.old_path is None
            &&& old_side != "/dev/null"@ ==> f.old_path is Some && is_without_side(
                old_side,
                f.old_path->0,
            )
        }),
{
    let body = file_lines(said, old_side, "/dev/null"@, hunks);
    lemma_sides(
        opened_file(after_prefix(head, "diff --git "@)->0),
        said,
        old_side,
        "/dev/null"@,
        hunks,
    );
    lemma_section(before, head, body, max_hunks, max_lines);
    lemma_without_side(old_side);
}

/// A file with two sides, of which git says nothing else, was modified, and has the paths
/// of both sides.
pub proof fn law_modified_file_is_read(
    before: Seq<Seq<char>>,
    head: Seq<char>,
    said: Seq<Seq<char>>,
    old_side: Seq<char>,
    new_side: Seq<char>,
    hunks: Seq<Seq<char>>,
    max_hunks: nat,
    max_lines: nat,
)
    requires
        opens_file(head),
        are_plain(said),
        are_plain(hunks),
        old_side != "/dev/null"@,
        new_side != "/dev/null"@,
    ensures
        ({
            let body = file_lines(said, old_side, new_side, hunks);
            let f = read_diff(before.push(head) + body, max_hunks, max_lines).all_files().last();
            &&& f.status == "modified"@
            &&& !f.binary
            &&& f.old_path is Some && is_without_side(old_side, f.old_path->0)
            &&& f.path is Some && is_without_side(new_side, f.path->0)
        }),
{
    let body = file_lines(said, old_side, new_side, hunks);
    let f = opened_file(after_prefix(head, "diff --git "@)->0);
    lemma_sides(f, said, old_side, new_side, hunks);
    lemma_noted_plain(f, said);
    lemma_section(before, head, body, max_hunks, max_lines);
    lemma_without_side(old_side);
    lemma_without_side(new_side);
}

proof fn lemma_renames(f: FileModel, from: Seq<char>, to: Seq<char>)
    ensures
        file_with_line(f, "rename from "@ + from) == (FileModel {
            old_path: Some(from),
            status: "renamed"@,
            ..f
        }),
        file_with_line(f, "rename to "@ + to) == (FileModel {
            path: Some(to),
            status: "renamed"@,
            ..f
        }),
{
    let a = "rename from "@ + from;
    let b = "rename to "@ + to;
    reveal_strlit("new file mode ");
    reveal_strlit("deleted file mode ");
    reveal_strlit("rename from ");
    reveal_strlit("rename to ");
    assert(a[0] == 'r' && b[0] == 'r' && a[7] == 'f' && b[7] == 't');
    lemma_other_start(a, "new file mode "@, 0);
    lemma_other_start(a, "deleted file mode "@, 0);
    lemma_other_start(b, "new file mode "@, 0);
    lemma_other_start(b, "deleted file mode "@, 0);
    lemma_other_start(b, "rename from "@, 7);
    lemma_starts(a, "rename from "@, from);
    lemma_starts(b, "rename to "@, to);
}

/// A file that git says was renamed has both of its names, whatever else git says of it
/// before, and whether or not its text changed too.
pub proof fn law_renamed_file_is_read(
    before: Seq<Seq<char>>,
    head: Seq<char>,
    said: Seq<Seq<char>>,
    from: Seq<char>,
    to: Seq<char>,
    rest: Seq<Seq<char>>,
    max_hunks: nat,
    max_lines: nat,
)
    requires
        opens_file(head),
        within_file(said),
        are_plain(rest),
    ensures
        ({
            let body = said + seq!["rename from "@ + from, "rename to "@ + to] + rest;
            let f = read_diff(before.push(head) + body, max_hunks, max_lines).all_files().last();
            &&& f.status == "renamed"@
            &&& f.old_path == Some(from)
            &&& f.path == Some(to)
        }),
{
    let a = "rename from "@ + from;
    let b = "rename to "@ + to;
    let names = seq![a, b];
    let body = said + names + rest;
    let f = opened_file(after_prefix(head, "diff --git "@)->0);
    reveal_strlit("rename from ");
    reveal_strlit("rename to ");
    reveal_strlit("diff --git ");
    assert(a[0] == 'r' && b[0] == 'r' && "diff --git "@[0] == 'd');
    lemma_other_start(a, "diff --git "@, 0);
    lemma_other_start(b, "diff --git "@, 0);
    assert forall|i: int| 0 <= i < body.len() implies !opens_file(#[trigger] body[i]) by {
        if i < said.len() {
            assert(body[i] == said[i]);
        } else if i < said.len() + 2 {
            assert(body[i] == names[i - said.len()]);
        } else {
            assert(body[i] == rest[i - said.len() - 2]);
        }
    }
    lemma_noted_add(f, said + names, rest);
    lemma_noted_add(f, said, names);
    let g = noted(f, said);
    assert(names.drop_last() =~= seq![a]);
    assert(seq![a].drop_last() =~= Seq::<Seq<char>>::empty());
    assert(noted(g, Seq::<Seq<char>>::empty()) == g);
    assert(noted(g, seq![a]) == file_with_line(g, a));
    lemma_renames(g, from, to);
    lemma_renames(file_with_line(g, a), from, to);
    lemma_noted_plain(noted(f, said + names), rest);
    lemma_section(before, head, body, max_hunks, max_lines);
}

/// What git says of a file without hunks stands: a new file was added, a deleted one was
/// deleted, and a binary one is told as such.
pub proof fn law_said_of_file_is_read(
    before: Seq<Seq<char>>,
    head: Seq<char>,
    said: Seq<Seq<char>>,
    line: Seq<char>,
    rest: Seq<Seq<char>>,
    max_hunks: nat,
    max_lines: nat,
)
    requires
        opens_file(head),
        are_plain(said),
        !opens_file(line),
        are_plain(rest),
    ensures
        ({
            let body = said.push(line) + rest;
            let f = read_diff(before.push(head) + body, max_hunks, max_lines).all_files().last();
            &&& "new file mode "@.is_prefix_of(line) ==> f.status == "added"@ && !f.binary
            &&& "deleted file mode "@.is_prefix_of(line) ==> f.status == "deleted"@ && !f.binary
            &&& "Binary files "@.is_prefix_of(line) ==> f.status == "modified"@ && f.binary
            &&& !is_header_line(line) ==> f.status == "modified"@ && !f.binary
        }),
{
    let body = said.push(line) + rest;
    let f = opened_file(after_prefix(head, "diff --git "@)->0);
    assert forall|i: int| 0 <= i < body.len() implies !opens_file(#[trigger] body[i]) by {
        if i < said.len() {
            assert(body[i] == said[i]);
        } else if i > said.len() {
            assert(body[i] == rest[i - said.len() - 1]);
        }
    }
    lemma_noted_add(f, said.push(line), rest);
    assert(said.push(line).drop_last() =~= said);
    lemma_noted_plain(f, said);
    lemma_noted_plain(noted(f, said.push(line)), rest);
    lemma_section(before, head, body, max_hunks, max_lines);
    reveal_strlit("new file mode ");
    reveal_strlit("deleted file mode ");
    reveal_strlit("Binary files ");
    reveal_strlit("rename from ");
    reveal_strlit("rename to ");
    if "deleted file mode "@.is_prefix_of(line) {
        assert(line.subrange(0, "deleted file mode "@.len() as int)[0] == 'd');
        lemma_other_start(line, "new file mode "@, 0);
    }
    if "Binary files "@.is_prefix_of(line) {
        assert(line.subrange(0, "Binary files "@.len() as int)[0] == 'B');
        lemma_other_start(line, "new file mode "@, 0);
        lemma_other_start(line, "deleted file mode "@, 0);
        lemma_other_start(line, "rename from "@, 0);
        lemma_other_start(line, "rename to "@, 0);
    }
}

/// The line that opens a file names its two paths, until other lines do.
pub proof fn law_opening_line_names_paths(
    before: Seq<Seq<char>>,
    rest: Seq<char>,
    body: Seq<Seq<char>>,
    max_hunks: nat,
    max_lines: nat,
)
    requires
        are_plain(body),
        words_of(rest).len() == 2,
    ensures
        ({
            let f = read_diff(
                before.push("diff --git "@ + rest) + body,
                max_hunks,
                max_lines,
            ).all_files().last();
            &&& f.status == "modified"@ && !f.binary
            &&& f.old_path is Some && is_without_side(words_of(rest)[0], f.old_path->0)
            &&& f.path is Some && is_without_side(words_of(rest)[1], f.path->0)
        }),
{
    let head = "diff --git "@ + rest;
    lemma_starts(head, "diff --git "@, rest);
    lemma_section(before, head, body, max_hunks, max_lines);
    lemma_noted_plain(opened_file(rest), body);
    lemma_without_side(words_of(rest)[0]);
    lemma_without_side(words_of(rest)[1]);
}

// ---------------------------------------------------------------------------
// Hunks
// ---------------------------------------------------------------------------

/// A hunk is read with its header and the lines that follow, up to the limit; and it says
/// so where lines were left out. The hunks before it stay as they are.
pub proof fn law_hunk_is_read(
    before: Seq<Seq<char>>,
    header: Seq<char>,
    lines: Seq<Seq<char>>,
    max_hunks: nat,
    max_lines: nat,
)
    requires
        read_diff(before, max_hunks, max_lines).all_files().len() > 0,
        "@@ "@.is_prefix_of(header),
        within_hunk(lines),
        max_lines > 0,
    ensures
        ({
            let s = read_diff(before, max_hunks, max_lines);
            let t = read_diff(before.push(header) + lines, max_hunks, max_lines);
            let old = s.all_files().last();
            let new = t.all_files().last();
            &&& t.all_files().len() == s.all_files().len()
            &&& s.count < max_hunks ==> {
                let h = new.hunks.last();
                &&& t.count == s.count + 1
                &&& new.hunks.len() == old.hunks.len() + 1
                &&& new.hunks.drop_last() == old.hunks
                &&& h.header == header
                &&& h.lines[0] == header
                &&& h.truncated == (lines.len() + 1 > max_lines)
                &&& h.lines == seq![header] + (if lines.len() + 1 > max_lines {
                    lines.take(max_lines - 1)
                } else {
                    lines
                })
                &&& t.truncated == (s.truncated || lines.len() + 1 > max_lines)
                &&& (h.old_start, h.old_lines, h.new_start, h.new_lines) == hunk_ranges(header)
            }
            &&& s.count >= max_hunks ==> {
                &&& t.count == s.count
                &&& new.hunks == old.hunks
                &&& t.truncated
            }
        }),
    decreases lines.len(),
{
    let all = before.push(header) + lines;
    let s = read_diff(before, max_hunks, max_lines);
    let t = read_diff(all, max_hunks, max_lines);
    lemma_open(before, max_hunks, max_lines);
    assert(!opens_file(header)) by {
        reveal_strlit("@@ ");
        reveal_strlit("diff --git ");
        assert(header.subrange(0, 3)[0] == '@');
        lemma_other_start(header, "diff --git "@, 0);
    }
    if lines.len() == 0 {
        assert(all =~= before.push(header));
        assert(all.drop_last() =~= before);
        assert(t == s.after_line(header, max_hunks, max_lines));
        if s.count < max_hunks {
            assert(t.all_files().last().hunks.drop_last() =~= s.all_files().last().hunks);
            assert(seq![header] + lines =~= seq![header]);
        }
    } else {
        let front = lines.drop_last();
        assert forall|i: int| 0 <= i < front.len() implies !opens_file(#[trigger] front[i])
            && !"@@ "@.is_prefix_of(front[i]) by {
            assert(front[i] == lines[i]);
        }
        law_hunk_is_read(before, header, front, max_hunks, max_lines);
        assert(all.drop_last() =~= before.push(header) + front);
        assert(all.last() == lines.last());
        let line = lines.last();
        assert(!opens_file(lines[lines.len() - 1]) && !"@@ "@.is_prefix_of(lines[lines.len() - 1]));
        let u = read_diff(before.push(header) + front, max_hunks, max_lines);
        assert(t == u.after_line(line, max_hunks, max_lines));
        lemma_open(before.push(header) + front, max_hunks, max_lines);
        lemma_hunk_open(before, header, front, max_hunks, max_lines);
        if s.count < max_hunks {
            let g = u.hunk->0;
            assert(u.all_files().last().hunks.last() == g);
            assert(u.all_files().last().hunks.drop_last() =~= u.file->0.hunks);
            assert(t.all_files().last().hunks.drop_last() =~= t.file->0.hunks);
            if g.lines.len() < max_lines {
                assert(seq![header] + front.push(line) =~= (seq![header] + front).push(line));
                assert(front.push(line) =~= lines);
            } else {
                assert(front.take(max_lines - 1) =~= lines.take(max_lines - 1));
                if front.len() + 1 == max_lines {
                    assert(lines.take(max_lines - 1) =~= front);
                }
            }
        }
    }
}

proof fn lemma_open(lines: Seq<Seq<char>>, max_hunks: nat, max_lines: nat)
    ensures
        ({
            let s = read_diff(lines, max_hunks, max_lines);
            &&& s.all_files().len() > 0 ==> s.file is Some
            &&& s.hunk is Some ==> s.file is Some
        }),
    decreases lines.len(),
{
    if lines.len() > 0 {
        lemma_open(lines.drop_last(), max_hunks, max_lines);
    }
}

proof fn lemma_hunk_open(
    before: Seq<Seq<char>>,
    header: Seq<char>,
    lines: Seq<Seq<char>>,
    max_hunks: nat,
    max_lines: nat,
)
    requires
        read_diff(before, max_hunks, max_lines).all_files().len() > 0,
        "@@ "@.is_prefix_of(header),
        !opens_file(header),
        within_hunk(lines),
    ensures
        ({
            let s = read_diff(before, max_hunks, max_lines);
            let t = read_diff(before.push(header) + lines, max_hunks, max_lines);
            &&& t.hunk is Some <==> s.count < max_hunks
            &&& t.file is Some
        }),
    decreases lines.len(),
{
    let all = before.push(header) + lines;
    lemma_open(before, max_hunks, max_lines);
    if lines.len() == 0 {
        assert(all =~= before.push(header));
        assert(all.drop_last() =~= before);
    } else {
        let front = lines.drop_last();
        assert forall|i: int| 0 <= i < front.len() implies !opens_file(#[trigger] front[i])
            && !"@@ "@.is_prefix_of(front[i]) by {
            assert(front[i] == lines[i]);
        }
        lemma_hunk_open(before, header, front, max_hunks, max_lines);
        assert(all.drop_last() =~= before.push(header) + front);
        assert(all.last() == lines.last());
        assert(!opens_file(lines[lines.len() - 1]) && !"@@ "@.is_prefix_of(lines[lines.len() - 1]));
    }
}

// ---------------------------------------------------------------------------
// Hunk headers
// ---------------------------------------------------------------------------

proof fn lemma_word_len_is(s: Seq<char>, k: int)
    requires
        0 <= k <= s.len(),
        forall|i: int| 0 <= i < k ==> !is_space(#[trigger] s[i]),
        k < s.len() ==> is_space(s[k]),
    ensures
        word_len(s) == k,
    decreases s.len(),
{
    if k > 0 {
        let t = s.skip(1);
        assert(!is_space(s[0]));
        assert forall|i: int| 0 <= i < k - 1 implies !is_space(#[trigger] t[i]) by {
            assert(t[i] == s[i + 1]);
        }
        lemma_word_len_is(t, k - 1);
    }
}

/// A text that starts with a word and white space has that word, and those of the rest.
pub proof fn lemma_first_word(word: Seq<char>, gap: char, rest: Seq<char>)
    requires
        word.len() > 0,
        forall|i: int| 0 <= i < word.len() ==> !is_space(#[trigger] word[i]),
        is_space(gap),
    ensures
        words_of(word + seq![gap] + rest) == seq![word] + words_of(rest),
        words_of(word) == seq![word],
{
    let s = word + seq![gap] + rest;
    assert forall|i: int| 0 <= i < word.len() implies !is_space(#[trigger] s[i]) by {
        assert(s[i] == word[i]);
    }
    lemma_word_len_is(s, word.len() as int);
    lemma_word_len_is(word, word.len() as int);
    assert(s.take(word.len() as int) =~= word);
    assert(word.take(word.len() as int) =~= word);
    assert(word.skip(word.len() as int) =~= Seq::<char>::empty());
    assert(words_of(Seq::<char>::empty()) =~= Seq::<Seq<char>>::empty());
    assert(seq![word] + Seq::<Seq<char>>::empty() =~= seq![word]);
    let t = s.skip(word.len() as int);
    assert(t[0] == gap);
    assert(t.skip(1) =~= rest);
    assert(!is_space(s[0])) by {
        assert(s[0] == word[0]);
    }
    assert(!is_space(word[0]));
    assert(words_of(t) == words_of(rest));
    assert(words_of(s) == seq![s.take(word_len(s))] + words_of(s.skip(word_len(s))));
}

/// A range of a hunk header: a sign, the first line, and the number of lines.
pub open spec fn written_range(sign: char, start: nat, lines: nat) -> Seq<char> {
    seq![sign] + decimal(start) + seq![','] + decimal(lines)
}

proof fn lemma_range_is_read(sign: char, start: nat, lines: nat)
    requires
        sign == '-' || sign == '+',
        start <= i64::MAX,
        lines <= i64::MAX,
    ensures
        range_of(written_range(sign, start, lines)) == (start as i64, lines as i64),
        range_of(seq![sign] + decimal(start)) == (start as i64, 1i64),
        forall|i: int|
            0 <= i < written_range(sign, start, lines).len() ==> !is_space(
                #[trigger] written_range(sign, start, lines)[i],
            ),
{
    let a = decimal(start);
    let b = decimal(lines);
    let w = written_range(sign, start, lines);
    let set = "-+"@;
    reveal_strlit("-+");
    reveal_strlit(",");
    assert(set.len() == 2 && set[0] == '-' && set[1] == '+');
    assert(","@.len() == 1 && ","@[0] == ',');
    crate::numbers::lemma_decimal_digits(start);
    crate::numbers::lemma_decimal_digits(lines);
    law_decimal_is_read(start, 0);
    law_decimal_is_read(lines, 0);
    let range = a + seq![','] + b;
    assert(is_digit(a[0]));
    assert(w.skip(1) =~= range);
    assert(set.contains(sign)) by {
        if sign == '-' {
            assert(set[0] == sign);
        } else {
            assert(set[1] == sign);
        }
    }
    assert(range[0] == a[0]);
    assert(!set.contains(a[0]));
    assert(trim_start_set(w, set) == trim_start_set(range, set));
    assert(trim_start_set(range, set) == range);
    let k = a.len() as int;
    assert(range.subrange(k, k + 1) =~= ","@);
    assert(occurs_at(range, ","@, k));
    assert forall|i: int| 0 <= i < k implies !occurs_at(range, ","@, i) by {
        if occurs_at(range, ","@, i) {
            assert(range.subrange(i, i + 1)[0] == ',');
            assert(is_digit(a[i]));
        }
    }
    lemma_find_from(range, ","@, 0);
    assert(range.take(k) =~= a);
    assert(range.skip(k + 1) =~= b);
    assert(cut_at(range, ","@) == Some((a, b)));
    let short = seq![sign] + a;
    assert(short.skip(1) =~= a);
    assert(trim_start_set(short, set) == trim_start_set(a, set));
    assert(trim_start_set(a, set) == a);
    assert forall|i: int| !occurs_at(a, ","@, i) by {
        if occurs_at(a, ","@, i) {
            assert(a.subrange(i, i + 1)[0] == ',');
            assert(is_digit(a[i]));
        }
    }
    lemma_find_from(a, ","@, 0);
    assert(cut_at(a, ","@) is None);
    assert forall|i: int| 0 <= i < w.len() implies !is_space(#[trigger] w[i]) by {
        if 1 <= i < 1 + a.len() {
            assert(w[i] == a[i - 1]);
            assert(is_digit(a[i - 1]));
        } else if i > 1 + a.len() {
            assert(w[i] == b[i - 2 - a.len()]);
            assert(is_digit(b[i - 2 - a.len()]));
        }
    }
}

/// The header of a hunk is read as it is written: the first line and the number of lines on
/// the old side, and those on the new side.
pub proof fn law_hunk_header_is_read(
    old_start: nat,
    old_lines: nat,
    new_start: nat,
    new_lines: nat,
    rest: Seq<char>,
)
    requires
        old_start <= i64::MAX,
        old_lines <= i64::MAX,
        new_start <= i64::MAX,
        new_lines <= i64::MAX,
    ensures
        hunk_ranges(
            seq!['@', '@', ' '] + written_range('-', old_start, old_lines) + seq![' ']
                + written_range('+', new_start, new_lines) + seq![' '] + rest,
        ) == (old_start as i64, old_lines as i64, new_start as i64, new_lines as i64),
{
    let a = written_range('-', old_start, old_lines);
    let b = written_range('+', new_start, new_lines);
    let marks = seq!['@', '@'];
    lemma_range_is_read('-', old_start, old_lines);
    lemma_range_is_read('+', new_start, new_lines);
    let tail = b + seq![' '] + rest;
    let more = a + seq![' '] + tail;
    let header = seq!['@', '@', ' '] + a + seq![' '] + b + seq![' '] + rest;
    assert(header =~= marks + seq![' '] + more);
    lemma_first_word(marks, ' ', more);
    lemma_first_word(a, ' ', tail);
    lemma_first_word(b, ' ', rest);
    let words = words_of(header);
    assert(words[1] == a);
    assert(words[2] == b);
}

// ---------------------------------------------------------------------------
// As JSON
// ---------------------------------------------------------------------------

/// A file is told with its paths, its status and its hunks, each under its name, and says
/// that it is binary exactly where it is.
pub proof fn law_file_is_told(f: FileModel)
    ensures
        ({
            let t = file_tree(f);
            &&& t.at("path"@) == match f.path {
                Some(p) => Tree::Text(p),
                None => Tree::Null,
            }
            &&& t.at("old_path"@) == match f.old_path {
                Some(p) => Tree::Text(p),
                None => Tree::Null,
            }
            &&& t.at("status"@) == Tree::Text(f.status)
            &&& t.at("hunks"@) is Array
            &&& t.at("hunks"@)->Array_0.len() == f.hunks.len()
            &&& forall|i: int|
                0 <= i < f.hunks.len() ==> #[trigger] t.at("hunks"@)->Array_0[i] == hunk_tree(
                    f.hunks[i],
                )
            &&& t.get("binary"@) == if f.binary {
                Some(Tree::Bool(true))
            } else {
                None
            }
        }),
{
    reveal_strlit("path");
    reveal_strlit("old_path");
    reveal_strlit("status");
    reveal_strlit("hunks");
    reveal_strlit("binary");
    assert("path"@.len() == 4);
    assert("old_path"@.len() == 8);
    assert("status"@.len() == 6 && "status"@[0] == 's');
    assert("hunks"@.len() == 5);
    assert("binary"@.len() == 6 && "binary"@[0] == 'b');
}

/// A hunk is told with its ranges, its header, its lines and their number.
pub proof fn law_hunk_is_told(h: HunkModel)
    ensures
        ({
            let t = hunk_tree(h);
            &&& t.at("old_start"@) == Tree::Number(h.old_start as int)
            &&& t.at("old_lines"@) == Tree::Number(h.old_lines as int)
            &&& t.at("new_start"@) == Tree::Number(h.new_start as int)
            &&& t.at("new_lines"@) == Tree::Number(h.new_lines as int)
            &&& t.at("header"@) == Tree::Text(h.header)
            &&& t.at("truncated"@) == Tree::Bool(h.truncated)
            &&& t.at("diff"@) == Tree::Text(join(h.lines, "\n"@))
            &&& t.at("line_count"@) == Tree::Number(h.lines.len() as int)
        }),
{
    reveal_strlit("old_start");
    reveal_strlit("old_lines");
    reveal_strlit("new_start");
    reveal_strlit("new_lines");
    reveal_strlit("header");
    reveal_strlit("truncated");
    reveal_strlit("diff");
    reveal_strlit("line_count");
    assert("old_start"@.len() == 9 && "old_start"@[0] == 'o' && "old_start"@[4] == 's');
    assert("old_lines"@.len() == 9 && "old_lines"@[0] == 'o' && "old_lines"@[4] == 'l');
    assert("new_start"@.len() == 9 && "new_start"@[0] == 'n' && "new_start"@[4] == 's');
    assert("new_lines"@.len() == 9 && "new_lines"@[0] == 'n' && "new_lines"@[4] == 'l');
    assert("header"@.len() == 6);
    assert("truncated"@.len() == 9 && "truncated"@[0] == 't');
    assert("diff"@.len() == 4);
    assert("line_count"@.len() == 10);
}

/// Every file of a diff is told, in its place.
pub proof fn law_files_are_told(files: Seq<FileModel>, i: int)
    requires
        0 <= i < files.len(),
    ensures
        files_tree(files) is Array,
        files_tree(files)->Array_0.len() == files.len(),
        files_tree(files)->Array_0[i] == file_tree(files[i]),
{
}

} // verus!
