//! What the git tools run, and what they read out of the output.
use crate::cut::{
    byte_skip, cut_at, lower, piece, piece_at, pieces, split_once, split_text, str_byte_skip,
    str_lower, str_trim_end_set, str_trim_set, str_trim_start_set, str_strip_prefixes,
    strip_prefixes, trim_end_set, trim_set, trim_start_set,
};
use crate::json::text;
use crate::lines::{join, join_all, lines_of, split_lines};
use crate::text::{
    after_prefix, byte_len, chars_of, concat2, concat3, contains_text, find_from, has_text,
    is_space, lemma_find_from, lemma_texts_push, occurs_at, opt_text, opt_view, starts_with,
    str_byte_len, str_eq, str_trim, str_trim_end, strip_prefix, texts, trim, trim_end,
};
use crate::tool_runtime::actions::{no_texts, push_unique_action, with_unique};
use crate::tool_runtime::shell_text::{
    relative_path_error, shell_escape_simple, shell_quoted, validate_project_relative_path,
};
use vstd::prelude::*;
use vstd::string::*;

verus! {

/// Stands between the porcelain status and the diff statistics in the output of
/// the diff summary.
pub const DIFF_SUMMARY_SENTINEL: &'static str = "@@WEBCODEX_DIFF_SUMMARY_SEP@@";

/// Stands between the parts of the output of the change overview.
pub const SHOW_CHANGES_SENTINEL: &'static str = "@@WEBCODEX_SHOW_CHANGES_SEP@@";

/// Prints previews of untracked files as JSON.
pub const SHOW_CHANGES_UNTRACKED_PREVIEW_SCRIPT: &'static str = r#"
import json, os, stat, subprocess, sys
MAX_FILES = 5
MAX_BYTES = 8192
MAX_LINES = 40

def emit(obj):
    sys.stdout.write(json.dumps(obj, ensure_ascii=False))

def skipped(path, reason, byte_count=None):
    obj = {"path": path, "kind": "skipped", "reason": reason}
    if byte_count is not None:
        obj["byte_count"] = byte_count
    return obj

def decode_path(raw):
    try:
        return raw.decode("utf-8")
    except UnicodeDecodeError:
        return raw.decode("utf-8", "backslashreplace")

def path_is_sensitive(path):
    parts = [part.lower() for part in path.replace("\\", "/").split("/") if part and part != "."]
    for part in parts:
        if part in [".git", "target", "node_modules", "projects.d", "agent.toml", "webcodex.env", ".env", "secrets", "tokens"]:
            return True
        if part.startswith(".env") or part.startswith("agent.toml") or part.startswith("webcodex.env"):
            return True
        if part in ["id_rsa", "id_ed25519"] or part.endswith(".pem") or part.endswith(".key"):
            return True
    return False

def path_is_invalid(path):
    if not path or "\x00" in path or os.path.isabs(path):
        return True
    parts = [part for part in path.replace("\\", "/").split("/") if part]
    return any(part == ".." for part in parts)

try:
    status = subprocess.check_output(["git", "status", "--porcelain=v1", "-z"], stderr=subprocess.DEVNULL)
except Exception:
    emit({"previews": [], "truncated": False})
    sys.exit(0)

raw_paths = []
for entry in status.split(b"\x00"):
    if entry.startswith(b"?? "):
        raw_paths.append(entry[3:])

root = os.path.realpath(".")
previews = []
for raw_path in raw_paths[:MAX_FILES]:
    try:
        path = raw_path.decode("utf-8")
    except UnicodeDecodeError:
        previews.append(skipped(decode_path(raw_path), "binary_or_non_utf8"))
        continue
    if path_is_invalid(path) or path_is_sensitive(path):
        previews.append(skipped(path, "sensitive_or_excluded_path"))
        continue
    full_path = os.path.abspath(os.path.join(root, path))
    if full_path != root and not full_path.startswith(root + os.sep):
        previews.append(skipped(path, "sensitive_or_excluded_path"))
        continue
    try:
        real_path = os.path.realpath(full_path)
    except OSError:
        previews.append(skipped(path, "sensitive_or_excluded_path"))
        continue
    if real_path != root and not real_path.startswith(root + os.sep):
        previews.append(skipped(path, "sensitive_or_excluded_path"))
        continue
    try:
        st = os.lstat(full_path)
    except OSError:
        previews.append(skipped(path, "not_found"))
        continue
    if stat.S_ISLNK(st.st_mode):
        previews.append(skipped(path, "sensitive_or_excluded_path"))
        continue
    if not stat.S_ISREG(st.st_mode):
        previews.append(skipped(path, "not_regular_file"))
        continue
    byte_count = int(st.st_size)
    if byte_count > MAX_BYTES:
        previews.append(skipped(path, "too_large", byte_count))
        continue
    try:
        with open(full_path, "rb") as f:
            data = f.read(MAX_BYTES + 1)
    except OSError:
        previews.append(skipped(path, "read_error"))
        continue
    if len(data) > MAX_BYTES:
        previews.append(skipped(path, "too_large", max(byte_count, len(data))))
        continue
    if b"\x00" in data or any(byte < 32 and byte not in (9, 10, 13) for byte in data):
        previews.append(skipped(path, "binary_or_non_utf8", len(data)))
        continue
    try:
        text = data.decode("utf-8")
    except UnicodeDecodeError:
        previews.append(skipped(path, "binary_or_non_utf8", len(data)))
        continue
    all_lines = text.splitlines()
    shown_lines = all_lines[:MAX_LINES]
    previews.append({
        "path": path,
        "kind": "text",
        "line_count": len(all_lines),
        "byte_count": len(data),
        "truncated": len(all_lines) > MAX_LINES,
        "lines": [{"line": index + 1, "text": line} for index, line in enumerate(shown_lines)],
    })

emit({"previews": previews, "truncated": len(raw_paths) > MAX_FILES, "limit": MAX_FILES})
"#;

// ---------------------------------------------------------------------------
// Commands
// ---------------------------------------------------------------------------

/// The command behind the diff summary. It changes nothing.
pub open spec fn diff_summary_script() -> Seq<char> {
    "git status --porcelain; printf '\\n"@ + DIFF_SUMMARY_SENTINEL@ + "\\n'; git diff --stat"@
}

/// The command behind the diff summary. It changes nothing.
pub fn git_diff_summary_command() -> (r: String)
    ensures
        r@ == diff_summary_script(),
{
    concat3("git status --porcelain; printf '\\n", DIFF_SUMMARY_SENTINEL, "\\n'; git diff --stat")
}

/// Prints the sentinel of the change overview on a line of its own.
pub open spec fn print_sentinel() -> Seq<char> {
    "printf '\\n"@ + SHOW_CHANGES_SENTINEL@ + "\\n'; "@
}

/// The command behind the change overview: status, last commit and statistics, and
/// where they are asked for the diff and previews of untracked files. It changes
/// nothing.
pub open spec fn show_changes_script(include_diff: bool) -> Seq<char> {
    "git status --porcelain=v1 -b; "@ + print_sentinel()
        + "{ git log -1 --format='%H%x00%h%x00%s' || true; }; "@ + print_sentinel()
        + "git diff --stat"@ + (if include_diff {
        "; "@ + print_sentinel() + "git diff --unified=80; show_changes_status=$?; "@
            + print_sentinel() + "python3 -c "@ + shell_quoted(
            SHOW_CHANGES_UNTRACKED_PREVIEW_SCRIPT@,
        ) + " 2>/dev/null || printf '[]\\n'; exit $show_changes_status"@
    } else {
        seq![]
    })
}

fn sentinel_printer() -> (r: String)
    ensures
        r@ == print_sentinel(),
{
    concat3("printf '\\n", SHOW_CHANGES_SENTINEL, "\\n'; ")
}

/// The command behind the change overview.
pub fn show_changes_command(include_diff: bool) -> (r: String)
    ensures
        r@ == show_changes_script(include_diff),
{
    let sep = sentinel_printer();
    let mut out = concat2("git status --porcelain=v1 -b; ", sep.as_str());
    out.append("{ git log -1 --format='%H%x00%h%x00%s' || true; }; ");
    out.append(sep.as_str());
    out.append("git diff --stat");
    let mut diff = String::new();
    assert(diff@ =~= seq![]);
    if include_diff {
        let script = shell_escape_simple(SHOW_CHANGES_UNTRACKED_PREVIEW_SCRIPT);
        diff = concat2("; ", sep.as_str());
        diff.append("git diff --unified=80; show_changes_status=$?; ");
        diff.append(sep.as_str());
        diff.append("python3 -c ");
        diff.append(script.as_str());
        diff.append(" 2>/dev/null || printf '[]\\n'; exit $show_changes_status");
    }
    out.append(diff.as_str());
    out
}

/// The words of a diff command for the paths.
pub open spec fn diff_words(paths: Seq<Seq<char>>, cached: bool) -> Seq<Seq<char>> {
    seq!["git"@, "diff"@] + (if cached {
        seq!["--cached"@]
    } else {
        seq![]
    }) + seq!["--unified=80"@] + (if paths.len() > 0 {
        seq!["--"@] + Seq::new(paths.len(), |i: int| shell_quoted(paths[i]))
    } else {
        seq![]
    })
}

/// The command that prints the diff of the paths, or of everything without paths.
pub fn git_diff_hunks_command(paths: &Vec<String>, cached: bool) -> (r: Result<String, String>)
    ensures
        r is Ok,
        r->Ok_0@ == join(diff_words(texts(paths@), cached), " "@),
{
    broadcast use lemma_texts_push;

    let mut parts = no_texts();
    parts.push("git".to_owned());
    parts.push("diff".to_owned());
    if cached {
        parts.push("--cached".to_owned());
    }
    parts.push("--unified=80".to_owned());
    if paths.len() > 0 {
        parts.push("--".to_owned());
        let ghost base = texts(parts@);
        let mut i: usize = 0;
        assert(base + Seq::new(0, |j: int| shell_quoted(texts(paths@)[j])) =~= base);
        while i < paths.len()
            invariant
                i <= paths@.len(),
                texts(parts@) == base + Seq::new(i as nat, |j: int| shell_quoted(texts(paths@)[j])),
            decreases paths@.len() - i,
        {
            let word = shell_escape_simple(paths[i].as_str());
            push_text(&mut parts, word.as_str());
            proof {
                assert(texts(paths@)[i as int] == paths@[i as int]@);
                assert(Seq::new(i as nat, |j: int| shell_quoted(texts(paths@)[j])).push(
                    shell_quoted(paths@[i as int]@),
                ) =~= Seq::new((i + 1) as nat, |j: int| shell_quoted(texts(paths@)[j])));
                assert(texts(parts@) =~= base + Seq::new(
                    (i + 1) as nat,
                    |j: int| shell_quoted(texts(paths@)[j]),
                ));
            }
            i = i + 1;
        }
    }
    assert(texts(parts@) =~= diff_words(texts(paths@), cached));
    Ok(join_all(&parts, " "))
}

/// A path without what says that it is relative or a directory.
pub open spec fn plain_path(raw: Seq<char>) -> Seq<char> {
    trim_end_set(strip_prefixes(trim(raw), "./"@), "/"@)
}

/// What is wrong with a path to diff.
pub open spec fn diff_path_error(raw: Seq<char>) -> Option<Seq<char>> {
    if relative_path_error(raw) is Some {
        relative_path_error(raw)
    } else if plain_path(raw).len() == 0 || plain_path(raw) == "."@ {
        Some("diff path must name a file or directory, not the project root"@)
    } else {
        None
    }
}

/// The first complaint about the paths.
pub open spec fn diff_paths_error(paths: Seq<Seq<char>>) -> Option<Seq<char>>
    decreases paths.len(),
{
    if paths.len() == 0 {
        None
    } else if diff_paths_error(paths.drop_last()) is Some {
        diff_paths_error(paths.drop_last())
    } else {
        diff_path_error(paths.last())
    }
}

/// The plain paths, each once.
pub open spec fn plain_paths(paths: Seq<Seq<char>>) -> Seq<Seq<char>>
    decreases paths.len(),
{
    if paths.len() == 0 {
        seq![]
    } else {
        with_unique(plain_paths(paths.drop_last()), plain_path(paths.last()))
    }
}

proof fn lemma_diff_paths_error(paths: Seq<Seq<char>>, k: int)
    requires
        0 <= k <= paths.len(),
        diff_paths_error(paths.take(k)) is Some,
    ensures
        diff_paths_error(paths) == diff_paths_error(paths.take(k)),
    decreases paths.len(),
{
    if k < paths.len() {
        assert(paths.drop_last().take(k) =~= paths.take(k));
        lemma_diff_paths_error(paths.drop_last(), k);
    } else {
        assert(paths.take(k) =~= paths);
    }
}

/// Checks the paths to diff, and makes them plain.
pub fn clean_optional_paths(paths: Option<Vec<String>>) -> (r: Result<Vec<String>, String>)
    ensures
        ({
            let given = match paths {
                Some(v) => texts(v@),
                None => seq![],
            };
            match r {
                Ok(v) => diff_paths_error(given) is None && texts(v@) == plain_paths(given),
                Err(e) => diff_paths_error(given) == Some(e@),
            }
        }),
{
    let mut clean = no_texts();
    let Some(given) = paths else {
        return Ok(clean);
    };
    let ghost all = texts(given@);
    let mut i: usize = 0;
    assert(texts(clean@) =~= plain_paths(all.take(0)));
    while i < given.len()
        invariant
            i <= given@.len(),
            paths == Some(given),
            all == texts(given@),
            diff_paths_error(all.take(i as int)) is None,
            texts(clean@) == plain_paths(all.take(i as int)),
        decreases given@.len() - i,
    {
        proof {
            assert(all.take(i + 1).drop_last() =~= all.take(i as int));
            assert(all.take(i + 1).last() == given@[i as int]@);
        }
        match validate_project_relative_path(given[i].as_str()) {
            Ok(_) => {},
            Err(e) => {
                proof {
                    lemma_diff_paths_error(all, i + 1);
                }
                return Err(e);
            },
        }
        let path = str_trim_end_set(str_strip_prefixes(str_trim(given[i].as_str()), "./"), "/");
        if path.is_empty() || str_eq(path, ".") {
            proof {
                lemma_diff_paths_error(all, i + 1);
            }
            return Err(
                "diff path must name a file or directory, not the project root".to_owned(),
            );
        }
        push_unique_action(&mut clean, path);
        i = i + 1;
    }
    assert(all.take(i as int) =~= all);
    Ok(clean)
}

// ---------------------------------------------------------------------------
// Cutting the output into parts
// ---------------------------------------------------------------------------

/// The parts of the output of the change overview: status, last commit, statistics,
/// diff and previews. The last two are empty where they were not asked for.
pub open spec fn show_changes_parts(stdout: Seq<char>, include_diff: bool) -> (
    Seq<char>,
    Seq<char>,
    Seq<char>,
    Seq<char>,
    Seq<char>,
) {
    let v = pieces(stdout, SHOW_CHANGES_SENTINEL@);
    let ends = "\n\r"@;
    (
        trim_end_set(piece(v, 0), ends),
        trim_set(piece(v, 1), ends),
        trim_set(piece(v, 2), ends),
        if include_diff {
            trim_start_set(piece(v, 3), ends)
        } else {
            seq![]
        },
        if include_diff {
            trim_set(piece(v, 4), ends)
        } else {
            seq![]
        },
    )
}

/// Cuts the output of the change overview into its parts.
pub fn split_show_changes_stdout(stdout: &str, include_diff: bool) -> (r: (
    String,
    String,
    String,
    String,
    String,
))
    ensures
        (r.0@, r.1@, r.2@, r.3@, r.4@) == show_changes_parts(stdout@, include_diff),
{
    proof {
        reveal_strlit("@@WEBCODEX_SHOW_CHANGES_SEP@@");
    }
    let v = split_text(stdout, SHOW_CHANGES_SENTINEL);
    let status = str_trim_end_set(piece_at(&v, 0), "\n\r").to_owned();
    let head = str_trim_set(piece_at(&v, 1), "\n\r").to_owned();
    let stat = str_trim_set(piece_at(&v, 2), "\n\r").to_owned();
    let mut diff = String::new();
    let mut previews = String::new();
    assert(diff@ =~= seq![]);
    assert(previews@ =~= seq![]);
    if include_diff {
        diff = str_trim_start_set(piece_at(&v, 3), "\n\r").to_owned();
        previews = str_trim_set(piece_at(&v, 4), "\n\r").to_owned();
    }
    (status, head, stat, diff, previews)
}

/// The parts of the output of the diff summary: porcelain status and statistics.
/// Without the sentinel all of it is status.
pub open spec fn diff_summary_parts(stdout: Seq<char>) -> (Seq<char>, Seq<char>) {
    match cut_at(stdout, DIFF_SUMMARY_SENTINEL@) {
        Some((before, after)) => (
            trim_end_set(before, "\n\r"@),
            trim_end(trim_start_set(after, "\n\r"@)),
        ),
        None => (trim_end(stdout), seq![]),
    }
}

/// Cuts the output of the diff summary into its parts.
pub fn split_diff_summary(stdout: &str) -> (r: (String, String))
    ensures
        (r.0@, r.1@) == diff_summary_parts(stdout@),
{
    match split_once(stdout, DIFF_SUMMARY_SENTINEL) {
        Some((before, after)) => (
            str_trim_end_set(before, "\n\r").to_owned(),
            str_trim_end(str_trim_start_set(after, "\n\r")).to_owned(),
        ),
        None => {
            let none = String::new();
            assert(none@ =~= seq![]);
            (str_trim_end(stdout).to_owned(), none)
        },
    }
}

/// The parts of the diff summary come out as they went in: a status and statistics,
/// each on lines of their own around the sentinel, are cut apart again, where neither
/// has what is trimmed at its ends and the status does not hold the sentinel itself.
pub proof fn law_diff_summary_is_cut(status: Seq<char>, stat: Seq<char>)
    requires
        !has_text(status, DIFF_SUMMARY_SENTINEL@),
        status.len() > 0 ==> status.last() != '\n' && status.last() != '\r',
        stat.len() > 0 ==> stat[0] != '\n' && stat[0] != '\r' && !is_space(stat.last()),
    ensures
        diff_summary_parts(status + "\n"@ + DIFF_SUMMARY_SENTINEL@ + "\n"@ + stat) == (
            status,
            stat,
        ),
{
    reveal_strlit("\n");
    reveal_strlit("\n\r");
    reveal_strlit("@@WEBCODEX_DIFF_SUMMARY_SEP@@");
    let p = DIFF_SUMMARY_SENTINEL@;
    let ends = "\n\r"@;
    let all = status + "\n"@ + p + "\n"@ + stat;
    let k = status.len() as int + 1;
    assert(p.len() == 29 && ends.len() == 2);
    assert(ends[0] == '\n' && ends[1] == '\r');
    assert(all[k - 1] == '\n');
    assert(all.subrange(k, k + p.len()) =~= p);
    assert forall|j: int| 0 <= j < k implies !occurs_at(all, p, j) by {
        if occurs_at(all, p, j) {
            let found = all.subrange(j, j + p.len());
            if j + p.len() <= status.len() {
                assert(status.subrange(j, j + p.len()) =~= found);
                assert(occurs_at(status, p, j));
            } else {
                assert(found[k - 1 - j] == '\n');
                lemma_sentinel_is_one_line(k - 1 - j);
            }
        }
    }
    assert(occurs_at(all, p, k));
    lemma_find_from(all, p, 0);
    assert(find_from(all, p, 0) == Some(k));
    let before = all.take(k);
    let after = all.skip(k + p.len());
    assert(before.last() == '\n' && before.drop_last() =~= status);
    assert(ends.contains('\n'));
    assert(status.len() > 0 ==> !ends.contains(status.last()));
    assert(trim_end_set(status, ends) == status);
    assert(trim_end_set(before, ends) == status);
    assert(after =~= "\n"@ + stat);
    assert(after[0] == '\n' && after.skip(1) =~= stat);
    assert(stat.len() > 0 ==> !ends.contains(stat[0]));
    assert(trim_start_set(stat, ends) == stat);
    assert(trim_start_set(after, ends) == stat);
}

proof fn lemma_sentinel_is_one_line(i: int)
    requires
        0 <= i < DIFF_SUMMARY_SENTINEL@.len(),
    ensures
        DIFF_SUMMARY_SENTINEL@[i] != '\n',
{
    reveal_strlit("@@WEBCODEX_DIFF_SUMMARY_SEP@@");
}

/// Without the sentinel all of the output is status.
pub proof fn law_diff_summary_without_sentinel(stdout: Seq<char>)
    requires
        !has_text(stdout, DIFF_SUMMARY_SENTINEL@),
    ensures
        diff_summary_parts(stdout) == (trim_end(stdout), Seq::<char>::empty()),
{
    lemma_find_from(stdout, DIFF_SUMMARY_SENTINEL@, 0);
}

// ---------------------------------------------------------------------------
// Status lines
// ---------------------------------------------------------------------------

/// The branch that a status line names.
pub open spec fn branch_of(line: Seq<char>) -> Option<Seq<char>> {
    match after_prefix(line, "## "@) {
        Some(rest) => {
            let name = match cut_at(rest, "..."@) {
                Some((local, _)) => local,
                None => rest,
            };
            let branch = trim_set(trim(name), "\""@);
            if branch.len() == 0 {
                None
            } else {
                Some(branch)
            }
        },
        None => None,
    }
}

/// The branch that a status line names.
pub fn parse_status_branch(line: &str) -> (r: Option<String>)
    ensures
        opt_text(r) == branch_of(line@),
{
    let Some(rest) = strip_prefix(line, "## ") else {
        return None;
    };
    let name = match split_once(rest, "...") {
        Some((local, _)) => local,
        None => rest,
    };
    let branch = str_trim_set(str_trim(name), "\"");
    if branch.is_empty() {
        None
    } else {
        Some(branch.to_owned())
    }
}

/// A path without the white space and the quotes around it.
pub open spec fn bare_path(s: Seq<char>) -> Seq<char> {
    trim_set(trim(s), "\""@)
}

/// The path of a status line, and for a renamed file its previous path.
pub open spec fn paths_of(part: Seq<char>) -> (Seq<char>, Option<Seq<char>>) {
    match cut_at(bare_path(part), " -> "@) {
        Some((old_path, new_path)) => (bare_path(new_path), Some(bare_path(old_path))),
        None => (bare_path(part), None),
    }
}

/// The path of a status line, and for a renamed file its previous path.
pub fn porcelain_path(path_part: &str) -> (r: (String, Option<String>))
    ensures
        (r.0@, opt_text(r.1)) == paths_of(path_part@),
{
    let part = str_trim_set(str_trim(path_part), "\"");
    match split_once(part, " -> ") {
        Some((old_path, new_path)) => (
            str_trim_set(str_trim(new_path), "\"").to_owned(),
            Some(str_trim_set(str_trim(old_path), "\"").to_owned()),
        ),
        None => (part.to_owned(), None),
    }
}

/// The word for the two status characters of a line.
pub open spec fn label_of(x: char, y: char) -> Seq<char> {
    if x == '?' && y == '?' {
        "untracked"@
    } else if x == 'R' || y == 'R' {
        "renamed"@
    } else if x == 'C' || y == 'C' {
        "copied"@
    } else if x == 'D' || y == 'D' {
        "deleted"@
    } else if x == 'A' || y == 'A' {
        "added"@
    } else {
        "modified"@
    }
}

/// The word for the two status characters of a line.
pub fn status_label(x: char, y: char) -> (r: &'static str)
    ensures
        r@ == label_of(x, y),
{
    if x == '?' && y == '?' {
        "untracked"
    } else if x == 'R' || y == 'R' {
        "renamed"
    } else if x == 'C' || y == 'C' {
        "copied"
    } else if x == 'D' || y == 'D' {
        "deleted"
    } else if x == 'A' || y == 'A' {
        "added"
    } else {
        "modified"
    }
}

/// Whether a path looks like one of a file that was left behind by a trial.
pub open spec fn is_smoke_path(path: Seq<char>) -> bool {
    let p = lower(path);
    has_text(p, "smoke"@) || has_text(p, "tmp"@) || has_text(p, "test"@) || has_text(p, "anchor"@)
}

/// Whether a path looks like one of a file that was left behind by a trial.
pub fn looks_like_smoke_path(path: &str) -> (r: bool)
    ensures
        r == is_smoke_path(path@),
{
    let p = str_lower(path);
    contains_text(p.as_str(), "smoke") || contains_text(p.as_str(), "tmp") || contains_text(
        p.as_str(),
        "test",
    ) || contains_text(p.as_str(), "anchor")
}

/// A file that a status line names.
#[derive(Debug)]
pub struct ChangedFile {
    pub path: String,
    pub status: String,
    pub staged: bool,
    pub unstaged: bool,
    pub untracked: bool,
    pub old_path: Option<String>,
}

/// The mathematical value of a [`ChangedFile`].
#[verifier::ext_equal]
pub struct ChangedModel {
    pub path: Seq<char>,
    pub status: Seq<char>,
    pub staged: bool,
    pub unstaged: bool,
    pub untracked: bool,
    pub old_path: Option<Seq<char>>,
}

impl View for ChangedFile {
    type V = ChangedModel;

    open spec fn view(&self) -> ChangedModel {
        ChangedModel {
            path: self.path@,
            status: self.status@,
            staged: self.staged,
            unstaged: self.unstaged,
            untracked: self.untracked,
            old_path: opt_text(self.old_path),
        }
    }
}

/// The character at `i`, or a blank.
pub open spec fn char_or_blank(s: Seq<char>, i: int) -> char {
    if 0 <= i < s.len() {
        s[i]
    } else {
        ' '
    }
}

/// The file that a status line names. Lines on branches and ignored files name
/// none.
pub open spec fn changed_file(line: Seq<char>) -> Option<ChangedModel> {
    let x = char_or_blank(line, 0);
    let y = char_or_blank(line, 1);
    let part = match byte_skip(line, 3) {
        Some(rest) => rest,
        None => seq![],
    };
    let (path, old_path) = paths_of(part);
    let untracked = x == '?' && y == '?';
    if branch_of(line) is Some || byte_len(line) < 3 || (x == '!' && y == '!') || path.len() == 0 {
        None
    } else {
        Some(
            ChangedModel {
                path,
                status: label_of(x, y),
                staged: !untracked && x != ' ' && x != '?',
                unstaged: !untracked && y != ' ' && y != '?',
                untracked,
                old_path,
            },
        )
    }
}

/// Reads the file that a status line names.
pub fn parse_changed_file(line: &str) -> (r: Option<ChangedFile>)
    ensures
        opt_view(r) == changed_file(line@),
{
    if parse_status_branch(line).is_some() || str_byte_len(line) < 3 {
        return None;
    }
    let cs = chars_of(line);
    let x = if cs.len() > 0 {
        cs[0]
    } else {
        ' '
    };
    let y = if cs.len() > 1 {
        cs[1]
    } else {
        ' '
    };
    if x == '!' && y == '!' {
        return None;
    }
    let part = match str_byte_skip(line, 3) {
        Some(rest) => rest,
        None => {
            proof {
                reveal_strlit("");
            }
            assert(""@ =~= seq![]);
            ""
        },
    };
    let (path, old_path) = porcelain_path(part);
    if path.as_str().is_empty() {
        return None;
    }
    let untracked = x == '?' && y == '?';
    Some(
        ChangedFile {
            path,
            status: status_label(x, y).to_owned(),
            staged: !untracked && x != ' ' && x != '?',
            unstaged: !untracked && y != ' ' && y != '?',
            untracked,
            old_path,
        },
    )
}

// ---------------------------------------------------------------------------
// Porcelain summaries
// ---------------------------------------------------------------------------

/// The paths of a porcelain status, by kind.
#[derive(Debug)]
pub struct PorcelainSummary {
    pub changed_files: Vec<String>,
    pub tracked_changed_files: Vec<String>,
    pub untracked_files: Vec<String>,
    pub ignored_files: Vec<String>,
    pub changed_files_count: usize,
}

/// Whether a line can be cut behind its two status characters and behind the blank
/// that follows them. Lines that are too short are not cut.
pub open spec fn can_cut(line: Seq<char>) -> bool {
    byte_len(line) < 4 || (byte_skip(line, 2) is Some && byte_skip(line, 3) is Some)
}

/// Whether every line of a porcelain status can be cut.
pub open spec fn all_can_be_cut(porcelain: Seq<char>) -> bool {
    forall|i: int| 0 <= i < lines_of(porcelain).len() ==> can_cut(#[trigger] lines_of(porcelain)[i])
}

/// The path of a porcelain line; for a renamed file the one that it has now.
pub open spec fn porcelain_line_path(line: Seq<char>) -> Option<Seq<char>> {
    if byte_len(line) < 4 || byte_skip(line, 3) is None {
        None
    } else {
        let part = byte_skip(line, 3)->0;
        let path = match cut_at(part, " -> "@) {
            Some((_, target)) => bare_path(target),
            None => bare_path(part),
        };
        if path.len() == 0 {
            None
        } else {
            Some(path)
        }
    }
}

/// The paths of the lines for which `keep` holds of the two status characters.
pub open spec fn porcelain_paths(lines: Seq<Seq<char>>, keep: PorcelainKind) -> Seq<Seq<char>>
    decreases lines.len(),
{
    if lines.len() == 0 {
        seq![]
    } else {
        let front = porcelain_paths(lines.drop_last(), keep);
        match porcelain_line_path(lines.last()) {
            Some(path) => if keeps(keep, lines.last()) {
                front.push(path)
            } else {
                front
            },
            None => front,
        }
    }
}

/// The kinds of paths in a porcelain status.
pub enum PorcelainKind {
    All,
    Known,
    Untracked,
    Ignored,
}

/// Whether a line is of the kind.
pub open spec fn keeps(kind: PorcelainKind, line: Seq<char>) -> bool {
    let untracked = "??"@.is_prefix_of(line);
    let ignored = "!!"@.is_prefix_of(line);
    match kind {
        PorcelainKind::All => true,
        PorcelainKind::Known => !untracked && !ignored,
        PorcelainKind::Untracked => untracked,
        PorcelainKind::Ignored => ignored,
    }
}

fn push_text(v: &mut Vec<String>, s: &str)
    ensures
        texts(final(v)@) == texts(old(v)@).push(s@),
{
    broadcast use lemma_texts_push;

    v.push(s.to_owned());
}

/// Reads a porcelain status into its paths, by kind.
pub fn parse_porcelain_summary(porcelain: &str) -> (r: PorcelainSummary)
    requires
        all_can_be_cut(porcelain@),
    ensures
        ({
            let lines = lines_of(porcelain@);
            &&& texts(r.changed_files@) == porcelain_paths(lines, PorcelainKind::All)
            &&& texts(r.tracked_changed_files@) == porcelain_paths(lines, PorcelainKind::Known)
            &&& texts(r.untracked_files@) == porcelain_paths(lines, PorcelainKind::Untracked)
            &&& texts(r.ignored_files@) == porcelain_paths(lines, PorcelainKind::Ignored)
            &&& r.changed_files_count == porcelain_paths(lines, PorcelainKind::All).len()
        }),
{
    let lines = split_lines(porcelain);
    let ghost all = texts(lines@);
    let mut changed = no_texts();
    let mut known = no_texts();
    let mut untracked = no_texts();
    let mut ignored = no_texts();
    let mut i: usize = 0;
    assert(all.take(0) =~= seq![]);
    while i < lines.len()
        invariant
            i <= lines@.len(),
            all == texts(lines@),
            all == lines_of(porcelain@),
            all_can_be_cut(porcelain@),
            texts(changed@) == porcelain_paths(all.take(i as int), PorcelainKind::All),
            texts(known@) == porcelain_paths(all.take(i as int), PorcelainKind::Known),
            texts(untracked@) == porcelain_paths(all.take(i as int), PorcelainKind::Untracked),
            texts(ignored@) == porcelain_paths(all.take(i as int), PorcelainKind::Ignored),
        decreases lines@.len() - i,
    {
        let line = lines[i].as_str();
        proof {
            assert(all.take(i + 1).drop_last() =~= all.take(i as int));
            assert(all.take(i + 1).last() == line@);
            assert(all[i as int] == line@);
        }
        if str_byte_len(line) >= 4 {
            if let Some(part) = str_byte_skip(line, 3) {
                let target = match split_once(part, " -> ") {
                    Some((_, target)) => target,
                    None => part,
                };
                let path = str_trim_set(str_trim(target), "\"");
                if !path.is_empty() {
                    let is_untracked = starts_with(line, "??");
                    let is_ignored = starts_with(line, "!!");
                    proof {
                        lemma_kinds_differ(line@);
                    }
                    if is_untracked {
                        push_text(&mut untracked, path);
                    } else if is_ignored {
                        push_text(&mut ignored, path);
                    } else {
                        push_text(&mut known, path);
                    }
                    push_text(&mut changed, path);
                }
            }
        }
        i = i + 1;
    }
    assert(all.take(i as int) =~= all);
    let changed_files_count = changed.len();
    assert(texts(changed@).len() == changed_files_count);
    PorcelainSummary {
        changed_files: changed,
        tracked_changed_files: known,
        untracked_files: untracked,
        ignored_files: ignored,
        changed_files_count,
    }
}

proof fn lemma_kinds_differ(line: Seq<char>)
    ensures
        !("??"@.is_prefix_of(line) && "!!"@.is_prefix_of(line)),
{
    reveal_strlit("??");
    reveal_strlit("!!");
    let a = "??"@;
    let b = "!!"@;
    assert(a.len() == 2 && a[0] == '?');
    assert(b.len() == 2 && b[0] == '!');
    if a.is_prefix_of(line) && b.is_prefix_of(line) {
        assert(a[0] == line[0]);
        assert(b[0] == line[0]);
    }
}

/// Whether every line of a porcelain status can be cut.
pub fn porcelain_can_be_cut(porcelain: &str) -> (r: bool)
    ensures
        r == all_can_be_cut(porcelain@),
{
    let lines = split_lines(porcelain);
    let ghost all = texts(lines@);
    let mut i: usize = 0;
    while i < lines.len()
        invariant
            i <= lines@.len(),
            all == texts(lines@),
            all == lines_of(porcelain@),
            forall|j: int| 0 <= j < i ==> can_cut(#[trigger] all[j]),
        decreases lines@.len() - i,
    {
        let line = lines[i].as_str();
        assert(all[i as int] == line@);
        if str_byte_len(line) >= 4 && (str_byte_skip(line, 2).is_none() || str_byte_skip(
            line,
            3,
        ).is_none()) {
            assert(!can_cut(lines_of(porcelain@)[i as int]));
            return false;
        }
        i = i + 1;
    }
    true
}

/// The paths of a porcelain status.
pub fn parse_porcelain_files(porcelain: &str) -> (r: Vec<String>)
    requires
        all_can_be_cut(porcelain@),
    ensures
        texts(r@) == porcelain_paths(lines_of(porcelain@), PorcelainKind::All),
{
    parse_porcelain_summary(porcelain).changed_files
}

} // verus!
