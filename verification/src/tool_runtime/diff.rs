//! Reading unified diffs into files and hunks.
use crate::cut::{cut_at, split_once, str_trim_start_set, trim_start_set};
use crate::json::{
    array, boolean, field, no_fields, number, opt_text_json, signed, opt_text_tree, text, trees, Json, ObjectBuilder, Tree,
};
use crate::lines::{join, join_all, lines_of, split_lines, split_words, words_of};
use crate::numbers::{parse_i64, parse_signed};
use crate::text::{
    after_prefix, lemma_texts_push, opt_text, opt_view, starts_with, str_eq, strip_prefix, texts,
    views,
};
use crate::tool_runtime::actions::no_texts;
use vstd::prelude::*;

verus! {

// ---------------------------------------------------------------------------
// Header lines
// ---------------------------------------------------------------------------

/// A path of a diff without the letter of its side.
pub open spec fn without_side(path: Seq<char>) -> Seq<char> {
    match after_prefix(path, "a/"@) {
        Some(rest) => rest,
        None => match after_prefix(path, "b/"@) {
            Some(rest) => rest,
            None => path,
        },
    }
}

/// A path of a diff without the letter of its side.
pub fn strip_diff_prefix(path: &str) -> (r: String)
    ensures
        r@ == without_side(path@),
{
    match strip_prefix(path, "a/") {
        Some(rest) => rest.to_owned(),
        None => match strip_prefix(path, "b/") {
            Some(rest) => rest.to_owned(),
            None => path.to_owned(),
        },
    }
}

/// The number that `s` writes, or `default`.
pub open spec fn number_or(s: Seq<char>, default: i64) -> i64 {
    match parse_signed(s) {
        Some(n) => n as i64,
        None => default,
    }
}

fn parse_or(s: &str, default: i64) -> (r: i64)
    ensures
        r == number_or(s@, default),
{
    match parse_i64(s) {
        Some(n) => n,
        None => default,
    }
}

/// The first line and the number of lines of a range such as `-3,7`. Without a
/// number of lines it is one.
pub open spec fn range_of(raw: Seq<char>) -> (i64, i64) {
    let range = trim_start_set(raw, "-+"@);
    match cut_at(range, ","@) {
        Some((start, lines)) => (number_or(start, 0), number_or(lines, 1)),
        None => (number_or(range, 0), 1),
    }
}

fn parse_range(raw: &str) -> (r: (i64, i64))
    ensures
        r == range_of(raw@),
{
    let range = str_trim_start_set(raw, "-+");
    match split_once(range, ",") {
        Some((start, lines)) => (parse_or(start, 0), parse_or(lines, 1)),
        None => (parse_or(range, 0), 1),
    }
}

/// The old and the new range of a hunk header.
pub open spec fn hunk_ranges(header: Seq<char>) -> (i64, i64, i64, i64) {
    let words = words_of(header);
    let a = range_of(
        if words.len() > 1 {
            words[1]
        } else {
            "-0,0"@
        },
    );
    let b = range_of(
        if words.len() > 2 {
            words[2]
        } else {
            "+0,0"@
        },
    );
    (a.0, a.1, b.0, b.1)
}

/// The old and the new range of a hunk header.
pub fn parse_hunk_header(header: &str) -> (r: (i64, i64, i64, i64))
    ensures
        r == hunk_ranges(header@),
{
    let words = split_words(header);
    assert(texts(words@).len() == words@.len());
    let old_range = if words.len() > 1 {
        assert(texts(words@)[1] == words@[1]@);
        words[1].as_str()
    } else {
        "-0,0"
    };
    let new_range = if words.len() > 2 {
        assert(texts(words@)[2] == words@[2]@);
        words[2].as_str()
    } else {
        "+0,0"
    };
    let (old_start, old_lines) = parse_range(old_range);
    let (new_start, new_lines) = parse_range(new_range);
    (old_start, old_lines, new_start, new_lines)
}

// ---------------------------------------------------------------------------
// Files and hunks
// ---------------------------------------------------------------------------

/// A hunk of a diff, with its header as the first of its lines.
#[derive(Debug)]
pub struct DiffHunk {
    pub old_start: i64,
    pub old_lines: i64,
    pub new_start: i64,
    pub new_lines: i64,
    pub header: String,
    pub truncated: bool,
    pub lines: Vec<String>,
}

/// The mathematical value of a [`DiffHunk`].
#[verifier::ext_equal]
pub struct HunkModel {
    pub old_start: i64,
    pub old_lines: i64,
    pub new_start: i64,
    pub new_lines: i64,
    pub header: Seq<char>,
    pub truncated: bool,
    pub lines: Seq<Seq<char>>,
}

impl View for DiffHunk {
    type V = HunkModel;

    open spec fn view(&self) -> HunkModel {
        HunkModel {
            old_start: self.old_start,
            old_lines: self.old_lines,
            new_start: self.new_start,
            new_lines: self.new_lines,
            header: self.header@,
            truncated: self.truncated,
            lines: texts(self.lines@),
        }
    }
}

/// A file of a diff. A path is missing where the file does not exist on that side.
#[derive(Debug)]
pub struct DiffFile {
    pub path: Option<String>,
    pub old_path: Option<String>,
    pub status: String,
    pub binary: bool,
    pub hunks: Vec<DiffHunk>,
}

/// The mathematical value of a [`DiffFile`].
#[verifier::ext_equal]
pub struct FileModel {
    pub path: Option<Seq<char>>,
    pub old_path: Option<Seq<char>>,
    pub status: Seq<char>,
    pub binary: bool,
    pub hunks: Seq<HunkModel>,
}

impl View for DiffFile {
    type V = FileModel;

    open spec fn view(&self) -> FileModel {
        FileModel {
            path: opt_text(self.path),
            old_path: opt_text(self.old_path),
            status: self.status@,
            binary: self.binary,
            hunks: views(self.hunks@),
        }
    }
}

/// Word `i` of a text as a path of a diff.
pub open spec fn side_path(words: Seq<Seq<char>>, i: int) -> Seq<char> {
    if 0 <= i < words.len() {
        without_side(words[i])
    } else {
        seq![]
    }
}

/// The file that a line `diff --git` with the rest `rest` opens.
pub open spec fn opened_file(rest: Seq<char>) -> FileModel {
    FileModel {
        path: Some(side_path(words_of(rest), 1)),
        old_path: Some(side_path(words_of(rest), 0)),
        status: "modified"@,
        binary: false,
        hunks: seq![],
    }
}

/// The file after one of its lines. Header lines name its paths and its status.
pub open spec fn file_with_line(f: FileModel, line: Seq<char>) -> FileModel {
    if "new file mode "@.is_prefix_of(line) {
        FileModel { status: "added"@, ..f }
    } else if "deleted file mode "@.is_prefix_of(line) {
        FileModel { status: "deleted"@, ..f }
    } else if after_prefix(line, "rename from "@) is Some {
        FileModel { old_path: after_prefix(line, "rename from "@), status: "renamed"@, ..f }
    } else if after_prefix(line, "rename to "@) is Some {
        FileModel { path: after_prefix(line, "rename to "@), status: "renamed"@, ..f }
    } else if "Binary files "@.is_prefix_of(line) {
        FileModel { binary: true, ..f }
    } else if after_prefix(line, "--- "@) is Some {
        let path = after_prefix(line, "--- "@)->0;
        if path == "/dev/null"@ {
            FileModel { old_path: None, status: "added"@, ..f }
        } else {
            FileModel { old_path: Some(without_side(path)), ..f }
        }
    } else if after_prefix(line, "+++ "@) is Some {
        let path = after_prefix(line, "+++ "@)->0;
        if path == "/dev/null"@ {
            FileModel { path: None, status: "deleted"@, ..f }
        } else {
            FileModel { path: Some(without_side(path)), ..f }
        }
    } else {
        f
    }
}

/// The hunk that a header opens.
pub open spec fn opened_hunk(header: Seq<char>) -> HunkModel {
    let (old_start, old_lines, new_start, new_lines) = hunk_ranges(header);
    HunkModel {
        old_start,
        old_lines,
        new_start,
        new_lines,
        header,
        truncated: false,
        lines: seq![header],
    }
}

/// The file with the open hunk as its last one, where one is open.
pub open spec fn with_hunk(f: FileModel, hunk: Option<HunkModel>) -> FileModel {
    match hunk {
        Some(h) => FileModel { hunks: f.hunks.push(h), ..f },
        None => f,
    }
}

/// How far a diff has been read.
#[verifier::ext_equal]
pub struct DiffState {
    /// The files that are done.
    pub files: Seq<FileModel>,
    /// The file that is open.
    pub file: Option<FileModel>,
    /// The hunk of it that is open.
    pub hunk: Option<HunkModel>,
    /// How many hunks were opened.
    pub count: nat,
    /// Whether a hunk or a line was left out.
    pub truncated: bool,
}

impl DiffState {
    /// All files, the open one included.
    pub open spec fn all_files(self) -> Seq<FileModel> {
        match self.file {
            Some(f) => self.files.push(with_hunk(f, self.hunk)),
            None => self.files,
        }
    }

    /// The state after one more line. At most `max_hunks` hunks are kept, and of
    /// each at most `max_lines` lines.
    pub open spec fn after_line(self, line: Seq<char>, max_hunks: nat, max_lines: nat) -> DiffState {
        match after_prefix(line, "diff --git "@) {
            Some(rest) => DiffState {
                files: self.all_files(),
                file: Some(opened_file(rest)),
                hunk: None,
                ..self
            },
            None => match self.file {
                None => self,
                Some(f) => {
                    let file = file_with_line(f, line);
                    if "@@ "@.is_prefix_of(line) {
                        let full = self.count >= max_hunks;
                        DiffState {
                            file: Some(with_hunk(file, self.hunk)),
                            hunk: if full {
                                None
                            } else {
                                Some(opened_hunk(line))
                            },
                            count: if full {
                                self.count
                            } else {
                                self.count + 1
                            },
                            truncated: self.truncated || full,
                            ..self
                        }
                    } else {
                        match self.hunk {
                            None => DiffState { file: Some(file), ..self },
                            Some(h) => if h.lines.len() < max_lines {
                                DiffState {
                                    file: Some(file),
                                    hunk: Some(HunkModel { lines: h.lines.push(line), ..h }),
                                    ..self
                                }
                            } else {
                                DiffState {
                                    file: Some(file),
                                    hunk: Some(HunkModel { truncated: true, ..h }),
                                    truncated: true,
                                    ..self
                                }
                            },
                        }
                    }
                },
            },
        }
    }
}

/// The state after all lines.
pub open spec fn read_diff(lines: Seq<Seq<char>>, max_hunks: nat, max_lines: nat) -> DiffState
    decreases lines.len(),
{
    if lines.len() == 0 {
        DiffState { files: seq![], file: None, hunk: None, count: 0, truncated: false }
    } else {
        read_diff(lines.drop_last(), max_hunks, max_lines).after_line(
            lines.last(),
            max_hunks,
            max_lines,
        )
    }
}

// ---------------------------------------------------------------------------
// Laws
// ---------------------------------------------------------------------------

/// The number of hunks in files.
pub open spec fn hunks_in(files: Seq<FileModel>) -> nat
    decreases files.len(),
{
    if files.len() == 0 {
        0
    } else {
        hunks_in(files.drop_last()) + files.last().hunks.len()
    }
}

/// Whether a hunk starts with its header and is within the bound.
pub open spec fn hunk_bounded(h: HunkModel, max_lines: nat) -> bool {
    &&& h.lines.len() >= 1
    &&& h.lines[0] == h.header
    &&& h.lines.len() <= max_lines || h.lines.len() == 1
}

/// Whether every hunk of the file is bounded.
pub open spec fn file_bounded(f: FileModel, max_lines: nat) -> bool {
    forall|i: int| 0 <= i < f.hunks.len() ==> hunk_bounded(#[trigger] f.hunks[i], max_lines)
}

/// A diff is read within its limits: no more hunks than asked for, each of them
/// starting with its header and no longer than asked for, and the count is the
/// number of hunks that are there.
pub proof fn law_diff_is_bounded(lines: Seq<Seq<char>>, max_hunks: nat, max_lines: nat)
    ensures
        ({
            let s = read_diff(lines, max_hunks, max_lines);
            &&& s.count <= max_hunks
            &&& hunks_in(s.all_files()) == s.count
            &&& forall|i: int|
                0 <= i < s.all_files().len() ==> file_bounded(
                    #[trigger] s.all_files()[i],
                    max_lines,
                )
        }),
{
    lemma_diff_bounded(lines, max_hunks, max_lines);
    let s = read_diff(lines, max_hunks, max_lines);
    if s.file is Some {
        assert(s.all_files().drop_last() =~= s.files);
    }
}

spec fn state_bounded(s: DiffState, max_hunks: nat, max_lines: nat) -> bool {
    &&& s.count <= max_hunks
    &&& s.hunk is Some ==> s.file is Some && hunk_bounded(s.hunk->0, max_lines)
    &&& s.file is Some ==> file_bounded(s.file->0, max_lines)
    &&& forall|i: int| 0 <= i < s.files.len() ==> file_bounded(#[trigger] s.files[i], max_lines)
    &&& hunks_in(s.files) + (if s.file is Some {
        s.file->0.hunks.len()
    } else {
        0
    }) + (if s.hunk is Some {
        1nat
    } else {
        0
    }) == s.count
}

proof fn lemma_diff_bounded(lines: Seq<Seq<char>>, max_hunks: nat, max_lines: nat)
    ensures
        state_bounded(read_diff(lines, max_hunks, max_lines), max_hunks, max_lines),
    decreases lines.len(),
{
    if lines.len() > 0 {
        lemma_diff_bounded(lines.drop_last(), max_hunks, max_lines);
        let s = read_diff(lines.drop_last(), max_hunks, max_lines);
        let line = lines.last();
        let t = s.after_line(line, max_hunks, max_lines);
        if after_prefix(line, "diff --git "@) is Some {
            if s.file is Some {
                assert(t.files.drop_last() =~= s.files);
            }
            assert(hunks_in(t.files) == s.count);
        } else if s.file is Some {
            let f = file_with_line(s.file->0, line);
            assert(f.hunks == s.file->0.hunks);
        }
    }
}

// ---------------------------------------------------------------------------
// The reader
// ---------------------------------------------------------------------------

/// Closes the open hunk of a file.
pub fn finish_hunk(file: &mut DiffFile, current_hunk: &mut Option<DiffHunk>)
    ensures
        final(file)@ == with_hunk(old(file)@, opt_view(*old(current_hunk))),
        *final(current_hunk) is None,
{
    if let Some(hunk) = current_hunk.take() {
        let ghost before = views(file.hunks@);
        file.hunks.push(hunk);
        assert(views(file.hunks@) =~= before.push(hunk@));
    }
}

/// Closes the open file.
pub fn finish_file(
    files: &mut Vec<DiffFile>,
    current_file: &mut Option<DiffFile>,
    current_hunk: &mut Option<DiffHunk>,
)
    requires
        *old(current_file) is None ==> *old(current_hunk) is None,
    ensures
        views(final(files)@) == (match opt_view(*old(current_file)) {
            Some(f) => views(old(files)@).push(with_hunk(f, opt_view(*old(current_hunk)))),
            None => views(old(files)@),
        }),
        *final(current_file) is None,
        *final(current_hunk) is None,
{
    if let Some(file) = current_file.take() {
        let mut file = file;
        finish_hunk(&mut file, current_hunk);
        let ghost before = views(files@);
        files.push(file);
        assert(views(files@) =~= before.push(file@));
    }
}

fn open_file(rest: &str) -> (r: DiffFile)
    ensures
        r@ == opened_file(rest@),
{
    let words = split_words(rest);
    assert(texts(words@).len() == words@.len());
    let old_path = if words.len() > 0 {
        assert(texts(words@)[0] == words@[0]@);
        strip_diff_prefix(words[0].as_str())
    } else {
        String::new()
    };
    let path = if words.len() > 1 {
        assert(texts(words@)[1] == words@[1]@);
        strip_diff_prefix(words[1].as_str())
    } else {
        String::new()
    };
    assert(old_path@ =~= side_path(words_of(rest@), 0));
    assert(path@ =~= side_path(words_of(rest@), 1));
    let r = DiffFile {
        path: Some(path),
        old_path: Some(old_path),
        status: "modified".to_owned(),
        binary: false,
        hunks: Vec::new(),
    };
    assert(r@ =~= opened_file(rest@));
    r
}

fn note_line(file: &mut DiffFile, line: &str)
    ensures
        final(file)@ == file_with_line(old(file)@, line@),
{
    if starts_with(line, "new file mode ") {
        file.status = "added".to_owned();
    } else if starts_with(line, "deleted file mode ") {
        file.status = "deleted".to_owned();
    } else if let Some(path) = strip_prefix(line, "rename from ") {
        file.old_path = Some(path.to_owned());
        file.status = "renamed".to_owned();
    } else if let Some(path) = strip_prefix(line, "rename to ") {
        file.path = Some(path.to_owned());
        file.status = "renamed".to_owned();
    } else if starts_with(line, "Binary files ") {
        file.binary = true;
    } else if let Some(path) = strip_prefix(line, "--- ") {
        if str_eq(path, "/dev/null") {
            file.old_path = None;
            file.status = "added".to_owned();
        } else {
            file.old_path = Some(strip_diff_prefix(path));
        }
    } else if let Some(path) = strip_prefix(line, "+++ ") {
        if str_eq(path, "/dev/null") {
            file.path = None;
            file.status = "deleted".to_owned();
        } else {
            file.path = Some(strip_diff_prefix(path));
        }
    }
}

fn open_hunk(line: &str) -> (r: DiffHunk)
    ensures
        r@ == opened_hunk(line@),
{
    let (old_start, old_lines, new_start, new_lines) = parse_hunk_header(line);
    let mut lines = no_texts();
    let header = line.to_owned();
    proof {
        lemma_texts_push(lines@, header);
    }
    lines.push(header);
    let r = DiffHunk {
        old_start,
        old_lines,
        new_start,
        new_lines,
        header: line.to_owned(),
        truncated: false,
        lines,
    };
    assert(r@ =~= opened_hunk(line@));
    r
}

/// Reads a diff: the files, the number of hunks and whether anything was left out.
pub fn parse_git_diff_hunks(diff: &str, max_hunks: usize, max_hunk_lines: usize) -> (r: (
    Vec<DiffFile>,
    usize,
    bool,
))
    ensures
        ({
            let s = read_diff(lines_of(diff@), max_hunks as nat, max_hunk_lines as nat);
            &&& views(r.0@) == s.all_files()
            &&& r.1 == s.count
            &&& r.2 == s.truncated
        }),
{
    let lines = split_lines(diff);
    let ghost all = texts(lines@);
    let mut files: Vec<DiffFile> = Vec::new();
    let mut current_file: Option<DiffFile> = None;
    let mut current_hunk: Option<DiffHunk> = None;
    let mut hunk_count: usize = 0;
    let mut truncated = false;
    let mut i: usize = 0;
    assert(all.take(0) =~= seq![]);
    assert(views(files@) =~= seq![]);
    while i < lines.len()
        invariant
            i <= lines@.len(),
            all == texts(lines@),
            all == lines_of(diff@),
            hunk_count <= max_hunks,
            current_file is None ==> current_hunk is None,
            ({
                let s = read_diff(all.take(i as int), max_hunks as nat, max_hunk_lines as nat);
                &&& views(files@) == s.files
                &&& opt_view(current_file) == s.file
                &&& opt_view(current_hunk) == s.hunk
                &&& hunk_count == s.count
                &&& truncated == s.truncated
            }),
        decreases lines@.len() - i,
    {
        let line = lines[i].as_str();
        proof {
            assert(all.take(i + 1).drop_last() =~= all.take(i as int));
            assert(all.take(i + 1).last() == line@);
        }
        i = i + 1;
        if let Some(rest) = strip_prefix(line, "diff --git ") {
            finish_file(&mut files, &mut current_file, &mut current_hunk);
            current_file = Some(open_file(rest));
        } else if let Some(file) = current_file.take() {
            let mut file = file;
            note_line(&mut file, line);
            if starts_with(line, "@@ ") {
                finish_hunk(&mut file, &mut current_hunk);
                if hunk_count >= max_hunks {
                    truncated = true;
                } else {
                    current_hunk = Some(open_hunk(line));
                    hunk_count = hunk_count + 1;
                }
            } else if let Some(hunk) = current_hunk.take() {
                let mut hunk = hunk;
                assert(texts(hunk.lines@).len() == hunk.lines@.len());
                if hunk.lines.len() < max_hunk_lines {
                    let copy = line.to_owned();
                    proof {
                        lemma_texts_push(hunk.lines@, copy);
                    }
                    hunk.lines.push(copy);
                } else {
                    truncated = true;
                    hunk.truncated = true;
                }
                current_hunk = Some(hunk);
            }
            current_file = Some(file);
        }
    }
    assert(all.take(i as int) =~= all);
    finish_file(&mut files, &mut current_file, &mut current_hunk);
    (files, hunk_count, truncated)
}

// ---------------------------------------------------------------------------
// As JSON
// ---------------------------------------------------------------------------

/// A hunk as JSON.
pub open spec fn hunk_tree(h: HunkModel) -> Tree {
    Tree::Object(
        no_fields()
            .push(field("old_start"@, Tree::Number(h.old_start as int)))
            .push(field("old_lines"@, Tree::Number(h.old_lines as int)))
            .push(field("new_start"@, Tree::Number(h.new_start as int)))
            .push(field("new_lines"@, Tree::Number(h.new_lines as int)))
            .push(field("header"@, Tree::Text(h.header)))
            .push(field("truncated"@, Tree::Bool(h.truncated)))
            .push(field("diff"@, Tree::Text(join(h.lines, "\n"@))))
            .push(field("line_count"@, Tree::Number(h.lines.len() as int))),
    )
}

/// A file as JSON. Only a binary file says so.
pub open spec fn file_tree(f: FileModel) -> Tree {
    let members = no_fields()
        .push(field("path"@, opt_text_tree(f.path)))
        .push(field("old_path"@, opt_text_tree(f.old_path)))
        .push(field("status"@, Tree::Text(f.status)))
        .push(field("hunks"@, Tree::Array(f.hunks.map_values(|h: HunkModel| hunk_tree(h)))));
    Tree::Object(
        if f.binary {
            members.push(field("binary"@, Tree::Bool(true)))
        } else {
            members
        },
    )
}

/// Files as JSON.
pub open spec fn files_tree(files: Seq<FileModel>) -> Tree {
    Tree::Array(files.map_values(|f: FileModel| file_tree(f)))
}

impl DiffHunk {
    /// The hunk as JSON.
    pub fn to_json(&self) -> (r: Json)
        ensures
            r@ == hunk_tree(self@),
    {
        let diff = join_all(&self.lines, "\n");
        assert(texts(self.lines@).len() == self.lines@.len());
        ObjectBuilder::new().with("old_start", signed(self.old_start)).with(
            "old_lines",
            signed(self.old_lines),
        ).with("new_start", signed(self.new_start)).with(
            "new_lines",
            signed(self.new_lines),
        ).with("header", text(self.header.as_str())).with(
            "truncated",
            boolean(self.truncated),
        ).with("diff", text(diff.as_str())).with("line_count", number(self.lines.len())).build()
    }
}

impl DiffFile {
    /// The file as JSON.
    pub fn to_json(&self) -> (r: Json)
        ensures
            r@ == file_tree(self@),
    {
        let mut hunks: Vec<Json> = Vec::new();
        let mut i: usize = 0;
        while i < self.hunks.len()
            invariant
                i <= self.hunks@.len(),
                hunks@.len() == i,
                forall|j: int| 0 <= j < i ==> (#[trigger] hunks@[j])@ == hunk_tree(self.hunks@[j]@),
            decreases self.hunks@.len() - i,
        {
            hunks.push(self.hunks[i].to_json());
            i = i + 1;
        }
        assert(trees(hunks@) =~= views(self.hunks@).map_values(|h: HunkModel| hunk_tree(h)));
        let members = ObjectBuilder::new().with("path", opt_text_json(&self.path)).with(
            "old_path",
            opt_text_json(&self.old_path),
        ).with("status", text(self.status.as_str())).with("hunks", array(hunks));
        if self.binary {
            members.with("binary", boolean(true)).build()
        } else {
            members.build()
        }
    }
}

/// Files as JSON.
pub fn files_json(files: &Vec<DiffFile>) -> (r: Json)
    ensures
        r@ == files_tree(views(files@)),
{
    let mut out: Vec<Json> = Vec::new();
    let mut i: usize = 0;
    while i < files.len()
        invariant
            i <= files@.len(),
            out@.len() == i,
            forall|j: int| 0 <= j < i ==> (#[trigger] out@[j])@ == file_tree(files@[j]@),
        decreases files@.len() - i,
    {
        out.push(files[i].to_json());
        i = i + 1;
    }
    assert(trees(out@) =~= views(files@).map_values(|f: FileModel| file_tree(f)));
    array(out)
}

} // verus!
