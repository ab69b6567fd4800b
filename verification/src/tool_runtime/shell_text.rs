//! Text that goes into shell commands, and paths that come from callers.
use crate::cut::{replace_char, str_replace_char};
use crate::lines::{join, join_all, split_at_char, split_char};
use crate::text::{
    concat3, contains_char, starts_with, str_eq, str_trim, texts, trim,
};
use vstd::prelude::*;

verus! {

/// `s` as one word of a shell command: in single quotes, each single quote in it
/// written outside of them.
pub open spec fn shell_quoted(s: Seq<char>) -> Seq<char> {
    "'"@ + replace_char(s, '\'', "'\\''"@) + "'"@
}

/// `s` as one word of a shell command.
pub fn shell_escape_simple(s: &str) -> (r: String)
    ensures
        r@ == shell_quoted(s@),
{
    let inner = str_replace_char(s, '\'', "'\\''");
    concat3("'", inner.as_str(), "'")
}

/// `s` behind `c`.
pub open spec fn behind(c: char, s: Option<Seq<char>>) -> Option<Seq<char>> {
    match s {
        Some(t) => Some(seq![c] + t),
        None => None,
    }
}

/// What a shell reads from the rest `w` of a word of quoted parts and escaped
/// characters; `quoted` says whether a quoted part is open.
pub open spec fn shell_reads(w: Seq<char>, quoted: bool) -> Option<Seq<char>>
    decreases w.len(),
{
    if w.len() == 0 {
        if quoted {
            None
        } else {
            Some(seq![])
        }
    } else if quoted {
        if w[0] == '\'' {
            shell_reads(w.skip(1), false)
        } else {
            behind(w[0], shell_reads(w.skip(1), true))
        }
    } else if w[0] == '\'' {
        shell_reads(w.skip(1), true)
    } else if w[0] == '\\' && w.len() > 1 {
        behind(w[1], shell_reads(w.skip(2), false))
    } else {
        None
    }
}

/// `s` behind all of `p`.
pub open spec fn behind_all(p: Seq<char>, s: Option<Seq<char>>) -> Option<Seq<char>> {
    match s {
        Some(t) => Some(p + t),
        None => None,
    }
}

proof fn lemma_escaped_reads(s: Seq<char>, t: Seq<char>)
    ensures
        shell_reads(replace_char(s, '\'', "'\\''"@) + t, true) == behind_all(
            s,
            shell_reads(t, true),
        ),
    decreases s.len(),
{
    let esc = "'\\''"@;
    reveal_strlit("'\\''");
    assert(esc.len() == 4 && esc[0] == '\'' && esc[1] == '\\' && esc[2] == '\'' && esc[3] == '\'');
    if s.len() == 0 {
        assert(replace_char(s, '\'', esc) + t =~= t);
        if shell_reads(t, true) is Some {
            assert(s + shell_reads(t, true)->0 =~= shell_reads(t, true)->0);
        }
    } else {
        let front = s.drop_last();
        let c = s.last();
        let e = if c == '\'' {
            esc
        } else {
            seq![c]
        };
        assert(replace_char(s, '\'', esc) + t =~= replace_char(front, '\'', esc) + (e + t));
        lemma_escaped_reads(front, e + t);
        if c == '\'' {
            let w = e + t;
            let w1 = w.skip(1);
            assert(w[0] == '\'');
            assert(w1[0] == '\\' && w1[1] == '\'');
            let w3 = w1.skip(2);
            assert(w3[0] == '\'');
            assert(w3.skip(1) =~= t);
            assert(shell_reads(w3, false) == shell_reads(t, true));
            assert(shell_reads(w1, false) == behind('\'', shell_reads(t, true)));
        } else {
            assert((e + t).skip(1) =~= t);
        }
        if shell_reads(t, true) is Some {
            let r = shell_reads(t, true)->0;
            assert(front + (seq![c] + r) =~= s + r);
        }
    }
}

/// A shell reads from the quoted form of a text the text itself, whatever it holds.
pub proof fn law_shell_quoting(s: Seq<char>)
    ensures
        shell_reads(shell_quoted(s), false) == Some(s),
{
    reveal_strlit("'");
    let q = "'"@;
    assert(q.len() == 1 && q[0] == '\'');
    let inner = replace_char(s, '\'', "'\\''"@);
    let w = shell_quoted(s);
    assert(w.skip(1) =~= inner + q);
    lemma_escaped_reads(s, q);
    assert(q.skip(1) =~= seq![]);
    assert(shell_reads(q.skip(1), false) == Some(Seq::<char>::empty()));
    assert(shell_reads(q, true) == Some(Seq::<char>::empty()));
    assert(s + Seq::<char>::empty() =~= s);
}

/// The words of a shell command for a list of texts.
pub open spec fn quoted_words(words: Seq<Seq<char>>) -> Seq<char> {
    join(words.map_values(|w: Seq<char>| shell_quoted(w)), " "@)
}

/// The words of a shell command for a list of paths.
pub fn shell_join_paths(paths: &Vec<String>) -> (r: String)
    ensures
        r@ == quoted_words(texts(paths@)),
{
    let mut out: Vec<String> = Vec::new();
    let mut i: usize = 0;
    while i < paths.len()
        invariant
            i <= paths@.len(),
            out@.len() == i,
            forall|j: int| 0 <= j < i ==> (#[trigger] out@[j])@ == shell_quoted(paths@[j]@),
        decreases paths@.len() - i,
    {
        out.push(shell_escape_simple(paths[i].as_str()));
        i = i + 1;
    }
    assert(texts(out@) =~= texts(paths@).map_values(|w: Seq<char>| shell_quoted(w)));
    join_all(&out, " ")
}

// ---------------------------------------------------------------------------
// Paths from callers
// ---------------------------------------------------------------------------

/// What is wrong with a path that has to stay inside the project.
pub open spec fn relative_path_error(path: Seq<char>) -> Option<Seq<char>> {
    let p = trim(path);
    if p.len() == 0 {
        Some("path cannot be empty"@)
    } else if p.contains('\0') {
        Some("path cannot contain NUL bytes"@)
    } else if "/"@.is_prefix_of(p) {
        Some("path must be relative to the project root"@)
    } else if split_at_char(p, '/').contains(".."@) {
        Some("path cannot contain .. components"@)
    } else {
        None
    }
}

/// Checks a path that has to stay inside the project.
pub fn validate_project_relative_path(path: &str) -> (r: Result<(), String>)
    ensures
        match r {
            Ok(_) => relative_path_error(path@) is None,
            Err(e) => relative_path_error(path@) == Some(e@),
        },
{
    let p = str_trim(path);
    if p.is_empty() {
        return Err("path cannot be empty".to_owned());
    }
    if contains_char(p, '\0') {
        return Err("path cannot contain NUL bytes".to_owned());
    }
    if starts_with(p, "/") {
        return Err("path must be relative to the project root".to_owned());
    }
    let parts = split_char(p, '/');
    let mut i: usize = 0;
    while i < parts.len()
        invariant
            i <= parts@.len(),
            p@ == trim(path@),
            p@.len() > 0,
            !p@.contains('\0'),
            !"/"@.is_prefix_of(p@),
            texts(parts@) == split_at_char(p@, '/'),
            forall|j: int| 0 <= j < i ==> (#[trigger] parts@[j])@ != ".."@,
        decreases parts@.len() - i,
    {
        if str_eq(parts[i].as_str(), "..") {
            assert(texts(parts@)[i as int] == ".."@);
            return Err("path cannot contain .. components".to_owned());
        }
        i = i + 1;
    }
    assert forall|j: int| 0 <= j < texts(parts@).len() implies texts(parts@)[j] != ".."@ by {
        assert(texts(parts@)[j] == parts@[j]@);
    }
    Ok(())
}

} // verus!
