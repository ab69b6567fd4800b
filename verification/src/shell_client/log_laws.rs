//! What holds of a log that is told line by line while it grows.
use crate::lines::{
    index_of, join, lemma_index_of, lemma_index_of_is, lines_of, strip_return,
};
use crate::shell_client::jobs::{lines_text, selected};
use vstd::prelude::*;

verus! {

/// The join of texts that start with `first`.
pub proof fn lemma_join_first(first: Seq<char>, rest: Seq<Seq<char>>, sep: Seq<char>)
    requires
        rest.len() > 0,
    ensures
        join(seq![first] + rest, sep) == first + sep + join(rest, sep),
    decreases rest.len(),
{
    let all = seq![first] + rest;
    if rest.len() == 1 {
        assert(all.drop_last() =~= seq![first]);
        assert(join(all.drop_last(), sep) == first);
    } else {
        lemma_join_first(first, rest.drop_last(), sep);
        assert(all.drop_last() =~= seq![first] + rest.drop_last());
        assert(all.last() == rest.last());
        assert(join(all, sep) =~= first + sep + join(rest, sep));
    }
}

/// Whether every line of `s` has its ending.
pub open spec fn is_terminated(s: Seq<char>) -> bool {
    s.len() > 0 ==> s.last() == '\n'
}

/// Whether no line of `s` ends in a carriage return.
pub open spec fn has_no_returns(s: Seq<char>) -> bool {
    forall|i: int| 0 < i < s.len() && #[trigger] s[i] == '\n' ==> s[i - 1] != '\r'
}

/// The lines of a text that goes on after a line's end are those of both parts.
pub proof fn lemma_lines_append(s: Seq<char>, more: Seq<char>)
    requires
        is_terminated(s),
    ensures
        lines_of(s + more) == lines_of(s) + lines_of(more),
    decreases s.len(),
{
    if s.len() == 0 {
        assert(s + more =~= more);
        assert(lines_of(s) + lines_of(more) =~= lines_of(more));
    } else {
        let all = s + more;
        let k = index_of(s, '\n');
        lemma_index_of(s, '\n');
        if k >= s.len() {
            assert(s[s.len() - 1] == '\n');
        }
        lemma_index_of_is(all, '\n', k);
        let rest = s.skip(k + 1);
        assert(all.take(k) =~= s.take(k));
        assert(all.skip(k + 1) =~= rest + more);
        assert(is_terminated(rest)) by {
            if rest.len() > 0 {
                assert(rest.last() == s.last());
            }
        }
        lemma_lines_append(rest, more);
        assert(lines_of(all) =~= lines_of(s) + lines_of(more));
    }
}

/// The lines of a text give the text again.
pub proof fn lemma_lines_joined(s: Seq<char>)
    requires
        is_terminated(s),
        has_no_returns(s),
        s.len() > 0,
    ensures
        lines_of(s).len() > 0,
        join(lines_of(s), "\n"@) + "\n"@ == s,
    decreases s.len(),
{
    reveal_strlit("\n");
    assert("\n"@ =~= seq!['\n']);
    let k = index_of(s, '\n');
    lemma_index_of(s, '\n');
    if k >= s.len() {
        assert(s[s.len() - 1] == '\n');
    }
    let line = s.take(k);
    let rest = s.skip(k + 1);
    assert(strip_return(line) == line) by {
        if k > 0 {
            assert(s[k] == '\n');
            assert(line.last() == s[k - 1]);
        }
    }
    if rest.len() == 0 {
        assert(lines_of(rest) =~= seq![]);
        assert(lines_of(s) =~= seq![line]);
        assert(line + "\n"@ =~= s);
    } else {
        assert(rest.last() == s.last());
        assert forall|i: int| 0 < i < rest.len() && #[trigger] rest[i] == '\n' implies rest[i - 1]
            != '\r' by {
            assert(s[i + k + 1] == '\n');
            assert(rest[i - 1] == s[i + k + 1 - 1]);
        }
        lemma_lines_joined(rest);
        lemma_join_first(line, lines_of(rest), "\n"@);
        assert(lines_of(s) == seq![line] + lines_of(rest));
        assert(line + "\n"@ + join(lines_of(rest), "\n"@) + "\n"@ =~= line + "\n"@ + (join(
            lines_of(rest),
            "\n"@,
        ) + "\n"@));
        assert(line + "\n"@ + rest =~= s);
    }
}

/// Whether a log can be told line by line and put together again: its lines end in
/// `\n` alone, the last one too, and it is not just one empty line.
pub open spec fn is_line_log(v: Seq<char>) -> bool {
    is_terminated(v) && has_no_returns(v) && v != seq!['\n']
}

/// A log whose lines are told gives the log again.
proof fn lemma_log_is_told(v: Seq<char>)
    requires
        is_line_log(v),
    ensures
        lines_text(lines_of(v)) == v,
{
    if v.len() == 0 {
        assert(lines_of(v) =~= seq![]);
        assert(lines_text(lines_of(v)) =~= v);
    } else {
        reveal_strlit("\n");
        lemma_lines_joined(v);
        if v.len() == 1 {
            assert(v =~= seq!['\n']);
        }
    }
}

/// Whoever asks for a log, and later, when it has grown, asks again from the line
/// that the first answer named, has the whole log: the two answers together are the
/// log, and the second names the line after its last.
pub proof fn law_log_grows(v: Seq<char>, more: Seq<char>)
    requires
        is_line_log(v),
        is_line_log(more),
        lines_of(v + more).len() < usize::MAX,
    ensures
        ({
            let (first, next) = selected(Some(v), None, None);
            let (second, last) = selected(Some(v + more), Some(next), None);
            &&& first == Some(v)
            &&& second == Some(more)
            &&& first->0 + second->0 == v + more
            &&& last == lines_of(v + more).len() + 1
        }),
{
    let before = lines_of(v);
    let all = lines_of(v + more);
    lemma_lines_append(v, more);
    lemma_log_is_told(v);
    lemma_log_is_told(more);
    assert(before.skip(0) =~= before);
    assert(all.skip(before.len() as int) =~= lines_of(more));
}

} // verus!
