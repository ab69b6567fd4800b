//! Splitting text into lines, fields and words, and joining it again.
use crate::text::{
    char_is_space, chars_of, is_space, lemma_texts_push, string_of, texts,
};
use vstd::prelude::*;
use vstd::string::*;

verus! {

broadcast use {vstd::seq_lib::group_seq_properties, lemma_texts_push};

/// The position of the first `c` in `s`, or the length of `s` without one.
pub open spec fn index_of(s: Seq<char>, c: char) -> int
    decreases s.len(),
{
    if s.len() == 0 || s[0] == c {
        0
    } else {
        1 + index_of(s.skip(1), c)
    }
}

pub proof fn lemma_index_of(s: Seq<char>, c: char)
    ensures
        0 <= index_of(s, c) <= s.len(),
        forall|j: int| 0 <= j < index_of(s, c) ==> s[j] != c,
        index_of(s, c) < s.len() ==> s[index_of(s, c)] == c,
    decreases s.len(),
{
    if s.len() > 0 && s[0] != c {
        lemma_index_of(s.skip(1), c);
        assert forall|j: int| 0 <= j < index_of(s, c) implies s[j] != c by {
            if j > 0 {
                assert(s[j] == s.skip(1)[j - 1]);
            }
        }
    }
}

pub proof fn lemma_index_of_is(s: Seq<char>, c: char, k: int)
    requires
        0 <= k <= s.len(),
        forall|j: int| 0 <= j < k ==> s[j] != c,
        k < s.len() ==> s[k] == c,
    ensures
        index_of(s, c) == k,
{
    lemma_index_of(s, c);
}

/// The position of the first `c` in `cs` at or after `from`, or the length of `cs`.
fn next_index(cs: &Vec<char>, c: char, from: usize) -> (r: usize)
    requires
        from <= cs@.len(),
    ensures
        from <= r <= cs@.len(),
        index_of(cs@.skip(from as int), c) == r - from,
        r < cs@.len() ==> cs@[r as int] == c,
{
    let mut i: usize = from;
    while i < cs.len() && cs[i] != c
        invariant
            from <= i <= cs@.len(),
            forall|j: int| from <= j < i ==> cs@[j] != c,
        decreases cs@.len() - i,
    {
        i = i + 1;
    }
    proof {
        lemma_index_of_is(cs@.skip(from as int), c, i - from);
    }
    i
}

/// The pieces of `s` between the occurrences of `c`; there is always at least one.
pub open spec fn split_at_char(s: Seq<char>, c: char) -> Seq<Seq<char>>
    decreases s.len(),
    via split_at_char_decreases
{
    let k = index_of(s, c);
    if k >= s.len() {
        seq![s]
    } else {
        seq![s.take(k)] + split_at_char(s.skip(k + 1), c)
    }
}

#[via_fn]
proof fn split_at_char_decreases(s: Seq<char>, c: char) {
    lemma_index_of(s, c);
}

/// `line` without one carriage return at its end.
pub open spec fn strip_return(line: Seq<char>) -> Seq<char> {
    if line.len() > 0 && line.last() == '\r' {
        line.drop_last()
    } else {
        line
    }
}

/// The lines of `s`: a line ends in `\n` or `\r\n`, and a last line needs no ending.
pub open spec fn lines_of(s: Seq<char>) -> Seq<Seq<char>>
    decreases s.len(),
    via lines_of_decreases
{
    let k = index_of(s, '\n');
    if s.len() == 0 {
        seq![]
    } else if k >= s.len() {
        seq![s]
    } else {
        seq![strip_return(s.take(k))] + lines_of(s.skip(k + 1))
    }
}

#[via_fn]
proof fn lines_of_decreases(s: Seq<char>) {
    lemma_index_of(s, '\n');
}

/// The pieces of `s` between the occurrences of `c`.
pub fn split_char(s: &str, c: char) -> (r: Vec<String>)
    ensures
        texts(r@) == split_at_char(s@, c),
{
    let cs = chars_of(s);
    let mut out: Vec<String> = Vec::new();
    let mut start: usize = 0;
    assert(s@.skip(0) =~= s@);
    assert(texts(out@) + split_at_char(s@, c) =~= split_at_char(s@, c));
    loop
        invariant
            cs@ == s@,
            start <= cs@.len(),
            texts(out@) + split_at_char(s@.skip(start as int), c) == split_at_char(s@, c),
        decreases cs@.len() - start,
    {
        let end = next_index(&cs, c, start);
        let ghost rest = s@.skip(start as int);
        let ghost before = texts(out@);
        assert(cs@.subrange(start as int, end as int) =~= rest.take(end - start));
        out.push(string_of(&cs, start, end));
        if end == cs.len() {
            assert(rest.take(end - start) =~= rest);
            assert(texts(out@) =~= before + seq![rest]);
            return out;
        }
        proof {
            assert(rest.skip(end - start + 1) =~= s@.skip(end + 1));
            assert(texts(out@) + split_at_char(s@.skip(end + 1), c) =~= before + (seq![
                rest.take(end - start),
            ] + split_at_char(s@.skip(end + 1), c)));
        }
        start = end + 1;
    }
}

/// The lines of `s`.
pub fn split_lines(s: &str) -> (r: Vec<String>)
    ensures
        texts(r@) == lines_of(s@),
{
    let cs = chars_of(s);
    let mut out: Vec<String> = Vec::new();
    let mut start: usize = 0;
    assert(s@.skip(0) =~= s@);
    assert(texts(out@) + lines_of(s@) =~= lines_of(s@));
    while start < cs.len()
        invariant
            cs@ == s@,
            start <= cs@.len(),
            texts(out@) + lines_of(s@.skip(start as int)) == lines_of(s@),
        decreases cs@.len() - start,
    {
        let end = next_index(&cs, '\n', start);
        let ghost rest = s@.skip(start as int);
        let ghost before = texts(out@);
        let ghost line = rest.take(end - start);
        assert(cs@.subrange(start as int, end as int) =~= line);
        if end == cs.len() {
            assert(line =~= rest);
            out.push(string_of(&cs, start, end));
            assert(texts(out@) =~= before + seq![rest]);
            return out;
        }
        if end > start && cs[end - 1] == '\r' {
            assert(line.last() == cs@[end - 1]);
            assert(cs@.subrange(start as int, end - 1) =~= line.drop_last());
            out.push(string_of(&cs, start, end - 1));
        } else {
            out.push(string_of(&cs, start, end));
        }
        proof {
            assert(texts(out@) =~= before + seq![strip_return(line)]);
            assert(rest.skip(end - start + 1) =~= s@.skip(end + 1));
            assert(texts(out@) + lines_of(s@.skip(end + 1)) =~= before + (seq![strip_return(line)]
                + lines_of(s@.skip(end + 1))));
        }
        start = end + 1;
    }
    assert(texts(out@) + lines_of(s@.skip(start as int)) =~= texts(out@));
    out
}

/// The texts of `parts` with `sep` between each two.
pub open spec fn join(parts: Seq<Seq<char>>, sep: Seq<char>) -> Seq<char>
    decreases parts.len(),
{
    if parts.len() == 0 {
        seq![]
    } else if parts.len() == 1 {
        parts[0]
    } else {
        join(parts.drop_last(), sep) + sep + parts.last()
    }
}

/// The texts of `parts[from..]` with `sep` between each two.
pub fn join_from(parts: &Vec<String>, from: usize, sep: &str) -> (r: String)
    requires
        from <= parts@.len(),
    ensures
        r@ == join(texts(parts@).skip(from as int), sep@),
{
    let mut out = String::new();
    let mut i: usize = from;
    let ghost all = texts(parts@);
    assert(all.subrange(from as int, from as int) =~= seq![]);
    while i < parts.len()
        invariant
            from <= i <= parts@.len(),
            all == texts(parts@),
            out@ == join(all.subrange(from as int, i as int), sep@),
        decreases parts@.len() - i,
    {
        proof {
            let next = all.subrange(from as int, i + 1);
            assert(next.drop_last() =~= all.subrange(from as int, i as int));
            assert(next.last() == parts@[i as int]@);
            if i == from {
                assert(Seq::<char>::empty() + parts@[i as int]@ =~= parts@[i as int]@);
            }
        }
        if i > from {
            out.append(sep);
        }
        out.append(parts[i].as_str());
        i = i + 1;
    }
    assert(all.subrange(from as int, i as int) =~= all.skip(from as int));
    out
}

/// The texts of `parts` with `sep` between each two.
pub fn join_all(parts: &Vec<String>, sep: &str) -> (r: String)
    ensures
        r@ == join(texts(parts@), sep@),
{
    assert(texts(parts@).skip(0) =~= texts(parts@));
    join_from(parts, 0, sep)
}

/// The number of leading characters of `s` that are not white space.
pub open spec fn word_len(s: Seq<char>) -> int
    decreases s.len(),
{
    if s.len() == 0 || is_space(s[0]) {
        0
    } else {
        1 + word_len(s.skip(1))
    }
}

pub proof fn lemma_word_len(s: Seq<char>)
    ensures
        0 <= word_len(s) <= s.len(),
        s.len() > 0 && !is_space(s[0]) ==> word_len(s) > 0,
    decreases s.len(),
{
    if s.len() > 0 && !is_space(s[0]) {
        lemma_word_len(s.skip(1));
    }
}

/// The words of `s`: its longest runs of characters that are not white space.
pub open spec fn words_of(s: Seq<char>) -> Seq<Seq<char>>
    decreases s.len(),
    via words_of_decreases
{
    if s.len() == 0 {
        seq![]
    } else if is_space(s[0]) {
        words_of(s.skip(1))
    } else {
        seq![s.take(word_len(s))] + words_of(s.skip(word_len(s)))
    }
}

#[via_fn]
proof fn words_of_decreases(s: Seq<char>) {
    lemma_word_len(s);
}

/// The words of `s`.
pub fn split_words(s: &str) -> (r: Vec<String>)
    ensures
        texts(r@) == words_of(s@),
{
    let cs = chars_of(s);
    let mut out: Vec<String> = Vec::new();
    let mut start: usize = 0;
    assert(s@.skip(0) =~= s@);
    assert(texts(out@) + words_of(s@) =~= words_of(s@));
    while start < cs.len()
        invariant
            cs@ == s@,
            start <= cs@.len(),
            texts(out@) + words_of(s@.skip(start as int)) == words_of(s@),
        decreases cs@.len() - start,
    {
        let ghost rest = s@.skip(start as int);
        if char_is_space(cs[start]) {
            assert(rest.skip(1) =~= s@.skip(start + 1));
            start = start + 1;
        } else {
            let mut end: usize = start;
            while end < cs.len() && !char_is_space(cs[end])
                invariant
                    cs@ == s@,
                    start <= end <= cs@.len(),
                    word_len(s@.skip(start as int)) == end - start + word_len(s@.skip(end as int)),
                decreases cs@.len() - end,
            {
                assert(s@.skip(end as int).skip(1) =~= s@.skip(end + 1));
                end = end + 1;
            }
            let ghost before = texts(out@);
            proof {
                lemma_word_len(rest);
                assert(word_len(rest) == end - start);
                assert(cs@.subrange(start as int, end as int) =~= rest.take(end - start));
                assert(rest.skip(end - start) =~= s@.skip(end as int));
            }
            out.push(string_of(&cs, start, end));
            proof {
                assert(texts(out@) + words_of(s@.skip(end as int)) =~= before + (seq![
                    rest.take(end - start),
                ] + words_of(s@.skip(end as int))));
            }
            start = end;
        }
    }
    assert(texts(out@) + words_of(s@.skip(start as int)) =~= texts(out@));
    out
}

} // verus!
