//! Cutting text: at its ends, at a separator and at a byte position.
use crate::text::{
    chars_of, find_from, find_text, lemma_find_from, lemma_texts_push, starts_with, texts,
};
use crate::shell_client::jobs::char_bytes;
use vstd::prelude::*;
use vstd::string::*;

verus! {

broadcast use {vstd::seq_lib::group_seq_properties, lemma_texts_push};

// ---------------------------------------------------------------------------
// At the ends
// ---------------------------------------------------------------------------

/// `s` without the leading characters that are in `set`.
pub open spec fn trim_start_set(s: Seq<char>, set: Seq<char>) -> Seq<char>
    decreases s.len(),
{
    if s.len() > 0 && set.contains(s[0]) {
        trim_start_set(s.skip(1), set)
    } else {
        s
    }
}

/// `s` without the trailing characters that are in `set`.
pub open spec fn trim_end_set(s: Seq<char>, set: Seq<char>) -> Seq<char>
    decreases s.len(),
{
    if s.len() > 0 && set.contains(s.last()) {
        trim_end_set(s.drop_last(), set)
    } else {
        s
    }
}

/// `s` without the characters at its ends that are in `set`.
pub open spec fn trim_set(s: Seq<char>, set: Seq<char>) -> Seq<char> {
    trim_end_set(trim_start_set(s, set), set)
}

fn is_in(set: &Vec<char>, c: char) -> (r: bool)
    ensures
        r == set@.contains(c),
{
    let mut i: usize = 0;
    while i < set.len()
        invariant
            i <= set@.len(),
            forall|j: int| 0 <= j < i ==> set@[j] != c,
        decreases set@.len() - i,
    {
        if set[i] == c {
            return true;
        }
        i = i + 1;
    }
    false
}

/// `s` without the leading characters that are in `set`.
pub fn str_trim_start_set<'a>(s: &'a str, set: &str) -> (r: &'a str)
    ensures
        r@ == trim_start_set(s@, set@),
{
    let cs = chars_of(s);
    let members = chars_of(set);
    let mut lo: usize = 0;
    assert(s@.skip(0) =~= s@);
    while lo < cs.len() && is_in(&members, cs[lo])
        invariant
            lo <= cs@.len(),
            cs@ == s@,
            members@ == set@,
            trim_start_set(s@, set@) == trim_start_set(s@.skip(lo as int), set@),
        decreases cs@.len() - lo,
    {
        assert(s@.skip(lo as int).skip(1) =~= s@.skip(lo + 1));
        lo = lo + 1;
    }
    assert(s@.subrange(lo as int, s@.len() as int) =~= s@.skip(lo as int));
    s.substring_char(lo, cs.len())
}

/// `s` without the trailing characters that are in `set`.
pub fn str_trim_end_set<'a>(s: &'a str, set: &str) -> (r: &'a str)
    ensures
        r@ == trim_end_set(s@, set@),
{
    let cs = chars_of(s);
    let members = chars_of(set);
    let mut hi: usize = cs.len();
    assert(s@.take(hi as int) =~= s@);
    while hi > 0 && is_in(&members, cs[hi - 1])
        invariant
            hi <= cs@.len(),
            cs@ == s@,
            members@ == set@,
            trim_end_set(s@, set@) == trim_end_set(s@.take(hi as int), set@),
        decreases hi,
    {
        assert(s@.take(hi as int).drop_last() =~= s@.take(hi - 1));
        hi = hi - 1;
    }
    assert(s@.subrange(0, hi as int) =~= s@.take(hi as int));
    s.substring_char(0, hi)
}

/// `s` without the characters at its ends that are in `set`.
pub fn str_trim_set<'a>(s: &'a str, set: &str) -> (r: &'a str)
    ensures
        r@ == trim_set(s@, set@),
{
    str_trim_end_set(str_trim_start_set(s, set), set)
}

/// `s` without any number of leading `p`.
pub open spec fn strip_prefixes(s: Seq<char>, p: Seq<char>) -> Seq<char>
    decreases s.len(),
{
    if p.len() > 0 && p.is_prefix_of(s) {
        strip_prefixes(s.skip(p.len() as int), p)
    } else {
        s
    }
}

/// `s` without any number of leading `p`.
pub fn str_strip_prefixes<'a>(s: &'a str, p: &str) -> (r: &'a str)
    ensures
        r@ == strip_prefixes(s@, p@),
{
    let step = p.unicode_len();
    let mut rest: &'a str = s;
    while step > 0 && starts_with(rest, p)
        invariant
            step == p@.len(),
            strip_prefixes(s@, p@) == strip_prefixes(rest@, p@),
        decreases rest@.len(),
    {
        let n = rest.unicode_len();
        assert(rest@.subrange(step as int, n as int) =~= rest@.skip(step as int));
        rest = rest.substring_char(step, n);
    }
    rest
}

// ---------------------------------------------------------------------------
// At a separator
// ---------------------------------------------------------------------------

/// What stands before and after the first `p` in `s`.
pub open spec fn cut_at(s: Seq<char>, p: Seq<char>) -> Option<(Seq<char>, Seq<char>)> {
    match find_from(s, p, 0) {
        Some(k) => Some((s.take(k), s.skip(k + p.len()))),
        None => None,
    }
}

/// What stands before and after the first `p` in `s`.
pub fn split_once<'a>(s: &'a str, p: &str) -> (r: Option<(&'a str, &'a str)>)
    ensures
        cut_at(s@, p@) == (match r {
            Some((a, b)) => Some((a@, b@)),
            None => None,
        }),
{
    match find_text(s, p, 0) {
        Some(k) => {
            proof {
                lemma_find_from(s@, p@, 0);
            }
            let n = s.unicode_len();
            let m = p.unicode_len();
            assert(s@.subrange(0, k as int) =~= s@.take(k as int));
            assert(s@.subrange(k + m, n as int) =~= s@.skip(k + m));
            Some((s.substring_char(0, k), s.substring_char(k + m, n)))
        },
        None => None,
    }
}

/// The pieces of `s` between the occurrences of `p`, found from the left.
pub open spec fn pieces(s: Seq<char>, p: Seq<char>) -> Seq<Seq<char>>
    decreases s.len(),
    via pieces_decreases
{
    if p.len() == 0 {
        seq![s]
    } else {
        match find_from(s, p, 0) {
            Some(k) => seq![s.take(k)] + pieces(s.skip(k + p.len()), p),
            None => seq![s],
        }
    }
}

#[via_fn]
proof fn pieces_decreases(s: Seq<char>, p: Seq<char>) {
    lemma_find_from(s, p, 0);
}

/// The pieces of `s` between the occurrences of `p`, found from the left.
pub fn split_text(s: &str, p: &str) -> (r: Vec<String>)
    requires
        p@.len() > 0,
    ensures
        texts(r@) == pieces(s@, p@),
{
    let mut out: Vec<String> = Vec::new();
    let mut rest: &str = s;
    assert(texts(out@) + pieces(s@, p@) =~= pieces(s@, p@));
    loop
        invariant
            p@.len() > 0,
            texts(out@) + pieces(rest@, p@) == pieces(s@, p@),
        decreases rest@.len(),
    {
        proof {
            lemma_find_from(rest@, p@, 0);
        }
        let ghost before = texts(out@);
        match split_once(rest, p) {
            Some((head, tail)) => {
                out.push(head.to_owned());
                assert(texts(out@) + pieces(tail@, p@) =~= before + (seq![head@] + pieces(
                    tail@,
                    p@,
                )));
                rest = tail;
            },
            None => {
                out.push(rest.to_owned());
                assert(texts(out@) =~= before + seq![rest@]);
                return out;
            },
        }
    }
}

/// Piece `i`, or the empty text where there is none.
pub open spec fn piece(v: Seq<Seq<char>>, i: int) -> Seq<char> {
    if 0 <= i < v.len() {
        v[i]
    } else {
        seq![]
    }
}

/// Piece `i`, or the empty text where there is none.
pub fn piece_at(v: &Vec<String>, i: usize) -> (r: &str)
    ensures
        r@ == piece(texts(v@), i as int),
{
    if i < v.len() {
        assert(texts(v@)[i as int] == v@[i as int]@);
        v[i].as_str()
    } else {
        proof {
            reveal_strlit("");
        }
        assert(""@ =~= seq![]);
        ""
    }
}

// ---------------------------------------------------------------------------
// At a byte position
// ---------------------------------------------------------------------------

/// What follows the first `n` bytes of `s`, where a character starts or `s` ends
/// there.
pub open spec fn byte_skip(s: Seq<char>, n: nat) -> Option<Seq<char>>
    decreases s.len(),
{
    if n == 0 {
        Some(s)
    } else if s.len() == 0 || char_bytes(s[0]) > n {
        None
    } else {
        byte_skip(s.skip(1), (n - char_bytes(s[0])) as nat)
    }
}

/// The number of characters in the first `n` bytes of `s`, where a character starts
/// or `s` ends there.
pub open spec fn byte_place(s: Seq<char>, n: nat) -> Option<int>
    decreases s.len(),
{
    if n == 0 {
        Some(0)
    } else if s.len() == 0 || char_bytes(s[0]) > n {
        None
    } else {
        match byte_place(s.skip(1), (n - char_bytes(s[0])) as nat) {
            Some(k) => Some(k + 1),
            None => None,
        }
    }
}

pub proof fn lemma_byte_place(s: Seq<char>, n: nat)
    ensures
        byte_skip(s, n) is Some <==> byte_place(s, n) is Some,
        byte_place(s, n) is Some ==> 0 <= byte_place(s, n)->0 <= s.len() && byte_skip(s, n)
            == Some(s.skip(byte_place(s, n)->0)),
    decreases s.len(),
{
    if n == 0 {
        assert(s.skip(0) =~= s);
    } else if s.len() > 0 && char_bytes(s[0]) <= n {
        let m = (n - char_bytes(s[0])) as nat;
        lemma_byte_place(s.skip(1), m);
        if byte_place(s.skip(1), m) is Some {
            let k = byte_place(s.skip(1), m)->0;
            assert(s.skip(1).skip(k) =~= s.skip(k + 1));
        }
    }
}

/// The number of characters in the first `n` bytes of `cs`.
pub fn find_byte_place(cs: &Vec<char>, n: usize) -> (r: Option<usize>)
    ensures
        byte_place(cs@, n as nat) == (match r {
            Some(k) => Some(k as int),
            None => None,
        }),
{
    let mut i: usize = 0;
    let mut left: usize = n;
    assert(cs@.skip(0) =~= cs@);
    while left > 0
        invariant
            i <= cs@.len(),
            byte_place(cs@, n as nat) == (match byte_place(cs@.skip(i as int), left as nat) {
                Some(k) => Some(k + i),
                None => None,
            }),
        decreases left,
    {
        if i == cs.len() {
            return None;
        }
        let w = crate::shell_client::jobs::char_width(cs[i]);
        if w > left {
            return None;
        }
        assert(cs@.skip(i as int).skip(1) =~= cs@.skip(i + 1));
        left = left - w;
        i = i + 1;
    }
    Some(i)
}

/// What follows the first `n` bytes of `s`, where a character starts there.
pub fn str_byte_skip<'a>(s: &'a str, n: usize) -> (r: Option<&'a str>)
    ensures
        byte_skip(s@, n as nat) == (match r {
            Some(t) => Some(t@),
            None => None,
        }),
{
    let cs = chars_of(s);
    proof {
        lemma_byte_place(s@, n as nat);
    }
    match find_byte_place(&cs, n) {
        Some(k) => {
            assert(s@.subrange(k as int, s@.len() as int) =~= s@.skip(k as int));
            Some(s.substring_char(k, cs.len()))
        },
        None => None,
    }
}

// ---------------------------------------------------------------------------
// Character by character
// ---------------------------------------------------------------------------

/// The lower-case form of an ASCII letter; any other character as it is.
pub open spec fn lower_char(c: char) -> char {
    if 'A' <= c <= 'Z' {
        (c as u8 + 32) as char
    } else {
        c
    }
}

/// `s` with its ASCII letters in lower case.
pub open spec fn lower(s: Seq<char>) -> Seq<char> {
    Seq::new(s.len(), |i: int| lower_char(s[i]))
}

/// `s` with its ASCII letters in lower case.
pub fn str_lower(s: &str) -> (r: String)
    ensures
        r@ == lower(s@),
{
    let cs = chars_of(s);
    let mut out = String::new();
    let mut i: usize = 0;
    while i < cs.len()
        invariant
            i <= cs@.len(),
            cs@ == s@,
            out@ == lower(s@).take(i as int),
        decreases cs@.len() - i,
    {
        let c = cs[i];
        let l = if 'A' <= c && c <= 'Z' {
            (c as u8 + 32) as char
        } else {
            c
        };
        proof {
            assert(lower(s@).take(i as int).push(lower(s@)[i as int]) =~= lower(s@).take(i + 1));
        }
        out.push(l);
        i = i + 1;
    }
    assert(lower(s@).take(i as int) =~= lower(s@));
    out
}

/// `s` with `with` in the place of each `c`.
pub open spec fn replace_char(s: Seq<char>, c: char, with: Seq<char>) -> Seq<char>
    decreases s.len(),
{
    if s.len() == 0 {
        seq![]
    } else {
        replace_char(s.drop_last(), c, with) + (if s.last() == c {
            with
        } else {
            seq![s.last()]
        })
    }
}

/// `s` with `with` in the place of each `c`.
pub fn str_replace_char(s: &str, c: char, with: &str) -> (r: String)
    ensures
        r@ == replace_char(s@, c, with@),
{
    let cs = chars_of(s);
    let mut out = String::new();
    let mut i: usize = 0;
    assert(out@ =~= replace_char(s@.take(0), c, with@));
    while i < cs.len()
        invariant
            i <= cs@.len(),
            cs@ == s@,
            out@ == replace_char(s@.take(i as int), c, with@),
        decreases cs@.len() - i,
    {
        proof {
            assert(s@.take(i + 1).drop_last() =~= s@.take(i as int));
            assert(out@.push(s@[i as int]) =~= out@ + seq![s@[i as int]]);
        }
        if cs[i] == c {
            out.append(with);
        } else {
            out.push(cs[i]);
        }
        i = i + 1;
    }
    assert(s@.take(i as int) =~= s@);
    out
}

} // verus!
