//! What holds of cutting and ordering text, whatever the text.
use crate::cut::lower;
use crate::lines::{join, lemma_index_of_is, lines_of, strip_return};
use crate::order::text_less;
use crate::text::{is_alphanumeric, is_space, trim, trim_end, trim_start};
use vstd::prelude::*;

verus! {

/// Blanks, tabs and line ends are white space; letters, digits and the marks of ids and
/// paths are not.
pub proof fn law_white_space(c: char)
    ensures
        is_space(' ') && is_space('\t') && is_space('\n') && is_space('\r'),
        is_alphanumeric(c) ==> !is_space(c),
        !is_space('-') && !is_space('_') && !is_space('.') && !is_space('/') && !is_space(':')
            && !is_space('"') && !is_space('#'),
{
}

proof fn lemma_trim_start_is(s: Seq<char>) -> (k: int)
    ensures
        0 <= k <= s.len(),
        trim_start(s) == s.skip(k),
        forall|i: int| 0 <= i < k ==> is_space(#[trigger] s[i]),
        k < s.len() ==> !is_space(s[k]),
    decreases s.len(),
{
    assert(s.skip(0) =~= s);
    if s.len() > 0 && is_space(s[0]) {
        let j = lemma_trim_start_is(s.skip(1));
        assert(s.skip(1).skip(j) =~= s.skip(j + 1));
        assert forall|i: int| 0 <= i < j + 1 implies is_space(#[trigger] s[i]) by {
            if i > 0 {
                assert(s.skip(1)[i - 1] == s[i]);
            }
        }
        if j < s.skip(1).len() {
            assert(s.skip(1)[j] == s[j + 1]);
        }
        j + 1
    } else {
        0
    }
}

proof fn lemma_trim_end_is(s: Seq<char>) -> (k: int)
    ensures
        0 <= k <= s.len(),
        trim_end(s) == s.take(k),
        forall|i: int| k <= i < s.len() ==> is_space(#[trigger] s[i]),
        k > 0 ==> !is_space(s[k - 1]),
    decreases s.len(),
{
    assert(s.take(s.len() as int) =~= s);
    if s.len() > 0 && is_space(s.last()) {
        let t = s.drop_last();
        let j = lemma_trim_end_is(t);
        assert(t.take(j) =~= s.take(j));
        assert forall|i: int| j <= i < s.len() implies is_space(#[trigger] s[i]) by {
            if i < t.len() {
                assert(t[i] == s[i]);
            }
        }
        if j > 0 {
            assert(t[j - 1] == s[j - 1]);
        }
        j
    } else {
        s.len() as int
    }
}

/// A trimmed text is the part of the text between the white space around it: it neither
/// starts nor ends in white space, and all that was cut off is white space.
pub proof fn law_trim(s: Seq<char>)
    ensures
        exists|lo: int, hi: int|
            {
                &&& 0 <= lo <= hi <= s.len()
                &&& trim(s) == #[trigger] s.subrange(lo, hi)
                &&& forall|i: int| 0 <= i < lo ==> is_space(#[trigger] s[i])
                &&& forall|i: int| hi <= i < s.len() ==> is_space(#[trigger] s[i])
                &&& lo < hi ==> !is_space(s[lo]) && !is_space(s[hi - 1])
            },
{
    let lo = lemma_trim_start_is(s);
    let t = trim_start(s);
    let k = lemma_trim_end_is(t);
    let hi = lo + k;
    assert(t == s.skip(lo));
    assert(t.take(k) =~= s.subrange(lo, hi));
    assert forall|i: int| hi <= i < s.len() implies is_space(#[trigger] s[i]) by {
        assert(t[i - lo] == s[i]);
    }
    if lo < hi {
        assert(t[k - 1] == s[hi - 1]);
    }
    assert(trim(s) == s.subrange(lo, hi));
}

/// Of two texts the one comes first that is a true beginning of the other, or has the
/// smaller character where they first differ.
pub proof fn law_order_of_texts(a: Seq<char>, b: Seq<char>, k: int)
    requires
        0 <= k <= a.len(),
        k <= b.len(),
        a.take(k) == b.take(k),
        k < a.len() && k < b.len() ==> a[k] != b[k],
    ensures
        k < a.len() && k < b.len() ==> (text_less(a, b) <==> a[k] < b[k]),
        k == a.len() ==> (text_less(a, b) <==> a.len() < b.len()),
        k == b.len() ==> !text_less(a, b),
    decreases k,
{
    if k > 0 {
        assert(a.take(k)[0] == b.take(k)[0]);
        assert(a.take(k)[0] == a[0] && b.take(k)[0] == b[0]);
        let x = a.skip(1);
        let y = b.skip(1);
        assert(x.take(k - 1) =~= y.take(k - 1)) by {
            assert forall|i: int| 0 <= i < k - 1 implies x[i] == y[i] by {
                assert(a.take(k)[i + 1] == b.take(k)[i + 1]);
                assert(a.take(k)[i + 1] == a[i + 1] && b.take(k)[i + 1] == b[i + 1]);
                assert(x[i] == a[i + 1] && y[i] == b[i + 1]);
            }
        }
        if k < a.len() && k < b.len() {
            assert(x[k - 1] == a[k] && y[k - 1] == b[k]);
        }
        law_order_of_texts(x, y, k - 1);
        assert(text_less(a, b) == text_less(x, y));
    }
}

/// A text in lower case is as long, and only its capital letters differ.
pub proof fn law_lower(s: Seq<char>, i: int)
    requires
        0 <= i < s.len(),
    ensures
        lower(s).len() == s.len(),
        !('A' <= s[i] && s[i] <= 'Z') ==> lower(s)[i] == s[i],
        s[i] == 'A' ==> lower(s)[i] == 'a',
        s[i] == 'Z' ==> lower(s)[i] == 'z',
        s[i] == 'T' ==> lower(s)[i] == 't',
{
}

/// A line in front of a text is its first line, whether it ends as on one system or on
/// another; and a text without a line end is one line.
pub proof fn law_first_line(line: Seq<char>, rest: Seq<char>)
    requires
        !line.contains('\n'),
        line.len() > 0 ==> line.last() != '\r',
    ensures
        lines_of(line + seq!['\n'] + rest) == seq![line] + lines_of(rest),
        lines_of(line + seq!['\r', '\n'] + rest) == seq![line] + lines_of(rest),
        line.len() > 0 ==> lines_of(line) == seq![line],
        lines_of(Seq::<char>::empty()).len() == 0,
{
    let a = line + seq!['\n'] + rest;
    let b = line + seq!['\r', '\n'] + rest;
    let k = line.len() as int;
    assert forall|j: int| 0 <= j < k implies line[j] != '\n' by {
        assert(line.contains(line[j]));
    }
    lemma_index_of_is(a, '\n', k);
    assert(a.take(k) =~= line);
    assert(a.skip(k + 1) =~= rest);
    assert(lines_of(a) == seq![strip_return(a.take(k))] + lines_of(a.skip(k + 1)));
    assert(b[k] == '\r' && b[k + 1] == '\n');
    lemma_index_of_is(b, '\n', k + 1);
    assert(b.take(k + 1).drop_last() =~= line);
    assert(b.take(k + 1).last() == '\r');
    assert(b.skip(k + 2) =~= rest);
    assert(lines_of(b) == seq![strip_return(b.take(k + 1))] + lines_of(b.skip(k + 2)));
    if line.len() > 0 {
        lemma_index_of_is(line, '\n', k);
    }
}

/// Texts that are joined stand one behind the other, with the separator between each two.
pub proof fn law_join(parts: Seq<Seq<char>>, last: Seq<char>, sep: Seq<char>)
    ensures
        parts.len() > 0 ==> join(parts.push(last), sep) == join(parts, sep) + sep + last,
        join(seq![last], sep) == last,
        join(Seq::<Seq<char>>::empty(), sep).len() == 0,
{
    assert(parts.push(last).drop_last() =~= parts);
}

} // verus!
