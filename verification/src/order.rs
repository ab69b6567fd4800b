//! The order of texts: by their characters, first difference first.
use crate::text::{chars_of, texts};
use vstd::prelude::*;
use vstd::seq_lib::to_multiset_insert;

verus! {

/// Whether `a` comes before `b`.
pub open spec fn text_less(a: Seq<char>, b: Seq<char>) -> bool
    decreases a.len(),
{
    if b.len() == 0 {
        false
    } else if a.len() == 0 {
        true
    } else if a[0] != b[0] {
        a[0] < b[0]
    } else {
        text_less(a.skip(1), b.skip(1))
    }
}

/// No text comes before itself.
pub proof fn lemma_less_irreflexive(a: Seq<char>)
    ensures
        !text_less(a, a),
    decreases a.len(),
{
    if a.len() > 0 {
        lemma_less_irreflexive(a.skip(1));
    }
}

/// The order is transitive.
pub proof fn lemma_less_transitive(a: Seq<char>, b: Seq<char>, c: Seq<char>)
    requires
        text_less(a, b),
        text_less(b, c),
    ensures
        text_less(a, c),
    decreases a.len(),
{
    if a.len() > 0 && a[0] == b[0] && b[0] == c[0] {
        lemma_less_transitive(a.skip(1), b.skip(1), c.skip(1));
    }
}

/// Of two different texts one comes before the other.
pub proof fn lemma_less_total(a: Seq<char>, b: Seq<char>)
    ensures
        a == b || text_less(a, b) || text_less(b, a),
    decreases a.len(),
{
    if a.len() > 0 && b.len() > 0 {
        if a[0] == b[0] {
            lemma_less_total(a.skip(1), b.skip(1));
            if a.skip(1) == b.skip(1) {
                assert forall|i: int| 0 <= i < a.len() implies a[i] == b[i] by {
                    if i > 0 {
                        assert(a[i] == a.skip(1)[i - 1]);
                        assert(b[i] == b.skip(1)[i - 1]);
                    }
                }
                assert(a.len() == a.skip(1).len() + 1);
                assert(b.len() == b.skip(1).len() + 1);
                assert(a =~= b);
            }
        }
    } else if a.len() == 0 && b.len() == 0 {
        assert(a =~= b);
    }
}

/// Whether `a` comes before `b`.
pub fn str_less(a: &str, b: &str) -> (r: bool)
    ensures
        r == text_less(a@, b@),
{
    let x = chars_of(a);
    let y = chars_of(b);
    let mut i: usize = 0;
    assert(x@.skip(0) =~= x@);
    assert(y@.skip(0) =~= y@);
    while i < x.len() && i < y.len() && x[i] == y[i]
        invariant
            i <= x@.len(),
            i <= y@.len(),
            text_less(x@, y@) == text_less(x@.skip(i as int), y@.skip(i as int)),
        decreases x@.len() - i,
    {
        assert(x@.skip(i as int).skip(1) =~= x@.skip(i + 1));
        assert(y@.skip(i as int).skip(1) =~= y@.skip(i + 1));
        i = i + 1;
    }
    if i == y.len() {
        false
    } else if i == x.len() {
        true
    } else {
        x[i] < y[i]
    }
}

// ---------------------------------------------------------------------------
// Sorted lists
// ---------------------------------------------------------------------------

/// Sorted by the order of texts.
pub open spec fn sorted_texts(list: Seq<Seq<char>>) -> bool {
    forall|i: int, j: int|
        0 <= i < j < list.len() ==> !text_less(#[trigger] list[j], #[trigger] list[i])
}

/// The place of a text in a sorted list: before the first one that comes after it.
pub open spec fn text_place(list: Seq<Seq<char>>, item: Seq<char>) -> int
    decreases list.len(),
{
    if list.len() == 0 {
        0
    } else if text_less(item, list[0]) {
        0
    } else {
        1 + text_place(list.skip(1), item)
    }
}

/// A list with a text in its place.
pub open spec fn with_text_placed(list: Seq<Seq<char>>, item: Seq<char>) -> Seq<Seq<char>> {
    list.insert(text_place(list, item), item)
}

/// The place of a text is the first before which it comes.
proof fn lemma_text_place(list: Seq<Seq<char>>, item: Seq<char>)
    ensures
        0 <= text_place(list, item) <= list.len(),
        forall|i: int| 0 <= i < text_place(list, item) ==> !text_less(item, #[trigger] list[i]),
        text_place(list, item) < list.len() ==> text_less(item, list[text_place(list, item)]),
    decreases list.len(),
{
    if list.len() > 0 && !text_less(item, list[0]) {
        lemma_text_place(list.skip(1), item);
        let place = text_place(list.skip(1), item);
        assert forall|i: int| 0 <= i < 1 + place implies !text_less(item, #[trigger] list[i]) by {
            if i > 0 {
                assert(list[i] == list.skip(1)[i - 1]);
            }
        }
    }
}

/// A text put in its place keeps a list sorted, and adds that text only.
pub proof fn lemma_text_placed(list: Seq<Seq<char>>, item: Seq<char>)
    ensures
        sorted_texts(list) ==> sorted_texts(with_text_placed(list, item)),
        with_text_placed(list, item).to_multiset() == list.to_multiset().insert(item),
        with_text_placed(list, item).len() == list.len() + 1,
{
    let i = text_place(list, item);
    lemma_text_place(list, item);
    to_multiset_insert(list, i, item);
    let after = with_text_placed(list, item);
    if sorted_texts(list) {
        assert forall|a: int, b: int| 0 <= a < b < after.len() implies !text_less(
            #[trigger] after[b],
            #[trigger] after[a],
        ) by {
            if b < i {
                assert(after[a] == list[a] && after[b] == list[b]);
            } else if b == i {
                assert(after[a] == list[a]);
            } else if a > i {
                assert(after[a] == list[a - 1] && after[b] == list[b - 1]);
            } else if a == i {
                assert(after[b] == list[b - 1]);
                lemma_less_irreflexive(list[i]);
                if text_less(list[b - 1], item) {
                    lemma_less_transitive(list[b - 1], item, list[i]);
                }
            } else {
                assert(after[a] == list[a] && after[b] == list[b - 1]);
            }
        }
    }
}

/// Puts a text in its place in a sorted list.
pub fn insert_sorted(list: &mut Vec<String>, item: &str)
    ensures
        texts(final(list)@) == with_text_placed(texts(old(list)@), item@),
{
    let ghost before = texts(list@);
    let mut i: usize = 0;
    assert(before.skip(0) =~= before);
    while i < list.len() && !str_less(item, list[i].as_str())
        invariant
            i <= list@.len(),
            before == texts(list@),
            text_place(before, item@) == i + text_place(before.skip(i as int), item@),
        decreases list@.len() - i,
    {
        assert(before.skip(i as int)[0] == list@[i as int]@);
        assert(before.skip(i as int).skip(1) =~= before.skip(i + 1));
        i = i + 1;
    }
    proof {
        if i < list@.len() {
            assert(before.skip(i as int)[0] == list@[i as int]@);
        }
        assert(text_place(before, item@) == i);
    }
    list.insert(i, item.to_owned());
    assert(texts(list@) =~= before.insert(i as int, item@));
}

} // verus!
