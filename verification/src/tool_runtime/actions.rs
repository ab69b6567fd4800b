//! Lists of suggested actions, in which nothing occurs twice.
use crate::text::{lemma_texts_push, str_eq, texts};
use vstd::prelude::*;

verus! {

/// `list` with `item` at its end, unless it is there.
pub open spec fn with_unique(list: Seq<Seq<char>>, item: Seq<char>) -> Seq<Seq<char>> {
    if list.contains(item) {
        list
    } else {
        list.push(item)
    }
}

/// `list` with `item` at its end, where `wanted` holds and it is not there.
pub open spec fn with_if(list: Seq<Seq<char>>, wanted: bool, item: Seq<char>) -> Seq<Seq<char>> {
    if wanted {
        with_unique(list, item)
    } else {
        list
    }
}

/// Whether a text is in a list.
pub fn holds_text(list: &Vec<String>, item: &str) -> (r: bool)
    ensures
        r == texts(list@).contains(item@),
{
    let mut i: usize = 0;
    while i < list.len()
        invariant
            i <= list@.len(),
            forall|j: int| 0 <= j < i ==> (#[trigger] list@[j])@ != item@,
        decreases list@.len() - i,
    {
        if str_eq(list[i].as_str(), item) {
            assert(texts(list@)[i as int] == item@);
            return true;
        }
        i = i + 1;
    }
    assert forall|j: int| 0 <= j < texts(list@).len() implies texts(list@)[j] != item@ by {
        assert(texts(list@)[j] == list@[j]@);
    }
    false
}

/// Adds a text to a list, unless it is there.
pub fn push_unique(list: &mut Vec<String>, item: &str)
    ensures
        texts(final(list)@) == with_unique(texts(old(list)@), item@),
{
    broadcast use lemma_texts_push;

    if !holds_text(list, item) {
        list.push(item.to_owned());
    }
}

/// Adds an action to a list, unless it is there.
pub fn push_unique_action(actions: &mut Vec<String>, action: &str)
    ensures
        texts(final(actions)@) == with_unique(texts(old(actions)@), action@),
{
    push_unique(actions, action);
}

/// Adds an action to a list where it is wanted, unless it is there.
pub fn push_if(actions: &mut Vec<String>, wanted: bool, action: &str)
    ensures
        texts(final(actions)@) == with_if(texts(old(actions)@), wanted, action@),
{
    if wanted {
        push_unique(actions, action);
    }
}

/// The empty list.
pub fn no_texts() -> (r: Vec<String>)
    ensures
        texts(r@) == Seq::<Seq<char>>::empty(),
{
    let r: Vec<String> = Vec::new();
    assert(texts(r@) =~= Seq::<Seq<char>>::empty());
    r
}

/// Adding to a list without repetitions leaves one, with everything that was there
/// in its place, and adding again changes nothing.
pub proof fn law_with_unique(list: Seq<Seq<char>>, item: Seq<char>)
    requires
        list.no_duplicates(),
    ensures
        with_unique(list, item).no_duplicates(),
        with_unique(list, item).contains(item),
        list.is_prefix_of(with_unique(list, item)),
        with_unique(with_unique(list, item), item) == with_unique(list, item),
{
    if !list.contains(item) {
        let all = list.push(item);
        assert(all[list.len() as int] == item);
        assert(all.take(list.len() as int) =~= list);
    } else {
        assert(list.take(list.len() as int) =~= list);
    }
}

} // verus!
