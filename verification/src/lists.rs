//! Lists of names and of records: what the ledgers ask of them, and small
//! facts about lists without repetition.

use vstd::prelude::*;

verus! {

/// What is stored under `key`, or the empty list where nothing is.
pub open spec fn list_at<T>(lists: Map<Seq<char>, Seq<T>>, key: Seq<char>) -> Seq<T> {
    if lists.contains_key(key) {
        lists[key]
    } else {
        Seq::empty()
    }
}

/// A list with `item` in it: the list itself where it holds `item`
/// already, else the list with `item` behind its last element.
pub open spec fn with_member(list: Seq<Seq<char>>, item: Seq<char>) -> Seq<Seq<char>> {
    if list.contains(item) {
        list
    } else {
        list.push(item)
    }
}

/// Whether `item` stands at exactly one place of `list`.
pub open spec fn occurs_once<T>(list: Seq<T>, item: T) -> bool {
    exists|i: int|
        0 <= i < list.len() && #[trigger] list[i] == item && forall|j: int|
            0 <= j < list.len() && #[trigger] list[j] == item ==> j == i
}

/// A list without repetition that holds an item holds it exactly once.
pub proof fn lemma_occurs_once<T>(list: Seq<T>, item: T)
    requires
        list.no_duplicates(),
        list.contains(item),
    ensures
        occurs_once(list, item),
{
    let i = choose|i: int| 0 <= i < list.len() && list[i] == item;
    assert(list[i] == item);
}

/// `with_member` keeps a list free of repetition, keeps every item of it,
/// and makes the new item one of them.
pub proof fn lemma_with_member(list: Seq<Seq<char>>, item: Seq<char>)
    requires
        list.no_duplicates(),
    ensures
        with_member(list, item).no_duplicates(),
        with_member(list, item).contains(item),
        forall|other: Seq<char>| list.contains(other) ==> with_member(list, item).contains(other),
{
    let grown = with_member(list, item);
    if !list.contains(item) {
        assert(grown[list.len() as int] == item);
        assert forall|other: Seq<char>| list.contains(other) implies grown.contains(other) by {
            let i = choose|i: int| 0 <= i < list.len() && list[i] == other;
            assert(grown[i] == other);
        }
    }
}

/// A list without repetition stays so when an item that it does not hold
/// is put behind its last, and then holds the new item and all it held.
pub proof fn lemma_push_fresh<T>(list: Seq<T>, item: T)
    requires
        list.no_duplicates(),
        !list.contains(item),
    ensures
        list.push(item).no_duplicates(),
        list.push(item).contains(item),
        forall|other: T| list.contains(other) ==> list.push(item).contains(other),
{
    let grown = list.push(item);
    assert(grown[list.len() as int] == item);
    assert forall|other: T| list.contains(other) implies grown.contains(other) by {
        let i = choose|i: int| 0 <= i < list.len() && list[i] == other;
        assert(grown[i] == other);
    }
    assert forall|i: int, j: int| 0 <= i < j < grown.len() implies grown[i] != grown[j] by {
        if j == list.len() {
            assert(list[i] == grown[i]);
            assert(list.contains(grown[i]));
        }
    }
}

/// Whether `item` occurs in `list`.
pub fn list_contains(list: &Vec<String>, item: &String) -> (found: bool)
    ensures
        found == list.deep_view().contains(item@),
{
    let mut i: usize = 0;
    while i < list.len()
        invariant
            i <= list@.len(),
            forall|j: int| 0 <= j < i ==> list.deep_view()[j] != item@,
        decreases list@.len() - i,
    {
        if list[i] == *item {
            assert(list.deep_view()[i as int] == item@);
            return true;
        }
        i += 1;
    }
    false
}

/// Whether a list names nothing twice.
pub fn distinct(list: &Vec<String>) -> (res: bool)
    ensures
        res == list.deep_view().no_duplicates(),
{
    let ghost names = list.deep_view();
    let mut i: usize = 0;
    while i < list.len()
        invariant
            i <= list@.len(),
            names == list.deep_view(),
            forall|a: int, b: int| 0 <= a < b < i ==> names[a] != names[b],
        decreases list@.len() - i,
    {
        let mut j: usize = 0;
        while j < i
            invariant
                j <= i < list@.len(),
                names == list.deep_view(),
                forall|a: int| 0 <= a < j ==> names[a] != names[i as int],
            decreases i - j,
        {
            if list[j] == list[i] {
                assert(names[j as int] == names[i as int]);
                return false;
            }
            j += 1;
        }
        i += 1;
    }
    true
}

} // verus!
