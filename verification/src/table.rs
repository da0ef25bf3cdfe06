//! A keyed store: the per-ledger key→value map that every entity kind lives
//! in. Keys are strings; a key occurs at most once.

use vstd::prelude::*;

verus! {

/// A map from string keys to values, held as a list of pairs with distinct
/// keys. Its view is the mathematical map from each key to the model of its
/// value.
pub struct Table<V> {
    entries: Vec<(String, V)>,
}

/// The keys of a list of pairs, in order.
pub open spec fn entry_keys<V>(entries: Seq<(String, V)>) -> Seq<Seq<char>> {
    Seq::new(entries.len(), |i: int| entries[i].0@)
}

impl<V> Table<V> {
    #[verifier::type_invariant]
    closed spec fn distinct_keys(self) -> bool {
        entry_keys(self.entries@).no_duplicates()
    }
}

impl<V: DeepView> View for Table<V> {
    type V = Map<Seq<char>, V::V>;

    closed spec fn view(&self) -> Map<Seq<char>, V::V> {
        entry_map(self.entries@)
    }
}

/// The map that a list of pairs with distinct keys stands for: each key
/// leads to the model of its value.
pub open spec fn entry_map<V: DeepView>(entries: Seq<(String, V)>) -> Map<Seq<char>, V::V> {
    Map::new(
        |k: Seq<char>| entry_keys(entries).contains(k),
        |k: Seq<char>| entries[entry_keys(entries).index_of(k)].1.deep_view(),
    )
}

/// In a list of pairs with distinct keys, each pair's key leads to the
/// model of that pair's value.
pub proof fn lemma_entry_map<V: DeepView>(entries: Seq<(String, V)>, i: int)
    requires
        entry_keys(entries).no_duplicates(),
        0 <= i < entries.len(),
    ensures
        entry_map(entries).contains_key(entries[i].0@),
        entry_map(entries)[entries[i].0@] == entries[i].1.deep_view(),
{
    let keys = entry_keys(entries);
    assert(keys[i] == entries[i].0@);
    assert(keys.contains(entries[i].0@));
    let j = keys.index_of(entries[i].0@);
    assert(keys[j] == keys[i]);
}

/// Each key of the map that a list of pairs stands for is the key of one
/// of the pairs.
pub proof fn lemma_entry_key<V: DeepView>(entries: Seq<(String, V)>, key: Seq<char>) -> (i: int)
    requires
        entry_keys(entries).no_duplicates(),
        entry_map(entries).contains_key(key),
    ensures
        0 <= i < entries.len(),
        entries[i].0@ == key,
        entry_map(entries)[key] == entries[i].1.deep_view(),
{
    let keys = entry_keys(entries);
    let i = keys.index_of(key);
    assert(keys[i] == key);
    i
}

impl<V: DeepView> Table<V> {
    /// An empty table.
    pub fn new() -> (table: Self)
        ensures
            table@ == Map::<Seq<char>, V::V>::empty(),
    {
        let table = Table { entries: Vec::new() };
        assert(table@ =~= Map::<Seq<char>, V::V>::empty());
        table
    }

    /// The place of `key` among the entries, if it has one.
    fn find(&self, key: &String) -> (res: Option<usize>)
        ensures
            match res {
                Some(i) => i < self.entries@.len() && entry_keys(self.entries@)[i as int] == key@
                    && entry_keys(self.entries@).index_of(key@) == i,
                None => !entry_keys(self.entries@).contains(key@),
            },
    {
        proof {
            use_type_invariant(self);
        }
        let mut i: usize = 0;
        while i < self.entries.len()
            invariant
                i <= self.entries@.len(),
                entry_keys(self.entries@).no_duplicates(),
                forall|j: int| 0 <= j < i ==> entry_keys(self.entries@)[j] != key@,
            decreases self.entries@.len() - i,
        {
            if self.entries[i].0 == *key {
                proof {
                    let keys = entry_keys(self.entries@);
                    assert(keys[i as int] == key@);
                    assert(keys.contains(key@));
                    let j = keys.index_of(key@);
                    assert(keys[j] == key@);
                }
                return Some(i);
            }
            i += 1;
        }
        None
    }

    /// Whether `key` is stored.
    pub fn contains_key(&self, key: &String) -> (res: bool)
        ensures
            res == self@.contains_key(key@),
    {
        self.find(key).is_some()
    }

    /// The value stored under `key`, if any.
    pub fn get(&self, key: &String) -> (res: Option<&V>)
        ensures
            match res {
                Some(value) => self@.contains_key(key@) && self@[key@] == value.deep_view(),
                None => !self@.contains_key(key@),
            },
    {
        match self.find(key) {
            Some(i) => Some(&self.entries[i].1),
            None => None,
        }
    }

    /// The number of keys.
    pub fn len(&self) -> (n: usize)
        ensures
            self@.dom().finite(),
            n == self@.dom().len(),
    {
        proof {
            use_type_invariant(self);
            let keys = entry_keys(self.entries@);
            assert(self@.dom() =~= keys.to_set());
            keys.unique_seq_to_set();
            vstd::seq_lib::seq_to_set_is_finite(keys);
        }
        self.entries.len()
    }

    /// Stores `value` under `key`, in place of what was stored there.
    pub fn insert(&mut self, key: String, value: V)
        ensures
            final(self)@ == old(self)@.insert(key@, value.deep_view()),
    {
        proof {
            use_type_invariant(&*self);
        }
        let ghost before = self.entries@;
        let ghost old_view = self@;
        let found = self.find(&key);
        let mut entries: Vec<(String, V)> = Vec::new();
        core::mem::swap(&mut self.entries, &mut entries);
        let ghost keys = entry_keys(before);
        let ghost added = value.deep_view();
        let ghost name = key@;
        match found {
            Some(i) => {
                entries.set(i, (key, value));
                proof {
                    assert(entry_keys(entries@) =~= keys);
                    assert(entry_map(entries@) =~= old_view.insert(name, added));
                }
            },
            None => {
                entries.push((key, value));
                proof {
                    let after = entry_keys(entries@);
                    assert(after =~= keys.push(name));
                    assert forall|k: Seq<char>| keys.contains(k) implies after.index_of(k)
                        == keys.index_of(k) by {
                        let j = keys.index_of(k);
                        assert(after[j] == k);
                        let j2 = after.index_of(k);
                        assert(after[j2] == k);
                    }
                    assert(after[keys.len() as int] == name);
                    let j2 = after.index_of(name);
                    assert(after[j2] == name);
                    let grown = entry_map(entries@);
                    let wanted = old_view.insert(name, added);
                    assert forall|k: Seq<char>| #[trigger]
                        grown.dom().contains(k) == wanted.dom().contains(k) && (
                        wanted.dom().contains(k) ==> grown[k] == wanted[k]) by {
                        if grown.dom().contains(k) {
                            let j = choose|j: int| 0 <= j < after.len() && after[j] == k;
                            if j < keys.len() {
                                assert(keys[j] == k);
                            }
                        }
                        if k == name {
                            assert(after.contains(k));
                            assert(after.index_of(k) == keys.len());
                            assert(entries@[keys.len() as int].1.deep_view() == added);
                        } else if wanted.dom().contains(k) {
                            assert(old_view.contains_key(k));
                            assert(keys.contains(k));
                            let j = keys.index_of(k);
                            assert(keys[j] == k);
                            assert(after[j] == k);
                            assert(after.contains(k));
                            assert(after.index_of(k) == j);
                            assert(entries@[j] == before[j]);
                            assert(old_view[k] == before[j].1.deep_view());
                        }
                    }
                    assert(grown =~= wanted);
                }
            },
        }
        core::mem::swap(&mut self.entries, &mut entries);
    }

    /// Takes out what is stored under `key`, if anything is.
    pub fn remove(&mut self, key: &String) -> (res: Option<V>)
        ensures
            final(self)@ == old(self)@.remove(key@),
            match res {
                Some(value) => old(self)@.contains_key(key@) && old(self)@[key@]
                    == value.deep_view(),
                None => !old(self)@.contains_key(key@),
            },
    {
        proof {
            use_type_invariant(&*self);
        }
        let ghost before = self.entries@;
        let ghost old_view = self@;
        let ghost keys = entry_keys(before);
        match self.find(key) {
            Some(i) => {
                let mut entries: Vec<(String, V)> = Vec::new();
                core::mem::swap(&mut self.entries, &mut entries);
                let entry = entries.remove(i);
                proof {
                    let after = entry_keys(entries@);
                    assert(after =~= keys.remove(i as int));
                    assert forall|a: int, b: int| 0 <= a < b < after.len() implies after[a]
                        != after[b] by {
                        let a0 = if a < i { a } else { a + 1 };
                        let b0 = if b < i { b } else { b + 1 };
                        assert(after[a] == keys[a0]);
                        assert(after[b] == keys[b0]);
                    }
                    let shrunk = entry_map(entries@);
                    let wanted = old_view.remove(key@);
                    assert forall|k: Seq<char>| #[trigger]
                        shrunk.dom().contains(k) == wanted.dom().contains(k) && (
                        wanted.dom().contains(k) ==> shrunk[k] == wanted[k]) by {
                        if shrunk.dom().contains(k) {
                            let j = choose|j: int| 0 <= j < after.len() && after[j] == k;
                            let j0 = if j < i { j } else { j + 1 };
                            assert(keys[j0] == k);
                            assert(keys.contains(k));
                            assert(j0 != i);
                        }
                        if wanted.dom().contains(k) {
                            assert(keys.contains(k));
                            let j0 = keys.index_of(k);
                            assert(keys[j0] == k);
                            assert(j0 != i);
                            let j = if j0 < i { j0 } else { j0 - 1 };
                            assert(after[j] == k);
                            assert(after.contains(k));
                            let j2 = after.index_of(k);
                            assert(after[j2] == k);
                            assert(j2 == j);
                            assert(entries@[j] == before[j0]);
                        }
                    }
                    assert(shrunk =~= wanted);
                }
                core::mem::swap(&mut self.entries, &mut entries);
                Some(entry.1)
            },
            None => {
                assert(old_view.remove(key@) =~= old_view);
                None
            },
        }
    }

    /// The pairs of the table, each key once.
    pub fn pairs(&self) -> (pairs: &Vec<(String, V)>)
        ensures
            entry_keys(pairs@).no_duplicates(),
            entry_map(pairs@) == self@,
    {
        proof {
            use_type_invariant(self);
        }
        &self.entries
    }

    /// Takes the table apart into its pairs, each key once.
    pub fn into_pairs(self) -> (pairs: Vec<(String, V)>)
        ensures
            entry_keys(pairs@).no_duplicates(),
            entry_map(pairs@) == self@,
    {
        proof {
            use_type_invariant(&self);
        }
        self.entries
    }

    /// Makes a table of a list of pairs. `None` exactly where a key occurs
    /// twice.
    pub fn from_pairs(pairs: Vec<(String, V)>) -> (res: Option<Self>)
        ensures
            match res {
                Some(table) => entry_keys(pairs@).no_duplicates() && table@ == entry_map(pairs@),
                None => !entry_keys(pairs@).no_duplicates(),
            },
    {
        let ghost keys = entry_keys(pairs@);
        let mut i: usize = 0;
        while i < pairs.len()
            invariant
                i <= pairs@.len(),
                keys == entry_keys(pairs@),
                forall|a: int, b: int| 0 <= a < b < i ==> keys[a] != keys[b],
            decreases pairs@.len() - i,
        {
            let mut j: usize = 0;
            while j < i
                invariant
                    j <= i < pairs@.len(),
                    keys == entry_keys(pairs@),
                    forall|a: int| 0 <= a < j ==> keys[a] != keys[i as int],
                decreases i - j,
            {
                if pairs[j].0 == pairs[i].0 {
                    assert(keys[j as int] == keys[i as int]);
                    return None;
                }
                j += 1;
            }
            i += 1;
        }
        Some(Table { entries: pairs })
    }
}

} // verus!
