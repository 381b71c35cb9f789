//! A small table keyed by strings, with at most one entry for a key.

use vstd::prelude::*;

use crate::text::str_eq;

verus! {

/// Whether no two entries of a list have the same key.
pub open spec fn distinct_keys<T>(entries: Seq<(String, T)>) -> bool {
    forall|i: int, j: int|
        0 <= i < j < entries.len() ==> (#[trigger] entries[i]).0@ != (#[trigger] entries[j]).0@
}

/// The map that a list of entries writes: each entry maps its key to its
/// value, a later entry before an earlier one.
pub open spec fn as_map<T>(entries: Seq<(String, T)>) -> Map<Seq<char>, T>
    decreases entries.len(),
{
    if entries.len() == 0 {
        Map::empty()
    } else {
        as_map(entries.drop_last()).insert(entries.last().0@, entries.last().1)
    }
}

/// A key is in the map of a list exactly when an entry of the list has it.
pub proof fn lemma_as_map_keys<T>(entries: Seq<(String, T)>, key: Seq<char>)
    ensures
        as_map(entries).contains_key(key) <==> exists|i: int|
            0 <= i < entries.len() && (#[trigger] entries[i]).0@ == key,
    decreases entries.len(),
{
    if entries.len() > 0 {
        let front = entries.drop_last();
        lemma_as_map_keys(front, key);
        if as_map(entries).contains_key(key) {
            if entries.last().0@ == key {
                assert(entries[entries.len() - 1].0@ == key);
            } else {
                let i = choose|i: int| 0 <= i < front.len() && (#[trigger] front[i]).0@ == key;
                assert(entries[i].0@ == key);
            }
        }
        if exists|i: int| 0 <= i < entries.len() && (#[trigger] entries[i]).0@ == key {
            let i = choose|i: int| 0 <= i < entries.len() && (#[trigger] entries[i]).0@ == key;
            if i < entries.len() - 1 {
                assert(front[i].0@ == key);
            }
        }
    }
}

/// Where keys are distinct, the map of a list gives for the key of an entry
/// the value of that entry.
pub proof fn lemma_as_map_value<T>(entries: Seq<(String, T)>, i: int)
    requires
        distinct_keys(entries),
        0 <= i < entries.len(),
    ensures
        as_map(entries).contains_key(entries[i].0@),
        as_map(entries)[entries[i].0@] == entries[i].1,
    decreases entries.len(),
{
    let front = entries.drop_last();
    if i < entries.len() - 1 {
        assert(front[i] == entries[i]);
        assert(entries[i].0@ != entries[entries.len() - 1].0@);
        lemma_as_map_value(front, i);
    }
}

/// Where keys are distinct, the map of a list has as many keys as the list
/// has entries.
pub proof fn lemma_as_map_len<T>(entries: Seq<(String, T)>)
    requires
        distinct_keys(entries),
    ensures
        as_map(entries).dom().finite(),
        as_map(entries).dom().len() == entries.len(),
    decreases entries.len(),
{
    if entries.len() > 0 {
        let front = entries.drop_last();
        lemma_as_map_len(front);
        lemma_as_map_keys(front, entries.last().0@);
        if as_map(front).contains_key(entries.last().0@) {
            let i = choose|i: int| 0 <= i < front.len() && (#[trigger] front[i]).0@ == entries.last().0@;
            assert(entries[i].0@ == entries[entries.len() - 1].0@);
        }
        assert(as_map(entries).dom() =~= as_map(front).dom().insert(entries.last().0@));
    }
}

/// Where keys are distinct, a new value in the place of an entry with the
/// same key keeps the keys distinct, and changes the map as `insert` does.
pub proof fn lemma_as_map_replace<T>(entries: Seq<(String, T)>, i: int, key: String, value: T)
    requires
        distinct_keys(entries),
        0 <= i < entries.len(),
        entries[i].0@ == key@,
    ensures
        distinct_keys(entries.update(i, (key, value))),
        as_map(entries.update(i, (key, value))) == as_map(entries).insert(key@, value),
{
    let after = entries.update(i, (key, value));
    assert forall|a: int, b: int| 0 <= a < b < after.len() implies (#[trigger] after[a]).0@
        != (#[trigger] after[b]).0@ by {
        assert(after[a].0@ == entries[a].0@);
        assert(after[b].0@ == entries[b].0@);
    }
    let want = as_map(entries).insert(key@, value);
    assert forall|q: Seq<char>| as_map(after).contains_key(q) == want.contains_key(q) by {
        lemma_as_map_keys(after, q);
        lemma_as_map_keys(entries, q);
        if as_map(after).contains_key(q) {
            let j = choose|j: int| 0 <= j < after.len() && (#[trigger] after[j]).0@ == q;
            assert(entries[j].0@ == q);
        }
        if as_map(entries).contains_key(q) {
            let j = choose|j: int| 0 <= j < entries.len() && (#[trigger] entries[j]).0@ == q;
            assert(after[j].0@ == q);
        }
        assert(after[i].0@ == key@);
    }
    assert forall|q: Seq<char>| as_map(after).contains_key(q) implies as_map(after)[q]
        == want[q] by {
        lemma_as_map_keys(after, q);
        let j = choose|j: int| 0 <= j < after.len() && (#[trigger] after[j]).0@ == q;
        lemma_as_map_value(after, j);
        if q != key@ {
            assert(entries[j] == after[j]);
            lemma_as_map_value(entries, j);
        }
    }
    assert(as_map(after) =~= want);
}

/// A table from strings to values of `T`.
pub struct Table<T> {
    entries: Vec<(String, T)>,
}

impl<T> View for Table<T> {
    type V = Map<Seq<char>, T>;

    closed spec fn view(&self) -> Map<Seq<char>, T> {
        as_map(self.entries@)
    }
}

impl<T> Table<T> {
    #[verifier::type_invariant]
    spec fn keys_distinct(self) -> bool {
        distinct_keys(self.entries@)
    }

    /// The table without entries.
    pub fn new() -> (table: Table<T>)
        ensures
            table@ == Map::<Seq<char>, T>::empty(),
    {
        Table { entries: Vec::new() }
    }

    /// The number of entries.
    pub fn len(&self) -> (n: usize)
        ensures
            self@.dom().finite(),
            n == self@.dom().len(),
    {
        proof {
            use_type_invariant(self);
            lemma_as_map_len(self.entries@);
        }
        self.entries.len()
    }

    /// Where in the list the entry of a key stands.
    fn position(&self, key: &str) -> (at: Option<usize>)
        ensures
            match at {
                Some(i) => i < self.entries@.len() && self.entries@[i as int].0@ == key@,
                None => forall|i: int| 0 <= i < self.entries@.len() ==> (#[trigger] self.entries@[i]).0@ != key@,
            },
    {
        let mut i: usize = 0;
        while i < self.entries.len()
            invariant
                i <= self.entries@.len(),
                forall|j: int| 0 <= j < i ==> (#[trigger] self.entries@[j]).0@ != key@,
            decreases self.entries@.len() - i,
        {
            if str_eq(self.entries[i].0.as_str(), key) {
                return Some(i);
            }
            i += 1;
        }
        None
    }

    /// Whether the table has an entry for a key.
    pub fn contains_key(&self, key: &str) -> (found: bool)
        ensures
            found == self@.contains_key(key@),
    {
        proof {
            lemma_as_map_keys(self.entries@, key@);
        }
        self.position(key).is_some()
    }

    /// The value that the table holds for a key.
    pub fn get(&self, key: &str) -> (value: Option<&T>)
        ensures
            match value {
                Some(v) => self@.contains_key(key@) && self@[key@] == *v,
                None => !self@.contains_key(key@),
            },
    {
        proof {
            use_type_invariant(self);
            lemma_as_map_keys(self.entries@, key@);
        }
        match self.position(key) {
            Some(i) => {
                proof {
                    lemma_as_map_value(self.entries@, i as int);
                }
                Some(&self.entries[i].1)
            },
            None => None,
        }
    }

    /// Sets the value for a key: a new entry where the table had none for
    /// the key, else the new value in place of the old one.
    pub fn insert(&mut self, key: String, value: T)
        ensures
            final(self)@ == old(self)@.insert(key@, value),
    {
        proof {
            use_type_invariant(&*self);
        }
        let ghost before = self.entries@;
        let at = self.position(key.as_str());
        let mut entries: Vec<(String, T)> = Vec::new();
        core::mem::swap(&mut self.entries, &mut entries);
        match at {
            Some(i) => {
                proof {
                    lemma_as_map_replace(before, i as int, key, value);
                }
                entries.set(i, (key, value));
            },
            None => {
                entries.push((key, value));
                assert(entries@.drop_last() =~= before);
            },
        }
        self.entries = entries;
    }
}

} // verus!
