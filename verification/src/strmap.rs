//! A string-keyed map with a deterministic entry order.
//!
//! The map is an association vector whose keys are pairwise distinct; its
//! view is the mathematical `Map` from key character sequences to values.
//! It backs the context store, the capability registry and the state store.

use vstd::prelude::*;
use crate::text::str_eq;

verus! {

/// The mathematical map an entry sequence denotes; a later entry wins.
pub open spec fn map_of<V>(entries: Seq<(String, V)>) -> Map<Seq<char>, V>
    decreases entries.len(),
{
    if entries.len() == 0 {
        Map::empty()
    } else {
        map_of(entries.drop_last()).insert(entries.last().0@, entries.last().1)
    }
}

/// The keys of an entry sequence are pairwise distinct.
pub open spec fn keys_distinct<V>(entries: Seq<(String, V)>) -> bool {
    forall|i: int, j: int|
        0 <= i < j < entries.len() ==> entries[i].0@ != entries[j].0@
}

pub proof fn lemma_map_of_contains<V>(entries: Seq<(String, V)>, k: Seq<char>)
    ensures
        map_of(entries).contains_key(k) <==> exists|i: int|
            0 <= i < entries.len() && entries[i].0@ == k,
    decreases entries.len(),
{
    if entries.len() > 0 {
        lemma_map_of_contains(entries.drop_last(), k);
        if map_of(entries).contains_key(k) {
            if entries.last().0@ != k {
                let i = choose|i: int|
                    0 <= i < entries.drop_last().len() && entries.drop_last()[i].0@ == k;
                assert(entries[i].0@ == k);
            }
        }
        if exists|i: int| 0 <= i < entries.len() && entries[i].0@ == k {
            let i = choose|i: int| 0 <= i < entries.len() && entries[i].0@ == k;
            if i < entries.len() - 1 {
                assert(entries.drop_last()[i].0@ == k);
            }
        }
    }
}

pub proof fn lemma_map_of_index<V>(entries: Seq<(String, V)>, i: int)
    requires
        keys_distinct(entries),
        0 <= i < entries.len(),
    ensures
        map_of(entries).contains_key(entries[i].0@),
        map_of(entries)[entries[i].0@] == entries[i].1,
    decreases entries.len(),
{
    if i == entries.len() - 1 {
    } else {
        assert(entries[i].0@ != entries.last().0@);
        assert(entries.drop_last()[i] == entries[i]);
        lemma_map_of_index(entries.drop_last(), i);
    }
}

pub proof fn lemma_map_of_len<V>(entries: Seq<(String, V)>)
    requires
        keys_distinct(entries),
    ensures
        map_of(entries).dom().finite(),
        map_of(entries).dom().len() == entries.len(),
    decreases entries.len(),
{
    if entries.len() > 0 {
        lemma_map_of_len(entries.drop_last());
        lemma_map_of_contains(entries.drop_last(), entries.last().0@);
        assert(forall|j: int|
            0 <= j < entries.drop_last().len() ==> entries[j].0@ != entries.last().0@);
        assert(!map_of(entries.drop_last()).contains_key(entries.last().0@));
        vstd::set::axiom_set_insert_len(map_of(entries.drop_last()).dom(), entries.last().0@);
        assert(map_of(entries).dom() =~= map_of(entries.drop_last()).dom().insert(
            entries.last().0@,
        ));
    }
}

/// A map from strings to values, with insertion-ordered entries and
/// pairwise-distinct keys.
pub struct StringMap<V> {
    entries: Vec<(String, V)>,
}

impl<V> View for StringMap<V> {
    type V = Map<Seq<char>, V>;

    closed spec fn view(&self) -> Map<Seq<char>, V> {
        map_of(self.entries@)
    }
}

impl<V> StringMap<V> {
    /// The entries in insertion order; contracts that care about order
    /// speak of this sequence.
    pub closed spec fn entries_seq(&self) -> Seq<(String, V)> {
        self.entries@
    }

    /// Key distinctness: established by the constructor, preserved by every
    /// operation.
    pub open spec fn wf(&self) -> bool {
        keys_distinct(self.entries_seq())
    }

    pub open spec fn spec_len(&self) -> nat {
        self.entries_seq().len()
    }

    pub broadcast proof fn lemma_view_entries(&self)
        ensures
            #[trigger] self.view() == map_of(self.entries_seq()),
    {
    }

    pub fn new() -> (r: StringMap<V>)
        ensures
            r.wf(),
            r@ == Map::<Seq<char>, V>::empty(),
            r.entries_seq().len() == 0,
    {
        StringMap { entries: Vec::new() }
    }

    pub fn len(&self) -> (r: usize)
        requires
            self.wf(),
        ensures
            r == self.entries_seq().len(),
            r == self@.dom().len(),
            self@.dom().finite(),
    {
        proof {
            lemma_map_of_len(self.entries_seq());
        }
        self.entries.len()
    }

    /// The number of entries, meaningful whatever the keys are.
    pub fn entry_count(&self) -> (r: usize)
        ensures
            r == self.entries_seq().len(),
    {
        self.entries.len()
    }

    /// The position of `key` among the entries, if it is present.
    fn find(&self, key: &str) -> (r: Option<usize>)
        ensures
            match r {
                Some(i) => i < self.entries_seq().len() && self.entries_seq()[i as int].0@
                    == key@,
                None => forall|i: int|
                    0 <= i < self.entries_seq().len() ==> self.entries_seq()[i].0@ != key@,
            },
    {
        let n = self.entries.len();
        let mut i: usize = 0;
        while i < n
            invariant
                n == self.entries_seq().len(),
                i <= n,
                forall|j: int| 0 <= j < i ==> self.entries_seq()[j].0@ != key@,
            decreases n - i,
        {
            if str_eq(self.entries[i].0.as_str(), key) {
                return Some(i);
            }
            i += 1;
        }
        None
    }

    pub fn contains_key(&self, key: &str) -> (r: bool)
        ensures
            r == self@.contains_key(key@),
    {
        proof {
            lemma_map_of_contains(self.entries_seq(), key@);
        }
        self.find(key).is_some()
    }

    pub fn get(&self, key: &str) -> (r: Option<&V>)
        requires
            self.wf(),
        ensures
            match r {
                Some(v) => self@.contains_key(key@) && *v == self@[key@],
                None => !self@.contains_key(key@),
            },
    {
        proof {
            lemma_map_of_contains(self.entries_seq(), key@);
        }
        match self.find(key) {
            Some(i) => {
                proof {
                    lemma_map_of_index(self.entries_seq(), i as int);
                }
                Some(&self.entries[i].1)
            },
            None => None,
        }
    }

    /// Inserts or replaces the value under `key`.
    pub fn insert(&mut self, key: &str, value: V)
        requires
            old(self).wf(),
        ensures
            final(self).wf(),
            final(self)@ == old(self)@.insert(key@, value),
            old(self)@.contains_key(key@) ==> {
                &&& final(self).entries_seq().len() == old(self).entries_seq().len()
                &&& exists|i: int|
                    0 <= i < old(self).entries_seq().len() && old(self).entries_seq()[i].0@
                        == key@ && final(self).entries_seq() == old(self).entries_seq().update(
                        i,
                        final(self).entries_seq()[i],
                    ) && final(self).entries_seq()[i].0@ == key@ && final(self).entries_seq()[i].1
                        == value
            },
            !old(self)@.contains_key(key@) ==> {
                &&& final(self).entries_seq().len() == old(self).entries_seq().len() + 1
                &&& final(self).entries_seq().drop_last() == old(self).entries_seq()
                &&& final(self).entries_seq().last().0@ == key@
                &&& final(self).entries_seq().last().1 == value
            },
    {
        proof {
            lemma_map_of_contains(self.entries_seq(), key@);
        }
        match self.find(key) {
            Some(i) => {
                self.entries.set(i, (key.to_owned(), value));
                proof {
                    let oe = old(self).entries_seq();
                    let ne = self.entries_seq();
                    assert(keys_distinct(ne));
                    lemma_map_of_index(oe, i as int);
                    Self::lemma_map_of_update(oe, i as int, ne[i as int]);
                    assert(ne == oe.update(i as int, ne[i as int]));
                }
            },
            None => {
                self.entries.push((key.to_owned(), value));
                proof {
                    let oe = old(self).entries_seq();
                    let ne = self.entries_seq();
                    assert(ne.drop_last() =~= oe);
                    assert(keys_distinct(ne));
                }
            },
        }
    }

    proof fn lemma_map_of_update(entries: Seq<(String, V)>, i: int, e: (String, V))
        requires
            keys_distinct(entries),
            0 <= i < entries.len(),
            e.0@ == entries[i].0@,
        ensures
            map_of(entries.update(i, e)) == map_of(entries).insert(e.0@, e.1),
        decreases entries.len(),
    {
        let ne = entries.update(i, e);
        if i == entries.len() - 1 {
            assert(ne.drop_last() =~= entries.drop_last());
            assert(ne.last() == e);
        } else {
            assert(ne.last() == entries.last());
            assert(ne.drop_last() =~= entries.drop_last().update(i, e));
            Self::lemma_map_of_update(entries.drop_last(), i, e);
            assert(entries[i].0@ != entries.last().0@);
            assert(map_of(ne) =~= map_of(entries).insert(e.0@, e.1));
        }
    }

    proof fn lemma_map_of_remove(entries: Seq<(String, V)>, i: int)
        requires
            keys_distinct(entries),
            0 <= i < entries.len(),
        ensures
            map_of(entries.remove(i)) == map_of(entries).remove(entries[i].0@),
        decreases entries.len(),
    {
        let ne = entries.remove(i);
        if i == entries.len() - 1 {
            assert(ne =~= entries.drop_last());
            lemma_map_of_contains(entries.drop_last(), entries[i].0@);
            assert(forall|j: int|
                0 <= j < entries.drop_last().len() ==> entries[j].0@ != entries[i].0@);
            assert(!map_of(entries.drop_last()).contains_key(entries[i].0@));
            assert(map_of(entries.remove(i)) =~= map_of(entries).remove(entries[i].0@));
        } else {
            assert(ne.last() == entries.last());
            assert(ne.drop_last() =~= entries.drop_last().remove(i));
            Self::lemma_map_of_remove(entries.drop_last(), i);
            assert(entries[i].0@ != entries.last().0@);
            assert(map_of(ne) =~= map_of(entries).remove(entries[i].0@));
        }
    }

    /// Removes the entry under `key`; reports whether one was there.
    pub fn remove(&mut self, key: &str) -> (r: bool)
        requires
            old(self).wf(),
        ensures
            final(self).wf(),
            r == old(self)@.contains_key(key@),
            final(self)@ == old(self)@.remove(key@),
            r ==> exists|i: int|
                0 <= i < old(self).entries_seq().len() && old(self).entries_seq()[i].0@ == key@
                    && final(self).entries_seq() == old(self).entries_seq().remove(i),
            !r ==> final(self).entries_seq() == old(self).entries_seq(),
    {
        proof {
            lemma_map_of_contains(self.entries_seq(), key@);
        }
        match self.find(key) {
            Some(i) => {
                self.entries.remove(i);
                proof {
                    let oe = old(self).entries_seq();
                    Self::lemma_map_of_remove(oe, i as int);
                    assert(keys_distinct(oe.remove(i as int)));
                }
                true
            },
            None => {
                proof {
                    assert(self@ =~= old(self)@.remove(key@));
                }
                false
            },
        }
    }

    /// Removes every entry.
    pub fn clear(&mut self)
        ensures
            final(self).wf(),
            final(self)@ == Map::<Seq<char>, V>::empty(),
            final(self).entries_seq().len() == 0,
    {
        self.entries.clear();
    }

    pub fn key_at(&self, i: usize) -> (r: &String)
        requires
            i < self.entries_seq().len(),
        ensures
            *r == self.entries_seq()[i as int].0,
    {
        &self.entries[i].0
    }

    pub fn value_at(&self, i: usize) -> (r: &V)
        requires
            i < self.entries_seq().len(),
        ensures
            *r == self.entries_seq()[i as int].1,
    {
        &self.entries[i].1
    }

    /// Every key, in entry order.
    pub fn keys(&self) -> (r: Vec<String>)
        requires
            self.wf(),
        ensures
            r@.len() == self.entries_seq().len(),
            forall|i: int| 0 <= i < r@.len() ==> r@[i] == self.entries_seq()[i].0,
            forall|i: int| 0 <= i < r@.len() ==> self@.contains_key(#[trigger] r@[i]@),
    {
        let n = self.entries.len();
        let mut r: Vec<String> = Vec::new();
        let mut i: usize = 0;
        while i < n
            invariant
                n == self.entries_seq().len(),
                i <= n,
                r@.len() == i,
                forall|j: int| 0 <= j < i ==> r@[j] == self.entries_seq()[j].0,
            decreases n - i,
        {
            r.push(self.entries[i].0.clone());
            i += 1;
        }
        proof {
            assert forall|j: int| 0 <= j < r@.len() implies self@.contains_key(
                #[trigger] r@[j]@,
            ) by {
                lemma_map_of_index(self.entries_seq(), j);
            }
        }
        r
    }
}

} // verus!
