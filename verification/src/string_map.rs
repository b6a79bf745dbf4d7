//! A small map keyed by strings.
//!
//! Presets, format-specific qualities and the like are looked up by name. The
//! map keeps its entries in insertion order with every name at most once, which
//! is what lets its contents be stated as a `Map` from names to values.

use crate::text::chars_of;
use vstd::prelude::*;

verus! {

/// The map an entry list stands for, later entries overriding earlier ones.
pub open spec fn map_of<V>(entries: Seq<(String, V)>) -> Map<Seq<char>, V>
    decreases entries.len(),
{
    if entries.len() == 0 {
        Map::empty()
    } else {
        map_of(entries.drop_last()).insert(entries.last().0@, entries.last().1)
    }
}

pub open spec fn keys_distinct<V>(entries: Seq<(String, V)>) -> bool {
    forall|i: int, j: int|
        0 <= i < entries.len() && 0 <= j < entries.len() && i != j ==> entries[i].0@
            != entries[j].0@
}

pub proof fn lemma_map_of_dom<V>(entries: Seq<(String, V)>)
    ensures
        map_of(entries).dom().finite(),
        forall|k: Seq<char>|
            map_of(entries).dom().contains(k) <==> exists|i: int|
                0 <= i < entries.len() && entries[i].0@ == k,
    decreases entries.len(),
{
    if entries.len() > 0 {
        let prefix = entries.drop_last();
        lemma_map_of_dom(prefix);
        assert forall|k: Seq<char>|
            map_of(entries).dom().contains(k) <==> exists|i: int|
                0 <= i < entries.len() && entries[i].0@ == k by {
            if map_of(entries).dom().contains(k) {
                if k == entries.last().0@ {
                    assert(entries[entries.len() - 1].0@ == k);
                } else {
                    let i = choose|i: int| 0 <= i < prefix.len() && prefix[i].0@ == k;
                    assert(entries[i].0@ == k);
                }
            }
            if exists|i: int| 0 <= i < entries.len() && entries[i].0@ == k {
                let i = choose|i: int| 0 <= i < entries.len() && entries[i].0@ == k;
                if i < entries.len() - 1 {
                    assert(prefix[i].0@ == k);
                }
            }
        }
    }
}

pub proof fn lemma_map_of_lookup<V>(entries: Seq<(String, V)>, i: int)
    requires
        keys_distinct(entries),
        0 <= i < entries.len(),
    ensures
        map_of(entries).dom().contains(entries[i].0@),
        map_of(entries)[entries[i].0@] == entries[i].1,
    decreases entries.len(),
{
    if i < entries.len() - 1 {
        let prefix = entries.drop_last();
        assert(prefix[i] == entries[i]);
        assert(keys_distinct(prefix));
        lemma_map_of_lookup(prefix, i);
    }
}

pub proof fn lemma_map_of_update<V>(entries: Seq<(String, V)>, i: int, v: V)
    requires
        keys_distinct(entries),
        0 <= i < entries.len(),
    ensures
        map_of(entries.update(i, (entries[i].0, v))) == map_of(entries).insert(entries[i].0@, v),
        keys_distinct(entries.update(i, (entries[i].0, v))),
    decreases entries.len(),
{
    let updated = entries.update(i, (entries[i].0, v));
    let prefix = entries.drop_last();
    if i == entries.len() - 1 {
        assert(updated.drop_last() =~= prefix);
        lemma_map_of_dom(prefix);
        assert(map_of(updated) =~= map_of(entries).insert(entries[i].0@, v));
    } else {
        assert(keys_distinct(prefix));
        lemma_map_of_update(prefix, i, v);
        assert(updated.drop_last() =~= prefix.update(i, (prefix[i].0, v)));
        assert(entries.last().0@ != entries[i].0@);
        assert(map_of(updated) =~= map_of(entries).insert(entries[i].0@, v));
    }
}

pub proof fn lemma_map_of_len<V>(entries: Seq<(String, V)>)
    requires
        keys_distinct(entries),
    ensures
        map_of(entries).dom().len() == entries.len(),
    decreases entries.len(),
{
    if entries.len() > 0 {
        let prefix = entries.drop_last();
        assert(keys_distinct(prefix));
        lemma_map_of_len(prefix);
        lemma_map_of_dom(prefix);
        assert(!map_of(prefix).dom().contains(entries.last().0@)) by {
            if map_of(prefix).dom().contains(entries.last().0@) {
                let j = choose|j: int| 0 <= j < prefix.len() && prefix[j].0@ == entries.last().0@;
                assert(entries[j].0@ == entries[entries.len() - 1].0@);
            }
        }
    }
}

/// A map from names to values.
#[derive(Debug)]
pub struct StringMap<V> {
    entries: Vec<(String, V)>,
}

impl<V> StringMap<V> {
    #[verifier::type_invariant]
    spec fn distinct(self) -> bool {
        keys_distinct(self.entries@)
    }

    /// The names and values the map holds.
    pub closed spec fn spec_map(self) -> Map<Seq<char>, V> {
        map_of(self.entries@)
    }

    /// An empty map.
    pub fn new() -> (r: Self)
        ensures
            r.spec_map() == Map::<Seq<char>, V>::empty(),
    {
        StringMap { entries: Vec::new() }
    }

    /// How many names the map holds.
    pub fn len(&self) -> (r: usize)
        ensures
            r == self.spec_map().dom().len(),
    {
        proof {
            use_type_invariant(self);
            lemma_map_of_len(self.entries@);
        }
        self.entries.len()
    }

    /// Whether the map holds no names.
    pub fn is_empty(&self) -> (r: bool)
        ensures
            r == (self.spec_map().dom().len() == 0),
    {
        self.len() == 0
    }

    fn position(&self, key: &[char]) -> (r: Option<usize>)
        ensures
            match r {
                Some(i) => i < self.entries@.len() && self.entries@[i as int].0@ == key@,
                None => forall|i: int|
                    0 <= i < self.entries@.len() ==> self.entries@[i].0@ != key@,
            },
    {
        let mut i: usize = 0;
        while i < self.entries.len()
            invariant
                i <= self.entries@.len(),
                forall|j: int| 0 <= j < i ==> self.entries@[j].0@ != key@,
            decreases self.entries@.len() - i,
        {
            let name = chars_of(self.entries[i].0.as_str());
            if crate::text::chars_eq(name.as_slice(), key) {
                return Some(i);
            }
            i = i + 1;
        }
        None
    }

    /// The value stored under `key`, if any.
    pub fn get(&self, key: &str) -> (r: Option<&V>)
        ensures
            match r {
                Some(v) => self.spec_map().dom().contains(key@) && self.spec_map()[key@] == *v,
                None => !self.spec_map().dom().contains(key@),
            },
    {
        proof {
            use_type_invariant(self);
            lemma_map_of_dom(self.entries@);
        }
        let k = chars_of(key);
        match self.position(k.as_slice()) {
            Some(i) => {
                proof {
                    lemma_map_of_lookup(self.entries@, i as int);
                }
                Some(&self.entries[i].1)
            },
            None => None,
        }
    }

    /// Whether `key` is present.
    pub fn contains_key(&self, key: &str) -> (r: bool)
        ensures
            r == self.spec_map().dom().contains(key@),
    {
        self.get(key).is_some()
    }

    /// Stores `value` under `key`, replacing any value already there.
    pub fn insert(&mut self, key: String, value: V)
        ensures
            final(self).spec_map() == old(self).spec_map().insert(key@, value),
    {
        proof {
            use_type_invariant(&*self);
            lemma_map_of_dom(self.entries@);
        }
        let k = chars_of(key.as_str());
        match self.position(k.as_slice()) {
            Some(i) => {
                let ghost before = self.entries@;
                let name = self.entries[i].0.clone();
                proof {
                    lemma_map_of_update(before, i as int, value);
                }
                let mut entries: Vec<(String, V)> = Vec::new();
                std::mem::swap(&mut entries, &mut self.entries);
                entries.set(i, (name, value));
                assert(entries@ =~= before.update(i as int, (before[i as int].0, value)));
                self.entries = entries;
            },
            None => {
                let ghost before = self.entries@;
                let mut entries: Vec<(String, V)> = Vec::new();
                std::mem::swap(&mut entries, &mut self.entries);
                entries.push((key, value));
                proof {
                    assert(entries@.drop_last() =~= before);
                    assert forall|a: int, b: int|
                        0 <= a < entries@.len() && 0 <= b < entries@.len() && a != b implies entries@[a].0@
                        != entries@[b].0@ by {
                        if a < before.len() && b < before.len() {
                            assert(before[a] == entries@[a]);
                            assert(before[b] == entries@[b]);
                        }
                    }
                }
                self.entries = entries;
            },
        }
    }
}

impl<V: Clone> Clone for StringMap<V> {
    /// A copy holding the same names.
    fn clone(&self) -> (r: Self)
        ensures
            r.spec_map().dom() == self.spec_map().dom(),
    {
        proof {
            use_type_invariant(self);
        }
        let mut entries: Vec<(String, V)> = Vec::new();
        let mut i: usize = 0;
        while i < self.entries.len()
            invariant
                i <= self.entries@.len(),
                keys_distinct(self.entries@),
                entries@.len() == i,
                forall|j: int| 0 <= j < i ==> entries@[j].0@ == self.entries@[j].0@,
            decreases self.entries@.len() - i,
        {
            let key = self.entries[i].0.clone();
            let value = self.entries[i].1.clone();
            entries.push((key, value));
            i = i + 1;
        }
        proof {
            assert(keys_distinct(entries@));
            lemma_map_of_dom(entries@);
            lemma_map_of_dom(self.entries@);
            assert forall|k: Seq<char>|
                map_of(entries@).dom().contains(k) <==> map_of(self.entries@).dom().contains(k) by {
                if exists|j: int| 0 <= j < entries@.len() && entries@[j].0@ == k {
                    let j = choose|j: int| 0 <= j < entries@.len() && entries@[j].0@ == k;
                    assert(self.entries@[j].0@ == k);
                }
                if exists|j: int| 0 <= j < self.entries@.len() && self.entries@[j].0@ == k {
                    let j = choose|j: int| 0 <= j < self.entries@.len() && self.entries@[j].0@ == k;
                    assert(entries@[j].0@ == k);
                }
            }
            assert(map_of(entries@).dom() =~= map_of(self.entries@).dom());
        }
        StringMap { entries }
    }
}

} // verus!
