//! A map from strings to values, kept as a list of entries in which no key
//! occurs twice.

use crate::text::str_eq;
use vstd::prelude::*;

verus! {

/// A finite map keyed by strings.
#[derive(Debug)]
pub struct StrMap<V> {
    entries: Vec<(String, V)>,
}

/// No key occurs at two positions.
spec fn distinct_keys<V>(entries: Seq<(String, V)>) -> bool {
    forall|i: int, j: int|
        0 <= i < entries.len() && 0 <= j < entries.len() && (#[trigger] entries[i]).0@ == (
        #[trigger] entries[j]).0@ ==> i == j
}

/// `key` occurs at some position.
spec fn has_key<V>(entries: Seq<(String, V)>, key: Seq<char>) -> bool {
    exists|i: int| 0 <= i < entries.len() && (#[trigger] entries[i]).0@ == key
}

/// A position at which `key` occurs, if it occurs.
spec fn position<V>(entries: Seq<(String, V)>, key: Seq<char>) -> int {
    choose|i: int| 0 <= i < entries.len() && (#[trigger] entries[i]).0@ == key
}

/// The map that a list of entries stands for.
spec fn map_of<V>(entries: Seq<(String, V)>) -> Map<Seq<char>, V> {
    Map::new(
        |k: Seq<char>| has_key(entries, k),
        |k: Seq<char>| entries[position(entries, k)].1,
    )
}

/// The keys of a list of entries, in its order.
spec fn keys_of<V>(entries: Seq<(String, V)>) -> Seq<Seq<char>> {
    Seq::new(entries.len(), |i: int| entries[i].0@)
}

proof fn lemma_entry_is_mapped<V>(entries: Seq<(String, V)>, i: int)
    requires
        distinct_keys(entries),
        0 <= i < entries.len(),
    ensures
        has_key(entries, entries[i].0@),
        position(entries, entries[i].0@) == i,
        map_of(entries).contains_key(entries[i].0@),
        map_of(entries)[entries[i].0@] == entries[i].1,
{
}

proof fn lemma_push<V>(entries: Seq<(String, V)>, key: String, value: V)
    requires
        distinct_keys(entries),
        !has_key(entries, key@),
    ensures
        distinct_keys(entries.push((key, value))),
        map_of(entries.push((key, value))) == map_of(entries).insert(key@, value),
{
    let after = entries.push((key, value));
    assert(distinct_keys(after)) by {
        assert forall|i: int, j: int|
            0 <= i < after.len() && 0 <= j < after.len() && (#[trigger] after[i]).0@ == (
            #[trigger] after[j]).0@ implies i == j by {
            if i < entries.len() {
                assert(entries[i] == after[i]);
            }
            if j < entries.len() {
                assert(entries[j] == after[j]);
            }
        }
    }
    assert forall|k: Seq<char>| has_key(after, k) <==> (k == key@ || has_key(entries, k)) by {
        if has_key(entries, k) {
            let i = position(entries, k);
            assert(after[i] == entries[i]);
        }
        if k == key@ {
            assert(after[entries.len() as int].0@ == k);
        }
        if has_key(after, k) {
            let i = position(after, k);
            if i < entries.len() {
                assert(entries[i] == after[i]);
            }
        }
    }
    assert forall|k: Seq<char>| has_key(after, k) implies #[trigger] map_of(after)[k] == map_of(
        entries,
    ).insert(key@, value)[k] by {
        let i = position(after, k);
        lemma_entry_is_mapped(after, i);
        if i < entries.len() {
            assert(entries[i] == after[i]);
            lemma_entry_is_mapped(entries, i);
        }
    }
    assert(map_of(after) =~= map_of(entries).insert(key@, value));
}

proof fn lemma_remove<V>(entries: Seq<(String, V)>, at: int)
    requires
        distinct_keys(entries),
        0 <= at < entries.len(),
    ensures
        distinct_keys(entries.remove(at)),
        !has_key(entries.remove(at), entries[at].0@),
        map_of(entries.remove(at)) == map_of(entries).remove(entries[at].0@),
{
    let after = entries.remove(at);
    let key = entries[at].0@;
    assert forall|i: int| 0 <= i < after.len() implies #[trigger] after[i] == entries[if i
        < at {
        i
    } else {
        i + 1
    }] by {}
    assert(distinct_keys(after));
    assert(!has_key(after, key)) by {
        if has_key(after, key) {
            let i = position(after, key);
            assert(after[i] == entries[if i < at {
                i
            } else {
                i + 1
            }]);
        }
    }
    assert forall|k: Seq<char>| has_key(after, k) <==> (k != key && has_key(entries, k)) by {
        if has_key(after, k) {
            let i = position(after, k);
            assert(after[i] == entries[if i < at {
                i
            } else {
                i + 1
            }]);
        }
        if k != key && has_key(entries, k) {
            let j = position(entries, k);
            let i = if j < at {
                j
            } else {
                j - 1
            };
            assert(after[i] == entries[j]);
        }
    }
    assert forall|k: Seq<char>| has_key(after, k) implies #[trigger] map_of(after)[k] == map_of(
        entries,
    )[k] by {
        let i = position(after, k);
        lemma_entry_is_mapped(after, i);
        let j = if i < at {
            i
        } else {
            i + 1
        };
        assert(after[i] == entries[j]);
        lemma_entry_is_mapped(entries, j);
    }
    assert(map_of(after) =~= map_of(entries).remove(key));
}

proof fn lemma_keys<V>(entries: Seq<(String, V)>)
    requires
        distinct_keys(entries),
    ensures
        keys_of(entries).no_duplicates(),
        map_of(entries).dom() == keys_of(entries).to_set(),
        map_of(entries).dom().finite(),
        map_of(entries).len() == entries.len(),
{
    let keys = keys_of(entries);
    assert(keys.no_duplicates()) by {
        assert forall|i: int, j: int|
            0 <= i < keys.len() && 0 <= j < keys.len() && i != j implies keys[i] != keys[j] by {
            assert(entries[i].0@ == keys[i]);
            assert(entries[j].0@ == keys[j]);
        }
    }
    assert(map_of(entries).dom() =~= keys.to_set()) by {
        assert forall|k: Seq<char>| map_of(entries).dom().contains(k) <==> keys.to_set().contains(
            k,
        ) by {
            if has_key(entries, k) {
                let i = position(entries, k);
                assert(keys[i] == k);
            }
            if keys.contains(k) {
                let i = choose|i: int| 0 <= i < keys.len() && keys[i] == k;
                assert(entries[i].0@ == k);
            }
        }
    }
    keys.unique_seq_to_set();
    vstd::seq_lib::seq_to_set_is_finite(keys);
}

impl<V> StrMap<V> {
    #[verifier::type_invariant]
    spec fn unique(&self) -> bool {
        distinct_keys(self.entries@)
    }

    /// The map that the entries stand for.
    pub closed spec fn view(&self) -> Map<Seq<char>, V> {
        map_of(self.entries@)
    }

    /// The keys in the order in which `key_at` and `value_at` count them.
    pub closed spec fn keys(&self) -> Seq<Seq<char>> {
        keys_of(self.entries@)
    }

    /// An empty map.
    pub fn new() -> (r: Self)
        ensures
            r@ == Map::<Seq<char>, V>::empty(),
    {
        let r = StrMap { entries: Vec::new() };
        assert(r@ =~= Map::<Seq<char>, V>::empty());
        r
    }

    fn find(&self, key: &str) -> (r: Option<usize>)
        ensures
            match r {
                Some(i) => i < self.entries@.len() && self.entries@[i as int].0@ == key@,
                None => !has_key(self.entries@, key@),
            },
    {
        let mut i: usize = 0;
        while i < self.entries.len()
            invariant
                i <= self.entries@.len(),
                forall|j: int| 0 <= j < i ==> self.entries@[j].0@ != key@,
            decreases self.entries@.len() - i,
        {
            if str_eq(self.entries[i].0.as_str(), key) {
                return Some(i);
            }
            i = i + 1;
        }
        None
    }

    /// The number of entries. The keys that `key_at` counts are exactly the
    /// keys of the map, each once.
    pub fn len(&self) -> (n: usize)
        ensures
            n == self.keys().len(),
            self@.dom().finite(),
            self@.len() == n,
            self.keys().no_duplicates(),
            self@.dom() == self.keys().to_set(),
    {
        proof {
            use_type_invariant(self);
            lemma_keys(self.entries@);
        }
        self.entries.len()
    }

    /// Tells whether the map holds no entry.
    pub fn is_empty(&self) -> (r: bool)
        ensures
            r == (self@ == Map::<Seq<char>, V>::empty()),
    {
        proof {
            use_type_invariant(self);
            if self.entries@.len() > 0 {
                lemma_entry_is_mapped(self.entries@, 0);
            } else {
                assert(self@ =~= Map::<Seq<char>, V>::empty());
            }
        }
        self.entries.len() == 0
    }

    /// The key of the entry at `index`.
    pub fn key_at(&self, index: usize) -> (r: &str)
        requires
            index < self.keys().len(),
        ensures
            r@ == self.keys()[index as int],
            self@.contains_key(r@),
    {
        proof {
            use_type_invariant(self);
            lemma_entry_is_mapped(self.entries@, index as int);
        }
        self.entries[index].0.as_str()
    }

    /// The value of the entry at `index`.
    pub fn value_at(&self, index: usize) -> (r: &V)
        requires
            index < self.keys().len(),
        ensures
            self@.contains_key(self.keys()[index as int]),
            *r == self@[self.keys()[index as int]],
    {
        proof {
            use_type_invariant(self);
            lemma_entry_is_mapped(self.entries@, index as int);
        }
        &self.entries[index].1
    }

    /// Tells whether `key` has a value.
    pub fn contains_key(&self, key: &str) -> (r: bool)
        ensures
            r == self@.contains_key(key@),
    {
        self.find(key).is_some()
    }

    /// The value of `key`, if it has one.
    pub fn get(&self, key: &str) -> (r: Option<&V>)
        ensures
            match r {
                Some(v) => self@.contains_key(key@) && *v == self@[key@],
                None => !self@.contains_key(key@),
            },
    {
        proof {
            use_type_invariant(self);
        }
        match self.find(key) {
            Some(i) => {
                proof {
                    lemma_entry_is_mapped(self.entries@, i as int);
                }
                Some(&self.entries[i].1)
            },
            None => None,
        }
    }

    /// Takes the entry of `key` out of the map and returns its value.
    pub fn remove(&mut self, key: &str) -> (r: Option<V>)
        ensures
            final(self)@ == old(self)@.remove(key@),
            match r {
                Some(v) => old(self)@.contains_key(key@) && v == old(self)@[key@],
                None => !old(self)@.contains_key(key@),
            },
    {
        proof {
            use_type_invariant(&*self);
        }
        match self.find(key) {
            Some(i) => {
                proof {
                    lemma_entry_is_mapped(self.entries@, i as int);
                    lemma_remove(self.entries@, i as int);
                }
                let mut entries: Vec<(String, V)> = Vec::new();
                core::mem::swap(&mut self.entries, &mut entries);
                let entry = entries.remove(i);
                self.entries = entries;
                Some(entry.1)
            },
            None => {
                assert(self@ =~= self@.remove(key@));
                None
            },
        }
    }

    /// Gives `key` the value `value` and returns the value it had.
    pub fn insert(&mut self, key: String, value: V) -> (r: Option<V>)
        ensures
            final(self)@ == old(self)@.insert(key@, value),
            match r {
                Some(v) => old(self)@.contains_key(key@) && v == old(self)@[key@],
                None => !old(self)@.contains_key(key@),
            },
    {
        let previous = self.remove(key.as_str());
        proof {
            use_type_invariant(&*self);
            assert(!self@.contains_key(key@));
            assert(!map_of(self.entries@).dom().contains(key@));
            lemma_push(self.entries@, key, value);
            assert(old(self)@.remove(key@).insert(key@, value) =~= old(self)@.insert(key@, value));
        }
        let mut entries: Vec<(String, V)> = Vec::new();
        core::mem::swap(&mut self.entries, &mut entries);
        entries.push((key, value));
        self.entries = entries;
        previous
    }

    /// Takes some entry out of the map, if it holds one.
    pub fn pop(&mut self) -> (r: Option<(String, V)>)
        ensures
            match r {
                Some(entry) => {
                    &&& old(self)@.contains_key(entry.0@)
                    &&& old(self)@[entry.0@] == entry.1
                    &&& final(self)@ == old(self)@.remove(entry.0@)
                    &&& final(self).keys().len() + 1 == old(self).keys().len()
                },
                None => old(self)@ == Map::<Seq<char>, V>::empty() && final(self)@ == old(self)@,
            },
    {
        proof {
            use_type_invariant(&*self);
        }
        if self.entries.len() == 0 {
            assert(self@ =~= Map::<Seq<char>, V>::empty());
            return None;
        }
        let last: usize = self.entries.len() - 1;
        proof {
            lemma_entry_is_mapped(self.entries@, last as int);
            lemma_remove(self.entries@, last as int);
        }
        let mut entries: Vec<(String, V)> = Vec::new();
        core::mem::swap(&mut self.entries, &mut entries);
        let entry = entries.remove(last);
        self.entries = entries;
        Some(entry)
    }

    /// Takes over every entry of `other`. Where both maps have a value for
    /// a key, that of `other` stays.
    pub fn extend(&mut self, other: StrMap<V>)
        ensures
            final(self)@ == old(self)@.union_prefer_right(other@),
    {
        let mut other = other;
        let ghost target = old(self)@.union_prefer_right(other@);
        assert(self@.union_prefer_right(other@) =~= target);
        loop
            invariant
                self@.union_prefer_right(other@) == target,
            ensures
                self@ == target,
            decreases other.keys().len(),
        {
            let ghost before = self@;
            let ghost rest = other@;
            match other.pop() {
                Some(entry) => {
                    self.insert(entry.0, entry.1);
                    assert(self@.union_prefer_right(other@) =~= before.union_prefer_right(rest));
                },
                None => {
                    assert(self@.union_prefer_right(other@) =~= self@);
                    break ;
                },
            }
        }
    }
}

} // verus!
