//! Dictionaries with string keys, as the bus carries them.

use vstd::prelude::*;
use crate::text::same_text;

verus! {

/// Whether no key occurs twice in `pairs`.
pub open spec fn keys_distinct<T>(pairs: Seq<(Seq<char>, T)>) -> bool {
    forall|i: int, j: int|
        0 <= i < j < pairs.len() ==> (#[trigger] pairs[i]).0 != (#[trigger] pairs[j]).0
}

/// Whether `key` is the key of some pair in `pairs`.
pub open spec fn has_key<T>(pairs: Seq<(Seq<char>, T)>, key: Seq<char>) -> bool {
    exists|i: int| 0 <= i < pairs.len() && (#[trigger] pairs[i]).0 == key
}

/// The map that a list of pairs stands for: each key of the list, with the
/// value of a pair that holds it.
pub open spec fn map_of<T>(pairs: Seq<(Seq<char>, T)>) -> Map<Seq<char>, T> {
    Map::new(
        |key: Seq<char>| has_key(pairs, key),
        |key: Seq<char>|
            pairs[choose|i: int| 0 <= i < pairs.len() && (#[trigger] pairs[i]).0 == key].1,
    )
}

/// Where keys are distinct, the map holds each pair of the list.
pub proof fn lemma_map_of_at<T>(pairs: Seq<(Seq<char>, T)>, at: int)
    requires
        keys_distinct(pairs),
        0 <= at < pairs.len(),
    ensures
        map_of(pairs).contains_key(pairs[at].0),
        map_of(pairs)[pairs[at].0] == pairs[at].1,
{
    let key = pairs[at].0;
    assert(has_key(pairs, key));
    let found = choose|i: int| 0 <= i < pairs.len() && (#[trigger] pairs[i]).0 == key;
    assert(found == at);
}

/// Appending a pair with a new key inserts it into the map.
pub proof fn lemma_map_of_push<T>(pairs: Seq<(Seq<char>, T)>, key: Seq<char>, value: T)
    requires
        keys_distinct(pairs),
        !has_key(pairs, key),
    ensures
        keys_distinct(pairs.push((key, value))),
        map_of(pairs.push((key, value))) == map_of(pairs).insert(key, value),
{
    let longer = pairs.push((key, value));
    assert(keys_distinct(longer)) by {
        assert forall|i: int, j: int| 0 <= i < j < longer.len() implies (#[trigger] longer[i]).0
            != (#[trigger] longer[j]).0 by {
            if j < pairs.len() {
                assert(longer[i] == pairs[i] && longer[j] == pairs[j]);
            } else {
                assert(longer[i] == pairs[i]);
            }
        }
    }
    assert forall|k: Seq<char>| map_of(longer).contains_key(k) <==> map_of(pairs).insert(
        key,
        value,
    ).contains_key(k) by {
        if has_key(longer, k) {
            let i = choose|i: int| 0 <= i < longer.len() && (#[trigger] longer[i]).0 == k;
            if i < pairs.len() {
                assert(pairs[i].0 == k);
            }
        }
        if has_key(pairs, k) {
            let i = choose|i: int| 0 <= i < pairs.len() && (#[trigger] pairs[i]).0 == k;
            assert(longer[i].0 == k);
        }
        if k == key {
            assert(longer[pairs.len() as int].0 == k);
        }
    }
    assert forall|k: Seq<char>| map_of(longer).contains_key(k) implies map_of(longer)[k] == map_of(
        pairs,
    ).insert(key, value)[k] by {
        let i = choose|i: int| 0 <= i < longer.len() && (#[trigger] longer[i]).0 == k;
        lemma_map_of_at(longer, i);
        if i < pairs.len() {
            assert(pairs[i] == longer[i]);
            lemma_map_of_at(pairs, i);
        }
    }
    assert(map_of(longer) =~= map_of(pairs).insert(key, value));
}

/// Replacing the value of the pair at `at` replaces the value of its key in
/// the map.
pub proof fn lemma_map_of_update<T>(pairs: Seq<(Seq<char>, T)>, at: int, value: T)
    requires
        keys_distinct(pairs),
        0 <= at < pairs.len(),
    ensures
        keys_distinct(pairs.update(at, (pairs[at].0, value))),
        map_of(pairs.update(at, (pairs[at].0, value))) == map_of(pairs).insert(pairs[at].0, value),
{
    let key = pairs[at].0;
    let changed = pairs.update(at, (key, value));
    assert forall|i: int| 0 <= i < pairs.len() implies (#[trigger] changed[i]).0 == pairs[i].0 by {}
    assert(keys_distinct(changed)) by {
        assert forall|i: int, j: int| 0 <= i < j < changed.len() implies (#[trigger] changed[i]).0
            != (#[trigger] changed[j]).0 by {
            assert(changed[i].0 == pairs[i].0 && changed[j].0 == pairs[j].0);
        }
    }
    assert forall|k: Seq<char>| map_of(changed).contains_key(k) <==> map_of(pairs).insert(
        key,
        value,
    ).contains_key(k) by {
        if has_key(changed, k) {
            let i = choose|i: int| 0 <= i < changed.len() && (#[trigger] changed[i]).0 == k;
            assert(pairs[i].0 == k);
        }
        if has_key(pairs, k) {
            let i = choose|i: int| 0 <= i < pairs.len() && (#[trigger] pairs[i]).0 == k;
            assert(changed[i].0 == k);
        }
        if k == key {
            assert(changed[at].0 == k);
        }
    }
    assert forall|k: Seq<char>| map_of(changed).contains_key(k) implies map_of(changed)[k]
        == map_of(pairs).insert(key, value)[k] by {
        let i = choose|i: int| 0 <= i < changed.len() && (#[trigger] changed[i]).0 == k;
        lemma_map_of_at(changed, i);
        if i != at {
            assert(pairs[i] == changed[i]);
            lemma_map_of_at(pairs, i);
        }
    }
    assert(map_of(changed) =~= map_of(pairs).insert(key, value));
}

spec fn pairs_of<V: DeepView>(entries: Seq<(String, V)>) -> Seq<(Seq<char>, V::V)> {
    Seq::new(entries.len(), |i: int| (entries[i].0@, entries[i].1.deep_view()))
}

proof fn lemma_pairs_entries<V: DeepView>(entries: Seq<(String, V)>)
    requires
        keys_distinct(pairs_of(entries)),
    ensures
        forall|i: int, j: int|
            0 <= i < j < entries.len() ==> (#[trigger] entries[i]).0@ != (#[trigger] entries[j]).0@,
{
    assert forall|i: int, j: int| 0 <= i < j < entries.len() implies (#[trigger] entries[i]).0@
        != (#[trigger] entries[j]).0@ by {
        assert(pairs_of(entries)[i].0 == entries[i].0@);
        assert(pairs_of(entries)[j].0 == entries[j].0@);
    }
}

proof fn lemma_entries_pairs<V: DeepView>(entries: Seq<(String, V)>)
    requires
        forall|i: int, j: int|
            0 <= i < j < entries.len() ==> (#[trigger] entries[i]).0@ != (#[trigger] entries[j]).0@,
    ensures
        keys_distinct(pairs_of(entries)),
{
    assert forall|i: int, j: int| 0 <= i < j < entries.len() implies (#[trigger] pairs_of(
        entries,
    )[i]).0 != (#[trigger] pairs_of(entries)[j]).0 by {
        assert(pairs_of(entries)[i].0 == entries[i].0@);
        assert(pairs_of(entries)[j].0 == entries[j].0@);
    }
}

/// The position of the entry with key `key`, if there is one.
fn position<V: DeepView>(entries: &Vec<(String, V)>, key: &str) -> (found: Option<usize>)
    ensures
        match found {
            Some(at) => at < entries@.len() && pairs_of(entries@)[at as int].0 == key@,
            None => !has_key(pairs_of(entries@), key@),
        },
{
    let mut i: usize = 0;
    while i < entries.len()
        invariant
            i <= entries@.len(),
            forall|j: int| 0 <= j < i ==> (#[trigger] pairs_of(entries@)[j]).0 != key@,
        decreases entries.len() - i,
    {
        if same_text(entries[i].0.as_str(), key) {
            return Some(i);
        }
        i = i + 1;
    }
    None
}

/// A dictionary from strings to values of type `V`, kept as a list of
/// entries in which no key occurs twice.
#[derive(Debug, PartialEq, Eq)]
pub struct Dict<V> {
    entries: Vec<(String, V)>,
}

impl<V> Dict<V> {
    #[verifier::type_invariant]
    spec fn no_key_twice(self) -> bool {
        forall|i: int, j: int|
            0 <= i < j < self.entries@.len() ==> (#[trigger] self.entries@[i]).0@
                != (#[trigger] self.entries@[j]).0@
    }
}

impl<V: DeepView> Dict<V> {
    /// The entries in the order in which their keys were first inserted.
    pub closed spec fn pairs(&self) -> Seq<(Seq<char>, V::V)> {
        pairs_of(self.entries@)
    }

    /// A dictionary without entries.
    pub fn new() -> (dict: Dict<V>)
        ensures
            dict.pairs() == Seq::<(Seq<char>, V::V)>::empty(),
            dict.deep_view() == Map::<Seq<char>, V::V>::empty(),
    {
        let dict = Dict { entries: Vec::new() };
        assert(dict.pairs() =~= Seq::<(Seq<char>, V::V)>::empty());
        assert(dict.deep_view() =~= Map::<Seq<char>, V::V>::empty());
        dict
    }

    /// The number of entries, of which no two have the same key.
    pub fn len(&self) -> (n: usize)
        ensures
            n == self.pairs().len(),
            keys_distinct(self.pairs()),
    {
        proof {
            use_type_invariant(self);
            lemma_entries_pairs(self.entries@);
        }
        self.entries.len()
    }

    /// The entry at position `at`, if there are that many.
    pub fn entry(&self, at: usize) -> (found: Option<(&str, &V)>)
        ensures
            match found {
                Some((key, value)) => {
                    &&& at < self.pairs().len()
                    &&& (key@, value.deep_view()) == self.pairs()[at as int]
                    &&& self.deep_view().contains_pair(key@, value.deep_view())
                },
                None => at >= self.pairs().len(),
            },
    {
        if at < self.entries.len() {
            proof {
                use_type_invariant(self);
                lemma_entries_pairs(self.entries@);
                lemma_map_of_at(self.pairs(), at as int);
            }
            let pair = &self.entries[at];
            Some((pair.0.as_str(), &pair.1))
        } else {
            None
        }
    }

    /// The value stored under `key`, if there is one.
    pub fn get(&self, key: &str) -> (found: Option<&V>)
        ensures
            match found {
                Some(value) => self.deep_view().contains_pair(key@, value.deep_view()),
                None => !self.deep_view().contains_key(key@),
            },
    {
        proof {
            use_type_invariant(self);
            lemma_entries_pairs(self.entries@);
        }
        match position(&self.entries, key) {
            Some(at) => {
                proof {
                    lemma_map_of_at(self.pairs(), at as int);
                }
                Some(&self.entries[at].1)
            },
            None => None,
        }
    }

    /// Stores `value` under `key`. An entry that already has this key keeps
    /// its position and gets the new value; otherwise a new entry is added
    /// after the others.
    pub fn insert(&mut self, key: String, value: V)
        ensures
            final(self).deep_view() == old(self).deep_view().insert(key@, value.deep_view()),
            old(self).deep_view().contains_key(key@) ==> exists|at: int|
                0 <= at < old(self).pairs().len() && (#[trigger] old(self).pairs()[at]).0 == key@
                    && final(self).pairs() == old(self).pairs().update(
                    at,
                    (key@, value.deep_view()),
                ),
            !old(self).deep_view().contains_key(key@) ==> final(self).pairs() == old(
                self,
            ).pairs().push((key@, value.deep_view())),
            keys_distinct(final(self).pairs()),
    {
        proof {
            use_type_invariant(&*self);
            lemma_entries_pairs(self.entries@);
        }
        let ghost before = self.pairs();
        let mut entries: Vec<(String, V)> = Vec::new();
        core::mem::swap(&mut self.entries, &mut entries);
        match position(&entries, key.as_str()) {
            Some(at) => {
                proof {
                    lemma_map_of_update(before, at as int, value.deep_view());
                    assert(pairs_of(entries@.update(at as int, (key, value))) =~= before.update(
                        at as int,
                        (key@, value.deep_view()),
                    ));
                    lemma_pairs_entries(entries@.update(at as int, (key, value)));
                    assert(before[at as int].0 == key@);
                }
                entries.set(at, (key, value));
            },
            None => {
                proof {
                    lemma_map_of_push(before, key@, value.deep_view());
                    assert(pairs_of(entries@.push((key, value))) =~= before.push(
                        (key@, value.deep_view()),
                    ));
                    lemma_pairs_entries(entries@.push((key, value)));
                }
                entries.push((key, value));
            },
        }
        core::mem::swap(&mut self.entries, &mut entries);
    }
}

impl<V: DeepView> DeepView for Dict<V> {
    type V = Map<Seq<char>, V::V>;

    open spec fn deep_view(&self) -> Map<Seq<char>, V::V> {
        map_of(self.pairs())
    }
}

} // verus!
