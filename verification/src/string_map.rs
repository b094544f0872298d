//! A map from names to values, kept as a list in which no name occurs twice.

use vstd::prelude::*;

verus! {

/// The map that a sequence of pairs stands for: each key with the value of
/// the last pair that has it.
pub open spec fn pairs_map<T>(pairs: Seq<(Seq<char>, T)>) -> Map<Seq<char>, T>
    decreases pairs.len(),
{
    if pairs.len() == 0 {
        Map::empty()
    } else {
        pairs_map(pairs.drop_last()).insert(pairs.last().0, pairs.last().1)
    }
}

/// Whether no key occurs twice among the pairs.
pub open spec fn distinct_keys<T>(pairs: Seq<(Seq<char>, T)>) -> bool {
    forall|i: int, j: int|
        0 <= i < j < pairs.len() ==> (#[trigger] pairs[i]).0 != (#[trigger] pairs[j]).0
}

/// The map of a sequence of pairs has exactly the keys that occur in it.
pub proof fn lemma_pairs_map_keys<T>(pairs: Seq<(Seq<char>, T)>, key: Seq<char>)
    ensures
        pairs_map(pairs).contains_key(key) <==> exists|i: int|
            0 <= i < pairs.len() && (#[trigger] pairs[i]).0 == key,
        pairs_map(pairs).dom().finite(),
    decreases pairs.len(),
{
    if pairs.len() > 0 {
        let front = pairs.drop_last();
        lemma_pairs_map_keys(front, key);
        if pairs_map(pairs).contains_key(key) {
            if pairs.last().0 == key {
                assert(pairs[pairs.len() - 1].0 == key);
            } else {
                let i = choose|i: int| 0 <= i < front.len() && (#[trigger] front[i]).0 == key;
                assert(pairs[i].0 == key);
            }
        }
        if exists|i: int| 0 <= i < pairs.len() && (#[trigger] pairs[i]).0 == key {
            let i = choose|i: int| 0 <= i < pairs.len() && (#[trigger] pairs[i]).0 == key;
            if i < pairs.len() - 1 {
                assert(front[i].0 == key);
            }
        }
    }
}

/// Where no key occurs twice, the map gives each key the value it is paired
/// with.
pub proof fn lemma_pairs_map_value<T>(pairs: Seq<(Seq<char>, T)>, i: int)
    requires
        distinct_keys(pairs),
        0 <= i < pairs.len(),
    ensures
        pairs_map(pairs).contains_key(pairs[i].0),
        pairs_map(pairs)[pairs[i].0] == pairs[i].1,
    decreases pairs.len(),
{
    if i < pairs.len() - 1 {
        let front = pairs.drop_last();
        assert(distinct_keys(front)) by {
            assert forall|a: int, b: int| 0 <= a < b < front.len() implies (#[trigger] front[a]).0
                != (#[trigger] front[b]).0 by {
                assert(pairs[a].0 != pairs[b].0);
            }
        }
        lemma_pairs_map_value(front, i);
        assert(front[i] == pairs[i]);
        assert(pairs[i].0 != pairs[pairs.len() - 1].0);
    }
}

/// Where no key occurs twice, the map has as many keys as there are pairs.
pub proof fn lemma_pairs_map_len<T>(pairs: Seq<(Seq<char>, T)>)
    requires
        distinct_keys(pairs),
    ensures
        pairs_map(pairs).dom().finite(),
        pairs_map(pairs).len() == pairs.len(),
    decreases pairs.len(),
{
    if pairs.len() > 0 {
        let front = pairs.drop_last();
        assert(distinct_keys(front)) by {
            assert forall|a: int, b: int| 0 <= a < b < front.len() implies (#[trigger] front[a]).0
                != (#[trigger] front[b]).0 by {
                assert(pairs[a].0 != pairs[b].0);
            }
        }
        lemma_pairs_map_len(front);
        lemma_pairs_map_keys(front, pairs.last().0);
        if pairs_map(front).contains_key(pairs.last().0) {
            let i = choose|i: int| 0 <= i < front.len() && (#[trigger] front[i]).0 == pairs.last().0;
            assert(pairs[i].0 != pairs[pairs.len() - 1].0);
        }
        assert(pairs_map(pairs).dom() =~= pairs_map(front).dom().insert(pairs.last().0));
    } else {
        assert(pairs_map(pairs).dom() =~= Set::empty());
    }
}

/// Replacing the value of a key that occurs once gives the map with that key
/// set anew.
pub proof fn lemma_pairs_map_update<T>(pairs: Seq<(Seq<char>, T)>, i: int, value: T)
    requires
        distinct_keys(pairs),
        0 <= i < pairs.len(),
    ensures
        pairs_map(pairs.update(i, (pairs[i].0, value))) == pairs_map(pairs).insert(
            pairs[i].0,
            value,
        ),
    decreases pairs.len(),
{
    let key = pairs[i].0;
    let after = pairs.update(i, (key, value));
    let front = pairs.drop_last();
    if i == pairs.len() - 1 {
        assert(after.drop_last() =~= front);
        assert(pairs_map(after) =~= pairs_map(pairs).insert(key, value));
    } else {
        assert(distinct_keys(front)) by {
            assert forall|a: int, b: int| 0 <= a < b < front.len() implies (#[trigger] front[a]).0
                != (#[trigger] front[b]).0 by {
                assert(pairs[a].0 != pairs[b].0);
            }
        }
        lemma_pairs_map_update(front, i, value);
        assert(front[i] == pairs[i]);
        assert(after.drop_last() =~= front.update(i, (key, value)));
        assert(after.last() == pairs.last());
        assert(pairs[i].0 != pairs[pairs.len() - 1].0);
        assert(pairs_map(after) =~= pairs_map(pairs).insert(key, value));
    }
}

/// A map from names to values. It keeps its entries in the order in which
/// their names first came, and no name twice.
#[derive(Debug)]
pub struct StringMap<V> {
    entries: Vec<(String, V)>,
}

impl<V> StringMap<V> {
    #[verifier::type_invariant]
    spec fn names_are_distinct(&self) -> bool {
        forall|i: int, j: int|
            0 <= i < j < self.entries@.len() ==> (#[trigger] self.entries@[i]).0@ != (
            #[trigger] self.entries@[j]).0@
    }
}

impl<V: View> StringMap<V> {
    /// The entries in their order, each name with the model of its value.
    pub closed spec fn entries(&self) -> Seq<(Seq<char>, V::V)> {
        Seq::new(self.entries@.len(), |i: int| (self.entries@[i].0@, self.entries@[i].1@))
    }

    proof fn lemma_entries(&self)
        requires
            self.names_are_distinct(),
        ensures
            distinct_keys(self.entries()),
            self@ == pairs_map(self.entries()),
            self@.dom().finite(),
            self@.len() == self.entries().len(),
    {
        let pairs = self.entries();
        assert(distinct_keys(pairs)) by {
            assert forall|i: int, j: int| 0 <= i < j < pairs.len() implies (#[trigger] pairs[i]).0
                != (#[trigger] pairs[j]).0 by {
                assert(self.entries@[i].0@ != self.entries@[j].0@);
            }
        }
        lemma_pairs_map_len(pairs);
    }

    /// The empty map.
    pub fn new() -> (map: Self)
        ensures
            map@ == Map::<Seq<char>, V::V>::empty(),
            map.entries() == Seq::<(Seq<char>, V::V)>::empty(),
    {
        let map = StringMap { entries: Vec::new() };
        assert(map.entries() =~= Seq::empty());
        map
    }

    /// The number of names.
    pub fn len(&self) -> (n: usize)
        ensures
            n == self@.len(),
            n == self.entries().len(),
    {
        proof {
            use_type_invariant(self);
            self.lemma_entries();
        }
        self.entries.len()
    }

    /// Whether the map holds no name.
    pub fn is_empty(&self) -> (empty: bool)
        ensures
            empty == (self@ == Map::<Seq<char>, V::V>::empty()),
    {
        proof {
            use_type_invariant(self);
            self.lemma_entries();
            if self.entries().len() == 0 {
                assert(self@ =~= Map::empty());
            } else {
                lemma_pairs_map_value(self.entries(), 0);
            }
        }
        self.entries.len() == 0
    }

    fn position(&self, key: &String) -> (at: Option<usize>)
        ensures
            match at {
                Some(i) => i < self.entries().len() && self.entries()[i as int].0 == key@,
                None => forall|i: int|
                    0 <= i < self.entries().len() ==> (#[trigger] self.entries()[i]).0 != key@,
            },
    {
        let mut i: usize = 0;
        while i < self.entries.len()
            invariant
                i <= self.entries@.len(),
                forall|k: int| 0 <= k < i ==> (#[trigger] self.entries()[k]).0 != key@,
            decreases self.entries@.len() - i,
        {
            if self.entries[i].0 == *key {
                return Some(i);
            }
            i = i + 1;
        }
        None
    }

    /// The value of a name, if the map holds it.
    pub fn get(&self, key: &str) -> (found: Option<&V>)
        ensures
            match found {
                Some(value) => self@.contains_key(key@) && self@[key@] == value@,
                None => !self@.contains_key(key@),
            },
    {
        let wanted = key.to_owned();
        proof {
            use_type_invariant(self);
            self.lemma_entries();
            lemma_pairs_map_keys(self.entries(), key@);
        }
        match self.position(&wanted) {
            Some(i) => {
                proof {
                    lemma_pairs_map_value(self.entries(), i as int);
                }
                Some(&self.entries[i].1)
            },
            None => None,
        }
    }

    /// Whether the map holds a name.
    pub fn contains_key(&self, key: &str) -> (held: bool)
        ensures
            held == self@.contains_key(key@),
    {
        self.get(key).is_some()
    }

    /// Gives a name a value: a new name comes last, a name that the map holds
    /// keeps its place.
    pub fn insert(&mut self, key: String, value: V)
        ensures
            final(self)@ == old(self)@.insert(key@, value@),
            final(self).entries() == (match pairs_position(old(self).entries(), key@) {
                Some(i) => old(self).entries().update(i, (key@, value@)),
                None => old(self).entries().push((key@, value@)),
            }),
    {
        proof {
            use_type_invariant(&*self);
            self.lemma_entries();
        }
        let ghost before = self.entries();
        let at = self.position(&key);
        let ghost held = self.entries@;
        let mut entries: Vec<(String, V)> = Vec::new();
        core::mem::swap(&mut self.entries, &mut entries);
        match at {
            Some(i) => {
                proof {
                    lemma_pairs_map_update(before, i as int, value@);
                    lemma_pairs_position(before, key@);
                }
                entries.set(i, (key, value));
            },
            None => {
                proof {
                    lemma_pairs_position(before, key@);
                }
                entries.push((key, value));
            },
        }
        proof {
            assert forall|a: int, b: int| 0 <= a < b < entries@.len() implies (
            #[trigger] entries@[a]).0@ != (#[trigger] entries@[b]).0@ by {
                if b < held.len() {
                    assert(held[a].0@ != held[b].0@);
                    assert(before[a].0 == held[a].0@);
                    assert(before[b].0 == held[b].0@);
                } else {
                    assert(before[a].0 == held[a].0@);
                }
            }
        }
        self.entries = entries;
        proof {
            match at {
                Some(i) => {
                    assert(self.entries() =~= before.update(i as int, (key@, value@)));
                },
                None => {
                    assert(self.entries() =~= before.push((key@, value@)));
                    assert(self.entries().drop_last() =~= before);
                },
            }
        }
    }

    /// The entry at a place in the map's order, if there is one.
    pub fn entry_at(&self, index: usize) -> (entry: Option<(&String, &V)>)
        ensures
            match entry {
                Some((name, value)) => index < self.entries().len() && self.entries()[index as int]
                    == (name@, value@),
                None => index >= self.entries().len(),
            },
    {
        if index < self.entries.len() {
            Some((&self.entries[index].0, &self.entries[index].1))
        } else {
            None
        }
    }
}

/// The first place at which a key occurs among the pairs.
pub open spec fn pairs_position<T>(pairs: Seq<(Seq<char>, T)>, key: Seq<char>) -> Option<int> {
    if exists|i: int| 0 <= i < pairs.len() && (#[trigger] pairs[i]).0 == key {
        Some(choose|i: int| 0 <= i < pairs.len() && (#[trigger] pairs[i]).0 == key)
    } else {
        None
    }
}

/// Where no key occurs twice, a key has one place.
pub proof fn lemma_pairs_position<T>(pairs: Seq<(Seq<char>, T)>, key: Seq<char>)
    requires
        distinct_keys(pairs),
    ensures
        forall|i: int|
            0 <= i < pairs.len() && (#[trigger] pairs[i]).0 == key ==> pairs_position(pairs, key)
                == Some(i),
        (forall|i: int| 0 <= i < pairs.len() ==> (#[trigger] pairs[i]).0 != key)
            ==> pairs_position(pairs, key).is_none(),
{
    assert forall|i: int| 0 <= i < pairs.len() && (#[trigger] pairs[i]).0 == key implies pairs_position(
        pairs,
        key,
    ) == Some(i) by {
        let c = choose|c: int| 0 <= c < pairs.len() && (#[trigger] pairs[c]).0 == key;
        if c < i {
            assert(pairs[c].0 != pairs[i].0);
        } else if i < c {
            assert(pairs[i].0 != pairs[c].0);
        }
    }
}

impl<V: View> View for StringMap<V> {
    type V = Map<Seq<char>, V::V>;

    open spec fn view(&self) -> Map<Seq<char>, V::V> {
        pairs_map(self.entries())
    }
}

} // verus!
