//! A map keyed by strings, kept as a list of pairs whose keys are distinct.

use vstd::prelude::*;

verus! {

/// No two pairs of `pairs` have the same key.
pub open spec fn distinct_keys<V>(pairs: Seq<(String, V)>) -> bool {
    forall|i: int, j: int|
        0 <= i < j < pairs.len() ==> (#[trigger] pairs[i]).0@ != (#[trigger] pairs[j]).0@
}

/// Some pair of `pairs` has the key `key`.
pub open spec fn has_key<V>(pairs: Seq<(String, V)>, key: Seq<char>) -> bool {
    exists|i: int| 0 <= i < pairs.len() && (#[trigger] pairs[i]).0@ == key
}

/// The place of a pair with the key `key`, where there is one.
pub open spec fn position<V>(pairs: Seq<(String, V)>, key: Seq<char>) -> int {
    choose|i: int| 0 <= i < pairs.len() && (#[trigger] pairs[i]).0@ == key
}

/// The map that a list of pairs stands for: each key goes to the value it is
/// paired with.
pub open spec fn pairs_to_map<V>(pairs: Seq<(String, V)>) -> Map<Seq<char>, V> {
    Map::new(|key: Seq<char>| has_key(pairs, key), |key: Seq<char>| pairs[position(pairs, key)].1)
}

/// With distinct keys, the pair at `i` is what the map holds under its key.
pub proof fn lemma_pair_in_map<V>(pairs: Seq<(String, V)>, i: int)
    requires
        distinct_keys(pairs),
        0 <= i < pairs.len(),
    ensures
        pairs_to_map(pairs).contains_key(pairs[i].0@),
        pairs_to_map(pairs)[pairs[i].0@] == pairs[i].1,
        position(pairs, pairs[i].0@) == i,
{
    let key = pairs[i].0@;
    assert(has_key(pairs, key));
    let p = position(pairs, key);
    assert(0 <= p < pairs.len() && pairs[p].0@ == key);
    if p != i {
        if p < i {
            assert(pairs[p].0@ != pairs[i].0@);
        } else {
            assert(pairs[i].0@ != pairs[p].0@);
        }
    }
}

/// Adding a pair with a new key keeps the keys distinct and inserts into the
/// map.
pub proof fn lemma_push_pair<V>(pairs: Seq<(String, V)>, key: String, value: V)
    requires
        distinct_keys(pairs),
        !has_key(pairs, key@),
    ensures
        distinct_keys(pairs.push((key, value))),
        pairs_to_map(pairs.push((key, value))) == pairs_to_map(pairs).insert(key@, value),
{
    let after = pairs.push((key, value));
    assert forall|i: int, j: int| 0 <= i < j < after.len() implies (#[trigger] after[i]).0@ != (
    #[trigger] after[j]).0@ by {
        if j < pairs.len() {
            assert(pairs[i].0@ != pairs[j].0@);
        } else {
            assert(pairs[i].0@ != key@);
        }
    }
    assert forall|k: Seq<char>| #[trigger]
        pairs_to_map(after).contains_key(k) == pairs_to_map(pairs).insert(key@, value).contains_key(
            k,
        ) by {
        if has_key(pairs, k) {
            let p = position(pairs, k);
            assert(after[p].0@ == k);
        }
        if k == key@ {
            assert(after[pairs.len() as int].0@ == k);
        }
        if has_key(after, k) {
            let p = position(after, k);
            if p < pairs.len() {
                assert(pairs[p].0@ == k);
            }
        }
    }
    assert forall|k: Seq<char>| #[trigger]
        pairs_to_map(after).contains_key(k) implies pairs_to_map(after)[k] == pairs_to_map(
        pairs,
    ).insert(key@, value)[k] by {
        let p = position(after, k);
        lemma_pair_in_map(after, p);
        if p < pairs.len() {
            assert(pairs[p].0@ == k);
            lemma_pair_in_map(pairs, p);
        }
    }
    assert(pairs_to_map(after) =~= pairs_to_map(pairs).insert(key@, value));
}

/// The list without the pair at `i`, the last pair standing in its place.
pub open spec fn swap_removed<V>(pairs: Seq<(String, V)>, i: int) -> Seq<(String, V)> {
    pairs.update(i, pairs.last()).drop_last()
}

/// Taking the pair at `i` out keeps the keys distinct and removes its key
/// from the map.
pub proof fn lemma_swap_remove_pair<V>(pairs: Seq<(String, V)>, i: int)
    requires
        distinct_keys(pairs),
        0 <= i < pairs.len(),
    ensures
        distinct_keys(swap_removed(pairs, i)),
        pairs_to_map(swap_removed(pairs, i)) == pairs_to_map(pairs).remove(pairs[i].0@),
{
    let after = swap_removed(pairs, i);
    let last = pairs.len() - 1;
    let gone = pairs[i].0@;
    assert forall|a: int| 0 <= a < after.len() implies #[trigger] after[a] == pairs[if a == i {
        last
    } else {
        a
    }] by {}
    assert forall|a: int, b: int| 0 <= a < b < after.len() implies (#[trigger] after[a]).0@ != (
    #[trigger] after[b]).0@ by {
        let from_a = if a == i { last } else { a };
        let from_b = if b == i { last } else { b };
        assert(after[a] == pairs[from_a]);
        assert(after[b] == pairs[from_b]);
        if from_a < from_b {
            assert(pairs[from_a].0@ != pairs[from_b].0@);
        } else {
            assert(pairs[from_b].0@ != pairs[from_a].0@);
        }
    }
    assert forall|k: Seq<char>| #[trigger]
        pairs_to_map(after).contains_key(k) == pairs_to_map(pairs).remove(gone).contains_key(
            k,
        ) by {
        if has_key(after, k) {
            let p = position(after, k);
            let origin = if p == i { last } else { p };
            assert(after[p] == pairs[origin]);
            assert(pairs[origin].0@ == k);
            if origin < i {
                assert(pairs[origin].0@ != pairs[i].0@);
            } else {
                assert(pairs[i].0@ != pairs[origin].0@);
            }
        }
        if has_key(pairs, k) && k != gone {
            let origin = position(pairs, k);
            let p = if origin == last { i } else { origin };
            assert(after[p] == pairs[origin]);
            assert(after[p].0@ == k);
        }
    }
    assert forall|k: Seq<char>| #[trigger]
        pairs_to_map(after).contains_key(k) implies pairs_to_map(after)[k] == pairs_to_map(
        pairs,
    ).remove(gone)[k] by {
        let p = position(after, k);
        lemma_pair_in_map(after, p);
        let origin = if p == i { last } else { p };
        assert(after[p] == pairs[origin]);
        lemma_pair_in_map(pairs, origin);
    }
    assert(pairs_to_map(after) =~= pairs_to_map(pairs).remove(gone));
}

/// A list with distinct keys stands for a finite map with as many keys as the
/// list has pairs.
pub proof fn lemma_map_len<V>(pairs: Seq<(String, V)>)
    requires
        distinct_keys(pairs),
    ensures
        pairs_to_map(pairs).dom().finite(),
        pairs_to_map(pairs).len() == pairs.len(),
    decreases pairs.len(),
{
    if pairs.len() == 0 {
        assert(pairs_to_map(pairs) =~= Map::<Seq<char>, V>::empty());
    } else {
        let last = pairs.len() - 1;
        let front = swap_removed(pairs, last);
        lemma_swap_remove_pair(pairs, last);
        lemma_map_len(front);
        lemma_pair_in_map(pairs, last);
        let key = pairs[last].0@;
        assert(pairs_to_map(pairs) =~= pairs_to_map(front).insert(key, pairs[last].1));
    }
}

/// A map from strings to values of `V`.
///
/// The view is the mathematical map from each key's text to its value.
#[derive(Debug)]
pub struct StringMap<V> {
    pub(crate) pairs: Vec<(String, V)>,
}

impl<V> View for StringMap<V> {
    type V = Map<Seq<char>, V>;

    open(crate) spec fn view(&self) -> Map<Seq<char>, V> {
        pairs_to_map(self.pairs@)
    }
}

impl<V> StringMap<V> {
    /// The invariant of the representation: no key is held twice. Every
    /// constructor establishes it and every method keeps it.
    pub open(crate) spec fn wf(&self) -> bool {
        distinct_keys(self.pairs@)
    }

    /// The empty map.
    pub fn new() -> (map: Self)
        ensures
            map.wf(),
            map@ == Map::<Seq<char>, V>::empty(),
    {
        let map = StringMap { pairs: Vec::new() };
        assert(map@ =~= Map::<Seq<char>, V>::empty());
        map
    }

    /// The place of `key` among the pairs.
    fn find(&self, key: &String) -> (place: Option<usize>)
        ensures
            match place {
                Some(i) => i < self.pairs@.len() && self.pairs@[i as int].0@ == key@,
                None => !has_key(self.pairs@, key@),
            },
    {
        let mut i: usize = 0;
        while i < self.pairs.len()
            invariant
                i <= self.pairs@.len(),
                forall|j: int| 0 <= j < i ==> (#[trigger] self.pairs@[j]).0@ != key@,
            decreases self.pairs@.len() - i,
        {
            if self.pairs[i].0 == *key {
                return Some(i);
            }
            i += 1;
        }
        None
    }

    /// The number of keys.
    pub fn len(&self) -> (n: usize)
        requires
            self.wf(),
        ensures
            self@.dom().finite(),
            n == self@.len(),
    {
        proof {
            lemma_map_len(self.pairs@);
        }
        self.pairs.len()
    }

    /// Whether the map has no key.
    pub fn is_empty(&self) -> (empty: bool)
        requires
            self.wf(),
        ensures
            empty == (self@ == Map::<Seq<char>, V>::empty()),
    {
        proof {
            lemma_map_len(self.pairs@);
            if self.pairs@.len() == 0 {
                assert(self@ =~= Map::<Seq<char>, V>::empty());
            }
        }
        self.pairs.len() == 0
    }

    /// Whether `key` is in the map.
    pub fn contains_key(&self, key: &str) -> (present: bool)
        ensures
            present == self@.contains_key(key@),
    {
        let wanted = key.to_owned();
        self.find(&wanted).is_some()
    }

    /// The value under `key`.
    pub fn get(&self, key: &str) -> (value: Option<&V>)
        requires
            self.wf(),
        ensures
            match value {
                Some(v) => self@.contains_key(key@) && *v == self@[key@],
                None => !self@.contains_key(key@),
            },
    {
        let wanted = key.to_owned();
        match self.find(&wanted) {
            Some(i) => {
                proof {
                    lemma_pair_in_map(self.pairs@, i as int);
                }
                Some(&self.pairs[i].1)
            },
            None => None,
        }
    }

    /// Puts `value` under `key`, and returns the value that was there.
    pub fn insert(&mut self, key: String, value: V) -> (previous: Option<V>)
        requires
            old(self).wf(),
        ensures
            final(self).wf(),
            final(self)@ == old(self)@.insert(key@, value),
            previous == if old(self)@.contains_key(key@) {
                Some(old(self)@[key@])
            } else {
                None::<V>
            },
    {
        let previous = match self.find(&key) {
            Some(i) => {
                proof {
                    lemma_pair_in_map(self.pairs@, i as int);
                    lemma_swap_remove_pair(self.pairs@, i as int);
                }
                let pair = self.pairs.swap_remove(i);
                Some(pair.1)
            },
            None => None,
        };
        proof {
            lemma_push_pair(self.pairs@, key, value);
            assert(old(self)@.remove(key@).insert(key@, value) =~= old(self)@.insert(key@, value));
        }
        self.pairs.push((key, value));
        previous
    }

    /// Takes `key` out of the map, and returns the value that was there.
    pub fn remove(&mut self, key: &str) -> (removed: Option<V>)
        requires
            old(self).wf(),
        ensures
            final(self).wf(),
            final(self)@ == old(self)@.remove(key@),
            removed == if old(self)@.contains_key(key@) {
                Some(old(self)@[key@])
            } else {
                None::<V>
            },
    {
        let wanted = key.to_owned();
        match self.find(&wanted) {
            Some(i) => {
                proof {
                    lemma_pair_in_map(self.pairs@, i as int);
                    lemma_swap_remove_pair(self.pairs@, i as int);
                }
                let pair = self.pairs.swap_remove(i);
                Some(pair.1)
            },
            None => {
                assert(old(self)@.remove(key@) =~= old(self)@);
                None
            },
        }
    }

    /// Gives up the map for its pairs, each key once.
    pub fn into_pairs(self) -> (pairs: Vec<(String, V)>)
        requires
            self.wf(),
        ensures
            distinct_keys(pairs@),
            pairs_to_map(pairs@) == self@,
    {
        self.pairs
    }
}

} // verus!
