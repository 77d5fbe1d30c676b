//! An association list keyed by text, viewed as a finite map.

use vstd::prelude::*;

verus! {

/// A finite map from text keys to values, kept as a list of entries in which no
/// key occurs twice. The order of the entries is the order in which the keys
/// were first inserted.
#[derive(Debug)]
pub struct TextMap<V> {
    entries: Vec<(String, V)>,
}

impl<V> View for TextMap<V> {
    type V = Map<Seq<char>, V>;

    closed spec fn view(&self) -> Map<Seq<char>, V> {
        Map::new(
            |k: Seq<char>| self.keys().contains(k),
            |k: Seq<char>| self.entries@[self.keys().index_of(k)].1,
        )
    }
}

impl<V> TextMap<V> {
    /// The keys, in the order of the entries.
    pub closed spec fn keys(&self) -> Seq<Seq<char>> {
        Seq::new(self.entries@.len(), |i: int| self.entries@[i].0@)
    }

    /// No key occurs twice among the entries.
    pub open spec fn wf(&self) -> bool {
        self.keys().no_duplicates()
    }

    /// The domain of the map is the set of the listed keys, and each listed key
    /// maps to the value listed beside it.
    pub proof fn lemma_view_of_keys(&self)
        ensures
            self@.dom() =~= self.keys().to_set(),
            self@.dom().finite(),
            forall|k: Seq<char>| self.keys().contains(k) <==> #[trigger] self@.dom().contains(k),
    {
        vstd::seq_lib::seq_to_set_is_finite(self.keys());
        assert(self@.dom() =~= self.keys().to_set());
    }

    /// The empty map.
    pub fn new() -> (map: Self)
        ensures
            map.wf(),
            map@ == Map::<Seq<char>, V>::empty(),
            map.keys() == Seq::<Seq<char>>::empty(),
    {
        let map = TextMap { entries: Vec::new() };
        assert(map.keys() =~= Seq::<Seq<char>>::empty());
        assert(map@ =~= Map::<Seq<char>, V>::empty());
        map
    }

    /// The number of keys.
    pub fn len(&self) -> (n: usize)
        requires
            self.wf(),
        ensures
            n == self.keys().len(),
            n == self@.dom().len(),
    {
        proof {
            self.lemma_view_of_keys();
            self.keys().unique_seq_to_set();
        }
        self.entries.len()
    }

    /// The place of `key` among the entries, if it is a key of the map.
    pub fn position(&self, key: &String) -> (found: Option<usize>)
        ensures
            match found {
                Some(i) => i < self.keys().len() && self.keys()[i as int] == key@,
                None => !self@.dom().contains(key@),
            },
    {
        let mut i: usize = 0;
        while i < self.entries.len()
            invariant
                i <= self.entries@.len(),
                self.keys().len() == self.entries@.len(),
                forall|j: int| 0 <= j < i ==> self.keys()[j] != key@,
            decreases self.entries@.len() - i,
        {
            if self.entries[i].0 == *key {
                return Some(i);
            }
            i += 1;
        }
        None
    }

    /// Whether `key` is a key of the map.
    pub fn contains_key(&self, key: &String) -> (present: bool)
        ensures
            present == self@.dom().contains(key@),
    {
        self.position(key).is_some()
    }

    /// The key of the entry at place `i`.
    pub fn key_at(&self, i: usize) -> (key: &String)
        requires
            i < self.keys().len(),
        ensures
            key@ == self.keys()[i as int],
            self@.dom().contains(key@),
    {
        &self.entries[i].0
    }

    /// The value of the entry at place `i`.
    pub fn value_at(&self, i: usize) -> (value: &V)
        requires
            self.wf(),
            i < self.keys().len(),
        ensures
            self@.dom().contains(self.keys()[i as int]),
            *value == self@[self.keys()[i as int]],
    {
        proof {
            self.lemma_index_of(i as int);
        }
        &self.entries[i].1
    }

    /// In a list without duplicates a key is found at its own place.
    proof fn lemma_index_of(&self, i: int)
        requires
            self.keys().no_duplicates(),
            0 <= i < self.keys().len(),
        ensures
            self.keys().contains(self.keys()[i]),
            self.keys().index_of(self.keys()[i]) == i,
    {
        let k = self.keys()[i];
        assert(self.keys().contains(k));
        self.keys().index_of_first_ensures(k);
        let j = self.keys().index_of(k);
        assert(self.keys()[j] == k);
    }

    /// The value that `key` is bound to, if it is a key of the map.
    pub fn get(&self, key: &String) -> (value: Option<&V>)
        requires
            self.wf(),
        ensures
            match value {
                Some(v) => self@.dom().contains(key@) && *v == self@[key@],
                None => !self@.dom().contains(key@),
            },
    {
        match self.position(key) {
            Some(i) => Some(self.value_at(i)),
            None => None,
        }
    }

    /// Binds `key` to `value`: a new key is added behind the others, a key that
    /// is present keeps its place.
    pub fn insert(&mut self, key: String, value: V)
        requires
            old(self).wf(),
        ensures
            final(self).wf(),
            final(self)@ == old(self)@.insert(key@, value),
            old(self)@.dom().contains(key@) ==> final(self).keys() == old(self).keys(),
            !old(self)@.dom().contains(key@) ==> final(self).keys() == old(self).keys().push(key@),
    {
        let ghost before = *self;
        match self.position(&key) {
            Some(i) => {
                let ghost key_view = key@;
                self.entries.set(i, (key, value));
                proof {
                    assert(self.keys() =~= before.keys());
                    assert forall|k: Seq<char>| #[trigger] self@.dom().contains(k) implies self@[k]
                        == before@.insert(key_view, value)[k] by {
                        let j = self.keys().index_of(k);
                        self.keys().index_of_first_ensures(k);
                        if k == key_view {
                            before.lemma_index_of(i as int);
                        }
                    }
                    assert(self@ =~= before@.insert(key_view, value));
                }
            },
            None => {
                let ghost key_view = key@;
                self.entries.push((key, value));
                proof {
                    assert(self.keys() =~= before.keys().push(key_view));
                    assert forall|a: int, b: int|
                        0 <= a < self.keys().len() && 0 <= b < self.keys().len() && a != b implies self.keys()[a]
                        != self.keys()[b] by {
                        if a < before.keys().len() {
                            assert(before.keys().contains(self.keys()[a]));
                        }
                        if b < before.keys().len() {
                            assert(before.keys().contains(self.keys()[b]));
                        }
                    }
                    assert forall|k: Seq<char>| #[trigger] self@.dom().contains(k) implies self@[k]
                        == before@.insert(key_view, value)[k] by {
                        self.keys().index_of_first_ensures(k);
                        let j = self.keys().index_of(k);
                        if k == key_view {
                            self.lemma_index_of(before.keys().len() as int);
                        } else {
                            assert(before.keys()[j] == k);
                            before.lemma_index_of(j);
                        }
                    }
                    assert forall|k: Seq<char>| before@.insert(key_view, value).dom().contains(k)
                        implies #[trigger] self@.dom().contains(k) by {
                        if k == key_view {
                            assert(self.keys()[before.keys().len() as int] == k);
                        } else {
                            let j = before.keys().index_of(k);
                            before.keys().index_of_first_ensures(k);
                            assert(self.keys()[j] == k);
                        }
                    }
                    assert(self@ =~= before@.insert(key_view, value));
                }
            },
        }
    }

    /// Removes `key` and what it is bound to, if it is a key of the map; the
    /// other entries keep their order.
    pub fn remove(&mut self, key: &String)
        requires
            old(self).wf(),
        ensures
            final(self).wf(),
            final(self)@ == old(self)@.remove(key@),
            final(self).keys() == without(old(self).keys(), key@),
    {
        let ghost before = *self;
        match self.position(key) {
            Some(i) => {
                let _ = self.entries.remove(i);
                proof {
                    assert(self.keys() =~= before.keys().remove(i as int));
                    lemma_without_unique(before.keys(), i as int);
                    assert forall|a: int, b: int|
                        0 <= a < self.keys().len() && 0 <= b < self.keys().len() && a != b implies self.keys()[a]
                        != self.keys()[b] by {
                        let a0 = if a < i { a } else { a + 1 };
                        let b0 = if b < i { b } else { b + 1 };
                        assert(self.keys()[a] == before.keys()[a0]);
                        assert(self.keys()[b] == before.keys()[b0]);
                    }
                    assert forall|k: Seq<char>| before@.remove(key@).dom().contains(k) implies #[trigger] self@.dom().contains(k) by {
                        before.keys().index_of_first_ensures(k);
                        let j = before.keys().index_of(k);
                        let j1 = if j < i { j } else { j - 1 };
                        assert(self.keys()[j1] == k);
                    }
                    assert forall|k: Seq<char>| #[trigger] self@.dom().contains(k) implies before@.remove(key@).dom().contains(k)
                        && self@[k] == before@.remove(key@)[k] by {
                        self.keys().index_of_first_ensures(k);
                        let j = self.keys().index_of(k);
                        let j0 = if j < i { j } else { j + 1 };
                        assert(before.keys()[j0] == k);
                        before.lemma_index_of(j0);
                    }
                    assert(self@ =~= before@.remove(key@));
                }
            },
            None => {
                proof {
                    assert(self@ =~= before@.remove(key@));
                    before.lemma_view_of_keys();
                    lemma_without_absent(before.keys(), key@);
                }
            },
        }
    }
}

/// The list `keys` without every occurrence of `key`, the rest in order.
pub open spec fn without(keys: Seq<Seq<char>>, key: Seq<char>) -> Seq<Seq<char>> {
    keys.filter(|k: Seq<char>| k != key)
}

/// Taking the one occurrence of a key out of a list without duplicates removes
/// the entry at its place.
pub proof fn lemma_without_unique(keys: Seq<Seq<char>>, i: int)
    requires
        keys.no_duplicates(),
        0 <= i < keys.len(),
    ensures
        without(keys, keys[i]) == keys.remove(i),
    decreases keys.len(),
{
    reveal(Seq::filter);
    let front = keys.drop_last();
    if i == keys.len() - 1 {
        if front.contains(keys[i]) {
            let j = choose|j: int| 0 <= j < front.len() && front[j] == keys[i];
            assert(keys[j] == keys[i]);
        }
        lemma_without_absent(front, keys[i]);
        assert(keys.remove(i) =~= front);
    } else {
        assert(front.no_duplicates());
        lemma_without_unique(front, i);
        assert(front[i] == keys[i]);
        assert(keys.last() != keys[i]);
        assert(keys.remove(i) =~= front.remove(i).push(keys.last()));
    }
}

/// Taking a key out of a list that was extended by one entry: the entry stays
/// unless it is the key.
pub proof fn lemma_without_push(keys: Seq<Seq<char>>, last: Seq<char>, key: Seq<char>)
    ensures
        without(keys.push(last), key) == if last != key {
            without(keys, key).push(last)
        } else {
            without(keys, key)
        },
{
    reveal(Seq::filter);
    assert(keys.push(last).drop_last() =~= keys);
}

/// Taking a key out of a list in which it does not occur changes nothing.
pub proof fn lemma_without_absent(keys: Seq<Seq<char>>, key: Seq<char>)
    requires
        !keys.contains(key),
    ensures
        without(keys, key) == keys,
    decreases keys.len(),
{
    reveal(Seq::filter);
    if keys.len() > 0 {
        let front = keys.drop_last();
        assert forall|k: Seq<char>| front.contains(k) implies keys.contains(k) by {
            let j = choose|j: int| 0 <= j < front.len() && front[j] == k;
            assert(keys[j] == k);
        }
        assert(keys[keys.len() - 1] == keys.last());
        lemma_without_absent(front, key);
        assert(keys =~= front.push(keys.last()));
    } else {
        assert(without(keys, key) =~= keys);
    }
}

} // verus!
