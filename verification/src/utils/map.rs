//! A small map from strings to values that keeps the order of insertion.

use vstd::prelude::*;
use crate::text::same_text;

verus! {

/// One key with its value.
#[derive(Clone, Debug, PartialEq, Eq)]
pub struct Entry<T> {
    pub key: String,
    pub value: T,
}

/// A map from strings to values. No key occurs twice, and the entries stay in
/// the order in which their keys were first inserted.
#[derive(Debug, PartialEq, Eq)]
pub struct TextMap<T> {
    entries: Vec<Entry<T>>,
}

/// The position of the first pair with the key `key`.
pub open spec fn position_of<T>(pairs: Seq<(Seq<char>, T)>, key: Seq<char>) -> Option<int>
    decreases pairs.len(),
{
    if pairs.len() == 0 {
        None
    } else if pairs.last().0 == key && position_of(pairs.drop_last(), key) is None {
        Some(pairs.len() - 1)
    } else {
        position_of(pairs.drop_last(), key)
    }
}

/// No key occurs in two pairs.
pub open spec fn keys_distinct<T>(pairs: Seq<(Seq<char>, T)>) -> bool {
    forall|i: int, j: int| 0 <= i < j < pairs.len() ==> pairs[i].0 != pairs[j].0
}

/// The pairs after `key` is set to `value`: the pair with that key is
/// replaced where there is one, else a new pair is added at the end.
pub open spec fn pairs_with<T>(pairs: Seq<(Seq<char>, T)>, key: Seq<char>, value: T) -> Seq<(Seq<char>, T)> {
    match position_of(pairs, key) {
        Some(i) => pairs.update(i, (key, value)),
        None => pairs.push((key, value)),
    }
}

/// A position that `position_of` names holds the key, and no earlier one does;
/// where it names none, no pair has the key.
pub proof fn lemma_position_of<T>(pairs: Seq<(Seq<char>, T)>, key: Seq<char>)
    ensures
        position_of(pairs, key) matches Some(i) ==> 0 <= i < pairs.len() && pairs[i].0 == key && forall|k: int|
            0 <= k < i ==> (#[trigger] pairs[k]).0 != key,
        position_of(pairs, key) is None ==> forall|k: int| 0 <= k < pairs.len() ==> (#[trigger] pairs[k]).0 != key,
    decreases pairs.len(),
{
    if pairs.len() > 0 {
        let front = pairs.drop_last();
        lemma_position_of(front, key);
        assert forall|k: int| 0 <= k < front.len() implies front[k] == pairs[k] by {}
        if position_of(front, key) is None {
            assert forall|k: int| 0 <= k < front.len() implies (#[trigger] pairs[k]).0 != key by {
                assert(front[k].0 != key);
            }
        } else {
            let i = position_of(front, key).unwrap();
            assert(pairs[i] == front[i]);
            assert forall|k: int| 0 <= k < i implies (#[trigger] pairs[k]).0 != key by {
                assert(front[k].0 != key);
            }
        }
    }
}

/// Setting a key keeps the keys distinct.
pub proof fn lemma_pairs_with_distinct<T>(pairs: Seq<(Seq<char>, T)>, key: Seq<char>, value: T)
    requires
        keys_distinct(pairs),
    ensures
        keys_distinct(pairs_with(pairs, key, value)),
{
    lemma_position_of(pairs, key);
}

/// While one map is filled with the keys of another in order, the key that
/// comes next is not among those already taken over.
pub proof fn lemma_next_key_is_new<T, U>(source: Seq<(Seq<char>, T)>, done: Seq<(Seq<char>, U)>)
    requires
        keys_distinct(source),
        done.len() < source.len(),
        forall|k: int| 0 <= k < done.len() ==> (#[trigger] done[k]).0 == source[k].0,
    ensures
        position_of(done, source[done.len() as int].0) is None,
{
    let key = source[done.len() as int].0;
    lemma_position_of(done, key);
    if position_of(done, key) is Some {
        let k = position_of(done, key).unwrap();
        assert(done[k].0 == source[k].0);
        assert(false);
    }
}

/// The pairs with their values as text.
pub open spec fn texts_view(pairs: Seq<(Seq<char>, String)>) -> Seq<(Seq<char>, Seq<char>)> {
    Seq::new(pairs.len(), |i: int| (pairs[i].0, pairs[i].1@))
}

/// The view of an optional map of strings.
pub open spec fn opt_texts_view(map: Option<TextMap<String>>) -> Option<Seq<(Seq<char>, Seq<char>)>> {
    match map {
        Some(m) => Some(texts_view(m.pairs())),
        None => None,
    }
}

impl Clone for TextMap<String> {
    fn clone(&self) -> (copy: TextMap<String>)
        ensures
            texts_view(copy.pairs()) == texts_view(self.pairs()),
    {
        let n = self.len();
        let mut copy: TextMap<String> = TextMap::new();
        let mut i: usize = 0;
        while i < n
            invariant
                i <= n,
                n == self.pairs().len(),
                keys_distinct(self.pairs()),
                copy.pairs().len() == i,
                forall|k: int| 0 <= k < i ==> (#[trigger] copy.pairs()[k]).0 == self.pairs()[k].0,
                forall|k: int| 0 <= k < i ==> (#[trigger] copy.pairs()[k]).1@ == self.pairs()[k].1@,
            decreases n - i,
        {
            proof {
                lemma_next_key_is_new(self.pairs(), copy.pairs());
            }
            copy.insert(self.key_at(i).clone(), self.value_at(i).clone());
            i = i + 1;
        }
        assert(texts_view(copy.pairs()) =~= texts_view(self.pairs()));
        copy
    }
}

impl<T> TextMap<T> {
    #[verifier::type_invariant]
    spec fn valid(&self) -> bool {
        keys_distinct(self.pairs())
    }

    /// The keys with their values, in the order of insertion.
    pub closed spec fn pairs(&self) -> Seq<(Seq<char>, T)> {
        Seq::new(self.entries@.len(), |i: int| (self.entries@[i].key@, self.entries@[i].value))
    }

    /// The value that `key` is mapped to.
    pub open spec fn spec_get(&self, key: Seq<char>) -> Option<T> {
        match position_of(self.pairs(), key) {
            Some(i) => Some(self.pairs()[i].1),
            None => None,
        }
    }

    /// An empty map.
    pub fn new() -> (map: TextMap<T>)
        ensures
            map.pairs() == Seq::<(Seq<char>, T)>::empty(),
    {
        let map = TextMap { entries: Vec::new() };
        assert(map.pairs() =~= Seq::<(Seq<char>, T)>::empty());
        map
    }

    /// The number of keys. The keys of a map are always distinct.
    pub fn len(&self) -> (n: usize)
        ensures
            n == self.pairs().len(),
            keys_distinct(self.pairs()),
    {
        proof {
            use_type_invariant(self);
        }
        self.entries.len()
    }

    /// The key at position `i`.
    pub fn key_at(&self, i: usize) -> (key: &String)
        requires
            i < self.pairs().len(),
        ensures
            key@ == self.pairs()[i as int].0,
    {
        &self.entries[i].key
    }

    /// The value at position `i`.
    pub fn value_at(&self, i: usize) -> (value: &T)
        requires
            i < self.pairs().len(),
        ensures
            *value == self.pairs()[i as int].1,
    {
        &self.entries[i].value
    }

    /// Where `key` stands among the entries.
    fn find(&self, key: &str) -> (at: Option<usize>)
        ensures
            (match at {
                Some(i) => Some(i as int),
                None => None,
            }) == position_of(self.pairs(), key@),
            at matches Some(i) ==> i < self.pairs().len() && self.pairs()[i as int].0 == key@,
    {
        let mut i: usize = 0;
        while i < self.entries.len()
            invariant
                i <= self.entries.len(),
                forall|k: int| 0 <= k < i ==> (#[trigger] self.pairs()[k]).0 != key@,
            decreases self.entries.len() - i,
        {
            if same_text(self.entries[i].key.as_str(), key) {
                proof {
                    lemma_position_of(self.pairs(), key@);
                    assert(self.pairs()[i as int].0 == key@);
                }
                return Some(i);
            }
            i = i + 1;
        }
        proof {
            lemma_position_of(self.pairs(), key@);
        }
        None
    }

    /// The value that `key` is mapped to.
    pub fn get(&self, key: &str) -> (value: Option<&T>)
        ensures
            (match value {
                Some(v) => Some(*v),
                None => None,
            }) == self.spec_get(key@),
    {
        match self.find(key) {
            Some(i) => Some(&self.entries[i].value),
            None => None,
        }
    }

    /// Maps `key` to `value`. A key that is there keeps its place and gets the
    /// new value; a new key goes to the end.
    pub fn insert(&mut self, key: String, value: T)
        ensures
            final(self).pairs() == pairs_with(old(self).pairs(), key@, value),
    {
        proof {
            use_type_invariant(&*self);
            lemma_pairs_with_distinct(self.pairs(), key@, value);
        }
        let ghost before = self.pairs();
        let found = self.find(key.as_str());
        let mut taken = TextMap { entries: Vec::new() };
        assert(taken.pairs() =~= Seq::<(Seq<char>, T)>::empty());
        core::mem::swap(self, &mut taken);
        let mut entries = taken.entries;
        assert(before =~= Seq::new(entries@.len(), |i: int| (entries@[i].key@, entries@[i].value)));
        match found {
            Some(i) => {
                entries.set(i, Entry { key, value });
            },
            None => {
                entries.push(Entry { key, value });
            },
        }
        let ghost after = Seq::new(entries@.len(), |i: int| (entries@[i].key@, entries@[i].value));
        assert(after =~= pairs_with(before, key@, value));
        *self = TextMap { entries };
    }
}

} // verus!
