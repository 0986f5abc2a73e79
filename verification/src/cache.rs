//! A cache of integer sequences, keyed by text.

use vstd::prelude::*;
use vstd::hash_map::StringHashMap;

verus! {

/// Owns the sequences stored in it until they are removed.
pub struct SequenceCache {
    entries: StringHashMap<Vec<i32>>,
}

impl View for SequenceCache {
    type V = Map<Seq<char>, Seq<i32>>;

    closed spec fn view(&self) -> Map<Seq<char>, Seq<i32>> {
        self.entries@.map_values(|values: Vec<i32>| values@)
    }
}

impl SequenceCache {
    /// An empty cache.
    pub fn new() -> (cache: Self)
        ensures
            cache@ == Map::<Seq<char>, Seq<i32>>::empty(),
    {
        let cache = SequenceCache { entries: StringHashMap::new() };
        assert(cache@ =~= Map::<Seq<char>, Seq<i32>>::empty());
        cache
    }

    /// Stores `values` under `key`, taking ownership of both and replacing
    /// what was stored under `key` before.
    pub fn insert(&mut self, key: String, values: Vec<i32>)
        ensures
            final(self)@ == old(self)@.insert(key@, values@),
    {
        self.entries.insert(key, values);
        assert(self@ =~= old(self)@.insert(key@, values@));
    }

    /// Borrows the sequence stored under `key`, if there is one.
    pub fn get(&self, key: &str) -> (found: Option<&Vec<i32>>)
        ensures
            match found {
                Some(values) => self@.contains_key(key@) && values@ == self@[key@],
                None => !self@.contains_key(key@),
            },
    {
        self.entries.get(key)
    }

    /// Deletes the entry under `key` and hands the sequence it held to the
    /// caller, if there was one; afterwards the cache holds nothing under
    /// `key`.
    pub fn remove(&mut self, key: &str) -> (removed: Option<Vec<i32>>)
        ensures
            final(self)@ == old(self)@.remove(key@),
            match removed {
                Some(values) => old(self)@.contains_key(key@) && values@ == old(self)@[key@],
                None => !old(self)@.contains_key(key@),
            },
    {
        let removed: Option<Vec<i32>> = match self.entries.get(key) {
            Some(values) => Some(values.clone()),
            None => None,
        };
        self.entries.remove(key);
        assert(self@ =~= old(self)@.remove(key@));
        removed
    }
}

/// Once `values` has been inserted under `key`, the cache holds exactly
/// `values` there; removing `key` then hands `values` back and leaves no
/// entry under `key`, whatever the cache held before.
pub proof fn lemma_remove_after_insert(
    entries: Map<Seq<char>, Seq<i32>>,
    key: Seq<char>,
    values: Seq<i32>,
)
    ensures
        entries.insert(key, values).contains_key(key),
        entries.insert(key, values)[key] == values,
        !entries.insert(key, values).remove(key).contains_key(key),
        entries.insert(key, values).remove(key) == entries.remove(key),
{
    assert(entries.insert(key, values).remove(key) =~= entries.remove(key));
}

/// Inserting or removing under one key leaves the entries under every other
/// key as they were.
pub proof fn lemma_other_keys_untouched(
    entries: Map<Seq<char>, Seq<i32>>,
    key: Seq<char>,
    values: Seq<i32>,
    other: Seq<char>,
)
    requires
        other != key,
    ensures
        entries.insert(key, values).contains_key(other) == entries.contains_key(other),
        entries.remove(key).contains_key(other) == entries.contains_key(other),
        entries.contains_key(other) ==> entries.insert(key, values)[other] == entries[other],
        entries.contains_key(other) ==> entries.remove(key)[other] == entries[other],
{
}

} // verus!
