//! Association lists keyed by name.
//!
//! A list of `(name, value)` pairs stands for a map from names to values:
//! the value of a name is the one paired with its first occurrence.

use vstd::prelude::*;
use crate::text::same_text;

verus! {

/// The names of an association list, in order.
pub open spec fn keys_of<V>(entries: Seq<(Seq<char>, V)>) -> Seq<Seq<char>> {
    entries.map_values(|e: (Seq<char>, V)| e.0)
}

/// Index of the first entry named `key`, if there is one.
pub open spec fn slot_of<V>(entries: Seq<(Seq<char>, V)>, key: Seq<char>) -> Option<int> {
    keys_of(entries).index_of_first(key)
}

/// The value paired with the first occurrence of `key`, if there is one.
pub open spec fn value_of<V>(entries: Seq<(Seq<char>, V)>, key: Seq<char>) -> Option<V> {
    match slot_of(entries, key) {
        Some(i) => Some(entries[i].1),
        None => None,
    }
}

/// What `slot_of` means: the index it gives is in range, holds `key`, and no
/// earlier entry does; it gives none exactly when no entry is named `key`.
pub proof fn lemma_slot_of<V>(entries: Seq<(Seq<char>, V)>, key: Seq<char>)
    ensures
        match slot_of(entries, key) {
            Some(i) => {
                &&& 0 <= i < entries.len()
                &&& entries[i].0 == key
                &&& forall|j: int| 0 <= j < i ==> entries[j].0 != key
            },
            None => forall|j: int| 0 <= j < entries.len() ==> entries[j].0 != key,
        },
{
    let keys = keys_of(entries);
    keys.index_of_first_ensures(key);
    match keys.index_of_first(key) {
        Some(i) => {
            assert(keys[i] == entries[i].0);
            assert forall|j: int| 0 <= j < i implies entries[j].0 != key by {
                assert(keys[j] == entries[j].0);
            }
        },
        None => {
            assert forall|j: int| 0 <= j < entries.len() implies entries[j].0 != key by {
                assert(keys[j] == entries[j].0);
                assert(keys.contains(keys[j]));
            }
        },
    }
}

/// An index that holds `key` with no earlier entry holding it is the slot.
pub proof fn lemma_slot_is<V>(entries: Seq<(Seq<char>, V)>, key: Seq<char>, i: int)
    requires
        0 <= i < entries.len(),
        entries[i].0 == key,
        forall|j: int| 0 <= j < i ==> entries[j].0 != key,
    ensures
        slot_of(entries, key) == Some(i),
{
    lemma_slot_of(entries, key);
    let keys = keys_of(entries);
    assert(keys[i] == key);
    assert(keys.contains(key));
}

/// No entry named `key` means no slot.
pub proof fn lemma_slot_none<V>(entries: Seq<(Seq<char>, V)>, key: Seq<char>)
    requires
        forall|j: int| 0 <= j < entries.len() ==> entries[j].0 != key,
    ensures
        slot_of(entries, key) is None,
{
    lemma_slot_of(entries, key);
}

/// Whether no name occurs twice in the list.
pub fn keys_are_distinct<V: DeepView>(entries: &Vec<(String, V)>) -> (r: bool)
    ensures
        r == keys_of(entries.deep_view()).no_duplicates(),
{
    let ghost keys = keys_of(entries.deep_view());
    let mut i: usize = 0;
    while i < entries.len()
        invariant
            i <= entries.len(),
            keys == keys_of(entries.deep_view()),
            forall|a: int, b: int| 0 <= a < b < i ==> keys[a] != keys[b],
        decreases entries.len() - i,
    {
        let mut j: usize = 0;
        while j < i
            invariant
                j <= i < entries.len(),
                keys == keys_of(entries.deep_view()),
                forall|a: int| 0 <= a < j ==> keys[a] != keys[i as int],
            decreases i - j,
        {
            if same_text(entries[j].0.as_str(), entries[i].0.as_str()) {
                assert(keys[j as int] == keys[i as int]);
                return false;
            }
            j += 1;
        }
        i += 1;
    }
    assert forall|a: int, b: int| 0 <= a < keys.len() && 0 <= b < keys.len() && a != b implies keys[a]
        != keys[b] by {
        if a < b {
        } else {
            assert(keys[b] != keys[a]);
        }
    }
    true
}

/// Finds the first entry named `key`.
pub fn find_slot<V: DeepView>(entries: &Vec<(String, V)>, key: &str) -> (r: Option<usize>)
    ensures
        match r {
            Some(i) => slot_of(entries.deep_view(), key@) == Some(i as int) && i < entries.len(),
            None => slot_of(entries.deep_view(), key@) is None,
        },
{
    let mut i: usize = 0;
    while i < entries.len()
        invariant
            i <= entries.len(),
            forall|j: int| 0 <= j < i ==> entries.deep_view()[j].0 != key@,
        decreases entries.len() - i,
    {
        if same_text(entries[i].0.as_str(), key) {
            proof {
                lemma_slot_is(entries.deep_view(), key@, i as int);
            }
            return Some(i);
        }
        i += 1;
    }
    proof {
        lemma_slot_none(entries.deep_view(), key@);
    }
    None
}

} // verus!
