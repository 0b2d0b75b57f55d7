//! Association lists as models of maps.
//!
//! The in-memory stores keep their entries in a vector in which no key
//! occurs twice. This module says which map such a list stands for, and how
//! the map changes when the list does.

use vstd::prelude::*;

verus! {

/// No key occurs at two places of the list.
pub open spec fn distinct_keys<K, V>(entries: Seq<(K, V)>) -> bool {
    forall|i: int, j: int|
        0 <= i < j < entries.len() ==> (#[trigger] entries[i]).0 != (#[trigger] entries[j]).0
}

/// The key occurs in the list.
pub open spec fn has_key<K, V>(entries: Seq<(K, V)>, key: K) -> bool {
    exists|i: int| 0 <= i < entries.len() && (#[trigger] entries[i]).0 == key
}

/// A place at which the key occurs, where it does.
pub open spec fn place_of<K, V>(entries: Seq<(K, V)>, key: K) -> int {
    choose|i: int| 0 <= i < entries.len() && (#[trigger] entries[i]).0 == key
}

/// The map that the list stands for.
pub open spec fn as_map<K, V>(entries: Seq<(K, V)>) -> Map<K, V> {
    Map::new(|key: K| has_key(entries, key), |key: K| entries[place_of(entries, key)].1)
}

/// The entry at a place of the list is the map's entry for its key.
pub proof fn lemma_entry<K, V>(entries: Seq<(K, V)>, i: int)
    requires
        distinct_keys(entries),
        0 <= i < entries.len(),
    ensures
        as_map(entries).contains_key(entries[i].0),
        as_map(entries)[entries[i].0] == entries[i].1,
{
    let key = entries[i].0;
    assert(has_key(entries, key));
    let j = place_of(entries, key);
    assert(entries[j].0 == key);
    if i < j {
        assert(entries[i].0 != entries[j].0);
    } else if j < i {
        assert(entries[j].0 != entries[i].0);
    }
}

/// A key that stands at no place of the list is not in the map.
pub proof fn lemma_absent<K, V>(entries: Seq<(K, V)>, key: K)
    requires
        forall|i: int| 0 <= i < entries.len() ==> (#[trigger] entries[i]).0 != key,
    ensures
        !as_map(entries).contains_key(key),
{
}

/// Appending an entry under a new key inserts it into the map.
pub proof fn lemma_push<K, V>(entries: Seq<(K, V)>, key: K, value: V)
    requires
        distinct_keys(entries),
        !as_map(entries).contains_key(key),
    ensures
        distinct_keys(entries.push((key, value))),
        as_map(entries.push((key, value))) == as_map(entries).insert(key, value),
{
    let longer = entries.push((key, value));
    assert forall|i: int, j: int| 0 <= i < j < longer.len() implies
        (#[trigger] longer[i]).0 != (#[trigger] longer[j]).0 by {
        if j < entries.len() {
            assert(entries[i].0 != entries[j].0);
        } else {
            assert(has_key(entries, entries[i].0));
        }
    }
    assert forall|k: K| #[trigger]
        as_map(longer).contains_key(k) <==> as_map(entries).insert(key, value).contains_key(
            k,
        ) by {
        if has_key(longer, k) {
            let i = place_of(longer, k);
            if i < entries.len() {
                assert(entries[i].0 == k);
            }
        }
        if has_key(entries, k) {
            let i = place_of(entries, k);
            assert(longer[i].0 == k);
        }
        if k == key {
            assert(longer[entries.len() as int].0 == k);
        }
    }
    assert forall|k: K| #[trigger] as_map(longer).contains_key(k) implies as_map(longer)[k]
        == as_map(entries).insert(key, value)[k] by {
        let i = place_of(longer, k);
        lemma_entry(longer, i);
        if i < entries.len() {
            lemma_entry(entries, i);
        }
    }
    assert(as_map(longer) =~= as_map(entries).insert(key, value));
}

/// Replacing the value at a place of the list replaces the map's entry for
/// that key.
pub proof fn lemma_update<K, V>(entries: Seq<(K, V)>, i: int, value: V)
    requires
        distinct_keys(entries),
        0 <= i < entries.len(),
    ensures
        distinct_keys(entries.update(i, (entries[i].0, value))),
        as_map(entries.update(i, (entries[i].0, value))) == as_map(entries).insert(
            entries[i].0,
            value,
        ),
{
    let key = entries[i].0;
    let changed = entries.update(i, (key, value));
    assert forall|a: int, b: int| 0 <= a < b < changed.len() implies
        (#[trigger] changed[a]).0 != (#[trigger] changed[b]).0 by {
        assert(entries[a].0 != entries[b].0);
    }
    assert forall|k: K| #[trigger]
        as_map(changed).contains_key(k) <==> as_map(entries).insert(key, value).contains_key(
            k,
        ) by {
        if has_key(changed, k) {
            let j = place_of(changed, k);
            assert(entries[j].0 == k);
        }
        if has_key(entries, k) {
            let j = place_of(entries, k);
            assert(changed[j].0 == k);
        }
        if k == key {
            assert(changed[i].0 == k);
        }
    }
    assert forall|k: K| #[trigger] as_map(changed).contains_key(k) implies as_map(changed)[k]
        == as_map(entries).insert(key, value)[k] by {
        let j = place_of(changed, k);
        lemma_entry(changed, j);
        lemma_entry(entries, j);
        if j != i {
            if j < i {
                assert(entries[j].0 != entries[i].0);
            } else {
                assert(entries[i].0 != entries[j].0);
            }
        }
    }
    assert(as_map(changed) =~= as_map(entries).insert(key, value));
}

/// Taking an entry out of the list removes its key from the map.
pub proof fn lemma_remove<K, V>(entries: Seq<(K, V)>, i: int)
    requires
        distinct_keys(entries),
        0 <= i < entries.len(),
    ensures
        distinct_keys(entries.remove(i)),
        as_map(entries.remove(i)) == as_map(entries).remove(entries[i].0),
{
    let key = entries[i].0;
    let shorter = entries.remove(i);
    assert forall|a: int| 0 <= a < shorter.len() implies
        (#[trigger] shorter[a]) == entries[if a < i { a } else { a + 1 }] by {}
    assert forall|a: int, b: int| 0 <= a < b < shorter.len() implies
        (#[trigger] shorter[a]).0 != (#[trigger] shorter[b]).0 by {
        let a0 = if a < i { a } else { a + 1 };
        let b0 = if b < i { b } else { b + 1 };
        assert(entries[a0].0 != entries[b0].0);
    }
    assert forall|k: K| #[trigger]
        as_map(shorter).contains_key(k) <==> as_map(entries).remove(key).contains_key(k) by {
        if has_key(shorter, k) {
            let j = place_of(shorter, k);
            let j0 = if j < i { j } else { j + 1 };
            assert(entries[j0].0 == k);
            if j0 < i {
                assert(entries[j0].0 != entries[i].0);
            } else {
                assert(entries[i].0 != entries[j0].0);
            }
        }
        if has_key(entries, k) && k != key {
            let j = place_of(entries, k);
            let j1 = if j < i { j } else { j - 1 };
            assert(shorter[j1].0 == k);
        }
    }
    assert forall|k: K| #[trigger] as_map(shorter).contains_key(k) implies as_map(shorter)[k]
        == as_map(entries).remove(key)[k] by {
        let j = place_of(shorter, k);
        let j0 = if j < i { j } else { j + 1 };
        lemma_entry(shorter, j);
        lemma_entry(entries, j0);
    }
    assert(as_map(shorter) =~= as_map(entries).remove(key));
}

} // verus!
