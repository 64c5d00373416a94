//! Association lists: a sequence of key-value pairs read as the finite map
//! that inserting the pairs in order builds.

use vstd::prelude::*;

verus! {

/// The map built by inserting the pairs of `entries` in order; where a key
/// occurs more than once, its last pair stays.
pub open spec fn assoc_map<K, V>(entries: Seq<(K, V)>) -> Map<K, V>
    decreases entries.len(),
{
    if entries.len() == 0 {
        Map::empty()
    } else {
        assoc_map(entries.drop_last()).insert(entries.last().0, entries.last().1)
    }
}

/// No key occurs in two pairs.
pub open spec fn keys_distinct<K, V>(entries: Seq<(K, V)>) -> bool {
    forall|i: int, j: int|
        0 <= i < j < entries.len() ==> (#[trigger] entries[i]).0 != (#[trigger] entries[j]).0
}

/// Some pair of `entries` has the key `key`.
pub open spec fn has_key<K, V>(entries: Seq<(K, V)>, key: K) -> bool {
    exists|i: int| 0 <= i < entries.len() && (#[trigger] entries[i]).0 == key
}

/// The map has a key exactly where some pair has it, and it is finite.
pub proof fn lemma_assoc_keys<K, V>(entries: Seq<(K, V)>, key: K)
    ensures
        assoc_map(entries).contains_key(key) <==> has_key(entries, key),
        assoc_map(entries).dom().finite(),
    decreases entries.len(),
{
    if entries.len() > 0 {
        let front = entries.drop_last();
        lemma_assoc_keys(front, key);
        if has_key(front, key) {
            let i = choose|i: int| 0 <= i < front.len() && (#[trigger] front[i]).0 == key;
            assert(entries[i].0 == key);
        }
        if entries.last().0 == key {
            assert(entries[entries.len() - 1].0 == key);
        }
        if has_key(entries, key) {
            let i = choose|i: int| 0 <= i < entries.len() && (#[trigger] entries[i]).0 == key;
            if i < front.len() {
                assert(front[i].0 == key);
            }
        }
    }
}

/// Where no key occurs twice, each pair's key maps to that pair's value.
pub proof fn lemma_assoc_value<K, V>(entries: Seq<(K, V)>, i: int)
    requires
        keys_distinct(entries),
        0 <= i < entries.len(),
    ensures
        assoc_map(entries).contains_key(entries[i].0),
        assoc_map(entries)[entries[i].0] == entries[i].1,
    decreases entries.len(),
{
    let front = entries.drop_last();
    if i < entries.len() - 1 {
        assert(forall|a: int| 0 <= a < front.len() ==> front[a] == entries[a]);
        lemma_assoc_value(front, i);
        assert(entries[i].0 != entries[entries.len() - 1].0);
    }
}

/// Appending a pair inserts it into the map.
pub proof fn lemma_assoc_push<K, V>(entries: Seq<(K, V)>, key: K, value: V)
    ensures
        assoc_map(entries.push((key, value))) == assoc_map(entries).insert(key, value),
{
    assert(entries.push((key, value)).drop_last() =~= entries);
}

/// Where no key occurs twice, putting a new value in the place of a pair,
/// under the same key, inserts it into the map.
pub proof fn lemma_assoc_update<K, V>(entries: Seq<(K, V)>, i: int, value: V)
    requires
        keys_distinct(entries),
        0 <= i < entries.len(),
    ensures
        keys_distinct(entries.update(i, (entries[i].0, value))),
        assoc_map(entries.update(i, (entries[i].0, value))) == assoc_map(entries).insert(
            entries[i].0,
            value,
        ),
{
    let key = entries[i].0;
    let after = entries.update(i, (key, value));
    let target = assoc_map(entries).insert(key, value);
    assert(keys_distinct(after)) by {
        assert forall|a: int, b: int| 0 <= a < b < after.len() implies (#[trigger] after[a]).0 != (
        #[trigger] after[b]).0 by {
            assert(after[a].0 == entries[a].0);
            assert(after[b].0 == entries[b].0);
        }
    }
    assert forall|k: K| assoc_map(after).contains_key(k) <==> target.contains_key(k) by {
        lemma_assoc_keys(after, k);
        lemma_assoc_keys(entries, k);
        if has_key(after, k) {
            let a = choose|a: int| 0 <= a < after.len() && (#[trigger] after[a]).0 == k;
            assert(entries[a].0 == k);
        }
        if has_key(entries, k) {
            let a = choose|a: int| 0 <= a < entries.len() && (#[trigger] entries[a]).0 == k;
            assert(after[a].0 == k);
        }
        if k == key {
            assert(entries[i].0 == k);
        }
    }
    assert forall|k: K| assoc_map(after).contains_key(k) implies assoc_map(after)[k] == target[k] by {
        lemma_assoc_keys(after, k);
        let a = choose|a: int| 0 <= a < after.len() && (#[trigger] after[a]).0 == k;
        lemma_assoc_value(after, a);
        if a != i {
            lemma_assoc_value(entries, a);
            assert(entries[a].0 != entries[i].0);
        }
    }
    assert(assoc_map(after) =~= target);
}

/// Where no key occurs twice, taking a pair out removes its key from the map.
pub proof fn lemma_assoc_remove<K, V>(entries: Seq<(K, V)>, i: int)
    requires
        keys_distinct(entries),
        0 <= i < entries.len(),
    ensures
        keys_distinct(entries.remove(i)),
        assoc_map(entries.remove(i)) == assoc_map(entries).remove(entries[i].0),
{
    let key = entries[i].0;
    let after = entries.remove(i);
    let target = assoc_map(entries).remove(key);
    assert(keys_distinct(after)) by {
        assert forall|a: int, b: int| 0 <= a < b < after.len() implies (#[trigger] after[a]).0 != (
        #[trigger] after[b]).0 by {
            let a0 = if a < i { a } else { a + 1 };
            let b0 = if b < i { b } else { b + 1 };
            assert(after[a] == entries[a0]);
            assert(after[b] == entries[b0]);
        }
    }
    assert forall|k: K| assoc_map(after).contains_key(k) <==> target.contains_key(k) by {
        lemma_assoc_keys(after, k);
        lemma_assoc_keys(entries, k);
        if has_key(after, k) {
            let a = choose|a: int| 0 <= a < after.len() && (#[trigger] after[a]).0 == k;
            let a0 = if a < i { a } else { a + 1 };
            assert(after[a] == entries[a0]);
            assert(entries[a0].0 == k);
            assert(a0 != i);
            if a0 < i {
                assert(entries[a0].0 != entries[i].0);
            } else {
                assert(entries[i].0 != entries[a0].0);
            }
        }
        if has_key(entries, k) && k != key {
            let a = choose|a: int| 0 <= a < entries.len() && (#[trigger] entries[a]).0 == k;
            let a1 = if a < i { a } else { a - 1 };
            assert(after[a1] == entries[a]);
            assert(after[a1].0 == k);
        }
    }
    assert forall|k: K| assoc_map(after).contains_key(k) implies assoc_map(after)[k] == target[k] by {
        lemma_assoc_keys(after, k);
        let a = choose|a: int| 0 <= a < after.len() && (#[trigger] after[a]).0 == k;
        let a0 = if a < i { a } else { a + 1 };
        assert(after[a] == entries[a0]);
        lemma_assoc_value(after, a);
        lemma_assoc_value(entries, a0);
    }
    assert(assoc_map(after) =~= target);
}

} // verus!
