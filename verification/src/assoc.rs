//! Association lists: a sequence of distinct keys beside a sequence of
//! values, read as a map.

use vstd::prelude::*;

verus! {

/// The map that sends each key to the value at the key's place.
pub open spec fn assoc_map<K, V>(keys: Seq<K>, vals: Seq<V>) -> Map<K, V> {
    Map::new(|k: K| keys.contains(k), |k: K| vals[keys.index_of(k)])
}

/// Among distinct keys, a key is found at its own place.
pub proof fn lemma_index_of<K>(keys: Seq<K>, i: int)
    requires
        keys.no_duplicates(),
        0 <= i < keys.len(),
    ensures
        keys.contains(keys[i]),
        keys.index_of(keys[i]) == i,
{
    let j = keys.index_of(keys[i]);
    assert(0 <= j < keys.len() && keys[j] == keys[i]);
}

/// What the map holds for the key at place `i`.
pub proof fn lemma_assoc_at<K, V>(keys: Seq<K>, vals: Seq<V>, i: int)
    requires
        keys.no_duplicates(),
        keys.len() == vals.len(),
        0 <= i < keys.len(),
    ensures
        assoc_map(keys, vals).contains_key(keys[i]),
        assoc_map(keys, vals)[keys[i]] == vals[i],
{
    lemma_index_of(keys, i);
}

/// Appending a new key with its value inserts it into the map.
pub proof fn lemma_assoc_push<K, V>(keys: Seq<K>, vals: Seq<V>, k: K, v: V)
    requires
        keys.no_duplicates(),
        keys.len() == vals.len(),
        !keys.contains(k),
    ensures
        keys.push(k).no_duplicates(),
        assoc_map(keys.push(k), vals.push(v)) == assoc_map(keys, vals).insert(k, v),
{
    let keys2 = keys.push(k);
    let vals2 = vals.push(v);
    assert forall|i: int, j: int| 0 <= i < keys2.len() && 0 <= j < keys2.len() && i != j implies keys2[i]
        != keys2[j] by {
        if i < keys.len() && j < keys.len() {
        } else if i < keys.len() {
            assert(keys.contains(keys[i]));
        } else {
            assert(keys.contains(keys[j]));
        }
    }
    assert forall|x: K| #[trigger] keys2.contains(x) <==> (keys.contains(x) || x == k) by {
        if keys.contains(x) {
            let i = keys.index_of(x);
            assert(keys2[i] == x);
        }
        if x == k {
            assert(keys2[keys.len() as int] == k);
        }
        if keys2.contains(x) {
            let i = keys2.index_of(x);
            if i < keys.len() {
                assert(keys[i] == x);
            }
        }
    }
    assert forall|x: K| keys2.contains(x) implies #[trigger] assoc_map(keys2, vals2)[x] == assoc_map(
        keys,
        vals,
    ).insert(k, v)[x] by {
        let i = keys2.index_of(x);
        lemma_index_of(keys2, i);
        if i < keys.len() {
            lemma_index_of(keys, i);
        }
    }
    assert(assoc_map(keys2, vals2) =~= assoc_map(keys, vals).insert(k, v));
}

/// Taking out the key at place `i` with its value removes it from the map.
pub proof fn lemma_assoc_remove<K, V>(keys: Seq<K>, vals: Seq<V>, i: int)
    requires
        keys.no_duplicates(),
        keys.len() == vals.len(),
        0 <= i < keys.len(),
    ensures
        keys.remove(i).no_duplicates(),
        !keys.remove(i).contains(keys[i]),
        assoc_map(keys.remove(i), vals.remove(i)) == assoc_map(keys, vals).remove(keys[i]),
{
    let keys2 = keys.remove(i);
    let vals2 = vals.remove(i);
    assert forall|a: int, b: int| 0 <= a < keys2.len() && 0 <= b < keys2.len() && a != b implies keys2[a]
        != keys2[b] by {
        let a1 = if a < i { a } else { a + 1 };
        let b1 = if b < i { b } else { b + 1 };
        assert(keys2[a] == keys[a1]);
        assert(keys2[b] == keys[b1]);
    }
    assert forall|x: K| #[trigger] keys2.contains(x) <==> (keys.contains(x) && x != keys[i]) by {
        if keys2.contains(x) {
            let a = keys2.index_of(x);
            let a1 = if a < i { a } else { a + 1 };
            assert(keys[a1] == x);
        }
        if keys.contains(x) && x != keys[i] {
            let a1 = keys.index_of(x);
            let a = if a1 < i { a1 } else { a1 - 1 };
            assert(keys2[a] == x);
        }
    }
    assert forall|x: K| keys2.contains(x) implies #[trigger] assoc_map(keys2, vals2)[x] == assoc_map(
        keys,
        vals,
    )[x] by {
        let a = keys2.index_of(x);
        lemma_index_of(keys2, a);
        let a1 = if a < i { a } else { a + 1 };
        assert(keys[a1] == x);
        lemma_index_of(keys, a1);
    }
    assert(assoc_map(keys2, vals2) =~= assoc_map(keys, vals).remove(keys[i]));
}

/// Replacing the value at place `i` overwrites the map at the key there.
pub proof fn lemma_assoc_update<K, V>(keys: Seq<K>, vals: Seq<V>, i: int, v: V)
    requires
        keys.no_duplicates(),
        keys.len() == vals.len(),
        0 <= i < keys.len(),
    ensures
        assoc_map(keys, vals.update(i, v)) == assoc_map(keys, vals).insert(keys[i], v),
{
    lemma_index_of(keys, i);
    assert forall|x: K| keys.contains(x) implies #[trigger] assoc_map(keys, vals.update(i, v))[x]
        == assoc_map(keys, vals).insert(keys[i], v)[x] by {
        let a = keys.index_of(x);
        lemma_index_of(keys, a);
    }
    assert(assoc_map(keys, vals.update(i, v)) =~= assoc_map(keys, vals).insert(keys[i], v));
}

} // verus!
