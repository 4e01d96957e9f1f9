//! Association tables: a sequence of key-value pairs with distinct keys,
//! read as a map.

use vstd::prelude::*;

verus! {

/// No key occurs twice in `s`.
pub open spec fn distinct_keys<K, V>(s: Seq<(K, V)>) -> bool {
    forall|i: int, j: int|
        0 <= i < s.len() && 0 <= j < s.len() && (#[trigger] s[i]).0 == (#[trigger] s[j]).0 ==> i
            == j
}

/// Some pair of `s` has the key `k`.
pub open spec fn has_key<K, V>(s: Seq<(K, V)>, k: K) -> bool {
    exists|i: int| 0 <= i < s.len() && (#[trigger] s[i]).0 == k
}

/// The place of a pair of `s` with the key `k`.
pub open spec fn key_index<K, V>(s: Seq<(K, V)>, k: K) -> int {
    choose|i: int| 0 <= i < s.len() && (#[trigger] s[i]).0 == k
}

/// The map that `s` spells: each key with the value paired to it.
pub open spec fn table_of<K, V>(s: Seq<(K, V)>) -> Map<K, V> {
    Map::new(|k: K| has_key(s, k), |k: K| s[key_index(s, k)].1)
}

/// The pair at place `i` is what the table holds under its key.
pub proof fn lemma_table_found<K, V>(s: Seq<(K, V)>, i: int)
    requires
        distinct_keys(s),
        0 <= i < s.len(),
    ensures
        table_of(s).get(s[i].0) == Some(s[i].1),
{
    let k = s[i].0;
    assert(has_key(s, k));
    let j = key_index(s, k);
    assert(s[j].0 == s[i].0);
}

/// A key that no pair has is not in the table.
pub proof fn lemma_table_absent<K, V>(s: Seq<(K, V)>, k: K)
    requires
        forall|i: int| 0 <= i < s.len() ==> (#[trigger] s[i]).0 != k,
    ensures
        table_of(s).get(k) is None,
{
}

/// Replacing the value at place `i` is an insertion under that place's key.
pub proof fn lemma_table_update<K, V>(s: Seq<(K, V)>, i: int, v: V)
    requires
        distinct_keys(s),
        0 <= i < s.len(),
    ensures
        distinct_keys(s.update(i, (s[i].0, v))),
        table_of(s.update(i, (s[i].0, v))) == table_of(s).insert(s[i].0, v),
{
    let k = s[i].0;
    let t = s.update(i, (k, v));
    assert forall|a: int, b: int|
        0 <= a < t.len() && 0 <= b < t.len() && (#[trigger] t[a]).0 == (#[trigger] t[b]).0 implies a
        == b by {
        assert(s[a].0 == t[a].0);
        assert(s[b].0 == t[b].0);
    }
    assert forall|q: K| has_key(t, q) == (has_key(s, q) || q == k) by {
        if has_key(t, q) {
            let j = key_index(t, q);
            assert(s[j].0 == t[j].0);
        }
        if has_key(s, q) {
            let j = key_index(s, q);
            assert(t[j].0 == s[j].0);
        }
        if q == k {
            assert(t[i].0 == k);
        }
    }
    assert forall|q: K| has_key(t, q) implies #[trigger] table_of(t)[q] == table_of(s).insert(
        k,
        v,
    )[q] by {
        let j = key_index(t, q);
        assert(t[j].0 == q);
        if q == k {
            assert(t[i].0 == k);
            assert(j == i);
        } else {
            assert(s[j].0 == q);
            let j2 = key_index(s, q);
            assert(s[j2].0 == q);
            assert(j2 == j);
        }
    }
    assert(table_of(t) =~= table_of(s).insert(k, v));
}

/// Appending a pair with a new key is an insertion under that key.
pub proof fn lemma_table_push<K, V>(s: Seq<(K, V)>, k: K, v: V)
    requires
        distinct_keys(s),
        forall|i: int| 0 <= i < s.len() ==> (#[trigger] s[i]).0 != k,
    ensures
        distinct_keys(s.push((k, v))),
        table_of(s.push((k, v))) == table_of(s).insert(k, v),
{
    let t = s.push((k, v));
    let n = s.len() as int;
    assert forall|a: int, b: int|
        0 <= a < t.len() && 0 <= b < t.len() && (#[trigger] t[a]).0 == (#[trigger] t[b]).0 implies a
        == b by {
        if a < n {
            assert(s[a].0 == t[a].0);
        }
        if b < n {
            assert(s[b].0 == t[b].0);
        }
    }
    assert forall|q: K| has_key(t, q) == (has_key(s, q) || q == k) by {
        if has_key(t, q) {
            let j = key_index(t, q);
            if j < n {
                assert(s[j].0 == t[j].0);
            }
        }
        if has_key(s, q) {
            let j = key_index(s, q);
            assert(t[j].0 == s[j].0);
        }
        if q == k {
            assert(t[n].0 == k);
        }
    }
    assert forall|q: K| has_key(t, q) implies #[trigger] table_of(t)[q] == table_of(s).insert(
        k,
        v,
    )[q] by {
        let j = key_index(t, q);
        assert(t[j].0 == q);
        if q == k {
            assert(t[n].0 == k);
            assert(j == n);
        } else {
            assert(j < n);
            assert(s[j].0 == q);
            let j2 = key_index(s, q);
            assert(s[j2].0 == q);
            assert(t[j2].0 == q);
            assert(j2 == j);
        }
    }
    assert(table_of(t) =~= table_of(s).insert(k, v));
}

} // verus!
