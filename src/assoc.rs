use vstd::prelude::*;

verus! {

/// No key occurs twice in the list.
pub open spec fn unique_keys<K, V>(v: Seq<(K, V)>) -> bool {
    forall|i: int, j: int| 0 <= i < v.len() && 0 <= j < v.len() && i != j ==> v[i].0 != v[j].0
}

/// Whether `k` is the key at some position of the list.
pub open spec fn has_key<K, V>(v: Seq<(K, V)>, k: K) -> bool {
    exists|i: int| 0 <= i < v.len() && v[i].0 == k
}

/// The map that an association list stands for.
pub open spec fn pairs_map<K, V>(v: Seq<(K, V)>) -> Map<K, V> {
    Map::new(
        |k: K| has_key(v, k),
        |k: K| v[choose|i: int| 0 <= i < v.len() && v[i].0 == k].1,
    )
}

/// In a list without repeated keys, each entry is what the map holds for its key.
pub proof fn lemma_lookup<K, V>(v: Seq<(K, V)>)
    requires
        unique_keys(v),
    ensures
        forall|i: int|
            0 <= i < v.len() ==> #[trigger] pairs_map(v).contains_key(v[i].0) && pairs_map(v)[v[i].0]
                == v[i].1,
{
    assert forall|i: int| 0 <= i < v.len() implies #[trigger] pairs_map(v).contains_key(v[i].0)
        && pairs_map(v)[v[i].0] == v[i].1 by {
        let k = v[i].0;
        assert(has_key(v, k));
        let j = choose|j: int| 0 <= j < v.len() && v[j].0 == k;
        assert(j == i);
    }
}

/// Appending an entry under a new key inserts it into the map.
pub proof fn lemma_push<K, V>(v: Seq<(K, V)>, k: K, x: V)
    requires
        unique_keys(v),
        !has_key(v, k),
    ensures
        unique_keys(v.push((k, x))),
        pairs_map(v.push((k, x))) == pairs_map(v).insert(k, x),
{
    let w = v.push((k, x));
    assert forall|i: int, j: int| 0 <= i < w.len() && 0 <= j < w.len() && i != j implies w[i].0
        != w[j].0 by {
        if i < v.len() && j < v.len() {
            assert(w[i] == v[i] && w[j] == v[j]);
        } else if i < v.len() {
            assert(w[i] == v[i]);
        } else {
            assert(w[j] == v[j]);
        }
    }
    lemma_lookup(v);
    lemma_lookup(w);
    assert forall|q: K| #[trigger] pairs_map(w).contains_key(q) == pairs_map(v).insert(
        k,
        x,
    ).contains_key(q) by {
        if has_key(v, q) {
            let i = choose|i: int| 0 <= i < v.len() && v[i].0 == q;
            assert(w[i] == v[i]);
        }
        if has_key(w, q) {
            let i = choose|i: int| 0 <= i < w.len() && w[i].0 == q;
            if i < v.len() {
                assert(w[i] == v[i]);
            }
        }
        if q == k {
            assert(w[v.len() as int].0 == k);
        }
    }
    assert forall|q: K| #[trigger] pairs_map(w).contains_key(q) implies pairs_map(w)[q]
        == pairs_map(v).insert(k, x)[q] by {
        if q == k {
            assert(w[v.len() as int] == (k, x));
        } else {
            let i = choose|i: int| 0 <= i < v.len() && v[i].0 == q;
            assert(w[i] == v[i]);
        }
    }
    assert(pairs_map(w) =~= pairs_map(v).insert(k, x));
}

/// Replacing the value of an entry replaces it in the map.
pub proof fn lemma_update<K, V>(v: Seq<(K, V)>, i: int, x: V)
    requires
        unique_keys(v),
        0 <= i < v.len(),
    ensures
        unique_keys(v.update(i, (v[i].0, x))),
        pairs_map(v.update(i, (v[i].0, x))) == pairs_map(v).insert(v[i].0, x),
{
    let k = v[i].0;
    let w = v.update(i, (k, x));
    assert forall|a: int, b: int| 0 <= a < w.len() && 0 <= b < w.len() && a != b implies w[a].0
        != w[b].0 by {
        assert(w[a].0 == v[a].0 && w[b].0 == v[b].0);
    }
    lemma_lookup(v);
    lemma_lookup(w);
    assert forall|q: K| #[trigger] pairs_map(w).contains_key(q) == pairs_map(v).insert(
        k,
        x,
    ).contains_key(q) by {
        if has_key(v, q) {
            let j = choose|j: int| 0 <= j < v.len() && v[j].0 == q;
            assert(w[j].0 == v[j].0);
        }
        if has_key(w, q) {
            let j = choose|j: int| 0 <= j < w.len() && w[j].0 == q;
            assert(w[j].0 == v[j].0);
        }
    }
    assert forall|q: K| #[trigger] pairs_map(w).contains_key(q) implies pairs_map(w)[q]
        == pairs_map(v).insert(k, x)[q] by {
        let j = choose|j: int| 0 <= j < w.len() && w[j].0 == q;
        if j != i {
            assert(w[j] == v[j]);
        }
    }
    assert(pairs_map(w) =~= pairs_map(v).insert(k, x));
}

/// Removing an entry removes its key from the map.
pub proof fn lemma_remove<K, V>(v: Seq<(K, V)>, i: int)
    requires
        unique_keys(v),
        0 <= i < v.len(),
    ensures
        unique_keys(v.remove(i)),
        pairs_map(v.remove(i)) == pairs_map(v).remove(v[i].0),
{
    let k = v[i].0;
    let w = v.remove(i);
    assert forall|a: int| 0 <= a < w.len() implies #[trigger] w[a] == if a < i {
        v[a]
    } else {
        v[a + 1]
    } by {}
    assert forall|a: int, b: int| 0 <= a < w.len() && 0 <= b < w.len() && a != b implies w[a].0
        != w[b].0 by {
        let a2 = if a < i { a } else { a + 1 };
        let b2 = if b < i { b } else { b + 1 };
        assert(w[a] == v[a2] && w[b] == v[b2]);
    }
    lemma_lookup(v);
    lemma_lookup(w);
    assert forall|q: K| #[trigger] pairs_map(w).contains_key(q) == pairs_map(v).remove(
        k,
    ).contains_key(q) by {
        if has_key(v, q) && q != k {
            let j = choose|j: int| 0 <= j < v.len() && v[j].0 == q;
            if j < i {
                assert(w[j] == v[j]);
            } else {
                assert(w[j - 1] == v[j]);
            }
        }
        if has_key(w, q) {
            let j = choose|j: int| 0 <= j < w.len() && w[j].0 == q;
            let j2 = if j < i { j } else { j + 1 };
            assert(w[j] == v[j2]);
        }
    }
    assert forall|q: K| #[trigger] pairs_map(w).contains_key(q) implies pairs_map(w)[q]
        == pairs_map(v).remove(k)[q] by {
        let j = choose|j: int| 0 <= j < w.len() && w[j].0 == q;
        let j2 = if j < i { j } else { j + 1 };
        assert(w[j] == v[j2]);
    }
    assert(pairs_map(w) =~= pairs_map(v).remove(k));
}

} // verus!
