//! Keyed views of vectors: a vector of records whose keys are pairwise
//! distinct is seen as a finite map from key to record.
use vstd::prelude::*;

verus! {

/// The map from key to record described by `s`; a later record wins over an
/// earlier one with the same key.
pub open spec fn index_by<A, K>(s: Seq<A>, key: spec_fn(A) -> K) -> Map<K, A>
    decreases s.len(),
{
    if s.len() == 0 {
        Map::empty()
    } else {
        index_by(s.drop_last(), key).insert(key(s.last()), s.last())
    }
}

/// No two records of `s` share a key.
pub open spec fn keys_unique<A, K>(s: Seq<A>, key: spec_fn(A) -> K) -> bool {
    forall|i: int, j: int| 0 <= i < j < s.len() ==> key(s[i]) != key(s[j])
}

/// The map's keys are exactly the keys of the records.
pub proof fn lemma_index_domain<A, K>(s: Seq<A>, key: spec_fn(A) -> K, k: K)
    ensures
        index_by(s, key).contains_key(k) <==> exists|j: int| 0 <= j < s.len() && key(s[j]) == k,
    decreases s.len(),
{
    if s.len() > 0 {
        lemma_index_domain(s.drop_last(), key, k);
        if index_by(s.drop_last(), key).contains_key(k) {
            let j = choose|j: int| 0 <= j < s.len() - 1 && key(s.drop_last()[j]) == k;
            assert(key(s[j]) == k);
        }
        if exists|j: int| 0 <= j < s.len() && key(s[j]) == k {
            let j = choose|j: int| 0 <= j < s.len() && key(s[j]) == k;
            if j < s.len() - 1 {
                assert(key(s.drop_last()[j]) == k);
            }
        }
    }
}

/// With distinct keys, each record is what the map holds under its key.
pub proof fn lemma_index_at<A, K>(s: Seq<A>, key: spec_fn(A) -> K, i: int)
    requires
        keys_unique(s, key),
        0 <= i < s.len(),
    ensures
        index_by(s, key).contains_key(key(s[i])),
        index_by(s, key)[key(s[i])] == s[i],
    decreases s.len(),
{
    if i < s.len() - 1 {
        assert(s.drop_last()[i] == s[i]);
        lemma_index_at(s.drop_last(), key, i);
    }
}

/// Appending a record adds it under its key.
pub proof fn lemma_index_push<A, K>(s: Seq<A>, key: spec_fn(A) -> K, a: A)
    ensures
        index_by(s.push(a), key) == index_by(s, key).insert(key(a), a),
{
    assert(s.push(a).drop_last() =~= s);
}

/// Appending a record whose key is new keeps the keys distinct.
pub proof fn lemma_unique_push<A, K>(s: Seq<A>, key: spec_fn(A) -> K, a: A)
    requires
        keys_unique(s, key),
        !index_by(s, key).contains_key(key(a)),
    ensures
        keys_unique(s.push(a), key),
{
    lemma_index_domain(s, key, key(a));
    assert forall|i: int, j: int| 0 <= i < j < s.push(a).len() implies key(s.push(a)[i]) != key(
        s.push(a)[j],
    ) by {
        if j == s.len() {
            assert(s.push(a)[i] == s[i]);
        }
    }
}

/// Removing the record at `i` removes its key from the map, and keeps the
/// remaining keys distinct.
pub proof fn lemma_index_remove<A, K>(s: Seq<A>, key: spec_fn(A) -> K, i: int)
    requires
        keys_unique(s, key),
        0 <= i < s.len(),
    ensures
        index_by(s.remove(i), key) == index_by(s, key).remove(key(s[i])),
        keys_unique(s.remove(i), key),
    decreases s.len(),
{
    let k = key(s[i]);
    let t = s.drop_last();
    assert(keys_unique(t, key));
    if i == s.len() - 1 {
        assert(s.remove(i) =~= t);
        lemma_index_domain(t, key, k);
        assert(index_by(t, key) =~= index_by(s, key).remove(k));
    } else {
        assert(t[i] == s[i]);
        lemma_index_remove(t, key, i);
        assert(s.remove(i) =~= t.remove(i).push(s.last()));
        lemma_index_push(t.remove(i), key, s.last());
        assert(key(s.last()) != k);
        assert(index_by(s.remove(i), key) =~= index_by(s, key).remove(k));
        assert forall|a: int, b: int| 0 <= a < b < s.remove(i).len() implies key(
            s.remove(i)[a],
        ) != key(s.remove(i)[b]) by {
            let a0 = if a < i { a } else { a + 1 };
            let b0 = if b < i { b } else { b + 1 };
            assert(s.remove(i)[a] == s[a0]);
            assert(s.remove(i)[b] == s[b0]);
        }
    }
}

} // verus!
