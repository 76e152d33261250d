//! Sequences of records with unique keys, read as maps from key to record.
//! The registry of agent profiles and the pool of voice sessions are both
//! stored this way; the lemmas here connect edits of the sequence to edits
//! of the map it stands for.

use vstd::prelude::*;

verus! {

/// No two records of `s` share a key.
pub open spec fn keys_unique<K, T>(s: Seq<T>, key: spec_fn(T) -> K) -> bool {
    forall|i: int, j: int| 0 <= i < j < s.len() ==> key(#[trigger] s[i]) != key(#[trigger] s[j])
}

/// The map from key to record that `s` stands for (a later record wins).
pub open spec fn keyed_map<K, T>(s: Seq<T>, key: spec_fn(T) -> K) -> Map<K, T>
    decreases s.len(),
{
    if s.len() == 0 {
        Map::empty()
    } else {
        keyed_map(s.drop_last(), key).insert(key(s.last()), s.last())
    }
}

/// The map that a sequence stands for has finitely many keys.
pub proof fn lemma_keyed_map_finite<K, T>(s: Seq<T>, key: spec_fn(T) -> K)
    ensures
        keyed_map(s, key).dom().finite(),
    decreases s.len(),
{
    if s.len() > 0 {
        lemma_keyed_map_finite(s.drop_last(), key);
    }
}

/// A key is in the map exactly when some record carries it.
pub proof fn lemma_keyed_map_contains<K, T>(s: Seq<T>, key: spec_fn(T) -> K, k: K)
    ensures
        keyed_map(s, key).contains_key(k) <==> exists|i: int| 0 <= i < s.len() && key(s[i]) == k,
    decreases s.len(),
{
    if s.len() > 0 {
        lemma_keyed_map_contains(s.drop_last(), key, k);
        if keyed_map(s, key).contains_key(k) {
            if key(s.last()) == k {
                assert(key(s[s.len() - 1]) == k);
            } else {
                let i = choose|i: int| 0 <= i < s.drop_last().len() && key(s.drop_last()[i]) == k;
                assert(key(s[i]) == k);
            }
        }
        if exists|i: int| 0 <= i < s.len() && key(s[i]) == k {
            let i = choose|i: int| 0 <= i < s.len() && key(s[i]) == k;
            if i < s.len() - 1 {
                assert(key(s.drop_last()[i]) == k);
            }
        }
    }
}

/// With unique keys, every record is found under its own key.
pub proof fn lemma_keyed_map_at<K, T>(s: Seq<T>, key: spec_fn(T) -> K, i: int)
    requires
        keys_unique(s, key),
        0 <= i < s.len(),
    ensures
        keyed_map(s, key).contains_key(key(s[i])),
        keyed_map(s, key)[key(s[i])] == s[i],
    decreases s.len(),
{
    if i < s.len() - 1 {
        let prefix = s.drop_last();
        assert(keys_unique(prefix, key)) by {
            assert forall|a: int, b: int| 0 <= a < b < prefix.len() implies key(
                #[trigger] prefix[a],
            ) != key(#[trigger] prefix[b]) by {
                assert(prefix[a] == s[a] && prefix[b] == s[b]);
            }
        }
        lemma_keyed_map_at(prefix, key, i);
        assert(prefix[i] == s[i]);
        assert(key(s[i]) != key(s[s.len() - 1]));
    }
}

/// With unique keys, the map has as many entries as the sequence has records.
pub proof fn lemma_keyed_map_len<K, T>(s: Seq<T>, key: spec_fn(T) -> K)
    requires
        keys_unique(s, key),
    ensures
        keyed_map(s, key).dom().finite(),
        keyed_map(s, key).len() == s.len(),
    decreases s.len(),
{
    if s.len() > 0 {
        let prefix = s.drop_last();
        assert(keys_unique(prefix, key)) by {
            assert forall|a: int, b: int| 0 <= a < b < prefix.len() implies key(
                #[trigger] prefix[a],
            ) != key(#[trigger] prefix[b]) by {
                assert(prefix[a] == s[a] && prefix[b] == s[b]);
            }
        }
        lemma_keyed_map_len(prefix, key);
        lemma_keyed_map_contains(prefix, key, key(s.last()));
        if keyed_map(prefix, key).contains_key(key(s.last())) {
            let i = choose|i: int| 0 <= i < prefix.len() && key(prefix[i]) == key(s.last());
            assert(key(s[i]) == key(s[s.len() - 1]));
        }
    }
}

/// Appending a record with a fresh key adds one entry and keeps keys unique.
pub proof fn lemma_keyed_map_push<K, T>(s: Seq<T>, key: spec_fn(T) -> K, x: T)
    requires
        keys_unique(s, key),
        !keyed_map(s, key).contains_key(key(x)),
    ensures
        keys_unique(s.push(x), key),
        keyed_map(s.push(x), key) == keyed_map(s, key).insert(key(x), x),
{
    let t = s.push(x);
    assert(t.drop_last() =~= s);
    assert forall|a: int, b: int| 0 <= a < b < t.len() implies key(#[trigger] t[a]) != key(
        #[trigger] t[b],
    ) by {
        if b == s.len() {
            lemma_keyed_map_at(s, key, a);
            assert(t[a] == s[a]);
        } else {
            assert(t[a] == s[a] && t[b] == s[b]);
        }
    }
}

/// Replacing a record by one with the same key overwrites that entry.
pub proof fn lemma_keyed_map_update<K, T>(s: Seq<T>, key: spec_fn(T) -> K, i: int, x: T)
    requires
        keys_unique(s, key),
        0 <= i < s.len(),
        key(x) == key(s[i]),
    ensures
        keys_unique(s.update(i, x), key),
        keyed_map(s.update(i, x), key) == keyed_map(s, key).insert(key(x), x),
{
    let t = s.update(i, x);
    assert forall|a: int, b: int| 0 <= a < b < t.len() implies key(#[trigger] t[a]) != key(
        #[trigger] t[b],
    ) by {
        assert(key(t[a]) == key(s[a]) && key(t[b]) == key(s[b]));
    }
    let lhs = keyed_map(t, key);
    let rhs = keyed_map(s, key).insert(key(x), x);
    assert forall|k: K| #[trigger] lhs.contains_key(k) <==> rhs.contains_key(k) by {
        lemma_keyed_map_contains(t, key, k);
        lemma_keyed_map_contains(s, key, k);
        if exists|j: int| 0 <= j < t.len() && key(t[j]) == k {
            let j = choose|j: int| 0 <= j < t.len() && key(t[j]) == k;
            assert(key(s[j]) == k);
        }
        if exists|j: int| 0 <= j < s.len() && key(s[j]) == k {
            let j = choose|j: int| 0 <= j < s.len() && key(s[j]) == k;
            assert(key(t[j]) == k);
        }
        lemma_keyed_map_at(s, key, i);
    }
    assert forall|k: K| #[trigger] lhs.contains_key(k) implies lhs[k] == rhs[k] by {
        lemma_keyed_map_contains(t, key, k);
        let j = choose|j: int| 0 <= j < t.len() && key(t[j]) == k;
        lemma_keyed_map_at(t, key, j);
        if j != i {
            assert(t[j] == s[j]);
            lemma_keyed_map_at(s, key, j);
        }
    }
    assert(lhs =~= rhs);
}

/// Keeping the records that satisfy `keep` keeps exactly the entries whose
/// record satisfies it, unchanged.
pub proof fn lemma_keyed_map_filter<K, T>(
    s: Seq<T>,
    key: spec_fn(T) -> K,
    keep: spec_fn(T) -> bool,
)
    requires
        keys_unique(s, key),
    ensures
        keys_unique(s.filter(keep), key),
        forall|k: K|
            #[trigger] keyed_map(s.filter(keep), key).contains_key(k) <==> (keyed_map(
                s,
                key,
            ).contains_key(k) && keep(keyed_map(s, key)[k])),
        forall|k: K|
            #[trigger] keyed_map(s.filter(keep), key).contains_key(k) ==> keyed_map(
                s.filter(keep),
                key,
            )[k] == keyed_map(s, key)[k],
    decreases s.len(),
{
    reveal(Seq::filter);
    if s.len() > 0 {
        let prefix = s.drop_last();
        let x = s.last();
        assert(keys_unique(prefix, key)) by {
            assert forall|a: int, b: int| 0 <= a < b < prefix.len() implies key(
                #[trigger] prefix[a],
            ) != key(#[trigger] prefix[b]) by {
                assert(prefix[a] == s[a] && prefix[b] == s[b]);
            }
        }
        lemma_keyed_map_filter(prefix, key, keep);
        lemma_keyed_map_contains(prefix, key, key(x));
        if keyed_map(prefix, key).contains_key(key(x)) {
            let i = choose|i: int| 0 <= i < prefix.len() && key(prefix[i]) == key(x);
            assert(key(s[i]) == key(s[s.len() - 1]));
        }
        if keep(x) {
            lemma_keyed_map_push(prefix.filter(keep), key, x);
        }
    }
}

/// A filter keeps at most as many elements as it is given.
pub proof fn lemma_filter_len_bound<T>(s: Seq<T>, keep: spec_fn(T) -> bool)
    ensures
        s.filter(keep).len() <= s.len(),
    decreases s.len(),
{
    reveal_with_fuel(Seq::filter, 1);
    if s.len() > 0 {
        lemma_filter_len_bound(s.drop_last(), keep);
    }
}

} // verus!
