//! Lists of pairs with distinct keys, and the maps they stand for.

use vstd::prelude::*;

verus! {

/// The pair at index `i` of the list has the key.
pub open spec fn key_at<K, V>(pairs: Seq<(K, V)>, key: K, i: int) -> bool {
    0 <= i < pairs.len() && pairs[i].0 == key
}

/// Some pair of the list has the key.
pub open spec fn has_key<K, V>(pairs: Seq<(K, V)>, key: K) -> bool {
    exists|i: int| key_at(pairs, key, i)
}

/// No key occurs twice in the list.
pub open spec fn distinct_keys<K, V>(pairs: Seq<(K, V)>) -> bool {
    forall|i: int, j: int| 0 <= i < j < pairs.len() ==> pairs[i].0 != pairs[j].0
}

/// The map that a list of pairs stands for: each key of the list with the
/// value beside it.
pub open spec fn map_of<K, V>(pairs: Seq<(K, V)>) -> Map<K, V> {
    Map::new(
        |key: K| has_key(pairs, key),
        |key: K| pairs[choose|i: int| key_at(pairs, key, i)].1,
    )
}

/// Where keys are distinct, the map holds each pair of the list.
pub proof fn lemma_map_of_at<K, V>(pairs: Seq<(K, V)>, i: int)
    requires
        distinct_keys(pairs),
        0 <= i < pairs.len(),
    ensures
        map_of(pairs).contains_key(pairs[i].0),
        map_of(pairs)[pairs[i].0] == pairs[i].1,
{
    // the pair that the map picks for the key can only be the one at `i`
    assert(key_at(pairs, pairs[i].0, i));
}

/// A key that no pair has is no key of the map.
pub proof fn lemma_map_of_absent<K, V>(pairs: Seq<(K, V)>, key: K)
    requires
        forall|i: int| 0 <= i < pairs.len() ==> pairs[i].0 != key,
    ensures
        !map_of(pairs).contains_key(key),
{
}

/// Appending a pair with a new key inserts it into the map.
pub proof fn lemma_map_of_push<K, V>(pairs: Seq<(K, V)>, key: K, value: V)
    requires
        distinct_keys(pairs),
        !map_of(pairs).contains_key(key),
    ensures
        distinct_keys(pairs.push((key, value))),
        map_of(pairs.push((key, value))) == map_of(pairs).insert(key, value),
{
    let longer = pairs.push((key, value));
    assert forall|i: int, j: int| 0 <= i < j < longer.len() implies longer[i].0 != longer[j].0 by {
        if j == pairs.len() {
            assert(key_at(pairs, longer[i].0, i));
        }
    }
    assert forall|k: K| #[trigger]
        map_of(longer).contains_key(k) == map_of(pairs).insert(key, value).contains_key(k) by {
        if has_key(longer, k) {
            let i = choose|i: int| key_at(longer, k, i);
            if i < pairs.len() {
                assert(key_at(pairs, k, i));
            }
        }
        if has_key(pairs, k) {
            let i = choose|i: int| key_at(pairs, k, i);
            assert(key_at(longer, k, i));
        }
        if k == key {
            assert(key_at(longer, k, pairs.len() as int));
        }
    }
    assert forall|k: K| #[trigger] map_of(longer).contains_key(k) implies map_of(longer)[k]
        == map_of(pairs).insert(key, value)[k] by {
        let i = choose|i: int| key_at(longer, k, i);
        lemma_map_of_at(longer, i);
        if i < pairs.len() {
            lemma_map_of_at(pairs, i);
        }
    }
}

/// Taking a pair out of the list removes its key from the map.
pub proof fn lemma_map_of_remove<K, V>(pairs: Seq<(K, V)>, at: int)
    requires
        distinct_keys(pairs),
        0 <= at < pairs.len(),
    ensures
        distinct_keys(pairs.remove(at)),
        map_of(pairs.remove(at)) == map_of(pairs).remove(pairs[at].0),
{
    let shorter = pairs.remove(at);
    let key = pairs[at].0;
    assert forall|k: K| #[trigger]
        map_of(shorter).contains_key(k) == map_of(pairs).remove(key).contains_key(k) by {
        if has_key(shorter, k) {
            let i = choose|i: int| key_at(shorter, k, i);
            let from = if i < at { i } else { i + 1 };
            assert(key_at(pairs, k, from));
        }
        if has_key(pairs, k) && k != key {
            let i = choose|i: int| key_at(pairs, k, i);
            let to = if i < at { i } else { i - 1 };
            assert(key_at(shorter, k, to));
        }
    }
    assert forall|k: K| #[trigger] map_of(shorter).contains_key(k) implies map_of(shorter)[k]
        == map_of(pairs).remove(key)[k] by {
        let i = choose|i: int| key_at(shorter, k, i);
        let from = if i < at { i } else { i + 1 };
        lemma_map_of_at(shorter, i);
        lemma_map_of_at(pairs, from);
    }
}

/// Where keys are distinct, the map has as many keys as the list has pairs.
pub proof fn lemma_map_of_len<K, V>(pairs: Seq<(K, V)>)
    requires
        distinct_keys(pairs),
    ensures
        map_of(pairs).dom().finite(),
        map_of(pairs).len() == pairs.len(),
    decreases pairs.len(),
{
    if pairs.len() == 0 {
        assert(map_of(pairs).dom() =~= Set::<K>::empty());
    } else {
        let rest = pairs.drop_last();
        let last = pairs.last();
        lemma_map_of_absent(rest, last.0);
        lemma_map_of_push(rest, last.0, last.1);
        assert(rest.push((last.0, last.1)) =~= pairs);
        lemma_map_of_len(rest);
    }
}

} // verus!
