//! Association lists, and the map that such a list stands for.
//!
//! A list may name a key more than once; the first entry with a key is the one
//! that counts.

use vstd::prelude::*;

verus! {

/// The map that a list of key/value pairs stands for: each key is bound to the
/// value of the first pair that names it.
pub open spec fn assoc<K, T>(pairs: Seq<(K, T)>) -> Map<K, T>
    decreases pairs.len(),
{
    if pairs.len() == 0 {
        Map::empty()
    } else {
        let front = assoc(pairs.drop_last());
        let last = pairs.last();
        if front.contains_key(last.0) {
            front
        } else {
            front.insert(last.0, last.1)
        }
    }
}

/// `i` is the first position of `pairs` whose key is `key`.
pub open spec fn is_first<K, T>(pairs: Seq<(K, T)>, key: K, i: int) -> bool {
    &&& 0 <= i < pairs.len()
    &&& pairs[i].0 == key
    &&& forall|j: int| 0 <= j < i ==> (#[trigger] pairs[j]).0 != key
}

/// No pair of `pairs` has the key `key`.
pub open spec fn is_absent<K, T>(pairs: Seq<(K, T)>, key: K) -> bool {
    forall|j: int| 0 <= j < pairs.len() ==> (#[trigger] pairs[j]).0 != key
}

/// The keys of a list, in order.
pub open spec fn keys_of<V>(entries: Seq<(String, V)>) -> Seq<Seq<char>> {
    Seq::new(entries.len(), |i: int| entries[i].0@)
}

/// The map of a list is finite.
pub proof fn lemma_assoc_finite<K, T>(pairs: Seq<(K, T)>)
    ensures
        assoc(pairs).dom().finite(),
    decreases pairs.len(),
{
    if pairs.len() > 0 {
        lemma_assoc_finite(pairs.drop_last());
    }
}

/// The map of a list with one more pair at its end: the pair adds its key unless
/// the list already has it.
pub proof fn lemma_assoc_push<K, T>(pairs: Seq<(K, T)>, key: K, value: T)
    ensures
        assoc(pairs.push((key, value))) == if assoc(pairs).contains_key(key) {
            assoc(pairs)
        } else {
            assoc(pairs).insert(key, value)
        },
{
    assert(pairs.push((key, value)).drop_last() =~= pairs);
}

/// Replacing the first pair that names a key rebinds the key, and nothing else.
pub proof fn lemma_assoc_update<K, T>(pairs: Seq<(K, T)>, key: K, i: int, value: T)
    requires
        is_first(pairs, key, i),
    ensures
        assoc(pairs.update(i, (key, value))) == assoc(pairs).insert(key, value),
    decreases pairs.len(),
{
    let changed = pairs.update(i, (key, value));
    let front = pairs.drop_last();
    if i == pairs.len() - 1 {
        assert(changed.drop_last() =~= front);
        assert forall|j: int| 0 <= j < front.len() implies (#[trigger] front[j]).0 != key by {
            assert(front[j] == pairs[j]);
        }
        lemma_assoc_absent(front, key);
        assert(changed.last() == (key, value));
        assert(pairs.last() == pairs[i]);
        assert(assoc(changed) =~= assoc(pairs).insert(key, value));
    } else {
        assert(changed.drop_last() =~= front.update(i, (key, value)));
        assert(front[i] == pairs[i]);
        assert forall|j: int| 0 <= j < i implies (#[trigger] front[j]).0 != key by {
            assert(front[j] == pairs[j]);
        }
        lemma_assoc_update(front, key, i, value);
        lemma_assoc_first(front, key, i);
        assert(changed.last() == pairs.last());
        assert(assoc(changed) =~= assoc(pairs).insert(key, value));
    }
}

/// A list without the pairs that name `key`.
pub open spec fn without<K, T>(pairs: Seq<(K, T)>, key: K) -> Seq<(K, T)>
    decreases pairs.len(),
{
    if pairs.len() == 0 {
        Seq::empty()
    } else if pairs.last().0 == key {
        without(pairs.drop_last(), key)
    } else {
        without(pairs.drop_last(), key).push(pairs.last())
    }
}

/// Dropping the pairs that name a key unbinds the key, and nothing else.
pub proof fn lemma_assoc_without<K, T>(pairs: Seq<(K, T)>, key: K)
    ensures
        assoc(without(pairs, key)) == assoc(pairs).remove(key),
    decreases pairs.len(),
{
    if pairs.len() == 0 {
        assert(assoc(without(pairs, key)) =~= assoc(pairs).remove(key));
    } else {
        let front = pairs.drop_last();
        let last = pairs.last();
        lemma_assoc_without(front, key);
        if last.0 != key {
            lemma_assoc_push(without(front, key), last.0, last.1);
        }
        assert(assoc(without(pairs, key)) =~= assoc(pairs).remove(key));
    }
}

/// A key that no pair names is not in the map.
pub proof fn lemma_assoc_absent<K, T>(pairs: Seq<(K, T)>, key: K)
    requires
        is_absent(pairs, key),
    ensures
        !assoc(pairs).contains_key(key),
    decreases pairs.len(),
{
    if pairs.len() > 0 {
        let front = pairs.drop_last();
        assert forall|j: int| 0 <= j < front.len() implies (#[trigger] front[j]).0 != key by {
            assert(front[j] == pairs[j]);
        }
        lemma_assoc_absent(front, key);
        assert(pairs.last() == pairs[pairs.len() - 1]);
    }
}

/// The map binds a key to the value of the first pair that names it.
pub proof fn lemma_assoc_first<K, T>(pairs: Seq<(K, T)>, key: K, i: int)
    requires
        is_first(pairs, key, i),
    ensures
        assoc(pairs).contains_key(key),
        assoc(pairs)[key] == pairs[i].1,
    decreases pairs.len(),
{
    let front = pairs.drop_last();
    if i == pairs.len() - 1 {
        assert forall|j: int| 0 <= j < front.len() implies (#[trigger] front[j]).0 != key by {
            assert(front[j] == pairs[j]);
        }
        lemma_assoc_absent(front, key);
    } else {
        assert(front[i] == pairs[i]);
        assert forall|j: int| 0 <= j < i implies (#[trigger] front[j]).0 != key by {
            assert(front[j] == pairs[j]);
        }
        lemma_assoc_first(front, key, i);
    }
}

/// A key that is not in the map is named by no pair.
pub proof fn lemma_assoc_missing<K, T>(pairs: Seq<(K, T)>, key: K)
    requires
        !assoc(pairs).contains_key(key),
    ensures
        is_absent(pairs, key),
{
    assert forall|j: int| 0 <= j < pairs.len() implies (#[trigger] pairs[j]).0 != key by {
        if pairs[j].0 == key {
            lemma_first_exists(pairs, key, j);
            let f = choose|f: int| is_first(pairs, key, f);
            lemma_assoc_first(pairs, key, f);
        }
    }
}

/// A key of the map is named by some pair, and so has a first pair.
pub proof fn lemma_assoc_present<K, T>(pairs: Seq<(K, T)>, key: K) -> (i: int)
    requires
        assoc(pairs).contains_key(key),
    ensures
        is_first(pairs, key, i),
        assoc(pairs)[key] == pairs[i].1,
    decreases pairs.len(),
{
    let front = pairs.drop_last();
    if assoc(front).contains_key(key) {
        let i = lemma_assoc_present(front, key);
        assert(front[i] == pairs[i]);
        assert forall|j: int| 0 <= j < i implies (#[trigger] pairs[j]).0 != key by {
            assert(front[j] == pairs[j]);
        }
        i
    } else {
        let i = pairs.len() - 1;
        assert forall|j: int| 0 <= j < i implies (#[trigger] pairs[j]).0 != key by {
            if pairs[j].0 == key {
                assert(front[j] == pairs[j]);
                lemma_first_exists(front, key, j);
                let f = choose|f: int| is_first(front, key, f);
                lemma_assoc_first(front, key, f);
            }
        }
        i
    }
}

/// Where some pair names a key, a first such pair exists.
pub proof fn lemma_first_exists<K, T>(pairs: Seq<(K, T)>, key: K, j: int)
    requires
        0 <= j < pairs.len(),
        pairs[j].0 == key,
    ensures
        exists|f: int| is_first(pairs, key, f),
    decreases j,
{
    if exists|k: int| 0 <= k < j && (#[trigger] pairs[k]).0 == key {
        let k = choose|k: int| 0 <= k < j && (#[trigger] pairs[k]).0 == key;
        lemma_first_exists(pairs, key, k);
    } else {
        assert(is_first(pairs, key, j));
    }
}

/// The position of the first entry of `entries` whose key is `key`.
pub fn find<V>(entries: &Vec<(String, V)>, key: &str) -> (r: Option<usize>)
    ensures
        match r {
            Some(i) => i < entries@.len() && keys_of(entries@)[i as int] == key@ && forall|j: int|
                0 <= j < i ==> #[trigger] keys_of(entries@)[j] != key@,
            None => forall|j: int|
                0 <= j < entries@.len() ==> #[trigger] keys_of(entries@)[j] != key@,
        },
{
    let wanted: String = key.to_owned();
    let mut i: usize = 0;
    while i < entries.len()
        invariant
            i <= entries@.len(),
            wanted@ == key@,
            forall|j: int| 0 <= j < i ==> #[trigger] keys_of(entries@)[j] != key@,
        decreases entries@.len() - i,
    {
        if entries[i].0 == wanted {
            return Some(i);
        }
        i = i + 1;
    }
    None
}

} // verus!
