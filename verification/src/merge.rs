//! The merge of two semi-structured values, and what holds of it.

use crate::assoc::{assoc, lemma_assoc_finite, lemma_assoc_present};
use crate::json::{lemma_list_data, lemma_pairs_data, list_data, pairs_data, Data, Json};
use vstd::prelude::*;

verus! {

/// The longer of two lengths.
pub open spec fn longer(m: nat, n: nat) -> nat {
    if m >= n {
        m
    } else {
        n
    }
}

/// The merge of two lists: item by item where both have one, else the item of
/// the list that has one.
pub open spec fn merge_lists(x: Seq<Data>, y: Seq<Data>) -> Seq<Data>
    decreases x,
{
    Seq::new(
        longer(x.len(), y.len()),
        |i: int|
            if 0 <= i < x.len() && i < y.len() {
                merge(x[i], y[i])
            } else if 0 <= i < x.len() {
                x[i]
            } else {
                y[i]
            },
    )
}

/// The merge of an earlier value `a` with a later value `b`. Two lists merge
/// item by item. Two tables merge key by key: the result has the keys of both,
/// with the merge of the two values where both have the key, else the value of
/// the table that has it. In every other case the later value stands.
pub open spec fn merge(a: Data, b: Data) -> Data
    decreases a,
{
    match (a, b) {
        (Data::List(x), Data::List(y)) => Data::List(merge_lists(x, y)),
        (Data::Table(x), Data::Table(y)) => Data::Table(
            Map::new(
                |k: Seq<char>| x.contains_key(k) || y.contains_key(k),
                |k: Seq<char>|
                    if x.contains_key(k) && y.contains_key(k) {
                        merge(x[k], y[k])
                    } else if x.contains_key(k) {
                        x[k]
                    } else {
                        y[k]
                    },
            ),
        ),
        _ => b,
    }
}

/// The merge of two tables, as [`merge`] makes it.
pub open spec fn merge_tables(x: Map<Seq<char>, Data>, y: Map<Seq<char>, Data>) -> Map<
    Seq<char>,
    Data,
> {
    Map::new(
        |k: Seq<char>| x.contains_key(k) || y.contains_key(k),
        |k: Seq<char>|
            if x.contains_key(k) && y.contains_key(k) {
                merge(x[k], y[k])
            } else if x.contains_key(k) {
                x[k]
            } else {
                y[k]
            },
    )
}

/// The keys of `x` alone, each with its value merged with that of `y` where
/// `y` has the key.
pub open spec fn merge_left(x: Map<Seq<char>, Data>, y: Map<Seq<char>, Data>) -> Map<
    Seq<char>,
    Data,
> {
    Map::new(
        |k: Seq<char>| x.contains_key(k),
        |k: Seq<char>|
            if y.contains_key(k) {
                merge(x[k], y[k])
            } else {
                x[k]
            },
    )
}

/// [`merge_left`], and the keys of `part` that `x` lacks, with the values of `y`.
pub open spec fn merge_upto(
    x: Map<Seq<char>, Data>,
    y: Map<Seq<char>, Data>,
    part: Map<Seq<char>, Data>,
) -> Map<Seq<char>, Data> {
    Map::new(
        |k: Seq<char>| x.contains_key(k) || part.contains_key(k),
        |k: Seq<char>|
            if x.contains_key(k) {
                merge_left(x, y)[k]
            } else {
                y[k]
            },
    )
}

/// Two tables merge to the table of [`merge_tables`].
pub proof fn lemma_merge_tables(x: Map<Seq<char>, Data>, y: Map<Seq<char>, Data>)
    ensures
        merge(Data::Table(x), Data::Table(y)) == Data::Table(merge_tables(x, y)),
{
    assert(merge(Data::Table(x), Data::Table(y))->Table_0 =~= merge_tables(x, y));
}

/// The merge of a whole sequence of fragments, from the left, onto `seed`.
pub open spec fn fold(seed: Data, fragments: Seq<Data>) -> Data
    decreases fragments.len(),
{
    if fragments.len() == 0 {
        seed
    } else {
        merge(fold(seed, fragments.drop_last()), fragments.last())
    }
}

/// Every table inside `v` has finitely many keys.
pub open spec fn finite(v: Data) -> bool
    decreases v,
{
    match v {
        Data::List(x) => forall|i: int| 0 <= i < x.len() ==> finite(#[trigger] x[i]),
        Data::Table(x) => x.dom().finite() && forall|k: Seq<char>|
            x.contains_key(k) ==> finite(#[trigger] x[k]),
        _ => true,
    }
}

/// What a value holds has only finite tables.
pub proof fn lemma_json_finite(v: Json)
    ensures
        finite(v@),
    decreases v,
{
    match v {
        Json::Array(items) => {
            lemma_list_data(items@);
            assert forall|i: int| 0 <= i < list_data(items@).len() implies finite(
                #[trigger] list_data(items@)[i],
            ) by {
                lemma_json_finite(items@[i]);
            }
        },
        Json::Object(entries) => {
            lemma_pairs_data(entries@);
            let pairs = pairs_data(entries@);
            lemma_assoc_finite(pairs);
            assert forall|k: Seq<char>| assoc(pairs).contains_key(k) implies finite(
                #[trigger] assoc(pairs)[k],
            ) by {
                let i = lemma_assoc_present(pairs, k);
                lemma_json_finite(entries@[i].1);
            }
        },
        _ => {},
    }
}

/// The merge of two lists is as long as the longer one: below the shorter
/// length its items are merges, above it they are the items of the longer list.
pub proof fn law_merge_keeps_longer_list(x: Seq<Data>, y: Seq<Data>)
    ensures
        merge(Data::List(x), Data::List(y)) == Data::List(merge_lists(x, y)),
        merge_lists(x, y).len() == longer(x.len(), y.len()),
        forall|i: int|
            0 <= i < x.len() && i < y.len() ==> #[trigger] merge_lists(x, y)[i] == merge(
                x[i],
                y[i],
            ),
        forall|i: int| y.len() <= i < x.len() ==> #[trigger] merge_lists(x, y)[i] == x[i],
        forall|i: int| x.len() <= i < y.len() ==> #[trigger] merge_lists(x, y)[i] == y[i],
{
}

/// Where the earlier value is no list and no table, the later value stands.
pub proof fn law_later_scalar_wins(a: Data, b: Data)
    requires
        !(a is List && b is List),
        !(a is Table && b is Table),
    ensures
        merge(a, b) == b,
{
}

/// The merge from the left of one fragment onto null is that fragment.
pub proof fn lemma_fold_one(f: Data)
    ensures
        fold(Data::Null, seq![f]) == f,
{
    assert(seq![f].drop_last() =~= Seq::<Data>::empty());
    assert(fold(Data::Null, seq![f].drop_last()) == Data::Null);
}

/// The merge from the left of a sequence with one more fragment at its end.
pub proof fn lemma_fold_push(seed: Data, fragments: Seq<Data>, f: Data)
    ensures
        fold(seed, fragments.push(f)) == merge(fold(seed, fragments), f),
{
    assert(fragments.push(f).drop_last() =~= fragments);
}

/// Merging a value of a store with itself gives the value back.
pub proof fn law_aggregate_idempotent(v: Json)
    ensures
        merge(v@, v@) == v@,
{
    lemma_json_finite(v);
    lemma_merge_idempotent(v@);
}

/// Merging a value with itself gives the value back.
pub proof fn lemma_merge_idempotent(v: Data)
    requires
        finite(v),
    ensures
        merge(v, v) == v,
    decreases v,
{
    match v {
        Data::List(x) => {
            assert forall|i: int| 0 <= i < x.len() implies #[trigger] merge_lists(x, x)[i]
                == x[i] by {
                lemma_merge_idempotent(x[i]);
            }
            assert(merge_lists(x, x) =~= x);
        },
        Data::Table(x) => {
            lemma_merge_tables(x, x);
            assert forall|k: Seq<char>| x.contains_key(k) implies #[trigger] merge_tables(x, x)[k]
                == x[k] by {
                lemma_merge_idempotent(x[k]);
            }
            assert(merge_tables(x, x) =~= x);
        },
        _ => {},
    }
}

} // verus!
