//! The session store: for each key an ordered sequence of fragments, whose
//! effective value is their merge from the left.

use crate::assoc::{
    assoc, find, is_first, keys_of, lemma_assoc_absent, lemma_assoc_first, lemma_assoc_missing,
    lemma_assoc_push, lemma_assoc_update,
};
use crate::merge::{
    fold, lemma_fold_one, lemma_fold_push, lemma_merge_tables, longer, merge, merge_left,
    merge_lists, merge_tables, merge_upto,
};
use crate::json::{lemma_list_data, lemma_pairs_data, list_data, lookup, pairs_data, Data, Json};
use vstd::prelude::*;

verus! {

/// A session store. Each key has the fragments that were added under it since
/// it was last set, oldest first.
pub struct Session {
    vars: Vec<(String, Vec<Json>)>,
}

/// What the slots of a store hold: for each slot its key and its fragments.
pub open spec fn slots_data(slots: Seq<(String, Vec<Json>)>) -> Seq<(Seq<char>, Seq<Data>)> {
    Seq::new(slots.len(), |i: int| (slots[i].0@, list_data(slots[i].1@)))
}

/// The fragments that a store with the contents `store` has under `key`: none
/// where it does not have the key.
pub open spec fn fragments_of(store: Map<Seq<char>, Seq<Data>>, key: Seq<char>) -> Seq<Data> {
    if store.contains_key(key) {
        store[key]
    } else {
        Seq::empty()
    }
}

/// The effective value under `key` in a store with the contents `store`: the
/// merge of the key's fragments from the left, starting from null; nothing
/// where the key has no fragments.
pub open spec fn effective(store: Map<Seq<char>, Seq<Data>>, key: Seq<char>) -> Option<Data> {
    if fragments_of(store, key).len() == 0 {
        None
    } else {
        Some(fold(Data::Null, fragments_of(store, key)))
    }
}

/// The contents of a store after `value` was set under `key`.
pub open spec fn after_set(store: Map<Seq<char>, Seq<Data>>, key: Seq<char>, value: Data) -> Map<
    Seq<char>,
    Seq<Data>,
> {
    store.insert(key, seq![value])
}

/// The contents of a store after `value` was added under `key`.
pub open spec fn after_add(store: Map<Seq<char>, Seq<Data>>, key: Seq<char>, value: Data) -> Map<
    Seq<char>,
    Seq<Data>,
> {
    store.insert(key, fragments_of(store, key).push(value))
}

/// The effective value is the merge of the fragments from the left: after
/// three fragments were added under a key that had none, it is the merge of
/// the third onto the merge of the second onto the first.
pub proof fn law_get_folds_left(
    store: Map<Seq<char>, Seq<Data>>,
    key: Seq<char>,
    f1: Data,
    f2: Data,
    f3: Data,
)
    requires
        fragments_of(store, key).len() == 0,
    ensures
        effective(after_add(after_add(after_add(store, key, f1), key, f2), key, f3), key) == Some(
            merge(merge(f1, f2), f3),
        ),
{
    let one = after_add(store, key, f1);
    let two = after_add(one, key, f2);
    let three = after_add(two, key, f3);
    assert(fragments_of(store, key) =~= Seq::<Data>::empty());
    assert(fragments_of(one, key) =~= seq![f1]);
    lemma_fold_one(f1);
    lemma_fold_push(Data::Null, seq![f1], f2);
    lemma_fold_push(Data::Null, seq![f1].push(f2), f3);
}

/// Each added fragment is merged onto the effective value that was there.
pub proof fn law_add_merges_onto(store: Map<Seq<char>, Seq<Data>>, key: Seq<char>, f: Data)
    ensures
        effective(after_add(store, key, f), key) == Some(
            match effective(store, key) {
                Some(v) => merge(v, f),
                None => f,
            },
        ),
{
    lemma_fold_push(Data::Null, fragments_of(store, key), f);
    if fragments_of(store, key).len() == 0 {
        assert(fragments_of(store, key) =~= Seq::<Data>::empty());
    }
}

/// Setting a key is a hard reset: whatever the store held, the effective
/// value under the key is then exactly the value that was set.
pub proof fn law_set_resets(store: Map<Seq<char>, Seq<Data>>, key: Seq<char>, value: Data)
    ensures
        effective(after_set(store, key, value), key) == Some(value),
{
    lemma_fold_one(value);
}

/// A key that was never set or added to has no value: not even null.
pub proof fn law_unknown_key_has_none(store: Map<Seq<char>, Seq<Data>>, key: Seq<char>)
    requires
        !store.contains_key(key),
    ensures
        effective(store, key) is None,
        effective(Map::<Seq<char>, Seq<Data>>::empty(), key) is None,
{
}

/// Setting or adding under one key leaves every other key as it was.
pub proof fn law_keys_are_apart(
    store: Map<Seq<char>, Seq<Data>>,
    key: Seq<char>,
    other: Seq<char>,
    value: Data,
)
    requires
        key != other,
    ensures
        effective(after_set(store, key, value), other) == effective(store, other),
        effective(after_add(store, key, value), other) == effective(store, other),
{
}

impl View for Session {
    type V = Map<Seq<char>, Seq<Data>>;

    /// The fragments of each key that has any.
    closed spec fn view(&self) -> Map<Seq<char>, Seq<Data>> {
        assoc(slots_data(self.vars@))
    }
}

impl Session {
    /// An empty store.
    pub fn new() -> (r: Session)
        ensures
            r@ == Map::<Seq<char>, Seq<Data>>::empty(),
    {
        let r = Session { vars: Vec::new() };
        proof {
            assert(slots_data(r.vars@) =~= Seq::empty());
        }
        r
    }

    /// The position of the slot that holds the fragments of `key`.
    fn slot(&self, key: &str) -> (r: Option<usize>)
        ensures
            match r {
                Some(i) => {
                    &&& i < self.vars@.len()
                    &&& is_first(slots_data(self.vars@), key@, i as int)
                    &&& self@.contains_key(key@)
                    &&& self@[key@] == list_data(self.vars@[i as int].1@)
                },
                None => !self@.contains_key(key@),
            },
    {
        let r = find(&self.vars, key);
        proof {
            let pairs = slots_data(self.vars@);
            assert forall|j: int| 0 <= j < pairs.len() implies (#[trigger] pairs[j]).0 == keys_of(
                self.vars@,
            )[j] by {}
            match r {
                Some(i) => {
                    lemma_assoc_first(pairs, key@, i as int);
                },
                None => {
                    lemma_assoc_absent(pairs, key@);
                },
            }
        }
        r
    }

    /// The effective value under `key`: the merge of its fragments from the
    /// left, starting from null; nothing where the key has no fragments.
    pub fn get(&self, key: &str) -> (r: Option<Json>)
        ensures
            match r {
                Some(v) => effective(self@, key@) == Some(v@),
                None => effective(self@, key@) is None,
            },
    {
        match self.slot(key) {
            None => None,
            Some(i) => {
                let fragments = &self.vars[i].1;
                if fragments.len() == 0 {
                    return None;
                }
                let ghost all = list_data(fragments@);
                let mut value = Json::Null;
                let mut n: usize = 0;
                proof {
                    lemma_list_data(fragments@);
                }
                while n < fragments.len()
                    invariant
                        n <= fragments@.len(),
                        all == list_data(fragments@),
                        all.len() == fragments@.len(),
                        forall|j: int| 0 <= j < all.len() ==> all[j] == (#[trigger] fragments@[j])@,
                        value@ == fold(Data::Null, all.take(n as int)),
                    decreases fragments@.len() - n,
                {
                    proof {
                        assert(all.take(n as int + 1).drop_last() =~= all.take(n as int));
                    }
                    value = Session::aggregate(&value, &fragments[n]);
                    n = n + 1;
                }
                proof {
                    assert(all.take(n as int) =~= all);
                }
                Some(value)
            },
        }
    }

    /// Replaces the fragments under `key` by `value` alone.
    pub fn set(&mut self, key: &str, value: Json)
        ensures
            final(self)@ == after_set(old(self)@, key@, value@),
    {
        let ghost held = slots_data(self.vars@);
        let ghost data = value@;
        let mut fragments: Vec<Json> = Vec::new();
        fragments.push(value);
        proof {
            lemma_list_data(fragments@);
            assert(list_data(fragments@) =~= seq![data]);
        }
        match self.slot(key) {
            Some(i) => {
                self.vars.set(i, (key.to_owned(), fragments));
                proof {
                    assert(slots_data(self.vars@) =~= held.update(i as int, (key@, seq![data])));
                    lemma_assoc_update(held, key@, i as int, seq![data]);
                }
            },
            None => {
                self.vars.push((key.to_owned(), fragments));
                proof {
                    assert(slots_data(self.vars@) =~= held.push((key@, seq![data])));
                    lemma_assoc_push(held, key@, seq![data]);
                }
            },
        }
    }

    /// Appends `value` to the fragments under `key`.
    pub fn add(&mut self, key: &str, value: Json)
        ensures
            final(self)@ == after_add(old(self)@, key@, value@),
    {
        let ghost held = slots_data(self.vars@);
        let ghost data = value@;
        match self.slot(key) {
            Some(i) => {
                let ghost before = self.vars@[i as int].1@;
                self.vars[i].1.push(value);
                proof {
                    lemma_list_data(before);
                    lemma_list_data(before.push(value));
                    assert(list_data(before.push(value)) =~= list_data(before).push(data));
                    assert(slots_data(self.vars@) =~= held.update(
                        i as int,
                        (key@, list_data(before).push(data)),
                    ));
                    lemma_assoc_update(held, key@, i as int, list_data(before).push(data));
                }
            },
            None => {
                self.set(key, value);
                proof {
                    assert(Seq::<Data>::empty().push(data) =~= seq![data]);
                }
            },
        }
    }

    /// The merge of an earlier value `a` with a later value `b`.
    #[verifier::loop_isolation(false)]
    pub fn aggregate(a: &Json, b: &Json) -> (r: Json)
        ensures
            r@ == merge(a@, b@),
        decreases a,
    {
        match (a, b) {
            (Json::Array(x), Json::Array(y)) => {
                let mut out: Vec<Json> = Vec::new();
                let mut i: usize = 0;
                proof {
                    lemma_list_data(x@);
                    lemma_list_data(y@);
                }
                while i < x.len() || i < y.len()
                    invariant
                        i <= longer(x@.len(), y@.len()),
                        out@.len() == i,
                        forall|j: int|
                            0 <= j < i ==> (#[trigger] out@[j])@ == merge_lists(
                                list_data(x@),
                                list_data(y@),
                            )[j],
                    decreases longer(x@.len(), y@.len()) - i,
                {
                    let item = if i < x.len() && i < y.len() {
                        Session::aggregate(&x[i], &y[i])
                    } else if i < x.len() {
                        x[i].clone()
                    } else {
                        y[i].clone()
                    };
                    out.push(item);
                    i = i + 1;
                }
                proof {
                    lemma_list_data(out@);
                    assert(list_data(out@) =~= merge_lists(list_data(x@), list_data(y@)));
                }
                Json::Array(out)
            },
            (Json::Object(x), Json::Object(y)) => {
                let mut out: Vec<(String, Json)> = Vec::new();
                let ghost right = assoc(pairs_data(y@));
                let mut i: usize = 0;
                proof {
                    lemma_pairs_data(x@);
                    lemma_pairs_data(y@);
                    assert(pairs_data(x@.take(0)) =~= Seq::empty());
                    assert(pairs_data(out@) =~= Seq::empty());
                    assert(assoc(pairs_data(out@)) =~= merge_left(
                        assoc(pairs_data(x@.take(0))),
                        right,
                    ));
                }
                while i < x.len()
                    invariant
                        i <= x@.len(),
                        assoc(pairs_data(out@)) == merge_left(
                            assoc(pairs_data(x@.take(i as int))),
                            right,
                        ),
                    decreases x@.len() - i,
                {
                    let ghost before = pairs_data(x@.take(i as int));
                    let ghost key = x@[i as int].0@;
                    proof {
                        lemma_pairs_data(x@.take(i as int));
                        lemma_pairs_data(x@.take(i as int + 1));
                        assert(pairs_data(x@.take(i as int + 1)) =~= before.push(
                            (key, x@[i as int].1@),
                        ));
                        lemma_assoc_push(before, key, x@[i as int].1@);
                    }
                    if lookup(&out, x[i].0.as_str()).is_none() {
                        let item = match lookup(y, x[i].0.as_str()) {
                            Some(j) => Session::aggregate(&x[i].1, &y[j].1),
                            None => x[i].1.clone(),
                        };
                        let ghost held = pairs_data(out@);
                        out.push((x[i].0.clone(), item));
                        proof {
                            lemma_pairs_data(out@);
                            assert(pairs_data(out@) =~= held.push((key, item@)));
                            lemma_assoc_push(held, key, item@);
                            assert(assoc(pairs_data(out@)) =~= merge_left(
                                assoc(pairs_data(x@.take(i as int + 1))),
                                right,
                            ));
                        }
                    } else {
                        proof {
                            assert(assoc(pairs_data(out@)) =~= merge_left(
                                assoc(pairs_data(x@.take(i as int + 1))),
                                right,
                            ));
                        }
                    }
                    i = i + 1;
                }
                let ghost left = assoc(pairs_data(x@));
                let mut j: usize = 0;
                proof {
                    assert(x@.take(x@.len() as int) =~= x@);
                    assert(pairs_data(y@.take(0)) =~= Seq::empty());
                    assert(assoc(pairs_data(out@)) =~= merge_upto(
                        left,
                        right,
                        assoc(pairs_data(y@.take(0))),
                    ));
                }
                while j < y.len()
                    invariant
                        j <= y@.len(),
                        assoc(pairs_data(out@)) == merge_upto(
                            left,
                            right,
                            assoc(pairs_data(y@.take(j as int))),
                        ),
                    decreases y@.len() - j,
                {
                    let ghost before = pairs_data(y@.take(j as int));
                    let ghost key = y@[j as int].0@;
                    proof {
                        lemma_pairs_data(y@.take(j as int));
                        lemma_pairs_data(y@.take(j as int + 1));
                        assert(pairs_data(y@.take(j as int + 1)) =~= before.push(
                            (key, y@[j as int].1@),
                        ));
                        lemma_assoc_push(before, key, y@[j as int].1@);
                    }
                    if lookup(&out, y[j].0.as_str()).is_none() {
                        let item = y[j].1.clone();
                        let ghost held = pairs_data(out@);
                        out.push((y[j].0.clone(), item));
                        proof {
                            lemma_assoc_missing(before, key);
                            assert(is_first(pairs_data(y@), key, j as int)) by {
                                assert forall|k: int| 0 <= k < j implies (#[trigger] pairs_data(
                                    y@,
                                )[k]).0 != key by {
                                    assert(before[k].0 != key);
                                }
                            }
                            lemma_assoc_first(pairs_data(y@), key, j as int);
                            lemma_pairs_data(out@);
                            assert(pairs_data(out@) =~= held.push((key, item@)));
                            lemma_assoc_push(held, key, item@);
                            assert(assoc(pairs_data(out@)) =~= merge_upto(
                                left,
                                right,
                                assoc(pairs_data(y@.take(j as int + 1))),
                            ));
                        }
                    } else {
                        proof {
                            assert(assoc(pairs_data(out@)) =~= merge_upto(
                                left,
                                right,
                                assoc(pairs_data(y@.take(j as int + 1))),
                            ));
                        }
                    }
                    j = j + 1;
                }
                proof {
                    assert(y@.take(y@.len() as int) =~= y@);
                    assert(merge_upto(left, right, right) =~= merge_tables(left, right));
                    lemma_merge_tables(left, right);
                }
                Json::Object(out)
            },
            _ => b.clone(),
        }
    }
}

} // verus!
