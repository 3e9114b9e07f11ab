//! Semi-structured values: what a session fragment holds.

use crate::assoc::{
    assoc, find, is_first, keys_of, lemma_assoc_absent, lemma_assoc_first, lemma_assoc_missing,
    lemma_assoc_present,
};
use vstd::prelude::*;

verus! {

/// A number of a semi-structured value. A number with a fractional part or an
/// exponent is held by the bits of its double-precision encoding.
#[derive(Clone, Copy, Debug, PartialEq, Eq, Structural)]
pub enum Number {
    /// A non-negative integer.
    PosInt(u64),
    /// A negative integer.
    NegInt(i64),
    /// The IEEE 754 binary64 bit pattern of any other number.
    Float(u64),
}

/// A semi-structured value: null, a boolean, a number, a string, a sequence of
/// values, or a table from string keys to values.
///
/// A table is held as a list of entries; where a key occurs more than once, the
/// first entry with that key is the one that counts.
#[derive(Debug)]
pub enum Json {
    /// No value.
    Null,
    /// A boolean.
    Bool(bool),
    /// A number.
    Number(Number),
    /// A string.
    Text(String),
    /// A sequence of values.
    Array(Vec<Json>),
    /// A table of values.
    Object(Vec<(String, Json)>),
}

/// The mathematical content of a [`Json`].
#[verifier::ext_equal]
pub enum Data {
    Null,
    Bool(bool),
    Number(Number),
    Text(Seq<char>),
    List(Seq<Data>),
    Table(Map<Seq<char>, Data>),
}

/// What a value holds.
pub open spec fn data_of(v: Json) -> Data
    decreases v,
{
    match v {
        Json::Null => Data::Null,
        Json::Bool(b) => Data::Bool(b),
        Json::Number(n) => Data::Number(n),
        Json::Text(s) => Data::Text(s@),
        Json::Array(items) => Data::List(list_data(items@)),
        Json::Object(entries) => Data::Table(assoc(pairs_data(entries@))),
    }
}

/// What a list of values holds, item by item.
pub open spec fn list_data(items: Seq<Json>) -> Seq<Data>
    decreases items,
{
    Seq::new(
        items.len(),
        |i: int|
            if 0 <= i < items.len() {
                data_of(items[i])
            } else {
                Data::Null
            },
    )
}

/// What a list of table entries holds, entry by entry.
pub open spec fn pairs_data(entries: Seq<(String, Json)>) -> Seq<(Seq<char>, Data)>
    decreases entries,
{
    Seq::new(
        entries.len(),
        |i: int|
            if 0 <= i < entries.len() {
                (entries[i].0@, data_of(entries[i].1))
            } else {
                (Seq::empty(), Data::Null)
            },
    )
}

impl View for Json {
    type V = Data;

    open spec fn view(&self) -> Data {
        data_of(*self)
    }
}

/// The list of what the items hold has an entry for each item.
pub proof fn lemma_list_data(items: Seq<Json>)
    ensures
        list_data(items).len() == items.len(),
        forall|i: int| 0 <= i < items.len() ==> #[trigger] list_data(items)[i] == items[i]@,
{
}

/// The list of what the entries hold has a pair for each entry.
pub proof fn lemma_pairs_data(entries: Seq<(String, Json)>)
    ensures
        pairs_data(entries).len() == entries.len(),
        forall|i: int|
            0 <= i < entries.len() ==> #[trigger] pairs_data(entries)[i] == (
                entries[i].0@,
                entries[i].1@,
            ),
{
}

impl Clone for Json {
    /// A copy that holds what the value holds.
    #[verifier::loop_isolation(false)]
    fn clone(&self) -> (r: Self)
        ensures
            r@ == self@,
        decreases self,
    {
        match self {
            Json::Null => Json::Null,
            Json::Bool(b) => Json::Bool(*b),
            Json::Number(n) => Json::Number(*n),
            Json::Text(s) => Json::Text(s.clone()),
            Json::Array(items) => {
                let mut out: Vec<Json> = Vec::new();
                let mut i: usize = 0;
                while i < items.len()
                    invariant
                        i <= items@.len(),
                        out@.len() == i,
                        forall|j: int| 0 <= j < i ==> (#[trigger] out@[j])@ == items@[j]@,
                    decreases items@.len() - i,
                {
                    out.push(items[i].clone());
                    i = i + 1;
                }
                proof {
                    assert(list_data(out@) =~= list_data(items@));
                }
                Json::Array(out)
            },
            Json::Object(entries) => {
                let mut out: Vec<(String, Json)> = Vec::new();
                let mut i: usize = 0;
                while i < entries.len()
                    invariant
                        i <= entries@.len(),
                        out@.len() == i,
                        forall|j: int|
                            0 <= j < i ==> (#[trigger] out@[j]).0@ == entries@[j].0@ && out@[j].1@
                                == entries@[j].1@,
                    decreases entries@.len() - i,
                {
                    out.push((entries[i].0.clone(), entries[i].1.clone()));
                    i = i + 1;
                }
                proof {
                    assert(pairs_data(out@) =~= pairs_data(entries@));
                }
                Json::Object(out)
            },
        }
    }
}

impl Json {
    /// Whether two values hold the same: the same scalar, equal lists item by
    /// item, or tables with the same keys bound to the same.
    #[verifier::loop_isolation(false)]
    pub fn same(&self, other: &Json) -> (r: bool)
        ensures
            r == (self@ == other@),
        decreases self,
    {
        match (self, other) {
            (Json::Null, Json::Null) => true,
            (Json::Bool(a), Json::Bool(b)) => *a == *b,
            (Json::Number(a), Json::Number(b)) => *a == *b,
            (Json::Text(a), Json::Text(b)) => *a == *b,
            (Json::Array(x), Json::Array(y)) => {
                proof {
                    lemma_list_data(x@);
                    lemma_list_data(y@);
                }
                if x.len() != y.len() {
                    return false;
                }
                let mut i: usize = 0;
                while i < x.len()
                    invariant
                        i <= x@.len(),
                        x@.len() == y@.len(),
                        forall|j: int| 0 <= j < i ==> (#[trigger] x@[j])@ == y@[j]@,
                    decreases x@.len() - i,
                {
                    if !x[i].same(&y[i]) {
                        proof {
                            assert(list_data(x@)[i as int] != list_data(y@)[i as int]);
                        }
                        return false;
                    }
                    i = i + 1;
                }
                proof {
                    assert(list_data(x@) =~= list_data(y@));
                }
                true
            },
            (Json::Object(x), Json::Object(y)) => {
                let ghost left = assoc(pairs_data(x@));
                let ghost right = assoc(pairs_data(y@));
                proof {
                    lemma_pairs_data(x@);
                    lemma_pairs_data(y@);
                }
                let mut i: usize = 0;
                while i < x.len()
                    invariant
                        i <= x@.len(),
                        forall|j: int|
                            0 <= j < i ==> right.contains_key((#[trigger] x@[j]).0@)
                                && left.contains_key(x@[j].0@) && right[x@[j].0@] == left[x@[j].0@],
                    decreases x@.len() - i,
                {
                    let here = lookup(x, x[i].0.as_str());
                    let there = lookup(y, x[i].0.as_str());
                    match (here, there) {
                        (Some(f), Some(g)) => {
                            if !x[f].1.same(&y[g].1) {
                                return false;
                            }
                        },
                        _ => {
                            proof {
                                assert(pairs_data(x@)[i as int].0 == x@[i as int].0@);
                                if here is None {
                                    lemma_assoc_missing(
                                        pairs_data(x@),
                                        x@[i as int].0@,
                                    );
                                }
                            }
                            return false;
                        },
                    }
                    i = i + 1;
                }
                let mut j: usize = 0;
                while j < y.len()
                    invariant
                        j <= y@.len(),
                        forall|t: int| 0 <= t < j ==> left.contains_key((#[trigger] y@[t]).0@),
                    decreases y@.len() - j,
                {
                    if lookup(x, y[j].0.as_str()).is_none() {
                        proof {
                            assert(pairs_data(y@)[j as int].0 == y@[j as int].0@);
                            if !right.contains_key(y@[j as int].0@) {
                                lemma_assoc_missing(pairs_data(y@), y@[j as int].0@);
                            }
                        }
                        return false;
                    }
                    j = j + 1;
                }
                proof {
                    assert forall|k: Seq<char>| #[trigger]
                        left.contains_key(k) implies right.contains_key(k) && right[k]
                        == left[k] by {
                        let f = lemma_assoc_present(pairs_data(x@), k);
                        assert(x@[f].0@ == k);
                    }
                    assert forall|k: Seq<char>| #[trigger]
                        right.contains_key(k) implies left.contains_key(k) by {
                        let g = lemma_assoc_present(pairs_data(y@), k);
                        assert(y@[g].0@ == k);
                    }
                    assert(left.dom() =~= right.dom());
                    assert(left =~= right);
                }
                true
            },
            _ => false,
        }
    }
}

impl PartialEq for Json {
    fn eq(&self, other: &Json) -> (r: bool) {
        self.same(other)
    }
}

impl vstd::std_specs::cmp::PartialEqSpecImpl for Json {
    open spec fn obeys_eq_spec() -> bool {
        true
    }

    open spec fn eq_spec(&self, other: &Json) -> bool {
        self@ == other@
    }
}

/// The position of the entry that binds `key` in a table's entries: the first
/// entry with that key.
pub fn lookup(entries: &Vec<(String, Json)>, key: &str) -> (r: Option<usize>)
    ensures
        match r {
            Some(i) => {
                &&& is_first(pairs_data(entries@), key@, i as int)
                &&& i < entries@.len()
                &&& entries@[i as int].0@ == key@
                &&& assoc(pairs_data(entries@)).contains_key(key@)
                &&& assoc(pairs_data(entries@))[key@] == entries@[i as int].1@
            },
            None => !assoc(pairs_data(entries@)).contains_key(key@),
        },
{
    let r = find(entries, key);
    proof {
        let pairs = pairs_data(entries@);
        assert forall|j: int| 0 <= j < pairs.len() implies (#[trigger] pairs[j]).0 == keys_of(
            entries@,
        )[j] by {}
        match r {
            Some(i) => {
                lemma_assoc_first(pairs, key@, i as int);
            },
            None => {
                lemma_assoc_absent(pairs, key@);
            },
        }
    }
    r
}

} // verus!
