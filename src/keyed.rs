//! A `Vec` used as a map: each item carries a text key, keys are pairwise
//! distinct, and the vector is viewed as the map from key to item.
use crate::text::{contains, contains_seq, lower_of, lowercase, string_eq};
use vstd::prelude::*;

verus! {

/// An item that is looked up by a text key.
pub trait Keyed {
    spec fn spec_key(&self) -> Seq<char>;

    fn key_str(&self) -> (r: &str)
        ensures
            r@ == self.spec_key(),
    ;
}

/// No two items of `v` share a key.
pub open spec fn keys_unique<T: Keyed>(v: Seq<T>) -> bool {
    forall|i: int, j: int|
        0 <= i < v.len() && 0 <= j < v.len() && i != j ==> #[trigger] v[i].spec_key()
            != #[trigger] v[j].spec_key()
}

/// Some item of `v` has key `k`.
pub open spec fn has_key<T: Keyed>(v: Seq<T>, k: Seq<char>) -> bool {
    exists|i: int| 0 <= i < v.len() && #[trigger] v[i].spec_key() == k
}

/// The position of an item with key `k` (meaningful where `has_key(v, k)`).
pub open spec fn key_index<T: Keyed>(v: Seq<T>, k: Seq<char>) -> int {
    choose|i: int| 0 <= i < v.len() && #[trigger] v[i].spec_key() == k
}

/// The map from key to item that `v` stands for.
pub open spec fn keyed_map<T: Keyed>(v: Seq<T>) -> Map<Seq<char>, T> {
    Map::new(|k: Seq<char>| has_key(v, k), |k: Seq<char>| v[key_index(v, k)])
}

/// With distinct keys, the item at `i` is the one the map gives for its key.
pub proof fn lemma_keyed_map_at<T: Keyed>(v: Seq<T>, i: int)
    requires
        keys_unique(v),
        0 <= i < v.len(),
    ensures
        keyed_map(v).contains_key(v[i].spec_key()),
        keyed_map(v)[v[i].spec_key()] == v[i],
{
    let k = v[i].spec_key();
    assert(has_key(v, k));
    let j = key_index(v, k);
    assert(v[j].spec_key() == k);
}

/// Replacing the item at `i` by one with the same key updates that key only.
pub proof fn lemma_keyed_update<T: Keyed>(v: Seq<T>, i: int, item: T)
    requires
        keys_unique(v),
        0 <= i < v.len(),
        item.spec_key() == v[i].spec_key(),
    ensures
        keys_unique(v.update(i, item)),
        keyed_map(v.update(i, item)) == keyed_map(v).insert(item.spec_key(), item),
{
    let w = v.update(i, item);
    assert(keys_unique(w)) by {
        assert forall|a: int, b: int|
            0 <= a < w.len() && 0 <= b < w.len() && a != b implies #[trigger] w[a].spec_key()
            != #[trigger] w[b].spec_key() by {
            assert(v[a].spec_key() != v[b].spec_key());
        }
    }
    assert forall|k: Seq<char>| has_key(w, k) <==> (has_key(v, k) || k == item.spec_key()) by {
        if has_key(v, k) {
            let j = choose|j: int| 0 <= j < v.len() && #[trigger] v[j].spec_key() == k;
            assert(w[j].spec_key() == k);
        }
        if has_key(w, k) {
            let j = choose|j: int| 0 <= j < w.len() && #[trigger] w[j].spec_key() == k;
            assert(v[j].spec_key() == k);
        }
        if k == item.spec_key() {
            assert(w[i].spec_key() == k);
        }
    }
    assert forall|k: Seq<char>| #[trigger] keyed_map(w).contains_key(k) implies keyed_map(w)[k]
        == keyed_map(v).insert(item.spec_key(), item)[k] by {
        let j = key_index(w, k);
        assert(w[j].spec_key() == k);
        if k == item.spec_key() {
            assert(j == i);
        } else {
            assert(v[j].spec_key() == k);
            lemma_keyed_map_at(v, j);
        }
    }
    assert(keyed_map(w) =~= keyed_map(v).insert(item.spec_key(), item));
}

/// Appending an item with a new key adds that key.
pub proof fn lemma_keyed_push<T: Keyed>(v: Seq<T>, item: T)
    requires
        keys_unique(v),
        !has_key(v, item.spec_key()),
    ensures
        keys_unique(v.push(item)),
        keyed_map(v.push(item)) == keyed_map(v).insert(item.spec_key(), item),
{
    let w = v.push(item);
    assert(keys_unique(w)) by {
        assert forall|a: int, b: int|
            0 <= a < w.len() && 0 <= b < w.len() && a != b implies #[trigger] w[a].spec_key()
            != #[trigger] w[b].spec_key() by {
            if a < v.len() && b < v.len() {
                assert(v[a].spec_key() != v[b].spec_key());
            } else if a < v.len() {
                assert(w[a] == v[a]);
            } else {
                assert(w[b] == v[b]);
            }
        }
    }
    assert forall|k: Seq<char>| has_key(w, k) <==> (has_key(v, k) || k == item.spec_key()) by {
        if has_key(v, k) {
            let j = choose|j: int| 0 <= j < v.len() && #[trigger] v[j].spec_key() == k;
            assert(w[j].spec_key() == k);
        }
        if has_key(w, k) {
            let j = choose|j: int| 0 <= j < w.len() && #[trigger] w[j].spec_key() == k;
            if j < v.len() {
                assert(v[j].spec_key() == k);
            }
        }
        if k == item.spec_key() {
            assert(w[v.len() as int].spec_key() == k);
        }
    }
    assert forall|k: Seq<char>| #[trigger] keyed_map(w).contains_key(k) implies keyed_map(w)[k]
        == keyed_map(v).insert(item.spec_key(), item)[k] by {
        let j = key_index(w, k);
        assert(w[j].spec_key() == k);
        if k == item.spec_key() {
            if j < v.len() {
                assert(v[j].spec_key() == k);
            }
            assert(j == v.len());
        } else {
            assert(j < v.len());
            assert(v[j].spec_key() == k);
            lemma_keyed_map_at(v, j);
        }
    }
    assert(keyed_map(w) =~= keyed_map(v).insert(item.spec_key(), item));
}

/// The position of the item with key `k`, if there is one.
pub fn find_index<T: Keyed>(v: &Vec<T>, k: &str) -> (r: Option<usize>)
    ensures
        r matches Some(i) ==> i < v@.len() && v@[i as int].spec_key() == k@,
        r is None <==> !has_key(v@, k@),
{
    let mut i: usize = 0;
    while i < v.len()
        invariant
            i <= v@.len(),
            forall|j: int| 0 <= j < i ==> #[trigger] v@[j].spec_key() != k@,
        decreases v@.len() - i,
    {
        if string_eq(v[i].key_str(), k) {
            return Some(i);
        }
        i = i + 1;
    }
    None
}

/// Inserts `item` under its key, replacing the item that had that key.
pub fn upsert<T: Keyed>(v: &mut Vec<T>, item: T)
    requires
        keys_unique(old(v)@),
    ensures
        keys_unique(final(v)@),
        keyed_map(final(v)@) == keyed_map(old(v)@).insert(item.spec_key(), item),
        forall|i: int|
            0 <= i < final(v)@.len() ==> #[trigger] final(v)@[i] == item || old(v)@.contains(
                final(v)@[i],
            ),
{
    let ghost before = v@;
    match find_index(v, item.key_str()) {
        Some(i) => {
            proof {
                lemma_keyed_update(v@, i as int, item);
            }
            v.set(i, item);
            assert forall|j: int| 0 <= j < v@.len() && j != i implies #[trigger] before.contains(v@[j]) by {
                assert(before[j] == v@[j]);
            }
        },
        None => {
            proof {
                lemma_keyed_push(v@, item);
            }
            v.push(item);
            assert forall|j: int| 0 <= j < before.len() implies #[trigger] before.contains(v@[j]) by {
                assert(before[j] == v@[j]);
            }
        },
    }
}

/// `key` contains `fragment`, ignoring case: both are compared lower-cased.
pub open spec fn key_matches(key: Seq<char>, fragment: Seq<char>) -> bool {
    contains_seq(lower_of(key), lower_of(fragment))
}

/// The items of `v` whose key contains `fragment`, ignoring case, in the order of `v`.
pub fn search_by_key<'a, T: Keyed>(v: &'a Vec<T>, fragment: &str) -> (r: Vec<&'a T>)
    requires
        keys_unique(v@),
    ensures
        forall|j: int|
            0 <= j < r@.len() ==> keyed_map(v@).contains_key(#[trigger] r@[j].spec_key())
                && keyed_map(v@)[r@[j].spec_key()] == *r@[j] && key_matches(
                r@[j].spec_key(),
                fragment@,
            ),
        forall|k: Seq<char>|
            #[trigger] keyed_map(v@).contains_key(k) && key_matches(k, fragment@) ==> exists|j: int|
                0 <= j < r@.len() && r@[j].spec_key() == k,
        forall|j: int, l: int|
            0 <= j < l < r@.len() ==> #[trigger] r@[j].spec_key() != #[trigger] r@[l].spec_key(),
{
    let lower_fragment = lowercase(fragment);
    let mut r: Vec<&'a T> = Vec::new();
    let ghost mut idx: Seq<int> = Seq::empty();
    let mut i: usize = 0;
    while i < v.len()
        invariant
            i <= v@.len(),
            keys_unique(v@),
            lower_fragment@ == lower_of(fragment@),
            idx.len() == r@.len(),
            forall|j: int| 0 <= j < idx.len() ==> 0 <= #[trigger] idx[j] < i,
            forall|j: int, l: int| 0 <= j < l < idx.len() ==> #[trigger] idx[j] < #[trigger] idx[l],
            forall|j: int|
                0 <= j < r@.len() ==> *#[trigger] r@[j] == v@[idx[j]] && key_matches(
                    v@[idx[j]].spec_key(),
                    fragment@,
                ),
            forall|a: int|
                0 <= a < i && key_matches(#[trigger] v@[a].spec_key(), fragment@) ==> exists|j: int|
                    0 <= j < r@.len() && idx[j] == a,
        decreases v@.len() - i,
    {
        let ghost old_idx = idx;
        let lower_key = lowercase(v[i].key_str());
        if contains(lower_key.as_str(), lower_fragment.as_str()) {
            r.push(&v[i]);
            proof {
                idx = idx.push(i as int);
            }
        }
        assert forall|a: int|
            0 <= a <= i && key_matches(#[trigger] v@[a].spec_key(), fragment@) implies exists|j: int|
            0 <= j < r@.len() && idx[j] == a by {
            if a < i {
                let j = choose|j: int| 0 <= j < old_idx.len() && old_idx[j] == a;
                assert(idx[j] == a);
            } else {
                assert(idx[idx.len() - 1] == a);
            }
        }
        i = i + 1;
    }
    assert forall|j: int| 0 <= j < r@.len() implies keyed_map(v@).contains_key(
        #[trigger] r@[j].spec_key(),
    ) && keyed_map(v@)[r@[j].spec_key()] == *r@[j] by {
        lemma_keyed_map_at(v@, idx[j]);
    }
    assert forall|k: Seq<char>| #[trigger]
        keyed_map(v@).contains_key(k) && key_matches(k, fragment@) implies exists|j: int|
        0 <= j < r@.len() && r@[j].spec_key() == k by {
        let a = key_index(v@, k);
        assert(v@[a].spec_key() == k);
        let j = choose|j: int| 0 <= j < r@.len() && idx[j] == a;
        assert(r@[j].spec_key() == k);
    }
    assert forall|j: int, l: int| 0 <= j < l < r@.len() implies #[trigger] r@[j].spec_key()
        != #[trigger] r@[l].spec_key() by {
        assert(idx[j] < idx[l]);
        assert(v@[idx[j]].spec_key() != v@[idx[l]].spec_key());
    }
    r
}

} // verus!
