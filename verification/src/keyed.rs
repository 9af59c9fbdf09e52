//! Tables of records keyed by a string ID, held in a vector with at most
//! one record per ID, and seen as a map from ID to record.

use vstd::prelude::*;
use crate::bytes_util::str_eq;

verus! {

/// A record identified by a string key.
pub trait Keyed {
    /// The record's key.
    spec fn key(&self) -> Seq<char>;

    /// The record's key, as text.
    fn key_str(&self) -> (r: &str)
        ensures
            r@ == self.key(),
    ;
}

/// Whether some record of `s` has key `k`.
pub open spec fn has_key<T: Keyed>(s: Seq<T>, k: Seq<char>) -> bool {
    exists|i: int| 0 <= i < s.len() && s[i].key() == k
}

/// No two records of `s` share a key.
pub open spec fn unique_keys<T: Keyed>(s: Seq<T>) -> bool {
    forall|i: int, j: int| 0 <= i < s.len() && 0 <= j < s.len() && i != j ==> s[i].key() != s[j].key()
}

/// The records of `s` by key.
pub open spec fn by_key<T: Keyed>(s: Seq<T>) -> Map<Seq<char>, T> {
    Map::new(|k: Seq<char>| has_key(s, k), |k: Seq<char>| s[choose|i: int| 0 <= i < s.len() && s[i].key() == k])
}

/// With unique keys, the record `by_key` gives for a key is the one at any
/// index that holds it.
pub proof fn lemma_by_key_at<T: Keyed>(s: Seq<T>, i: int)
    requires
        unique_keys(s),
        0 <= i < s.len(),
    ensures
        by_key(s).contains_key(s[i].key()),
        by_key(s)[s[i].key()] == s[i],
{
    let k = s[i].key();
    assert(0 <= i < s.len() && s[i].key() == k);
    let j = choose|j: int| 0 <= j < s.len() && s[j].key() == k;
    assert(j == i);
}

/// The empty table.
pub proof fn lemma_by_key_empty<T: Keyed>(s: Seq<T>)
    requires
        s.len() == 0,
    ensures
        unique_keys(s),
        by_key(s) == Map::<Seq<char>, T>::empty(),
{
    assert(by_key(s) =~= Map::<Seq<char>, T>::empty());
}

/// Replacing the record at `i` by one with the same key, or appending at
/// `i == s0.len()` a record whose key no other record has, keeps the keys
/// unique and updates the table at that key only.
pub proof fn lemma_by_key_replace<T: Keyed>(s0: Seq<T>, s1: Seq<T>, i: int)
    requires
        unique_keys(s0),
        0 <= i <= s0.len(),
        i < s0.len() ==> s1.len() == s0.len() && s0[i].key() == s1[i].key(),
        i == s0.len() ==> s1.len() == s0.len() + 1,
        forall|j: int| 0 <= j < s0.len() && j != i ==> s1[j] == s0[j],
        forall|j: int| 0 <= j < s0.len() && j != i ==> s0[j].key() != s1[i].key(),
    ensures
        unique_keys(s1),
        by_key(s1) == by_key(s0).insert(s1[i].key(), s1[i]),
{
    let k0 = s1[i].key();
    assert forall|a: int, b: int| 0 <= a < s1.len() && 0 <= b < s1.len() && a != b implies s1[a].key() != s1[b].key() by {
        if a != i && b != i {
            assert(s1[a] == s0[a] && s1[b] == s0[b]);
        } else if a == i {
            assert(s1[b] == s0[b]);
        } else {
            assert(s1[a] == s0[a]);
        }
    }
    lemma_by_key_at(s1, i);
    assert forall|k: Seq<char>| k != k0 implies (has_key(s1, k) <==> has_key(s0, k)) by {
        if has_key(s1, k) {
            let j = choose|j: int| 0 <= j < s1.len() && s1[j].key() == k;
            assert(j != i);
            assert(s0[j].key() == k);
        }
        if has_key(s0, k) {
            let j = choose|j: int| 0 <= j < s0.len() && s0[j].key() == k;
            assert(j != i);
            assert(s1[j].key() == k);
        }
    }
    assert forall|k: Seq<char>| k != k0 && has_key(s0, k) implies by_key(s1)[k] == by_key(s0)[k] by {
        let j = choose|j: int| 0 <= j < s0.len() && s0[j].key() == k;
        assert(j != i);
        lemma_by_key_at(s0, j);
        assert(s1[j] == s0[j]);
        lemma_by_key_at(s1, j);
    }
    assert(by_key(s1) =~= by_key(s0).insert(k0, s1[i]));
}

/// Removing the record at `i` keeps the keys unique and removes its key
/// from the table.
pub proof fn lemma_by_key_remove<T: Keyed>(s0: Seq<T>, i: int)
    requires
        unique_keys(s0),
        0 <= i < s0.len(),
    ensures
        unique_keys(s0.remove(i)),
        by_key(s0.remove(i)) == by_key(s0).remove(s0[i].key()),
{
    let s1 = s0.remove(i);
    let k0 = s0[i].key();
    assert forall|a: int, b: int| 0 <= a < s1.len() && 0 <= b < s1.len() && a != b implies s1[a].key() != s1[b].key() by {
        let a0 = if a < i { a } else { a + 1 };
        let b0 = if b < i { b } else { b + 1 };
        assert(s1[a] == s0[a0] && s1[b] == s0[b0]);
    }
    assert forall|k: Seq<char>| k != k0 implies (has_key(s1, k) <==> has_key(s0, k)) by {
        if has_key(s1, k) {
            let j = choose|j: int| 0 <= j < s1.len() && s1[j].key() == k;
            let j0 = if j < i { j } else { j + 1 };
            assert(s0[j0] == s1[j]);
        }
        if has_key(s0, k) {
            let j = choose|j: int| 0 <= j < s0.len() && s0[j].key() == k;
            assert(j != i);
            let j1 = if j < i { j } else { j - 1 };
            assert(s1[j1] == s0[j]);
        }
    }
    assert forall|j: int| 0 <= j < s1.len() implies s1[j].key() != k0 by {
        let j0 = if j < i { j } else { j + 1 };
        assert(s1[j] == s0[j0]);
    }
    assert forall|k: Seq<char>| k != k0 && has_key(s0, k) implies by_key(s1)[k] == by_key(s0)[k] by {
        let j = choose|j: int| 0 <= j < s0.len() && s0[j].key() == k;
        assert(j != i);
        let j1 = if j < i { j } else { j - 1 };
        assert(s1[j1] == s0[j]);
        lemma_by_key_at(s0, j);
        lemma_by_key_at(s1, j1);
    }
    assert(by_key(s1) =~= by_key(s0).remove(k0));
}

/// The index of the record with key `k`, if any.
pub fn find_key<T: Keyed>(v: &Vec<T>, k: &str) -> (r: Option<usize>)
    requires
        unique_keys(v@),
    ensures
        r is None <==> !by_key(v@).contains_key(k@),
        r matches Some(i) ==> i < v@.len() && v@[i as int].key() == k@ && by_key(v@)[k@] == v@[i as int],
{
    let mut i: usize = 0;
    while i < v.len()
        invariant
            i <= v@.len(),
            unique_keys(v@),
            forall|j: int| 0 <= j < i ==> v@[j].key() != k@,
        decreases v@.len() - i,
    {
        if str_eq(v[i].key_str(), k) {
            proof {
                lemma_by_key_at(v@, i as int);
            }
            return Some(i);
        }
        i = i + 1;
    }
    None
}

/// Puts `x` in the table in place of any record with the same key.
pub fn upsert<T: Keyed>(v: &mut Vec<T>, x: T)
    requires
        unique_keys(old(v)@),
    ensures
        unique_keys(final(v)@),
        by_key(final(v)@) == by_key(old(v)@).insert(x.key(), x),
{
    let ghost s0 = v@;
    let ghost k = x.key();
    match find_key(v, x.key_str()) {
        Some(i) => {
            v.set(i, x);
            proof {
                assert forall|j: int| 0 <= j < s0.len() && j != i implies s0[j].key() != k by {
                    assert(s0[j].key() != s0[i as int].key());
                }
                lemma_by_key_replace(s0, v@, i as int);
            }
        },
        None => {
            v.push(x);
            proof {
                assert forall|j: int| 0 <= j < s0.len() implies s0[j].key() != k by {
                    if s0[j].key() == k {
                        assert(has_key(s0, k));
                    }
                }
                lemma_by_key_replace(s0, v@, s0.len() as int);
            }
        },
    }
}

/// Removes the record with key `k`, if there is one.
pub fn remove_key<T: Keyed>(v: &mut Vec<T>, k: &str)
    requires
        unique_keys(old(v)@),
    ensures
        unique_keys(final(v)@),
        by_key(final(v)@) == by_key(old(v)@).remove(k@),
{
    match find_key(v, k) {
        Some(i) => {
            let ghost s0 = v@;
            v.remove(i);
            proof {
                lemma_by_key_remove(s0, i as int);
            }
        },
        None => {
            assert(by_key(v@).remove(k@) =~= by_key(v@));
        },
    }
}

} // verus!
