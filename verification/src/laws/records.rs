//! A raw record from entries is a mapping: sorted by key, one entry to a key.
use vstd::prelude::*;
use crate::key_index::KeyIndex;
use crate::laws::accessors::lemma_entry_position_bounds;
use crate::model::{
    entries_sorted, entry_get, entry_position, key_less, lower_bound, normalised, put, Val,
};

verus! {
proof fn lemma_lower_bound_splits(e: Seq<(KeyIndex, Val)>, k: KeyIndex)
    ensures
        0 <= lower_bound(e, k) <= e.len(),
        forall|j: int| 0 <= j < lower_bound(e, k) ==> key_less((#[trigger] e[j]).0, k),
        lower_bound(e, k) < e.len() ==> !key_less(e[lower_bound(e, k)].0, k),
    decreases e.len(),
{
    if e.len() == 0 || !key_less(e[0].0, k) {
    } else {
        let t = e.subrange(1, e.len() as int);
        lemma_lower_bound_splits(t, k);
        assert forall|j: int| 0 <= j < lower_bound(e, k) implies key_less((#[trigger] e[j]).0, k) by {
            if j > 0 {
                assert(e[j] == t[j - 1]);
            }
        }
    }
}

/// The first entry under a key is where a search from the front finds it.
pub proof fn lemma_position_is(e: Seq<(KeyIndex, Val)>, k: KeyIndex, i: int)
    requires
        0 <= i <= e.len(),
        forall|j: int| 0 <= j < i ==> (#[trigger] e[j]).0 != k,
        i < e.len() ==> e[i].0 == k,
    ensures
        entry_position(e, k) == i,
    decreases e.len(),
{
    if e.len() == 0 || e[0].0 == k {
        if i > 0 {
            assert(e[0].0 != k);
        }
    } else {
        let t = e.subrange(1, e.len() as int);
        assert forall|j: int| 0 <= j < i - 1 implies (#[trigger] t[j]).0 != k by {
            assert(t[j] == e[j + 1]);
        }
        lemma_position_is(t, k, i - 1);
    }
}

/// Putting an entry into a sorted record leaves the record sorted.
pub proof fn lemma_put_sorted(e: Seq<(KeyIndex, Val)>, k: KeyIndex, v: Val)
    requires
        entries_sorted(e),
    ensures
        entries_sorted(put(e, k, v)),
{
    lemma_lower_bound_splits(e, k);
    let p = lower_bound(e, k);
    let r = put(e, k, v);
    if p < e.len() && e[p].0 == k {
        assert forall|i: int, j: int| 0 <= i < j < r.len() implies key_less(
            (#[trigger] r[i]).0,
            (#[trigger] r[j]).0,
        ) by {
            assert(r[i].0 == e[i].0 && r[j].0 == e[j].0);
        }
    } else {
        assert forall|i: int, j: int| 0 <= i < j < r.len() implies key_less(
            (#[trigger] r[i]).0,
            (#[trigger] r[j]).0,
        ) by {
            let a = if i < p {
                e[i]
            } else if i == p {
                (k, v)
            } else {
                e[i - 1]
            };
            let b = if j < p {
                e[j]
            } else if j == p {
                (k, v)
            } else {
                e[j - 1]
            };
            assert(r[i] == a && r[j] == b);
            if i < p && j > p {
                assert(key_less(e[i].0, e[j - 1].0) || i == j - 1);
            }
            if i == p {
                if j - 1 > p {
                    assert(key_less(e[p].0, e[j - 1].0));
                }
            }
        }
    }
}

/// A record from entries is sorted by key, so no key occurs twice.
pub proof fn lemma_normalised_sorted(given: Seq<(KeyIndex, Val)>, n: int)
    ensures
        entries_sorted(normalised(given, n)),
    decreases n,
{
    if n <= 0 || n > given.len() {
        assert(normalised(given, n).len() == 0);
    } else {
        let before = normalised(given, n - 1);
        lemma_normalised_sorted(given, n - 1);
        lemma_put_sorted(before, given[n - 1].0, given[n - 1].1);
        assert(normalised(given, n) == put(before, given[n - 1].0, given[n - 1].1));
    }
}

/// After an entry was put under a key, the record holds it under that key,
/// and under every other key what it held before.
pub proof fn lemma_put_get(e: Seq<(KeyIndex, Val)>, k: KeyIndex, v: Val, other: KeyIndex)
    requires
        entries_sorted(e),
    ensures
        entry_get(put(e, k, v), k) == Some(v),
        other != k ==> entry_get(put(e, k, v), other) == entry_get(e, other),
{
    lemma_lower_bound_splits(e, k);
    let p = lower_bound(e, k);
    let r = put(e, k, v);
    assert forall|j: int| 0 <= j < p implies (#[trigger] r[j]).0 != k by {
        assert(r[j] == e[j]);
        assert(key_less(e[j].0, k));
    }
    lemma_position_is(r, k, p);
    if other != k {
        lemma_entry_position_bounds(e, other);
        let q = entry_position(e, other);
        if p < e.len() && e[p].0 == k {
            assert forall|j: int| 0 <= j < q implies (#[trigger] r[j]).0 != other by {
                assert(r[j].0 == e[j].0);
            }
            lemma_position_is(r, other, q);
        } else {
            let q2 = if q < p {
                q
            } else {
                q + 1
            };
            assert forall|j: int| 0 <= j < q2 implies (#[trigger] r[j]).0 != other by {
                if j < p {
                    assert(r[j] == e[j]);
                } else if j == p {
                } else {
                    assert(r[j] == e[j - 1]);
                }
            }
            if q < e.len() {
                assert(r[q2] == e[q]);
            }
            lemma_position_is(r, other, q2);
        }
    }
}

} // verus!
