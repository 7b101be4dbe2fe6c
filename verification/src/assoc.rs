//! Sequences of key-value pairs, read as maps, and duplicate-free
//! sequences, read as sets.
//!
//! The network state stores its collections in vectors so that every
//! operation on them is plain verified code.  Contracts, on the other
//! hand, speak of maps and sets.  This module defines the abstraction
//! from one to the other and proves how each vector operation (push,
//! update in place, removal by index) moves the abstract map or set.

use vstd::prelude::*;

verus! {

/// No two entries of `s` share a key.
pub open spec fn keys_unique<K, V>(s: Seq<(K, V)>) -> bool {
    forall|i: int, j: int| 0 <= i < j < s.len() ==> s[i].0 != s[j].0
}

/// Some entry of `s` has key `k`.
pub open spec fn contains_key<K, V>(s: Seq<(K, V)>, k: K) -> bool {
    exists|i: int| 0 <= i < s.len() && s[i].0 == k
}

/// The index of the entry with key `k`, provided one exists.
pub open spec fn index_of_key<K, V>(s: Seq<(K, V)>, k: K) -> int {
    choose|i: int| 0 <= i < s.len() && s[i].0 == k
}

/// The sequence of pairs read as a map.  Meaningful when keys are
/// unique; with a duplicate key, the entry `index_of_key` picks wins.
pub open spec fn map_view<K, V>(s: Seq<(K, V)>) -> Map<K, V> {
    Map::new(|k: K| contains_key(s, k), |k: K| s[index_of_key(s, k)].1)
}

/// No two elements of `s` are equal.
pub open spec fn elems_unique<T>(s: Seq<T>) -> bool {
    forall|i: int, j: int| 0 <= i < j < s.len() ==> s[i] != s[j]
}

/// Under unique keys, the entry at index `i` is the map's entry for its
/// key.
pub proof fn lemma_key_at<K, V>(s: Seq<(K, V)>, i: int)
    requires
        keys_unique(s),
        0 <= i < s.len(),
    ensures
        map_view(s).dom().contains(s[i].0),
        map_view(s)[s[i].0] == s[i].1,
{
    assert(contains_key(s, s[i].0));
    let j = index_of_key(s, s[i].0);
    assert(0 <= j < s.len() && s[j].0 == s[i].0);
    if i < j {
        assert(s[i].0 != s[j].0);
    } else if j < i {
        assert(s[j].0 != s[i].0);
    }
}

/// A key no entry carries is not in the map.
pub proof fn lemma_key_absent<K, V>(s: Seq<(K, V)>, k: K)
    requires
        forall|i: int| 0 <= i < s.len() ==> s[i].0 != k,
    ensures
        !map_view(s).dom().contains(k),
{
}

/// Appending an entry with a fresh key inserts it into the map.
pub proof fn lemma_push_entry<K, V>(s: Seq<(K, V)>, k: K, v: V)
    requires
        keys_unique(s),
        !contains_key(s, k),
    ensures
        keys_unique(s.push((k, v))),
        map_view(s.push((k, v))) =~= map_view(s).insert(k, v),
{
    let t = s.push((k, v));
    assert forall|i: int, j: int| 0 <= i < j < t.len() implies t[i].0 != t[j].0 by {
        if j == s.len() as int {
            assert(t[i] == s[i]);
            if s[i].0 == k {
                assert(contains_key(s, k));
            }
        } else {
            assert(t[i] == s[i] && t[j] == s[j]);
        }
    }
    assert forall|x: K| #[trigger] contains_key(t, x) implies
        (x == k || contains_key(s, x)) by {
        let i = choose|i: int| 0 <= i < t.len() && t[i].0 == x;
        if i < s.len() {
            assert(s[i].0 == x);
        }
    }
    assert forall|x: K| x != k && #[trigger] contains_key(s, x) implies contains_key(t, x) by {
        let i = choose|i: int| 0 <= i < s.len() && s[i].0 == x;
        assert(t[i].0 == x);
    }
    assert(t[s.len() as int].0 == k);
    lemma_key_at(t, s.len() as int);
    assert forall|x: K| x != k && #[trigger] contains_key(s, x) implies
        map_view(t)[x] == map_view(s)[x] by {
        let i = choose|i: int| 0 <= i < s.len() && s[i].0 == x;
        lemma_key_at(s, i);
        assert(t[i].0 == x);
        lemma_key_at(t, i);
    }
}

/// Overwriting the entry that holds key `k` replaces that key's value.
pub proof fn lemma_update_entry<K, V>(s: Seq<(K, V)>, i: int, k: K, v: V)
    requires
        keys_unique(s),
        0 <= i < s.len(),
        s[i].0 == k,
    ensures
        keys_unique(s.update(i, (k, v))),
        map_view(s.update(i, (k, v))) =~= map_view(s).insert(k, v),
{
    let t = s.update(i, (k, v));
    assert forall|p: int, q: int| 0 <= p < q < t.len() implies t[p].0 != t[q].0 by {
        assert(t[p].0 == s[p].0 && t[q].0 == s[q].0);
    }
    assert forall|x: K| #[trigger] contains_key(t, x) implies contains_key(s, x) by {
        let w = choose|w: int| 0 <= w < t.len() && t[w].0 == x;
        assert(s[w].0 == x);
    }
    assert forall|x: K| #[trigger] contains_key(s, x) implies contains_key(t, x) by {
        let w = choose|w: int| 0 <= w < s.len() && s[w].0 == x;
        assert(t[w].0 == x);
    }
    lemma_key_at(t, i);
    assert forall|x: K| x != k && #[trigger] contains_key(s, x) implies
        map_view(t)[x] == map_view(s)[x] by {
        let w = choose|w: int| 0 <= w < s.len() && s[w].0 == x;
        lemma_key_at(s, w);
        assert(t[w].0 == x);
        lemma_key_at(t, w);
    }
}

/// Removing the entry at index `i` removes its key from the map.
pub proof fn lemma_remove_entry<K, V>(s: Seq<(K, V)>, i: int)
    requires
        keys_unique(s),
        0 <= i < s.len(),
    ensures
        keys_unique(s.remove(i)),
        map_view(s.remove(i)) =~= map_view(s).remove(s[i].0),
{
    let k = s[i].0;
    let t = s.remove(i);
    assert forall|p: int, q: int| 0 <= p < q < t.len() implies t[p].0 != t[q].0 by {
        let p0: int = if p < i { p } else { p + 1 };
        let q0: int = if q < i { q } else { q + 1 };
        assert(t[p] == s[p0] && t[q] == s[q0]);
    }
    assert forall|x: K| #[trigger] contains_key(t, x) implies
        (contains_key(s, x) && x != k) by {
        let w = choose|w: int| 0 <= w < t.len() && t[w].0 == x;
        let w0: int = if w < i { w } else { w + 1 };
        assert(s[w0].0 == x);
        if s[w0].0 == k {
            assert(w0 != i);
        }
    }
    assert forall|x: K| x != k && #[trigger] contains_key(s, x) implies contains_key(t, x) by {
        let w = choose|w: int| 0 <= w < s.len() && s[w].0 == x;
        assert(w != i);
        let w1: int = if w < i { w } else { w - 1 };
        assert(t[w1].0 == x);
    }
    assert forall|x: K| x != k && #[trigger] contains_key(s, x) implies
        map_view(t)[x] == map_view(s)[x] by {
        let w = choose|w: int| 0 <= w < s.len() && s[w].0 == x;
        lemma_key_at(s, w);
        let w1: int = if w < i { w } else { w - 1 };
        assert(t[w1] == s[w]);
        lemma_key_at(t, w1);
    }
}

/// Appending a fresh element inserts it into the set.
pub proof fn lemma_push_elem<T>(s: Seq<T>, x: T)
    requires
        elems_unique(s),
        !s.contains(x),
    ensures
        elems_unique(s.push(x)),
        s.push(x).to_set() =~= s.to_set().insert(x),
{
    let t = s.push(x);
    assert forall|i: int, j: int| 0 <= i < j < t.len() implies t[i] != t[j] by {
        if j == s.len() as int {
            assert(t[i] == s[i]);
            if s[i] == x {
                assert(s.contains(x));
            }
        } else {
            assert(t[i] == s[i] && t[j] == s[j]);
        }
    }
    assert forall|y: T| #[trigger] t.contains(y) implies (y == x || s.contains(y)) by {
        let i = choose|i: int| 0 <= i < t.len() && t[i] == y;
        if i < s.len() {
            assert(s[i] == y);
        }
    }
    assert(t[s.len() as int] == x);
    assert forall|y: T| #[trigger] s.contains(y) implies t.contains(y) by {
        let i = choose|i: int| 0 <= i < s.len() && s[i] == y;
        assert(t[i] == y);
    }
}

/// Removing the element at index `i` removes it from the set.
pub proof fn lemma_remove_elem<T>(s: Seq<T>, i: int)
    requires
        elems_unique(s),
        0 <= i < s.len(),
    ensures
        elems_unique(s.remove(i)),
        s.remove(i).to_set() =~= s.to_set().remove(s[i]),
{
    let x = s[i];
    let t = s.remove(i);
    assert forall|p: int, q: int| 0 <= p < q < t.len() implies t[p] != t[q] by {
        let p0: int = if p < i { p } else { p + 1 };
        let q0: int = if q < i { q } else { q + 1 };
        assert(t[p] == s[p0] && t[q] == s[q0]);
    }
    assert forall|y: T| #[trigger] t.contains(y) implies (s.contains(y) && y != x) by {
        let w = choose|w: int| 0 <= w < t.len() && t[w] == y;
        let w0: int = if w < i { w } else { w + 1 };
        assert(s[w0] == y);
        if s[w0] == x {
            assert(w0 != i);
        }
    }
    assert forall|y: T| y != x && #[trigger] s.contains(y) implies t.contains(y) by {
        let w = choose|w: int| 0 <= w < s.len() && s[w] == y;
        assert(w != i);
        let w1: int = if w < i { w } else { w - 1 };
        assert(t[w1] == y);
    }
}

} // verus!
