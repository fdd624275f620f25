//! Keyed tables stored as sequences of rows, each row carrying its own key.
//!
//! A table whose keys are pairwise distinct is viewed as a finite map from key
//! to row; the lemmas here relate the usual sequence edits to map edits.
use vstd::prelude::*;

verus! {

/// No two rows of `s` share a key.
pub open spec fn keys_unique<T, K>(s: Seq<T>, key: spec_fn(T) -> K) -> bool {
    forall|i: int, j: int|
        0 <= i < s.len() && 0 <= j < s.len() && #[trigger] key(s[i]) == #[trigger] key(s[j]) ==> i
            == j
}

/// The map from key to row that the sequence `s` stands for.
pub open spec fn table_view<T, K>(s: Seq<T>, key: spec_fn(T) -> K) -> Map<K, T>
    decreases s.len(),
{
    if s.len() == 0 {
        Map::empty()
    } else {
        table_view(s.drop_last(), key).insert(key(s.last()), s.last())
    }
}

/// Dropping the last row keeps the keys distinct.
pub proof fn lemma_unique_drop_last<T, K>(s: Seq<T>, key: spec_fn(T) -> K)
    requires
        keys_unique(s, key),
        s.len() > 0,
    ensures
        keys_unique(s.drop_last(), key),
{
    let d = s.drop_last();
    assert forall|a: int, b: int|
        0 <= a < d.len() && 0 <= b < d.len() && #[trigger] key(d[a]) == #[trigger] key(
            d[b],
        ) implies a == b by {
        assert(d[a] == s[a] && d[b] == s[b]);
    }
}

/// A key that no row carries is absent from the view.
pub proof fn lemma_view_absent<T, K>(s: Seq<T>, key: spec_fn(T) -> K, k: K)
    requires
        forall|i: int| 0 <= i < s.len() ==> key(#[trigger] s[i]) != k,
    ensures
        !table_view(s, key).contains_key(k),
    decreases s.len(),
{
    if s.len() > 0 {
        let d = s.drop_last();
        assert forall|i: int| 0 <= i < d.len() implies key(#[trigger] d[i]) != k by {
            assert(d[i] == s[i]);
        }
        lemma_view_absent(d, key, k);
    }
}

/// Every row of a table with distinct keys is what the view holds at its key.
pub proof fn lemma_view_index<T, K>(s: Seq<T>, key: spec_fn(T) -> K, i: int)
    requires
        keys_unique(s, key),
        0 <= i < s.len(),
    ensures
        table_view(s, key).contains_key(key(s[i])),
        table_view(s, key)[key(s[i])] == s[i],
    decreases s.len(),
{
    if i < s.len() - 1 {
        let d = s.drop_last();
        assert(d[i] == s[i]);
        lemma_unique_drop_last(s, key);
        lemma_view_index(d, key, i);
        assert(key(s[i]) != key(s[s.len() - 1]));
    }
}

/// A table with distinct keys stays so when a row with a fresh key is added.
pub proof fn lemma_push<T, K>(s: Seq<T>, key: spec_fn(T) -> K, v: T)
    requires
        keys_unique(s, key),
        !table_view(s, key).contains_key(key(v)),
    ensures
        keys_unique(s.push(v), key),
        table_view(s.push(v), key) == table_view(s, key).insert(key(v), v),
{
    let p = s.push(v);
    assert(p.drop_last() =~= s);
    assert forall|a: int, b: int|
        0 <= a < p.len() && 0 <= b < p.len() && #[trigger] key(p[a]) == #[trigger] key(
            p[b],
        ) implies a == b by {
        if a < s.len() {
            lemma_view_index(s, key, a);
            assert(p[a] == s[a]);
        }
        if b < s.len() {
            lemma_view_index(s, key, b);
            assert(p[b] == s[b]);
        }
    }
}

/// Replacing a row by one with the same key replaces the view's entry.
pub proof fn lemma_update<T, K>(s: Seq<T>, key: spec_fn(T) -> K, i: int, v: T)
    requires
        keys_unique(s, key),
        0 <= i < s.len(),
        key(v) == key(s[i]),
    ensures
        keys_unique(s.update(i, v), key),
        table_view(s.update(i, v), key) == table_view(s, key).insert(key(v), v),
    decreases s.len(),
{
    let u = s.update(i, v);
    assert forall|a: int, b: int|
        0 <= a < u.len() && 0 <= b < u.len() && #[trigger] key(u[a]) == #[trigger] key(
            u[b],
        ) implies a == b by {
        assert(key(u[a]) == key(s[a]));
        assert(key(u[b]) == key(s[b]));
    }
    let d = s.drop_last();
    if i == s.len() - 1 {
        assert(u.drop_last() =~= d);
        assert(table_view(u, key) =~= table_view(s, key).insert(key(v), v));
    } else {
        assert(u.drop_last() =~= d.update(i, v));
        assert(d[i] == s[i]);
        lemma_unique_drop_last(s, key);
        lemma_update(d, key, i, v);
        assert(key(s[i]) != key(s[s.len() - 1]));
        assert(table_view(u, key) =~= table_view(s, key).insert(key(v), v));
    }
}

/// Removing a row removes its key from the view.
pub proof fn lemma_remove<T, K>(s: Seq<T>, key: spec_fn(T) -> K, i: int)
    requires
        keys_unique(s, key),
        0 <= i < s.len(),
    ensures
        keys_unique(s.remove(i), key),
        table_view(s.remove(i), key) == table_view(s, key).remove(key(s[i])),
    decreases s.len(),
{
    let r = s.remove(i);
    assert forall|a: int, b: int|
        0 <= a < r.len() && 0 <= b < r.len() && #[trigger] key(r[a]) == #[trigger] key(
            r[b],
        ) implies a == b by {
        let sa = if a < i { a } else { a + 1 };
        let sb = if b < i { b } else { b + 1 };
        assert(r[a] == s[sa]);
        assert(r[b] == s[sb]);
    }
    let d = s.drop_last();
    lemma_unique_drop_last(s, key);
    if i == s.len() - 1 {
        assert(r =~= d);
        assert forall|a: int| 0 <= a < d.len() implies key(#[trigger] d[a]) != key(s[i]) by {
            assert(d[a] == s[a]);
        }
        lemma_view_absent(d, key, key(s[i]));
        assert(table_view(r, key) =~= table_view(s, key).remove(key(s[i])));
    } else {
        assert(r.drop_last() =~= d.remove(i));
        assert(r.last() == s.last());
        assert(d[i] == s[i]);
        lemma_remove(d, key, i);
        assert(key(s[i]) != key(s[s.len() - 1]));
        assert(table_view(r, key) =~= table_view(s, key).remove(key(s[i])));
    }
}

} // verus!
