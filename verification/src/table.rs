//! Keyed tables as sequences of rows: the model of the ledger's key-value
//! storage. A row is found by its key; writing a row replaces the row with the
//! same key, or appends the row where there is none.

use vstd::prelude::*;

verus! {

/// The views of a sequence of rows.
pub open spec fn views_of<T: View>(rows: Seq<T>) -> Seq<T::V> {
    rows.map_values(|r: T| r@)
}

/// Where the first row with key `k` stands, if there is one.
pub open spec fn lookup<T, K>(rows: Seq<T>, key: spec_fn(T) -> K, k: K) -> Option<int>
    decreases rows.len(),
{
    if rows.len() == 0 {
        None
    } else {
        match lookup(rows.drop_last(), key, k) {
            Some(i) => Some(i),
            None => if key(rows.last()) == k {
                Some(rows.len() - 1)
            } else {
                None
            },
        }
    }
}

/// The first row with key `k`, if there is one.
pub open spec fn row_of<T, K>(rows: Seq<T>, key: spec_fn(T) -> K, k: K) -> Option<T> {
    match lookup(rows, key, k) {
        Some(i) => Some(rows[i]),
        None => None,
    }
}

/// The table after `row` was written under its key.
pub open spec fn upsert<T, K>(rows: Seq<T>, key: spec_fn(T) -> K, row: T) -> Seq<T> {
    match lookup(rows, key, key(row)) {
        Some(i) => rows.update(i, row),
        None => rows.push(row),
    }
}

/// No two rows share a key.
pub open spec fn distinct_keys<T, K>(rows: Seq<T>, key: spec_fn(T) -> K) -> bool {
    forall|i: int, j: int|
        0 <= i < j < rows.len() ==> key(#[trigger] rows[i]) != key(#[trigger] rows[j])
}

/// What `lookup` finds: the first index at which the key occurs, and nothing
/// exactly when the key occurs nowhere.
pub proof fn lemma_lookup<T, K>(rows: Seq<T>, key: spec_fn(T) -> K, k: K)
    ensures
        match lookup(rows, key, k) {
            Some(i) => {
                &&& 0 <= i < rows.len()
                &&& key(rows[i]) == k
                &&& forall|j: int| 0 <= j < i ==> key(#[trigger] rows[j]) != k
            },
            None => forall|j: int| 0 <= j < rows.len() ==> key(#[trigger] rows[j]) != k,
        },
    decreases rows.len(),
{
    if rows.len() > 0 {
        lemma_lookup(rows.drop_last(), key, k);
        assert forall|j: int| 0 <= j < rows.len() - 1 implies rows.drop_last()[j] == rows[j] by {}
        match lookup(rows.drop_last(), key, k) {
            Some(i) => {
                assert(rows.drop_last()[i] == rows[i]);
                assert forall|j: int| 0 <= j < i implies key(#[trigger] rows[j]) != k by {
                    assert(rows.drop_last()[j] == rows[j]);
                }
            },
            None => {
                assert forall|j: int| 0 <= j < rows.len() - 1 implies key(#[trigger] rows[j])
                    != k by {
                    assert(rows.drop_last()[j] == rows[j]);
                }
            },
        }
    }
}

/// A key that occurs at `i` and nowhere before `i` is found at `i`.
pub proof fn lemma_lookup_at<T, K>(rows: Seq<T>, key: spec_fn(T) -> K, k: K, i: int)
    requires
        0 <= i < rows.len(),
        key(rows[i]) == k,
        forall|j: int| 0 <= j < i ==> key(#[trigger] rows[j]) != k,
    ensures
        lookup(rows, key, k) == Some(i),
{
    lemma_lookup(rows, key, k);
}

/// A key that occurs nowhere is not found.
pub proof fn lemma_lookup_none<T, K>(rows: Seq<T>, key: spec_fn(T) -> K, k: K)
    requires
        forall|j: int| 0 <= j < rows.len() ==> key(#[trigger] rows[j]) != k,
    ensures
        lookup(rows, key, k) is None,
{
    lemma_lookup(rows, key, k);
}

/// Two tables whose rows carry the same keys find every key at the same
/// place.
pub proof fn lemma_lookup_same_keys<T, K>(a: Seq<T>, b: Seq<T>, key: spec_fn(T) -> K, k: K)
    requires
        a.len() == b.len(),
        forall|j: int| 0 <= j < a.len() ==> key(#[trigger] a[j]) == key(#[trigger] b[j]),
    ensures
        lookup(a, key, k) == lookup(b, key, k),
{
    lemma_lookup(a, key, k);
    lemma_lookup(b, key, k);
    assert forall|j: int| 0 <= j < a.len() implies (key(#[trigger] a[j]) == k) == (key(b[j])
        == k) by {
        assert(key(a[j]) == key(b[j]));
    }
    assert forall|j: int| 0 <= j < b.len() implies (key(#[trigger] b[j]) == k) == (key(a[j])
        == k) by {
        assert(key(a[j]) == key(b[j]));
    }
    match (lookup(a, key, k), lookup(b, key, k)) {
        (Some(i), Some(j)) => {
            assert(key(a[j]) == k);
            assert(key(b[i]) == k);
        },
        (Some(i), None) => {
            assert(key(b[i]) == k);
        },
        (None, Some(j)) => {
            assert(key(a[j]) == k);
        },
        (None, None) => {},
    }
}

/// After a write, the written key is found and holds the written row; every
/// other key is found where it was, with the row it had.
pub proof fn lemma_upsert<T, K>(rows: Seq<T>, key: spec_fn(T) -> K, row: T, k: K)
    ensures
        row_of(upsert(rows, key, row), key, key(row)) == Some(row),
        k != key(row) ==> lookup(upsert(rows, key, row), key, k) == lookup(rows, key, k),
        k != key(row) ==> row_of(upsert(rows, key, row), key, k) == row_of(rows, key, k),
        lookup(rows, key, key(row)) is Some ==> lookup(upsert(rows, key, row), key, key(row))
            == lookup(rows, key, key(row)),
        lookup(rows, key, key(row)) is None ==> lookup(upsert(rows, key, row), key, key(row))
            == Some(rows.len() as int),
{
    let after = upsert(rows, key, row);
    lemma_lookup(rows, key, key(row));
    lemma_lookup(rows, key, k);
    lemma_lookup(after, key, key(row));
    lemma_lookup(after, key, k);
    match lookup(rows, key, key(row)) {
        Some(i) => {
            assert forall|j: int| 0 <= j < rows.len() implies key(#[trigger] rows[j]) == key(
                #[trigger] after[j],
            ) by {}
            lemma_lookup_same_keys(rows, after, key, k);
            lemma_lookup_same_keys(rows, after, key, key(row));
        },
        None => {
            assert forall|j: int| 0 <= j < rows.len() implies after[j] == rows[j] by {}
            lemma_lookup_at(after, key, key(row), rows.len() as int);
            if k != key(row) {
                match lookup(rows, key, k) {
                    Some(i) => {
                        lemma_lookup_at(after, key, k, i);
                    },
                    None => {
                        lemma_lookup_none(after, key, k);
                    },
                }
            }
        },
    }
}

/// After a write every row is the written row or a row that was there, at
/// the place where it was.
pub proof fn lemma_upsert_rows<T, K>(rows: Seq<T>, key: spec_fn(T) -> K, row: T)
    ensures
        rows.len() <= upsert(rows, key, row).len() <= rows.len() + 1,
        forall|i: int|
            0 <= i < upsert(rows, key, row).len() ==> {
                ||| #[trigger] upsert(rows, key, row)[i] == row
                ||| i < rows.len() && upsert(rows, key, row)[i] == rows[i]
            },
{
    lemma_lookup(rows, key, key(row));
}

/// A write keeps the keys distinct.
pub proof fn lemma_upsert_distinct<T, K>(rows: Seq<T>, key: spec_fn(T) -> K, row: T)
    requires
        distinct_keys(rows, key),
    ensures
        distinct_keys(upsert(rows, key, row), key),
{
    let after = upsert(rows, key, row);
    lemma_lookup(rows, key, key(row));
    assert forall|i: int, j: int| 0 <= i < j < after.len() implies key(#[trigger] after[i])
        != key(#[trigger] after[j]) by {
        match lookup(rows, key, key(row)) {
            Some(p) => {
                assert(key(after[i]) == key(rows[i]));
                assert(key(after[j]) == key(rows[j]));
            },
            None => {
                if j < rows.len() {
                    assert(after[i] == rows[i]);
                    assert(after[j] == rows[j]);
                } else {
                    assert(after[i] == rows[i]);
                    assert(key(rows[i]) != key(row));
                }
            },
        }
    }
}

/// In a table of distinct keys a key is found wherever it occurs.
pub proof fn lemma_lookup_distinct<T, K>(rows: Seq<T>, key: spec_fn(T) -> K, i: int)
    requires
        distinct_keys(rows, key),
        0 <= i < rows.len(),
    ensures
        lookup(rows, key, key(rows[i])) == Some(i),
{
    lemma_lookup(rows, key, key(rows[i]));
}

/// A table in which every row is found at its own place has distinct keys.
pub proof fn lemma_found_in_place_distinct<T, K>(rows: Seq<T>, key: spec_fn(T) -> K)
    requires
        forall|i: int| 0 <= i < rows.len() ==> lookup(rows, key, key(#[trigger] rows[i])) == Some(i),
    ensures
        distinct_keys(rows, key),
{
    assert forall|i: int, j: int| 0 <= i < j < rows.len() implies key(#[trigger] rows[i]) != key(
        #[trigger] rows[j],
    ) by {
        lemma_lookup(rows, key, key(rows[j]));
    }
}

} // verus!
