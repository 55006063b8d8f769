//! Keyed rows: the model shared by the library's in-memory tables.
//!
//! A table is a sequence of rows in which no key occurs twice. Looking a
//! key up, and putting a row under its key, are stated here once, with
//! the facts that the tables' contracts rest on.

use vstd::prelude::*;

verus! {

/// A row that is found by its key.
pub trait Keyed {
    /// What a row is found by.
    type Key;

    /// The key of this row.
    spec fn key(&self) -> Self::Key;
}

/// No key occurs in two rows.
pub open spec fn unique_keys<R: Keyed>(rows: Seq<R>) -> bool {
    forall|i: int, j: int|
        0 <= i < rows.len() && 0 <= j < rows.len() && i != j ==> #[trigger] rows[i].key()
            != #[trigger] rows[j].key()
}

/// Row `i` exists and has key `k`.
pub open spec fn row_at<R: Keyed>(rows: Seq<R>, k: R::Key, i: int) -> bool {
    0 <= i < rows.len() && rows[i].key() == k
}

/// Some row has key `k`.
pub open spec fn has_key<R: Keyed>(rows: Seq<R>, k: R::Key) -> bool {
    exists|i: int| row_at(rows, k, i)
}

/// The place of a row with key `k`.
pub open spec fn index_of<R: Keyed>(rows: Seq<R>, k: R::Key) -> int {
    choose|i: int| row_at(rows, k, i)
}

/// The row with key `k`, if there is one.
pub open spec fn lookup<R: Keyed>(rows: Seq<R>, k: R::Key) -> Option<R> {
    if has_key(rows, k) {
        Some(rows[index_of(rows, k)])
    } else {
        None
    }
}

/// The table with `row` put under its key: in the place of the row that
/// had the key, or at the end where no row had it.
pub open spec fn put<R: Keyed>(rows: Seq<R>, row: R) -> Seq<R> {
    if has_key(rows, row.key()) {
        rows.update(index_of(rows, row.key()), row)
    } else {
        rows.push(row)
    }
}

/// In a table without repeated keys, a row's key is found at the row's
/// own place.
pub proof fn lemma_index_of<R: Keyed>(rows: Seq<R>, k: R::Key, i: int)
    requires
        unique_keys(rows),
        row_at(rows, k, i),
    ensures
        has_key(rows, k),
        index_of(rows, k) == i,
        lookup(rows, k) == Some(rows[i]),
{
    let j = index_of(rows, k);
    assert(row_at(rows, k, j));
    if i != j {
        assert(rows[i].key() != rows[j].key());
    }
}

/// A key that no row has is not found.
pub proof fn lemma_absent<R: Keyed>(rows: Seq<R>, k: R::Key)
    requires
        forall|i: int| 0 <= i < rows.len() ==> (#[trigger] rows[i]).key() != k,
    ensures
        !has_key(rows, k),
        lookup(rows, k) is None,
{
    if has_key(rows, k) {
        let j = index_of(rows, k);
        assert(row_at(rows, k, j));
        assert(rows[j].key() != k);
    }
}

/// Replacing the row at place `i` by a row with the same key is `put`.
pub proof fn lemma_put_replaces<R: Keyed>(rows: Seq<R>, row: R, i: int)
    requires
        unique_keys(rows),
        row_at(rows, row.key(), i),
    ensures
        put(rows, row) == rows.update(i, row),
{
    lemma_index_of(rows, row.key(), i);
}

/// Appending a row whose key no row has is `put`.
pub proof fn lemma_put_appends<R: Keyed>(rows: Seq<R>, row: R)
    requires
        forall|i: int| 0 <= i < rows.len() ==> (#[trigger] rows[i]).key() != row.key(),
    ensures
        put(rows, row) == rows.push(row),
{
    lemma_absent(rows, row.key());
}

/// `put` keeps the keys unique, stores the row under its key and leaves
/// every other key as it was.
pub proof fn lemma_put<R: Keyed>(rows: Seq<R>, row: R)
    requires
        unique_keys(rows),
    ensures
        unique_keys(put(rows, row)),
        lookup(put(rows, row), row.key()) == Some(row),
        forall|k: R::Key| k != row.key() ==> lookup(put(rows, row), k) == lookup(rows, k),
{
    let after = put(rows, row);
    if has_key(rows, row.key()) {
        let i = index_of(rows, row.key());
        assert(row_at(rows, row.key(), i));
        assert forall|a: int, b: int|
            0 <= a < after.len() && 0 <= b < after.len() && a != b implies #[trigger] after[a].key()
            != #[trigger] after[b].key() by {
            assert(after[a].key() == rows[a].key());
            assert(after[b].key() == rows[b].key());
        }
        assert(row_at(after, row.key(), i));
        lemma_index_of(after, row.key(), i);
        assert forall|k: R::Key| k != row.key() implies lookup(after, k) == lookup(rows, k) by {
            lemma_same_keys_lookup(rows, after, i, k);
        }
    } else {
        assert forall|a: int, b: int|
            0 <= a < after.len() && 0 <= b < after.len() && a != b implies #[trigger] after[a].key()
            != #[trigger] after[b].key() by {
            if a < rows.len() {
                assert(after[a] == rows[a]);
                if !(b < rows.len()) {
                    assert(after[b] == row);
                    if rows[a].key() == row.key() {
                        assert(row_at(rows, row.key(), a));
                    }
                }
            } else {
                assert(after[a] == row);
                assert(after[b] == rows[b]);
                if rows[b].key() == row.key() {
                    assert(row_at(rows, row.key(), b));
                }
            }
        }
        let n = rows.len() as int;
        assert(row_at(after, row.key(), n));
        lemma_index_of(after, row.key(), n);
        assert forall|k: R::Key| k != row.key() implies lookup(after, k) == lookup(rows, k) by {
            if has_key(rows, k) {
                let j = index_of(rows, k);
                assert(row_at(rows, k, j));
                assert(row_at(after, k, j));
                lemma_index_of(after, k, j);
            } else {
                if has_key(after, k) {
                    let j = index_of(after, k);
                    assert(row_at(after, k, j));
                    if j < n {
                        assert(row_at(rows, k, j));
                    }
                }
            }
        }
    }
}

/// Where `after` is `before` with the row at place `i` replaced by one
/// with the same key, every other key is found as before.
proof fn lemma_same_keys_lookup<R: Keyed>(before: Seq<R>, after: Seq<R>, i: int, k: R::Key)
    requires
        unique_keys(before),
        unique_keys(after),
        0 <= i < before.len(),
        after.len() == before.len(),
        forall|j: int| 0 <= j < before.len() && j != i ==> after[j] == before[j],
        after[i].key() == before[i].key(),
        k != before[i].key(),
    ensures
        lookup(after, k) == lookup(before, k),
{
    if has_key(before, k) {
        let j = index_of(before, k);
        assert(row_at(before, k, j));
        assert(row_at(after, k, j));
        lemma_index_of(after, k, j);
    } else {
        if has_key(after, k) {
            let j = index_of(after, k);
            assert(row_at(after, k, j));
            assert(row_at(before, k, j));
        }
    }
}

} // verus!
