//! Tables as sequences of rows that a key tells apart.

use vstd::prelude::*;

verus! {

/// No two rows of `rows` have the same key.
pub open spec fn distinct_by<T, K>(rows: Seq<T>, key: spec_fn(T) -> K) -> bool {
    forall|i: int, j: int|
        0 <= i < j < rows.len() ==> key(#[trigger] rows[i]) != key(#[trigger] rows[j])
}

/// Some row of `rows` has the key `k`.
pub open spec fn has_key<T, K>(rows: Seq<T>, key: spec_fn(T) -> K, k: K) -> bool {
    exists|i: int| 0 <= i < rows.len() && key(#[trigger] rows[i]) == k
}

/// The place of a row with the key `k`.
pub open spec fn slot_of<T, K>(rows: Seq<T>, key: spec_fn(T) -> K, k: K) -> int {
    choose|i: int| 0 <= i < rows.len() && key(#[trigger] rows[i]) == k
}

/// The row with the key `k`, if there is one.
pub open spec fn row_of<T, K>(rows: Seq<T>, key: spec_fn(T) -> K, k: K) -> Option<T> {
    if has_key(rows, key, k) {
        Some(rows[slot_of(rows, key, k)])
    } else {
        None
    }
}

/// In a table with distinct keys, the row found under a row's key is that row.
pub proof fn lemma_row_found<T, K>(rows: Seq<T>, key: spec_fn(T) -> K, i: int)
    requires
        distinct_by(rows, key),
        0 <= i < rows.len(),
    ensures
        has_key(rows, key, key(rows[i])),
        slot_of(rows, key, key(rows[i])) == i,
        row_of(rows, key, key(rows[i])) == Some(rows[i]),
{
    let k = key(rows[i]);
    assert(key(rows[i]) == k);
    let j = slot_of(rows, key, k);
    assert(0 <= j < rows.len() && key(rows[j]) == k);
    if j < i {
        assert(key(rows[j]) != key(rows[i]));
    }
    if i < j {
        assert(key(rows[i]) != key(rows[j]));
    }
}

/// Where no row has the key, none is found.
pub proof fn lemma_row_absent<T, K>(rows: Seq<T>, key: spec_fn(T) -> K, k: K)
    requires
        forall|i: int| 0 <= i < rows.len() ==> key(#[trigger] rows[i]) != k,
    ensures
        !has_key(rows, key, k),
        row_of(rows, key, k) is None,
{
}

/// Filtering one row more either keeps it at the end or drops it.
pub proof fn lemma_filter_step<T>(rows: Seq<T>, i: int, pred: spec_fn(T) -> bool)
    requires
        0 <= i < rows.len(),
    ensures
        rows.take(i + 1).filter(pred) == if pred(rows[i]) {
            rows.take(i).filter(pred).push(rows[i])
        } else {
            rows.take(i).filter(pred)
        },
{
    assert(rows.take(i + 1) == rows.take(i).push(rows[i]));
    Seq::lemma_filter_push(rows.take(i), rows[i], pred);
}

/// What a filter keeps are rows of the table, each passing the test.
pub proof fn lemma_filter_members<T>(rows: Seq<T>, pred: spec_fn(T) -> bool)
    ensures
        rows.filter(pred).len() <= rows.len(),
        forall|i: int|
            0 <= i < rows.filter(pred).len() ==> pred(#[trigger] rows.filter(pred)[i])
                && rows.contains(rows.filter(pred)[i]),
        forall|i: int|
            0 <= i < rows.len() && pred(rows[i]) ==> rows.filter(pred).contains(
                #[trigger] rows[i],
            ),
{
    let kept = rows.filter(pred);
    Seq::lemma_filter_len(rows, pred);
    assert forall|i: int| 0 <= i < kept.len() implies pred(#[trigger] kept[i]) && rows.contains(
        kept[i],
    ) by {
        Seq::lemma_filter_pred(rows, pred, i);
        assert(kept.contains(kept[i]));
        Seq::lemma_filter_contains_rev(rows, pred, kept[i]);
    }
    assert forall|i: int| 0 <= i < rows.len() && pred(rows[i]) implies kept.contains(
        #[trigger] rows[i],
    ) by {
        Seq::lemma_filter_contains(rows, pred, i);
    }
}

/// A filter of a table with distinct keys has distinct keys.
pub proof fn lemma_filter_distinct<T, K>(
    rows: Seq<T>,
    key: spec_fn(T) -> K,
    pred: spec_fn(T) -> bool,
)
    requires
        distinct_by(rows, key),
    ensures
        distinct_by(rows.filter(pred), key),
    decreases rows.len(),
{
    reveal(Seq::filter);
    if rows.len() > 0 {
        let front = rows.drop_last();
        assert(distinct_by(front, key)) by {
            assert forall|i: int, j: int| 0 <= i < j < front.len() implies key(
                #[trigger] front[i],
            ) != key(#[trigger] front[j]) by {
                assert(front[i] == rows[i] && front[j] == rows[j]);
            }
        }
        lemma_filter_distinct(front, key, pred);
        lemma_filter_members(front, pred);
        let kept = front.filter(pred);
        if pred(rows.last()) {
            let all = kept.push(rows.last());
            assert forall|i: int, j: int| 0 <= i < j < all.len() implies key(#[trigger] all[i])
                != key(#[trigger] all[j]) by {
                if j == all.len() - 1 {
                    assert(all[i] == kept[i]);
                    assert(front.contains(kept[i]));
                    let m = choose|m: int| 0 <= m < front.len() && front[m] == kept[i];
                    assert(rows[m] == kept[i]);
                    assert(key(rows[m]) != key(rows[rows.len() - 1]));
                } else {
                    assert(all[i] == kept[i] && all[j] == kept[j]);
                }
            }
        }
    }
}

/// Under distinct keys, a filter keeps exactly the rows that pass the test,
/// each under its key.
pub proof fn lemma_filter_rows<T, K>(
    rows: Seq<T>,
    key: spec_fn(T) -> K,
    pred: spec_fn(T) -> bool,
    k: K,
)
    requires
        distinct_by(rows, key),
    ensures
        row_of(rows.filter(pred), key, k) == match row_of(rows, key, k) {
            Some(row) => if pred(row) {
                Some(row)
            } else {
                None
            },
            None => None,
        },
{
    let kept = rows.filter(pred);
    lemma_filter_distinct(rows, key, pred);
    lemma_filter_members(rows, pred);
    if has_key(kept, key, k) {
        let j = slot_of(kept, key, k);
        assert(rows.contains(kept[j]));
        let m = choose|m: int| 0 <= m < rows.len() && rows[m] == kept[j];
        lemma_row_found(rows, key, m);
    } else {
        if has_key(rows, key, k) {
            let m = slot_of(rows, key, k);
            if pred(rows[m]) {
                assert(kept.contains(rows[m]));
                let j = choose|j: int| 0 <= j < kept.len() && kept[j] == rows[m];
                assert(key(kept[j]) == k);
            }
        }
    }
}

/// Adding a row under a new key keeps the keys distinct; the new row is found
/// under its key and every other key finds what it found before.
pub proof fn lemma_push_rows<T, K>(rows: Seq<T>, key: spec_fn(T) -> K, row: T, k: K)
    requires
        distinct_by(rows, key),
        !has_key(rows, key, key(row)),
    ensures
        distinct_by(rows.push(row), key),
        row_of(rows.push(row), key, k) == if k == key(row) {
            Some(row)
        } else {
            row_of(rows, key, k)
        },
{
    let all = rows.push(row);
    assert forall|i: int, j: int| 0 <= i < j < all.len() implies key(#[trigger] all[i]) != key(
        #[trigger] all[j],
    ) by {
        assert(all[i] == rows[i]);
        if j < rows.len() {
            assert(all[j] == rows[j]);
        } else {
            assert(key(rows[i]) != key(row));
        }
    }
    let last = rows.len() as int;
    assert(all[last] == row);
    if k == key(row) {
        lemma_row_found(all, key, last);
    } else {
        if has_key(rows, key, k) {
            let m = slot_of(rows, key, k);
            assert(all[m] == rows[m]);
            lemma_row_found(all, key, m);
        } else {
            assert forall|i: int| 0 <= i < all.len() implies key(#[trigger] all[i]) != k by {
                if i < rows.len() {
                    assert(all[i] == rows[i]);
                }
            }
        }
    }
}

/// Replacing a row by one with the same key keeps the keys distinct; the new
/// row is found under that key and every other key finds what it found before.
pub proof fn lemma_update_rows<T, K>(rows: Seq<T>, key: spec_fn(T) -> K, i: int, row: T, k: K)
    requires
        distinct_by(rows, key),
        0 <= i < rows.len(),
        key(row) == key(rows[i]),
    ensures
        distinct_by(rows.update(i, row), key),
        row_of(rows.update(i, row), key, k) == if k == key(row) {
            Some(row)
        } else {
            row_of(rows, key, k)
        },
{
    let all = rows.update(i, row);
    assert forall|a: int, b: int| 0 <= a < b < all.len() implies key(#[trigger] all[a]) != key(
        #[trigger] all[b],
    ) by {
        assert(key(all[a]) == key(rows[a]));
        assert(key(all[b]) == key(rows[b]));
    }
    assert(all[i] == row);
    if k == key(row) {
        lemma_row_found(all, key, i);
    } else {
        if has_key(rows, key, k) {
            let m = slot_of(rows, key, k);
            assert(m != i);
            assert(all[m] == rows[m]);
            lemma_row_found(all, key, m);
        } else {
            assert forall|j: int| 0 <= j < all.len() implies key(#[trigger] all[j]) != k by {
                assert(key(all[j]) == key(rows[j]));
            }
        }
    }
}

/// Replacing a row by one whose key no other row has keeps the keys distinct.
pub proof fn lemma_update_distinct<T, K>(rows: Seq<T>, key: spec_fn(T) -> K, i: int, row: T)
    requires
        distinct_by(rows, key),
        0 <= i < rows.len(),
        forall|j: int| 0 <= j < rows.len() && j != i ==> key(#[trigger] rows[j]) != key(row),
    ensures
        distinct_by(rows.update(i, row), key),
{
    let all = rows.update(i, row);
    assert forall|a: int, b: int| 0 <= a < b < all.len() implies key(#[trigger] all[a]) != key(
        #[trigger] all[b],
    ) by {
        if a == i {
            assert(all[b] == rows[b]);
        } else if b == i {
            assert(all[a] == rows[a]);
        } else {
            assert(all[a] == rows[a] && all[b] == rows[b]);
        }
    }
}

/// Adding a row whose key no row has keeps the keys distinct.
pub proof fn lemma_push_distinct<T, K>(rows: Seq<T>, key: spec_fn(T) -> K, row: T)
    requires
        distinct_by(rows, key),
        !has_key(rows, key, key(row)),
    ensures
        distinct_by(rows.push(row), key),
{
    lemma_push_rows(rows, key, row, key(row));
}

/// A table without rows has distinct keys and holds no key.
pub proof fn lemma_empty_rows<T, K>(key: spec_fn(T) -> K, k: K)
    ensures
        distinct_by(Seq::<T>::empty(), key),
        !has_key(Seq::<T>::empty(), key, k),
{
}

/// A filter of no rows keeps none.
pub proof fn lemma_filter_none<T>(rows: Seq<T>, pred: spec_fn(T) -> bool)
    ensures
        rows.take(0).filter(pred) == Seq::<T>::empty(),
{
    reveal(Seq::filter);
    assert(rows.take(0).filter(pred) =~= Seq::<T>::empty());
}

/// A filter that every row passes keeps the rows as they are.
pub proof fn lemma_filter_keeps_all<T>(rows: Seq<T>, pred: spec_fn(T) -> bool)
    requires
        forall|i: int| 0 <= i < rows.len() ==> pred(#[trigger] rows[i]),
    ensures
        rows.filter(pred) == rows,
    decreases rows.len(),
{
    reveal(Seq::filter);
    if rows.len() > 0 {
        let front = rows.drop_last();
        assert forall|i: int| 0 <= i < front.len() implies pred(#[trigger] front[i]) by {
            assert(front[i] == rows[i]);
        }
        lemma_filter_keeps_all(front, pred);
        assert(pred(rows[rows.len() - 1]));
        assert(rows.filter(pred) =~= rows);
    } else {
        assert(rows.filter(pred) =~= rows);
    }
}

/// A filter of all the rows, written as one of the first `rows.len()` rows.
pub proof fn lemma_filter_all<T>(rows: Seq<T>, pred: spec_fn(T) -> bool)
    ensures
        rows.take(rows.len() as int).filter(pred) == rows.filter(pred),
        rows.filter(pred).len() <= rows.len(),
{
    assert(rows.take(rows.len() as int) == rows);
    Seq::lemma_filter_len(rows, pred);
}

/// Selecting from one row more, and showing each selected row through `f`,
/// either adds the row's image at the end or adds nothing.
pub proof fn lemma_select_step<T, U>(
    rows: Seq<T>,
    i: int,
    pred: spec_fn(T) -> bool,
    f: spec_fn(T) -> U,
)
    requires
        0 <= i < rows.len(),
    ensures
        rows.take(i + 1).filter(pred).map_values(f) == if pred(rows[i]) {
            rows.take(i).filter(pred).map_values(f).push(f(rows[i]))
        } else {
            rows.take(i).filter(pred).map_values(f)
        },
{
    lemma_filter_step(rows, i, pred);
    if pred(rows[i]) {
        assert(rows.take(i).filter(pred).push(rows[i]).map_values(f) =~= rows.take(i).filter(
            pred,
        ).map_values(f).push(f(rows[i])));
    }
}

/// A selection from no rows is empty.
pub proof fn lemma_select_none<T, U>(rows: Seq<T>, pred: spec_fn(T) -> bool, f: spec_fn(T) -> U)
    ensures
        rows.take(0).filter(pred).map_values(f) == Seq::<U>::empty(),
{
    lemma_filter_none(rows, pred);
    assert(Seq::<T>::empty().map_values(f) =~= Seq::<U>::empty());
}

/// A selection shown through `f` holds exactly the images of the rows that
/// pass the test.
pub proof fn lemma_select_members<T, U>(
    rows: Seq<T>,
    pred: spec_fn(T) -> bool,
    f: spec_fn(T) -> U,
    x: U,
)
    ensures
        rows.filter(pred).map_values(f).contains(x) <==> exists|i: int|
            0 <= i < rows.len() && pred(#[trigger] rows[i]) && f(rows[i]) == x,
{
    let kept = rows.filter(pred);
    let shown = kept.map_values(f);
    lemma_filter_members(rows, pred);
    if shown.contains(x) {
        let k = choose|k: int| 0 <= k < shown.len() && shown[k] == x;
        assert(f(kept[k]) == x);
        assert(rows.contains(kept[k]));
        let i = choose|i: int| 0 <= i < rows.len() && rows[i] == kept[k];
        assert(pred(rows[i]) && f(rows[i]) == x);
    }
    if exists|i: int| 0 <= i < rows.len() && pred(#[trigger] rows[i]) && f(rows[i]) == x {
        let i = choose|i: int| 0 <= i < rows.len() && pred(#[trigger] rows[i]) && f(rows[i]) == x;
        assert(kept.contains(rows[i]));
        let k = choose|k: int| 0 <= k < kept.len() && kept[k] == rows[i];
        assert(shown[k] == x);
    }
}

} // verus!
