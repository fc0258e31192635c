//! Tables as sequences of rows: finding the first row that matches, changing
//! every row that matches, and deleting rows.

use vstd::prelude::*;

verus! {

/// Whether `i` is the index of the first row of `rows` that satisfies `p`.
pub open spec fn is_first<T>(rows: Seq<T>, p: spec_fn(T) -> bool, i: int) -> bool {
    &&& 0 <= i < rows.len()
    &&& p(rows[i])
    &&& forall|j: int| 0 <= j < i ==> !p(#[trigger] rows[j])
}

/// The index of the first row of `rows` that satisfies `p`, if there is one.
pub open spec fn first_where<T>(rows: Seq<T>, p: spec_fn(T) -> bool) -> Option<int> {
    if exists|i: int| is_first(rows, p, i) {
        Some(choose|i: int| is_first(rows, p, i))
    } else {
        None
    }
}

/// The first row of `rows` that satisfies `p`, if there is one.
pub open spec fn first_row<T>(rows: Seq<T>, p: spec_fn(T) -> bool) -> Option<T> {
    match first_where(rows, p) {
        Some(i) => Some(rows[i]),
        None => None,
    }
}

/// Whether some row of `rows` satisfies `p`.
pub open spec fn any_row<T>(rows: Seq<T>, p: spec_fn(T) -> bool) -> bool {
    exists|i: int| 0 <= i < rows.len() && p(#[trigger] rows[i])
}

/// `rows` with `f` applied to every row that satisfies `p`.
pub open spec fn update_where<T>(rows: Seq<T>, p: spec_fn(T) -> bool, f: spec_fn(T) -> T) -> Seq<T> {
    rows.map_values(
        |r: T|
            if p(r) {
                f(r)
            } else {
                r
            },
    )
}

/// `rows` without the rows that satisfy `p`.
pub open spec fn delete_where<T>(rows: Seq<T>, p: spec_fn(T) -> bool) -> Seq<T> {
    rows.filter(|r: T| !p(r))
}

/// The rows of `rows` that satisfy `p`, in order.
pub open spec fn select_where<T>(rows: Seq<T>, p: spec_fn(T) -> bool) -> Seq<T> {
    rows.filter(p)
}

/// `rows` with `row` stored under the test `p`: `row` takes the place of
/// the first row that satisfies `p`, or is added at the end where none
/// does.
pub open spec fn upsert<T>(rows: Seq<T>, p: spec_fn(T) -> bool, row: T) -> Seq<T> {
    match first_where(rows, p) {
        Some(i) => rows.update(i, row),
        None => rows.push(row),
    }
}

/// The first matching row is unique.
pub proof fn lemma_first_unique<T>(rows: Seq<T>, p: spec_fn(T) -> bool, i: int, j: int)
    requires
        is_first(rows, p, i),
        is_first(rows, p, j),
    ensures
        i == j,
{
}

/// A row that matches while none before it does is the one `first_where`
/// names.
pub proof fn lemma_first_found<T>(rows: Seq<T>, p: spec_fn(T) -> bool, i: int)
    requires
        is_first(rows, p, i),
    ensures
        first_where(rows, p) == Some(i),
        first_row(rows, p) == Some(rows[i]),
        any_row(rows, p),
{
    let k = choose|k: int| is_first(rows, p, k);
    lemma_first_unique(rows, p, i, k);
}

/// Where no row matches, `first_where` names none.
pub proof fn lemma_first_absent<T>(rows: Seq<T>, p: spec_fn(T) -> bool)
    requires
        forall|j: int| 0 <= j < rows.len() ==> !p(#[trigger] rows[j]),
    ensures
        first_where(rows, p) is None,
        first_row(rows, p) is None,
        !any_row(rows, p),
{
    if exists|i: int| is_first(rows, p, i) {
        let i = choose|i: int| is_first(rows, p, i);
        assert(p(rows[i]));
    }
}

/// `first_where` names a row exactly when some row matches, and the row it
/// names is the first that does.
pub proof fn lemma_first_where<T>(rows: Seq<T>, p: spec_fn(T) -> bool)
    ensures
        first_where(rows, p) is Some <==> any_row(rows, p),
        first_where(rows, p) matches Some(i) ==> is_first(rows, p, i),
{
    if any_row(rows, p) {
        let k = choose|k: int| 0 <= k < rows.len() && p(#[trigger] rows[k]);
        lemma_least_match(rows, p, k);
    } else {
        lemma_first_absent(rows, p);
    }
}

proof fn lemma_least_match<T>(rows: Seq<T>, p: spec_fn(T) -> bool, k: int)
    requires
        0 <= k < rows.len(),
        p(rows[k]),
    ensures
        exists|i: int| is_first(rows, p, i),
    decreases k,
{
    if exists|j: int| 0 <= j < k && p(#[trigger] rows[j]) {
        let j = choose|j: int| 0 <= j < k && p(#[trigger] rows[j]);
        lemma_least_match(rows, p, j);
    } else {
        assert(is_first(rows, p, k));
    }
}

/// Changing rows in a way that keeps which rows match keeps the index of
/// the first match.
pub proof fn lemma_first_where_update<T>(
    rows: Seq<T>,
    p: spec_fn(T) -> bool,
    q: spec_fn(T) -> bool,
    f: spec_fn(T) -> T,
)
    requires
        forall|r: T| #[trigger] q(r) ==> (p(f(r)) <==> p(r)),
    ensures
        first_where(update_where(rows, q, f), p) == first_where(rows, p),
{
    let updated = update_where(rows, q, f);
    lemma_first_where(rows, p);
    match first_where(rows, p) {
        Some(i) => {
            lemma_first_found(updated, p, i);
        },
        None => {
            lemma_first_absent(updated, p);
        },
    }
}

/// Deleting from a table that grew by one row: the new row stays exactly
/// when it does not match.
pub proof fn lemma_delete_where_push<T>(rows: Seq<T>, p: spec_fn(T) -> bool, row: T)
    ensures
        delete_where(rows.push(row), p) == if p(row) {
            delete_where(rows, p)
        } else {
            delete_where(rows, p).push(row)
        },
{
    reveal(Seq::filter);
    assert(rows.push(row).drop_last() =~= rows);
}

/// Selecting from a table that grew by one row: the new row is selected
/// exactly when it matches.
pub proof fn lemma_select_where_push<T>(rows: Seq<T>, p: spec_fn(T) -> bool, row: T)
    ensures
        select_where(rows.push(row), p) == if p(row) {
            select_where(rows, p).push(row)
        } else {
            select_where(rows, p)
        },
{
    reveal(Seq::filter);
    assert(rows.push(row).drop_last() =~= rows);
}

/// To select twice under the same test is to select once.
pub proof fn lemma_select_where_twice<T>(rows: Seq<T>, p: spec_fn(T) -> bool)
    ensures
        select_where(select_where(rows, p), p) == select_where(rows, p),
    decreases rows.len(),
{
    if rows.len() == 0 {
        lemma_empty_table(p);
    } else {
        let head = rows.drop_last();
        let last = rows.last();
        assert(rows =~= head.push(last));
        lemma_select_where_twice(head, p);
        lemma_select_where_push(head, p, last);
        if p(last) {
            lemma_select_where_push(select_where(head, p), p, last);
        }
    }
}

/// Where exactly one row passes the test, that row alone is selected.
pub proof fn lemma_select_where_one<T>(rows: Seq<T>, p: spec_fn(T) -> bool, k: int)
    requires
        0 <= k < rows.len(),
        p(rows[k]),
        forall|j: int| 0 <= j < rows.len() && j != k ==> !p(#[trigger] rows[j]),
    ensures
        select_where(rows, p) == seq![rows[k]],
    decreases rows.len(),
{
    let head = rows.drop_last();
    let last = rows.last();
    assert(rows =~= head.push(last));
    lemma_select_where_push(head, p, last);
    if k == rows.len() - 1 {
        assert forall|j: int| 0 <= j < head.len() implies !p(#[trigger] head[j]) by {
            assert(head[j] == rows[j]);
        }
        lemma_select_where_none(head, p);
        assert(Seq::<T>::empty().push(last) =~= seq![rows[k]]);
    } else {
        assert(head[k] == rows[k]);
        assert forall|j: int| 0 <= j < head.len() && j != k implies !p(#[trigger] head[j]) by {
            assert(head[j] == rows[j]);
        }
        lemma_select_where_one(head, p, k);
        assert(!p(rows[rows.len() - 1]));
    }
}

/// Where no row passes the test, nothing is selected.
pub proof fn lemma_select_where_none<T>(rows: Seq<T>, p: spec_fn(T) -> bool)
    requires
        forall|i: int| 0 <= i < rows.len() ==> !p(#[trigger] rows[i]),
    ensures
        select_where(rows, p) == Seq::<T>::empty(),
    decreases rows.len(),
{
    if rows.len() == 0 {
        lemma_empty_table(p);
        assert(rows =~= Seq::empty());
    } else {
        let head = rows.drop_last();
        assert(rows =~= head.push(rows.last()));
        assert forall|i: int| 0 <= i < head.len() implies !p(#[trigger] head[i]) by {
            assert(head[i] == rows[i]);
        }
        lemma_select_where_none(head, p);
        assert(!p(rows[rows.len() - 1]));
        lemma_select_where_push(head, p, rows.last());
    }
}

/// Where no row passes the test, deleting leaves the table as it is.
pub proof fn lemma_delete_where_none<T>(rows: Seq<T>, p: spec_fn(T) -> bool)
    requires
        forall|i: int| 0 <= i < rows.len() ==> !p(#[trigger] rows[i]),
    ensures
        delete_where(rows, p) == rows,
    decreases rows.len(),
{
    if rows.len() == 0 {
        lemma_empty_table(p);
        assert(rows =~= Seq::empty());
    } else {
        let head = rows.drop_last();
        assert(rows =~= head.push(rows.last()));
        assert forall|i: int| 0 <= i < head.len() implies !p(#[trigger] head[i]) by {
            assert(head[i] == rows[i]);
        }
        lemma_delete_where_none(head, p);
        assert(!p(rows[rows.len() - 1]));
        lemma_delete_where_push(head, p, rows.last());
    }
}

/// Nothing is selected from, and nothing is left of, an empty table.
pub proof fn lemma_empty_table<T>(p: spec_fn(T) -> bool)
    ensures
        select_where(Seq::<T>::empty(), p) == Seq::<T>::empty(),
        delete_where(Seq::<T>::empty(), p) == Seq::<T>::empty(),
{
    reveal(Seq::filter);
}

} // verus!
