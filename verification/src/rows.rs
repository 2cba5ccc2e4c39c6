//! Facts about selecting rows of a table.
use vstd::prelude::*;

verus! {

/// The first row, in table order, that satisfies `pred`.
pub open spec fn first_where<T>(rows: Seq<T>, pred: spec_fn(T) -> bool) -> Option<T> {
    let found = rows.filter(pred);
    if found.len() == 0 {
        None
    } else {
        Some(found[0])
    }
}

/// Selecting from one more row of a table.
pub proof fn lemma_filter_step<T>(rows: Seq<T>, pred: spec_fn(T) -> bool, i: int)
    requires
        0 <= i < rows.len(),
    ensures
        rows.take(i + 1).filter(pred) == (if pred(rows[i]) {
            rows.take(i).filter(pred).push(rows[i])
        } else {
            rows.take(i).filter(pred)
        }),
{
    reveal(Seq::filter);
    assert(rows.take(i + 1).drop_last() =~= rows.take(i));
    assert(rows.take(i + 1).last() == rows[i]);
}

/// Selecting from all rows of a table.
pub proof fn lemma_filter_all<T>(rows: Seq<T>, pred: spec_fn(T) -> bool)
    ensures
        rows.take(rows.len() as int).filter(pred) == rows.filter(pred),
{
    assert(rows.take(rows.len() as int) =~= rows);
}

/// The first row that satisfies `pred` is the one at `i` when none before it does.
pub proof fn lemma_first_where_found<T>(rows: Seq<T>, pred: spec_fn(T) -> bool, i: int)
    requires
        0 <= i < rows.len(),
        rows.take(i).filter(pred).len() == 0,
        pred(rows[i]),
    ensures
        first_where(rows, pred) == Some(rows[i]),
{
    lemma_filter_step(rows, pred, i);
    assert(rows =~= rows.take(i + 1) + rows.skip(i + 1));
    Seq::filter_distributes_over_add(rows.take(i + 1), rows.skip(i + 1), pred);
    assert(rows.take(i + 1).filter(pred) =~= seq![rows[i]]);
}

/// No row satisfies `pred` when none of the whole table does.
pub proof fn lemma_first_where_none<T>(rows: Seq<T>, pred: spec_fn(T) -> bool)
    requires
        rows.take(rows.len() as int).filter(pred).len() == 0,
    ensures
        first_where(rows, pred) is None,
{
    lemma_filter_all(rows, pred);
}

/// No row is selected when no row of the table satisfies `pred`.
pub proof fn lemma_first_where_absent<T>(rows: Seq<T>, pred: spec_fn(T) -> bool)
    requires
        forall|k: int| 0 <= k < rows.len() ==> !pred(#[trigger] rows[k]),
    ensures
        rows.filter(pred).len() == 0,
        first_where(rows, pred) is None,
    decreases rows.len(),
{
    reveal(Seq::filter);
    if rows.len() > 0 {
        let init = rows.drop_last();
        assert forall|k: int| 0 <= k < init.len() implies !pred(#[trigger] init[k]) by {
            assert(init[k] == rows[k]);
        }
        lemma_first_where_absent(init, pred);
        assert(!pred(rows[rows.len() - 1]));
    }
}

/// The first row that satisfies `pred` once a row is added at the end of a
/// table in which none does: the new row where it satisfies `pred`.
pub proof fn lemma_first_where_push_fresh<T>(rows: Seq<T>, x: T, pred: spec_fn(T) -> bool)
    requires
        forall|k: int| 0 <= k < rows.len() ==> !pred(#[trigger] rows[k]),
    ensures
        first_where(rows.push(x), pred) == (if pred(x) {
            Some(x)
        } else {
            None
        }),
{
    lemma_first_where_absent(rows, pred);
    reveal(Seq::filter);
    assert(rows.push(x).drop_last() =~= rows);
}

/// What the first matching row is: a row of the table that satisfies `pred`
/// with no earlier row satisfying it; and where there is none, no row of the
/// table satisfies `pred`.
pub proof fn lemma_first_where_facts<T>(rows: Seq<T>, pred: spec_fn(T) -> bool)
    ensures
        first_where(rows, pred) matches Some(x) ==> pred(x) && exists|i: int|
            0 <= i < rows.len() && #[trigger] rows[i] == x && forall|j: int| 0 <= j < i ==> !pred(#[trigger] rows[j]),
        first_where(rows, pred) is None ==> forall|i: int| 0 <= i < rows.len() ==> !pred(#[trigger] rows[i]),
    decreases rows.len(),
{
    reveal(Seq::filter);
    if rows.len() > 0 {
        let init = rows.drop_last();
        lemma_first_where_facts(init, pred);
        assert forall|j: int| 0 <= j < init.len() implies #[trigger] init[j] == rows[j] by {}
        if init.filter(pred).len() > 0 {
            assert(first_where(rows, pred) == first_where(init, pred));
            let x = first_where(init, pred)->0;
            let i = choose|i: int|
                0 <= i < init.len() && #[trigger] init[i] == x && forall|j: int| 0 <= j < i ==> !pred(#[trigger] init[j]);
            assert(rows[i] == x);
            assert forall|j: int| 0 <= j < i implies !pred(#[trigger] rows[j]) by {
                assert(rows[j] == init[j]);
            }
        } else {
            let last = rows.len() - 1;
            assert(rows[last] == rows.last());
            assert forall|j: int| 0 <= j < last implies !pred(#[trigger] rows[j]) by {
                assert(rows[j] == init[j]);
            }
            if pred(rows.last()) {
                assert(rows.filter(pred) =~= seq![rows.last()]);
            } else {
                assert(rows.filter(pred) =~= init.filter(pred));
            }
        }
    }
}

} // verus!
