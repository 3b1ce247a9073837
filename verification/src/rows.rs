//! From a row set to what the caller asked for: every row, or the first.
//!
//! The functions are generic in the row type, so that they can be exercised
//! on plain values; the adapter applies them to the driver's rows.
use vstd::prelude::*;
use vstd::std_specs::convert::FromSpec;
use crate::types::{is_failure, no_results_message, not_found, DBResult, NOT_FOUND};

verus! {

/// `item` is what the caller's conversion makes of `row`.
pub open spec fn converts<R, T: From<R>>(row: R, item: T) -> bool {
    call_ensures(T::from, (row,), item)
}

/// `items` holds the conversion of each row, in the order of the rows.
pub open spec fn converts_each<R, T: From<R>>(rows: Seq<R>, items: Seq<T>) -> bool {
    &&& items.len() == rows.len()
    &&& forall|i: int| 0 <= i < rows.len() ==> converts(rows[i], #[trigger] items[i])
}

/// What is owed for a row set when every row is asked for: the conversion of
/// each row, or the not-found failure for an empty set.
pub open spec fn is_all_rows<R, T: From<R>>(rows: Seq<R>, r: DBResult<Vec<T>>) -> bool {
    if rows.len() > 0 {
        r matches Ok(items) && converts_each(rows, items@)
    } else {
        is_failure(r, NOT_FOUND, no_results_message())
    }
}

/// What is owed for a row set when one item is asked for: the conversion of
/// the first row, or the not-found failure for an empty set.
pub open spec fn is_first_row<R, T: From<R>>(rows: Seq<R>, r: DBResult<T>) -> bool {
    if rows.len() > 0 {
        r matches Ok(item) && converts(rows[0], item)
    } else {
        is_failure(r, NOT_FOUND, no_results_message())
    }
}

/// Converts every row, keeping the order; an empty set is a failure.
pub fn collect_rows<R, T: From<R>>(rows: Vec<R>) -> (r: DBResult<Vec<T>>)
    ensures
        is_all_rows(rows@, r),
{
    if rows.len() > 0 {
        let ghost all = rows@;
        let mut results: Vec<T> = Vec::new();
        for row in it: rows
            invariant
                it.seq() == all,
                results@.len() == it.index(),
                forall|i: int| 0 <= i < it.index() ==> converts(all[i], #[trigger] results@[i]),
        {
            let item: T = row.into();
            results.push(item);
        }
        return Ok(results);
    }
    not_found()
}

/// Converts the first row and drops the others; an empty set is a failure.
pub fn first_row<R, T: From<R>>(rows: Vec<R>) -> (r: DBResult<T>)
    ensures
        is_first_row(rows@, r),
{
    let mut rows = rows;
    if rows.len() > 0 {
        let first = rows.swap_remove(0);
        return Ok(first.into());
    }
    not_found()
}

/// A conversion that keeps to its own model has one result for each row.
pub proof fn lemma_converts_is_from_spec<R, T: From<R>>(row: R, item: T)
    requires
        T::obeys_from_spec(),
        converts(row, item),
    ensures
        item == T::from_spec(row),
{
}

/// Asking for one item gives the head of what asking for every row gives,
/// and the two fail on the same row sets, wherever the conversion keeps to
/// its own model.
pub proof fn lemma_first_row_is_head_of_all<R, T: From<R>>(
    rows: Seq<R>,
    all: DBResult<Vec<T>>,
    single: DBResult<T>,
)
    requires
        T::obeys_from_spec(),
        is_all_rows(rows, all),
        is_first_row(rows, single),
    ensures
        all is Ok <==> single is Ok,
        all is Ok <==> rows.len() > 0,
        all matches Ok(items) ==> single == Ok::<T, (u16, String)>(items@[0]),
        all matches Err(f) ==> is_failure(single, f.0, f.1@),
{
    if rows.len() > 0 {
        lemma_converts_is_from_spec(rows[0], all->Ok_0@[0]);
        lemma_converts_is_from_spec(rows[0], single->Ok_0);
    }
}

} // verus!
