use vstd::prelude::*;

verus! {

/// Every earlier identifier is greater than every later one.
pub open spec fn strictly_descending(ids: Seq<i64>) -> bool {
    forall|i: int, j: int| 0 <= i < j < ids.len() ==> ids[i] > ids[j]
}

/// Every earlier identifier is smaller than every later one.
pub open spec fn strictly_ascending(ids: Seq<i64>) -> bool {
    forall|i: int, j: int| 0 <= i < j < ids.len() ==> ids[i] < ids[j]
}

/// No identifier occurs twice.
pub open spec fn distinct(ids: Seq<i64>) -> bool {
    forall|i: int, j: int| 0 <= i < ids.len() && 0 <= j < ids.len() && i != j ==> ids[i] != ids[j]
}

/// Every identifier lies below the exclusive upper cursor, when there is one.
pub open spec fn all_below(ids: Seq<i64>, cursor: Option<i64>) -> bool {
    cursor matches Some(c) ==> forall|i: int| 0 <= i < ids.len() ==> ids[i] < c
}

/// Every identifier lies above the exclusive lower cursor, when there is one.
pub open spec fn all_above(ids: Seq<i64>, cursor: Option<i64>) -> bool {
    cursor matches Some(c) ==> forall|i: int| 0 <= i < ids.len() ==> ids[i] > c
}

/// A next-page cursor is absent, or names the last identifier of a non-empty
/// page.
pub open spec fn cursor_names_last(cursor: Option<i64>, ids: Seq<i64>) -> bool {
    match cursor {
        None => true,
        Some(c) => ids.len() > 0 && c == ids.last(),
    }
}

/// Whether `limit` is an accepted page size for the maximum `max`.
pub open spec fn page_size_accepted(limit: usize, max: usize) -> bool {
    1 <= limit <= max
}

/// The cursor of a page cut from `ids` at `page_size`: the last kept
/// identifier when more rows followed, otherwise none.
pub open spec fn cut_cursor(ids: Seq<i64>, page_size: usize) -> Option<i64> {
    if ids.len() > page_size {
        Some(ids[page_size - 1])
    } else {
        None
    }
}

/// The identifiers kept when `ids` is cut at `page_size`.
pub open spec fn cut_ids(ids: Seq<i64>, page_size: usize) -> Seq<i64> {
    if ids.len() > page_size {
        ids.take(page_size as int)
    } else {
        ids
    }
}

/// Strictly ordered pages hold no identifier twice.
pub proof fn lemma_ordered_ids_are_distinct(ids: Seq<i64>)
    ensures
        strictly_descending(ids) ==> distinct(ids),
        strictly_ascending(ids) ==> distinct(ids),
{
    assert forall|i: int, j: int|
        0 <= i < ids.len() && 0 <= j < ids.len() && i != j && strictly_descending(
            ids,
        ) implies ids[i] != ids[j] by {
        if i < j {
            assert(ids[i] > ids[j]);
        } else {
            assert(ids[j] > ids[i]);
        }
    }
    assert forall|i: int, j: int|
        0 <= i < ids.len() && 0 <= j < ids.len() && i != j && strictly_ascending(
            ids,
        ) implies ids[i] != ids[j] by {
        if i < j {
            assert(ids[i] < ids[j]);
        } else {
            assert(ids[j] < ids[i]);
        }
    }
}

/// Cutting an ordered run of rows at an accepted page size yields a page that
/// keeps the order and bounds and whose cursor names its last entry.
pub proof fn lemma_cut_keeps_order(ids: Seq<i64>, page_size: usize)
    requires
        page_size >= 1,
    ensures
        cut_ids(ids, page_size).len() <= page_size,
        strictly_descending(ids) ==> strictly_descending(cut_ids(ids, page_size)),
        strictly_ascending(ids) ==> strictly_ascending(cut_ids(ids, page_size)),
        forall|b: Option<i64>| all_below(ids, b) ==> #[trigger] all_below(cut_ids(ids, page_size), b),
        forall|b: Option<i64>| all_above(ids, b) ==> #[trigger] all_above(cut_ids(ids, page_size), b),
        cursor_names_last(cut_cursor(ids, page_size), cut_ids(ids, page_size)),
{
    let c = cut_ids(ids, page_size);
    assert forall|b: Option<i64>| all_below(ids, b) implies #[trigger] all_below(c, b) by {
        if b is Some {
            assert forall|i: int| 0 <= i < c.len() implies c[i] < b->0 by {
                assert(c[i] == ids[i]);
            }
        }
    }
    assert forall|b: Option<i64>| all_above(ids, b) implies #[trigger] all_above(c, b) by {
        if b is Some {
            assert forall|i: int| 0 <= i < c.len() implies c[i] > b->0 by {
                assert(c[i] == ids[i]);
            }
        }
    }
    assert(strictly_descending(ids) ==> strictly_descending(c)) by {
        if strictly_descending(ids) {
            assert forall|i: int, j: int| 0 <= i < j < c.len() implies c[i] > c[j] by {
                assert(c[i] == ids[i] && c[j] == ids[j]);
            }
        }
    }
    assert(strictly_ascending(ids) ==> strictly_ascending(c)) by {
        if strictly_ascending(ids) {
            assert forall|i: int, j: int| 0 <= i < j < c.len() implies c[i] < c[j] by {
                assert(c[i] == ids[i] && c[j] == ids[j]);
            }
        }
    }
}

} // verus!
