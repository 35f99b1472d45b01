//! Pagination: the window of a sequence that a limit and an offset select.

use vstd::prelude::*;

use crate::exception::{ErrorView, RepositoryError};

verus! {

/// Where the window starts in a sequence of `size` items.
pub open spec fn page_start(size: nat, offset: int) -> int {
    if offset < size {
        offset
    } else {
        size as int
    }
}

/// Where the window ends in a sequence of `size` items.
pub open spec fn page_end(size: nat, limit: int, offset: int) -> int {
    if offset + limit < size {
        offset + limit
    } else {
        size as int
    }
}

/// The items of `items` from position `offset` on, `limit` of them at most.
pub open spec fn page<T>(items: Seq<T>, limit: int, offset: int) -> Seq<T>
    recommends
        0 <= limit,
        0 <= offset,
{
    items.subrange(page_start(items.len(), offset), page_end(items.len(), limit, offset))
}

/// The first `count` windows of `limit` items each, one after the other.
pub open spec fn leading_pages<T>(items: Seq<T>, limit: int, count: nat) -> Seq<T>
    recommends
        0 <= limit,
    decreases count,
{
    if count == 0 {
        Seq::empty()
    } else {
        leading_pages(items, limit, (count - 1) as nat) + page(items, limit, (count - 1) * limit)
    }
}

/// Why a limit and an offset are refused, if they are: neither may be
/// negative, and the limit is looked at first.
pub open spec fn page_fault(limit: int, offset: int) -> Option<ErrorView> {
    if limit < 0 {
        Some(ErrorView::ValidationFailed("LIMIT must not be negative"@))
    } else if offset < 0 {
        Some(ErrorView::ValidationFailed("OFFSET must not be negative"@))
    } else {
        None
    }
}

/// What a listing of `items` answers: the window, unless the limit or the
/// offset is refused.
pub open spec fn paged<T>(items: Seq<T>, limit: int, offset: int) -> Result<Seq<T>, ErrorView> {
    match page_fault(limit, offset) {
        Some(error) => Err(error),
        None => Ok(page(items, limit, offset)),
    }
}

/// The item at `position` is inside the window.
pub open spec fn is_in_page(position: int, limit: int, offset: int) -> bool {
    offset <= position < offset + limit
}

/// Refuses a negative limit or offset.
pub fn check_page(limit: i64, offset: i64) -> (checked: Result<(), RepositoryError>)
    ensures
        match checked {
            Ok(()) => page_fault(limit as int, offset as int) is None,
            Err(error) => page_fault(limit as int, offset as int) == Some(error@),
        },
{
    if limit < 0 {
        Err(RepositoryError::ValidationFailed("LIMIT must not be negative".to_owned()))
    } else if offset < 0 {
        Err(RepositoryError::ValidationFailed("OFFSET must not be negative".to_owned()))
    } else {
        Ok(())
    }
}

/// Whether the item at `position` is inside the window.
pub fn in_page(position: usize, limit: i64, offset: i64) -> (inside: bool)
    requires
        0 <= limit,
        0 <= offset,
    ensures
        inside == is_in_page(position as int, limit as int, offset as int),
{
    let position_wide: u64 = position as u64;
    let offset_wide: u64 = offset as u64;
    let limit_wide: u64 = limit as u64;
    offset_wide <= position_wide && position_wide - offset_wide < limit_wide
}

/// The bounds of the window in a collection of `size` items, or the reason
/// why `limit` and `offset` select none.
pub fn page_bounds(size: usize, limit: i64, offset: i64) -> (bounds: Result<
    (usize, usize),
    RepositoryError,
>)
    ensures
        match bounds {
            Ok((start, end)) => {
                &&& page_fault(limit as int, offset as int) is None
                &&& start == page_start(size as nat, offset as int)
                &&& end == page_end(size as nat, limit as int, offset as int)
                &&& start <= end <= size
            },
            Err(error) => page_fault(limit as int, offset as int) == Some(error@),
        },
{
    match check_page(limit, offset) {
        Err(error) => { return Err(error); },
        Ok(()) => {},
    }
    let size_wide: u64 = size as u64;
    let offset_wide: u64 = offset as u64;
    let limit_wide: u64 = limit as u64;
    let start: usize = if offset_wide < size_wide {
        offset as usize
    } else {
        size
    };
    let end: usize = if offset_wide < size_wide && limit_wide < size_wide - offset_wide {
        (offset_wide + limit_wide) as usize
    } else {
        size
    };
    Ok((start, end))
}

/// A window holds no more items than the limit, and none that the data does
/// not hold.
pub proof fn lemma_page_length<T>(items: Seq<T>, limit: int, offset: int)
    requires
        0 <= limit,
        0 <= offset,
    ensures
        page(items, limit, offset).len() <= limit,
        page(items, limit, offset).len() <= items.len(),
        forall|at: int|
            0 <= at < page(items, limit, offset).len() ==> #[trigger] page(items, limit, offset)[at]
                == items[offset + at],
{
}

/// What one more item at the end of the data does to a window: it joins the
/// window if its position is inside, and changes nothing if not.
pub proof fn lemma_page_push<T>(items: Seq<T>, last: T, limit: int, offset: int)
    requires
        0 <= limit,
        0 <= offset,
    ensures
        page(items.push(last), limit, offset) == if is_in_page(items.len() as int, limit, offset) {
            page(items, limit, offset).push(last)
        } else {
            page(items, limit, offset)
        },
{
    if is_in_page(items.len() as int, limit, offset) {
        assert(page(items.push(last), limit, offset) =~= page(items, limit, offset).push(last));
    } else {
        assert(page(items.push(last), limit, offset) =~= page(items, limit, offset));
    }
}

/// A limit of zero selects nothing, whatever the offset.
pub proof fn lemma_limit_zero_is_empty<T>(items: Seq<T>, offset: int)
    requires
        0 <= offset,
    ensures
        page(items, 0, offset) == Seq::<T>::empty(),
        paged(items, 0, offset) == Ok::<Seq<T>, ErrorView>(Seq::empty()),
{
    assert(page(items, 0, offset) =~= Seq::<T>::empty());
}

/// An offset at or beyond the end selects nothing, whatever the limit.
pub proof fn lemma_offset_beyond_end_is_empty<T>(items: Seq<T>, limit: int, offset: int)
    requires
        0 <= limit,
        items.len() <= offset,
    ensures
        page(items, limit, offset) == Seq::<T>::empty(),
        paged(items, limit, offset) == Ok::<Seq<T>, ErrorView>(Seq::empty()),
{
    assert(page(items, limit, offset) =~= Seq::<T>::empty());
}

/// Two windows that touch make one window: the second starts where the first
/// ends, and together they hold what a single window of both limits holds, so
/// that no item is left out between them and none comes twice.
pub proof fn lemma_adjacent_pages_join<T>(items: Seq<T>, first: int, second: int, offset: int)
    requires
        0 <= first,
        0 <= second,
        0 <= offset,
    ensures
        page(items, first, offset) + page(items, second, offset + first) == page(
            items,
            first + second,
            offset,
        ),
{
    assert(page(items, first, offset) + page(items, second, offset + first) =~= page(
        items,
        first + second,
        offset,
    ));
}

/// The first `count` windows of `limit` items, read one after the other, are
/// the first `count * limit` items, each once and in order.
pub proof fn lemma_leading_pages_are_a_prefix<T>(items: Seq<T>, limit: int, count: nat)
    requires
        0 <= limit,
    ensures
        leading_pages(items, limit, count) == page(items, count * limit, 0),
    decreases count,
{
    if count == 0 {
        assert(page(items, 0 * limit, 0) =~= Seq::<T>::empty());
    } else {
        let before = (count - 1) as nat;
        lemma_leading_pages_are_a_prefix(items, limit, before);
        assert(before * limit + limit == count * limit) by (nonlinear_arith)
            requires
                before + 1 == count,
        ;
        assert(0 <= before * limit) by (nonlinear_arith)
            requires
                0 <= before,
                0 <= limit,
        ;
        lemma_adjacent_pages_join(items, before * limit, limit, 0);
    }
}

/// Windows of `limit` items that together reach the end of the data hold the
/// whole of it: nothing is skipped and nothing is repeated.
pub proof fn lemma_leading_pages_cover<T>(items: Seq<T>, limit: int, count: nat)
    requires
        0 <= limit,
        items.len() <= count * limit,
    ensures
        leading_pages(items, limit, count) == items,
{
    lemma_leading_pages_are_a_prefix(items, limit, count);
    assert(page(items, count * limit, 0) =~= items);
}

} // verus!
