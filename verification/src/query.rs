//! Pagination of listings.
use vstd::prelude::*;

verus! {

/// Which part of a listing to return.
#[derive(Clone, Copy, Debug, PartialEq, Eq, Structural)]
pub struct PageRequest {
    pub offset: usize,
    pub limit: usize,
}

impl Default for PageRequest {
    /// From the start, with a limit of zero (as `derive(Default)` gives; a
    /// request read from JSON without a limit gets `default_limit()`).
    fn default() -> (r: Self)
        ensures
            r.offset == 0,
            r.limit == 0,
    {
        PageRequest { offset: 0, limit: 0 }
    }
}

/// The limit of a page request that names none: 50.
pub fn default_limit() -> (r: usize)
    ensures
        r == 50,
{
    50
}

/// A part of a listing, with the size of the whole listing and whether more
/// follows.
#[derive(Debug)]
pub struct Page<T> {
    pub items: Vec<T>,
    pub total: usize,
    pub offset: usize,
    pub limit: usize,
    pub has_more: bool,
}

impl<T> Page<T> {
    /// A page holding `items`; more follows when `offset + items.len()` is
    /// below `total`.
    pub fn from_vec(items: Vec<T>, total: usize, offset: usize, limit: usize) -> (r: Page<T>)
        requires
            offset + items@.len() <= usize::MAX,
        ensures
            r.items@ == items@,
            r.total == total,
            r.offset == offset,
            r.limit == limit,
            r.has_more == (offset + items@.len() < total),
    {
        Page { has_more: offset + items.len() < total, items, total, offset, limit }
    }
}

/// The start of the page: the offset, but no further than the end.
pub open spec fn page_start(total: nat, offset: nat) -> nat {
    if offset < total {
        offset
    } else {
        total
    }
}

/// The end of the page: `limit` items after the start, but no further than
/// the end.
pub open spec fn page_end(total: nat, offset: nat, limit: nat) -> nat {
    let s = page_start(total, offset);
    if s + limit < total {
        s + limit
    } else {
        total
    }
}

/// The items from `offset` on, at most `limit` of them, with the total count
/// and the request's offset and limit.
pub fn paginate<T>(items: Vec<T>, page: &PageRequest) -> (r: Page<T>)
    requires
        page_start(items@.len(), page.offset as nat) + page.limit <= usize::MAX,
    ensures
        r.items@ == items@.subrange(
            page_start(items@.len(), page.offset as nat) as int,
            page_end(items@.len(), page.offset as nat, page.limit as nat) as int,
        ),
        r.total == items@.len(),
        r.offset == page.offset,
        r.limit == page.limit,
        r.has_more == (page.offset + r.items@.len() < items@.len()),
{
    let total = items.len();
    let start = if page.offset < total {
        page.offset
    } else {
        total
    };
    let end = if start + page.limit < total {
        start + page.limit
    } else {
        total
    };
    let mut rest = items;
    let mut tail = rest.split_off(start);
    tail.truncate(end - start);
    proof {
        assert(tail@ =~= items@.subrange(start as int, end as int));
    }
    Page::from_vec(tail, total, page.offset, page.limit)
}

} // verus!
