//! Pages over listings: a window of at most `MAX_PAGE_LIMIT` items that
//! starts at an offset.

use vstd::prelude::*;

verus! {

/// The largest page a query hands out. A larger limit is cut down to it.
pub const MAX_PAGE_LIMIT: u32 = 100;

/// What a page says about the listing it was cut from.
#[derive(Clone, Copy, Debug, PartialEq, Eq, Structural)]
pub struct PaginationMeta {
    /// How many items the listing holds.
    pub total: u32,
    /// Where the page starts.
    pub offset: u32,
    /// The limit that was applied.
    pub limit: u32,
    /// Whether the listing goes on behind the page.
    pub has_more: bool,
}

/// The limit that a query applies when `limit` is asked for.
pub open spec fn capped(limit: u32) -> u32 {
    if limit < MAX_PAGE_LIMIT {
        limit
    } else {
        MAX_PAGE_LIMIT
    }
}

/// Where the page that starts at `offset` ends in a listing of `total`
/// items: `capped(limit)` items on, or at the listing's end.
pub open spec fn page_end(offset: int, limit: u32, total: int) -> int {
    if offset >= total {
        offset
    } else if offset + capped(limit) < total {
        offset + capped(limit)
    } else {
        total
    }
}

/// How many items the page holds.
pub open spec fn page_len(offset: int, limit: u32, total: int) -> int {
    page_end(offset, limit, total) - offset
}

/// What a page of `returned` items says about a listing of `total` items.
pub open spec fn page_meta(offset: u32, limit: u32, total: u32, returned: int) -> PaginationMeta {
    PaginationMeta { total, offset, limit: capped(limit), has_more: offset + returned < total }
}

/// A number of items as a listing reports it: cut off at `u32::MAX`.
pub open spec fn saturated(n: int) -> u32 {
    if n > u32::MAX {
        u32::MAX
    } else {
        n as u32
    }
}

/// The items of a page: those from `offset` on, at most `limit` of them.
pub open spec fn window<T>(items: Seq<T>, offset: int, limit: int) -> Seq<T> {
    if offset >= items.len() {
        Seq::empty()
    } else if offset + limit < items.len() {
        items.subrange(offset, offset + limit)
    } else {
        items.subrange(offset, items.len() as int)
    }
}

/// The limit that a query applies when `limit` is asked for.
pub fn cap_limit(limit: u32) -> (l: u32)
    ensures
        l == capped(limit),
        l <= MAX_PAGE_LIMIT,
{
    if limit < MAX_PAGE_LIMIT {
        limit
    } else {
        MAX_PAGE_LIMIT
    }
}

/// Where the page that starts at `offset` ends in a listing of `total`
/// items.
pub fn end_of_page(offset: usize, limit: u32, total: usize) -> (end: usize)
    ensures
        end == page_end(offset as int, limit, total as int),
        offset <= end,
        end - offset <= MAX_PAGE_LIMIT,
        offset < total ==> end <= total,
{
    let limit = cap_limit(limit);
    if offset >= total {
        offset
    } else if (limit as usize) < total - offset {
        offset + limit as usize
    } else {
        total
    }
}

/// What a page of `returned` items says about a listing of `total` items.
pub fn meta_of_page(offset: u32, limit: u32, total: u32, returned: usize) -> (meta: PaginationMeta)
    ensures
        meta == page_meta(offset, limit, total, returned as int),
{
    let has_more = (returned as u128) + (offset as u128) < total as u128;
    PaginationMeta { total, offset, limit: cap_limit(limit), has_more }
}

/// A number of items as a listing reports it: cut off at `u32::MAX`.
pub fn saturate(n: usize) -> (total: u32)
    ensures
        total == saturated(n as int),
{
    if n > u32::MAX as usize {
        u32::MAX
    } else {
        n as u32
    }
}

/// A page never holds more than `MAX_PAGE_LIMIT` items, whatever limit is
/// asked for, and an offset at or behind the end gives an empty page with
/// nothing more to come.
pub proof fn lemma_page_bounded(offset: u32, limit: u32, total: u32)
    ensures
        0 <= page_len(offset as int, limit, total as int) <= capped(limit) <= MAX_PAGE_LIMIT,
        offset >= total ==> page_len(offset as int, limit, total as int) == 0 && !page_meta(
            offset,
            limit,
            total,
            page_len(offset as int, limit, total as int),
        ).has_more,
        limit >= MAX_PAGE_LIMIT ==> page_meta(offset, limit, total, 0).limit == MAX_PAGE_LIMIT,
{
}

} // verus!
