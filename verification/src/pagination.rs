//! Page arithmetic for listing endpoints.

use vstd::prelude::*;

verus! {

/// The page slice reported beside a listing: which page was served, how many
/// items a page holds, how many items and pages exist in all.
#[derive(Debug, Clone)]
pub struct Pagination {
    pub page: i32,
    pub page_size: i32,
    pub total_items: i64,
    pub total_pages: i32,
}

/// How many pages of `page_size` items cover `total_items` items: the
/// division rounded upward.
pub open spec fn spec_total_pages(total_items: i64, page_size: i32) -> int
    recommends
        page_size > 0,
        total_items >= 0,
{
    (total_items + page_size - 1) / (page_size as int)
}

/// A page number asked for by a caller, with anything below one replaced by
/// the first page.
pub fn page_or_first(page: i32) -> (r: i32)
    ensures
        r == if page > 0 {
            page as int
        } else {
            1int
        },
        r >= 1,
{
    if page > 0 {
        page
    } else {
        1
    }
}

/// A page size asked for by a caller, with anything below one replaced by
/// the default of ten items.
pub fn page_size_or_default(page_size: i32) -> (r: i32)
    ensures
        r == if page_size > 0 {
            page_size as int
        } else {
            10int
        },
        r >= 1,
{
    if page_size > 0 {
        page_size
    } else {
        10
    }
}

/// A page size asked for by a caller, raised to at least one item.
pub fn page_size_floor_one(page_size: i32) -> (r: i32)
    ensures
        r == if page_size > 0 {
            page_size as int
        } else {
            1int
        },
        r >= 1,
{
    if page_size > 0 {
        page_size
    } else {
        1
    }
}

/// The number of pages that cover `total_items` items, `page_size` to a page.
pub fn total_pages(total_items: i64, page_size: i32) -> (r: i32)
    requires
        page_size > 0,
        total_items >= 0,
        spec_total_pages(total_items, page_size) <= i32::MAX,
        total_items + page_size <= i64::MAX,
    ensures
        r == spec_total_pages(total_items, page_size),
{
    let ps = page_size as i64;
    let r = (total_items + ps - 1) / ps;
    r as i32
}

} // verus!
