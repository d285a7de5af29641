//! Cutting a list of search results into pages.

use vstd::prelude::*;

verus! {

/// The largest number of items on a page.
pub const MAX_PAGE_SIZE: usize = 1000;

/// A page of a list: which part of the list it shows.
#[derive(Debug, Clone, Copy, PartialEq, Eq, Structural)]
pub struct Page {
    /// The number of the page, counted from 0.
    pub page: usize,
    /// How many items a page holds.
    pub page_size: usize,
    /// How many pages the list has.
    pub total_pages: usize,
    /// The index of the first item on the page.
    pub start: usize,
    /// The index behind the last item on the page.
    pub end: usize,
}

/// The size of a page: what was asked for, but at least 1 and at most
/// `MAX_PAGE_SIZE`.
pub open spec fn page_size_of(asked: usize) -> usize {
    if asked < 1 {
        1
    } else if asked > MAX_PAGE_SIZE {
        MAX_PAGE_SIZE
    } else {
        asked
    }
}

/// The number of pages that `total` items fill.
pub open spec fn pages_of(total: usize, size: usize) -> int
    recommends
        size > 0,
{
    if total % size == 0 {
        total as int / size as int
    } else {
        total as int / size as int + 1
    }
}

/// The page of a list of `total` items that a request for page `page` with
/// pages of `page_size` items shows: the last page, if the list has no such
/// page.
pub open spec fn page_of(total: usize, page: usize, page_size: usize) -> Page {
    let size = page_size_of(page_size);
    let pages = pages_of(total, size);
    let shown = if pages == 0 {
        0
    } else if page as int > pages - 1 {
        pages - 1
    } else {
        page as int
    };
    let start = shown * size;
    let end = if start + size > total {
        total as int
    } else {
        start + size
    };
    Page {
        page: shown as usize,
        page_size: size,
        total_pages: pages as usize,
        start: start as usize,
        end: end as usize,
    }
}

/// Finds the page to show. The page lies within the list: its items are
/// those from `start` up to `end`.
pub fn paginate(total: usize, page: usize, page_size: usize) -> (p: Page)
    ensures
        p == page_of(total, page, page_size),
        p.start <= p.end <= total,
        p.end - p.start <= p.page_size,
        total > 0 ==> p.start < p.end,
{
    let size = if page_size < 1 {
        1
    } else if page_size > MAX_PAGE_SIZE {
        MAX_PAGE_SIZE
    } else {
        page_size
    };
    let full = total / size;
    proof {
        if total % size != 0 {
            assert(size >= 2);
            assert(full * 2 <= total) by (nonlinear_arith)
                requires
                    size >= 2,
                    full == total / size,
            ;
        }
    }
    let total_pages = if total % size == 0 {
        full
    } else {
        full + 1
    };
    let shown = if total_pages == 0 {
        0
    } else if page > total_pages - 1 {
        total_pages - 1
    } else {
        page
    };
    proof {
        assert(total == size * full + total % size) by (nonlinear_arith)
            requires
                size > 0,
                full == total / size,
        ;
        assert(shown * size <= full * size) by (nonlinear_arith)
            requires
                shown <= full,
                size > 0,
        ;
        if total % size == 0 && total_pages > 0 {
            assert(shown * size + size <= full * size) by (nonlinear_arith)
                requires
                    shown + 1 <= full,
                    size > 0,
            ;
        }
        assert(full * size == size * full) by (nonlinear_arith);
    }
    let start = shown * size;
    let end = if size > total - start {
        total
    } else {
        start + size
    };
    Page { page: shown, page_size: size, total_pages, start, end }
}

} // verus!
