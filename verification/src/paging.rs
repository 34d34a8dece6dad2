//! Paging through the list of groups.

use vstd::prelude::*;

verus! {

/// The page that is shown when none is asked for.
pub const DEFAULT_PAGE: i32 = 1;

/// The page size that is used when none is asked for, and the smallest
/// that is granted.
pub const DEFAULT_PER_PAGE: i32 = 10;

/// The largest page size that is granted.
pub const MAX_PER_PAGE: i32 = 100;

/// A group, as the list shows it.
#[derive(Debug, Clone, PartialEq, Eq)]
pub struct Group {
    pub id: String,
    pub name: String,
}

/// How many pages there are.
#[derive(Debug, Clone, Copy, PartialEq, Eq)]
pub struct Pagination {
    pub total_pages: i32,
}

/// The page of the list that a query is made for.
#[derive(Debug, Clone, Copy, PartialEq, Eq)]
pub struct PageWindow {
    pub page: i32,
    pub per_page: i32,
    pub total_pages: i32,
}

/// The page that is shown for the page asked for: the first page for
/// anything below it, the last page for anything beyond it.
pub open spec fn resolved_page(page: Option<i32>, total_pages: i32) -> i32 {
    let asked = match page {
        Some(page) => page,
        None => DEFAULT_PAGE,
    };
    if asked < 1 {
        1
    } else if asked > total_pages {
        total_pages
    } else {
        asked
    }
}

/// The page size that is granted for the size asked for.
pub open spec fn resolved_per_page(per_page: Option<i32>) -> i32 {
    let asked = match per_page {
        Some(per_page) => per_page,
        None => DEFAULT_PER_PAGE,
    };
    if asked < DEFAULT_PER_PAGE {
        DEFAULT_PER_PAGE
    } else if asked > MAX_PER_PAGE {
        MAX_PER_PAGE
    } else {
        asked
    }
}

/// The number of pages that a count gives; one when the count could not be
/// had.
pub open spec fn counted_pages(count: Option<Pagination>) -> i32 {
    match count {
        Some(count) => count.total_pages,
        None => 1,
    }
}

/// The window that a page and a page size asked for resolve to.
pub open spec fn resolved_window(
    page: Option<i32>,
    per_page: Option<i32>,
    count: Option<Pagination>,
) -> PageWindow {
    PageWindow {
        page: resolved_page(page, counted_pages(count)),
        per_page: resolved_per_page(per_page),
        total_pages: counted_pages(count),
    }
}

/// The window that a request for the list of groups is answered with. Only
/// a caller who was found and is a superuser is answered at all.
pub open spec fn listed(
    superuser: Option<bool>,
    page: Option<i32>,
    per_page: Option<i32>,
    count: Option<Pagination>,
) -> Option<PageWindow> {
    if superuser == Some(true) {
        Some(resolved_window(page, per_page, count))
    } else {
        None
    }
}

/// Resolves the window for the page and page size asked for.
pub fn resolve_window(
    page: Option<i32>,
    per_page: Option<i32>,
    count: Option<Pagination>,
) -> (window: PageWindow)
    ensures
        window == resolved_window(page, per_page, count),
{
    let total_pages: i32 = match count {
        Some(count) => count.total_pages,
        None => 1,
    };
    let mut resolved_page: i32 = match page {
        Some(page) => page,
        None => DEFAULT_PAGE,
    };
    let mut resolved_per_page: i32 = match per_page {
        Some(per_page) => per_page,
        None => DEFAULT_PER_PAGE,
    };
    if resolved_page < 1 {
        resolved_page = 1;
    } else if resolved_page > total_pages {
        resolved_page = total_pages;
    }
    if resolved_per_page < DEFAULT_PER_PAGE {
        resolved_per_page = DEFAULT_PER_PAGE;
    } else if resolved_per_page > MAX_PER_PAGE {
        resolved_per_page = MAX_PER_PAGE;
    }
    PageWindow { page: resolved_page, per_page: resolved_per_page, total_pages }
}

/// `GET /groups`: decides whether the caller is shown the list, and which
/// window of it. `superuser` is what the lookup of the caller found: nothing
/// when the caller has no record.
pub fn groups_list(
    superuser: Option<bool>,
    page: Option<i32>,
    per_page: Option<i32>,
    count: Option<Pagination>,
) -> (window: Option<PageWindow>)
    ensures
        window == listed(superuser, page, per_page, count),
{
    match superuser {
        Some(true) => Some(resolve_window(page, per_page, count)),
        _ => None,
    }
}

impl PageWindow {
    /// How many rows the query for this window may return.
    pub fn limit(&self) -> (limit: i64)
        ensures
            limit == self.per_page,
    {
        self.per_page as i64
    }

    /// How many rows the query for this window skips.
    pub fn offset(&self) -> (offset: i64)
        ensures
            offset == (self.page - 1) * self.per_page,
    {
        let page = self.page as i64;
        let per_page = self.per_page as i64;
        assert(-0x7000_0000_0000_0000 <= (page - 1) * per_page <= 0x7000_0000_0000_0000)
            by (nonlinear_arith)
            requires
                -0x8000_0001 <= page - 1 < 0x8000_0000,
                -0x8000_0000 <= per_page < 0x8000_0000,
        ;
        (page - 1) * per_page
    }
}

/// One page of groups, with the pages to go to from it.
#[derive(Debug, Clone, PartialEq, Eq)]
pub struct PaginatedGroupsQueryResult {
    pub result: Vec<Group>,
    pub prev_page: i32,
    pub next_page: i32,
    pub last_page: i32,
}

/// The page before a page, but never before the first.
pub open spec fn page_before(page: int) -> int {
    if page - 1 > 1 {
        page - 1
    } else {
        1
    }
}

/// The page that is linked as the next: the page itself, but never beyond
/// the last.
pub open spec fn page_after(page: int, total_pages: int) -> int {
    if page < total_pages {
        page
    } else {
        total_pages
    }
}

/// Puts the rows that the query for a page returned together with the
/// pages to go to from it.
pub fn get_groups(rows: Vec<Group>, page: i32, total_pages: i32) -> (listing:
    PaginatedGroupsQueryResult)
    ensures
        listing.result == rows,
        listing.prev_page == page_before(page as int),
        listing.next_page == page_after(page as int, total_pages as int),
        listing.last_page == total_pages,
{
    let prev_page: i32 = if page > 2 {
        page - 1
    } else {
        1
    };
    let next_page: i32 = if page < total_pages {
        page
    } else {
        total_pages
    };
    PaginatedGroupsQueryResult { result: rows, prev_page, next_page, last_page: total_pages }
}

} // verus!
