//! Paged listings.
use vstd::prelude::*;

verus! {

/// Page defaults when a query leaves them out.
pub const DEFAULT_PAGE: u64 = 1;

pub const DEFAULT_PAGE_SIZE: u64 = 10;

/// A listing query: the 1-based page and the page size.
pub struct PaginationOptions {
    pub page: Option<u64>,
    pub page_size: Option<u64>,
}

/// One page of a listing, with the total item and page counts.
pub struct PaginationResponse<T> {
    pub total: u64,
    pub page_count: u64,
    pub data: Vec<T>,
}

/// The value of an optional query field, or its default.
pub open spec fn or_default(v: Option<u64>, d: u64) -> u64 {
    match v {
        Some(x) => x,
        None => d,
    }
}

impl PaginationOptions {
    /// The 0-based index and the size of the requested page; none for page
    /// 0, which does not exist.
    pub fn page_request(&self) -> (r: Option<(u64, u64)>)
        ensures
            or_default(self.page, DEFAULT_PAGE) == 0 ==> r is None,
            or_default(self.page, DEFAULT_PAGE) > 0 ==> r == Some(
                (
                    (or_default(self.page, DEFAULT_PAGE) - 1) as u64,
                    or_default(self.page_size, DEFAULT_PAGE_SIZE),
                ),
            ),
    {
        let page = match self.page {
            Some(p) => p,
            None => DEFAULT_PAGE,
        };
        let size = match self.page_size {
            Some(s) => s,
            None => DEFAULT_PAGE_SIZE,
        };
        if page == 0 {
            None
        } else {
            Some((page - 1, size))
        }
    }
}

} // verus!
