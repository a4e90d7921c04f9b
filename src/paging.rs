//! List queries: page defaults and bounds, sort direction and column, and the
//! search term, and the page handed back.

use vstd::prelude::*;
use crate::session::RequestError;
use crate::text::{normalize_name, same_text, trimmed};

verus! {

/// The page asked for when none is given.
pub const DEFAULT_PAGE: u64 = 1;

/// The page size used when none is given.
pub const DEFAULT_PAGE_SIZE: u64 = 25;

/// The largest page size served.
pub const MAX_PAGE_SIZE: u64 = 200;

/// The query parameters every list endpoint takes.
#[derive(Clone, Debug)]
pub struct ListQuery {
    pub q: Option<String>,
    pub active: Option<bool>,
    pub sort: Option<String>,
    pub order: Option<String>,
    pub page: Option<u64>,
    pub page_size: Option<u64>,
}

/// Sort direction.
#[derive(Clone, Copy, Debug, PartialEq, Eq, Structural)]
pub enum SortOrder {
    Asc,
    Desc,
}

/// The page to fetch: `page` counts from one, `page0` from zero.
#[derive(Clone, Copy, Debug, PartialEq, Eq, Structural)]
pub struct PageWindow {
    pub page: u64,
    pub page_size: u64,
    pub page0: u64,
}

/// One page of a listing.
#[derive(Clone, Debug)]
pub struct PageResponse<T> {
    pub items: Vec<T>,
    pub page: u64,
    pub page_size: u64,
    pub total_items: u64,
    pub total_pages: u64,
}

/// `x` held within `[lo, hi]`.
pub open spec fn clamp_spec(x: u64, lo: u64, hi: u64) -> u64 {
    if x < lo {
        lo
    } else if x > hi {
        hi
    } else {
        x
    }
}

/// The text a query gives for a parameter, or its default.
pub open spec fn text_or(value: Option<String>, default: Seq<char>) -> Seq<char> {
    match value {
        Some(v) => v@,
        None => default,
    }
}

impl ListQuery {
    /// The page (at least one) and the page size (between one and
    /// `MAX_PAGE_SIZE`), with their defaults.
    pub fn page_window(&self) -> (w: PageWindow)
        ensures
            w.page == match self.page {
                Some(p) => if p < 1 {
                    1
                } else {
                    p
                },
                None => DEFAULT_PAGE,
            },
            w.page_size == clamp_spec(
                match self.page_size {
                    Some(s) => s,
                    None => DEFAULT_PAGE_SIZE,
                },
                1,
                MAX_PAGE_SIZE,
            ),
            w.page0 == w.page - 1,
    {
        let page = match self.page {
            Some(p) => if p < 1 {
                1
            } else {
                p
            },
            None => DEFAULT_PAGE,
        };
        let size = match self.page_size {
            Some(s) => s,
            None => DEFAULT_PAGE_SIZE,
        };
        let page_size = if size < 1 {
            1
        } else if size > MAX_PAGE_SIZE {
            MAX_PAGE_SIZE
        } else {
            size
        };
        PageWindow { page, page_size, page0: page - 1 }
    }

    /// Whether to list active or inactive rows; active unless asked.
    pub fn active_filter(&self) -> (r: bool)
        ensures
            r == match self.active {
                Some(a) => a,
                None => true,
            },
    {
        match self.active {
            Some(a) => a,
            None => true,
        }
    }

    /// The sort direction: `asc` (the default) or `desc`; anything else is a
    /// bad request.
    pub fn sort_order(&self) -> (r: Result<SortOrder, RequestError>)
        ensures
            r == if text_or(self.order, "asc"@) == "asc"@ {
                Ok::<SortOrder, RequestError>(SortOrder::Asc)
            } else if text_or(self.order, "asc"@) == "desc"@ {
                Ok::<SortOrder, RequestError>(SortOrder::Desc)
            } else {
                Err::<SortOrder, RequestError>(RequestError::BadRequest)
            },
    {
        let order: &str = match &self.order {
            Some(o) => o.as_str(),
            None => "asc",
        };
        if same_text(order, "asc") {
            Ok(SortOrder::Asc)
        } else if same_text(order, "desc") {
            Ok(SortOrder::Desc)
        } else {
            Err(RequestError::BadRequest)
        }
    }

    /// The index in `columns` of the column that the `sort` parameter (or
    /// `default_key`) names; a name outside the list is a bad request.
    pub fn sort_column(&self, default_key: &str, columns: &[&str]) -> (r: Result<usize, RequestError>)
        ensures
            match r {
                Ok(i) => i < columns@.len() && columns@[i as int]@ == text_or(self.sort, default_key@)
                    && forall|j: int|
                    0 <= j < i ==> #[trigger] columns@[j]@ != text_or(self.sort, default_key@),
                Err(e) => e == RequestError::BadRequest && forall|j: int|
                    0 <= j < columns@.len() ==> #[trigger] columns@[j]@ != text_or(
                        self.sort,
                        default_key@,
                    ),
            },
    {
        let key: &str = match &self.sort {
            Some(s) => s.as_str(),
            None => default_key,
        };
        let mut i: usize = 0;
        while i < columns.len()
            invariant
                i <= columns@.len(),
                key@ == text_or(self.sort, default_key@),
                forall|j: int| 0 <= j < i ==> #[trigger] columns@[j]@ != key@,
            decreases columns@.len() - i,
        {
            if same_text(columns[i], key) {
                return Ok(i);
            }
            i += 1;
        }
        Err(RequestError::BadRequest)
    }

    /// The search term: `q` without surrounding white space, if anything is
    /// left of it.
    pub fn search_term(&self) -> (r: Option<String>)
        ensures
            match r {
                Some(t) => self.q is Some && trimmed(self.q->Some_0@).len() > 0 && t@ == trimmed(
                    self.q->Some_0@,
                ),
                None => self.q is None || trimmed(self.q->Some_0@).len() == 0,
            },
    {
        match &self.q {
            Some(q) => normalize_name(q.as_str()),
            None => None,
        }
    }
}

impl PageWindow {
    /// The number of rows before this page, if it fits in a `u64`.
    pub fn offset(&self) -> (r: Option<u64>)
        ensures
            match r {
                Some(o) => o == self.page0 * self.page_size,
                None => self.page0 * self.page_size > u64::MAX,
            },
    {
        self.page0.checked_mul(self.page_size)
    }

    /// The number of pages that `total_items` rows fill at this page size.
    pub fn total_pages(&self, total_items: u64) -> (r: u64)
        requires
            self.page_size >= 1,
        ensures
            r as int == if total_items % self.page_size == 0 {
                (total_items / self.page_size) as int
            } else {
                (total_items / self.page_size) as int + 1
            },
    {
        let full = total_items / self.page_size;
        if total_items % self.page_size == 0 {
            full
        } else {
            let size = self.page_size;
            assert(size >= 2);
            assert(full <= total_items / 2) by (nonlinear_arith)
                requires
                    size >= 2,
                    full == total_items / size,
            ;
            full + 1
        }
    }
}

impl<T> PageResponse<T> {
    /// The page `window` of a listing of `total_items` rows in `total_pages`
    /// pages, holding `items`.
    pub fn new(items: Vec<T>, window: PageWindow, total_items: u64, total_pages: u64) -> (r:
        PageResponse<T>)
        ensures
            r.items == items,
            r.page == window.page,
            r.page_size == window.page_size,
            r.total_items == total_items,
            r.total_pages == total_pages,
    {
        PageResponse { items, page: window.page, page_size: window.page_size, total_items, total_pages }
    }
}

} // verus!
