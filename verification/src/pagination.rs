//! Pagination: 1-based page and page size, applied to a deterministic
//! ordering.
//!
//! Policy: a listing takes `page >= 1` and `limit >= 1` and returns the rows
//! at offset `(page - 1) * limit` up to (excluding) `offset + limit`, clamped
//! to the available rows. Absent or zero query parameters are normalized to
//! the defaults (page 1, limit 10) before a listing is called.

use vstd::prelude::*;

verus! {

/// Query parameters of a listing, both optional.
#[derive(Clone, Copy, PartialEq, Eq, Structural, Debug)]
pub struct FilterOptions {
    pub page: Option<usize>,
    pub limit: Option<usize>,
}

/// The page actually used: absent or zero becomes 1.
pub open spec fn normalized_page(page: Option<usize>) -> usize {
    match page {
        Some(p) => if p == 0 {
            1usize
        } else {
            p
        },
        None => 1usize,
    }
}

/// The page size actually used: absent or zero becomes the default of 10.
pub open spec fn normalized_limit(limit: Option<usize>) -> usize {
    match limit {
        Some(l) => if l == 0 {
            10usize
        } else {
            l
        },
        None => 10usize,
    }
}

impl FilterOptions {
    /// The `(page, limit)` pair actually used: absent or zero parameters
    /// are replaced by the defaults, so both results are at least 1.
    pub fn normalize(&self) -> (r: (usize, usize))
        ensures
            r.0 == normalized_page(self.page),
            r.1 == normalized_limit(self.limit),
            r.0 >= 1,
            r.1 >= 1,
    {
        let page = match self.page {
            Some(p) => if p == 0 {
                1
            } else {
                p
            },
            None => 1,
        };
        let limit = match self.limit {
            Some(l) => if l == 0 {
                10
            } else {
                l
            },
            None => 10,
        };
        (page, limit)
    }
}

/// The window of `rows` a page selects: offset `(page - 1) * limit`,
/// length at most `limit`, both clamped to the sequence.
pub open spec fn window_of<T>(rows: Seq<T>, page: int, limit: int) -> Seq<T> {
    let offset = (page - 1) * limit;
    let start = if offset < rows.len() {
        offset
    } else {
        rows.len() as int
    };
    let end = if offset + limit < rows.len() {
        offset + limit
    } else {
        rows.len() as int
    };
    rows.subrange(start, end)
}

/// Keeps exactly the rows of the requested page.
pub(crate) fn window<T>(all: Vec<T>, page: usize, limit: usize) -> (r: Vec<T>)
    requires
        page >= 1,
        limit >= 1,
    ensures
        r@ == window_of(all@, page as int, limit as int),
{
    let ghost orig = all@;
    let len = all.len();
    let start = match (page - 1).checked_mul(limit) {
        Some(o) => if o < len {
            o
        } else {
            len
        },
        None => len,
    };
    let end = match start.checked_add(limit) {
        Some(e) => if e < len {
            e
        } else {
            len
        },
        None => len,
    };
    let mut v = all;
    v.truncate(end);
    let r = v.split_off(start);
    proof {
        let offset = (page - 1) * limit;
        assert(start as int == if offset < orig.len() {
            offset
        } else {
            orig.len() as int
        });
        assert(end as int == if offset + limit < orig.len() {
            offset + limit
        } else {
            orig.len() as int
        });
        assert(r@ =~= window_of(orig, page as int, limit as int));
    }
    r
}

} // verus!
