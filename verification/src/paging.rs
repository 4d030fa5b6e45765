//! Which rows a listing page shows.
use vstd::prelude::*;

verus! {

/// Rows per page when none is asked for.
pub const DEFAULT_PER_PAGE: u32 = 50;

/// The number of rows a page holds.
pub open spec fn page_limit(per: Option<u32>) -> int {
    match per {
        Some(n) => n as int,
        None => DEFAULT_PER_PAGE as int,
    }
}

/// The first row of a page: pages count from 1, and no page, page 0 and
/// page 1 all start at row 0.
pub open spec fn page_offset(page: Option<u32>, per: Option<u32>) -> int {
    match page {
        Some(p) => if p > 1 {
            (p - 1) * page_limit(per)
        } else {
            0
        },
        None => 0,
    }
}

/// The `(limit, offset)` of a listing query for a page. The offset must fit
/// an `i64` (the multiplication would overflow otherwise).
pub fn page_window(page: Option<u32>, per: Option<u32>) -> (r: (i64, i64))
    requires
        page_offset(page, per) <= i64::MAX,
    ensures
        r.0 == page_limit(per),
        r.1 == page_offset(page, per),
{
    let mut limit: i64 = DEFAULT_PER_PAGE as i64;
    let mut offset: i64 = 0;
    if let Some(n) = per {
        limit = n as i64;
    }
    if let Some(p) = page {
        if p > 1 {
            let before: i64 = (p as i64) - 1;
            assert(0 <= before * limit) by (nonlinear_arith)
                requires
                    0 <= before,
                    0 <= limit,
            ;
            offset = before * limit;
        }
    }
    (limit, offset)
}

/// Consecutive pages follow each other: page `p + 1` starts where page `p`
/// ends.
pub proof fn lemma_pages_adjacent(p: u32, per: Option<u32>)
    requires
        p >= 1,
        p < u32::MAX,
    ensures
        page_offset(Some((p + 1) as u32), per) == page_offset(Some(p), per) + page_limit(per),
{
    let l = page_limit(per);
    assert(p * l == (p - 1) * l + l) by (nonlinear_arith);
}

} // verus!
