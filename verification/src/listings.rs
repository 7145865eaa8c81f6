//! Paging of the store listings: which slice of the approved, newest-first
//! listings a request for page `page` of size `page_size` reads.

use vstd::prelude::*;

verus! {

/// The page read when none is asked for: the first.
pub const DEFAULT_PAGE: i32 = 1;

/// The page size used when none is asked for.
pub const DEFAULT_PAGE_SIZE: i32 = 10;

/// The `LIMIT` and `OFFSET` of the listing query.
#[derive(Clone, Copy, Debug, PartialEq, Eq, Structural)]
pub struct ListingWindow {
    pub limit: i64,
    pub offset: i64,
}

/// The page number in effect.
pub open spec fn effective_page(page: Option<i32>) -> int {
    match page {
        Some(p) => p as int,
        None => DEFAULT_PAGE as int,
    }
}

/// The page size in effect.
pub open spec fn effective_page_size(page_size: Option<i32>) -> int {
    match page_size {
        Some(s) => s as int,
        None => DEFAULT_PAGE_SIZE as int,
    }
}

/// How many listings come before the page: `(page - 1) * page_size`.
pub open spec fn window_offset(page: Option<i32>, page_size: Option<i32>) -> int {
    (effective_page(page) - 1) * effective_page_size(page_size)
}

/// The offset is computed in 32-bit arithmetic, so `page - 1` and the
/// product must both stay within `i32`.
pub open spec fn window_fits(page: Option<i32>, page_size: Option<i32>) -> bool {
    &&& i32::MIN <= effective_page(page) - 1
    &&& i32::MIN <= window_offset(page, page_size) <= i32::MAX
}

/// The window of listings that page `page` of size `page_size` covers.
pub open spec fn spec_listing_window(page: Option<i32>, page_size: Option<i32>) -> ListingWindow {
    ListingWindow {
        limit: effective_page_size(page_size) as i64,
        offset: window_offset(page, page_size) as i64,
    }
}

/// Computes the `LIMIT`/`OFFSET` pair of a listing request.
pub fn listing_window(page: Option<i32>, page_size: Option<i32>) -> (w: ListingWindow)
    requires
        window_fits(page, page_size),
    ensures
        w == spec_listing_window(page, page_size),
        w.limit == effective_page_size(page_size),
        w.offset == window_offset(page, page_size),
        page_size matches Some(s) ==> w.limit == s,
        page_size is None ==> w.limit == 10,
        page matches Some(p) ==> w.offset == (p - 1) * w.limit,
        page is None ==> w.offset == 0,
{
    let page = match page {
        Some(p) => p,
        None => DEFAULT_PAGE,
    };
    let page_size = match page_size {
        Some(s) => s,
        None => DEFAULT_PAGE_SIZE,
    };
    let before = page - 1;
    let offset = before as i64 * page_size as i64;
    ListingWindow { limit: page_size as i64, offset }
}

/// Checks whether a request can be answered without overflowing the
/// offset computation.
pub fn listing_window_fits(page: Option<i32>, page_size: Option<i32>) -> (b: bool)
    ensures
        b == window_fits(page, page_size),
{
    let page = match page {
        Some(p) => p,
        None => DEFAULT_PAGE,
    };
    let page_size = match page_size {
        Some(s) => s,
        None => DEFAULT_PAGE_SIZE,
    };
    if page == i32::MIN {
        return false;
    }
    let before = page as i64 - 1;
    let size = page_size as i64;
    assert(-0x8000_0000 <= before <= 0x7fff_ffff && -0x8000_0000 <= size <= 0x7fff_ffff);
    assert(-0x4000_0000_0000_0000 <= before * size <= 0x4000_0000_0000_0000) by (nonlinear_arith)
        requires
            -0x8000_0000 <= before <= 0x7fff_ffff,
            -0x8000_0000 <= size <= 0x7fff_ffff,
    ;
    let offset = before * size;
    i32::MIN as i64 <= offset && offset <= i32::MAX as i64
}

/// A 64-bit page number as the 32-bit one the window is computed from,
/// when it fits.
pub open spec fn narrow_page(v: Option<i64>) -> Option<Option<i32>> {
    match v {
        None => Some(None),
        Some(x) => if i32::MIN <= x <= i32::MAX {
            Some(Some(x as i32))
        } else {
            None
        },
    }
}

/// The window of a request given in 64-bit page numbers: none when a
/// number does not fit in 32 bits or the offset would overflow.
pub open spec fn spec_wide_window(page: Option<i64>, page_size: Option<i64>) -> Option<
    ListingWindow,
> {
    match (narrow_page(page), narrow_page(page_size)) {
        (Some(p), Some(s)) => if window_fits(p, s) {
            Some(spec_listing_window(p, s))
        } else {
            None
        },
        _ => None,
    }
}

fn narrow(v: Option<i64>) -> (r: Option<Option<i32>>)
    ensures
        r == narrow_page(v),
{
    match v {
        None => Some(None),
        Some(x) => if i32::MIN as i64 <= x && x <= i32::MAX as i64 {
            Some(Some(x as i32))
        } else {
            None
        },
    }
}

/// Computes the window of a request given in 64-bit page numbers.
pub fn wide_listing_window(page: Option<i64>, page_size: Option<i64>) -> (w: Option<ListingWindow>)
    ensures
        w == spec_wide_window(page, page_size),
{
    match (narrow(page), narrow(page_size)) {
        (Some(p), Some(s)) => if listing_window_fits(p, s) {
            Some(listing_window(p, s))
        } else {
            None
        },
        _ => None,
    }
}

/// Page `p + 1` starts right where page `p` ends: consecutive pages of one
/// size neither overlap nor leave a gap.
pub proof fn lemma_pages_are_contiguous(page: i32, page_size: i32)
    requires
        window_fits(Some(page), Some(page_size)),
        page < i32::MAX,
        window_fits(Some((page + 1) as i32), Some(page_size)),
    ensures
        spec_listing_window(Some((page + 1) as i32), Some(page_size)).offset == spec_listing_window(
            Some(page),
            Some(page_size),
        ).offset + spec_listing_window(Some(page), Some(page_size)).limit,
{
    assert(page as int * page_size as int == (page as int - 1) * page_size as int
        + page_size as int) by (nonlinear_arith);
}

/// Page `p` of size `s` reads exactly `s` listings, starting `(p - 1) * s`
/// listings in, whenever that offset fits in 32 bits; a missing page is the
/// first and a missing size is ten.
pub proof fn lemma_window_is_page_times_size(page: i32, page_size: i32)
    requires
        i32::MIN <= page as int - 1,
        i32::MIN <= (page as int - 1) * page_size as int <= i32::MAX,
    ensures
        window_fits(Some(page), Some(page_size)),
        spec_listing_window(Some(page), Some(page_size)).limit == page_size,
        spec_listing_window(Some(page), Some(page_size)).offset == (page as int - 1) * page_size as int,
        window_fits(None, Some(page_size)),
        spec_listing_window(None, Some(page_size)).limit == page_size,
        spec_listing_window(None, Some(page_size)).offset == 0,
        i32::MIN <= (page as int - 1) * 10 <= i32::MAX ==> {
            &&& window_fits(Some(page), None)
            &&& spec_listing_window(Some(page), None).limit == 10
            &&& spec_listing_window(Some(page), None).offset == (page as int - 1) * 10
        },
        window_fits(None, None),
        spec_listing_window(None, None) == (ListingWindow { limit: 10, offset: 0 }),
{
}

/// The first page starts at the first listing.
pub proof fn lemma_first_page_starts_at_zero(page_size: Option<i32>)
    ensures
        window_fits(Some(1), page_size),
        window_fits(None, page_size),
        spec_listing_window(Some(1), page_size).offset == 0,
        spec_listing_window(None, page_size).offset == 0,
{
}

} // verus!
