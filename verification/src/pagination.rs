//! Page-window arithmetic for paginated transaction listings.
//!
//! A page request names a page number and a page size; the window of
//! transaction sequence numbers it denotes is computed with clamping
//! arithmetic, so that a request past the end of a block's range yields an
//! empty window rather than a fault, however large the page number.

use vstd::arithmetic::div_mod::{lemma_basic_div, lemma_fundamental_div_mod, lemma_mod_bound};
use vstd::arithmetic::mul::lemma_mul_nonnegative;
use vstd::prelude::*;

use crate::model::TxNumRange;

verus! {

/// The most blocks one range query may return.
pub const MAX_BLOCKS_PAGE_SIZE: usize = 500;

/// Smallest allowed page size.
pub const MIN_BLOCK_TXS_PAGE_SIZE: usize = 1;

/// Largest allowed page size.
pub const MAX_BLOCK_TXS_PAGE_SIZE: usize = 200;

/// The first sequence number of the requested page: `page_num * page_size`
/// past the block's first transaction, clamped to the end of the range.
pub open spec fn spec_page_start(range: TxNumRange, page_num: int, page_size: int) -> int {
    let target = range.start + page_num * page_size;
    if target <= range.end {
        target
    } else {
        range.end as int
    }
}

/// One past the last sequence number of the requested page: one full page
/// past the page's start, clamped to the end of the range.
pub open spec fn spec_page_end(range: TxNumRange, page_num: int, page_size: int) -> int {
    let target = spec_page_start(range, page_num, page_size) + page_size;
    if target <= range.end {
        target
    } else {
        range.end as int
    }
}

/// The number of pages that `total` items fill at `page_size` items a
/// page: the quotient rounded up.
pub open spec fn ceil_div(total: int, page_size: int) -> int {
    (total + page_size - 1) / page_size
}

/// Computes the page window with clamping arithmetic. A page number whose
/// offset lies past the end of the range yields the empty window at the
/// range's end.
pub fn page_window(range: TxNumRange, page_num: usize, page_size: usize) -> (w: TxNumRange)
    requires
        range.start <= range.end,
        range.end <= usize::MAX,
        page_size >= 1,
    ensures
        w.start == spec_page_start(range, page_num as int, page_size as int),
        w.end == spec_page_end(range, page_num as int, page_size as int),
{
    let offset_sat: u64 = match page_num.checked_mul(page_size) {
        Some(v) => v as u64,
        None => u64::MAX,
    };
    proof {
        lemma_mul_nonnegative(page_num as int, page_size as int);
    }
    let start_sat = range.start.saturating_add(offset_sat);
    let w_start = if start_sat < range.end {
        start_sat
    } else {
        range.end
    };
    let end_sat = w_start.saturating_add(page_size as u64);
    let w_end = if end_sat < range.end {
        end_sat
    } else {
        range.end
    };
    TxNumRange { start: w_start, end: w_end }
}

/// Pagination is clamp-safe: for any page number and page size, the page
/// window lies within the block's declared transaction range and spans at
/// most one page; a window whose offset reaches past the end of the range
/// is empty, so a request past the last page yields an empty page rather
/// than a fault.
pub proof fn lemma_page_window_clamped(range: TxNumRange, page_num: int, page_size: int)
    requires
        range.start <= range.end,
        page_num >= 0,
        page_size >= 1,
    ensures
        range.start <= spec_page_start(range, page_num, page_size),
        spec_page_start(range, page_num, page_size) <= spec_page_end(range, page_num, page_size),
        spec_page_end(range, page_num, page_size) <= range.end,
        spec_page_end(range, page_num, page_size) - spec_page_start(range, page_num, page_size)
            <= page_size,
        page_num * page_size >= range.end - range.start ==> spec_page_start(
            range,
            page_num,
            page_size,
        ) == spec_page_end(range, page_num, page_size),
{
    lemma_mul_nonnegative(page_num, page_size);
}

/// The page count is the exact ceiling of `total / page_size`: all pages
/// together cover every item, one page fewer would not, and no items mean
/// no pages.
pub proof fn lemma_ceil_div_exact(total: int, page_size: int)
    requires
        total >= 0,
        page_size >= 1,
    ensures
        ceil_div(total, page_size) >= 0,
        ceil_div(total, page_size) * page_size >= total,
        total > 0 ==> (ceil_div(total, page_size) - 1) * page_size < total,
        total == 0 ==> ceil_div(total, page_size) == 0,
        ceil_div(total, page_size) <= total,
{
    let x = total + page_size - 1;
    let q = ceil_div(total, page_size);
    lemma_fundamental_div_mod(x, page_size);
    lemma_mod_bound(x, page_size);
    assert(x == page_size * q + x % page_size);
    assert(q * page_size == page_size * q) by (nonlinear_arith);
    assert(q * page_size >= total);
    assert((q - 1) * page_size == q * page_size - page_size) by (nonlinear_arith);
    assert((q - 1) * page_size < total);
    if total == 0 {
        lemma_basic_div(x, page_size);
    }
    if q > total {
        assert(q - 1 >= total);
        assert((q - 1) * page_size >= (q - 1) * 1) by (nonlinear_arith)
            requires
                q - 1 >= 0,
                page_size >= 1,
        ;
        assert(false);
    }
}

} // verus!
