use vstd::prelude::*;

verus! {

/// Records per page of the course list (keeps a message under the platform's size limit).
pub const COURSES_PER_PAGE: usize = 5;

/// Records per page of the assessment list.
pub const ASSESSMENTS_PER_PAGE: usize = 9;

/// The last page number for `total` records: `total / per_page + 1`.
///
/// When `total` is an exact multiple of `per_page` this counts one trailing empty
/// page; listings keep that convention so that page numbers stay compatible.
pub open spec fn last_page(total: int, per_page: int) -> int {
    total / per_page + 1
}

/// A page number that a listing of `total` records can show.
pub open spec fn page_in_range(page: int, total: int, per_page: int) -> bool {
    1 <= page <= last_page(total, per_page)
}

/// First record index of `page`.
pub open spec fn slice_start(page: int, per_page: int) -> int {
    (page - 1) * per_page
}

/// One past the last record index of `page`.
pub open spec fn slice_end(page: int, per_page: int, total: int) -> int {
    if slice_start(page, per_page) + per_page > total {
        total
    } else {
        slice_start(page, per_page) + per_page
    }
}

/// Computes `last_page` without overflow.
pub fn page_count(total: usize, per_page: usize) -> (r: usize)
    requires
        per_page >= 1,
        last_page(total as int, per_page as int) <= usize::MAX,
    ensures
        r == last_page(total as int, per_page as int),
{
    total / per_page + 1
}

/// The index range of the records shown on `current_page`:
/// starts at `(current_page - 1) * per_page` and holds at most `per_page` records.
pub fn calculate_range(current_page: usize, per_page: usize, total: usize) -> (r: std::ops::Range<usize>)
    requires
        current_page >= 1,
        per_page >= 1,
        slice_start(current_page as int, per_page as int) <= usize::MAX,
    ensures
        r.start == slice_start(current_page as int, per_page as int),
        r.end == slice_end(current_page as int, per_page as int, total as int),
{
    let start = (current_page - 1) * per_page;
    let end = if start > total || total - start < per_page {
        total
    } else {
        start + per_page
    };
    start..end
}

/// For every record count, page size from 1 and page number from 1 up to the last
/// page, the slice of a page lies within the records: `0 <= start <= end <= total`.
pub proof fn lemma_slice_within_bounds(page: int, per_page: int, total: int)
    requires
        per_page >= 1,
        total >= 0,
        page_in_range(page, total, per_page),
    ensures
        0 <= slice_start(page, per_page) <= slice_end(page, per_page, total) <= total,
{
    assert((page - 1) * per_page <= (total / per_page) * per_page) by (nonlinear_arith)
        requires
            page - 1 <= total / per_page,
            per_page >= 1,
            page >= 1,
    ;
    assert((total / per_page) * per_page <= total) by (nonlinear_arith)
        requires
            per_page >= 1,
            total >= 0,
    ;
    assert(0 <= (page - 1) * per_page) by (nonlinear_arith)
        requires
            page >= 1,
            per_page >= 1,
    ;
}

} // verus!
