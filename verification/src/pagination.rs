//! The pagination protocol: 1-based pages, a per-page limit, the offset of a
//! page inside the full collection, and the total page count computed as the
//! ceiling of `total / limit`.

use vstd::prelude::*;

verus! {

/// Page and limit as a client sends them: either may be absent.
#[derive(Debug, Clone, PartialEq)]
pub struct PaginationParams {
    pub page: Option<u64>,
    pub limit: Option<u64>,
}

impl Default for PaginationParams {
    /// The defaults applied when a request carries no pagination at all.
    fn default() -> (r: Self)
        ensures
            r.page == Some(1u64),
            r.limit == Some(10u64),
    {
        Self { page: Some(1), limit: Some(10) }
    }
}

/// The page actually used: a missing or zero page means the first page.
pub open spec fn effective_page(page: Option<u64>) -> u64 {
    match page {
        Some(p) => if p >= 1 { p } else { 1u64 },
        None => 1u64,
    }
}

/// The limit actually used: a missing or zero limit means the default of 10.
pub open spec fn effective_limit(limit: Option<u64>) -> u64 {
    match limit {
        Some(l) => if l >= 1 { l } else { 10u64 },
        None => 10u64,
    }
}

/// Resolve a request's pagination to the (page, limit) pair every layer
/// then works with. Defaulting happens here, once, and nowhere else.
pub fn normalize(params: &PaginationParams) -> (r: (u64, u64))
    ensures
        r.0 == effective_page(params.page),
        r.1 == effective_limit(params.limit),
        r.0 >= 1,
        r.1 >= 1,
{
    let page: u64 = match params.page {
        Some(p) => if p >= 1 { p } else { 1 },
        None => 1,
    };
    let limit: u64 = match params.limit {
        Some(l) => if l >= 1 { l } else { 10 },
        None => 10,
    };
    (page, limit)
}

/// Index of the first item of `page` when each page holds `limit` items.
pub open spec fn spec_offset(page: u64, limit: u64) -> int
    recommends
        page >= 1,
{
    (page - 1) * limit
}

/// `ceil(total / limit)`: the number of pages needed to hold `total` items.
pub open spec fn ceil_div(total: int, limit: int) -> int
    recommends
        total >= 0,
        limit >= 1,
{
    if total == 0 {
        0
    } else {
        (total - 1) / limit + 1
    }
}

/// `ceil_div` really is the ceiling: `limit * ceil_div(total, limit)` reaches
/// `total`, and one page fewer would not.
pub proof fn lemma_ceil_div_is_ceiling(total: int, limit: int)
    requires
        total >= 0,
        limit >= 1,
    ensures
        ceil_div(total, limit) >= 0,
        limit * ceil_div(total, limit) >= total,
        total > 0 ==> limit * (ceil_div(total, limit) - 1) < total,
        ceil_div(total, limit) == 0 <==> total == 0,
{
    if total > 0 {
        let d = (total - 1) / limit;
        let r = (total - 1) % limit;
        vstd::arithmetic::div_mod::lemma_fundamental_div_mod(total - 1, limit);
        vstd::arithmetic::div_mod::lemma_mod_bound(total - 1, limit);
        vstd::arithmetic::div_mod::lemma_div_pos_is_pos(total - 1, limit);
        assert(total - 1 == limit * d + r);
        assert(limit * (d + 1) == limit * d + limit) by (nonlinear_arith);
        assert(limit * (d + 1) >= total);
        assert(limit * d <= total - 1);
    }
}

/// The items of `page`, newest first: `items` stands in creation order, so
/// a page is a `limit`-long window into its reversal, starting at the page's
/// offset. A page past the end is empty; the last page may be short.
pub open spec fn page_of<T>(items: Seq<T>, page: u64, limit: u64) -> Seq<T>
    recommends
        page >= 1,
        limit >= 1,
{
    let rev = items.reverse();
    let off = (page - 1) * limit;
    if off >= rev.len() {
        Seq::empty()
    } else if off + limit <= rev.len() {
        rev.subrange(off as int, off + limit)
    } else {
        rev.subrange(off as int, rev.len() as int)
    }
}

/// Total page count for `total` items at `limit` per page.
pub fn total_pages(total: u64, limit: u64) -> (r: u64)
    requires
        limit >= 1,
    ensures
        r == ceil_div(total as int, limit as int),
{
    if total == 0 {
        0
    } else {
        let q = (total - 1) / limit;
        proof {
            vstd::arithmetic::div_mod::lemma_div_nonincreasing((total - 1) as int, limit as int);
        }
        q + 1
    }
}

} // verus!
