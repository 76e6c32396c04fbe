//! Pages of query results.
use vstd::prelude::*;

verus! {

/// A page request: the page number (counted from 1) and the page size.
#[derive(Debug, Clone, Copy)]
pub struct Page {
    pub current_page: u64,
    pub page_size: u64,
}

impl Page {
    pub fn new(current_page: u64, page_size: u64) -> (r: Page)
        ensures
            r.current_page == current_page,
            r.page_size == page_size,
    {
        Page { current_page, page_size }
    }
}

/// One page of results with the totals of the whole query.
#[derive(Debug)]
pub struct PageRes<T> {
    pub total_size: u64,
    pub page_size: u64,
    pub total_page: u64,
    pub records: Vec<T>,
}

/// The number of pages that `total_size` records fill at `page_size` per
/// page; 0 when either is 0.
pub open spec fn page_count(total_size: nat, page_size: nat) -> nat {
    if total_size > 0 && page_size > 0 {
        ((total_size + page_size - 1) / (page_size as int)) as nat
    } else {
        0
    }
}

impl<T> PageRes<T> {
    /// An empty result: no records and all totals 0.
    pub fn new() -> (r: PageRes<T>)
        ensures
            r.total_size == 0,
            r.page_size == 0,
            r.total_page == 0,
            r.records@ == Seq::<T>::empty(),
    {
        PageRes { total_size: 0, page_size: 0, total_page: 0, records: Vec::new() }
    }

    /// A result holding `records`, with the page count computed from the
    /// totals.
    pub fn new_from_records(total_size: u64, page_size: u64, records: Vec<T>) -> (r: PageRes<T>)
        requires
            total_size > 0 && page_size > 0 ==> total_size + page_size <= u64::MAX,
        ensures
            r.total_size == total_size,
            r.page_size == page_size,
            r.total_page == page_count(total_size as nat, page_size as nat),
            r.records@ == records@,
    {
        let mut total_page: u64 = 0;
        if total_size > 0 && page_size > 0 {
            total_page = (total_size + page_size - 1) / page_size;
        }
        PageRes { total_size, page_size, total_page, records }
    }
}

/// The page count is the least number of pages of `page_size` that hold
/// `total_size` records.
pub proof fn lemma_page_count_is_least_cover(total_size: nat, page_size: nat)
    requires
        page_size > 0,
    ensures
        page_count(total_size, page_size) * page_size >= total_size,
        page_count(total_size, page_size) > 0 ==> (page_count(total_size, page_size) - 1) * page_size < total_size,
{
    if total_size > 0 {
        let n = total_size + page_size - 1;
        let q = n / (page_size as int);
        assert(q * page_size + n % (page_size as int) == n) by (nonlinear_arith)
            requires page_size > 0, q == n / (page_size as int);
        assert(0 <= n % (page_size as int) < page_size) by (nonlinear_arith)
            requires page_size > 0;
        assert((q - 1) * page_size == q * page_size - page_size) by (nonlinear_arith);
    }
}

} // verus!
