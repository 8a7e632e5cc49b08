//! What a client sends to ask for one page of a listing.

use vstd::prelude::*;

verus! {

/// A page of a public listing.
#[derive(Debug)]
pub struct PaginationArgs {
    /// Pages are counted from 1.
    pub page: u32,
    pub limit: u32,
    pub search: String,
    pub field: String,
}

/// A page of a listing that only the administrator may read.
#[derive(Debug)]
pub struct AdminPaginationArgs {
    /// The administrator's secret.
    pub token: String,
    /// Pages are counted from 1.
    pub page: u32,
    pub limit: u32,
    pub search: String,
    pub field: String,
}

/// A page of the resources, narrowed to one tag.
#[derive(Debug)]
pub struct ResourcePaginationArgs {
    /// Pages are counted from 1.
    pub page: u32,
    pub limit: u32,
    pub search: String,
    pub field: String,
    pub tag: String,
}

/// How many records lie before page `page` of `limit` records each.
pub open spec fn records_before(page: int, limit: int) -> int {
    (page - 1) * limit
}

/// How many records to pass over to reach page `page`, counted from 1, of
/// `limit` records each.
pub fn skip_of(page: u32, limit: u32) -> (skip: u64)
    requires
        page >= 1,
    ensures
        skip == records_before(page as int, limit as int),
{
    let before: u64 = (page - 1) as u64;
    assert(before * (limit as u64) <= 0xffff_ffff * 0xffff_ffff) by (nonlinear_arith)
        requires
            before <= 0xffff_ffff,
            limit <= 0xffff_ffff,
    ;
    before * (limit as u64)
}

impl PaginationArgs {
    /// How many records to pass over; `None` for a page 0, which no listing
    /// has.
    pub fn skip(&self) -> (skip: Option<u64>)
        ensures
            skip == if self.page >= 1 {
                Some(records_before(self.page as int, self.limit as int) as u64)
            } else {
                None
            },
    {
        if self.page >= 1 {
            Some(skip_of(self.page, self.limit))
        } else {
            None
        }
    }
}

impl AdminPaginationArgs {
    /// How many records to pass over; `None` for a page 0, which no listing
    /// has.
    pub fn skip(&self) -> (skip: Option<u64>)
        ensures
            skip == if self.page >= 1 {
                Some(records_before(self.page as int, self.limit as int) as u64)
            } else {
                None
            },
    {
        if self.page >= 1 {
            Some(skip_of(self.page, self.limit))
        } else {
            None
        }
    }
}

impl ResourcePaginationArgs {
    /// How many records to pass over; `None` for a page 0, which no listing
    /// has.
    pub fn skip(&self) -> (skip: Option<u64>)
        ensures
            skip == if self.page >= 1 {
                Some(records_before(self.page as int, self.limit as int) as u64)
            } else {
                None
            },
    {
        if self.page >= 1 {
            Some(skip_of(self.page, self.limit))
        } else {
            None
        }
    }
}

} // verus!
