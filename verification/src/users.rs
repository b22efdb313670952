//! The user-count payload: the subset of the upstream list-response
//! envelope that the relay keeps, a single non-negative total.

use vstd::prelude::*;

verus! {

/// The pagination summary kept from the upstream response: only the
/// total item count, every other field ignored.
#[derive(Clone, Copy, Debug, PartialEq, Eq, Structural)]
pub struct Pagination {
    pub count: u64,
}

/// The body served by the user-count handler:
/// `{ "pagination": { "count": <count> } }`.
#[derive(Clone, Copy, Debug, PartialEq, Eq, Structural)]
pub struct Users {
    pub pagination: Pagination,
}

/// Wraps an upstream count unchanged into the served shape: the count
/// passes through identically.
pub fn users_from_count(count: u64) -> (u: Users)
    ensures
        u.pagination.count == count,
{
    Users { pagination: Pagination { count } }
}

} // verus!
