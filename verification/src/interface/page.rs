//! Pages of results.

use vstd::prelude::*;
use crate::interface::common::PaginationResult;

verus! {

impl<T> PaginationResult<Vec<T>> {
    /// Whether the page is one of its result: it holds no more items than the
    /// result has in all.
    pub open spec fn is_page(&self) -> bool {
        self.data@.len() <= self.total
    }

    /// Whether the page holds no more items than the result has in all.
    pub fn holds_page(&self) -> (r: bool)
        ensures
            r == self.is_page(),
    {
        match u64_of(self.data.len()) {
            Some(count) => count <= self.total,
            None => false,
        }
    }
}

/// A length as a `u64`, where it fits.
fn u64_of(n: usize) -> (r: Option<u64>)
    ensures
        match r {
            Some(m) => m == n,
            None => n > u64::MAX,
        },
{
    if n as u128 <= u64::MAX as u128 {
        Some(n as u64)
    } else {
        None
    }
}

} // verus!
