//! Pagination window for the listing endpoints.

use vstd::prelude::*;

verus! {

/// Query parameters selecting a window of a listing: skip `offset`
/// entries, then return at most `limit` entries.
#[derive(Debug)]
pub struct Pagination {
    /// Index offset in entries.
    pub offset: usize,
    /// Maximum number of entries returned.
    pub limit: usize,
}

impl core::default::Default for Pagination {
    /// The default window: start at the beginning, no bound on the count.
    fn default() -> (r: Self)
        ensures
            r.offset == 0,
            r.limit == usize::MAX,
    {
        Pagination { offset: 0, limit: usize::MAX }
    }
}

} // verus!
