//! Page metadata of keyset-paginated listings.

use vstd::prelude::*;

verus! {

/// Where a page stands: its size, whether more follows, and the cursor of the next page.
#[derive(Debug, Clone)]
pub struct PageMetaDto {
    pub limit: u32,
    pub has_more: bool,
    pub next_cursor: Option<String>,
}

impl PageMetaDto {
    /// The metadata of a last page: nothing follows.
    pub fn empty(limit: u32) -> (meta: PageMetaDto)
        ensures
            meta.limit == limit,
            !meta.has_more,
            meta.next_cursor is None,
    {
        PageMetaDto { limit, has_more: false, next_cursor: None }
    }
}

} // verus!
