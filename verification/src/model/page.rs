//! Pages of keyset-paginated listings.

use vstd::prelude::*;

verus! {

/// One page of a keyset-paginated listing: its items, whether more follows, and the cursor
/// of the next page.
#[derive(Debug, Clone)]
pub struct Page<T> {
    pub items: Vec<T>,
    pub has_more: bool,
    pub next_cursor: Option<String>,
}

} // verus!
