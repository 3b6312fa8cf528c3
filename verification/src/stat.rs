//! Database statistics.

use vstd::prelude::*;

verus! {

/// A snapshot of the statistics of one database, as the engine reported them.
#[derive(Clone, Copy, Debug, PartialEq, Eq, Structural)]
pub struct Stat {
    /// Size of a database page, in bytes.
    pub page_size: u32,
    /// Height of the B-tree.
    pub depth: u32,
    /// Number of internal pages.
    pub branch_pages: u64,
    /// Number of leaf pages.
    pub leaf_pages: u64,
    /// Number of overflow pages.
    pub overflow_pages: u64,
    /// Number of entries.
    pub entries: u64,
}

} // verus!
