//! Metadata of collapsed level-of-detail buckets in the scanned tree.
use vstd::prelude::*;

verus! {

/// Which side of the size band was merged into an LoD bucket.
#[derive(Debug, Clone, Copy, PartialEq, Eq, Structural)]
pub enum LodKind {
    BelowMin,
    AboveMax,
}

/// Metadata on a collapsed LoD leaf: enough to expand into real files
/// without duplicating them in memory.
#[derive(Debug, Clone, PartialEq, Eq)]
pub struct LodExpandInfo {
    /// Directory whose direct file children were merged into this bucket.
    pub parent_dir: String,
    pub kind: LodKind,
    pub min_threshold: u64,
    pub max_threshold: u64,
}

} // verus!
