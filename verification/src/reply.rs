//! The distilled result of one reclaim call.

use vstd::prelude::*;

verus! {

/// What one reclaim call returns: the position the next scan starts from and
/// how many pending entries the broker moved to this consumer. The entries
/// themselves are not kept; the next poll cycle delivers them.
pub struct AutoclaimReply {
    /// Next item from where to start claiming.
    pub next: String,
    /// Number of claimed items.
    pub claimed_items: usize,
}

} // verus!
