//! The macOS classifier. The system reports no origin or permanence for an
//! address, so the index stays empty and every address gets the rank that its
//! prefix length stands for.

use super::{RankKey, StabilityIndex, StabilityRank};
use vstd::prelude::*;

verus! {

/// The empty index.
pub fn collect_stability_ranks() -> (ranks: StabilityIndex)
    ensures
        ranks.wf(),
        ranks@ == Map::<RankKey, StabilityRank>::empty(),
{
    StabilityIndex::new()
}

} // verus!
