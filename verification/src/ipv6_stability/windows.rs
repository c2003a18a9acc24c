//! The Windows classifier: the origin of an address's prefix and suffix, as
//! the IP helper reports them for each unicast address of each adapter.

use super::{upserted, RankKey, StabilityIndex, StabilityRank};
use crate::address::Ipv6Address;
use vstd::prelude::*;

verus! {

/// Where the prefix of a unicast address comes from.
#[derive(Clone, Copy, Debug, PartialEq, Eq, Structural)]
pub enum PrefixOrigin {
    Other,
    Manual,
    WellKnown,
    Dhcp,
    RouterAdvertisement,
    Unchanged,
}

/// Where the suffix of a unicast address comes from.
#[derive(Clone, Copy, Debug, PartialEq, Eq, Structural)]
pub enum SuffixOrigin {
    Other,
    Manual,
    WellKnown,
    Dhcp,
    LinkLayerAddress,
    Random,
    Unchanged,
}

/// One IPv6 unicast address of one adapter.
#[derive(Debug, Clone, PartialEq, Eq)]
pub struct UnicastAddress {
    pub adapter_name: String,
    pub addr: Ipv6Address,
    pub prefix_origin: PrefixOrigin,
    pub suffix_origin: SuffixOrigin,
}

impl UnicastAddress {
    /// The key under which the address is filed.
    pub open spec fn key(self) -> RankKey {
        (self.adapter_name@, self.addr@)
    }
}

/// The rank that the two origins stand for: a prefix from a router
/// advertisement with a suffix that is not random is the best; a random suffix
/// marks a temporary address; a suffix from DHCP or from the link layer is
/// stable; everything else is a fallback, whatever the prefix comes from.
pub open spec fn windows_rank(prefix: PrefixOrigin, suffix: SuffixOrigin) -> StabilityRank {
    if prefix == PrefixOrigin::RouterAdvertisement && suffix != SuffixOrigin::Random {
        StabilityRank::PreferredStable
    } else if suffix == SuffixOrigin::Random {
        StabilityRank::Temporary
    } else if suffix == SuffixOrigin::Dhcp || suffix == SuffixOrigin::LinkLayerAddress {
        StabilityRank::Stable
    } else {
        StabilityRank::Fallback
    }
}

/// The rank of a unicast address by the origins of its prefix and suffix.
pub fn classify_windows_rank(unicast: &UnicastAddress) -> (r: StabilityRank)
    ensures
        r == windows_rank(unicast.prefix_origin, unicast.suffix_origin),
{
    if unicast.prefix_origin == PrefixOrigin::RouterAdvertisement && unicast.suffix_origin
        != SuffixOrigin::Random {
        return StabilityRank::PreferredStable;
    }
    if unicast.suffix_origin == SuffixOrigin::Random {
        return StabilityRank::Temporary;
    }
    if unicast.suffix_origin == SuffixOrigin::Dhcp || unicast.suffix_origin
        == SuffixOrigin::LinkLayerAddress {
        return StabilityRank::Stable;
    }
    StabilityRank::Fallback
}

/// The ranks that the addresses report, merged in order.
pub open spec fn reported_ranks(addresses: Seq<UnicastAddress>) -> Map<RankKey, StabilityRank>
    decreases addresses.len(),
{
    if addresses.len() == 0 {
        Map::empty()
    } else {
        let last = addresses.last();
        upserted(
            reported_ranks(addresses.drop_last()),
            last.key(),
            windows_rank(last.prefix_origin, last.suffix_origin),
        )
    }
}

/// The index that the adapters' unicast addresses stand for.
pub fn collect_stability_ranks(addresses: &Vec<UnicastAddress>) -> (ranks: StabilityIndex)
    ensures
        ranks.wf(),
        ranks@ == reported_ranks(addresses@),
{
    let mut ranks = StabilityIndex::new();
    let mut i: usize = 0;
    assert(addresses@.take(0) == Seq::<UnicastAddress>::empty());
    while i < addresses.len()
        invariant
            i <= addresses.len(),
            ranks.wf(),
            ranks@ == reported_ranks(addresses@.take(i as int)),
        decreases addresses.len() - i,
    {
        let unicast = &addresses[i];
        let rank = classify_windows_rank(unicast);
        StabilityIndex::upsert_rank(&mut ranks, unicast.adapter_name.clone(), unicast.addr, rank);
        proof {
            let upto = addresses@.take(i + 1);
            assert(upto.drop_last() == addresses@.take(i as int));
            assert(upto.last() == addresses@[i as int]);
        }
        i += 1;
    }
    assert(addresses@.take(i as int) == addresses@);
    ranks
}

/// The status with which the adapter query reports success.
pub const NO_ERROR: u32 = 0;

/// The status with which the adapter query reports that its buffer was too
/// small, together with the size that it needs.
pub const ERROR_BUFFER_OVERFLOW: u32 = 111;

/// The number of times that the adapter query is repeated with a larger buffer.
pub const ADAPTER_QUERY_RETRIES: u32 = 3;

/// What follows one answer of the adapter query.
#[derive(Clone, Copy, Debug, PartialEq, Eq, Structural)]
pub enum AdapterQueryStep {
    /// The buffer holds the adapters: read them.
    Read,
    /// Ask again with a buffer of the size that the query asked for.
    Retry { retries_left: u32 },
    /// No ranks can be had from this source.
    GiveUp,
}

/// Decides what follows an answer of the adapter query, given the number of
/// retries that are left: success is read, an overflow is retried while
/// retries are left, and everything else ends the pass without ranks.
pub fn after_adapter_query(status: u32, retries: u32) -> (step: AdapterQueryStep)
    ensures
        step == if status == NO_ERROR {
            AdapterQueryStep::Read
        } else if status == ERROR_BUFFER_OVERFLOW && retries > 0 {
            AdapterQueryStep::Retry { retries_left: (retries - 1) as u32 }
        } else {
            AdapterQueryStep::GiveUp
        },
{
    if status == NO_ERROR {
        AdapterQueryStep::Read
    } else if status == ERROR_BUFFER_OVERFLOW && retries > 0 {
        AdapterQueryStep::Retry { retries_left: retries - 1 }
    } else {
        AdapterQueryStep::GiveUp
    }
}

} // verus!
