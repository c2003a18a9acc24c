//! How likely the operating system is to keep an address assigned: the ranks,
//! and the index from `(interface, address)` to rank with its merge rule.

use crate::address::Ipv6Address;
use crate::network::{AddressRecord, InterfaceRecord};
use vstd::prelude::*;

pub mod linux;
pub mod macos;
pub mod windows;

verus! {

/// How stable an address is, best first.
#[derive(Clone, Copy, Debug, PartialEq, Eq, Structural)]
pub enum StabilityRank {
    PreferredStable,
    Stable,
    Fallback,
    Temporary,
}

impl StabilityRank {
    /// The place of the rank in the order of preference; lower is better.
    pub open spec fn ordinal(self) -> nat {
        match self {
            StabilityRank::PreferredStable => 0,
            StabilityRank::Stable => 1,
            StabilityRank::Fallback => 2,
            StabilityRank::Temporary => 3,
        }
    }

    /// The place of the rank in the order of preference, as a number.
    pub fn position(self) -> (r: u8)
        ensures
            r == self.ordinal(),
    {
        match self {
            StabilityRank::PreferredStable => 0,
            StabilityRank::Stable => 1,
            StabilityRank::Fallback => 2,
            StabilityRank::Temporary => 3,
        }
    }
}

/// The key of the index: an interface's name and an address's octets.
pub type RankKey = (Seq<char>, Seq<u8>);

/// The rank of an address that no source has classified: a `/64` counts as
/// stable, anything else as a fallback.
pub open spec fn heuristic_rank(prefix_len: u8) -> StabilityRank {
    if prefix_len == 64 {
        StabilityRank::Stable
    } else {
        StabilityRank::Fallback
    }
}

/// The rank that `ranks` gives the key, or the heuristic rank where it has none.
pub open spec fn rank_in(ranks: Map<RankKey, StabilityRank>, key: RankKey, prefix_len: u8)
    -> StabilityRank {
    if ranks.contains_key(key) {
        ranks[key]
    } else {
        heuristic_rank(prefix_len)
    }
}

/// `ranks` after one more report for `key`: an entry that is already there and
/// at least as preferred stays, otherwise the report is recorded.
pub open spec fn upserted(ranks: Map<RankKey, StabilityRank>, key: RankKey, rank: StabilityRank)
    -> Map<RankKey, StabilityRank> {
    if ranks.contains_key(key) && ranks[key].ordinal() <= rank.ordinal() {
        ranks
    } else {
        ranks.insert(key, rank)
    }
}

/// An upsert never makes a rank worse: afterwards the key has a rank that is
/// at least as preferred as the one reported and as the one it had, an entry
/// that was at least as preferred is left as it was, and no other key changes.
pub proof fn lemma_upsert_never_downgrades(
    ranks: Map<RankKey, StabilityRank>,
    key: RankKey,
    rank: StabilityRank,
)
    ensures
        upserted(ranks, key, rank).contains_key(key),
        upserted(ranks, key, rank)[key].ordinal() <= rank.ordinal(),
        ranks.contains_key(key) ==> upserted(ranks, key, rank)[key].ordinal()
            <= ranks[key].ordinal(),
        ranks.contains_key(key) && ranks[key].ordinal() <= rank.ordinal() ==> upserted(
            ranks,
            key,
            rank,
        ) == ranks,
        forall|other: RankKey|
            other != key ==> {
                &&& upserted(ranks, key, rank).contains_key(other) == ranks.contains_key(other)
                &&& upserted(ranks, key, rank)[other] == ranks[other]
            },
{
}

/// One entry of the index.
#[derive(Debug, Clone, PartialEq, Eq)]
pub struct RankEntry {
    pub iface_name: String,
    pub addr: Ipv6Address,
    pub rank: StabilityRank,
}

impl RankEntry {
    /// The key under which the entry is filed.
    pub open spec fn key(self) -> RankKey {
        (self.iface_name@, self.addr@)
    }
}

/// The ranks that the classifier has recorded, by interface and address.
#[derive(Debug, Clone)]
pub struct StabilityIndex {
    entries: Vec<RankEntry>,
}

impl StabilityIndex {
    /// No key is recorded twice.
    pub closed spec fn wf(self) -> bool {
        forall|i: int, j: int|
            0 <= i < j < self.entries.len() ==> (#[trigger] self.entries[i]).key() != (
            #[trigger] self.entries[j]).key()
    }

    closed spec fn holds(self, key: RankKey, at: int) -> bool {
        0 <= at < self.entries.len() && self.entries[at].key() == key
    }

    /// The recorded ranks as a map.
    pub closed spec fn view(&self) -> Map<RankKey, StabilityRank> {
        Map::new(
            |key: RankKey| exists|at: int| self.holds(key, at),
            |key: RankKey| self.entries[choose|at: int| self.holds(key, at)].rank,
        )
    }

    /// An index without entries.
    pub fn new() -> (r: Self)
        ensures
            r.wf(),
            r@ == Map::<RankKey, StabilityRank>::empty(),
    {
        let r = StabilityIndex { entries: Vec::new() };
        assert(r@ =~= Map::<RankKey, StabilityRank>::empty());
        r
    }

    /// Where the key is recorded, if it is.
    fn position_of(&self, iface_name: &str, addr: &Ipv6Address) -> (r: Option<usize>)
        ensures
            match r {
                Some(at) => self.holds((iface_name@, addr@), at as int),
                None => forall|at: int| !self.holds((iface_name@, addr@), at),
            },
    {
        let mut i: usize = 0;
        while i < self.entries.len()
            invariant
                i <= self.entries.len(),
                forall|at: int| 0 <= at < i ==> !self.holds((iface_name@, addr@), at),
            decreases self.entries.len() - i,
        {
            if crate::text::same_text(self.entries[i].iface_name.as_str(), iface_name)
                && self.entries[i].addr.same(addr) {
                return Some(i);
            }
            i += 1;
        }
        None
    }

    /// The rank of an address on an interface: the recorded one, or the
    /// heuristic rank of its prefix length where none is recorded.
    pub fn rank_for(&self, iface_name: &str, addr: Ipv6Address, prefix_len: u8) -> (r:
        StabilityRank)
        requires
            self.wf(),
        ensures
            r == rank_in(self@, (iface_name@, addr@), prefix_len),
    {
        match self.position_of(iface_name, &addr) {
            Some(at) => {
                proof {
                    let key = (iface_name@, addr@);
                    let chosen = choose|k: int| self.holds(key, k);
                    assert(self.holds(key, chosen));
                    assert(chosen == at);
                }
                self.entries[at].rank
            },
            None => {
                if prefix_len == 64 {
                    StabilityRank::Stable
                } else {
                    StabilityRank::Fallback
                }
            },
        }
    }

    /// Records one report: a rank that is already there for the same
    /// interface and address, and that is at least as preferred, is kept.
    pub fn upsert_rank(
        ranks: &mut StabilityIndex,
        iface_name: String,
        addr: Ipv6Address,
        rank: StabilityRank,
    )
        requires
            old(ranks).wf(),
        ensures
            final(ranks).wf(),
            final(ranks)@ == upserted(old(ranks)@, (iface_name@, addr@), rank),
    {
        let ghost key = (iface_name@, addr@);
        let ghost before = *ranks;
        match ranks.position_of(iface_name.as_str(), &addr) {
            Some(at) => {
                proof {
                    let chosen = choose|k: int| before.holds(key, k);
                    assert(before.holds(key, chosen));
                    assert(chosen == at);
                }
                if ranks.entries[at].rank.position() > rank.position() {
                    let entry = RankEntry { iface_name, addr, rank };
                    ranks.entries.set(at, entry);
                    proof {
                        let after = *ranks;
                        assert forall|i: int, j: int|
                            0 <= i < j < after.entries.len() implies (#[trigger] after.entries[i]).key()
                            != (#[trigger] after.entries[j]).key() by {
                            assert(before.entries[i].key() == after.entries[i].key());
                            assert(before.entries[j].key() == after.entries[j].key());
                        }
                        lemma_same_keys(before, after, key, rank, at as int);
                    }
                }
            },
            None => {
                let entry = RankEntry { iface_name, addr, rank };
                ranks.entries.push(entry);
                proof {
                    let after = *ranks;
                    assert forall|i: int, j: int|
                        0 <= i < j < after.entries.len() implies (#[trigger] after.entries[i]).key()
                        != (#[trigger] after.entries[j]).key() by {
                        if j == before.entries.len() {
                            assert(before.holds(before.entries[i].key(), i));
                        } else {
                            assert(before.entries[i] == after.entries[i]);
                            assert(before.entries[j] == after.entries[j]);
                        }
                    }
                    lemma_pushed_key(before, after, key, rank);
                }
            },
        }
    }
}

impl Default for StabilityIndex {
    fn default() -> (r: Self)
        ensures
            r.wf(),
            r@ == Map::<RankKey, StabilityRank>::empty(),
    {
        StabilityIndex::new()
    }
}

/// Replacing the rank of the entry at `at` is an insertion at its key.
proof fn lemma_same_keys(
    before: StabilityIndex,
    after: StabilityIndex,
    key: RankKey,
    rank: StabilityRank,
    at: int,
)
    requires
        before.wf(),
        after.wf(),
        before.holds(key, at),
        after.entries@.len() == before.entries@.len(),
        after.entries[at].key() == key,
        after.entries[at].rank == rank,
        forall|i: int| 0 <= i < before.entries.len() && i != at ==> after.entries[i] == before.entries[i],
    ensures
        after@ == before@.insert(key, rank),
{
    assert forall|k: RankKey| after@.contains_key(k) <==> before@.insert(key, rank).contains_key(
        k,
    ) by {
        if after@.contains_key(k) {
            let i = choose|i: int| after.holds(k, i);
            assert(after.holds(k, i));
            if i != at {
                assert(before.holds(k, i));
            }
        }
        if before@.contains_key(k) {
            let i = choose|i: int| before.holds(k, i);
            assert(before.holds(k, i));
            assert(after.holds(k, i));
        }
        if k == key {
            assert(after.holds(k, at));
        }
    }
    assert forall|k: RankKey| after@.contains_key(k) implies after@[k] == before@.insert(
        key,
        rank,
    )[k] by {
        let i = choose|i: int| after.holds(k, i);
        assert(after.holds(k, i));
        if k == key {
            assert(after.holds(k, at));
            assert(i == at);
        } else {
            assert(before.holds(k, i));
            let j = choose|j: int| before.holds(k, j);
            assert(before.holds(k, j));
            assert(i == j);
        }
    }
    assert(after@ =~= before@.insert(key, rank));
}

/// Appending an entry under a key that was not recorded is an insertion.
proof fn lemma_pushed_key(
    before: StabilityIndex,
    after: StabilityIndex,
    key: RankKey,
    rank: StabilityRank,
)
    requires
        before.wf(),
        after.wf(),
        forall|at: int| !before.holds(key, at),
        after.entries@.len() == before.entries@.len() + 1,
        after.entries[before.entries@.len() as int].key() == key,
        after.entries[before.entries@.len() as int].rank == rank,
        forall|i: int| 0 <= i < before.entries.len() ==> after.entries[i] == before.entries[i],
    ensures
        !before@.contains_key(key),
        after@ == before@.insert(key, rank),
{
    let n = before.entries@.len() as int;
    assert forall|k: RankKey| after@.contains_key(k) <==> before@.insert(key, rank).contains_key(
        k,
    ) by {
        if after@.contains_key(k) {
            let i = choose|i: int| after.holds(k, i);
            assert(after.holds(k, i));
            if i != n {
                assert(before.holds(k, i));
            }
        }
        if before@.contains_key(k) {
            let i = choose|i: int| before.holds(k, i);
            assert(before.holds(k, i));
            assert(after.holds(k, i));
        }
        if k == key {
            assert(after.holds(k, n));
        }
    }
    assert forall|k: RankKey| after@.contains_key(k) implies after@[k] == before@.insert(
        key,
        rank,
    )[k] by {
        let i = choose|i: int| after.holds(k, i);
        assert(after.holds(k, i));
        if k == key {
            assert(after.holds(k, n));
            assert(i == n);
        } else {
            assert(before.holds(k, i));
            let j = choose|j: int| before.holds(k, j);
            assert(before.holds(k, j));
            assert(i == j);
        }
    }
    assert(after@ =~= before@.insert(key, rank));
}

/// Where the ranks of this platform come from, with what was read there.
#[derive(Debug, Clone, PartialEq, Eq)]
pub enum PlatformSource {
    /// The kernel's table of IPv6 interface addresses, as text.
    Linux { inet6_table: String },
    /// The IPv6 unicast addresses of the adapters.
    Windows { unicast: Vec<windows::UnicastAddress> },
    /// Nothing: the system reports no permanence for an address.
    Macos,
    /// Nothing: no classifier knows this platform.
    Unsupported,
}

/// The ranks that the platform's source reports.
pub open spec fn platform_ranks(source: PlatformSource) -> Map<RankKey, StabilityRank> {
    match source {
        PlatformSource::Linux { inet6_table } => linux::table_ranks(
            linux::lines_of(inet6_table@),
        ),
        PlatformSource::Windows { unicast } => windows::reported_ranks(unicast@),
        PlatformSource::Macos => Map::empty(),
        PlatformSource::Unsupported => Map::empty(),
    }
}

impl StabilityIndex {
    /// The index that the platform's classifier builds from its source.
    pub fn collect(source: &PlatformSource) -> (r: Self)
        ensures
            r.wf(),
            r@ == platform_ranks(*source),
    {
        match source {
            PlatformSource::Linux { inet6_table } => linux::collect_stability_ranks(
                inet6_table.as_str(),
            ),
            PlatformSource::Windows { unicast } => windows::collect_stability_ranks(unicast),
            PlatformSource::Macos => macos::collect_stability_ranks(),
            PlatformSource::Unsupported => StabilityIndex::new(),
        }
    }
}

/// `ranks` with the heuristic rank added for one observed address, unless
/// the address has a rank already.
pub open spec fn with_observed(
    ranks: Map<RankKey, StabilityRank>,
    name: Seq<char>,
    net: AddressRecord,
) -> Map<RankKey, StabilityRank> {
    if ranks.contains_key((name, net.addr@)) {
        ranks
    } else {
        ranks.insert((name, net.addr@), heuristic_rank(net.prefix_len))
    }
}

/// `ranks` with every address of one interface observed, in order.
pub open spec fn seeded(ranks: Map<RankKey, StabilityRank>, name: Seq<char>, nets: Seq<AddressRecord>)
    -> Map<RankKey, StabilityRank>
    decreases nets.len(),
{
    if nets.len() == 0 {
        ranks
    } else {
        with_observed(seeded(ranks, name, nets.drop_last()), name, nets.last())
    }
}

/// `ranks` with every address of every interface observed, in order.
pub open spec fn seeded_all(ranks: Map<RankKey, StabilityRank>, interfaces: Seq<InterfaceRecord>)
    -> Map<RankKey, StabilityRank>
    decreases interfaces.len(),
{
    if interfaces.len() == 0 {
        ranks
    } else {
        seeded(
            seeded_all(ranks, interfaces.drop_last()),
            interfaces.last().name@,
            interfaces.last().ipv6@,
        )
    }
}

/// The platform's index, completed so that every observed address has a
/// rank: one that no source has classified gets the rank of its prefix length.
pub fn collect_ranks_from_interfaces(interfaces: &Vec<InterfaceRecord>, source: &PlatformSource)
    -> (index: StabilityIndex)
    ensures
        index.wf(),
        index@ == seeded_all(platform_ranks(*source), interfaces@),
{
    let mut index = StabilityIndex::collect(source);
    let ghost base = index@;
    let mut i: usize = 0;
    assert(interfaces@.take(0) == Seq::<InterfaceRecord>::empty());
    while i < interfaces.len()
        invariant
            i <= interfaces.len(),
            index.wf(),
            index@ == seeded_all(base, interfaces@.take(i as int)),
        decreases interfaces.len() - i,
    {
        let iface = &interfaces[i];
        let ghost start = index@;
        let mut j: usize = 0;
        assert(iface.ipv6@.take(0) == Seq::<AddressRecord>::empty());
        while j < iface.ipv6.len()
            invariant
                j <= iface.ipv6.len(),
                index.wf(),
                index@ == seeded(start, iface.name@, iface.ipv6@.take(j as int)),
            decreases iface.ipv6.len() - j,
        {
            let network = &iface.ipv6[j];
            let rank = index.rank_for(iface.name.as_str(), network.addr, network.prefix_len);
            StabilityIndex::upsert_rank(&mut index, iface.name.clone(), network.addr, rank);
            proof {
                let upto = iface.ipv6@.take(j + 1);
                assert(upto.drop_last() == iface.ipv6@.take(j as int));
                assert(upto.last() == iface.ipv6@[j as int]);
            }
            j += 1;
        }
        proof {
            assert(iface.ipv6@.take(j as int) == iface.ipv6@);
            let upto = interfaces@.take(i + 1);
            assert(upto.drop_last() == interfaces@.take(i as int));
            assert(upto.last() == interfaces@[i as int]);
        }
        i += 1;
    }
    assert(interfaces@.take(i as int) == interfaces@);
    index
}

/// Observing addresses changes no rank that was recorded before.
pub proof fn lemma_seeded_keeps(
    ranks: Map<RankKey, StabilityRank>,
    name: Seq<char>,
    nets: Seq<AddressRecord>,
    key: RankKey,
)
    requires
        ranks.contains_key(key),
    ensures
        seeded(ranks, name, nets).contains_key(key),
        seeded(ranks, name, nets)[key] == ranks[key],
    decreases nets.len(),
{
    if nets.len() > 0 {
        lemma_seeded_keeps(ranks, name, nets.drop_last(), key);
    }
}

/// Observing interfaces changes no rank that the platform has reported: the
/// heuristic rank never replaces a classifier's.
pub proof fn lemma_seeded_all_keeps(
    ranks: Map<RankKey, StabilityRank>,
    interfaces: Seq<InterfaceRecord>,
    key: RankKey,
)
    requires
        ranks.contains_key(key),
    ensures
        seeded_all(ranks, interfaces).contains_key(key),
        seeded_all(ranks, interfaces)[key] == ranks[key],
    decreases interfaces.len(),
{
    if interfaces.len() > 0 {
        lemma_seeded_all_keeps(ranks, interfaces.drop_last(), key);
        lemma_seeded_keeps(
            seeded_all(ranks, interfaces.drop_last()),
            interfaces.last().name@,
            interfaces.last().ipv6@,
            key,
        );
    }
}

/// After the addresses of an interface are observed, each of them has a rank.
pub proof fn lemma_seeded_covers(
    ranks: Map<RankKey, StabilityRank>,
    name: Seq<char>,
    nets: Seq<AddressRecord>,
    j: int,
)
    requires
        0 <= j < nets.len(),
    ensures
        seeded(ranks, name, nets).contains_key((name, nets[j].addr@)),
    decreases nets.len(),
{
    if j < nets.len() - 1 {
        lemma_seeded_covers(ranks, name, nets.drop_last(), j);
    }
}

/// After the interfaces are observed, every address of every interface has
/// a rank.
pub proof fn lemma_seeded_all_covers(
    ranks: Map<RankKey, StabilityRank>,
    interfaces: Seq<InterfaceRecord>,
    i: int,
    j: int,
)
    requires
        0 <= i < interfaces.len(),
        0 <= j < interfaces[i].ipv6@.len(),
    ensures
        seeded_all(ranks, interfaces).contains_key(
            (interfaces[i].name@, interfaces[i].ipv6@[j].addr@),
        ),
    decreases interfaces.len(),
{
    let earlier = seeded_all(ranks, interfaces.drop_last());
    let last = interfaces.last();
    if i < interfaces.len() - 1 {
        lemma_seeded_all_covers(ranks, interfaces.drop_last(), i, j);
        lemma_seeded_keeps(
            earlier,
            last.name@,
            last.ipv6@,
            (interfaces[i].name@, interfaces[i].ipv6@[j].addr@),
        );
    } else {
        lemma_seeded_covers(earlier, last.name@, last.ipv6@, j);
    }
}

} // verus!
