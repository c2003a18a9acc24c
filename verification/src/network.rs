//! The candidate ranker: which of the addresses that the interfaces carry is
//! the one to publish.

use crate::address::{
    lemma_address_by_octets, lemma_octets_less_irreflexive, lemma_octets_less_total,
    lemma_octets_less_transitive, octets_less, Ipv6Address,
};
use crate::ipv6_stability::{
    collect_ranks_from_interfaces, platform_ranks, rank_in, seeded_all, PlatformSource, RankKey,
    StabilityIndex, StabilityRank,
};
use crate::models::{InterfaceInfo, InterfaceInfoView};
use crate::text::{arranged, is_stable_order, same_text, sorted_positions};
use vstd::prelude::*;
use vstd::string::StrSliceExecFns;

verus! {

/// One IPv6 network of an interface: the address, the length of its prefix,
/// and the address as text.
#[derive(Debug, Clone, PartialEq, Eq)]
pub struct AddressRecord {
    pub addr: Ipv6Address,
    pub prefix_len: u8,
    pub text: String,
}

/// One interface as the system reports it.
#[derive(Debug, Clone, PartialEq, Eq)]
pub struct InterfaceRecord {
    pub name: String,
    pub friendly_name: Option<String>,
    pub mac_address: Option<String>,
    pub ipv6: Vec<AddressRecord>,
    pub transmit_speed: Option<u64>,
    pub receive_speed: Option<u64>,
}

/// An address that may be published, with what decides its place.
#[derive(Clone, Copy, Debug, PartialEq, Eq)]
pub struct Ipv6Candidate {
    pub addr: Ipv6Address,
    pub stability_rank: StabilityRank,
    pub outbound_selected: bool,
}

/// How one candidate stands to another.
#[derive(Clone, Copy, Debug, PartialEq, Eq, Structural)]
pub enum Precedence {
    Before,
    Level,
    After,
}

/// `::1`.
pub open spec fn is_loopback(octets: Seq<u8>) -> bool {
    &&& octets.len() == 16
    &&& forall|i: int| 0 <= i < 15 ==> octets[i] == 0
    &&& octets[15] == 1
}

/// `::`.
pub open spec fn is_unspecified(octets: Seq<u8>) -> bool {
    &&& octets.len() == 16
    &&& forall|i: int| 0 <= i < 16 ==> octets[i] == 0
}

/// `ff00::/8`.
pub open spec fn is_multicast(octets: Seq<u8>) -> bool {
    octets.len() == 16 && octets[0] == 0xff
}

/// `fe80::/10`.
pub open spec fn is_unicast_link_local(octets: Seq<u8>) -> bool {
    octets.len() == 16 && octets[0] == 0xfe && octets[1] & 0xc0 == 0x80
}

/// `fc00::/7`.
pub open spec fn is_unique_local(octets: Seq<u8>) -> bool {
    octets.len() == 16 && octets[0] & 0xfe == 0xfc
}

/// Whether an address can be published: it is none of loopback, multicast,
/// link-local, unique-local and unspecified.
pub open spec fn is_global(octets: Seq<u8>) -> bool {
    &&& !is_loopback(octets)
    &&& !is_multicast(octets)
    &&& !is_unicast_link_local(octets)
    &&& !is_unique_local(octets)
    &&& !is_unspecified(octets)
}

/// Whether the first `n` octets are zero.
fn leading_zeros(address: &Ipv6Address, n: usize) -> (r: bool)
    requires
        n <= 16,
    ensures
        r == (forall|i: int| 0 <= i < n ==> address@[i] == 0),
{
    let mut i: usize = 0;
    while i < n
        invariant
            i <= n <= 16,
            forall|k: int| 0 <= k < i ==> address@[k] == 0,
        decreases n - i,
    {
        if address.octets[i] != 0 {
            assert(address@[i as int] != 0);
            return false;
        }
        i += 1;
    }
    true
}

/// Whether an address can be published.
pub fn is_global_candidate(address: &Ipv6Address) -> (r: bool)
    ensures
        r == is_global(address@),
{
    let o = &address.octets;
    let loopback = leading_zeros(address, 15) && o[15] == 1;
    let unspecified = leading_zeros(address, 16);
    let multicast = o[0] == 0xff;
    let link_local = o[0] == 0xfe && o[1] & 0xc0 == 0x80;
    let unique_local = o[0] & 0xfe == 0xfc;
    !loopback && !multicast && !link_local && !unique_local && !unspecified
}

/// Whether `a` is to be preferred to `b`: by rank; at one rank, the address
/// that outbound traffic would use; after that, by the lexical order of the
/// octets.
pub open spec fn precedes(a: Ipv6Candidate, b: Ipv6Candidate) -> bool {
    if a.stability_rank != b.stability_rank {
        a.stability_rank.ordinal() < b.stability_rank.ordinal()
    } else if a.outbound_selected != b.outbound_selected {
        a.outbound_selected
    } else {
        octets_less(a.addr@, b.addr@)
    }
}

/// The order of two addresses by their octets.
pub fn order_ipv6_candidates(a: &Ipv6Address, b: &Ipv6Address) -> (r: Precedence)
    ensures
        r == if octets_less(a@, b@) {
            Precedence::Before
        } else if octets_less(b@, a@) {
            Precedence::After
        } else {
            Precedence::Level
        },
        r == Precedence::Level <==> a@ == b@,
{
    proof {
        lemma_octets_less_total(a@, b@);
        lemma_octets_less_irreflexive(a@);
        if octets_less(a@, b@) && octets_less(b@, a@) {
            lemma_octets_less_transitive(a@, b@, a@);
        }
    }
    if a.precedes(b) {
        Precedence::Before
    } else if b.precedes(a) {
        Precedence::After
    } else {
        Precedence::Level
    }
}

/// The order of two candidates.
pub fn order_ipv6_candidates_with_policy(a: &Ipv6Candidate, b: &Ipv6Candidate) -> (r: Precedence)
    ensures
        r == if precedes(*a, *b) {
            Precedence::Before
        } else if precedes(*b, *a) {
            Precedence::After
        } else {
            Precedence::Level
        },
{
    let x = a.stability_rank.position();
    let y = b.stability_rank.position();
    if x < y {
        Precedence::Before
    } else if x > y {
        Precedence::After
    } else if a.outbound_selected != b.outbound_selected {
        if a.outbound_selected {
            Precedence::Before
        } else {
            Precedence::After
        }
    } else {
        order_ipv6_candidates(&a.addr, &b.addr)
    }
}

/// No candidate is to be preferred to itself.
pub proof fn lemma_precedes_irreflexive(a: Ipv6Candidate)
    ensures
        !precedes(a, a),
{
    lemma_octets_less_irreflexive(a.addr@);
}

/// Preference is transitive.
pub proof fn lemma_precedes_transitive(a: Ipv6Candidate, b: Ipv6Candidate, c: Ipv6Candidate)
    requires
        precedes(a, b),
        precedes(b, c),
    ensures
        precedes(a, c),
{
    if a.stability_rank == b.stability_rank && b.stability_rank == c.stability_rank
        && a.outbound_selected == b.outbound_selected && b.outbound_selected
        == c.outbound_selected {
        lemma_octets_less_transitive(a.addr@, b.addr@, c.addr@);
    }
}

/// Two candidates of which neither is to be preferred agree in rank, in
/// whether outbound traffic would use them, and in address.
pub proof fn lemma_precedes_total(a: Ipv6Candidate, b: Ipv6Candidate)
    requires
        !precedes(a, b),
        !precedes(b, a),
    ensures
        a == b,
{
    assert(a.stability_rank == b.stability_rank);
    assert(a.outbound_selected == b.outbound_selected);
    lemma_octets_less_total(a.addr@, b.addr@);
    lemma_address_by_octets(a.addr, b.addr);
}

/// Whether no candidate of the list is to be preferred to the one at `i`.
pub open spec fn is_best(candidates: Seq<Ipv6Candidate>, i: int) -> bool {
    &&& 0 <= i < candidates.len()
    &&& forall|j: int| 0 <= j < candidates.len() ==> !precedes(#[trigger] candidates[j], candidates[i])
}

/// The address of the candidate to which none is preferred; `None` for the
/// empty list.
pub open spec fn best_address(candidates: Seq<Ipv6Candidate>) -> Option<Ipv6Address> {
    if exists|i: int| is_best(candidates, i) {
        Some(candidates[choose|i: int| is_best(candidates, i)].addr)
    } else {
        None
    }
}

/// The candidate to publish: the one to which no other is preferred.
pub fn pick_best_candidate(candidates: Vec<Ipv6Candidate>) -> (r: Option<Ipv6Address>)
    ensures
        r == best_address(candidates@),
        r is None <==> candidates.len() == 0,
{
    if candidates.len() == 0 {
        return None;
    }
    let mut best: usize = 0;
    let mut i: usize = 1;
    proof {
        lemma_precedes_irreflexive(candidates@[0]);
    }
    while i < candidates.len()
        invariant
            1 <= i <= candidates.len(),
            best < i,
            forall|j: int| 0 <= j < i ==> !precedes(#[trigger] candidates@[j], candidates@[best as int]),
        decreases candidates.len() - i,
    {
        let order = order_ipv6_candidates_with_policy(&candidates[i], &candidates[best]);
        if order == Precedence::Before {
            proof {
                let fresh = candidates@[i as int];
                let held = candidates@[best as int];
                lemma_precedes_irreflexive(fresh);
                assert forall|j: int| 0 <= j < i + 1 implies !precedes(
                    #[trigger] candidates@[j],
                    fresh,
                ) by {
                    if j < i && precedes(candidates@[j], fresh) {
                        lemma_precedes_transitive(candidates@[j], fresh, held);
                    }
                }
            }
            best = i;
        }
        i += 1;
    }
    proof {
        assert(is_best(candidates@, best as int));
        let chosen = choose|k: int| is_best(candidates@, k);
        lemma_precedes_total(candidates@[chosen], candidates@[best as int]);
    }
    Some(candidates[best].addr)
}

/// The candidate that an address of an interface makes, if it can be
/// published at all.
pub open spec fn candidate_of(
    ranks: Map<RankKey, StabilityRank>,
    iface_name: Seq<char>,
    addr: Ipv6Address,
    prefix_len: u8,
    outbound: Option<Ipv6Address>,
) -> Option<Ipv6Candidate> {
    if is_global(addr@) {
        Some(
            Ipv6Candidate {
                addr,
                stability_rank: rank_in(ranks, (iface_name, addr@), prefix_len),
                outbound_selected: outbound == Some(addr),
            },
        )
    } else {
        None
    }
}

/// The candidates that the given networks of one interface make, in order.
pub open spec fn candidates_among(
    ranks: Map<RankKey, StabilityRank>,
    iface_name: Seq<char>,
    nets: Seq<AddressRecord>,
    outbound: Option<Ipv6Address>,
) -> Seq<Ipv6Candidate>
    decreases nets.len(),
{
    if nets.len() == 0 {
        Seq::empty()
    } else {
        let earlier = candidates_among(ranks, iface_name, nets.drop_last(), outbound);
        match candidate_of(ranks, iface_name, nets.last().addr, nets.last().prefix_len, outbound) {
            Some(candidate) => earlier.push(candidate),
            None => earlier,
        }
    }
}

/// The candidates of one interface.
pub open spec fn interface_candidates(
    ranks: Map<RankKey, StabilityRank>,
    iface: InterfaceRecord,
    outbound: Option<Ipv6Address>,
) -> Seq<Ipv6Candidate> {
    candidates_among(ranks, iface.name@, iface.ipv6@, outbound)
}

/// The candidates of all interfaces, interface by interface.
pub open spec fn all_candidates(
    ranks: Map<RankKey, StabilityRank>,
    interfaces: Seq<InterfaceRecord>,
    outbound: Option<Ipv6Address>,
) -> Seq<Ipv6Candidate>
    decreases interfaces.len(),
{
    if interfaces.len() == 0 {
        Seq::empty()
    } else {
        all_candidates(ranks, interfaces.drop_last(), outbound) + interface_candidates(
            ranks,
            interfaces.last(),
            outbound,
        )
    }
}

/// The candidate that an address of an interface makes: none for an
/// address that cannot be published.
pub fn to_candidate(
    iface: &InterfaceRecord,
    addr: Ipv6Address,
    prefix_len: u8,
    stability_index: &StabilityIndex,
    outbound_source_ipv6: Option<Ipv6Address>,
) -> (r: Option<Ipv6Candidate>)
    requires
        stability_index.wf(),
    ensures
        r == candidate_of(stability_index@, iface.name@, addr, prefix_len, outbound_source_ipv6),
{
    if !is_global_candidate(&addr) {
        return None;
    }
    let outbound_selected = match outbound_source_ipv6 {
        Some(outbound) => outbound.same(&addr),
        None => false,
    };
    Some(
        Ipv6Candidate {
            addr,
            stability_rank: stability_index.rank_for(iface.name.as_str(), addr, prefix_len),
            outbound_selected,
        },
    )
}

/// Adds the candidates of one interface to `candidates`.
fn gather_candidates(
    candidates: &mut Vec<Ipv6Candidate>,
    iface: &InterfaceRecord,
    stability_index: &StabilityIndex,
    outbound_source_ipv6: Option<Ipv6Address>,
)
    requires
        stability_index.wf(),
    ensures
        final(candidates)@ == old(candidates)@ + interface_candidates(
            stability_index@,
            *iface,
            outbound_source_ipv6,
        ),
{
    let ghost start = candidates@;
    let mut j: usize = 0;
    assert(iface.ipv6@.take(0) == Seq::<AddressRecord>::empty());
    assert(start + Seq::<Ipv6Candidate>::empty() == start);
    while j < iface.ipv6.len()
        invariant
            j <= iface.ipv6.len(),
            stability_index.wf(),
            candidates@ == start + candidates_among(
                stability_index@,
                iface.name@,
                iface.ipv6@.take(j as int),
                outbound_source_ipv6,
            ),
        decreases iface.ipv6.len() - j,
    {
        let network = &iface.ipv6[j];
        proof {
            let upto = iface.ipv6@.take(j + 1);
            assert(upto.drop_last() == iface.ipv6@.take(j as int));
            assert(upto.last() == iface.ipv6@[j as int]);
        }
        let ghost earlier = candidates_among(
            stability_index@,
            iface.name@,
            iface.ipv6@.take(j as int),
            outbound_source_ipv6,
        );
        match to_candidate(
            iface,
            network.addr,
            network.prefix_len,
            stability_index,
            outbound_source_ipv6,
        ) {
            Some(candidate) => {
                candidates.push(candidate);
                assert(candidates@ == start + earlier.push(candidate));
            },
            None => {},
        }
        j += 1;
    }
    assert(iface.ipv6@.take(j as int) == iface.ipv6@);
}

/// The address to publish among those of one interface.
pub fn select_ipv6_from_interface(
    iface: &InterfaceRecord,
    stability_index: &StabilityIndex,
    outbound_source_ipv6: Option<Ipv6Address>,
) -> (r: Option<Ipv6Address>)
    requires
        stability_index.wf(),
    ensures
        r == best_address(interface_candidates(stability_index@, *iface, outbound_source_ipv6)),
{
    let mut candidates: Vec<Ipv6Candidate> = Vec::new();
    gather_candidates(&mut candidates, iface, stability_index, outbound_source_ipv6);
    assert(Seq::<Ipv6Candidate>::empty() + interface_candidates(
        stability_index@,
        *iface,
        outbound_source_ipv6,
    ) == interface_candidates(stability_index@, *iface, outbound_source_ipv6));
    pick_best_candidate(candidates)
}

/// The address to publish among those of all interfaces.
pub fn select_ipv6_from_interfaces(
    interfaces: &Vec<InterfaceRecord>,
    stability_index: &StabilityIndex,
    outbound_source_ipv6: Option<Ipv6Address>,
) -> (r: Option<Ipv6Address>)
    requires
        stability_index.wf(),
    ensures
        r == best_address(all_candidates(stability_index@, interfaces@, outbound_source_ipv6)),
{
    let mut candidates: Vec<Ipv6Candidate> = Vec::new();
    let mut i: usize = 0;
    assert(interfaces@.take(0) == Seq::<InterfaceRecord>::empty());
    while i < interfaces.len()
        invariant
            i <= interfaces.len(),
            stability_index.wf(),
            candidates@ == all_candidates(
                stability_index@,
                interfaces@.take(i as int),
                outbound_source_ipv6,
            ),
        decreases interfaces.len() - i,
    {
        proof {
            let upto = interfaces@.take(i + 1);
            assert(upto.drop_last() == interfaces@.take(i as int));
            assert(upto.last() == interfaces@[i as int]);
        }
        gather_candidates(&mut candidates, &interfaces[i], stability_index, outbound_source_ipv6);
        i += 1;
    }
    assert(interfaces@.take(i as int) == interfaces@);
    pick_best_candidate(candidates)
}

/// Whether the interface at `i` is the first of the given name.
pub open spec fn is_first_named(interfaces: Seq<InterfaceRecord>, name: Seq<char>, i: int) -> bool {
    &&& 0 <= i < interfaces.len()
    &&& interfaces[i].name@ == name
    &&& forall|k: int| 0 <= k < i ==> (#[trigger] interfaces[k]).name@ != name
}

/// The address to publish. With an interface selected, only the first
/// interface of that name is looked at, and none is chosen where no interface
/// has the name; without one, all interfaces are.
pub open spec fn selection(
    ranks: Map<RankKey, StabilityRank>,
    interfaces: Seq<InterfaceRecord>,
    outbound: Option<Ipv6Address>,
    selected: Option<Seq<char>>,
) -> Option<Ipv6Address> {
    match selected {
        Some(name) => {
            if exists|i: int| is_first_named(interfaces, name, i) {
                let i = choose|i: int| is_first_named(interfaces, name, i);
                best_address(interface_candidates(ranks, interfaces[i], outbound))
            } else {
                None
            }
        },
        None => best_address(all_candidates(ranks, interfaces, outbound)),
    }
}

/// The address to publish, given the index of ranks.
pub fn select(
    interfaces: &Vec<InterfaceRecord>,
    stability_index: &StabilityIndex,
    outbound_source_ipv6: Option<Ipv6Address>,
    selected_interface: Option<&str>,
) -> (r: Option<Ipv6Address>)
    requires
        stability_index.wf(),
    ensures
        r == selection(
            stability_index@,
            interfaces@,
            outbound_source_ipv6,
            match selected_interface {
                Some(name) => Some(name@),
                None => None,
            },
        ),
{
    match selected_interface {
        Some(name) => {
            let mut i: usize = 0;
            while i < interfaces.len()
                invariant
                    i <= interfaces.len(),
                    stability_index.wf(),
                    selected_interface == Some(name),
                    forall|k: int| 0 <= k < i ==> (#[trigger] interfaces@[k]).name@ != name@,
                decreases interfaces.len() - i,
            {
                if same_text(interfaces[i].name.as_str(), name) {
                    proof {
                        assert(is_first_named(interfaces@, name@, i as int));
                        let chosen = choose|k: int| is_first_named(interfaces@, name@, k);
                        assert(is_first_named(interfaces@, name@, chosen));
                        if chosen < i {
                            assert(interfaces@[chosen].name@ != name@);
                        }
                        if chosen > i {
                            assert(interfaces@[i as int].name@ != name@);
                        }
                        assert(chosen == i);
                    }
                    return select_ipv6_from_interface(
                        &interfaces[i],
                        stability_index,
                        outbound_source_ipv6,
                    );
                }
                i += 1;
            }
            None
        },
        None => select_ipv6_from_interfaces(interfaces, stability_index, outbound_source_ipv6),
    }
}

/// The label under which an interface is shown: its friendly name, or its
/// name where it has none or an empty one.
pub open spec fn label_of(iface: InterfaceRecord) -> Seq<char> {
    match iface.friendly_name {
        Some(name) => if name@.len() > 0 {
            name@
        } else {
            iface.name@
        },
        None => iface.name@,
    }
}

/// The hardware address that is shown: none where it is all zeros.
pub open spec fn shown_mac(iface: InterfaceRecord) -> Option<Seq<char>> {
    match iface.mac_address {
        Some(mac) => if mac@ == "00:00:00:00:00:00"@ {
            None
        } else {
            Some(mac@)
        },
        None => None,
    }
}

/// The link speed in megabits per second: that of sending, or that of
/// receiving where the other is unknown.
pub open spec fn link_speed_mbps(iface: InterfaceRecord) -> Option<u64> {
    match iface.transmit_speed {
        Some(bits_per_second) => Some(bits_per_second / 1_000_000),
        None => match iface.receive_speed {
            Some(bits_per_second) => Some(bits_per_second / 1_000_000),
            None => None,
        },
    }
}

/// The addresses of an interface as texts, in the order in which it carries
/// them.
pub open spec fn address_texts(iface: InterfaceRecord) -> Seq<Seq<char>> {
    Seq::new(iface.ipv6@.len(), |i: int| iface.ipv6@[i].text@)
}

/// Whether `info` shows `iface`: name, label, hardware address and link
/// speed as above, and the addresses in ascending lexical order.
pub open spec fn describes(info: InterfaceInfoView, iface: InterfaceRecord) -> bool {
    &&& info.id == iface.name@
    &&& info.label == label_of(iface)
    &&& info.mac_address == shown_mac(iface)
    &&& info.link_speed_mbps == link_speed_mbps(iface)
    &&& exists|order: Seq<usize>|
        is_stable_order(address_texts(iface), order) && info.ipv6_addresses == arranged(
            address_texts(iface),
            order,
        )
}

/// What is shown of one interface.
pub fn to_interface_info(iface: &InterfaceRecord) -> (info: InterfaceInfo)
    ensures
        describes(info@, *iface),
{
    let mut texts: Vec<String> = Vec::new();
    let mut i: usize = 0;
    while i < iface.ipv6.len()
        invariant
            i <= iface.ipv6.len(),
            texts.len() == i,
            forall|k: int| 0 <= k < i ==> (#[trigger] texts@[k])@ == iface.ipv6@[k].text@,
        decreases iface.ipv6.len() - i,
    {
        texts.push(iface.ipv6[i].text.clone());
        i += 1;
    }
    assert(texts.deep_view() =~= address_texts(*iface));
    let order = sorted_positions(&texts);
    let mut ipv6: Vec<String> = Vec::new();
    let mut k: usize = 0;
    while k < order.len()
        invariant
            k <= order.len(),
            order.len() == texts.len(),
            ipv6.len() == k,
            forall|n: int| 0 <= n < order.len() ==> (#[trigger] order@[n]) < texts.len(),
            forall|n: int| 0 <= n < k ==> (#[trigger] ipv6@[n])@ == texts@[order@[n] as int]@,
        decreases order.len() - k,
    {
        ipv6.push(texts[order[k]].clone());
        k += 1;
    }
    assert(ipv6.deep_view() =~= arranged(address_texts(*iface), order@));
    let label = match &iface.friendly_name {
        Some(name) => if name.as_str().unicode_len() > 0 {
            name.clone()
        } else {
            iface.name.clone()
        },
        None => iface.name.clone(),
    };
    let mac = match &iface.mac_address {
        Some(value) => if same_text(value.as_str(), "00:00:00:00:00:00") {
            None
        } else {
            Some(value.clone())
        },
        None => None,
    };
    let link_speed_mbps = match iface.transmit_speed {
        Some(bits_per_second) => Some(bits_per_second / 1_000_000),
        None => match iface.receive_speed {
            Some(bits_per_second) => Some(bits_per_second / 1_000_000),
            None => None,
        },
    };
    InterfaceInfo {
        id: iface.name.clone(),
        label,
        mac_address: mac,
        ipv6_addresses: ipv6,
        link_speed_mbps,
    }
}

/// The names of the interfaces, in the order in which they stand.
pub open spec fn names_of(interfaces: Seq<InterfaceRecord>) -> Seq<Seq<char>> {
    Seq::new(interfaces.len(), |i: int| interfaces[i].name@)
}

/// Whether `infos` shows the interfaces in ascending order of their names,
/// interfaces of one name in the order in which they were observed.
pub open spec fn shows_sorted(infos: Seq<InterfaceInfoView>, interfaces: Seq<InterfaceRecord>)
    -> bool {
    exists|order: Seq<usize>|
        {
            &&& is_stable_order(names_of(interfaces), order)
            &&& infos.len() == interfaces.len()
            &&& forall|i: int|
                0 <= i < infos.len() ==> describes(#[trigger] infos[i], interfaces[order[i] as int])
        }
}

/// What is shown of the interfaces: one entry each, sorted by name.
pub fn describe_interfaces(interfaces: &Vec<InterfaceRecord>) -> (infos: Vec<InterfaceInfo>)
    ensures
        shows_sorted(infos.deep_view(), interfaces@),
{
    let mut names: Vec<String> = Vec::new();
    let mut i: usize = 0;
    while i < interfaces.len()
        invariant
            i <= interfaces.len(),
            names.len() == i,
            forall|k: int| 0 <= k < i ==> (#[trigger] names@[k])@ == interfaces@[k].name@,
        decreases interfaces.len() - i,
    {
        names.push(interfaces[i].name.clone());
        i += 1;
    }
    assert(names.deep_view() =~= names_of(interfaces@));
    let order = sorted_positions(&names);
    let mut infos: Vec<InterfaceInfo> = Vec::new();
    let mut k: usize = 0;
    while k < order.len()
        invariant
            k <= order.len(),
            order.len() == interfaces.len(),
            infos.len() == k,
            forall|n: int| 0 <= n < order.len() ==> (#[trigger] order@[n]) < interfaces.len(),
            forall|n: int|
                0 <= n < k ==> describes((#[trigger] infos@[n])@, interfaces@[order@[n] as int]),
        decreases order.len() - k,
    {
        infos.push(to_interface_info(&interfaces[order[k]]));
        k += 1;
    }
    proof {
        let shown = infos.deep_view();
        assert forall|n: int| 0 <= n < shown.len() implies describes(
            #[trigger] shown[n],
            interfaces@[order@[n] as int],
        ) by {
            assert(shown[n] == infos@[n]@);
        }
        assert(is_stable_order(names_of(interfaces@), order@));
    }
    infos
}

/// What is shown of the observed interfaces, and the address to publish:
/// the platform's ranks are completed by the observed addresses, and the best
/// candidate of the selected interface, or of all of them, is chosen.
pub fn rank_interfaces(
    interfaces: &Vec<InterfaceRecord>,
    source: &PlatformSource,
    outbound_source_ipv6: Option<Ipv6Address>,
    selected_interface: Option<&str>,
) -> (r: (Vec<InterfaceInfo>, Option<Ipv6Address>))
    ensures
        shows_sorted(r.0.deep_view(), interfaces@),
        r.1 == selection(
            seeded_all(platform_ranks(*source), interfaces@),
            interfaces@,
            outbound_source_ipv6,
            match selected_interface {
                Some(name) => Some(name@),
                None => None,
            },
        ),
{
    let stability_index = collect_ranks_from_interfaces(interfaces, source);
    let infos = describe_interfaces(interfaces);
    let current_ipv6 = select(interfaces, &stability_index, outbound_source_ipv6, selected_interface);
    (infos, current_ipv6)
}

/// `netdev::get_interfaces`: the interfaces of this machine as the system
/// reports them at the moment of the call, each taken over field by field, an
/// address with its octets, its prefix length and its text. Nothing is
/// claimed of what is found.
#[verifier::external_body]
fn observed_interfaces() -> (interfaces: Vec<InterfaceRecord>) {
    let record = |iface: netdev::Interface| InterfaceRecord {
        ipv6: iface.ipv6.iter().map(|net| AddressRecord {
            addr: Ipv6Address { octets: net.addr().octets() },
            prefix_len: net.prefix_len(),
            text: net.addr().to_string(),
        }).collect(),
        mac_address: iface.mac_addr.map(|mac| mac.to_string()),
        name: iface.name,
        friendly_name: iface.friendly_name,
        transmit_speed: iface.transmit_speed,
        receive_speed: iface.receive_speed,
    };
    netdev::get_interfaces().into_iter().map(record).collect()
}

/// Observes the interfaces of this machine and ranks them: what is shown of
/// them, and the address to publish. Which interfaces are found is not known
/// beforehand; whatever they are, the result is that of [`rank_interfaces`]
/// for them, and an address that is chosen can be published.
pub fn collect_interfaces_and_ipv6(
    selected_interface: Option<&str>,
    source: &PlatformSource,
    outbound_source_ipv6: Option<Ipv6Address>,
) -> (r: (Vec<InterfaceInfo>, Option<Ipv6Address>))
    ensures
        exists|interfaces: Seq<InterfaceRecord>|
            {
                &&& shows_sorted(r.0.deep_view(), interfaces)
                &&& r.1 == selection(
                    seeded_all(platform_ranks(*source), interfaces),
                    interfaces,
                    outbound_source_ipv6,
                    match selected_interface {
                        Some(name) => Some(name@),
                        None => None,
                    },
                )
            },
        r.1 matches Some(addr) ==> is_global(addr@),
{
    let interfaces = observed_interfaces();
    let r = rank_interfaces(&interfaces, source, outbound_source_ipv6, selected_interface);
    proof {
        let selected = match selected_interface {
            Some(name) => Some(name@),
            None => None,
        };
        lemma_selection_is_global(
            seeded_all(platform_ranks(*source), interfaces@),
            interfaces@,
            outbound_source_ipv6,
            selected,
        );
        assert(shows_sorted(r.0.deep_view(), interfaces@));
    }
    r
}

/// Every list of candidates that is not empty has a candidate to which none
/// is preferred.
pub proof fn lemma_best_exists(candidates: Seq<Ipv6Candidate>)
    requires
        candidates.len() > 0,
    ensures
        exists|i: int| is_best(candidates, i),
        best_address(candidates) is Some,
    decreases candidates.len(),
{
    let last = candidates.len() - 1;
    if candidates.len() == 1 {
        lemma_precedes_irreflexive(candidates[0]);
        assert(is_best(candidates, 0));
    } else {
        let earlier = candidates.drop_last();
        lemma_best_exists(earlier);
        let i = choose|i: int| is_best(earlier, i);
        assert(is_best(earlier, i));
        if precedes(candidates[last], candidates[i]) {
            lemma_precedes_irreflexive(candidates[last]);
            assert forall|j: int| 0 <= j < candidates.len() implies !precedes(
                #[trigger] candidates[j],
                candidates[last],
            ) by {
                if j < last {
                    assert(earlier[j] == candidates[j]);
                    if precedes(candidates[j], candidates[last]) {
                        lemma_precedes_transitive(candidates[j], candidates[last], candidates[i]);
                    }
                }
            }
            assert(is_best(candidates, last));
        } else {
            assert forall|j: int| 0 <= j < candidates.len() implies !precedes(
                #[trigger] candidates[j],
                candidates[i],
            ) by {
                if j < last {
                    assert(earlier[j] == candidates[j]);
                }
            }
            assert(is_best(candidates, i));
        }
    }
}

/// The chosen address is the address of every candidate to which none is
/// preferred: such candidates differ in nothing.
pub proof fn lemma_best_is_unique(candidates: Seq<Ipv6Candidate>, i: int)
    requires
        is_best(candidates, i),
    ensures
        best_address(candidates) == Some(candidates[i].addr),
{
    let chosen = choose|k: int| is_best(candidates, k);
    assert(is_best(candidates, chosen));
    lemma_precedes_total(candidates[chosen], candidates[i]);
}

/// Rank decides first: where a candidate of a strictly better rank is on the
/// list, a candidate of a worse rank is not the one chosen, whatever else
/// holds of the two.
pub proof fn lemma_better_rank_is_chosen(candidates: Seq<Ipv6Candidate>, a: int, b: int)
    requires
        0 <= a < candidates.len(),
        0 <= b < candidates.len(),
        candidates[a].stability_rank.ordinal() < candidates[b].stability_rank.ordinal(),
    ensures
        !is_best(candidates, b),
        forall|k: int|
            is_best(candidates, k) ==> candidates[k].stability_rank.ordinal()
                <= candidates[a].stability_rank.ordinal(),
{
    assert(precedes(candidates[a], candidates[b]));
    assert forall|k: int| is_best(candidates, k) implies candidates[k].stability_rank.ordinal()
        <= candidates[a].stability_rank.ordinal() by {
        assert(!precedes(candidates[a], candidates[k]));
    }
}

/// Of two addresses alone, the one of the strictly better rank is chosen, in
/// whichever order they are listed.
pub proof fn lemma_better_rank_of_two(a: Ipv6Candidate, b: Ipv6Candidate)
    requires
        a.stability_rank.ordinal() < b.stability_rank.ordinal(),
    ensures
        best_address(seq![a, b]) == Some(a.addr),
        best_address(seq![b, a]) == Some(a.addr),
{
    lemma_precedes_irreflexive(a);
    assert(precedes(a, b));
    assert(!precedes(b, a));
    assert(is_best(seq![a, b], 0));
    lemma_best_is_unique(seq![a, b], 0);
    assert(is_best(seq![b, a], 1));
    lemma_best_is_unique(seq![b, a], 1);
}

/// At one rank the address that outbound traffic would use is chosen over
/// any that it would not use.
pub proof fn lemma_outbound_is_chosen(candidates: Seq<Ipv6Candidate>, a: int, b: int)
    requires
        0 <= a < candidates.len(),
        0 <= b < candidates.len(),
        candidates[a].stability_rank == candidates[b].stability_rank,
        candidates[a].outbound_selected,
        !candidates[b].outbound_selected,
    ensures
        !is_best(candidates, b),
        ({
            let pair = seq![candidates[a], candidates[b]];
            best_address(pair) == Some(candidates[a].addr)
        }),
        ({
            let pair = seq![candidates[b], candidates[a]];
            best_address(pair) == Some(candidates[a].addr)
        }),
{
    let x = candidates[a];
    let y = candidates[b];
    lemma_precedes_irreflexive(x);
    assert(precedes(x, y));
    assert(!precedes(y, x));
    assert(is_best(seq![x, y], 0));
    lemma_best_is_unique(seq![x, y], 0);
    assert(is_best(seq![y, x], 1));
    lemma_best_is_unique(seq![y, x], 1);
}

/// At one rank, and with outbound traffic using both or neither, the
/// address whose octets come first in lexical order is chosen.
pub proof fn lemma_lesser_octets_are_chosen(candidates: Seq<Ipv6Candidate>, a: int, b: int)
    requires
        0 <= a < candidates.len(),
        0 <= b < candidates.len(),
        candidates[a].stability_rank == candidates[b].stability_rank,
        candidates[a].outbound_selected == candidates[b].outbound_selected,
        octets_less(candidates[a].addr@, candidates[b].addr@),
    ensures
        !is_best(candidates, b),
        ({
            let pair = seq![candidates[a], candidates[b]];
            best_address(pair) == Some(candidates[a].addr)
        }),
        ({
            let pair = seq![candidates[b], candidates[a]];
            best_address(pair) == Some(candidates[a].addr)
        }),
{
    let x = candidates[a];
    let y = candidates[b];
    lemma_precedes_irreflexive(x);
    assert(precedes(x, y));
    if precedes(y, x) {
        lemma_precedes_transitive(x, y, x);
    }
    assert(is_best(seq![x, y], 0));
    lemma_best_is_unique(seq![x, y], 0);
    assert(is_best(seq![y, x], 1));
    lemma_best_is_unique(seq![y, x], 1);
}

/// The choice does not depend on the order of the list, nor on how often a
/// candidate is listed: two lists of the same candidates give the same
/// address.
pub proof fn lemma_choice_ignores_order(first: Seq<Ipv6Candidate>, second: Seq<Ipv6Candidate>)
    requires
        forall|c: Ipv6Candidate| first.contains(c) <==> second.contains(c),
    ensures
        best_address(first) == best_address(second),
{
    if first.len() == 0 {
        if second.len() > 0 {
            assert(second.contains(second[0]));
            assert(first.contains(second[0]));
        }
    } else {
        lemma_best_exists(first);
        let i = choose|i: int| is_best(first, i);
        assert(is_best(first, i));
        lemma_best_is_unique(first, i);
        assert(first.contains(first[i]));
        assert(second.contains(first[i]));
        let j = choose|j: int| 0 <= j < second.len() && second[j] == first[i];
        assert forall|k: int| 0 <= k < second.len() implies !precedes(
            #[trigger] second[k],
            second[j],
        ) by {
            assert(second.contains(second[k]));
            assert(first.contains(second[k]));
            let m = choose|m: int| 0 <= m < first.len() && first[m] == second[k];
            assert(!precedes(first[m], first[i]));
        }
        assert(is_best(second, j));
        lemma_best_is_unique(second, j);
    }
}

/// Every candidate of an interface is an address that can be published.
pub proof fn lemma_candidates_are_global(
    ranks: Map<RankKey, StabilityRank>,
    iface_name: Seq<char>,
    nets: Seq<AddressRecord>,
    outbound: Option<Ipv6Address>,
    k: int,
)
    requires
        0 <= k < candidates_among(ranks, iface_name, nets, outbound).len(),
    ensures
        is_global(candidates_among(ranks, iface_name, nets, outbound)[k].addr@),
    decreases nets.len(),
{
    if nets.len() > 0 {
        let earlier = candidates_among(ranks, iface_name, nets.drop_last(), outbound);
        if k < earlier.len() {
            lemma_candidates_are_global(ranks, iface_name, nets.drop_last(), outbound, k);
        }
    }
}

/// Every candidate of any interface is an address that can be published.
pub proof fn lemma_all_candidates_are_global(
    ranks: Map<RankKey, StabilityRank>,
    interfaces: Seq<InterfaceRecord>,
    outbound: Option<Ipv6Address>,
    k: int,
)
    requires
        0 <= k < all_candidates(ranks, interfaces, outbound).len(),
    ensures
        is_global(all_candidates(ranks, interfaces, outbound)[k].addr@),
    decreases interfaces.len(),
{
    if interfaces.len() > 0 {
        let earlier = all_candidates(ranks, interfaces.drop_last(), outbound);
        if k < earlier.len() {
            lemma_all_candidates_are_global(ranks, interfaces.drop_last(), outbound, k);
        } else {
            lemma_candidates_are_global(
                ranks,
                interfaces.last().name@,
                interfaces.last().ipv6@,
                outbound,
                k - earlier.len(),
            );
        }
    }
}

/// Loopback, link-local, unique-local, multicast and unspecified addresses
/// are never chosen, whatever their rank: the chosen address can be
/// published.
pub proof fn lemma_selection_is_global(
    ranks: Map<RankKey, StabilityRank>,
    interfaces: Seq<InterfaceRecord>,
    outbound: Option<Ipv6Address>,
    selected: Option<Seq<char>>,
)
    ensures
        selection(ranks, interfaces, outbound, selected) matches Some(addr) ==> is_global(addr@),
{
    match selected {
        Some(name) => {
            if exists|i: int| is_first_named(interfaces, name, i) {
                let i = choose|i: int| is_first_named(interfaces, name, i);
                let candidates = interface_candidates(ranks, interfaces[i], outbound);
                if exists|k: int| is_best(candidates, k) {
                    let k = choose|k: int| is_best(candidates, k);
                    lemma_candidates_are_global(
                        ranks,
                        interfaces[i].name@,
                        interfaces[i].ipv6@,
                        outbound,
                        k,
                    );
                }
            }
        },
        None => {
            let candidates = all_candidates(ranks, interfaces, outbound);
            if exists|k: int| is_best(candidates, k) {
                let k = choose|k: int| is_best(candidates, k);
                lemma_all_candidates_are_global(ranks, interfaces, outbound, k);
            }
        },
    }
}

} // verus!
