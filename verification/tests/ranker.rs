use cf_ddns_ipv6::address::Ipv6Address;
use cf_ddns_ipv6::ipv6_stability::{PlatformSource, StabilityIndex, StabilityRank};
use cf_ddns_ipv6::models::InterfaceInfo;
use cf_ddns_ipv6::network::{
    collect_interfaces_and_ipv6, describe_interfaces, is_global_candidate, order_ipv6_candidates,
    order_ipv6_candidates_with_policy, pick_best_candidate, rank_interfaces, select,
    select_ipv6_from_interface, select_ipv6_from_interfaces, to_candidate, to_interface_info,
    AddressRecord, InterfaceRecord, Ipv6Candidate, Precedence,
};

fn groups(part: &str) -> Vec<u16> {
    if part.is_empty() {
        return Vec::new();
    }
    part.split(':').map(|group| u16::from_str_radix(group, 16).unwrap()).collect()
}

fn address(text: &str) -> Ipv6Address {
    let (head, tail) = match text.split_once("::") {
        Some((head, tail)) => (groups(head), groups(tail)),
        None => (groups(text), Vec::new()),
    };
    let mut segments = [0u16; 8];
    for (i, group) in head.iter().enumerate() {
        segments[i] = *group;
    }
    for (i, group) in tail.iter().enumerate() {
        segments[8 - tail.len() + i] = *group;
    }
    let mut octets = [0u8; 16];
    for (i, segment) in segments.iter().enumerate() {
        octets[2 * i] = (segment >> 8) as u8;
        octets[2 * i + 1] = (segment & 0xff) as u8;
    }
    Ipv6Address::new(octets)
}

fn net(text: &str, prefix_len: u8) -> AddressRecord {
    AddressRecord { addr: address(text), prefix_len, text: text.to_string() }
}

fn interface(name: &str, nets: Vec<AddressRecord>) -> InterfaceRecord {
    InterfaceRecord {
        name: name.to_string(),
        friendly_name: None,
        mac_address: None,
        ipv6: nets,
        transmit_speed: None,
        receive_speed: None,
    }
}

fn candidate(text: &str, rank: StabilityRank, outbound: bool) -> Ipv6Candidate {
    Ipv6Candidate { addr: address(text), stability_rank: rank, outbound_selected: outbound }
}

#[test]
fn addresses_are_written_in_network_order() {
    assert_eq!(
        address("2001:db8::1").octets,
        [0x20, 0x01, 0x0d, 0xb8, 0, 0, 0, 0, 0, 0, 0, 0, 0, 0, 0, 1]
    );
    assert_eq!(address("::").octets, [0u8; 16]);
    assert_eq!(
        address("1:2:3:4:5:6:7:8").octets,
        [0, 1, 0, 2, 0, 3, 0, 4, 0, 5, 0, 6, 0, 7, 0, 8]
    );
}

#[test]
fn global_addresses_are_all_but_the_special_ranges() {
    let samples = [
        ("::", false),
        ("::1", false),
        ("::2", true),
        ("fe80::1", false),
        ("febf::1", false),
        ("fec0::1", true),
        ("fe7f::1", true),
        ("fc00::1", false),
        ("fd12::1", false),
        ("fdff:ffff::", false),
        ("fe00::1", true),
        ("fb00::1", true),
        ("ff02::1", false),
        ("ff00::", false),
        ("2001:db8::1", true),
        ("2606:4700:4700::1111", true),
        ("::ffff:102:304", true),
        ("100::1", true),
        ("0:0:0:0:0:0:0:100", true),
        ("1::", true),
        ("0:0:0:0:0:0:1:1", true),
    ];
    for (sample, expected) in samples {
        assert_eq!(is_global_candidate(&address(sample)), expected, "{}", sample);
    }
}

#[test]
fn special_addresses_are_no_candidates() {
    let index = StabilityIndex::new();
    let iface = interface("eth0", vec![]);
    for special in ["::1", "fe80::1", "fc00::1", "fd00::1", "ff02::1", "::"] {
        assert_eq!(to_candidate(&iface, address(special), 64, &index, Some(address(special))), None);
    }
}

#[test]
fn special_addresses_are_never_selected_whatever_their_rank() {
    let mut index = StabilityIndex::new();
    for special in ["::1", "fe80::1", "fc00::1", "ff02::1", "::"] {
        StabilityIndex::upsert_rank(&mut index, "eth0".to_string(), address(special), StabilityRank::PreferredStable);
    }
    StabilityIndex::upsert_rank(&mut index, "eth0".to_string(), address("2001:db8::5"), StabilityRank::Temporary);
    let iface = interface(
        "eth0",
        vec![net("::1", 128), net("fe80::1", 64), net("fc00::1", 64), net("ff02::1", 64), net("::", 128), net("2001:db8::5", 64)],
    );
    assert_eq!(select_ipv6_from_interface(&iface, &index, Some(address("fe80::1"))), Some(address("2001:db8::5")));
    let only_special = interface("eth0", vec![net("::1", 128), net("fe80::1", 64), net("fd00::1", 64)]);
    assert_eq!(select_ipv6_from_interface(&only_special, &index, None), None);
}

#[test]
fn a_candidate_takes_rank_and_outbound_match() {
    let mut index = StabilityIndex::new();
    StabilityIndex::upsert_rank(&mut index, "eth0".to_string(), address("2001:db8::1"), StabilityRank::Temporary);
    let iface = interface("eth0", vec![]);
    assert_eq!(
        to_candidate(&iface, address("2001:db8::1"), 64, &index, Some(address("2001:db8::1"))),
        Some(candidate("2001:db8::1", StabilityRank::Temporary, true))
    );
    assert_eq!(
        to_candidate(&iface, address("2001:db8::2"), 64, &index, Some(address("2001:db8::1"))),
        Some(candidate("2001:db8::2", StabilityRank::Stable, false))
    );
    assert_eq!(
        to_candidate(&iface, address("2001:db8::2"), 128, &index, None),
        Some(candidate("2001:db8::2", StabilityRank::Fallback, false))
    );
}

#[test]
fn the_better_rank_is_selected() {
    let a = candidate("2001:db8::ffff", StabilityRank::PreferredStable, false);
    let b = candidate("2001:db8::1", StabilityRank::Stable, false);
    assert_eq!(pick_best_candidate(vec![a, b]), Some(a.addr));
    assert_eq!(pick_best_candidate(vec![b, a]), Some(a.addr));
    let c = candidate("2001:db8::1", StabilityRank::Temporary, true);
    let d = candidate("2001:db8::2", StabilityRank::Fallback, false);
    assert_eq!(pick_best_candidate(vec![c, d]), Some(d.addr));
    assert_eq!(pick_best_candidate(vec![d, c]), Some(d.addr));
}

#[test]
fn the_outbound_address_is_selected_at_equal_rank() {
    let a = candidate("2001:db8::ffff", StabilityRank::Stable, true);
    let b = candidate("2001:db8::1", StabilityRank::Stable, false);
    assert_eq!(pick_best_candidate(vec![a, b]), Some(a.addr));
    assert_eq!(pick_best_candidate(vec![b, a]), Some(a.addr));
}

#[test]
fn ties_are_broken_by_the_octets() {
    let a = candidate("2001:db8::1", StabilityRank::Stable, false);
    let b = candidate("2001:db8::2", StabilityRank::Stable, false);
    let c = candidate("2001:db8:0:1::", StabilityRank::Stable, false);
    assert_eq!(pick_best_candidate(vec![a, b, c]), Some(a.addr));
    assert_eq!(pick_best_candidate(vec![c, b, a]), Some(a.addr));
    assert_eq!(pick_best_candidate(vec![b, c]), Some(b.addr));
}

#[test]
fn the_choice_is_stable_under_shuffling() {
    let mut candidates = vec![
        candidate("2001:db8::9", StabilityRank::Stable, false),
        candidate("2001:db8::3", StabilityRank::Stable, false),
        candidate("2001:db8::7", StabilityRank::Temporary, true),
        candidate("2001:db8::5", StabilityRank::Fallback, true),
        candidate("2001:db8::4", StabilityRank::Stable, false),
        candidate("2001:db8::3", StabilityRank::Stable, false),
    ];
    let expected = Some(address("2001:db8::3"));
    let mut seed: u64 = 0x2545_f491_4f6c_dd1d;
    for _ in 0..200 {
        let mut i = candidates.len();
        while i > 1 {
            seed ^= seed << 13;
            seed ^= seed >> 7;
            seed ^= seed << 17;
            let j = (seed % (i as u64)) as usize;
            i -= 1;
            candidates.swap(i, j);
        }
        assert_eq!(pick_best_candidate(candidates.clone()), expected);
    }
}

#[test]
fn no_candidate_gives_no_address() {
    assert_eq!(pick_best_candidate(Vec::new()), None);
    let index = StabilityIndex::new();
    assert_eq!(select_ipv6_from_interfaces(&Vec::new(), &index, None), None);
    assert_eq!(select(&Vec::new(), &index, None, Some("eth0")), None);
}

#[test]
fn candidates_are_ordered_by_policy() {
    let a = candidate("2001:db8::2", StabilityRank::Stable, true);
    let b = candidate("2001:db8::1", StabilityRank::Stable, false);
    let c = candidate("2001:db8::1", StabilityRank::Fallback, true);
    assert_eq!(order_ipv6_candidates_with_policy(&a, &b), Precedence::Before);
    assert_eq!(order_ipv6_candidates_with_policy(&b, &a), Precedence::After);
    assert_eq!(order_ipv6_candidates_with_policy(&b, &c), Precedence::Before);
    assert_eq!(order_ipv6_candidates_with_policy(&c, &a), Precedence::After);
    assert_eq!(order_ipv6_candidates_with_policy(&a, &a), Precedence::Level);
    assert_eq!(order_ipv6_candidates(&address("2001:db8::1"), &address("2001:db8::2")), Precedence::Before);
    assert_eq!(order_ipv6_candidates(&address("2001:db8::100"), &address("2001:db8::ff")), Precedence::After);
    assert_eq!(order_ipv6_candidates(&address("::1"), &address("::1")), Precedence::Level);
}

#[test]
fn address_order_is_the_order_of_the_octets() {
    let samples = ["::", "::1", "2001:db8::1", "2001:db8::100", "2001:db8:0:1::", "ff02::1", "fe80::1"];
    for a in samples {
        for b in samples {
            let x = address(a).octets;
            let y = address(b).octets;
            assert_eq!(address(a).precedes(&address(b)), x < y);
            assert_eq!(address(a).same(&address(b)), x == y);
        }
    }
}

fn two_interfaces() -> Vec<InterfaceRecord> {
    vec![
        interface("wlan0", vec![net("fe80::2", 64), net("2001:db8::20", 64), net("2001:db8::21", 128)]),
        interface("eth0", vec![net("fe80::1", 64), net("2001:db8::10", 128), net("2001:db8::11", 64)]),
    ]
}

#[test]
fn selection_looks_at_all_interfaces_or_at_the_selected_one() {
    let interfaces = two_interfaces();
    let index = StabilityIndex::new();
    // all /64 addresses are stable; the least octets win
    assert_eq!(select(&interfaces, &index, None, None), Some(address("2001:db8::11")));
    assert_eq!(select(&interfaces, &index, None, Some("wlan0")), Some(address("2001:db8::20")));
    assert_eq!(select(&interfaces, &index, None, Some("eth0")), Some(address("2001:db8::11")));
    assert_eq!(select(&interfaces, &index, None, Some("eth9")), None);
    // the outbound address wins at equal rank
    assert_eq!(select(&interfaces, &index, Some(address("2001:db8::20")), None), Some(address("2001:db8::20")));
    // but not against a better rank
    assert_eq!(select(&interfaces, &index, Some(address("2001:db8::21")), None), Some(address("2001:db8::11")));
}

#[test]
fn the_selected_interface_is_the_first_of_its_name() {
    let interfaces = vec![
        interface("eth0", vec![net("2001:db8::2", 64)]),
        interface("eth0", vec![net("2001:db8::1", 64)]),
    ];
    let index = StabilityIndex::new();
    assert_eq!(select(&interfaces, &index, None, Some("eth0")), Some(address("2001:db8::2")));
    assert_eq!(select(&interfaces, &index, None, None), Some(address("2001:db8::1")));
}

#[test]
fn an_interface_is_described_for_display() {
    let mut iface = interface("eth0", vec![net("2001:db8::b", 64), net("fe80::1", 64), net("2001:db8::a", 64)]);
    iface.friendly_name = Some("Ethernet".to_string());
    iface.mac_address = Some("00:11:22:33:44:55".to_string());
    iface.transmit_speed = Some(1_000_000_000);
    iface.receive_speed = Some(100_000_000);
    assert_eq!(
        to_interface_info(&iface),
        InterfaceInfo {
            id: "eth0".to_string(),
            label: "Ethernet".to_string(),
            mac_address: Some("00:11:22:33:44:55".to_string()),
            ipv6_addresses: vec!["2001:db8::a".to_string(), "2001:db8::b".to_string(), "fe80::1".to_string()],
            link_speed_mbps: Some(1000),
        }
    );
}

#[test]
fn display_falls_back_where_data_is_missing() {
    let mut iface = interface("wlan0", vec![]);
    iface.friendly_name = Some(String::new());
    iface.mac_address = Some("00:00:00:00:00:00".to_string());
    iface.receive_speed = Some(54_999_999);
    assert_eq!(
        to_interface_info(&iface),
        InterfaceInfo {
            id: "wlan0".to_string(),
            label: "wlan0".to_string(),
            mac_address: None,
            ipv6_addresses: vec![],
            link_speed_mbps: Some(54),
        }
    );
    let bare = interface("lo", vec![]);
    let info = to_interface_info(&bare);
    assert_eq!(info.label, "lo");
    assert_eq!(info.mac_address, None);
    assert_eq!(info.link_speed_mbps, None);
}

#[test]
fn interfaces_are_shown_sorted_by_name() {
    let mut interfaces = two_interfaces();
    interfaces.push(interface("docker0", vec![]));
    let mut second = interface("eth0", vec![]);
    second.friendly_name = Some("second".to_string());
    interfaces.push(second);
    let infos = describe_interfaces(&interfaces);
    let ids: Vec<&str> = infos.iter().map(|info| info.id.as_str()).collect();
    assert_eq!(ids, vec!["docker0", "eth0", "eth0", "wlan0"]);
    assert_eq!(infos[1].label, "eth0");
    assert_eq!(infos[2].label, "second");
    assert_eq!(infos[3].ipv6_addresses, vec!["2001:db8::20", "2001:db8::21", "fe80::2"]);
}

#[test]
fn ranking_uses_the_platform_ranks_and_the_observed_prefixes() {
    let interfaces = two_interfaces();
    let table = "\
20010db8000000000000000000000011 02 40 00 01 eth0
20010db8000000000000000000000021 03 80 00 80 wlan0
";
    let source = PlatformSource::Linux { inet6_table: table.to_string() };
    let (infos, chosen) = rank_interfaces(&interfaces, &source, None, None);
    assert_eq!(infos.len(), 2);
    assert_eq!(infos[0].id, "eth0");
    // ::21 is permanent by the table, ::11 temporary; ::20 is stable by its prefix
    assert_eq!(chosen, Some(address("2001:db8::21")));
    let (_, on_eth0) = rank_interfaces(&interfaces, &source, None, Some("eth0"));
    // ::10 is a fallback by its /128, ::11 temporary by the table
    assert_eq!(on_eth0, Some(address("2001:db8::10")));
    let (infos, none) = rank_interfaces(&interfaces, &source, None, Some("missing"));
    assert_eq!(none, None);
    assert_eq!(infos.len(), 2);
}

#[test]
fn the_machine_s_interfaces_give_a_global_address_or_none() {
    let (infos, chosen) = collect_interfaces_and_ipv6(None, &PlatformSource::Unsupported, None);
    let mut sorted = infos.clone();
    sorted.sort_by(|a, b| a.id.cmp(&b.id));
    assert_eq!(infos, sorted);
    if let Some(addr) = chosen {
        assert!(is_global_candidate(&addr));
    }
    let (_, on_missing) =
        collect_interfaces_and_ipv6(Some("no such interface \u{0}"), &PlatformSource::Unsupported, None);
    assert_eq!(on_missing, None);
}
