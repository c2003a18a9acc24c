use cf_ddns_ipv6::firewall::{
    failure_from_lowercase, local_port_matches, rule_needs_update, update_failure,
};
use cf_ddns_ipv6::geoip::{
    country_iso_code, ensure_geoip_databases, lookup_ip, missing_any_database, GeoIpEnsureResult,
    IpGeoInfo,
};
use cf_ddns_ipv6::text::{chars_of, parse_unsigned_span, part_end, trim_span};

#[test]
fn decimal_ports_parse_like_the_standard_library() {
    let samples = ["", "0", "80", "8080", "65535", "65536", "+80", "-80", "08080", "80a", " 80", "８０", "0000000000065535", "+", "99999999999"];
    for sample in samples {
        let chars = chars_of(sample);
        assert_eq!(
            parse_unsigned_span(&chars, 0, chars.len(), 10, 65535),
            sample.parse::<u16>().ok().map(u32::from),
            "{:?}",
            sample
        );
    }
}

#[test]
fn numbers_parse_in_other_radixes() {
    let chars = chars_of("zz");
    assert_eq!(parse_unsigned_span(&chars, 0, 2, 36, 0xffff), Some(35 * 36 + 35));
    assert_eq!(parse_unsigned_span(&chars, 0, 2, 35, 0xffff), None);
    let chars = chars_of("x101y");
    assert_eq!(parse_unsigned_span(&chars, 1, 4, 2, 7), Some(5));
    assert_eq!(parse_unsigned_span(&chars, 1, 4, 2, 4), None);
    assert_eq!(parse_unsigned_span(&chars, 0, 4, 2, 7), None);
    assert_eq!(parse_unsigned_span(&chars, 2, 2, 2, 7), None);
}

#[test]
fn spans_are_trimmed_and_split_in_place() {
    let chars = chars_of("ab,  cd \t,e");
    assert_eq!(part_end(&chars, 0, chars.len(), ','), 2);
    assert_eq!(part_end(&chars, 3, chars.len(), ','), 9);
    assert_eq!(part_end(&chars, 10, chars.len(), ','), 11);
    assert_eq!(trim_span(&chars, 3, 9), (5, 7));
    assert_eq!(trim_span(&chars, 3, 5), (5, 5));
    assert_eq!(trim_span(&chars, 0, 2), (0, 2));
}

#[test]
fn a_rule_covers_its_ports_and_ranges() {
    assert!(local_port_matches("8080", 8080));
    assert!(local_port_matches(" 8080 ", 8080));
    assert!(!local_port_matches("8081", 8080));
    assert!(local_port_matches("80,443,8080", 8080));
    assert!(local_port_matches("80, 8000-8100", 8080));
    assert!(local_port_matches("8000 - 8100", 8080));
    assert!(local_port_matches("8080-8080", 8080));
    assert!(!local_port_matches("8081-8000", 8080));
    assert!(!local_port_matches("1-8079,8081-65535", 8080));
    assert!(local_port_matches("Any", 1));
    assert!(local_port_matches("  ANY\r", 65535));
    assert!(!local_port_matches("any,80", 1));
    assert!(!local_port_matches("", 80));
    assert!(!local_port_matches("   ", 80));
    assert!(!local_port_matches(",,", 80));
    assert!(local_port_matches(",80,", 80));
    assert!(!local_port_matches("80-", 80));
    assert!(!local_port_matches("-80", 80));
    assert!(!local_port_matches("70-80-90", 80));
    assert!(!local_port_matches("x-90", 80));
    assert!(local_port_matches("+80", 80));
    assert!(local_port_matches("+70-+90", 80));
    assert!(!local_port_matches("70000", 4464));
    assert!(!local_port_matches("0-70000", 80));
    assert!(local_port_matches("0-65535", 0));
    assert!(!local_port_matches("8 0", 80));
    assert!(!local_port_matches("RPC", 80));
}

#[test]
fn the_rule_is_rewritten_unless_a_line_covers_the_port() {
    assert!(!rule_needs_update(true, Some(0), "80\r\n8080\r\n", 8080));
    assert!(!rule_needs_update(true, Some(0), "Any", 8080));
    assert!(!rule_needs_update(true, None, "1-10\n8000-9000", 8080));
    assert!(rule_needs_update(true, Some(0), "80\r\n443\r\n", 8080));
    assert!(rule_needs_update(true, Some(0), "", 8080));
    assert!(rule_needs_update(true, Some(0), "80\n80,\n\n", 8080));
    // a failed query: only the code for a missing rule means that nothing is to be done
    assert!(!rule_needs_update(false, Some(3), "8080", 8080));
    assert!(!rule_needs_update(false, Some(3), "", 8080));
    assert!(rule_needs_update(false, Some(1), "8080", 8080));
    assert!(rule_needs_update(false, None, "8080", 8080));
}

#[test]
fn a_declined_prompt_is_told_apart_from_other_failures() {
    let cancelled = "firewall rule update was cancelled in UAC prompt";
    assert_eq!(update_failure("exit code: 1", "", "The operation was CANCELED by the user.\r\n"), cancelled);
    assert_eq!(update_failure("exit code: 1", " Cancelled By The User ", ""), cancelled);
    assert_eq!(
        update_failure("exit code: 5", " out \n", "\terr "),
        "elevated firewall update script exited with exit code: 5. stdout: out stderr: err"
    );
    assert_eq!(
        update_failure("exit code: 5", "", ""),
        "elevated firewall update script exited with exit code: 5. stdout:  stderr: "
    );
    // the two outputs are joined by a space before they are searched
    assert_eq!(update_failure("s", "canceled by the", "user"), cancelled);
    assert_eq!(
        failure_from_lowercase("CANCELED BY THE USER", "s", "o", "e"),
        "elevated firewall update script exited with s. stdout: o stderr: e"
    );
}

#[test]
fn the_country_is_shown_in_upper_case() {
    assert_eq!(country_iso_code(Some("de"), Some("us")), Some("DE".to_string()));
    assert_eq!(country_iso_code(None, Some("us")), Some("US".to_string()));
    assert_eq!(country_iso_code(Some("CN"), None), Some("CN".to_string()));
    assert_eq!(country_iso_code(None, None), None);
}

#[test]
fn the_records_are_put_together() {
    assert_eq!(lookup_ip(None, None, None), None);
    assert_eq!(
        lookup_ip(Some(4134), Some("Chinanet".to_string()), Some("CN".to_string())),
        Some(IpGeoInfo {
            asn: Some(4134),
            organization: Some("Chinanet".to_string()),
            carrier_name: Some("China Telecom Corporation Limited".to_string()),
            country_iso_code: Some("CN".to_string()),
        })
    );
    assert_eq!(
        lookup_ip(Some(1), Some("HiNet".to_string()), None),
        Some(IpGeoInfo {
            asn: Some(1),
            organization: Some("HiNet".to_string()),
            carrier_name: Some("Chunghwa Telecom Co., Ltd.".to_string()),
            country_iso_code: None,
        })
    );
    assert_eq!(
        lookup_ip(None, None, Some("DE".to_string())),
        Some(IpGeoInfo { asn: None, organization: None, carrier_name: None, country_iso_code: Some("DE".to_string()) })
    );
}

#[test]
fn the_downloads_are_summed_up() {
    assert!(missing_any_database(true, false));
    assert!(missing_any_database(false, true));
    assert!(!missing_any_database(true, true));
    assert_eq!(ensure_geoip_databases(None, None), GeoIpEnsureResult { changed: false, errors: vec![] });
    assert_eq!(
        ensure_geoip_databases(Some(Ok(true)), None),
        GeoIpEnsureResult { changed: true, errors: vec![] }
    );
    assert_eq!(
        ensure_geoip_databases(Some(Ok(false)), Some(Ok(false))),
        GeoIpEnsureResult { changed: false, errors: vec![] }
    );
    assert_eq!(
        ensure_geoip_databases(Some(Err("http 404".to_string())), Some(Ok(true))),
        GeoIpEnsureResult { changed: true, errors: vec!["ASN db download failed: http 404".to_string()] }
    );
    assert_eq!(
        ensure_geoip_databases(Some(Err("a".to_string())), Some(Err("b".to_string()))),
        GeoIpEnsureResult {
            changed: false,
            errors: vec!["ASN db download failed: a".to_string(), "Country db download failed: b".to_string()],
        }
    );
}
