use cf_ddns_ipv6::carrier_map::{lookup_asn, lookup_org_keyword, resolve_carrier_name};
use cf_ddns_ipv6::cloudflare::{
    find_aaaa_record_id, lookup_url, parse_envelope, update_url, CloudflareEnvelope,
    CloudflareErrorMessage, DnsRecordSummary,
};
use cf_ddns_ipv6::config::normalize;
use cf_ddns_ipv6::homepage::{
    build_service_runtime_models, build_share_url, can_use_scheme, fallback_listen_port,
    homepage_runtime, preferred_share_host, primary_listen_port, push_domain,
};
use cf_ddns_ipv6::models::{
    default_language_mode, default_local_homepage_port, AppConfig, AppSettings, LanguageMode,
    LocalHomepageSettings, RuntimeCache, ServiceModel, SyncStatus, SyncStatusKind, ThemeMode,
};
use cf_ddns_ipv6::platform::linux::theme_from_lowercase;
use cf_ddns_ipv6::platform::{detect_theme_hint, Platform};
use cf_ddns_ipv6::secure_store::{
    entry_from_open, stored_from_write, token_from_read, SecureTokenStore, TokenStoreError,
};

#[test]
fn carriers_are_found_by_number() {
    assert_eq!(lookup_asn(4134), Some("China Telecom Corporation Limited"));
    assert_eq!(lookup_asn(146788), Some("China Broadcasting Network Co., Ltd."));
    assert_eq!(lookup_asn(15169), Some("Google LLC"));
    assert_eq!(lookup_asn(24940), Some("Hetzner Online GmbH"));
    assert_eq!(lookup_asn(701), Some("Verizon Business"));
    assert_eq!(lookup_asn(0), None);
    assert_eq!(lookup_asn(u32::MAX), None);
}

#[test]
fn carriers_are_found_by_a_word_of_the_organisation() {
    assert_eq!(lookup_org_keyword("CHINANET Guangdong"), Some("China Telecom Corporation Limited"));
    assert_eq!(lookup_org_keyword("China Mobile communications"), Some("China Mobile Communications Group Co., Ltd."));
    assert_eq!(lookup_org_keyword("cmnet"), Some("China Mobile Communications Group Co., Ltd."));
    assert_eq!(lookup_org_keyword("ChinaBTN"), Some("China Broadcasting Network Co., Ltd."));
    assert_eq!(lookup_org_keyword("China Unicom Beijing"), Some("China Unicom Corporation"));
    assert_eq!(lookup_org_keyword("HiNet"), Some("Chunghwa Telecom Co., Ltd."));
    assert_eq!(lookup_org_keyword("KT"), Some("Korea Telecom"));
    assert_eq!(lookup_org_keyword("kt corp"), None);
    assert_eq!(lookup_org_keyword("Korea Telecom"), Some("Korea Telecom"));
    assert_eq!(lookup_org_keyword("Example Networks"), None);
    assert_eq!(lookup_org_keyword(""), None);
    // the first word that matches decides
    assert_eq!(lookup_org_keyword("chinanet china mobile"), Some("China Telecom Corporation Limited"));
}

#[test]
fn the_number_comes_before_the_organisation() {
    assert_eq!(resolve_carrier_name(Some(4837), Some("chinanet")), Some("China Unicom Backbone Network"));
    assert_eq!(resolve_carrier_name(Some(1), Some("chinanet")), Some("China Telecom Corporation Limited"));
    assert_eq!(resolve_carrier_name(None, Some("hinet")), Some("Chunghwa Telecom Co., Ltd."));
    assert_eq!(resolve_carrier_name(Some(1), None), None);
    assert_eq!(resolve_carrier_name(None, None), None);
}

#[test]
fn ports_zero_and_eighty_become_the_default() {
    for (port, expected) in [(0u16, 8080u16), (80, 8080), (8080, 8080), (81, 81), (443, 443), (65535, 65535)] {
        let mut config = AppConfig::default();
        config.settings.local_homepage.web_port = port;
        config.settings.cloudflare.domain = "d".to_string();
        let mut expected_config = config.clone();
        expected_config.settings.local_homepage.web_port = expected;
        normalize(&mut config);
        assert_eq!(config, expected_config);
    }
}

#[test]
fn defaults_are_those_of_a_first_start() {
    assert_eq!(default_language_mode(), LanguageMode::System);
    assert_eq!(default_local_homepage_port(), 8080);
    let settings = AppSettings::default();
    assert_eq!(settings.selected_interface, None);
    assert!(settings.auto_push);
    assert!(!settings.launch_on_startup);
    assert!(!settings.lightweight_mode);
    assert!(settings.follow_system_theme);
    assert_eq!(settings.theme_mode, ThemeMode::Light);
    assert_eq!(settings.language_mode, LanguageMode::System);
    assert_eq!(settings.cloudflare.zone_id, "");
    assert_eq!(settings.cloudflare.ttl, None);
    assert_eq!(settings.local_homepage, LocalHomepageSettings { web_port: 8080, services: vec![] });
    assert_eq!(SyncStatus::default(), SyncStatus { kind: SyncStatusKind::Idle, message: None });
    let cache = RuntimeCache::default();
    assert_eq!(cache.last_known_ipv6, None);
    assert_eq!(cache.last_sync_status.kind, SyncStatusKind::Idle);
    assert_eq!(cache.copy(), cache);
}

#[test]
fn the_theme_hint_comes_from_the_gtk_theme_on_linux() {
    assert_eq!(detect_theme_hint(Platform::Linux, Some("Adwaita-dark")), Some(ThemeMode::Dark));
    assert_eq!(detect_theme_hint(Platform::Linux, Some("Yaru-DARK")), Some(ThemeMode::Dark));
    assert_eq!(detect_theme_hint(Platform::Linux, Some("Adwaita")), Some(ThemeMode::Light));
    assert_eq!(detect_theme_hint(Platform::Linux, Some("")), None);
    assert_eq!(detect_theme_hint(Platform::Linux, None), None);
    assert_eq!(detect_theme_hint(Platform::Macos, Some("Adwaita-dark")), None);
    assert_eq!(detect_theme_hint(Platform::Windows, Some("Adwaita-dark")), None);
    assert_eq!(theme_from_lowercase("DARK"), Some(ThemeMode::Light));
    assert_eq!(theme_from_lowercase("dark"), Some(ThemeMode::Dark));
}

#[test]
fn a_read_of_the_store_is_classified() {
    assert_eq!(token_from_read(Ok("secret".to_string())), Ok(Some("secret".to_string())));
    assert_eq!(token_from_read(Ok(" secret ".to_string())), Ok(Some(" secret ".to_string())));
    assert_eq!(token_from_read(Ok("  \n".to_string())), Ok(None));
    assert_eq!(token_from_read(Ok(String::new())), Ok(None));
    assert_eq!(token_from_read(Err("NoEntry".to_string())), Ok(None));
    assert_eq!(token_from_read(Err("item not found in keychain".to_string())), Ok(None));
    assert_eq!(
        token_from_read(Err("Couldn't access platform secure storage: locked".to_string())),
        Err(TokenStoreError::ReadFailed("Couldn't access platform secure storage: locked".to_string()))
    );
}

#[test]
fn store_errors_have_messages() {
    assert_eq!(TokenStoreError::EntryUnavailable.message(), "failed to create keyring entry");
    assert_eq!(TokenStoreError::StoreFailed.message(), "failed to store API token in secure keyring");
    assert_eq!(
        TokenStoreError::ReadFailed("locked".to_string()).message(),
        "failed to read API token from secure keyring: locked"
    );
}

#[test]
fn the_store_answers_without_panicking() {
    let store = SecureTokenStore::new("dev.example.cf-ddns-ipv6.tests");
    if let Err(error) = store.set_token("secret") {
        assert!(matches!(error, TokenStoreError::EntryUnavailable | TokenStoreError::StoreFailed));
    }
    match store.get_token() {
        Ok(Some(token)) => assert!(!token.trim().is_empty()),
        Ok(None) => {}
        Err(TokenStoreError::ReadFailed(text)) => {
            assert!(!text.contains("NoEntry") && !text.contains("not found"));
        }
        Err(error) => assert_eq!(error, TokenStoreError::EntryUnavailable),
    }
    if let Err(error) = store.clear_token() {
        assert_eq!(error, TokenStoreError::EntryUnavailable);
    }
}

fn service(preset_type: &str, port: u16) -> ServiceModel {
    ServiceModel {
        id: format!("id-{}", port),
        name: format!("name-{}", port),
        port,
        icon: "icon".to_string(),
        description: "description".to_string(),
        preset_type: preset_type.to_string(),
    }
}

#[test]
fn the_share_host_prefers_the_domain() {
    let mut config = AppConfig::default();
    config.settings.cloudflare.domain = "  host.example.com ".to_string();
    let v4 = Some("192.0.2.7".to_string());
    let v6 = Some("2001:db8::1".to_string());
    assert_eq!(preferred_share_host(&config, v4.clone(), v6.clone()), "host.example.com");
    assert_eq!(push_domain(&config), Some("host.example.com".to_string()));
    config.settings.cloudflare.domain = "   ".to_string();
    assert_eq!(push_domain(&config), None);
    assert_eq!(preferred_share_host(&config, v4, v6.clone()), "192.0.2.7");
    assert_eq!(preferred_share_host(&config, None, v6), "2001:db8::1");
    assert_eq!(preferred_share_host(&config, None, None), "127.0.0.1");
}

#[test]
fn schemes_belong_to_kinds() {
    assert_eq!(can_use_scheme("SMB"), Some("smb://"));
    assert_eq!(can_use_scheme("HTTP"), Some("http://"));
    assert_eq!(can_use_scheme("HTTPS"), Some("https://"));
    assert_eq!(can_use_scheme("FTP"), Some("ftp://"));
    assert_eq!(can_use_scheme("SSH"), Some("ssh://"));
    assert_eq!(can_use_scheme("RDP"), Some("rdp://"));
    assert_eq!(can_use_scheme("http"), None);
    assert_eq!(can_use_scheme(""), None);
    assert_eq!(can_use_scheme("CUSTOM"), None);
}

#[test]
fn share_urls_carry_scheme_host_and_port() {
    assert_eq!(build_share_url(&service("HTTPS", 443), "host.example.com"), "https://host.example.com:443");
    assert_eq!(build_share_url(&service("SMB", 445), "192.0.2.7"), "smb://192.0.2.7:445");
    assert_eq!(build_share_url(&service("CUSTOM", 25565), "host"), "host:25565");
    assert_eq!(build_share_url(&service("HTTP", 0), "h"), "http://h:0");
    assert_eq!(build_share_url(&service("SSH", 65535), "h"), "ssh://h:65535");
}

#[test]
fn services_are_listed_with_their_state() {
    let services = vec![service("HTTP", 8000), service("SSH", 22), service("X", 9)];
    let models = build_service_runtime_models(&services, &vec![true, false], "host");
    assert_eq!(models.len(), 3);
    assert_eq!(models[0].id, "id-8000");
    assert_eq!(models[0].name, "name-8000");
    assert_eq!(models[0].icon, "icon");
    assert_eq!(models[0].description, "description");
    assert_eq!(models[0].preset_type, "HTTP");
    assert_eq!(models[0].port, 8000);
    assert!(models[0].is_online);
    assert_eq!(models[0].share_url, "http://host:8000");
    assert!(!models[1].is_online);
    assert_eq!(models[1].share_url, "ssh://host:22");
    assert!(!models[2].is_online);
    assert_eq!(models[2].share_url, "host:9");
}

#[test]
fn the_homepage_shows_the_bound_port_while_it_runs() {
    let settings = LocalHomepageSettings { web_port: 8080, services: vec![service("HTTP", 8000)] };
    let running = homepage_runtime(&settings, true, 8787, "host".to_string(), &vec![true]);
    assert!(running.running);
    assert_eq!(running.web_port, 8787);
    assert_eq!(running.web_url, "http://host:8787/homepage.html");
    assert_eq!(running.preferred_host, "host");
    assert_eq!(running.services.len(), 1);
    let stopped = homepage_runtime(&settings, false, 0, "host".to_string(), &vec![]);
    assert!(!stopped.running);
    assert_eq!(stopped.web_port, 8080);
    assert_eq!(stopped.web_url, "http://host:8080/homepage.html");
    assert!(!stopped.services[0].is_online);
}

#[test]
fn the_homepage_listens_on_the_configured_port_first() {
    assert_eq!(primary_listen_port(0), 8080);
    assert_eq!(primary_listen_port(80), 80);
    assert_eq!(primary_listen_port(9000), 9000);
    assert_eq!(fallback_listen_port(8080), Some(8787));
    assert_eq!(fallback_listen_port(8787), None);
}

#[test]
fn api_addresses_name_zone_and_record() {
    assert_eq!(lookup_url("z1"), "https://api.cloudflare.com/client/v4/zones/z1/dns_records");
    assert_eq!(update_url("z1", "r1"), "https://api.cloudflare.com/client/v4/zones/z1/dns_records/r1");
}

fn envelope(success: bool, has_result: bool, errors: &[(u64, &str)]) -> CloudflareEnvelope {
    CloudflareEnvelope {
        success,
        has_result,
        errors: errors.iter().map(|(code, message)| CloudflareErrorMessage { code: *code, message: message.to_string() }).collect(),
    }
}

#[test]
fn an_answer_is_accepted_only_as_a_success_with_a_result() {
    assert_eq!(parse_envelope(200, "{}", &envelope(true, true, &[])), Ok(()));
    assert_eq!(
        parse_envelope(200, "{}", &envelope(true, false, &[])),
        Err("Cloudflare response missing result payload".to_string())
    );
    assert_eq!(
        parse_envelope(200, "body", &envelope(false, true, &[])),
        Err("Cloudflare API request failed with HTTP 200: body".to_string())
    );
    assert_eq!(
        parse_envelope(201, "body", &envelope(true, true, &[])),
        Err("Cloudflare API request failed with HTTP 201: body".to_string())
    );
    assert_eq!(
        parse_envelope(403, "body", &envelope(false, false, &[(9109, "Invalid access token")])),
        Err("Cloudflare API request failed with HTTP 403: 9109: Invalid access token".to_string())
    );
    assert_eq!(
        parse_envelope(400, "body", &envelope(false, false, &[(1, "a"), (22, "b"), (0, "")])),
        Err("Cloudflare API request failed with HTTP 400: 1: a, 22: b, 0: ".to_string())
    );
}

#[test]
fn the_first_record_gives_the_id() {
    let records = vec![DnsRecordSummary { id: "r1".to_string() }, DnsRecordSummary { id: "r2".to_string() }];
    assert_eq!(find_aaaa_record_id(&records, "host.example.com"), Ok("r1".to_string()));
    assert_eq!(
        find_aaaa_record_id(&vec![], "host.example.com"),
        Err("no AAAA record found for domain host.example.com".to_string())
    );
}

#[test]
fn the_store_s_answers_are_taken_as_they_come() {
    assert!(matches!(
        entry_from_open(Err(keyring::Error::NoEntry)),
        Err(TokenStoreError::EntryUnavailable)
    ));
    assert!(matches!(
        entry_from_open(Err(keyring::Error::TooLong("service".to_string(), 8))),
        Err(TokenStoreError::EntryUnavailable)
    ));
    if let Ok(entry) = keyring::Entry::new("dev.example.cf-ddns-ipv6.tests", "account") {
        assert!(entry_from_open(Ok(entry)).is_ok());
    }
    assert_eq!(stored_from_write(Ok(())), Ok(()));
    assert_eq!(stored_from_write(Err(keyring::Error::NoEntry)), Err(TokenStoreError::StoreFailed));
    assert_eq!(
        stored_from_write(Err(keyring::Error::BadEncoding(vec![0xff]))),
        Err(TokenStoreError::StoreFailed)
    );
}
