use cf_ddns_ipv6::models::{
    AppConfig, AppSettings, AppSnapshot, CloudflareSettings, InterfaceInfo, LocalHomepageRuntime,
    LookupRecordIdRequest, RuntimeCache, SaveSettingsRequest, SyncStatus, SyncStatusKind,
    ThemeMode,
};
use cf_ddns_ipv6::secure_store::TokenStoreError;
use cf_ddns_ipv6::sync::{
    after_update, conclude_push, conclude_push_at, lookup_record_id, next_worker_action,
    persist_lightweight_mode, push_ipv6_to_cloudflare, record_looked_up, request_to_config,
    run_detection_cycle, run_detection_cycle_at, run_manual_push, same_interface, same_interfaces,
    save_settings, toggle_auto_push, token_change, update_sync_status, update_sync_status_at,
    with_record_id, with_token, CycleOutcome, PushJob, PushReport, PushStep, RecordLookup,
    SyncState, TokenChange, WorkerAction, WorkerEvent,
};

const NO_ADDRESS: &str = "no eligible global IPv6 address is currently available";
const T1: &str = "2026-01-01T00:00:00+00:00";
const T2: &str = "2026-01-02T00:00:00+00:00";

fn info(id: &str, addresses: &[&str]) -> InterfaceInfo {
    InterfaceInfo {
        id: id.to_string(),
        label: id.to_string(),
        mac_address: None,
        ipv6_addresses: addresses.iter().map(|a| a.to_string()).collect(),
        link_speed_mbps: None,
    }
}

fn configured() -> AppConfig {
    let mut config = AppConfig::default();
    config.settings.cloudflare = CloudflareSettings {
        zone_id: " zone ".to_string(),
        domain: "host.example.com".to_string(),
        record_id: String::new(),
        ttl: Some(120),
    };
    config
}

fn state_with_cache(last_known: Option<&str>) -> SyncState {
    let mut config = configured();
    config.cache.last_known_ipv6 = last_known.map(|s| s.to_string());
    SyncState { config, interfaces: vec![info("eth0", &["2001:db8::1"])], current_ipv6: last_known.map(|s| s.to_string()) }
}

fn job(record_id: &str, token: &str) -> PushJob {
    PushJob {
        zone_id: "zone".to_string(),
        domain: "host.example.com".to_string(),
        record_id: record_id.to_string(),
        ttl: Some(120),
        token: token.to_string(),
        address: "2001:db8::2".to_string(),
    }
}

fn failure(message: &str) -> PushStep {
    PushStep::Finished(PushReport { kind: SyncStatusKind::Error, message: message.to_string() })
}

#[test]
fn a_changed_address_updates_the_cache_and_is_pushed_once() {
    let mut state = state_with_cache(Some("2001:db8::1"));
    let interfaces = vec![info("eth0", &["2001:db8::2"])];
    let outcome = run_detection_cycle_at(&mut state, interfaces.clone(), Some("2001:db8::2".to_string()), T1.to_string());
    assert_eq!(
        outcome,
        CycleOutcome { network_changed: true, persist: true, push: Some("2001:db8::2".to_string()) }
    );
    assert_eq!(state.config.cache.last_known_ipv6, Some("2001:db8::2".to_string()));
    assert_eq!(state.config.cache.last_ipv6_change_time, Some(T1.to_string()));
    assert_eq!(state.config.cache.last_sync_status, SyncStatus::default());
    assert_eq!(state.current_ipv6, Some("2001:db8::2".to_string()));
    assert_eq!(state.interfaces, interfaces);
    // the next cycle sees the same address: nothing to store, nothing to push
    let again = run_detection_cycle_at(&mut state, interfaces, Some("2001:db8::2".to_string()), T2.to_string());
    assert_eq!(again, CycleOutcome { network_changed: false, persist: false, push: None });
    assert_eq!(state.config.cache.last_ipv6_change_time, Some(T1.to_string()));
}

#[test]
fn a_changed_address_is_not_pushed_while_pushing_is_off() {
    let mut state = state_with_cache(Some("2001:db8::1"));
    state.config.settings.auto_push = false;
    let outcome = run_detection_cycle_at(
        &mut state,
        vec![info("eth0", &["2001:db8::1"])],
        Some("2001:db8::2".to_string()),
        T1.to_string(),
    );
    assert_eq!(outcome, CycleOutcome { network_changed: true, persist: true, push: None });
    assert_eq!(state.config.cache.last_known_ipv6, Some("2001:db8::2".to_string()));
    assert_eq!(state.config.cache.last_ipv6_change_time, Some(T1.to_string()));
}

#[test]
fn a_first_address_counts_as_a_change() {
    let mut state = state_with_cache(None);
    let outcome = run_detection_cycle_at(
        &mut state,
        vec![info("eth0", &["2001:db8::1"])],
        Some("2001:db8::1".to_string()),
        T1.to_string(),
    );
    assert_eq!(outcome, CycleOutcome { network_changed: true, persist: true, push: Some("2001:db8::1".to_string()) });
}

#[test]
fn changed_interfaces_alone_change_the_network_only() {
    let mut state = state_with_cache(Some("2001:db8::1"));
    let outcome = run_detection_cycle_at(
        &mut state,
        vec![info("eth0", &["2001:db8::1"]), info("wlan0", &[])],
        Some("2001:db8::1".to_string()),
        T1.to_string(),
    );
    assert_eq!(outcome, CycleOutcome { network_changed: true, persist: false, push: None });
    assert_eq!(state.config.cache, state_with_cache(Some("2001:db8::1")).config.cache);
}

#[test]
fn no_eligible_address_is_an_error_and_keeps_the_last_known_address() {
    let mut state = state_with_cache(Some("2001:db8::1"));
    let outcome = run_detection_cycle_at(&mut state, vec![], None, T1.to_string());
    assert_eq!(outcome, CycleOutcome { network_changed: true, persist: true, push: None });
    assert_eq!(state.config.cache.last_known_ipv6, Some("2001:db8::1".to_string()));
    assert_eq!(state.config.cache.last_ipv6_change_time, None);
    assert_eq!(state.config.cache.last_sync_time, Some(T1.to_string()));
    assert_eq!(
        state.config.cache.last_sync_status,
        SyncStatus { kind: SyncStatusKind::Error, message: Some(NO_ADDRESS.to_string()) }
    );
    assert_eq!(state.current_ipv6, None);
}

#[test]
fn a_manual_push_without_an_address_fails_and_keeps_the_cache() {
    let mut state = state_with_cache(Some("2001:db8::1"));
    let before = state.config.clone();
    let step = run_manual_push(&mut state, vec![], None);
    assert_eq!(step, failure(NO_ADDRESS));
    assert_eq!(state.config, before);
    assert_eq!(state.current_ipv6, None);
    let report = match step {
        PushStep::Finished(report) => report,
        _ => unreachable!(),
    };
    let result = conclude_push_at(&mut state.config.cache, report, T1.to_string());
    assert_eq!(result, Err(NO_ADDRESS.to_string()));
    assert_eq!(state.config.cache.last_known_ipv6, Some("2001:db8::1".to_string()));
    assert_eq!(
        state.config.cache.last_sync_status,
        SyncStatus { kind: SyncStatusKind::Error, message: Some(NO_ADDRESS.to_string()) }
    );
}

#[test]
fn a_manual_push_pushes_even_an_unchanged_address() {
    let mut state = state_with_cache(Some("2001:db8::2"));
    let interfaces = vec![info("eth0", &["2001:db8::2"])];
    let step = run_manual_push(&mut state, interfaces.clone(), Some("2001:db8::2".to_string()));
    assert_eq!(step, PushStep::ReadToken(job("", "")));
    assert_eq!(state.interfaces, interfaces);
    assert_eq!(state.config, state_with_cache(Some("2001:db8::2")).config);
}

#[test]
fn a_push_needs_zone_and_domain() {
    let message = "Cloudflare zone id and domain must be set before pushing updates";
    let mut settings = configured().settings.cloudflare;
    settings.zone_id = "  ".to_string();
    assert_eq!(push_ipv6_to_cloudflare(&settings, "2001:db8::2".to_string()), failure(message));
    let mut settings = configured().settings.cloudflare;
    settings.domain = String::new();
    assert_eq!(push_ipv6_to_cloudflare(&settings, "2001:db8::2".to_string()), failure(message));
}

#[test]
fn a_push_trims_what_the_settings_hold() {
    let mut settings = configured().settings.cloudflare;
    settings.record_id = " rec \n".to_string();
    assert_eq!(push_ipv6_to_cloudflare(&settings, "2001:db8::2".to_string()), PushStep::ReadToken(job("rec", "")));
}

#[test]
fn a_push_needs_the_token() {
    assert_eq!(with_token(job("", ""), Ok(None)), failure("API token is not set"));
    assert_eq!(
        with_token(job("", ""), Err(TokenStoreError::EntryUnavailable)),
        failure("failed reading secure API token: failed to create keyring entry")
    );
    assert_eq!(
        with_token(job("", ""), Err(TokenStoreError::ReadFailed("locked".to_string()))),
        failure("failed reading secure API token: failed to read API token from secure keyring: locked")
    );
}

#[test]
fn the_record_is_looked_up_only_while_its_id_is_unknown() {
    assert_eq!(with_token(job("", ""), Ok(Some("secret".to_string()))), PushStep::FindRecord(job("", "secret")));
    assert_eq!(with_token(job("rec", ""), Ok(Some("secret".to_string()))), PushStep::UpdateRecord(job("rec", "secret")));
}

#[test]
fn a_found_record_id_is_kept_for_the_next_push() {
    let mut config = configured();
    let step = with_record_id(&mut config, job("", "secret"), Ok("rec-1".to_string()));
    assert_eq!(step, PushStep::UpdateRecord(job("rec-1", "secret")));
    assert_eq!(config.settings.cloudflare.record_id, "rec-1");
    // the second push sees the id and goes straight to the update
    let second = push_ipv6_to_cloudflare(&config.settings.cloudflare, "2001:db8::2".to_string());
    let second_job = match second {
        PushStep::ReadToken(job) => job,
        other => panic!("unexpected step {:?}", other),
    };
    assert_eq!(with_token(second_job, Ok(Some("secret".to_string()))), PushStep::UpdateRecord(job("rec-1", "secret")));
}

#[test]
fn a_failed_lookup_ends_the_push() {
    let mut config = configured();
    let step = with_record_id(&mut config, job("", "secret"), Err("no AAAA record found for domain host.example.com".to_string()));
    assert_eq!(step, failure("no AAAA record found for domain host.example.com"));
    assert_eq!(config, configured());
}

#[test]
fn the_update_is_reported() {
    assert_eq!(
        after_update(&job("rec", "secret"), Ok(())),
        PushReport { kind: SyncStatusKind::Success, message: "Updated Cloudflare AAAA record to 2001:db8::2".to_string() }
    );
    assert_eq!(
        after_update(&job("rec", "secret"), Err("HTTP 500".to_string())),
        PushReport { kind: SyncStatusKind::Error, message: "HTTP 500".to_string() }
    );
}

#[test]
fn the_report_becomes_the_status() {
    let mut cache = RuntimeCache::default();
    cache.last_known_ipv6 = Some("2001:db8::2".to_string());
    let ok = conclude_push_at(
        &mut cache,
        PushReport { kind: SyncStatusKind::Success, message: "done".to_string() },
        T1.to_string(),
    );
    assert_eq!(ok, Ok(()));
    assert_eq!(cache.last_sync_time, Some(T1.to_string()));
    assert_eq!(cache.last_sync_status, SyncStatus { kind: SyncStatusKind::Success, message: Some("done".to_string()) });
    let failed = conclude_push_at(
        &mut cache,
        PushReport { kind: SyncStatusKind::Error, message: "broken".to_string() },
        T2.to_string(),
    );
    assert_eq!(failed, Err("broken".to_string()));
    assert_eq!(cache.last_sync_time, Some(T2.to_string()));
    assert_eq!(cache.last_sync_status, SyncStatus { kind: SyncStatusKind::Error, message: Some("broken".to_string()) });
    assert_eq!(cache.last_known_ipv6, Some("2001:db8::2".to_string()));
}

#[test]
fn the_status_is_stamped_with_the_time() {
    let mut cache = RuntimeCache::default();
    update_sync_status_at(&mut cache, SyncStatusKind::Success, None, T1.to_string());
    assert_eq!(cache.last_sync_time, Some(T1.to_string()));
    assert_eq!(cache.last_sync_status, SyncStatus { kind: SyncStatusKind::Success, message: None });
    assert_eq!(cache.last_known_ipv6, None);
    assert_eq!(cache.last_ipv6_change_time, None);
}

fn looks_like_a_timestamp(text: &str) -> bool {
    let bytes = text.as_bytes();
    bytes.len() >= 20
        && bytes[4] == b'-'
        && bytes[7] == b'-'
        && bytes[10] == b'T'
        && bytes[13] == b':'
        && bytes[16] == b':'
        && text.ends_with("+00:00")
}

#[test]
fn the_clock_stamps_in_rfc_3339() {
    let mut cache = RuntimeCache::default();
    update_sync_status(&mut cache, SyncStatusKind::Error, Some("x".to_string()));
    let stamp = cache.last_sync_time.clone().unwrap();
    assert!(looks_like_a_timestamp(&stamp), "{}", stamp);
    assert_eq!(cache.last_sync_status, SyncStatus { kind: SyncStatusKind::Error, message: Some("x".to_string()) });

    let mut state = state_with_cache(Some("2001:db8::1"));
    let outcome = run_detection_cycle(&mut state, vec![], Some("2001:db8::2".to_string()));
    assert_eq!(outcome.push, Some("2001:db8::2".to_string()));
    assert!(looks_like_a_timestamp(&state.config.cache.last_ipv6_change_time.clone().unwrap()));

    let result = conclude_push(&mut state.config.cache, PushReport { kind: SyncStatusKind::Success, message: "ok".to_string() });
    assert_eq!(result, Ok(()));
    assert!(looks_like_a_timestamp(&state.config.cache.last_sync_time.clone().unwrap()));
}

#[test]
fn interfaces_are_compared_field_by_field() {
    let a = info("eth0", &["2001:db8::1"]);
    assert!(same_interface(&a, &a.clone()));
    let mut b = a.clone();
    b.link_speed_mbps = Some(1000);
    assert!(!same_interface(&a, &b));
    let mut c = a.clone();
    c.ipv6_addresses.push("2001:db8::2".to_string());
    assert!(!same_interface(&a, &c));
    let mut d = a.clone();
    d.mac_address = Some("00:11:22:33:44:55".to_string());
    assert!(!same_interface(&a, &d));
    assert!(same_interfaces(&vec![a.clone(), b.clone()], &vec![a.clone(), b.clone()]));
    assert!(!same_interfaces(&vec![a.clone(), b.clone()], &vec![b.clone(), a.clone()]));
    assert!(!same_interfaces(&vec![a.clone()], &vec![a.clone(), b]));
    assert!(same_interfaces(&vec![], &vec![]));
}

fn request(domain: &str, record_id: &str) -> SaveSettingsRequest {
    let mut settings = AppSettings::default();
    settings.cloudflare = CloudflareSettings {
        zone_id: "zone".to_string(),
        domain: domain.to_string(),
        record_id: record_id.to_string(),
        ttl: None,
    };
    settings.local_homepage.web_port = 80;
    SaveSettingsRequest { settings, api_token: None, clear_token: false }
}

#[test]
fn saving_settings_keeps_the_cache_and_normalizes() {
    let mut current = configured();
    current.cache.last_known_ipv6 = Some("2001:db8::1".to_string());
    current.cache.last_sync_time = Some(T1.to_string());
    let saved = save_settings(&current, request(" HOST.example.COM ", "rec-1"));
    assert_eq!(saved.cache, current.cache);
    assert_eq!(saved.settings.cloudflare.record_id, "rec-1");
    assert_eq!(saved.settings.cloudflare.domain, " HOST.example.COM ");
    assert_eq!(saved.settings.local_homepage.web_port, 8080);
}

#[test]
fn a_new_domain_forgets_the_record_id() {
    let current = configured();
    let saved = save_settings(&current, request("other.example.com", "rec-1"));
    assert_eq!(saved.settings.cloudflare.record_id, "");
    assert_eq!(saved.settings.cloudflare.domain, "other.example.com");
}

#[test]
fn a_request_becomes_a_fresh_configuration() {
    let config = request_to_config(request("a.example.com", "rec"));
    assert_eq!(config.cache, RuntimeCache::default());
    assert_eq!(config.settings, request("a.example.com", "rec").settings);
}

#[test]
fn the_token_is_cleared_and_stored_as_asked() {
    let mut r = request("a", "");
    assert_eq!(token_change(&r), TokenChange { clear: false, store: None });
    r.api_token = Some(String::new());
    r.clear_token = true;
    assert_eq!(token_change(&r), TokenChange { clear: true, store: None });
    r.api_token = Some("secret".to_string());
    assert_eq!(token_change(&r), TokenChange { clear: true, store: Some("secret".to_string()) });
}

#[test]
fn a_lookup_needs_token_zone_and_domain() {
    let request = LookupRecordIdRequest { zone_id: " zone ".to_string(), domain: " host.example.com\n".to_string() };
    assert_eq!(
        lookup_record_id(&request, Ok(Some("secret".to_string()))),
        Ok(RecordLookup { zone_id: "zone".to_string(), domain: "host.example.com".to_string(), token: "secret".to_string() })
    );
    assert_eq!(lookup_record_id(&request, Ok(None)), Err("API token is not set".to_string()));
    assert_eq!(
        lookup_record_id(&request, Err(TokenStoreError::EntryUnavailable)),
        Err("failed reading secure API token: failed to create keyring entry".to_string())
    );
    let blank = LookupRecordIdRequest { zone_id: " ".to_string(), domain: "host".to_string() };
    assert_eq!(
        lookup_record_id(&blank, Ok(Some("secret".to_string()))),
        Err("Zone ID and domain are required to lookup AAAA record".to_string())
    );
    // the token comes first
    assert_eq!(lookup_record_id(&blank, Ok(None)), Err("API token is not set".to_string()));
}

#[test]
fn a_looked_up_record_is_written_to_the_settings() {
    let mut config = configured();
    config.cache.last_known_ipv6 = Some("2001:db8::1".to_string());
    let lookup = RecordLookup { zone_id: "z2".to_string(), domain: "d2".to_string(), token: "secret".to_string() };
    record_looked_up(&mut config, lookup, "rec-9".to_string());
    assert_eq!(
        config.settings.cloudflare,
        CloudflareSettings { zone_id: "z2".to_string(), domain: "d2".to_string(), record_id: "rec-9".to_string(), ttl: Some(120) }
    );
    assert_eq!(config.cache.last_known_ipv6, Some("2001:db8::1".to_string()));
}

#[test]
fn lightweight_mode_is_stored_only_when_it_changes() {
    let mut config = AppConfig::default();
    assert!(!persist_lightweight_mode(&mut config, false));
    assert!(persist_lightweight_mode(&mut config, true));
    assert!(config.settings.lightweight_mode);
    assert!(!persist_lightweight_mode(&mut config, true));
    toggle_auto_push(&mut config);
    assert!(!config.settings.auto_push);
    toggle_auto_push(&mut config);
    assert!(config.settings.auto_push);
}

#[test]
fn the_worker_runs_one_cycle_per_wake_and_stops_between_cycles() {
    assert_eq!(next_worker_action(WorkerEvent::Started, false), WorkerAction::RunCycle);
    assert_eq!(next_worker_action(WorkerEvent::Started, true), WorkerAction::RunCycle);
    assert_eq!(next_worker_action(WorkerEvent::CycleDone, false), WorkerAction::AwaitWake);
    assert_eq!(next_worker_action(WorkerEvent::CycleDone, true), WorkerAction::Stop);
    assert_eq!(next_worker_action(WorkerEvent::Woken, false), WorkerAction::RunCycle);
    assert_eq!(next_worker_action(WorkerEvent::Woken, true), WorkerAction::Stop);
}

#[test]
fn the_snapshot_shows_the_state_as_it_is() {
    let mut state = state_with_cache(Some("2001:db8::1"));
    state.config.cache.last_sync_status =
        SyncStatus { kind: SyncStatusKind::Success, message: Some("done".to_string()) };
    state.interfaces.push(info("wlan0", &["2001:db8::2", "fe80::1"]));
    let homepage = LocalHomepageRuntime {
        running: true,
        web_port: 8080,
        web_url: "http://host:8080/homepage.html".to_string(),
        preferred_host: "host".to_string(),
        services: vec![],
    };
    let snapshot = state.snapshot(true, Some(ThemeMode::Dark), homepage.clone());
    assert_eq!(
        snapshot,
        AppSnapshot {
            settings: state.config.settings.clone(),
            cache: state.config.cache.clone(),
            current_ipv6: Some("2001:db8::1".to_string()),
            interfaces: state.interfaces.clone(),
            has_token: true,
            linux_theme_hint: Some(ThemeMode::Dark),
            local_homepage: homepage,
        }
    );
    assert_eq!(state.config.settings.copy(), state.config.settings);
    assert_eq!(state.interfaces[1].copy(), state.interfaces[1]);
}
