//! The change-driven synchronisation controller: what a detection cycle
//! does to the cache, when the record is pushed, and the steps of a push.
//!
//! The controller decides; it performs no remote call itself. Each step takes
//! what the previous action brought back and says what is to be done next.

use crate::config::{normalize, normalized};
use crate::models::{
    AppConfig, AppConfigView, AppSettingsView, AppSnapshot, AppSnapshotView, CloudflareSettings,
    CloudflareSettingsView, InterfaceInfo, InterfaceInfoView, LocalHomepageRuntime,
    LookupRecordIdRequest, RuntimeCache, RuntimeCacheView, SaveSettingsRequest, SyncStatus,
    SyncStatusKind, SyncStatusView, ThemeMode,
};
use crate::secure_store::{error_message, TokenStoreError};
use crate::text::{
    ascii_lowered, copy_optional_text, eq_ignore_ascii_case, joined, same_optional_text,
    trim_text, trimmed,
};
use vstd::prelude::*;

verus! {

/// `chrono::Utc::now` and `DateTime::to_rfc3339`: the time that the clock
/// shows, as text in the format of RFC 3339. Nothing is claimed of the text: it
/// depends on the clock. The call returns for every clock that stands at or
/// after the start of 1970.
#[verifier::external_body]
fn timestamp() -> (now: String) {
    chrono::Utc::now().to_rfc3339()
}

/// The message of a cycle that found no address to publish.
pub open spec fn no_address_message() -> Seq<char> {
    "no eligible global IPv6 address is currently available"@
}

/// What the controller holds between cycles.
#[derive(Debug, Clone, PartialEq, Eq)]
pub struct SyncState {
    pub config: AppConfig,
    pub interfaces: Vec<InterfaceInfo>,
    pub current_ipv6: Option<String>,
}

/// The mathematical value of a [`SyncState`].
pub struct SyncStateView {
    pub config: AppConfigView,
    pub interfaces: Seq<InterfaceInfoView>,
    pub current_ipv6: Option<Seq<char>>,
}

impl DeepView for SyncState {
    type V = SyncStateView;

    open spec fn deep_view(&self) -> SyncStateView {
        SyncStateView {
            config: self.config.deep_view(),
            interfaces: self.interfaces.deep_view(),
            current_ipv6: self.current_ipv6.deep_view(),
        }
    }
}

impl View for SyncState {
    type V = SyncStateView;

    open spec fn view(&self) -> SyncStateView {
        self.deep_view()
    }
}

impl SyncState {
    /// What an observer is shown at this moment: the state as it is,
    /// together with whether a token is stored, the theme hint, and the homepage
    /// as it runs.
    pub fn snapshot(
        &self,
        has_token: bool,
        linux_theme_hint: Option<ThemeMode>,
        local_homepage: LocalHomepageRuntime,
    ) -> (snapshot: AppSnapshot)
        ensures
            snapshot@ == (AppSnapshotView {
                settings: self@.config.settings,
                cache: self@.config.cache,
                current_ipv6: self@.current_ipv6,
                interfaces: self@.interfaces,
                has_token,
                linux_theme_hint,
                local_homepage: local_homepage@,
            }),
    {
        let mut interfaces: Vec<InterfaceInfo> = Vec::new();
        let mut i: usize = 0;
        while i < self.interfaces.len()
            invariant
                i <= self.interfaces.len(),
                interfaces.len() == i,
                forall|k: int| 0 <= k < i ==> (#[trigger] interfaces@[k])@ == self.interfaces@[k]@,
            decreases self.interfaces.len() - i,
        {
            interfaces.push(self.interfaces[i].copy());
            i += 1;
        }
        assert(interfaces.deep_view() =~= self.interfaces.deep_view());
        AppSnapshot {
            settings: self.config.settings.copy(),
            cache: self.config.cache.copy(),
            current_ipv6: copy_optional_text(&self.current_ipv6),
            interfaces,
            has_token,
            linux_theme_hint,
            local_homepage,
        }
    }
}

/// What a detection cycle asks of its caller.
#[derive(Debug, Clone, PartialEq, Eq)]
pub struct CycleOutcome {
    /// What was observed differs from what the cycle before observed.
    pub network_changed: bool,
    /// The cache has changed and is to be stored before anything is pushed.
    pub persist: bool,
    /// The address to push, if the record is to be pushed.
    pub push: Option<String>,
}

/// The mathematical value of a [`CycleOutcome`].
pub struct CycleOutcomeView {
    pub network_changed: bool,
    pub persist: bool,
    pub push: Option<Seq<char>>,
}

impl DeepView for CycleOutcome {
    type V = CycleOutcomeView;

    open spec fn deep_view(&self) -> CycleOutcomeView {
        CycleOutcomeView {
            network_changed: self.network_changed,
            persist: self.persist,
            push: self.push.deep_view(),
        }
    }
}

impl View for CycleOutcome {
    type V = CycleOutcomeView;

    open spec fn view(&self) -> CycleOutcomeView {
        self.deep_view()
    }
}

/// The cache after a synchronisation attempt that ended at `now`.
pub open spec fn status_recorded(
    cache: RuntimeCacheView,
    kind: SyncStatusKind,
    message: Option<Seq<char>>,
    now: Seq<char>,
) -> RuntimeCacheView {
    RuntimeCacheView {
        last_sync_time: Some(now),
        last_sync_status: SyncStatusView { kind, message },
        ..cache
    }
}

/// The cache after a cycle that observed `current` at `now`. An address that
/// differs from the last known one is recorded with the time of the change.
/// Where there is no address, the last known one stays and the failure is
/// recorded as the status.
pub open spec fn cycle_cache(cache: RuntimeCacheView, current: Option<Seq<char>>, now: Seq<char>)
    -> RuntimeCacheView {
    match current {
        Some(address) => if cache.last_known_ipv6 == Some(address) {
            cache
        } else {
            RuntimeCacheView {
                last_known_ipv6: Some(address),
                last_ipv6_change_time: Some(now),
                ..cache
            }
        },
        None => status_recorded(cache, SyncStatusKind::Error, Some(no_address_message()), now),
    }
}

/// The state after a cycle.
pub open spec fn cycle_state(
    before: SyncStateView,
    interfaces: Seq<InterfaceInfoView>,
    current: Option<Seq<char>>,
    now: Seq<char>,
) -> SyncStateView {
    SyncStateView {
        config: AppConfigView {
            cache: cycle_cache(before.config.cache, current, now),
            ..before.config
        },
        interfaces,
        current_ipv6: current,
    }
}

/// Whether the observed address is one that the cache does not hold yet.
pub open spec fn address_changed(cache: RuntimeCacheView, current: Option<Seq<char>>) -> bool {
    current is Some && cache.last_known_ipv6 != current
}

/// What a cycle asks of its caller: the network has changed where the
/// interfaces or the chosen address differ from the cycle before; the cache
/// is to be stored where the address has changed or there is none; and the
/// record is pushed only where the address has changed and pushing is enabled.
pub open spec fn cycle_outcome(
    before: SyncStateView,
    interfaces: Seq<InterfaceInfoView>,
    current: Option<Seq<char>>,
) -> CycleOutcomeView {
    CycleOutcomeView {
        network_changed: before.interfaces != interfaces || before.current_ipv6 != current,
        persist: current is None || address_changed(before.config.cache, current),
        push: if address_changed(before.config.cache, current) && before.config.settings.auto_push {
            current
        } else {
            None
        },
    }
}

/// Whether two lists of texts hold the same texts in the same order.
fn same_texts(a: &Vec<String>, b: &Vec<String>) -> (r: bool)
    ensures
        r == (a.deep_view() == b.deep_view()),
{
    if a.len() != b.len() {
        assert(a.deep_view().len() != b.deep_view().len());
        return false;
    }
    let mut i: usize = 0;
    while i < a.len()
        invariant
            i <= a.len(),
            a.len() == b.len(),
            forall|k: int| 0 <= k < i ==> a@[k]@ == b@[k]@,
        decreases a.len() - i,
    {
        if a[i] != b[i] {
            assert(a.deep_view()[i as int] != b.deep_view()[i as int]);
            return false;
        }
        i += 1;
    }
    assert(a.deep_view() =~= b.deep_view());
    true
}

/// Whether two interfaces are shown alike.
pub fn same_interface(a: &InterfaceInfo, b: &InterfaceInfo) -> (r: bool)
    ensures
        r == (a@ == b@),
{
    let same_speed = match (a.link_speed_mbps, b.link_speed_mbps) {
        (Some(x), Some(y)) => x == y,
        (None, None) => true,
        _ => false,
    };
    a.id == b.id && a.label == b.label && same_optional_text(&a.mac_address, &b.mac_address)
        && same_texts(&a.ipv6_addresses, &b.ipv6_addresses) && same_speed
}

/// Whether two lists show the same interfaces in the same order.
pub fn same_interfaces(a: &Vec<InterfaceInfo>, b: &Vec<InterfaceInfo>) -> (r: bool)
    ensures
        r == (a.deep_view() == b.deep_view()),
{
    if a.len() != b.len() {
        assert(a.deep_view().len() != b.deep_view().len());
        return false;
    }
    let mut i: usize = 0;
    while i < a.len()
        invariant
            i <= a.len(),
            a.len() == b.len(),
            forall|k: int| 0 <= k < i ==> a@[k]@ == b@[k]@,
        decreases a.len() - i,
    {
        if !same_interface(&a[i], &b[i]) {
            assert(a.deep_view()[i as int] != b.deep_view()[i as int]);
            return false;
        }
        i += 1;
    }
    assert(a.deep_view() =~= b.deep_view());
    true
}

/// Records how a synchronisation attempt ended, with the time at which it
/// did.
pub fn update_sync_status_at(
    cache: &mut RuntimeCache,
    kind: SyncStatusKind,
    message: Option<String>,
    now: String,
)
    ensures
        final(cache)@ == status_recorded(old(cache)@, kind, message.deep_view(), now@),
{
    cache.last_sync_time = Some(now);
    cache.last_sync_status = SyncStatus { kind, message };
}

/// Records how a synchronisation attempt ended, with the time that the clock
/// shows.
pub fn update_sync_status(cache: &mut RuntimeCache, kind: SyncStatusKind, message: Option<String>)
    ensures
        exists|now: Seq<char>|
            final(cache)@ == status_recorded(old(cache)@, kind, message.deep_view(), now),
{
    let now = timestamp();
    update_sync_status_at(cache, kind, message, now);
    assert(cache@ == status_recorded(old(cache)@, kind, message.deep_view(), now@));
}

/// One detection cycle at the time `now`: takes in what was observed,
/// brings the cache up to date, and says what the caller is to do.
pub fn run_detection_cycle_at(
    state: &mut SyncState,
    interfaces: Vec<InterfaceInfo>,
    current_ipv6: Option<String>,
    now: String,
) -> (outcome: CycleOutcome)
    ensures
        final(state)@ == cycle_state(
            old(state)@,
            interfaces.deep_view(),
            current_ipv6.deep_view(),
            now@,
        ),
        outcome@ == cycle_outcome(old(state)@, interfaces.deep_view(), current_ipv6.deep_view()),
{
    let network_changed = !same_interfaces(&state.interfaces, &interfaces) || !same_optional_text(
        &state.current_ipv6,
        &current_ipv6,
    );
    let mut persist = false;
    let mut push: Option<String> = None;
    match &current_ipv6 {
        Some(address) => {
            if !same_optional_text(&state.config.cache.last_known_ipv6, &current_ipv6) {
                state.config.cache.last_known_ipv6 = Some(address.clone());
                state.config.cache.last_ipv6_change_time = Some(now);
                persist = true;
                if state.config.settings.auto_push {
                    push = Some(address.clone());
                }
            }
        },
        None => {
            update_sync_status_at(
                &mut state.config.cache,
                SyncStatusKind::Error,
                Some("no eligible global IPv6 address is currently available".to_owned()),
                now,
            );
            persist = true;
        },
    }
    state.interfaces = interfaces;
    state.current_ipv6 = current_ipv6;
    CycleOutcome { network_changed, persist, push }
}

/// One detection cycle at the time that the clock shows.
pub fn run_detection_cycle(
    state: &mut SyncState,
    interfaces: Vec<InterfaceInfo>,
    current_ipv6: Option<String>,
) -> (outcome: CycleOutcome)
    ensures
        exists|now: Seq<char>|
            final(state)@ == cycle_state(
                old(state)@,
                interfaces.deep_view(),
                current_ipv6.deep_view(),
                now,
            ),
        outcome@ == cycle_outcome(old(state)@, interfaces.deep_view(), current_ipv6.deep_view()),
{
    let now = timestamp();
    let ghost shown = interfaces.deep_view();
    let ghost current = current_ipv6.deep_view();
    let outcome = run_detection_cycle_at(state, interfaces, current_ipv6, now);
    assert(state@ == cycle_state(old(state)@, shown, current, now@));
    outcome
}

/// What a push needs: the record's place, the token, and the address.
#[derive(Debug, Clone, PartialEq, Eq)]
pub struct PushJob {
    pub zone_id: String,
    pub domain: String,
    /// The record's id; empty until it is known.
    pub record_id: String,
    pub ttl: Option<u32>,
    /// The API token; empty until it is read.
    pub token: String,
    pub address: String,
}

/// The mathematical value of a [`PushJob`].
pub struct PushJobView {
    pub zone_id: Seq<char>,
    pub domain: Seq<char>,
    pub record_id: Seq<char>,
    pub ttl: Option<u32>,
    pub token: Seq<char>,
    pub address: Seq<char>,
}

impl DeepView for PushJob {
    type V = PushJobView;

    open spec fn deep_view(&self) -> PushJobView {
        PushJobView {
            zone_id: self.zone_id@,
            domain: self.domain@,
            record_id: self.record_id@,
            ttl: self.ttl,
            token: self.token@,
            address: self.address@,
        }
    }
}

impl View for PushJob {
    type V = PushJobView;

    open spec fn view(&self) -> PushJobView {
        self.deep_view()
    }
}

/// How a push ended: the status to record.
#[derive(Debug, Clone, PartialEq, Eq)]
pub struct PushReport {
    pub kind: SyncStatusKind,
    pub message: String,
}

/// The mathematical value of a [`PushReport`].
pub struct PushReportView {
    pub kind: SyncStatusKind,
    pub message: Seq<char>,
}

impl DeepView for PushReport {
    type V = PushReportView;

    open spec fn deep_view(&self) -> PushReportView {
        PushReportView { kind: self.kind, message: self.message@ }
    }
}

impl View for PushReport {
    type V = PushReportView;

    open spec fn view(&self) -> PushReportView {
        self.deep_view()
    }
}

/// What is to be done next in a push.
#[derive(Debug, Clone, PartialEq, Eq)]
pub enum PushStep {
    /// Read the API token and hand it to [`with_token`].
    ReadToken(PushJob),
    /// Look the record's id up and hand it to [`with_record_id`].
    FindRecord(PushJob),
    /// Update the record and hand the outcome to [`after_update`].
    UpdateRecord(PushJob),
    /// Nothing more: record the report with [`conclude_push`].
    Finished(PushReport),
}

/// The mathematical value of a [`PushStep`].
pub enum PushStepView {
    ReadToken(PushJobView),
    FindRecord(PushJobView),
    UpdateRecord(PushJobView),
    Finished(PushReportView),
}

impl DeepView for PushStep {
    type V = PushStepView;

    open spec fn deep_view(&self) -> PushStepView {
        match self {
            PushStep::ReadToken(job) => PushStepView::ReadToken(job@),
            PushStep::FindRecord(job) => PushStepView::FindRecord(job@),
            PushStep::UpdateRecord(job) => PushStepView::UpdateRecord(job@),
            PushStep::Finished(report) => PushStepView::Finished(report@),
        }
    }
}

impl View for PushStep {
    type V = PushStepView;

    open spec fn view(&self) -> PushStepView {
        self.deep_view()
    }
}

/// A push that ends in failure with the given message.
pub open spec fn failed(message: Seq<char>) -> PushStepView {
    PushStepView::Finished(PushReportView { kind: SyncStatusKind::Error, message })
}

/// The first step of a push of `address`: without a zone or a name nothing
/// can be pushed; otherwise the token is read first.
pub open spec fn push_begun(settings: CloudflareSettingsView, address: Seq<char>) -> PushStepView {
    if trimmed(settings.zone_id).len() == 0 || trimmed(settings.domain).len() == 0 {
        failed("Cloudflare zone id and domain must be set before pushing updates"@)
    } else {
        PushStepView::ReadToken(
            PushJobView {
                zone_id: trimmed(settings.zone_id),
                domain: trimmed(settings.domain),
                record_id: trimmed(settings.record_id),
                ttl: settings.ttl,
                token: Seq::empty(),
                address,
            },
        )
    }
}

/// The step after the token was read: a failed read and a missing token end
/// the push; with the token, the record is looked up where its id is not
/// known, and updated where it is.
pub open spec fn token_taken(job: PushJobView, read: Result<Option<Seq<char>>, TokenStoreError>)
    -> PushStepView {
    match read {
        Err(error) => failed("failed reading secure API token: "@ + error_message(error)),
        Ok(None) => failed("API token is not set"@),
        Ok(Some(token)) => if job.record_id.len() == 0 {
            PushStepView::FindRecord(PushJobView { token, ..job })
        } else {
            PushStepView::UpdateRecord(PushJobView { token, ..job })
        },
    }
}

/// The step after the lookup: a failure ends the push; the id that was
/// found is the one to update.
pub open spec fn record_taken(job: PushJobView, found: Result<Seq<char>, Seq<char>>)
    -> PushStepView {
    match found {
        Err(message) => failed(message),
        Ok(record_id) => PushStepView::UpdateRecord(PushJobView { record_id, ..job }),
    }
}

/// The configuration after the lookup: an id that was found is kept for
/// the pushes to come.
pub open spec fn record_remembered(config: AppConfigView, found: Result<Seq<char>, Seq<char>>)
    -> AppConfigView {
    match found {
        Err(_) => config,
        Ok(record_id) => AppConfigView {
            settings: AppSettingsView {
                cloudflare: CloudflareSettingsView { record_id, ..config.settings.cloudflare },
                ..config.settings
            },
            ..config
        },
    }
}

/// How the update ended.
pub open spec fn update_reported(job: PushJobView, outcome: Result<(), Seq<char>>)
    -> PushReportView {
    match outcome {
        Ok(()) => PushReportView {
            kind: SyncStatusKind::Success,
            message: "Updated Cloudflare AAAA record to "@ + job.address,
        },
        Err(message) => PushReportView { kind: SyncStatusKind::Error, message },
    }
}

/// What the caller of a push is told: the message of a failure, or success.
pub open spec fn report_result(report: PushReportView) -> Result<(), Seq<char>> {
    if report.kind == SyncStatusKind::Error {
        Err(report.message)
    } else {
        Ok(())
    }
}

fn fail(message: String) -> (step: PushStep)
    ensures
        step@ == failed(message@),
{
    PushStep::Finished(PushReport { kind: SyncStatusKind::Error, message })
}

/// Begins a push of `address` to the record that the settings name.
pub fn push_ipv6_to_cloudflare(settings: &CloudflareSettings, address: String) -> (step: PushStep)
    ensures
        step@ == push_begun(settings@, address@),
{
    let zone_id = trim_text(settings.zone_id.as_str());
    let domain = trim_text(settings.domain.as_str());
    let record_id = trim_text(settings.record_id.as_str());
    if zone_id.is_empty() || domain.is_empty() {
        return fail("Cloudflare zone id and domain must be set before pushing updates".to_owned());
    }
    PushStep::ReadToken(
        PushJob {
            zone_id: zone_id.to_owned(),
            domain: domain.to_owned(),
            record_id: record_id.to_owned(),
            ttl: settings.ttl,
            token: String::new(),
            address,
        },
    )
}

/// Takes the token that was read for the push.
pub fn with_token(job: PushJob, read: Result<Option<String>, TokenStoreError>) -> (step: PushStep)
    ensures
        step@ == token_taken(
            job@,
            match read {
                Ok(Some(token)) => Ok(Some(token@)),
                Ok(None) => Ok(None),
                Err(error) => Err(error),
            },
        ),
{
    match read {
        Err(error) => {
            let text = error.message();
            fail(joined("failed reading secure API token: ", text.as_str()))
        },
        Ok(None) => fail("API token is not set".to_owned()),
        Ok(Some(token)) => {
            let lookup = job.record_id.as_str().is_empty();
            let job = PushJob {
                zone_id: job.zone_id,
                domain: job.domain,
                record_id: job.record_id,
                ttl: job.ttl,
                token,
                address: job.address,
            };
            if lookup {
                PushStep::FindRecord(job)
            } else {
                PushStep::UpdateRecord(job)
            }
        },
    }
}

/// Takes the outcome of the lookup of the record's id, and keeps an id that
/// was found in the configuration.
pub fn with_record_id(config: &mut AppConfig, job: PushJob, found: Result<String, String>) -> (step:
    PushStep)
    ensures
        step@ == record_taken(
            job@,
            match found {
                Ok(id) => Ok(id@),
                Err(message) => Err(message@),
            },
        ),
        final(config)@ == record_remembered(
            old(config)@,
            match found {
                Ok(id) => Ok(id@),
                Err(message) => Err(message@),
            },
        ),
{
    match found {
        Err(message) => fail(message),
        Ok(record_id) => {
            config.settings.cloudflare.record_id = record_id.clone();
            PushStep::UpdateRecord(
                PushJob {
                    zone_id: job.zone_id,
                    domain: job.domain,
                    record_id,
                    ttl: job.ttl,
                    token: job.token,
                    address: job.address,
                },
            )
        },
    }
}

/// Takes the outcome of the update.
pub fn after_update(job: &PushJob, outcome: Result<(), String>) -> (report: PushReport)
    ensures
        report@ == update_reported(
            job@,
            match outcome {
                Ok(()) => Ok(()),
                Err(message) => Err(message@),
            },
        ),
{
    match outcome {
        Ok(()) => PushReport {
            kind: SyncStatusKind::Success,
            message: joined("Updated Cloudflare AAAA record to ", job.address.as_str()),
        },
        Err(message) => PushReport { kind: SyncStatusKind::Error, message },
    }
}

/// Ends a push at the time `now`: the report becomes the status of the
/// cache, and a failure is handed to the caller.
pub fn conclude_push_at(cache: &mut RuntimeCache, report: PushReport, now: String) -> (r: Result<
    (),
    String,
>)
    ensures
        final(cache)@ == status_recorded(old(cache)@, report.kind, Some(report.message@), now@),
        match r {
            Ok(()) => report_result(report@) == Ok::<(), Seq<char>>(()),
            Err(message) => report_result(report@) == Err::<(), Seq<char>>(message@),
        },
{
    let failure = match report.kind {
        SyncStatusKind::Error => Some(report.message.clone()),
        _ => None,
    };
    update_sync_status_at(cache, report.kind, Some(report.message), now);
    match failure {
        Some(message) => Err(message),
        None => Ok(()),
    }
}

/// Ends a push at the time that the clock shows.
pub fn conclude_push(cache: &mut RuntimeCache, report: PushReport) -> (r: Result<(), String>)
    ensures
        exists|now: Seq<char>|
            final(cache)@ == status_recorded(old(cache)@, report.kind, Some(report.message@), now),
        match r {
            Ok(()) => report_result(report@) == Ok::<(), Seq<char>>(()),
            Err(message) => report_result(report@) == Err::<(), Seq<char>>(message@),
        },
{
    let now = timestamp();
    let ghost kind = report.kind;
    let ghost message = report.message@;
    let r = conclude_push_at(cache, report, now);
    assert(cache@ == status_recorded(old(cache)@, kind, Some(message), now@));
    r
}

/// The state after a push was asked for by hand: what was observed is taken
/// in, and nothing else changes.
pub open spec fn observed(
    before: SyncStateView,
    interfaces: Seq<InterfaceInfoView>,
    current: Option<Seq<char>>,
) -> SyncStateView {
    SyncStateView { interfaces, current_ipv6: current, ..before }
}

/// The first step of a push by hand: with an address the push begins,
/// whatever the cache holds; without one it ends in failure.
pub open spec fn manual_push_begun(settings: CloudflareSettingsView, current: Option<Seq<char>>)
    -> PushStepView {
    match current {
        Some(address) => push_begun(settings, address),
        None => failed(no_address_message()),
    }
}

/// A push that the user asked for: takes in what was observed and begins
/// the push of the observed address.
pub fn run_manual_push(
    state: &mut SyncState,
    interfaces: Vec<InterfaceInfo>,
    current_ipv6: Option<String>,
) -> (step: PushStep)
    ensures
        final(state)@ == observed(old(state)@, interfaces.deep_view(), current_ipv6.deep_view()),
        step@ == manual_push_begun(old(state)@.config.settings.cloudflare, current_ipv6.deep_view()),
{
    let step = match &current_ipv6 {
        Some(address) => push_ipv6_to_cloudflare(&state.config.settings.cloudflare, address.clone()),
        None => fail("no eligible global IPv6 address is currently available".to_owned()),
    };
    state.interfaces = interfaces;
    state.current_ipv6 = current_ipv6;
    step
}

/// Once a lookup has found the record's id, the next push of the same
/// configuration goes straight to the update with that id, and looks nothing
/// up.
pub proof fn lemma_found_record_is_reused(
    config: AppConfigView,
    record_id: Seq<char>,
    address: Seq<char>,
    token: Seq<char>,
)
    requires
        trimmed(config.settings.cloudflare.zone_id).len() > 0,
        trimmed(config.settings.cloudflare.domain).len() > 0,
        trimmed(record_id).len() > 0,
    ensures
        ({
            let later = record_remembered(config, Ok(record_id));
            &&& push_begun(later.settings.cloudflare, address) is ReadToken
            &&& token_taken(push_begun(later.settings.cloudflare, address)->ReadToken_0, Ok(Some(token)))
                is UpdateRecord
            &&& token_taken(
                push_begun(later.settings.cloudflare, address)->ReadToken_0,
                Ok(Some(token)),
            )->UpdateRecord_0.record_id == trimmed(record_id)
        }),
{
}

/// A cycle pushes at most the observed address, and only where the address
/// differs from the cached one and pushing is enabled; the cache then holds
/// the observed address and the time of the change.
pub proof fn lemma_changed_address_is_pushed_once(
    before: SyncStateView,
    interfaces: Seq<InterfaceInfoView>,
    address: Seq<char>,
    now: Seq<char>,
)
    requires
        before.config.cache.last_known_ipv6 != Some(address),
    ensures
        cycle_state(before, interfaces, Some(address), now).config.cache.last_known_ipv6 == Some(
            address,
        ),
        cycle_state(before, interfaces, Some(address), now).config.cache.last_ipv6_change_time
            == Some(now),
        cycle_outcome(before, interfaces, Some(address)).persist,
        cycle_outcome(before, interfaces, Some(address)).push == if before.config.settings.auto_push {
            Some(address)
        } else {
            None
        },
        // the cycle that follows, observing the same address, pushes nothing
        cycle_outcome(
            cycle_state(before, interfaces, Some(address), now),
            interfaces,
            Some(address),
        ).push is None,
{
}

/// Without an address to publish the status is a failure that says so, the
/// last known address stays as it was, and nothing is pushed: in a cycle and
/// in a push by hand alike.
pub proof fn lemma_no_address_is_an_error(
    before: SyncStateView,
    interfaces: Seq<InterfaceInfoView>,
    now: Seq<char>,
)
    ensures
        cycle_state(before, interfaces, None, now).config.cache.last_sync_status == (SyncStatusView {
            kind: SyncStatusKind::Error,
            message: Some(no_address_message()),
        }),
        cycle_state(before, interfaces, None, now).config.cache.last_known_ipv6
            == before.config.cache.last_known_ipv6,
        cycle_outcome(before, interfaces, None).push is None,
        manual_push_begun(before.config.settings.cloudflare, None) == failed(no_address_message()),
        observed(before, interfaces, None).config == before.config,
        status_recorded(
            before.config.cache,
            SyncStatusKind::Error,
            Some(no_address_message()),
            now,
        ).last_known_ipv6 == before.config.cache.last_known_ipv6,
{
}

/// The status never goes back to idle by itself: a cycle leaves the kind
/// of the status as it is or records a failure, and a push ends in success or
/// in failure.
pub proof fn lemma_status_never_returns_to_idle(
    cache: RuntimeCacheView,
    current: Option<Seq<char>>,
    now: Seq<char>,
    job: PushJobView,
    outcome: Result<(), Seq<char>>,
    message: Seq<char>,
)
    ensures
        cycle_cache(cache, current, now).last_sync_status.kind == SyncStatusKind::Idle
            ==> cache.last_sync_status.kind == SyncStatusKind::Idle,
        update_reported(job, outcome).kind != SyncStatusKind::Idle,
        failed(message)->Finished_0.kind == SyncStatusKind::Error,
        status_recorded(
            cache,
            update_reported(job, outcome).kind,
            Some(update_reported(job, outcome).message),
            now,
        ).last_sync_status.kind != SyncStatusKind::Idle,
{
}

/// What a request to save settings asks of the credential store.
#[derive(Debug, Clone, PartialEq, Eq)]
pub struct TokenChange {
    /// Remove the stored token; this comes first.
    pub clear: bool,
    /// Store this token.
    pub store: Option<String>,
}

/// The token that a request asks to store: the one it carries, unless that
/// is empty.
pub open spec fn token_to_store(api_token: Option<Seq<char>>) -> Option<Seq<char>> {
    match api_token {
        Some(token) => if token.len() > 0 {
            Some(token)
        } else {
            None
        },
        None => None,
    }
}

/// What the request asks of the credential store.
pub fn token_change(request: &SaveSettingsRequest) -> (change: TokenChange)
    ensures
        change.clear == request.clear_token,
        change.store.deep_view() == token_to_store(request.api_token.deep_view()),
{
    let store = match &request.api_token {
        Some(token) => if token.as_str().is_empty() {
            None
        } else {
            Some(token.clone())
        },
        None => None,
    };
    TokenChange { clear: request.clear_token, store }
}

/// A configuration of the requested settings that has never run.
pub fn request_to_config(request: SaveSettingsRequest) -> (config: AppConfig)
    ensures
        config@ == (AppConfigView {
            settings: request.settings@,
            cache: crate::models::empty_cache(),
        }),
{
    AppConfig { settings: request.settings, cache: RuntimeCache::default() }
}

/// Whether two names of a record are the same name: surrounding whitespace
/// and the case of ASCII letters do not count.
pub open spec fn same_domain(a: Seq<char>, b: Seq<char>) -> bool {
    ascii_lowered(trimmed(a)) == ascii_lowered(trimmed(b))
}

/// The configuration after the settings are replaced: the cache stays; the
/// record's id is forgotten where the record's name has changed, since it
/// belongs to the old name; and the whole is made normal.
pub open spec fn settings_saved(current: AppConfigView, requested: AppSettingsView)
    -> AppConfigView {
    normalized(
        AppConfigView {
            settings: AppSettingsView {
                cloudflare: CloudflareSettingsView {
                    record_id: if same_domain(
                        current.settings.cloudflare.domain,
                        requested.cloudflare.domain,
                    ) {
                        requested.cloudflare.record_id
                    } else {
                        Seq::empty()
                    },
                    ..requested.cloudflare
                },
                ..requested
            },
            cache: current.cache,
        },
    )
}

/// The configuration that a request to save settings leads to.
pub fn save_settings(current: &AppConfig, request: SaveSettingsRequest) -> (config: AppConfig)
    ensures
        config@ == settings_saved(current@, request.settings@),
{
    let mut config = request_to_config(request);
    let kept = eq_ignore_ascii_case(
        trim_text(current.settings.cloudflare.domain.as_str()),
        trim_text(config.settings.cloudflare.domain.as_str()),
    );
    if !kept {
        config.settings.cloudflare.record_id = String::new();
    }
    config.cache = current.cache.copy();
    normalize(&mut config);
    config
}

/// What a lookup of the record's id needs.
#[derive(Debug, Clone, PartialEq, Eq)]
pub struct RecordLookup {
    pub zone_id: String,
    pub domain: String,
    pub token: String,
}

/// The mathematical value of a [`RecordLookup`].
pub struct RecordLookupView {
    pub zone_id: Seq<char>,
    pub domain: Seq<char>,
    pub token: Seq<char>,
}

impl DeepView for RecordLookup {
    type V = RecordLookupView;

    open spec fn deep_view(&self) -> RecordLookupView {
        RecordLookupView { zone_id: self.zone_id@, domain: self.domain@, token: self.token@ }
    }
}

impl View for RecordLookup {
    type V = RecordLookupView;

    open spec fn view(&self) -> RecordLookupView {
        self.deep_view()
    }
}

/// What a request to look the record's id up leads to: a failed read of the
/// token, a missing token, and a blank zone or name are refused, in this
/// order; otherwise the zone and the name are looked up without their
/// surrounding whitespace.
pub open spec fn lookup_begun(
    zone_id: Seq<char>,
    domain: Seq<char>,
    read: Result<Option<Seq<char>>, TokenStoreError>,
) -> Result<RecordLookupView, Seq<char>> {
    match read {
        Err(error) => Err("failed reading secure API token: "@ + error_message(error)),
        Ok(None) => Err("API token is not set"@),
        Ok(Some(token)) => if trimmed(zone_id).len() == 0 || trimmed(domain).len() == 0 {
            Err("Zone ID and domain are required to lookup AAAA record"@)
        } else {
            Ok(RecordLookupView { zone_id: trimmed(zone_id), domain: trimmed(domain), token })
        },
    }
}

/// Begins a lookup of the record's id that the user asked for.
pub fn lookup_record_id(
    request: &LookupRecordIdRequest,
    read: Result<Option<String>, TokenStoreError>,
) -> (r: Result<RecordLookup, String>)
    ensures
        match (r, lookup_begun(
            request.zone_id@,
            request.domain@,
            match read {
                Ok(Some(token)) => Ok(Some(token@)),
                Ok(None) => Ok(None),
                Err(error) => Err(error),
            },
        )) {
            (Ok(lookup), Ok(expected)) => lookup@ == expected,
            (Err(message), Err(expected)) => message@ == expected,
            _ => false,
        },
{
    let token = match read {
        Err(error) => {
            let text = error.message();
            return Err(joined("failed reading secure API token: ", text.as_str()));
        },
        Ok(None) => {
            return Err("API token is not set".to_owned());
        },
        Ok(Some(token)) => token,
    };
    let zone_id = trim_text(request.zone_id.as_str());
    let domain = trim_text(request.domain.as_str());
    if zone_id.is_empty() || domain.is_empty() {
        return Err("Zone ID and domain are required to lookup AAAA record".to_owned());
    }
    Ok(RecordLookup { zone_id: zone_id.to_owned(), domain: domain.to_owned(), token })
}

/// The configuration after a lookup found the record's id: it names the
/// zone and the record that were looked up, and holds the id.
pub open spec fn lookup_applied(config: AppConfigView, lookup: RecordLookupView, record_id: Seq<char>)
    -> AppConfigView {
    AppConfigView {
        settings: AppSettingsView {
            cloudflare: CloudflareSettingsView {
                zone_id: lookup.zone_id,
                domain: lookup.domain,
                record_id,
                ..config.settings.cloudflare
            },
            ..config.settings
        },
        ..config
    }
}

/// Takes the record's id that a lookup found.
pub fn record_looked_up(config: &mut AppConfig, lookup: RecordLookup, record_id: String)
    ensures
        final(config)@ == lookup_applied(old(config)@, lookup@, record_id@),
{
    config.settings.cloudflare.zone_id = lookup.zone_id;
    config.settings.cloudflare.domain = lookup.domain;
    config.settings.cloudflare.record_id = record_id;
}

/// Sets the lightweight mode, and says whether the configuration has changed
/// and is to be stored.
pub fn persist_lightweight_mode(config: &mut AppConfig, enabled: bool) -> (changed: bool)
    ensures
        changed == (old(config).settings.lightweight_mode != enabled),
        final(config)@ == (AppConfigView {
            settings: AppSettingsView { lightweight_mode: enabled, ..old(config)@.settings },
            ..old(config)@
        }),
{
    if config.settings.lightweight_mode == enabled {
        return false;
    }
    config.settings.lightweight_mode = enabled;
    true
}

/// Turns automatic pushing on where it is off, and off where it is on.
pub fn toggle_auto_push(config: &mut AppConfig)
    ensures
        final(config)@ == (AppConfigView {
            settings: AppSettingsView {
                auto_push: !old(config).settings.auto_push,
                ..old(config)@.settings
            },
            ..old(config)@
        }),
{
    config.settings.auto_push = !config.settings.auto_push;
}

/// What the background worker has just seen.
#[derive(Clone, Copy, Debug, PartialEq, Eq, Structural)]
pub enum WorkerEvent {
    /// The worker has started.
    Started,
    /// A detection cycle has ended.
    CycleDone,
    /// The wake signal has come.
    Woken,
}

/// What the background worker does next.
#[derive(Clone, Copy, Debug, PartialEq, Eq, Structural)]
pub enum WorkerAction {
    RunCycle,
    AwaitWake,
    Stop,
}

/// The next action of the background worker: a first cycle runs at the
/// start whatever else holds; after that the worker waits for the wake signal
/// and runs one cycle for each; once the application shuts down it stops, but
/// never in the middle of a cycle.
pub fn next_worker_action(event: WorkerEvent, shutting_down: bool) -> (action: WorkerAction)
    ensures
        action == match event {
            WorkerEvent::Started => WorkerAction::RunCycle,
            WorkerEvent::CycleDone => if shutting_down {
                WorkerAction::Stop
            } else {
                WorkerAction::AwaitWake
            },
            WorkerEvent::Woken => if shutting_down {
                WorkerAction::Stop
            } else {
                WorkerAction::RunCycle
            },
        },
{
    match event {
        WorkerEvent::Started => WorkerAction::RunCycle,
        WorkerEvent::CycleDone => if shutting_down {
            WorkerAction::Stop
        } else {
            WorkerAction::AwaitWake
        },
        WorkerEvent::Woken => if shutting_down {
            WorkerAction::Stop
        } else {
            WorkerAction::RunCycle
        },
    }
}

/// Changing the record's name makes the next push look the record's id up
/// again.
pub proof fn lemma_new_domain_forgets_record(current: AppConfigView, requested: AppSettingsView)
    requires
        !same_domain(current.settings.cloudflare.domain, requested.cloudflare.domain),
    ensures
        settings_saved(current, requested).settings.cloudflare.record_id == Seq::<char>::empty(),
        settings_saved(current, requested).cache == current.cache,
{
}

} // verus!
