//! The data that the application keeps and shows: settings, the runtime
//! cache, and the snapshot handed to observers. Every type has a view, its
//! mathematical value, in which texts are sequences of characters.

use crate::text::copy_optional_text;
use vstd::prelude::*;

verus! {

/// Light or dark.
#[derive(Debug, Clone, Copy, PartialEq, Eq, Structural)]
pub enum ThemeMode {
    Light,
    Dark,
}

impl DeepView for ThemeMode {
    type V = ThemeMode;

    open spec fn deep_view(&self) -> ThemeMode {
        *self
    }
}

/// The language of the interface: that of the system, or a fixed one.
#[derive(Debug, Clone, Copy, PartialEq, Eq, Structural)]
pub enum LanguageMode {
    System,
    ZhCn,
    En,
}

impl DeepView for LanguageMode {
    type V = LanguageMode;

    open spec fn deep_view(&self) -> LanguageMode {
        *self
    }
}

/// How a synchronisation attempt ended; `Idle` while none has been made.
#[derive(Debug, Clone, Copy, PartialEq, Eq, Structural)]
pub enum SyncStatusKind {
    Idle,
    Success,
    Error,
}

impl DeepView for SyncStatusKind {
    type V = SyncStatusKind;

    open spec fn deep_view(&self) -> SyncStatusKind {
        *self
    }
}

/// The language of a configuration that names none.
pub fn default_language_mode() -> (r: LanguageMode)
    ensures
        r == LanguageMode::System,
{
    LanguageMode::System
}

/// The homepage port of a configuration that names none.
pub fn default_local_homepage_port() -> (r: u16)
    ensures
        r == 8080,
{
    8080
}

/// The DNS record to keep in step: its zone, its name, the record's id
/// once known, and the time to live.
#[derive(Debug, Clone, PartialEq, Eq)]
pub struct CloudflareSettings {
    pub zone_id: String,
    pub domain: String,
    pub record_id: String,
    pub ttl: Option<u32>,
}

/// The mathematical value of a [`CloudflareSettings`].
pub struct CloudflareSettingsView {
    pub zone_id: Seq<char>,
    pub domain: Seq<char>,
    pub record_id: Seq<char>,
    pub ttl: Option<u32>,
}

impl DeepView for CloudflareSettings {
    type V = CloudflareSettingsView;

    open spec fn deep_view(&self) -> CloudflareSettingsView {
        CloudflareSettingsView {
            zone_id: self.zone_id.deep_view(),
            domain: self.domain.deep_view(),
            record_id: self.record_id.deep_view(),
            ttl: self.ttl.deep_view(),
        }
    }
}

impl View for CloudflareSettings {
    type V = CloudflareSettingsView;

    open spec fn view(&self) -> CloudflareSettingsView {
        self.deep_view()
    }
}

/// A local service that the homepage lists.
#[derive(Debug, Clone, PartialEq, Eq)]
pub struct ServiceModel {
    pub id: String,
    pub name: String,
    pub port: u16,
    pub icon: String,
    pub description: String,
    pub preset_type: String,
}

/// The mathematical value of a [`ServiceModel`].
pub struct ServiceModelView {
    pub id: Seq<char>,
    pub name: Seq<char>,
    pub port: u16,
    pub icon: Seq<char>,
    pub description: Seq<char>,
    pub preset_type: Seq<char>,
}

impl DeepView for ServiceModel {
    type V = ServiceModelView;

    open spec fn deep_view(&self) -> ServiceModelView {
        ServiceModelView {
            id: self.id.deep_view(),
            name: self.name.deep_view(),
            port: self.port.deep_view(),
            icon: self.icon.deep_view(),
            description: self.description.deep_view(),
            preset_type: self.preset_type.deep_view(),
        }
    }
}

impl View for ServiceModel {
    type V = ServiceModelView;

    open spec fn view(&self) -> ServiceModelView {
        self.deep_view()
    }
}

/// The local homepage: its port and the services it lists.
#[derive(Debug, Clone, PartialEq, Eq)]
pub struct LocalHomepageSettings {
    pub web_port: u16,
    pub services: Vec<ServiceModel>,
}

/// The mathematical value of a [`LocalHomepageSettings`].
pub struct LocalHomepageSettingsView {
    pub web_port: u16,
    pub services: Seq<ServiceModelView>,
}

impl DeepView for LocalHomepageSettings {
    type V = LocalHomepageSettingsView;

    open spec fn deep_view(&self) -> LocalHomepageSettingsView {
        LocalHomepageSettingsView {
            web_port: self.web_port.deep_view(),
            services: self.services.deep_view(),
        }
    }
}

impl View for LocalHomepageSettings {
    type V = LocalHomepageSettingsView;

    open spec fn view(&self) -> LocalHomepageSettingsView {
        self.deep_view()
    }
}

/// What the user has chosen.
#[derive(Debug, Clone, PartialEq, Eq)]
pub struct AppSettings {
    pub selected_interface: Option<String>,
    pub auto_push: bool,
    pub launch_on_startup: bool,
    pub lightweight_mode: bool,
    pub follow_system_theme: bool,
    pub theme_mode: ThemeMode,
    pub language_mode: LanguageMode,
    pub cloudflare: CloudflareSettings,
    pub local_homepage: LocalHomepageSettings,
}

/// The mathematical value of a [`AppSettings`].
pub struct AppSettingsView {
    pub selected_interface: Option<Seq<char>>,
    pub auto_push: bool,
    pub launch_on_startup: bool,
    pub lightweight_mode: bool,
    pub follow_system_theme: bool,
    pub theme_mode: ThemeMode,
    pub language_mode: LanguageMode,
    pub cloudflare: CloudflareSettingsView,
    pub local_homepage: LocalHomepageSettingsView,
}

impl DeepView for AppSettings {
    type V = AppSettingsView;

    open spec fn deep_view(&self) -> AppSettingsView {
        AppSettingsView {
            selected_interface: self.selected_interface.deep_view(),
            auto_push: self.auto_push.deep_view(),
            launch_on_startup: self.launch_on_startup.deep_view(),
            lightweight_mode: self.lightweight_mode.deep_view(),
            follow_system_theme: self.follow_system_theme.deep_view(),
            theme_mode: self.theme_mode.deep_view(),
            language_mode: self.language_mode.deep_view(),
            cloudflare: self.cloudflare.deep_view(),
            local_homepage: self.local_homepage.deep_view(),
        }
    }
}

impl View for AppSettings {
    type V = AppSettingsView;

    open spec fn view(&self) -> AppSettingsView {
        self.deep_view()
    }
}

/// How the last synchronisation attempt ended.
#[derive(Debug, Clone, PartialEq, Eq)]
pub struct SyncStatus {
    pub kind: SyncStatusKind,
    pub message: Option<String>,
}

/// The mathematical value of a [`SyncStatus`].
pub struct SyncStatusView {
    pub kind: SyncStatusKind,
    pub message: Option<Seq<char>>,
}

impl DeepView for SyncStatus {
    type V = SyncStatusView;

    open spec fn deep_view(&self) -> SyncStatusView {
        SyncStatusView {
            kind: self.kind.deep_view(),
            message: self.message.deep_view(),
        }
    }
}

impl View for SyncStatus {
    type V = SyncStatusView;

    open spec fn view(&self) -> SyncStatusView {
        self.deep_view()
    }
}

/// What the controller remembers between cycles: the last chosen address,
/// when it changed, and when and how the last synchronisation attempt
/// ended.
#[derive(Debug, Clone, PartialEq, Eq)]
pub struct RuntimeCache {
    pub last_known_ipv6: Option<String>,
    pub last_ipv6_change_time: Option<String>,
    pub last_sync_time: Option<String>,
    pub last_sync_status: SyncStatus,
}

/// The mathematical value of a [`RuntimeCache`].
pub struct RuntimeCacheView {
    pub last_known_ipv6: Option<Seq<char>>,
    pub last_ipv6_change_time: Option<Seq<char>>,
    pub last_sync_time: Option<Seq<char>>,
    pub last_sync_status: SyncStatusView,
}

impl DeepView for RuntimeCache {
    type V = RuntimeCacheView;

    open spec fn deep_view(&self) -> RuntimeCacheView {
        RuntimeCacheView {
            last_known_ipv6: self.last_known_ipv6.deep_view(),
            last_ipv6_change_time: self.last_ipv6_change_time.deep_view(),
            last_sync_time: self.last_sync_time.deep_view(),
            last_sync_status: self.last_sync_status.deep_view(),
        }
    }
}

impl View for RuntimeCache {
    type V = RuntimeCacheView;

    open spec fn view(&self) -> RuntimeCacheView {
        self.deep_view()
    }
}

/// The persisted state: settings and cache.
#[derive(Debug, Clone, PartialEq, Eq)]
pub struct AppConfig {
    pub settings: AppSettings,
    pub cache: RuntimeCache,
}

/// The mathematical value of a [`AppConfig`].
pub struct AppConfigView {
    pub settings: AppSettingsView,
    pub cache: RuntimeCacheView,
}

impl DeepView for AppConfig {
    type V = AppConfigView;

    open spec fn deep_view(&self) -> AppConfigView {
        AppConfigView {
            settings: self.settings.deep_view(),
            cache: self.cache.deep_view(),
        }
    }
}

impl View for AppConfig {
    type V = AppConfigView;

    open spec fn view(&self) -> AppConfigView {
        self.deep_view()
    }
}

/// One interface as it is shown: name, label, hardware address, its
/// addresses in lexical order, and the link speed.
#[derive(Debug, Clone, PartialEq, Eq)]
pub struct InterfaceInfo {
    pub id: String,
    pub label: String,
    pub mac_address: Option<String>,
    pub ipv6_addresses: Vec<String>,
    pub link_speed_mbps: Option<u64>,
}

/// The mathematical value of a [`InterfaceInfo`].
pub struct InterfaceInfoView {
    pub id: Seq<char>,
    pub label: Seq<char>,
    pub mac_address: Option<Seq<char>>,
    pub ipv6_addresses: Seq<Seq<char>>,
    pub link_speed_mbps: Option<u64>,
}

impl DeepView for InterfaceInfo {
    type V = InterfaceInfoView;

    open spec fn deep_view(&self) -> InterfaceInfoView {
        InterfaceInfoView {
            id: self.id.deep_view(),
            label: self.label.deep_view(),
            mac_address: self.mac_address.deep_view(),
            ipv6_addresses: self.ipv6_addresses.deep_view(),
            link_speed_mbps: self.link_speed_mbps.deep_view(),
        }
    }
}

impl View for InterfaceInfo {
    type V = InterfaceInfoView;

    open spec fn view(&self) -> InterfaceInfoView {
        self.deep_view()
    }
}

/// A listed service together with what is known of it at the moment.
#[derive(Debug, Clone, PartialEq, Eq)]
pub struct ServiceRuntimeModel {
    pub id: String,
    pub name: String,
    pub port: u16,
    pub icon: String,
    pub description: String,
    pub preset_type: String,
    pub is_online: bool,
    pub share_url: String,
}

/// The mathematical value of a [`ServiceRuntimeModel`].
pub struct ServiceRuntimeModelView {
    pub id: Seq<char>,
    pub name: Seq<char>,
    pub port: u16,
    pub icon: Seq<char>,
    pub description: Seq<char>,
    pub preset_type: Seq<char>,
    pub is_online: bool,
    pub share_url: Seq<char>,
}

impl DeepView for ServiceRuntimeModel {
    type V = ServiceRuntimeModelView;

    open spec fn deep_view(&self) -> ServiceRuntimeModelView {
        ServiceRuntimeModelView {
            id: self.id.deep_view(),
            name: self.name.deep_view(),
            port: self.port.deep_view(),
            icon: self.icon.deep_view(),
            description: self.description.deep_view(),
            preset_type: self.preset_type.deep_view(),
            is_online: self.is_online.deep_view(),
            share_url: self.share_url.deep_view(),
        }
    }
}

impl View for ServiceRuntimeModel {
    type V = ServiceRuntimeModelView;

    open spec fn view(&self) -> ServiceRuntimeModelView {
        self.deep_view()
    }
}

/// The local homepage as it runs.
#[derive(Debug, Clone, PartialEq, Eq)]
pub struct LocalHomepageRuntime {
    pub running: bool,
    pub web_port: u16,
    pub web_url: String,
    pub preferred_host: String,
    pub services: Vec<ServiceRuntimeModel>,
}

/// The mathematical value of a [`LocalHomepageRuntime`].
pub struct LocalHomepageRuntimeView {
    pub running: bool,
    pub web_port: u16,
    pub web_url: Seq<char>,
    pub preferred_host: Seq<char>,
    pub services: Seq<ServiceRuntimeModelView>,
}

impl DeepView for LocalHomepageRuntime {
    type V = LocalHomepageRuntimeView;

    open spec fn deep_view(&self) -> LocalHomepageRuntimeView {
        LocalHomepageRuntimeView {
            running: self.running.deep_view(),
            web_port: self.web_port.deep_view(),
            web_url: self.web_url.deep_view(),
            preferred_host: self.preferred_host.deep_view(),
            services: self.services.deep_view(),
        }
    }
}

impl View for LocalHomepageRuntime {
    type V = LocalHomepageRuntimeView;

    open spec fn view(&self) -> LocalHomepageRuntimeView {
        self.deep_view()
    }
}

/// Everything an observer is shown, at one point in time.
#[derive(Debug, Clone, PartialEq, Eq)]
pub struct AppSnapshot {
    pub settings: AppSettings,
    pub cache: RuntimeCache,
    pub current_ipv6: Option<String>,
    pub interfaces: Vec<InterfaceInfo>,
    pub has_token: bool,
    pub linux_theme_hint: Option<ThemeMode>,
    pub local_homepage: LocalHomepageRuntime,
}

/// The mathematical value of a [`AppSnapshot`].
pub struct AppSnapshotView {
    pub settings: AppSettingsView,
    pub cache: RuntimeCacheView,
    pub current_ipv6: Option<Seq<char>>,
    pub interfaces: Seq<InterfaceInfoView>,
    pub has_token: bool,
    pub linux_theme_hint: Option<ThemeMode>,
    pub local_homepage: LocalHomepageRuntimeView,
}

impl DeepView for AppSnapshot {
    type V = AppSnapshotView;

    open spec fn deep_view(&self) -> AppSnapshotView {
        AppSnapshotView {
            settings: self.settings.deep_view(),
            cache: self.cache.deep_view(),
            current_ipv6: self.current_ipv6.deep_view(),
            interfaces: self.interfaces.deep_view(),
            has_token: self.has_token.deep_view(),
            linux_theme_hint: self.linux_theme_hint.deep_view(),
            local_homepage: self.local_homepage.deep_view(),
        }
    }
}

impl View for AppSnapshot {
    type V = AppSnapshotView;

    open spec fn view(&self) -> AppSnapshotView {
        self.deep_view()
    }
}

/// A request to replace the settings and, optionally, the API token.
#[derive(Debug, Clone, PartialEq, Eq)]
pub struct SaveSettingsRequest {
    pub settings: AppSettings,
    pub api_token: Option<String>,
    pub clear_token: bool,
}

/// The mathematical value of a [`SaveSettingsRequest`].
pub struct SaveSettingsRequestView {
    pub settings: AppSettingsView,
    pub api_token: Option<Seq<char>>,
    pub clear_token: bool,
}

impl DeepView for SaveSettingsRequest {
    type V = SaveSettingsRequestView;

    open spec fn deep_view(&self) -> SaveSettingsRequestView {
        SaveSettingsRequestView {
            settings: self.settings.deep_view(),
            api_token: self.api_token.deep_view(),
            clear_token: self.clear_token.deep_view(),
        }
    }
}

impl View for SaveSettingsRequest {
    type V = SaveSettingsRequestView;

    open spec fn view(&self) -> SaveSettingsRequestView {
        self.deep_view()
    }
}

/// A request to look up the record's id for a zone and a name.
#[derive(Debug, Clone, PartialEq, Eq)]
pub struct LookupRecordIdRequest {
    pub zone_id: String,
    pub domain: String,
}

/// The mathematical value of a [`LookupRecordIdRequest`].
pub struct LookupRecordIdRequestView {
    pub zone_id: Seq<char>,
    pub domain: Seq<char>,
}

impl DeepView for LookupRecordIdRequest {
    type V = LookupRecordIdRequestView;

    open spec fn deep_view(&self) -> LookupRecordIdRequestView {
        LookupRecordIdRequestView {
            zone_id: self.zone_id.deep_view(),
            domain: self.domain.deep_view(),
        }
    }
}

impl View for LookupRecordIdRequest {
    type V = LookupRecordIdRequestView;

    open spec fn view(&self) -> LookupRecordIdRequestView {
        self.deep_view()
    }
}


impl Default for LocalHomepageSettings {
    fn default() -> (r: Self)
        ensures
            r@ == (LocalHomepageSettingsView { web_port: 8080, services: Seq::empty() }),
    {
        let r = LocalHomepageSettings { web_port: default_local_homepage_port(), services: Vec::new() };
        assert(r@.services =~= Seq::empty());
        r
    }
}

/// The settings of a first start: every interface is a candidate, changes
/// are pushed automatically, and no record is configured yet.
pub open spec fn initial_settings() -> AppSettingsView {
    AppSettingsView {
        selected_interface: None,
        auto_push: true,
        launch_on_startup: false,
        lightweight_mode: false,
        follow_system_theme: true,
        theme_mode: ThemeMode::Light,
        language_mode: LanguageMode::System,
        cloudflare: CloudflareSettingsView {
            zone_id: Seq::empty(),
            domain: Seq::empty(),
            record_id: Seq::empty(),
            ttl: None,
        },
        local_homepage: LocalHomepageSettingsView { web_port: 8080, services: Seq::empty() },
    }
}

impl Default for AppSettings {
    fn default() -> (r: Self)
        ensures
            r@ == initial_settings(),
    {
        AppSettings {
            selected_interface: None,
            auto_push: true,
            launch_on_startup: false,
            lightweight_mode: false,
            follow_system_theme: true,
            theme_mode: ThemeMode::Light,
            language_mode: LanguageMode::System,
            cloudflare: CloudflareSettings {
                zone_id: String::new(),
                domain: String::new(),
                record_id: String::new(),
                ttl: None,
            },
            local_homepage: LocalHomepageSettings::default(),
        }
    }
}

/// The status before any attempt.
pub open spec fn idle_status() -> SyncStatusView {
    SyncStatusView { kind: SyncStatusKind::Idle, message: None }
}

impl Default for SyncStatus {
    fn default() -> (r: Self)
        ensures
            r@ == idle_status(),
    {
        SyncStatus { kind: SyncStatusKind::Idle, message: None }
    }
}

/// The cache of a first start: nothing observed, nothing attempted.
pub open spec fn empty_cache() -> RuntimeCacheView {
    RuntimeCacheView {
        last_known_ipv6: None,
        last_ipv6_change_time: None,
        last_sync_time: None,
        last_sync_status: idle_status(),
    }
}

impl Default for RuntimeCache {
    fn default() -> (r: Self)
        ensures
            r@ == empty_cache(),
    {
        RuntimeCache {
            last_known_ipv6: None,
            last_ipv6_change_time: None,
            last_sync_time: None,
            last_sync_status: SyncStatus::default(),
        }
    }
}

impl Default for AppConfig {
    fn default() -> (r: Self)
        ensures
            r@ == (AppConfigView { settings: initial_settings(), cache: empty_cache() }),
    {
        AppConfig { settings: AppSettings::default(), cache: RuntimeCache::default() }
    }
}

impl SyncStatus {
    /// A status of the same value.
    pub fn copy(&self) -> (r: Self)
        ensures
            r@ == self@,
    {
        SyncStatus { kind: self.kind, message: copy_optional_text(&self.message) }
    }
}

impl RuntimeCache {
    /// A cache of the same value.
    pub fn copy(&self) -> (r: Self)
        ensures
            r@ == self@,
    {
        RuntimeCache {
            last_known_ipv6: copy_optional_text(&self.last_known_ipv6),
            last_ipv6_change_time: copy_optional_text(&self.last_ipv6_change_time),
            last_sync_time: copy_optional_text(&self.last_sync_time),
            last_sync_status: self.last_sync_status.copy(),
        }
    }
}

impl ServiceModel {
    /// A service of the same value.
    pub fn copy(&self) -> (r: Self)
        ensures
            r@ == self@,
    {
        ServiceModel {
            id: self.id.clone(),
            name: self.name.clone(),
            port: self.port,
            icon: self.icon.clone(),
            description: self.description.clone(),
            preset_type: self.preset_type.clone(),
        }
    }
}

impl CloudflareSettings {
    /// Settings of the same value.
    pub fn copy(&self) -> (r: Self)
        ensures
            r@ == self@,
    {
        CloudflareSettings {
            zone_id: self.zone_id.clone(),
            domain: self.domain.clone(),
            record_id: self.record_id.clone(),
            ttl: self.ttl,
        }
    }
}

impl LocalHomepageSettings {
    /// Settings of the same value.
    pub fn copy(&self) -> (r: Self)
        ensures
            r@ == self@,
    {
        let mut services: Vec<ServiceModel> = Vec::new();
        let mut i: usize = 0;
        while i < self.services.len()
            invariant
                i <= self.services.len(),
                services.len() == i,
                forall|k: int| 0 <= k < i ==> (#[trigger] services@[k])@ == self.services@[k]@,
            decreases self.services.len() - i,
        {
            services.push(self.services[i].copy());
            i += 1;
        }
        assert(services.deep_view() =~= self.services.deep_view());
        LocalHomepageSettings { web_port: self.web_port, services }
    }
}

impl AppSettings {
    /// Settings of the same value.
    pub fn copy(&self) -> (r: Self)
        ensures
            r@ == self@,
    {
        AppSettings {
            selected_interface: copy_optional_text(&self.selected_interface),
            auto_push: self.auto_push,
            launch_on_startup: self.launch_on_startup,
            lightweight_mode: self.lightweight_mode,
            follow_system_theme: self.follow_system_theme,
            theme_mode: self.theme_mode,
            language_mode: self.language_mode,
            cloudflare: self.cloudflare.copy(),
            local_homepage: self.local_homepage.copy(),
        }
    }
}

impl InterfaceInfo {
    /// An interface of the same value.
    pub fn copy(&self) -> (r: Self)
        ensures
            r@ == self@,
    {
        let mut ipv6_addresses: Vec<String> = Vec::new();
        let mut i: usize = 0;
        while i < self.ipv6_addresses.len()
            invariant
                i <= self.ipv6_addresses.len(),
                ipv6_addresses.len() == i,
                forall|k: int|
                    0 <= k < i ==> (#[trigger] ipv6_addresses@[k])@ == self.ipv6_addresses@[k]@,
            decreases self.ipv6_addresses.len() - i,
        {
            ipv6_addresses.push(self.ipv6_addresses[i].clone());
            i += 1;
        }
        assert(ipv6_addresses.deep_view() =~= self.ipv6_addresses.deep_view());
        InterfaceInfo {
            id: self.id.clone(),
            label: self.label.clone(),
            mac_address: copy_optional_text(&self.mac_address),
            ipv6_addresses,
            link_speed_mbps: self.link_speed_mbps,
        }
    }
}

} // verus!
