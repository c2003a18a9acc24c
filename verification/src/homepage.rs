//! The local homepage: under which host and addresses the services of this
//! machine are offered, and on which port the page itself is served.

use crate::models::{
    AppConfig, LocalHomepageRuntime, LocalHomepageRuntimeView, LocalHomepageSettings, ServiceModel,
    ServiceModelView, ServiceRuntimeModel, ServiceRuntimeModelView,
};
use crate::text::{decimal, decimal_text, joined, same_text, trim_text, trimmed};
use vstd::prelude::*;
use vstd::string::StringExecFns;

verus! {

/// The port that is tried where the configured one cannot be bound.
pub const LOCAL_HOMEPAGE_FALLBACK_PORT: u16 = 8787;

/// The host under which this machine is offered: the record's name where
/// one is configured, else the IPv4 address of outbound traffic, else the
/// chosen IPv6 address, else the loopback address.
pub open spec fn share_host(
    domain: Seq<char>,
    outbound_ipv4: Option<Seq<char>>,
    current_ipv6: Option<Seq<char>>,
) -> Seq<char> {
    if trimmed(domain).len() > 0 {
        trimmed(domain)
    } else {
        match outbound_ipv4 {
            Some(ipv4) => ipv4,
            None => match current_ipv6 {
                Some(ipv6) => ipv6,
                None => "127.0.0.1"@,
            },
        }
    }
}

/// The host under which this machine is offered, given the address of
/// outbound IPv4 traffic and the chosen IPv6 address as far as they are known.
pub fn preferred_share_host(
    config: &AppConfig,
    outbound_ipv4: Option<String>,
    current_ipv6: Option<String>,
) -> (host: String)
    ensures
        host@ == share_host(
            config.settings.cloudflare.domain@,
            outbound_ipv4.deep_view(),
            current_ipv6.deep_view(),
        ),
{
    let domain = trim_text(config.settings.cloudflare.domain.as_str());
    if !domain.is_empty() {
        return domain.to_owned();
    }
    if let Some(ipv4) = outbound_ipv4 {
        return ipv4;
    }
    if let Some(ipv6) = current_ipv6 {
        return ipv6;
    }
    "127.0.0.1".to_owned()
}

/// The record's name as the homepage shows it: none where it is blank.
pub fn push_domain(config: &AppConfig) -> (domain: Option<String>)
    ensures
        domain.deep_view() == if trimmed(config.settings.cloudflare.domain@).len() == 0 {
            None
        } else {
            Some(trimmed(config.settings.cloudflare.domain@))
        },
{
    let value = trim_text(config.settings.cloudflare.domain.as_str());
    if value.is_empty() {
        None
    } else {
        Some(value.to_owned())
    }
}

/// The scheme under which a service of the given kind is addressed, where
/// the kind has one.
pub open spec fn scheme_of(preset_type: Seq<char>) -> Option<Seq<char>> {
    if preset_type == "SMB"@ {
        Some("smb://"@)
    } else if preset_type == "HTTP"@ {
        Some("http://"@)
    } else if preset_type == "HTTPS"@ {
        Some("https://"@)
    } else if preset_type == "FTP"@ {
        Some("ftp://"@)
    } else if preset_type == "SSH"@ {
        Some("ssh://"@)
    } else if preset_type == "RDP"@ {
        Some("rdp://"@)
    } else {
        None
    }
}

/// The scheme under which a service of the given kind is addressed.
pub fn can_use_scheme(preset_type: &str) -> (r: Option<&'static str>)
    ensures
        match r {
            Some(scheme) => scheme_of(preset_type@) == Some(scheme@),
            None => scheme_of(preset_type@) is None,
        },
{
    if same_text(preset_type, "SMB") {
        Some("smb://")
    } else if same_text(preset_type, "HTTP") {
        Some("http://")
    } else if same_text(preset_type, "HTTPS") {
        Some("https://")
    } else if same_text(preset_type, "FTP") {
        Some("ftp://")
    } else if same_text(preset_type, "SSH") {
        Some("ssh://")
    } else if same_text(preset_type, "RDP") {
        Some("rdp://")
    } else {
        None
    }
}

/// The address under which a service is offered on a host: the scheme of
/// its kind, if any, then the host, a colon and the port.
pub open spec fn share_url(preset_type: Seq<char>, port: u16, host: Seq<char>) -> Seq<char> {
    match scheme_of(preset_type) {
        Some(scheme) => scheme + host + ":"@ + decimal(port as nat),
        None => host + ":"@ + decimal(port as nat),
    }
}

/// The address under which a service is offered on a host.
pub fn build_share_url(service: &ServiceModel, host: &str) -> (url: String)
    ensures
        url@ == share_url(service.preset_type@, service.port, host@),
{
    let mut url = match can_use_scheme(service.preset_type.as_str()) {
        Some(scheme) => joined(scheme, host),
        None => host.to_owned(),
    };
    url.append(":");
    let port = decimal_text(service.port as u64);
    url.append(port.as_str());
    url
}

/// A listed service with whether it answers and where it is offered.
pub open spec fn runtime_model(service: ServiceModelView, is_online: bool, host: Seq<char>)
    -> ServiceRuntimeModelView {
    ServiceRuntimeModelView {
        id: service.id,
        name: service.name,
        port: service.port,
        icon: service.icon,
        description: service.description,
        preset_type: service.preset_type,
        is_online,
        share_url: share_url(service.preset_type, service.port, host),
    }
}

/// The listed services, each with whether it answers: `online` holds one
/// answer for each service, in order, and a service without an answer counts
/// as not answering.
pub open spec fn runtime_models(services: Seq<ServiceModelView>, online: Seq<bool>, host: Seq<char>)
    -> Seq<ServiceRuntimeModelView> {
    Seq::new(
        services.len(),
        |i: int| runtime_model(services[i], i < online.len() && online[i], host),
    )
}

/// The listed services with whether each answers and where it is offered.
pub fn build_service_runtime_models(
    services: &Vec<ServiceModel>,
    online: &Vec<bool>,
    preferred_host: &str,
) -> (models: Vec<ServiceRuntimeModel>)
    ensures
        models.deep_view() == runtime_models(services.deep_view(), online@, preferred_host@),
{
    let mut models: Vec<ServiceRuntimeModel> = Vec::new();
    let mut i: usize = 0;
    while i < services.len()
        invariant
            i <= services.len(),
            models.len() == i,
            forall|k: int|
                0 <= k < i ==> (#[trigger] models@[k])@ == runtime_model(
                    services@[k]@,
                    k < online.len() && online@[k],
                    preferred_host@,
                ),
        decreases services.len() - i,
    {
        let service = &services[i];
        let is_online = i < online.len() && online[i];
        models.push(
            ServiceRuntimeModel {
                id: service.id.clone(),
                name: service.name.clone(),
                port: service.port,
                icon: service.icon.clone(),
                description: service.description.clone(),
                preset_type: service.preset_type.clone(),
                is_online,
                share_url: build_share_url(service, preferred_host),
            },
        );
        i += 1;
    }
    assert(models.deep_view() =~= runtime_models(services.deep_view(), online@, preferred_host@));
    models
}

/// The port that is shown: the one that is bound while the page is served,
/// the configured one while it is not.
pub open spec fn shown_port(running: bool, bound_port: u16, configured_port: u16) -> u16 {
    if running {
        bound_port
    } else {
        configured_port
    }
}

/// The address of the homepage on a host and a port.
pub open spec fn web_url(host: Seq<char>, port: u16) -> Seq<char> {
    "http://"@ + host + ":"@ + decimal(port as nat) + "/homepage.html"@
}

/// The homepage as it runs.
pub open spec fn runtime_of(
    settings: crate::models::LocalHomepageSettingsView,
    running: bool,
    bound_port: u16,
    host: Seq<char>,
    online: Seq<bool>,
) -> LocalHomepageRuntimeView {
    LocalHomepageRuntimeView {
        running,
        web_port: shown_port(running, bound_port, settings.web_port),
        web_url: web_url(host, shown_port(running, bound_port, settings.web_port)),
        preferred_host: host,
        services: runtime_models(settings.services, online, host),
    }
}

/// What is shown of the homepage, given whether it is served, the port it
/// is bound to, the host under which the machine is offered, and which of the
/// services answer.
pub fn homepage_runtime(
    settings: &LocalHomepageSettings,
    running: bool,
    bound_port: u16,
    preferred_host: String,
    online: &Vec<bool>,
) -> (runtime: LocalHomepageRuntime)
    ensures
        runtime@ == runtime_of(settings@, running, bound_port, preferred_host@, online@),
{
    let web_port = if running {
        bound_port
    } else {
        settings.web_port
    };
    let services = build_service_runtime_models(
        &settings.services,
        online,
        preferred_host.as_str(),
    );
    let mut web_url = joined("http://", preferred_host.as_str());
    web_url.append(":");
    let port = decimal_text(web_port as u64);
    web_url.append(port.as_str());
    web_url.append("/homepage.html");
    LocalHomepageRuntime { running, web_port, web_url, preferred_host, services }
}

/// The port on which the page is served first: the configured one, or the
/// default where none is configured.
pub fn primary_listen_port(configured: u16) -> (port: u16)
    ensures
        port == if configured == 0 {
            8080
        } else {
            configured
        },
{
    if configured == 0 {
        8080
    } else {
        configured
    }
}

/// The port that is tried after the first could not be bound: the fallback
/// port, unless that was the first.
pub fn fallback_listen_port(primary: u16) -> (port: Option<u16>)
    ensures
        port == if primary != LOCAL_HOMEPAGE_FALLBACK_PORT {
            Some(LOCAL_HOMEPAGE_FALLBACK_PORT)
        } else {
            None
        },
{
    if primary != LOCAL_HOMEPAGE_FALLBACK_PORT {
        Some(LOCAL_HOMEPAGE_FALLBACK_PORT)
    } else {
        None
    }
}

} // verus!
