//! The rules that a configuration is held to before it is used or stored.

use crate::models::{AppConfig, AppConfigView, AppSettingsView, LocalHomepageSettingsView};
use vstd::prelude::*;

verus! {

/// The port on which the homepage is served where the configured one cannot
/// be used.
pub const DEFAULT_WEB_PORT: u16 = 8080;

/// The port that a configured port stands for: 0 and 80 stand for the
/// default port.
pub open spec fn normal_port(port: u16) -> u16 {
    if port == 0 || port == 80 {
        DEFAULT_WEB_PORT
    } else {
        port
    }
}

/// A configuration with its homepage port made normal and nothing else
/// changed.
pub open spec fn normalized(config: AppConfigView) -> AppConfigView {
    AppConfigView {
        settings: AppSettingsView {
            local_homepage: LocalHomepageSettingsView {
                web_port: normal_port(config.settings.local_homepage.web_port),
                ..config.settings.local_homepage
            },
            ..config.settings
        },
        ..config
    }
}

/// Makes a configuration normal: a homepage port that cannot be used becomes
/// the default port.
pub fn normalize(config: &mut AppConfig)
    ensures
        final(config)@ == normalized(old(config)@),
{
    if config.settings.local_homepage.web_port == 0 || config.settings.local_homepage.web_port
        == 80 {
        config.settings.local_homepage.web_port = DEFAULT_WEB_PORT;
    }
}

} // verus!
