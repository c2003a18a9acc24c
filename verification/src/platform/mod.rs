//! What differs between the operating systems.

use crate::models::ThemeMode;
use vstd::prelude::*;

pub mod linux;
pub mod macos;
pub mod windows;

verus! {

/// The operating system that the application runs on.
#[derive(Clone, Copy, Debug, PartialEq, Eq, Structural)]
pub enum Platform {
    Linux,
    Macos,
    Windows,
}

/// The theme that the desktop suggests. Only Linux gives a hint, through the
/// name of the GTK theme.
pub fn detect_theme_hint(platform: Platform, gtk_theme: Option<&str>) -> (r: Option<ThemeMode>)
    ensures
        r == match platform {
            Platform::Linux => linux::theme_hint(
                match gtk_theme {
                    Some(theme) => Some(theme@),
                    None => None,
                },
            ),
            Platform::Macos => None,
            Platform::Windows => None,
        },
{
    match platform {
        Platform::Linux => linux::detect_theme_hint(gtk_theme),
        Platform::Macos => macos::detect_theme_hint(),
        Platform::Windows => windows::detect_theme_hint(),
    }
}

} // verus!
