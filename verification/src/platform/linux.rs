//! Linux: the theme hint of the desktop.

use crate::models::ThemeMode;
use crate::text::{contains_text, text_contains, to_lowercase, unicode_lowercase};
use vstd::prelude::*;

verus! {

/// The theme that a theme's name in lower case stands for: dark where the
/// name holds the word, light for any other name, none for the empty name.
pub open spec fn theme_of_lowercase(lower: Seq<char>) -> Option<ThemeMode> {
    if contains_text(lower, "dark"@) {
        Some(ThemeMode::Dark)
    } else if lower.len() > 0 {
        Some(ThemeMode::Light)
    } else {
        None
    }
}

/// The theme that the name of the GTK theme stands for, if one is set.
pub open spec fn theme_hint(gtk_theme: Option<Seq<char>>) -> Option<ThemeMode> {
    match gtk_theme {
        Some(theme) => theme_of_lowercase(unicode_lowercase(theme)),
        None => None,
    }
}

/// The theme that a theme's name stands for, the name given in lower case.
pub fn theme_from_lowercase(lower: &str) -> (r: Option<ThemeMode>)
    ensures
        r == theme_of_lowercase(lower@),
{
    if text_contains(lower, "dark") {
        return Some(ThemeMode::Dark);
    }
    if !lower.is_empty() {
        return Some(ThemeMode::Light);
    }
    None
}

/// The theme that the desktop suggests, from the name of the GTK theme as
/// the environment gives it.
pub fn detect_theme_hint(gtk_theme: Option<&str>) -> (r: Option<ThemeMode>)
    ensures
        r == theme_hint(
            match gtk_theme {
                Some(theme) => Some(theme@),
                None => None,
            },
        ),
{
    match gtk_theme {
        Some(theme) => {
            let lower = to_lowercase(theme);
            theme_from_lowercase(lower.as_str())
        },
        None => None,
    }
}

} // verus!
