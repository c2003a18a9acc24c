//! macOS: the desktop gives no theme hint.

use crate::models::ThemeMode;
use vstd::prelude::*;

verus! {

/// No hint.
pub fn detect_theme_hint() -> (r: Option<ThemeMode>)
    ensures
        r is None,
{
    None
}

} // verus!
