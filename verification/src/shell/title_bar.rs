//! Title-bar accessibility text.

use vstd::prelude::*;

verus! {

/// Announced name for the icon-only search button, matching the platform's
/// search shortcut ("Cmd" on macOS, "Super" elsewhere).
pub fn search_a11y_label(macos: bool) -> (r: &'static str)
    ensures
        r@ == if macos {
            "Search (Cmd+K)"@
        } else {
            "Search (Super+K)"@
        },
{
    if macos {
        "Search (Cmd+K)"
    } else {
        "Search (Super+K)"
    }
}

} // verus!
