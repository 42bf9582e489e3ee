//! Which key bindings to install.
//!
//! Each binding is installed unless its own flag disables it, and the global
//! override, when present, switches both off whatever the flags say.

use vstd::prelude::*;

verus! {

/// Whether the Ctrl-R binding is installed.
pub open spec fn binds_ctrl_r(disable_ctrl_r: bool, override_present: bool) -> bool {
    !override_present && !disable_ctrl_r
}

/// Whether the up-arrow binding is installed.
pub open spec fn binds_up_arrow(disable_up_arrow: bool, override_present: bool) -> bool {
    !override_present && !disable_up_arrow
}

/// Resolves the two key bindings, returned as `(bind_ctrl_r, bind_up_arrow)`.
///
/// `override_present` says that the global "no-bind" signal is set; only its
/// presence counts, never its value.
pub fn resolve(disable_up_arrow: bool, disable_ctrl_r: bool, override_present: bool) -> (toggles: (
    bool,
    bool,
))
    ensures
        toggles.0 == binds_ctrl_r(disable_ctrl_r, override_present),
        toggles.1 == binds_up_arrow(disable_up_arrow, override_present),
        override_present ==> toggles == (false, false),
        !override_present ==> toggles == (!disable_ctrl_r, !disable_up_arrow),
{
    if override_present {
        (false, false)
    } else {
        (!disable_ctrl_r, !disable_up_arrow)
    }
}

} // verus!
