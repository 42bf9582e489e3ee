//! The entry points: from the caller's flags to the text to evaluate.

use crate::script::{emit, emitted_text};
use crate::toggles::{binds_ctrl_r, binds_up_arrow, resolve};
use core::convert::Infallible;
use vstd::prelude::*;

verus! {

/// The text that `init_static` builds: the output for the bindings that the
/// flags and the override resolve to.
pub open spec fn init_static_text(
    asset: Seq<char>,
    override_present: bool,
    disable_up_arrow: bool,
    disable_ctrl_r: bool,
) -> Seq<char> {
    emitted_text(
        asset,
        binds_ctrl_r(disable_ctrl_r, override_present),
        binds_up_arrow(disable_up_arrow, override_present),
    )
}

/// Builds the integration text for PowerShell: resolves the two bindings,
/// then emits `asset` followed by the configuration statement.
pub fn init_static(
    asset: &str,
    override_present: bool,
    disable_up_arrow: bool,
    disable_ctrl_r: bool,
) -> (out: String)
    ensures
        out@ == init_static_text(asset@, override_present, disable_up_arrow, disable_ctrl_r),
        asset@.is_prefix_of(out@),
        out@.len() > asset@.len(),
{
    let (bind_ctrl_r, bind_up_arrow) = resolve(disable_up_arrow, disable_ctrl_r, override_present);
    emit(asset, bind_ctrl_r, bind_up_arrow)
}

/// The entry point with the signature shared by every shell's initializer.
///
/// Aliases and variables are not supported for PowerShell yet: the two stores
/// are accepted and not consulted. The call always succeeds, with the text
/// that `init_static` builds from the same flags.
pub fn init<A, V>(
    _aliases: A,
    _vars: V,
    asset: &str,
    override_present: bool,
    disable_up_arrow: bool,
    disable_ctrl_r: bool,
) -> (result: Result<String, Infallible>)
    ensures
        result is Ok,
        result->Ok_0@ == init_static_text(
            asset@,
            override_present,
            disable_up_arrow,
            disable_ctrl_r,
        ),
{
    Ok(init_static(asset, override_present, disable_up_arrow, disable_ctrl_r))
}

/// Repeating a call changes nothing: two outputs built from the same base
/// script, override and flags are the same text.
pub proof fn lemma_init_static_is_repeatable(
    asset: Seq<char>,
    override_present: bool,
    disable_up_arrow: bool,
    disable_ctrl_r: bool,
    first: Seq<char>,
    second: Seq<char>,
)
    requires
        first == init_static_text(asset, override_present, disable_up_arrow, disable_ctrl_r),
        second == init_static_text(asset, override_present, disable_up_arrow, disable_ctrl_r),
    ensures
        first == second,
{
}

} // verus!
