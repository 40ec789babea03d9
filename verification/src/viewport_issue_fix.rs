//! Workaround for the multi-viewport flag being reset after the first frame.
//!
//! The native render pipeline clears the multi-viewport bit of the
//! configuration flags on its side after the first frame, while the
//! binding's side keeps it. Window creation and destruction callbacks then
//! stop firing when a window is dragged outside the main window.
//!
//! The workaround is to restore the bit on both sides before every frame:
//! once after creating the context (the native library requires the bit to
//! be set before the first frame), and again before each later frame.

use crate::context::{viewports_enabled, Context, CONFIG_FLAGS_VIEWPORTS_ENABLE};
use vstd::prelude::*;

verus! {

/// True when the binding's side expects multi-viewport support but the
/// native side has lost the bit: the state the defect leaves behind.
pub open spec fn viewport_issue_present(ctx: Context) -> bool {
    viewports_enabled(ctx.io.config_flags) && !viewports_enabled(ctx.native_config_flags)
}

/// Setting the multi-viewport bit in a flags word leaves it set.
proof fn lemma_or_sets_viewports_bit(flags: u32)
    by (bit_vector)
    ensures
        (flags | 0x400u32) & 0x400u32 != 0,
{
}

/// Apply the viewport fix: set the multi-viewport bit on both the binding's
/// and the native side, so that the two agree again and the native library
/// keeps driving the viewport callbacks. Nothing else of the context is
/// touched. Call it after creating the context and before each frame.
pub fn apply_viewport_fix(ctx: &mut Context)
    ensures
        final(ctx).io.config_flags == old(ctx).io.config_flags | CONFIG_FLAGS_VIEWPORTS_ENABLE,
        final(ctx).native_config_flags == old(ctx).native_config_flags
            | CONFIG_FLAGS_VIEWPORTS_ENABLE,
        viewports_enabled(final(ctx).io.config_flags),
        viewports_enabled(final(ctx).native_config_flags),
        !viewport_issue_present(*final(ctx)),
        final(ctx).platform_io == old(ctx).platform_io,
{
    ctx.io.config_flags = ctx.io.config_flags | CONFIG_FLAGS_VIEWPORTS_ENABLE;
    ctx.native_config_flags = ctx.native_config_flags | CONFIG_FLAGS_VIEWPORTS_ENABLE;
    proof {
        lemma_or_sets_viewports_bit(old(ctx).io.config_flags);
        lemma_or_sets_viewports_bit(old(ctx).native_config_flags);
    }
}

/// Check if the viewport issue is affecting this context: true exactly when
/// the binding's side expects multi-viewport support but the native side
/// has lost the bit.
pub fn is_viewport_issue_present(ctx: &Context) -> (r: bool)
    ensures
        r == viewport_issue_present(*ctx),
{
    let native_has_flag = ctx.native_config_flags & CONFIG_FLAGS_VIEWPORTS_ENABLE != 0;
    let binding_expects_flag = ctx.io.config_flags & CONFIG_FLAGS_VIEWPORTS_ENABLE != 0;
    binding_expects_flag && !native_has_flag
}

/// Initialize viewport support with automatic fix application: enables the
/// multi-viewport bit on both sides, exactly as [`apply_viewport_fix`]
/// does, and returns a closure that reapplies the fix. The closure can be
/// called on any context and does to it what [`apply_viewport_fix`] does;
/// call it before each frame, since the native render pipeline clears the
/// bit again.
pub fn initialize_viewport_support_with_fix(ctx: &mut Context) -> (fix: impl FnMut(&mut Context))
    ensures
        final(ctx).io.config_flags == old(ctx).io.config_flags | CONFIG_FLAGS_VIEWPORTS_ENABLE,
        final(ctx).native_config_flags == old(ctx).native_config_flags
            | CONFIG_FLAGS_VIEWPORTS_ENABLE,
        !viewport_issue_present(*final(ctx)),
        final(ctx).platform_io == old(ctx).platform_io,
        forall|c: &mut Context| #[trigger] call_requires(fix, (c,)),
        forall|c: &mut Context, r: ()| #[trigger] call_ensures(fix, (c,), r) ==> {
            &&& mut_ref_future(c).io.config_flags == mut_ref_current(c).io.config_flags
                | CONFIG_FLAGS_VIEWPORTS_ENABLE
            &&& mut_ref_future(c).native_config_flags == mut_ref_current(c).native_config_flags
                | CONFIG_FLAGS_VIEWPORTS_ENABLE
            &&& !viewport_issue_present(mut_ref_future(c))
            &&& mut_ref_future(c).platform_io == mut_ref_current(c).platform_io
        },
{
    apply_viewport_fix(ctx);
    move |c: &mut Context|
        ensures
            final(c).io.config_flags == old(c).io.config_flags | CONFIG_FLAGS_VIEWPORTS_ENABLE,
            final(c).native_config_flags == old(c).native_config_flags
                | CONFIG_FLAGS_VIEWPORTS_ENABLE,
            !viewport_issue_present(*final(c)),
            final(c).platform_io == old(c).platform_io,
        {
            apply_viewport_fix(c);
        }
}

} // verus!
