//! Integration test demonstrating the viewport workaround across frames.

use viewport_fixes::context::{Context, CONFIG_FLAGS_VIEWPORTS_ENABLE};
use viewport_fixes::monitor_init_fix::init_single_monitor;
use viewport_fixes::viewport_issue_fix::apply_viewport_fix;

#[test]
fn test_viewport_workaround() {
    // Create context
    let mut ctx = Context::new();

    // Initialize a monitor, as viewport support requires
    init_single_monitor(&mut ctx, 1280, 720, 100);

    // Apply workaround BEFORE first frame
    apply_viewport_fix(&mut ctx);

    // Verify the workaround maintains the flag
    for i in 0..3 {
        // Apply fix before each frame
        apply_viewport_fix(&mut ctx);

        // Verify flag is set
        assert!(
            ctx.io.config_flags & CONFIG_FLAGS_VIEWPORTS_ENABLE != 0,
            "Frame {}: Flag should be set",
            i
        );

        // The native render pipeline clears the bit on its side
        ctx.native_config_flags &= !CONFIG_FLAGS_VIEWPORTS_ENABLE;
    }

    // The workaround successfully maintains viewport support
    assert!(
        ctx.io.config_flags & CONFIG_FLAGS_VIEWPORTS_ENABLE != 0,
        "Flag should still be set after multiple frames"
    );

    println!("Viewport workaround test passed!");
}
