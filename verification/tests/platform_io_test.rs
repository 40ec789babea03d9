//! Tests for the platform IO picture: viewports and their draw data.

use viewport_fixes::context::Context;
use viewport_fixes::platform_io::{DrawData, Viewport, MAIN_VIEWPORT_ID};

fn plain_viewport(id: u32) -> Viewport {
    Viewport {
        id,
        flags: 0,
        pos: [0, 0],
        size: [1280, 720],
        work_pos: [0, 0],
        work_size: [1280, 720],
        dpi_scale: 100,
        parent_viewport_id: 0,
        draw_data: None,
        platform_handle: 0,
        platform_window_created: false,
        platform_request_move: false,
        platform_request_resize: false,
        platform_request_close: false,
    }
}

#[test]
fn test_viewport_is_main() {
    // Test that main viewport is correctly identified
    let main_viewport = plain_viewport(MAIN_VIEWPORT_ID);
    assert!(main_viewport.is_main());
    assert_eq!(main_viewport.id, 0x11111111);

    // A viewport with any other ID is not the main one
    let secondary = plain_viewport(2);
    assert!(!secondary.is_main());
}

#[test]
fn test_viewport_draw_data_null_safety() {
    let mut ctx = Context::new();
    ctx.platform_io.viewports.push(plain_viewport(MAIN_VIEWPORT_ID));
    ctx.platform_io.viewports.push(plain_viewport(2));

    // Without rendering, viewports have no draw data
    // This test ensures draw_data() doesn't panic on null pointers
    for viewport in &ctx.platform_io.viewports {
        let draw_data = viewport.draw_data();
        assert!(draw_data.is_none());
    }
}

#[test]
fn test_viewport_draw_data_present() {
    let mut viewport = plain_viewport(2);
    viewport.draw_data = Some(DrawData { valid: true });

    let draw_data = viewport.draw_data();
    assert!(draw_data.is_some());
    assert!(draw_data.unwrap().valid);
}

#[test]
fn test_viewport_iteration() {
    let mut ctx = Context::new();
    ctx.platform_io.viewports.push(plain_viewport(MAIN_VIEWPORT_ID));

    // At minimum, there should be one viewport (the main viewport)
    let viewport_count = ctx.platform_io.viewports.iter().count();
    assert!(viewport_count >= 1);

    // The main viewport should be in the iteration
    let has_main = ctx.platform_io.viewports.iter().any(|vp| vp.is_main());
    assert!(has_main);
}

#[test]
fn test_fresh_context_state() {
    let ctx = Context::new();
    assert_eq!(ctx.io.config_flags, 0);
    assert_eq!(ctx.native_config_flags, 0);
    assert!(ctx.platform_io.monitors.is_empty());
    assert!(ctx.platform_io.viewports.is_empty());
}
