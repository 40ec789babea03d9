//! Workaround for the missing monitor initialization in platform backends.
//!
//! Backends leave the monitor list of the platform IO empty, and the native
//! library asserts ("Platform init didn't setup Monitors list?") on an
//! empty list as soon as multi-viewport support is enabled. The functions
//! here fill, clear and inspect that list. Call [`init_monitors`] or
//! [`init_single_monitor`] after enabling viewports and before the first
//! frame.

use crate::context::Context;
use crate::platform_io::PlatformMonitor;
use vstd::prelude::*;

verus! {

/// Monitor data for initialization: what the caller knows of one monitor of
/// the windowing system. Positions and sizes are in pixels; `dpi_scale` is
/// the scale factor in hundredths (100 is a scale of one).
#[derive(Clone, Copy, Debug)]
pub struct MonitorData {
    /// Position of the monitor on the virtual desktop.
    pub position: [i32; 2],
    /// Size of the monitor.
    pub size: [i32; 2],
    /// Working position (excluding taskbar or dock).
    pub work_pos: [i32; 2],
    /// Working size (excluding taskbar or dock).
    pub work_size: [i32; 2],
    /// DPI scale factor in hundredths.
    pub dpi_scale: u32,
}

impl Default for MonitorData {
    /// A primary monitor of 1920 by 1080 pixels at the desktop origin, with
    /// the whole area usable and a DPI scale of one.
    fn default() -> (d: Self)
        ensures
            d.position == [0i32, 0i32],
            d.size == [1920i32, 1080i32],
            d.work_pos == [0i32, 0i32],
            d.work_size == [1920i32, 1080i32],
            d.dpi_scale == 100,
    {
        MonitorData {
            position: [0, 0],
            size: [1920, 1080],
            work_pos: [0, 0],
            work_size: [1920, 1080],
            dpi_scale: 100,
        }
    }
}

/// The platform IO entry that [`init_monitors`] writes for one monitor: the
/// same geometry and scale, and no backend handle.
pub open spec fn platform_monitor_of(data: MonitorData) -> PlatformMonitor {
    PlatformMonitor {
        main_pos: data.position,
        main_size: data.size,
        work_pos: data.work_pos,
        work_size: data.work_size,
        dpi_scale: data.dpi_scale,
        platform_handle: 0,
    }
}

/// Initialize monitors in the platform IO.
///
/// Replaces the monitor list of the platform IO with one entry per given
/// monitor, in the given order, each carrying the monitor's geometry and
/// scale and no backend handle. Nothing else of the context is touched.
/// This list is required for viewport support to work; fill it after
/// enabling viewports and before the first frame.
pub fn init_monitors(ctx: &mut Context, monitors: &[MonitorData])
    ensures
        final(ctx).platform_io.monitors@ =~= monitors@.map_values(
            |d: MonitorData| platform_monitor_of(d),
        ),
        final(ctx).io == old(ctx).io,
        final(ctx).native_config_flags == old(ctx).native_config_flags,
        final(ctx).platform_io.viewports == old(ctx).platform_io.viewports,
{
    let mut platform_monitors: Vec<PlatformMonitor> = Vec::new();
    let mut i: usize = 0;
    while i < monitors.len()
        invariant
            i <= monitors@.len(),
            platform_monitors@ =~= monitors@.subrange(0, i as int).map_values(
                |d: MonitorData| platform_monitor_of(d),
            ),
        decreases monitors@.len() - i,
    {
        let data = &monitors[i];
        platform_monitors.push(PlatformMonitor {
            main_pos: data.position,
            main_size: data.size,
            work_pos: data.work_pos,
            work_size: data.work_size,
            dpi_scale: data.dpi_scale,
            platform_handle: 0,
        });
        i = i + 1;
    }
    ctx.platform_io.monitors = platform_monitors;
}

/// Initialize monitors from a single primary monitor of the given size at
/// the desktop origin, with the whole area usable: the monitor list is
/// replaced by that one entry. A convenience for the common single-monitor
/// case; see [`init_monitors`].
pub fn init_single_monitor(ctx: &mut Context, width: i32, height: i32, dpi_scale: u32)
    ensures
        final(ctx).platform_io.monitors@ =~= seq![
            platform_monitor_of(
                MonitorData {
                    position: [0i32, 0i32],
                    size: [width, height],
                    work_pos: [0i32, 0i32],
                    work_size: [width, height],
                    dpi_scale: dpi_scale,
                },
            ),
        ],
        final(ctx).io == old(ctx).io,
        final(ctx).native_config_flags == old(ctx).native_config_flags,
        final(ctx).platform_io.viewports == old(ctx).platform_io.viewports,
{
    let monitor = MonitorData {
        position: [0, 0],
        size: [width, height],
        work_pos: [0, 0],
        work_size: [width, height],
        dpi_scale,
    };
    let monitors: [MonitorData; 1] = [monitor];
    init_monitors(ctx, monitors.as_slice());
}

/// Clear all monitors from the platform IO: the monitor list becomes empty.
/// Nothing else of the context is touched. Useful for cleanup or for
/// resetting the monitor configuration.
pub fn clear_monitors(ctx: &mut Context)
    ensures
        final(ctx).platform_io.monitors@ =~= Seq::<PlatformMonitor>::empty(),
        final(ctx).io == old(ctx).io,
        final(ctx).native_config_flags == old(ctx).native_config_flags,
        final(ctx).platform_io.viewports == old(ctx).platform_io.viewports,
{
    ctx.platform_io.monitors = Vec::new();
}

/// Check if monitors are initialized: true exactly when at least one
/// monitor is present in the platform IO.
pub fn monitors_initialized(ctx: &Context) -> (r: bool)
    ensures
        r == (ctx.platform_io.monitors@.len() > 0),
{
    ctx.platform_io.monitors.len() > 0
}

/// Get the count of initialized monitors in the platform IO.
pub fn monitor_count(ctx: &Context) -> (r: usize)
    ensures
        r == ctx.platform_io.monitors@.len(),
{
    ctx.platform_io.monitors.len()
}

} // verus!
