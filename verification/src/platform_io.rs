//! Plain-data picture of the native library's platform IO: the monitor list
//! that backends must fill before viewports can be used, and the viewports
//! themselves.
//!
//! The native platform IO also carries the window lifecycle callbacks
//! (create, destroy, show, move, resize, render, swap) that the platform and
//! renderer backends install. Those are owned and invoked by the native
//! library; no decision in this crate reads them, so they are not part of
//! the picture here.

use vstd::prelude::*;

verus! {

/// The ID the native library gives the main viewport (the primary
/// application window). It is fixed and never reused for another viewport.
pub const MAIN_VIEWPORT_ID: u32 = 0x11111111;

/// One entry of the platform IO monitor list, as the native library reads
/// it. Positions and sizes are in pixels; `dpi_scale` is the scale factor
/// in hundredths (100 is a scale of one).
#[derive(Clone, Copy, Debug)]
pub struct PlatformMonitor {
    /// Top-left corner of the monitor on the virtual desktop.
    pub main_pos: [i32; 2],
    /// Full size of the monitor.
    pub main_size: [i32; 2],
    /// Top-left corner of the working area (excluding taskbar or dock).
    pub work_pos: [i32; 2],
    /// Size of the working area (excluding taskbar or dock).
    pub work_size: [i32; 2],
    /// DPI scale factor in hundredths.
    pub dpi_scale: u32,
    /// Backend handle for the monitor; 0 when the backend gave none.
    pub platform_handle: u64,
}

/// Draw data of one viewport. The native library fills it in its render
/// call and marks it stale again on the next frame start, so it may only be
/// consumed in between.
#[derive(Clone, Copy, Debug)]
pub struct DrawData {
    /// True between the render call that filled this data and the start of
    /// the next frame.
    pub valid: bool,
}

/// One viewport: a native OS window that the library draws into. The main
/// viewport always exists; further ones appear when a window is dragged
/// outside it.
#[derive(Clone, Copy, Debug)]
pub struct Viewport {
    /// The unique ID of this viewport.
    pub id: u32,
    /// Flag bits that describe how the viewport should behave.
    pub flags: u32,
    /// Position on the virtual desktop, in pixels.
    pub pos: [i32; 2],
    /// Size in pixels.
    pub size: [i32; 2],
    /// Position of the working area, in pixels.
    pub work_pos: [i32; 2],
    /// Size of the working area, in pixels.
    pub work_size: [i32; 2],
    /// DPI scale factor in hundredths.
    pub dpi_scale: u32,
    /// ID of the viewport this one was opened from.
    pub parent_viewport_id: u32,
    /// Draw data for this viewport, when it has any content to render. The
    /// native library hands it out behind a nullable pointer; `None` stands
    /// for the null pointer.
    pub draw_data: Option<DrawData>,
    /// Backend window handle; 0 stands for the null handle.
    pub platform_handle: u64,
    /// True once the platform backend has created the OS window.
    pub platform_window_created: bool,
    /// Set by the native library to ask the backend to move the window.
    pub platform_request_move: bool,
    /// Set by the native library to ask the backend to resize the window.
    pub platform_request_resize: bool,
    /// Set by the native library to ask the backend to close the window.
    pub platform_request_close: bool,
}

impl Viewport {
    /// Returns the draw data of the viewport if it has any content to
    /// render, and `None` otherwise (the native library then holds a null
    /// pointer in this slot).
    pub fn draw_data(&self) -> (r: Option<&DrawData>)
        ensures
            match r {
                Some(d) => self.draw_data == Some(*d),
                None => self.draw_data is None,
            },
    {
        self.draw_data.as_ref()
    }

    /// Returns true if this is the main viewport (the primary application
    /// window), which carries the fixed ID [`MAIN_VIEWPORT_ID`].
    pub fn is_main(&self) -> (r: bool)
        ensures
            r == (self.id == MAIN_VIEWPORT_ID),
    {
        self.id == MAIN_VIEWPORT_ID
    }
}

/// Holds the information needed to enable multiple viewports: the monitor
/// list that the backend must fill, and the viewports themselves.
#[derive(Debug)]
pub struct PlatformIo {
    /// The available monitors. The native library asserts on an empty list
    /// as soon as multi-viewport support is enabled.
    pub monitors: Vec<PlatformMonitor>,
    /// The live viewports. The main viewport is among them from the first
    /// frame on.
    pub viewports: Vec<Viewport>,
}

impl PlatformIo {
    /// An empty platform IO, as it stands before any backend has run: no
    /// monitors and no viewports.
    pub fn new() -> (p: PlatformIo)
        ensures
            p.monitors@ =~= Seq::<PlatformMonitor>::empty(),
            p.viewports@ =~= Seq::<Viewport>::empty(),
    {
        PlatformIo { monitors: Vec::new(), viewports: Vec::new() }
    }
}

} // verus!
