//! Plain-data picture of a GUI context, as far as the viewport workarounds
//! read and write it: the configuration flags word on the binding's side,
//! the same word as the native side holds it, and the platform IO.
//!
//! The two flag words stand for one logical setting, but the native render
//! pipeline clears the multi-viewport bit on its side after the first
//! frame, so the two can drift apart; keeping them apart is what lets the
//! drift, and the fix for it, be stated at all.

use crate::platform_io::PlatformIo;
use vstd::prelude::*;

verus! {

/// The bit in the configuration flags word that enables multi-viewport
/// support (windows dragged outside the main window become OS windows).
pub const CONFIG_FLAGS_VIEWPORTS_ENABLE: u32 = 0x400;

/// True when the multi-viewport bit is set in a configuration flags word.
pub open spec fn viewports_enabled(flags: u32) -> bool {
    flags & CONFIG_FLAGS_VIEWPORTS_ENABLE != 0
}

/// The IO state of a context, as far as this crate reads it.
#[derive(Clone, Copy, Debug)]
pub struct Io {
    /// Configuration flags as the binding sees them.
    pub config_flags: u32,
}

/// A GUI context. The native library holds this state behind raw pointers;
/// here it is held as plain values, so that what each workaround does to it
/// can be stated exactly.
#[derive(Debug)]
pub struct Context {
    /// The binding's side of the IO state.
    pub io: Io,
    /// Configuration flags as the native side holds them. The native render
    /// pipeline can clear bits here behind the binding's back.
    pub native_config_flags: u32,
    /// The platform IO: monitors and viewports.
    pub platform_io: PlatformIo,
}

impl Context {
    /// A fresh context, as it stands right after creation: no flags set,
    /// both sides agreeing, and an empty platform IO.
    pub fn new() -> (c: Context)
        ensures
            c.io.config_flags == 0,
            c.native_config_flags == 0,
            c.platform_io.monitors@ =~= Seq::<crate::platform_io::PlatformMonitor>::empty(),
            c.platform_io.viewports@ =~= Seq::<crate::platform_io::Viewport>::empty(),
    {
        Context { io: Io { config_flags: 0 }, native_config_flags: 0, platform_io: PlatformIo::new() }
    }
}

} // verus!
