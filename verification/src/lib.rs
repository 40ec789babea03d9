//! Workarounds for two defects in the multi-viewport subsystem of a native
//! immediate-mode GUI library, verified against a plain-data picture of the
//! state they touch.
//!
//! The first defect: the configuration flag that enables multi-viewport
//! support is silently cleared on the native side by the render pipeline
//! after the first frame, so the flag must be restored before every frame
//! ([`viewport_issue_fix`]).
//!
//! The second defect: platform backends leave the monitor list of the
//! platform IO empty, and the native library asserts on an empty list as
//! soon as viewports are enabled, so the list must be filled by hand before
//! the first frame ([`monitor_init_fix`]).
//!
//! The native library holds this state behind raw pointers; here it is held
//! as plain values ([`context::Context`]), with the two flag words — the
//! binding's and the native side's — kept apart, since the first defect is
//! precisely that they drift apart. Every function states exactly what it
//! reads and writes of that state.

pub mod context;
pub mod monitor_init_fix;
pub mod platform_io;
pub mod viewport_issue_fix;
