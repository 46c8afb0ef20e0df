//! Hook sites and window-procedure records.
use vstd::prelude::*;

verus! {

/// The entry points that the session intercepts.
#[derive(Clone, Copy, Debug, PartialEq, Eq, Structural)]
pub enum HookPoint {
    Present,
    Submit,
    Resize,
    SwapBuffers,
}

/// One installed detour: the entry point's original address, the detour
/// that now runs in its place, and the trampoline to the original code.
#[derive(Clone, Copy, Debug, PartialEq, Eq, Structural)]
pub struct HookSite {
    pub point: HookPoint,
    pub original: usize,
    pub detour: usize,
    pub trampoline: usize,
}

/// A window procedure to put back on a window.
#[derive(Clone, Copy, Debug, PartialEq, Eq, Structural)]
pub struct WndProcRestore {
    pub window: isize,
    pub wnd_proc: isize,
}

/// Where the host window's messages go.
#[derive(Clone, Copy, Debug, PartialEq, Eq, Structural)]
pub enum WndProcRoute {
    /// No renderer: the default handling.
    Default,
    /// Feed the overlay's input, then forward to this original procedure.
    Overlay(isize),
}

} // verus!
