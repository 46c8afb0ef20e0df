//! Display geometry and input focus of the host window.
use vstd::prelude::*;

verus! {

/// A window's client rectangle, as the OS reports it.
#[derive(Clone, Copy, Debug, PartialEq, Eq, Structural)]
pub struct ClientRect {
    pub left: i32,
    pub top: i32,
    pub right: i32,
    pub bottom: i32,
}

/// The overlay's display size for a client rectangle: its width and height.
pub fn display_size(rect: ClientRect) -> (r: (i64, i64))
    ensures
        r.0 == rect.right - rect.left,
        r.1 == rect.bottom - rect.top,
{
    (rect.right as i64 - rect.left as i64, rect.bottom as i64 - rect.top as i64)
}

/// Whether the window handle names a window: the OS uses both zero and minus
/// one for "no handle".
pub open spec fn valid_handle(h: isize) -> bool {
    h != 0 && h != -1
}

/// Whether the overlay follows the cursor: only while the foreground window
/// is the host window or one of its children (`foreground_is_child`).
pub fn cursor_tracked(foreground: isize, target: isize, foreground_is_child: bool) -> (r: bool)
    ensures
        r == (valid_handle(foreground) && (foreground == target || foreground_is_child)),
{
    foreground != 0 && foreground != -1 && (foreground == target || foreground_is_child)
}

} // verus!
