//! The hook session for a single swap-buffers entry point.
use vstd::prelude::*;

use crate::hook::{HookSite, WndProcRestore, WndProcRoute};
use crate::window::ClientRect;

verus! {

/// What the renderer compares between frames: the viewport's size and the
/// client rectangle's lower-right corner.
#[derive(Clone, Copy, Debug, PartialEq, Eq, Structural)]
pub struct Geometry {
    pub viewport_width: i32,
    pub viewport_height: i32,
    pub rect: ClientRect,
}

/// Whether two geometries differ in a way that needs a new renderer.
pub open spec fn geometry_changed(baseline: Geometry, now: Geometry) -> bool {
    now.viewport_width != baseline.viewport_width || now.viewport_height
        != baseline.viewport_height || now.rect.right != baseline.rect.right || now.rect.bottom
        != baseline.rect.bottom
}

/// The renderer's state while it is active.
#[derive(Clone, Copy, Debug, PartialEq, Eq, Structural)]
pub struct GlRenderer {
    pub window: isize,
    pub wnd_proc: isize,
    /// The geometry seen on the first reset check after activation.
    pub baseline: Option<Geometry>,
}

/// The session as the contracts see it.
pub struct GlModel {
    pub hook: HookSite,
    pub renderer: Option<GlRenderer>,
}

/// The result of a reset check.
pub open spec fn reset_of(s: GlModel, now: Geometry) -> Option<WndProcRestore> {
    match s.renderer {
        Some(r) => match r.baseline {
            Some(b) => if geometry_changed(b, now) {
                Some(WndProcRestore { window: r.window, wnd_proc: r.wnd_proc })
            } else {
                None
            },
            None => None,
        },
        None => None,
    }
}

pub open spec fn reset_model(s: GlModel, now: Geometry) -> GlModel {
    match s.renderer {
        Some(r) => match r.baseline {
            Some(b) => if geometry_changed(b, now) {
                GlModel { renderer: None, ..s }
            } else {
                s
            },
            None => GlModel { renderer: Some(GlRenderer { baseline: Some(now), ..r }), ..s },
        },
        None => s,
    }
}

/// A hook session over the swap-buffers entry point.
pub struct ImguiOpenGl3Hooks {
    hooks: Vec<HookSite>,
    renderer: Option<GlRenderer>,
}

impl View for ImguiOpenGl3Hooks {
    type V = GlModel;

    closed spec fn view(&self) -> GlModel {
        GlModel { hook: self.hooks@[0], renderer: self.renderer }
    }
}

impl ImguiOpenGl3Hooks {
    /// The session's hook list holds exactly its one hook site.
    pub closed spec fn wf(&self) -> bool {
        self.hooks@.len() == 1
    }

    /// Starts a session over the installed hook site, with no renderer.
    pub fn new(hook: HookSite) -> (r: Self)
        ensures
            r.wf(),
            r@ == (GlModel { hook, renderer: None }),
    {
        let mut hooks: Vec<HookSite> = Vec::new();
        hooks.push(hook);
        ImguiOpenGl3Hooks { hooks, renderer: None }
    }

    /// Whether the renderer is active; a swap-buffers call activates it first
    /// when it is not.
    pub fn is_active(&self) -> (r: bool)
        ensures
            r == self@.renderer is Some,
    {
        self.renderer.is_some()
    }

    /// Makes the renderer active on `window`, whose previous procedure was
    /// `wnd_proc`. Returns `false`, and changes nothing, when one is already
    /// active.
    pub fn activate(&mut self, window: isize, wnd_proc: isize) -> (r: bool)
        requires
            old(self).wf(),
        ensures
            final(self).wf(),
            r == (old(self)@.renderer is None),
            final(self)@ == if r {
                GlModel {
                    renderer: Some(GlRenderer { window, wnd_proc, baseline: None }),
                    ..old(self)@
                }
            } else {
                old(self)@
            },
    {
        if self.renderer.is_some() {
            false
        } else {
            self.renderer = Some(GlRenderer { window, wnd_proc, baseline: None });
            true
        }
    }

    /// Compares the geometry now with the one first seen after activation;
    /// when it changed, drops the renderer and returns the window procedure
    /// to put back. The first check after activation records the baseline.
    pub fn reset(&mut self, now: Geometry) -> (r: Option<WndProcRestore>)
        requires
            old(self).wf(),
        ensures
            final(self).wf(),
            r == reset_of(old(self)@, now),
            final(self)@ == reset_model(old(self)@, now),
    {
        match self.renderer {
            None => None,
            Some(rd) => match rd.baseline {
                None => {
                    self.renderer = Some(GlRenderer { baseline: Some(now), ..rd });
                    None
                },
                Some(b) => {
                    if now.viewport_width != b.viewport_width || now.viewport_height
                        != b.viewport_height || now.rect.right != b.rect.right || now.rect.bottom
                        != b.rect.bottom {
                        self.renderer = None;
                        Some(WndProcRestore { window: rd.window, wnd_proc: rd.wnd_proc })
                    } else {
                        None
                    }
                },
            },
        }
    }

    /// Where a message to the host window goes.
    pub fn wnd_proc_route(&self) -> (r: WndProcRoute)
        ensures
            r == match self@.renderer {
                Some(rd) => WndProcRoute::Overlay(rd.wnd_proc),
                None => WndProcRoute::Default,
            },
    {
        match self.renderer {
            Some(rd) => WndProcRoute::Overlay(rd.wnd_proc),
            None => WndProcRoute::Default,
        }
    }

    /// Ends the session: drops the renderer and returns the window procedure
    /// to put back, if one was active.
    pub fn unhook(&mut self) -> (r: Option<WndProcRestore>)
        requires
            old(self).wf(),
        ensures
            final(self).wf(),
            r == match old(self)@.renderer {
                Some(rd) => Some(WndProcRestore { window: rd.window, wnd_proc: rd.wnd_proc }),
                None => None,
            },
            final(self)@ == (GlModel { renderer: None, ..old(self)@ }),
    {
        let r = match self.renderer {
            Some(rd) => Some(WndProcRestore { window: rd.window, wnd_proc: rd.wnd_proc }),
            None => None,
        };
        self.renderer = None;
        r
    }

    /// The session's hook sites.
    pub fn hooks(&self) -> (r: &[HookSite])
        requires
            self.wf(),
        ensures
            r@ == seq![self@.hook],
    {
        self.hooks.as_slice()
    }
}

} // verus!
