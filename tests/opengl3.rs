use hudhook::hook::{HookPoint, HookSite, WndProcRestore, WndProcRoute};
use hudhook::opengl3::{Geometry, ImguiOpenGl3Hooks};
use hudhook::window::ClientRect;

fn geometry(w: i32, h: i32) -> Geometry {
    Geometry {
        viewport_width: w,
        viewport_height: h,
        rect: ClientRect { left: 0, top: 0, right: w, bottom: h },
    }
}

fn session() -> ImguiOpenGl3Hooks {
    ImguiOpenGl3Hooks::new(HookSite {
        point: HookPoint::SwapBuffers,
        original: 0x10,
        detour: 0x20,
        trampoline: 0x30,
    })
}

#[test]
fn gl_session_activates_once() {
    let mut s = session();
    assert_eq!(s.hooks().len(), 1);
    assert_eq!(s.hooks()[0].detour, 0x20);
    assert!(!s.is_active());
    assert_eq!(s.wnd_proc_route(), WndProcRoute::Default);
    assert!(s.activate(5, 6));
    assert!(!s.activate(8, 9));
    assert_eq!(s.wnd_proc_route(), WndProcRoute::Overlay(6));
}

#[test]
fn gl_reset_only_on_geometry_change() {
    let mut s = session();
    assert_eq!(s.reset(geometry(800, 600)), None);
    assert!(s.activate(5, 6));
    assert_eq!(s.reset(geometry(800, 600)), None);
    assert_eq!(s.reset(geometry(800, 600)), None);
    let moved = Geometry {
        viewport_width: 800,
        viewport_height: 600,
        rect: ClientRect { left: 50, top: 50, right: 800, bottom: 600 },
    };
    assert_eq!(s.reset(moved), None);
    assert!(s.is_active());
    assert_eq!(s.reset(geometry(1024, 600)), Some(WndProcRestore { window: 5, wnd_proc: 6 }));
    assert!(!s.is_active());
    assert!(s.activate(5, 7));
    assert_eq!(s.reset(geometry(1024, 768)), None);
    assert_eq!(s.reset(geometry(1024, 700)), Some(WndProcRestore { window: 5, wnd_proc: 7 }));
}

#[test]
fn gl_unhook_restores_procedure() {
    let mut s = session();
    assert_eq!(s.unhook(), None);
    assert!(s.activate(5, 6));
    assert_eq!(s.unhook(), Some(WndProcRestore { window: 5, wnd_proc: 6 }));
    assert!(!s.is_active());
}
