use hudhook::dx12::{
    disable_dxgi_debug, enable_dxgi_debug, ActivationError, Discovery, ImguiDx12Hooks,
    PresentStart, RenderStep, ResizeStart, StopPoll, DIRECT_QUEUE_TYPE,
};
use hudhook::hook::{HookPoint, HookSite, WndProcRestore, WndProcRoute};

const COMPUTE_QUEUE_TYPE: i32 = 2;
const COPY_QUEUE_TYPE: i32 = 3;

fn site(point: HookPoint, base: usize) -> HookSite {
    HookSite { point, original: base, detour: base + 1, trampoline: base + 2 }
}

fn session() -> ImguiDx12Hooks {
    ImguiDx12Hooks::new(
        site(HookPoint::Present, 0x1000),
        site(HookPoint::Submit, 0x2000),
        site(HookPoint::Resize, 0x3000),
    )
}

/// A session with an active renderer of `count` buffers on window 7, whose
/// previous procedure was 9, and queue 66 captured.
fn active_session(count: u32) -> ImguiDx12Hooks {
    let mut s = session();
    assert_eq!(s.begin_present(), PresentStart::Activate);
    assert_eq!(s.activate(count, 1000, 32, 7, 9), Ok(()));
    s.end_present();
    assert_eq!(s.begin_submit(66, DIRECT_QUEUE_TYPE), Discovery::Captured);
    s.end_submit();
    s
}

#[test]
fn new_session_holds_three_sites_and_nothing_else() {
    let s = session();
    let hooks = s.hooks();
    assert_eq!(hooks.len(), 3);
    assert_eq!(hooks[0].point, HookPoint::Present);
    assert_eq!(hooks[1].point, HookPoint::Submit);
    assert_eq!(hooks[2].point, HookPoint::Resize);
    assert_eq!(hooks[2].trampoline, 0x3002);
    assert!(!s.is_active());
    assert!(!s.is_stopped());
    assert_eq!(s.captured_queue(), None);
    assert_eq!(s.calls_in_flight(), (0, 0, 0));
    assert_eq!(s.fence_counter(), 0);
    assert_eq!(s.wnd_proc_route(), WndProcRoute::Default);
}

#[test]
fn two_buffers_three_frames_reuse_first_context_after_its_fence() {
    let mut s = active_session(2);
    assert_eq!(s.frame_context_count(), 2);
    assert_eq!(
        s.render_step(0, 0),
        RenderStep::Record { queue: 66, descriptor: 1000, fence_value: 1 }
    );
    assert_eq!(
        s.render_step(1, 0),
        RenderStep::Record { queue: 66, descriptor: 1032, fence_value: 2 }
    );
    // Frame three lands on buffer 0 again; frame one's fence is not complete.
    assert_eq!(s.render_step(0, 0), RenderStep::WaitFence(1));
    assert_eq!(s.fence_counter(), 2);
    assert_eq!(
        s.render_step(0, 1),
        RenderStep::Record { queue: 66, descriptor: 1000, fence_value: 3 }
    );
    assert_eq!(s.fence_counter(), 3);
}

#[test]
fn resize_without_active_renderer_is_a_no_op() {
    let mut s = session();
    assert_eq!(s.begin_resize(), ResizeStart::NothingToTearDown);
    assert_eq!(s.calls_in_flight(), (0, 0, 1));
    s.end_resize();
    assert!(!s.is_active());
    assert!(!s.is_invalidated());
    assert_eq!(s.calls_in_flight(), (0, 0, 0));
}

#[test]
fn non_primary_queue_first_leaves_queue_unset_and_skips_render() {
    let mut s = session();
    assert_eq!(s.begin_present(), PresentStart::Activate);
    assert_eq!(s.activate(2, 1000, 32, 7, 9), Ok(()));
    assert_eq!(s.begin_submit(55, COMPUTE_QUEUE_TYPE), Discovery::WrongClass);
    s.end_submit();
    assert_eq!(s.captured_queue(), None);
    assert_eq!(s.render_step(0, 0), RenderStep::NullQueue);
    assert_eq!(s.fence_counter(), 0);
    s.end_present();
}

#[test]
fn stop_waits_while_present_is_in_flight() {
    let mut s = active_session(2);
    assert_eq!(s.begin_present(), PresentStart::Render);
    assert_eq!(s.poll_stop(), StopPoll::Wait);
    assert!(!s.is_stopped());
    assert!(s.is_active());
    assert_eq!(s.poll_stop(), StopPoll::Wait);
    s.end_present();
    assert_eq!(
        s.poll_stop(),
        StopPoll::Released(Some(WndProcRestore { window: 7, wnd_proc: 9 }))
    );
    assert!(s.is_stopped());
    assert!(!s.is_active());
}

#[test]
fn stop_waits_for_every_guard() {
    let mut s = active_session(2);
    assert_eq!(s.begin_submit(66, DIRECT_QUEUE_TYPE), Discovery::AlreadyCaptured);
    assert_eq!(s.begin_resize(), ResizeStart::Restore(WndProcRestore { window: 7, wnd_proc: 9 }));
    assert_eq!(s.poll_stop(), StopPoll::Wait);
    s.end_submit();
    assert_eq!(s.poll_stop(), StopPoll::Wait);
    s.end_resize();
    assert_eq!(s.poll_stop(), StopPoll::Released(None));
}

#[test]
fn stopping_session_passes_presents_through() {
    let mut s = active_session(2);
    assert_eq!(s.begin_present(), PresentStart::Render);
    assert_eq!(s.poll_stop(), StopPoll::Wait);
    assert_eq!(s.begin_present(), PresentStart::PassThrough);
    s.end_present();
    s.end_present();
    assert!(matches!(s.poll_stop(), StopPoll::Released(Some(_))));
    assert_eq!(s.begin_present(), PresentStart::PassThrough);
    assert_eq!(s.activate(2, 1000, 32, 7, 9), Err(ActivationError::Stopping));
    s.end_present();
}

#[test]
fn captured_queue_never_changes() {
    let mut s = active_session(2);
    assert_eq!(s.begin_submit(77, DIRECT_QUEUE_TYPE), Discovery::AlreadyCaptured);
    assert_eq!(s.begin_submit(88, COPY_QUEUE_TYPE), Discovery::AlreadyCaptured);
    assert_eq!(s.begin_submit(99, COMPUTE_QUEUE_TYPE), Discovery::AlreadyCaptured);
    s.end_submit();
    s.end_submit();
    s.end_submit();
    assert_eq!(s.render_step(1, 0), RenderStep::Record { queue: 66, descriptor: 1032, fence_value: 1 });
    assert_eq!(s.captured_queue(), Some(66));
}

#[test]
fn primary_queue_without_renderer_is_not_captured() {
    let mut s = session();
    assert_eq!(s.begin_submit(66, DIRECT_QUEUE_TYPE), Discovery::NoRenderer);
    s.end_submit();
    assert_eq!(s.captured_queue(), None);
    assert_eq!(s.render_step(0, 0), RenderStep::NotActive);
}

#[test]
fn resize_restores_procedure_and_next_present_rebuilds() {
    let mut s = active_session(2);
    assert_eq!(s.wnd_proc_route(), WndProcRoute::Overlay(9));
    assert!(matches!(s.render_step(0, 0), RenderStep::Record { .. }));
    assert_eq!(s.begin_resize(), ResizeStart::Restore(WndProcRestore { window: 7, wnd_proc: 9 }));
    s.end_resize();
    assert!(s.is_invalidated());
    assert_eq!(s.captured_queue(), None);
    assert_eq!(s.frame_context_count(), 0);
    assert_eq!(s.wnd_proc_route(), WndProcRoute::Default);
    assert_eq!(s.begin_present(), PresentStart::Activate);
    assert_eq!(s.activate(3, 5000, 64, 7, 11), Ok(()));
    assert_eq!(s.frame_context_count(), 3);
    assert_eq!(s.render_step(2, 0), RenderStep::NullQueue);
    assert_eq!(s.begin_submit(67, DIRECT_QUEUE_TYPE), Discovery::Captured);
    // Fence values keep growing across rebuilds.
    assert_eq!(
        s.render_step(2, 0),
        RenderStep::Record { queue: 67, descriptor: 5128, fence_value: 2 }
    );
    assert_eq!(s.begin_resize(), ResizeStart::Restore(WndProcRestore { window: 7, wnd_proc: 11 }));
}

#[test]
fn activation_errors() {
    let mut s = active_session(2);
    assert_eq!(s.activate(2, 1000, 32, 7, 9), Err(ActivationError::AlreadyActive));
    let mut t = session();
    assert_eq!(t.activate(3, usize::MAX - 10, 8, 7, 9), Err(ActivationError::DescriptorOverflow));
    assert!(!t.is_active());
    assert_eq!(t.activate(2, usize::MAX - 10, 8, 7, 9), Ok(()));
}

#[test]
fn buffer_index_outside_pool_is_skipped() {
    let mut s = active_session(2);
    assert_eq!(s.render_step(2, 0), RenderStep::OutOfRange);
    assert_eq!(s.fence_counter(), 0);
}

#[test]
fn debug_flag_toggles_and_stop_clears_it() {
    let mut s = session();
    assert!(!s.dxgi_debug_enabled());
    enable_dxgi_debug(&mut s);
    assert!(s.dxgi_debug_enabled());
    disable_dxgi_debug(&mut s);
    assert!(!s.dxgi_debug_enabled());
    enable_dxgi_debug(&mut s);
    assert_eq!(s.poll_stop(), StopPoll::Released(None));
    assert!(!s.dxgi_debug_enabled());
}
