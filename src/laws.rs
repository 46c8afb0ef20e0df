//! Properties of the hook session over every sequence of hook events.
use vstd::prelude::*;

use crate::dx12::{
    activate_model, activation_of, captured_of, quiescent, render_model, render_step_of,
    resize_model, resize_start_of, stop_model, stop_poll_of, submit_model, present_start_of,
    PresentStart, RenderStep, RendererModel, ResizeStart, SessionModel,
};
use crate::frame::pool_fits;
use crate::hook::WndProcRestore;

verus! {

/// One call into the session, as the hooks make them.
pub enum HookEvent {
    BeginPresent,
    EndPresent,
    Activate { buffer_count: u32, heap_base: usize, stride: u32, window: isize, wnd_proc: isize },
    Render { buffer_index: u32, completed: u64 },
    BeginSubmit { queue: u64, queue_type: i32 },
    EndSubmit,
    BeginResize,
    EndResize,
    PollStop,
}

/// The session after one event. A leave without a matching enter, and a
/// render with the fence counter exhausted, change nothing (the methods
/// refuse them).
pub open spec fn apply(s: SessionModel, e: HookEvent) -> SessionModel {
    match e {
        HookEvent::BeginPresent => SessionModel { present: s.present + 1, ..s },
        HookEvent::EndPresent => if s.present > 0 {
            SessionModel { present: (s.present - 1) as nat, ..s }
        } else {
            s
        },
        HookEvent::Activate { buffer_count, heap_base, stride, window, wnd_proc } => activate_model(
            s,
            buffer_count,
            heap_base,
            stride,
            window,
            wnd_proc,
        ),
        HookEvent::Render { buffer_index, completed } => if s.fence_counter < u64::MAX {
            render_model(s, buffer_index, completed)
        } else {
            s
        },
        HookEvent::BeginSubmit { queue, queue_type } => submit_model(s, queue, queue_type),
        HookEvent::EndSubmit => if s.submit > 0 {
            SessionModel { submit: (s.submit - 1) as nat, ..s }
        } else {
            s
        },
        HookEvent::BeginResize => resize_model(s),
        HookEvent::EndResize => if s.resize > 0 {
            SessionModel { resize: (s.resize - 1) as nat, ..s }
        } else {
            s
        },
        HookEvent::PollStop => stop_model(s),
    }
}

/// The session after a sequence of events, in order.
pub open spec fn run(s: SessionModel, es: Seq<HookEvent>) -> SessionModel
    decreases es.len(),
{
    if es.len() == 0 {
        s
    } else {
        run(apply(s, es[0]), es.drop_first())
    }
}

/// Whether an event can tear the renderer down.
pub open spec fn tears_down(e: HookEvent) -> bool {
    e is BeginResize || e is PollStop
}

/// A stop releases the session's state only when every hook point is
/// idle, whatever calls came before it; once released, the renderer is
/// never active again and every later present passes straight through.
pub proof fn stop_waits_for_idle_guards(s: SessionModel, before: Seq<HookEvent>, after: Seq<HookEvent>)
    ensures
        stop_poll_of(run(s, before)) is Released ==> quiescent(run(s, before)),
        stop_poll_of(run(s, before)) is Released ==> {
            let t = run(stop_model(run(s, before)), after);
            &&& !(t.renderer is Active)
            &&& t.stopped
            &&& present_start_of(t) == PresentStart::PassThrough
        },
{
    let r = run(s, before);
    if stop_poll_of(r) is Released {
        stopped_session_stays_down(stop_model(r), after);
    }
}

/// A released session keeps its renderer down under any further events.
proof fn stopped_session_stays_down(s: SessionModel, es: Seq<HookEvent>)
    requires
        s.stopped,
        s.stop_requested,
        !(s.renderer is Active),
    ensures
        run(s, es).stopped,
        run(s, es).stop_requested,
        !(run(s, es).renderer is Active),
    decreases es.len(),
{
    if es.len() > 0 {
        stopped_session_stays_down(apply(s, es[0]), es.drop_first());
    }
}

/// Once a queue is captured, no submission from any queue, of any class,
/// nor any present or render, changes it: only a resize or a stop (which
/// drop the renderer) end the capture.
pub proof fn captured_queue_is_stable(s: SessionModel, es: Seq<HookEvent>)
    requires
        captured_of(s) is Some,
        forall|i: int| 0 <= i < es.len() ==> !tears_down(#[trigger] es[i]),
    ensures
        captured_of(run(s, es)) == captured_of(s),
    decreases es.len(),
{
    if es.len() > 0 {
        let t = apply(s, es[0]);
        assert(!tears_down(es[0]));
        assert(captured_of(t) == captured_of(s));
        assert forall|i: int| 0 <= i < es.drop_first().len() implies !tears_down(
            #[trigger] es.drop_first()[i],
        ) by {
            assert(es.drop_first()[i] == es[i + 1]);
        }
        captured_queue_is_stable(t, es.drop_first());
    }
}

/// A frame context is recorded into only once the GPU has completed the
/// fence value of its previous frame, and the frame then takes a fence value
/// larger than any handed out before.
pub proof fn record_waits_for_previous_fence(s: SessionModel, buffer_index: u32, completed: u64)
    requires
        s.fence_counter < u64::MAX,
    ensures
        render_step_of(s, buffer_index, completed) matches RenderStep::Record { fence_value, .. }
            ==> {
            &&& s.renderer matches RendererModel::Active(a)
            &&& buffer_index < a.contexts.len()
            &&& completed >= a.contexts[buffer_index as int].fence_val
            &&& fence_value > s.fence_counter
            &&& render_model(s, buffer_index, completed).renderer matches RendererModel::Active(b)
            &&& b.contexts[buffer_index as int].fence_val == fence_value
        },
{
}

/// The window and procedure of the active renderer, if any.
pub open spec fn saved_wnd_proc(s: SessionModel) -> Option<WndProcRestore> {
    match s.renderer {
        RendererModel::Active(a) => Some(WndProcRestore { window: a.window, wnd_proc: a.wnd_proc }),
        _ => None,
    }
}

/// Events that are not resizes or stops keep the procedure captured at the
/// most recent activation.
proof fn saved_wnd_proc_is_kept(s: SessionModel, es: Seq<HookEvent>)
    requires
        s.renderer is Active,
        forall|i: int| 0 <= i < es.len() ==> !tears_down(#[trigger] es[i]),
    ensures
        run(s, es).renderer is Active,
        saved_wnd_proc(run(s, es)) == saved_wnd_proc(s),
    decreases es.len(),
{
    if es.len() > 0 {
        let t = apply(s, es[0]);
        assert(!tears_down(es[0]));
        assert forall|i: int| 0 <= i < es.drop_first().len() implies !tears_down(
            #[trigger] es.drop_first()[i],
        ) by {
            assert(es.drop_first()[i] == es[i + 1]);
        }
        saved_wnd_proc_is_kept(t, es.drop_first());
    }
}

/// A resize restores the window procedure captured at the most recent
/// activation, whatever presents, renders and submissions came between, and
/// the next activation builds a pool sized to the new buffer count.
pub proof fn resize_restores_and_rebuilds(
    s: SessionModel,
    buffer_count: u32,
    heap_base: usize,
    stride: u32,
    window: isize,
    wnd_proc: isize,
    between: Seq<HookEvent>,
    new_count: u32,
    new_base: usize,
    new_stride: u32,
    new_window: isize,
    new_wnd_proc: isize,
)
    requires
        activation_of(s, buffer_count, heap_base, stride) is Ok,
        forall|i: int| 0 <= i < between.len() ==> !tears_down(#[trigger] between[i]),
        pool_fits(new_count, new_base, new_stride),
    ensures
        ({
            let active = activate_model(s, buffer_count, heap_base, stride, window, wnd_proc);
            let before_resize = run(active, between);
            let resized = resize_model(before_resize);
            let rebuilt = activate_model(resized, new_count, new_base, new_stride, new_window, new_wnd_proc);
            &&& resize_start_of(before_resize) == ResizeStart::Restore(
                WndProcRestore { window, wnd_proc },
            )
            &&& resized.renderer is Invalidated
            &&& activation_of(resized, new_count, new_base, new_stride) is Ok
            &&& rebuilt.renderer matches RendererModel::Active(a)
            &&& a.contexts.len() == new_count
            &&& a.queue is None
        }),
{
    let active = activate_model(s, buffer_count, heap_base, stride, window, wnd_proc);
    assert(saved_wnd_proc(active) == Some(WndProcRestore { window, wnd_proc }));
    saved_wnd_proc_is_kept(active, between);
    let before_resize = run(active, between);
    assert(!before_resize.stop_requested) by {
        not_stopping_is_kept(active, between);
    }
}

/// Events that are not stops never set the stop request.
proof fn not_stopping_is_kept(s: SessionModel, es: Seq<HookEvent>)
    requires
        !s.stop_requested,
        forall|i: int| 0 <= i < es.len() ==> !tears_down(#[trigger] es[i]),
    ensures
        !run(s, es).stop_requested,
    decreases es.len(),
{
    if es.len() > 0 {
        assert(!tears_down(es[0]));
        assert forall|i: int| 0 <= i < es.drop_first().len() implies !tears_down(
            #[trigger] es.drop_first()[i],
        ) by {
            assert(es.drop_first()[i] == es[i + 1]);
        }
        not_stopping_is_kept(apply(s, es[0]), es.drop_first());
    }
}

} // verus!
