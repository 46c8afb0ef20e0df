//! The hook session for the present / resize / submit entry points.
use vstd::prelude::*;

use crate::frame::{contexts_after, fresh_contexts, frame_step_of, pool_fits, FramePool, FrameContext, FrameStep};
use crate::guard::ExecutionGuard;
use crate::hook::{HookSite, WndProcRestore, WndProcRoute};

verus! {

/// The raw queue type of the primary (direct / graphics) submission queue.
pub const DIRECT_QUEUE_TYPE: i32 = 0;

/// The renderer's state while it is active.
pub struct ActiveModel {
    /// The submission queue the overlay submits on, once discovered.
    pub queue: Option<u64>,
    /// The host window whose procedure was replaced.
    pub window: isize,
    /// The window procedure captured when the renderer was activated.
    pub wnd_proc: isize,
    /// One frame context per back buffer.
    pub contexts: Seq<FrameContext>,
}

/// The renderer lifecycle.
pub enum RendererModel {
    Uninitialized,
    Active(ActiveModel),
    Invalidated,
}

/// The whole session as the contracts see it.
pub struct SessionModel {
    pub hooks: Seq<HookSite>,
    /// Calls in flight through the present, submit and resize hooks.
    pub present: nat,
    pub submit: nat,
    pub resize: nat,
    pub renderer: RendererModel,
    pub dxgi_debug: bool,
    /// The last fence value handed out; fresh values are larger.
    pub fence_counter: nat,
    pub stop_requested: bool,
    pub stopped: bool,
}

/// The discovered queue, if the renderer is active and has one.
pub open spec fn captured_of(s: SessionModel) -> Option<u64> {
    match s.renderer {
        RendererModel::Active(a) => a.queue,
        _ => None,
    }
}

/// Whether no hooked call is in flight on any hook point.
pub open spec fn quiescent(s: SessionModel) -> bool {
    s.present == 0 && s.submit == 0 && s.resize == 0
}

/// How a present call proceeds.
#[derive(Clone, Copy, Debug, PartialEq, Eq, Structural)]
pub enum PresentStart {
    /// The session is stopping: call the original and nothing else.
    PassThrough,
    /// No renderer is active: build one with `activate`, then render.
    Activate,
    /// The renderer is active: render.
    Render,
}

pub open spec fn present_start_of(s: SessionModel) -> PresentStart {
    if s.stop_requested {
        PresentStart::PassThrough
    } else if s.renderer is Active {
        PresentStart::Render
    } else {
        PresentStart::Activate
    }
}

/// Why an activation was refused.
#[derive(Clone, Copy, Debug, PartialEq, Eq, Structural)]
pub enum ActivationError {
    Stopping,
    AlreadyActive,
    DescriptorOverflow,
}

pub open spec fn activation_of(
    s: SessionModel,
    buffer_count: u32,
    heap_base: usize,
    stride: u32,
) -> Result<(), ActivationError> {
    if s.stop_requested {
        Err(ActivationError::Stopping)
    } else if s.renderer is Active {
        Err(ActivationError::AlreadyActive)
    } else if !pool_fits(buffer_count, heap_base, stride) {
        Err(ActivationError::DescriptorOverflow)
    } else {
        Ok(())
    }
}

pub open spec fn activate_model(
    s: SessionModel,
    buffer_count: u32,
    heap_base: usize,
    stride: u32,
    window: isize,
    wnd_proc: isize,
) -> SessionModel {
    if activation_of(s, buffer_count, heap_base, stride) is Ok {
        SessionModel {
            renderer: RendererModel::Active(
                ActiveModel {
                    queue: None,
                    window,
                    wnd_proc,
                    contexts: fresh_contexts(buffer_count, heap_base, stride),
                },
            ),
            ..s
        }
    } else {
        s
    }
}

/// What a present call does with the current back buffer.
#[derive(Clone, Copy, Debug, PartialEq, Eq, Structural)]
pub enum RenderStep {
    /// No renderer is active.
    NotActive,
    /// No submission queue has been discovered yet: skip the overlay.
    NullQueue,
    /// The host's buffer index lies outside the pool: skip the overlay.
    OutOfRange,
    /// Wait until the buffer's fence reaches this value, then ask again.
    WaitFence(u64),
    /// Record into `descriptor`, submit on `queue`, signal `fence_value`.
    Record { queue: u64, descriptor: usize, fence_value: u64 },
}

pub open spec fn render_step_of(s: SessionModel, buffer_index: u32, completed: u64) -> RenderStep {
    match s.renderer {
        RendererModel::Active(a) => match a.queue {
            None => RenderStep::NullQueue,
            Some(q) => match frame_step_of(
                a.contexts,
                buffer_index,
                completed,
                (s.fence_counter + 1) as u64,
            ) {
                FrameStep::OutOfRange => RenderStep::OutOfRange,
                FrameStep::WaitFence(v) => RenderStep::WaitFence(v),
                FrameStep::Record { descriptor, fence_value } => RenderStep::Record {
                    queue: q,
                    descriptor,
                    fence_value,
                },
            },
        },
        _ => RenderStep::NotActive,
    }
}

pub open spec fn render_model(s: SessionModel, buffer_index: u32, completed: u64) -> SessionModel {
    match render_step_of(s, buffer_index, completed) {
        RenderStep::Record { .. } => match s.renderer {
            RendererModel::Active(a) => SessionModel {
                renderer: RendererModel::Active(
                    ActiveModel {
                        contexts: contexts_after(
                            a.contexts,
                            buffer_index,
                            completed,
                            (s.fence_counter + 1) as u64,
                        ),
                        ..a
                    },
                ),
                fence_counter: s.fence_counter + 1,
                ..s
            },
            _ => s,
        },
        _ => s,
    }
}

/// The outcome of queue discovery on one submission call.
#[derive(Clone, Copy, Debug, PartialEq, Eq, Structural)]
pub enum Discovery {
    /// A queue was captured earlier; nothing changes.
    AlreadyCaptured,
    /// This queue is now the one the overlay submits on.
    Captured,
    /// The queue is not of the primary class; it is ignored.
    WrongClass,
    /// The queue is of the primary class but no renderer is active.
    NoRenderer,
}

pub open spec fn discovery_of(s: SessionModel, queue_type: i32) -> Discovery {
    if captured_of(s) is Some {
        Discovery::AlreadyCaptured
    } else if queue_type != DIRECT_QUEUE_TYPE {
        Discovery::WrongClass
    } else if s.renderer is Active {
        Discovery::Captured
    } else {
        Discovery::NoRenderer
    }
}

pub open spec fn submit_model(s: SessionModel, queue: u64, queue_type: i32) -> SessionModel {
    let entered = SessionModel { submit: s.submit + 1, ..s };
    match (discovery_of(s, queue_type), s.renderer) {
        (Discovery::Captured, RendererModel::Active(a)) => SessionModel {
            renderer: RendererModel::Active(ActiveModel { queue: Some(queue), ..a }),
            ..entered
        },
        _ => entered,
    }
}

/// What a resize call tears down before the original runs.
#[derive(Clone, Copy, Debug, PartialEq, Eq, Structural)]
pub enum ResizeStart {
    /// No renderer is active: nothing to tear down.
    NothingToTearDown,
    /// The renderer was dropped: put this window procedure back.
    Restore(WndProcRestore),
}

pub open spec fn resize_start_of(s: SessionModel) -> ResizeStart {
    match s.renderer {
        RendererModel::Active(a) => ResizeStart::Restore(
            WndProcRestore { window: a.window, wnd_proc: a.wnd_proc },
        ),
        _ => ResizeStart::NothingToTearDown,
    }
}

pub open spec fn resize_model(s: SessionModel) -> SessionModel {
    let entered = SessionModel { resize: s.resize + 1, ..s };
    if s.renderer is Active {
        SessionModel { renderer: RendererModel::Invalidated, ..entered }
    } else {
        entered
    }
}

pub open spec fn route_of(s: SessionModel) -> WndProcRoute {
    match s.renderer {
        RendererModel::Active(a) => WndProcRoute::Overlay(a.wnd_proc),
        _ => WndProcRoute::Default,
    }
}

/// The progress of a stop request.
#[derive(Clone, Copy, Debug, PartialEq, Eq, Structural)]
pub enum StopPoll {
    /// A hooked call is still in flight: wait and poll again.
    Wait,
    /// Every hook point was idle and the session's state was released;
    /// restore this window procedure if one is given.
    Released(Option<WndProcRestore>),
}

pub open spec fn stop_poll_of(s: SessionModel) -> StopPoll {
    if !quiescent(s) {
        StopPoll::Wait
    } else {
        StopPoll::Released(
            match s.renderer {
                RendererModel::Active(a) => Some(
                    WndProcRestore { window: a.window, wnd_proc: a.wnd_proc },
                ),
                _ => None,
            },
        )
    }
}

pub open spec fn stop_model(s: SessionModel) -> SessionModel {
    if !quiescent(s) {
        SessionModel { stop_requested: true, ..s }
    } else {
        SessionModel {
            stop_requested: true,
            stopped: true,
            renderer: RendererModel::Uninitialized,
            dxgi_debug: false,
            ..s
        }
    }
}

#[derive(Clone, Copy, Debug, PartialEq, Eq, Structural)]
enum Phase {
    Uninitialized,
    Active,
    Invalidated,
}

/// A hook session: the installed hook sites, one execution guard per hook
/// point, and the renderer state that the hooks share.
pub struct ImguiDx12Hooks {
    hooks: Vec<HookSite>,
    present_guard: ExecutionGuard,
    submit_guard: ExecutionGuard,
    resize_guard: ExecutionGuard,
    phase: Phase,
    queue: Option<u64>,
    window: isize,
    wnd_proc: isize,
    pool: FramePool,
    dxgi_debug: bool,
    fence_counter: u64,
    stop_requested: bool,
    stopped: bool,
}

impl View for ImguiDx12Hooks {
    type V = SessionModel;

    closed spec fn view(&self) -> SessionModel {
        SessionModel {
            hooks: self.hooks@,
            present: self.present_guard@,
            submit: self.submit_guard@,
            resize: self.resize_guard@,
            renderer: match self.phase {
                Phase::Uninitialized => RendererModel::Uninitialized,
                Phase::Invalidated => RendererModel::Invalidated,
                Phase::Active => RendererModel::Active(
                    ActiveModel {
                        queue: self.queue,
                        window: self.window,
                        wnd_proc: self.wnd_proc,
                        contexts: self.pool@,
                    },
                ),
            },
            dxgi_debug: self.dxgi_debug,
            fence_counter: self.fence_counter as nat,
            stop_requested: self.stop_requested,
            stopped: self.stopped,
        }
    }
}

impl ImguiDx12Hooks {
    /// Starts a session over the three installed hook sites, with no renderer
    /// and no call in flight.
    pub fn new(present: HookSite, submit: HookSite, resize: HookSite) -> (r: Self)
        ensures
            r@ == (SessionModel {
                hooks: seq![present, submit, resize],
                present: 0,
                submit: 0,
                resize: 0,
                renderer: RendererModel::Uninitialized,
                dxgi_debug: false,
                fence_counter: 0,
                stop_requested: false,
                stopped: false,
            }),
    {
        let mut hooks: Vec<HookSite> = Vec::new();
        hooks.push(present);
        hooks.push(submit);
        hooks.push(resize);
        let pool = FramePool::empty();
        let r = ImguiDx12Hooks {
            hooks,
            present_guard: ExecutionGuard::new(),
            submit_guard: ExecutionGuard::new(),
            resize_guard: ExecutionGuard::new(),
            phase: Phase::Uninitialized,
            queue: None,
            window: 0,
            wnd_proc: 0,
            pool,
            dxgi_debug: false,
            fence_counter: 0,
            stop_requested: false,
            stopped: false,
        };
        assert(r@.hooks =~= seq![present, submit, resize]);
        r
    }

    /// Enters the present hook and says how the call proceeds.
    pub fn begin_present(&mut self) -> (r: PresentStart)
        requires
            old(self)@.present < u32::MAX,
        ensures
            r == present_start_of(old(self)@),
            final(self)@ == (SessionModel { present: old(self)@.present + 1, ..old(self)@ }),
    {
        self.present_guard.enter();
        if self.stop_requested {
            PresentStart::PassThrough
        } else if self.phase == Phase::Active {
            PresentStart::Render
        } else {
            PresentStart::Activate
        }
    }

    /// Leaves the present hook.
    pub fn end_present(&mut self)
        requires
            old(self)@.present > 0,
        ensures
            final(self)@ == (SessionModel { present: (old(self)@.present - 1) as nat, ..old(self)@ }),
    {
        self.present_guard.leave();
    }

    /// Makes the renderer active over a swap chain of `buffer_count` back
    /// buffers whose render-target descriptors start at `heap_base`, `stride`
    /// bytes apart, with `wnd_proc` the window procedure of `window` that the
    /// overlay's procedure replaced. No queue is known yet.
    pub fn activate(
        &mut self,
        buffer_count: u32,
        heap_base: usize,
        stride: u32,
        window: isize,
        wnd_proc: isize,
    ) -> (r: Result<(), ActivationError>)
        ensures
            r == activation_of(old(self)@, buffer_count, heap_base, stride),
            final(self)@ == activate_model(
                old(self)@,
                buffer_count,
                heap_base,
                stride,
                window,
                wnd_proc,
            ),
    {
        if self.stop_requested {
            return Err(ActivationError::Stopping);
        }
        if self.phase == Phase::Active {
            return Err(ActivationError::AlreadyActive);
        }
        match FramePool::build(buffer_count, heap_base, stride) {
            None => Err(ActivationError::DescriptorOverflow),
            Some(pool) => {
                self.pool = pool;
                self.queue = None;
                self.window = window;
                self.wnd_proc = wnd_proc;
                self.phase = Phase::Active;
                Ok(())
            },
        }
    }

    /// Decides the overlay's work for the back buffer `buffer_index` when the
    /// GPU has completed fence value `completed` on it. A recorded frame
    /// takes the next fence value, larger than every value handed out before.
    pub fn render_step(&mut self, buffer_index: u32, completed: u64) -> (r: RenderStep)
        requires
            old(self)@.fence_counter < u64::MAX,
        ensures
            r == render_step_of(old(self)@, buffer_index, completed),
            final(self)@ == render_model(old(self)@, buffer_index, completed),
            r matches RenderStep::Record { fence_value, .. } ==> {
                &&& old(self)@.renderer matches RendererModel::Active(a)
                &&& buffer_index < a.contexts.len()
                &&& completed >= a.contexts[buffer_index as int].fence_val
                &&& fence_value == old(self)@.fence_counter + 1
            },
    {
        if self.phase != Phase::Active {
            return RenderStep::NotActive;
        }
        let queue = match self.queue {
            None => {
                return RenderStep::NullQueue;
            },
            Some(q) => q,
        };
        let fresh = self.fence_counter + 1;
        match self.pool.step(buffer_index, completed, fresh) {
            FrameStep::OutOfRange => RenderStep::OutOfRange,
            FrameStep::WaitFence(v) => RenderStep::WaitFence(v),
            FrameStep::Record { descriptor, fence_value } => {
                self.fence_counter = fresh;
                RenderStep::Record { queue, descriptor, fence_value }
            },
        }
    }

    /// Enters the submission hook for a call on `queue`, whose raw queue type
    /// is `queue_type`, and runs queue discovery.
    pub fn begin_submit(&mut self, queue: u64, queue_type: i32) -> (r: Discovery)
        requires
            old(self)@.submit < u32::MAX,
        ensures
            r == discovery_of(old(self)@, queue_type),
            final(self)@ == submit_model(old(self)@, queue, queue_type),
    {
        self.submit_guard.enter();
        if self.phase == Phase::Active && self.queue.is_some() {
            Discovery::AlreadyCaptured
        } else if queue_type != DIRECT_QUEUE_TYPE {
            Discovery::WrongClass
        } else if self.phase == Phase::Active {
            self.queue = Some(queue);
            Discovery::Captured
        } else {
            Discovery::NoRenderer
        }
    }

    /// Leaves the submission hook.
    pub fn end_submit(&mut self)
        requires
            old(self)@.submit > 0,
        ensures
            final(self)@ == (SessionModel { submit: (old(self)@.submit - 1) as nat, ..old(self)@ }),
    {
        self.submit_guard.leave();
    }

    /// Enters the resize hook. An active renderer is dropped, with its queue
    /// and frame contexts, before the original resize runs.
    pub fn begin_resize(&mut self) -> (r: ResizeStart)
        requires
            old(self)@.resize < u32::MAX,
        ensures
            r == resize_start_of(old(self)@),
            final(self)@ == resize_model(old(self)@),
    {
        self.resize_guard.enter();
        if self.phase == Phase::Active {
            self.phase = Phase::Invalidated;
            self.queue = None;
            self.pool = FramePool::empty();
            ResizeStart::Restore(WndProcRestore { window: self.window, wnd_proc: self.wnd_proc })
        } else {
            ResizeStart::NothingToTearDown
        }
    }

    /// Leaves the resize hook.
    pub fn end_resize(&mut self)
        requires
            old(self)@.resize > 0,
        ensures
            final(self)@ == (SessionModel { resize: (old(self)@.resize - 1) as nat, ..old(self)@ }),
    {
        self.resize_guard.leave();
    }

    /// Where a message to the host window goes.
    pub fn wnd_proc_route(&self) -> (r: WndProcRoute)
        ensures
            r == route_of(self@),
    {
        if self.phase == Phase::Active {
            WndProcRoute::Overlay(self.wnd_proc)
        } else {
            WndProcRoute::Default
        }
    }

    /// Requests the session's end and releases its state once no hooked call
    /// is in flight on any hook point. Until then, every hook passes its
    /// calls straight to the original.
    pub fn poll_stop(&mut self) -> (r: StopPoll)
        ensures
            r == stop_poll_of(old(self)@),
            final(self)@ == stop_model(old(self)@),
            r is Released <==> quiescent(old(self)@),
    {
        self.stop_requested = true;
        if !self.present_guard.is_idle() || !self.submit_guard.is_idle()
            || !self.resize_guard.is_idle() {
            return StopPoll::Wait;
        }
        let restore = if self.phase == Phase::Active {
            Some(WndProcRestore { window: self.window, wnd_proc: self.wnd_proc })
        } else {
            None
        };
        self.phase = Phase::Uninitialized;
        self.queue = None;
        self.pool = FramePool::empty();
        self.dxgi_debug = false;
        self.stopped = true;
        StopPoll::Released(restore)
    }

    /// Whether the session's state has been released.
    pub fn is_stopped(&self) -> (r: bool)
        ensures
            r == self@.stopped,
    {
        self.stopped
    }

    /// The hook sites of the session, in the order present, submit, resize.
    pub fn hooks(&self) -> (r: &[HookSite])
        ensures
            r@ == self@.hooks,
    {
        self.hooks.as_slice()
    }

    /// Whether the graphics API's debug messages are drained after each
    /// present.
    pub fn dxgi_debug_enabled(&self) -> (r: bool)
        ensures
            r == self@.dxgi_debug,
    {
        self.dxgi_debug
    }

    /// The discovered submission queue, if any.
    pub fn captured_queue(&self) -> (r: Option<u64>)
        ensures
            r == captured_of(self@),
    {
        if self.phase == Phase::Active {
            self.queue
        } else {
            None
        }
    }

    /// Whether the renderer is active.
    pub fn is_active(&self) -> (r: bool)
        ensures
            r == self@.renderer is Active,
    {
        self.phase == Phase::Active
    }

    /// Whether the renderer was dropped by a resize and not yet rebuilt.
    pub fn is_invalidated(&self) -> (r: bool)
        ensures
            r == self@.renderer is Invalidated,
    {
        self.phase == Phase::Invalidated
    }

    /// The number of frame contexts of the active renderer; zero when none
    /// is active.
    pub fn frame_context_count(&self) -> (r: usize)
        ensures
            r == match self@.renderer {
                RendererModel::Active(a) => a.contexts.len(),
                _ => 0,
            },
    {
        if self.phase == Phase::Active {
            self.pool.len()
        } else {
            0
        }
    }

    /// The last fence value handed out.
    pub fn fence_counter(&self) -> (r: u64)
        ensures
            r == self@.fence_counter,
    {
        self.fence_counter
    }

    /// The number of calls in flight through the present, submit and resize
    /// hooks.
    pub fn calls_in_flight(&self) -> (r: (u32, u32, u32))
        ensures
            r.0 == self@.present,
            r.1 == self@.submit,
            r.2 == self@.resize,
    {
        (self.present_guard.in_flight(), self.submit_guard.in_flight(), self.resize_guard.in_flight())
    }
}

/// Turns on the draining of the graphics API's debug messages after each
/// present.
pub fn enable_dxgi_debug(hooks: &mut ImguiDx12Hooks)
    ensures
        final(hooks)@ == (SessionModel { dxgi_debug: true, ..old(hooks)@ }),
{
    hooks.dxgi_debug = true;
}

/// Turns off the draining of the graphics API's debug messages.
pub fn disable_dxgi_debug(hooks: &mut ImguiDx12Hooks)
    ensures
        final(hooks)@ == (SessionModel { dxgi_debug: false, ..old(hooks)@ }),
{
    hooks.dxgi_debug = false;
}

} // verus!
