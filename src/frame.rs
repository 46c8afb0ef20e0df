//! The per-back-buffer pool of frame contexts and its fence bookkeeping.
use vstd::prelude::*;

verus! {

/// What the overlay keeps for one back buffer: the render-target descriptor
/// address and the fence value this buffer's last submission was signaled
/// with (zero before its first frame, which a fresh fence already reads as
/// complete).
#[derive(Clone, Copy, Debug, PartialEq, Eq, Structural)]
pub struct FrameContext {
    pub desc_handle: usize,
    pub fence_val: u64,
}

/// The descriptor address of buffer `i`: a fixed offset from the heap base.
pub open spec fn descriptor_at(base: usize, stride: u32, i: int) -> int {
    base + i * stride
}

/// Whether every descriptor address of a pool of `count` buffers fits in a
/// `usize`.
pub open spec fn pool_fits(count: u32, base: usize, stride: u32) -> bool {
    count == 0 || descriptor_at(base, stride, count - 1) <= usize::MAX
}

/// The contexts of a freshly built pool.
pub open spec fn fresh_contexts(count: u32, base: usize, stride: u32) -> Seq<FrameContext> {
    Seq::new(
        count as nat,
        |i: int| FrameContext { desc_handle: descriptor_at(base, stride, i) as usize, fence_val: 0 },
    )
}

/// What to do with the frame context of the current back buffer.
#[derive(Clone, Copy, Debug, PartialEq, Eq, Structural)]
pub enum FrameStep {
    /// The host reported a buffer index that the pool does not hold.
    OutOfRange,
    /// The GPU has not finished the buffer's previous frame: wait until the
    /// fence reaches this value, then ask again.
    WaitFence(u64),
    /// Record into this descriptor, submit, and signal this fence value.
    Record { descriptor: usize, fence_value: u64 },
}

/// The decision for buffer `idx` when the GPU has completed `completed` and
/// `fresh` is the next unused fence value.
pub open spec fn frame_step_of(
    contexts: Seq<FrameContext>,
    idx: u32,
    completed: u64,
    fresh: u64,
) -> FrameStep {
    if idx >= contexts.len() {
        FrameStep::OutOfRange
    } else if completed < contexts[idx as int].fence_val {
        FrameStep::WaitFence(contexts[idx as int].fence_val)
    } else {
        FrameStep::Record { descriptor: contexts[idx as int].desc_handle, fence_value: fresh }
    }
}

/// The contexts after a step: a recorded buffer now waits on its new value.
pub open spec fn contexts_after(
    contexts: Seq<FrameContext>,
    idx: u32,
    completed: u64,
    fresh: u64,
) -> Seq<FrameContext> {
    match frame_step_of(contexts, idx, completed, fresh) {
        FrameStep::Record { descriptor, fence_value } => contexts.update(
            idx as int,
            FrameContext { desc_handle: descriptor, fence_val: fence_value },
        ),
        _ => contexts,
    }
}

/// One frame context per back buffer, built together and dropped together.
pub struct FramePool {
    contexts: Vec<FrameContext>,
}

impl View for FramePool {
    type V = Seq<FrameContext>;

    closed spec fn view(&self) -> Seq<FrameContext> {
        self.contexts@
    }
}

impl FramePool {
    /// Builds the pool for `count` back buffers whose render-target
    /// descriptors start at `base` and lie `stride` bytes apart; `None` when
    /// the last descriptor address would not fit in a `usize`.
    pub fn build(count: u32, base: usize, stride: u32) -> (r: Option<FramePool>)
        ensures
            r.is_some() == pool_fits(count, base, stride),
            r matches Some(p) ==> p@ == fresh_contexts(count, base, stride),
    {
        let mut contexts: Vec<FrameContext> = Vec::new();
        let mut handle: usize = base;
        let mut i: u32 = 0;
        while i < count
            invariant
                i <= count,
                i < count ==> handle as int == descriptor_at(base, stride, i as int),
                contexts@ == fresh_contexts(i, base, stride),
                i > 0 ==> descriptor_at(base, stride, i - 1) <= usize::MAX,
            decreases count - i,
        {
            contexts.push(FrameContext { desc_handle: handle, fence_val: 0 });
            assert(contexts@ =~= fresh_contexts((i + 1) as u32, base, stride));
            proof {
                assert(i * stride + stride == (i + 1) * stride) by (nonlinear_arith);
            }
            i = i + 1;
            if i < count {
                match handle.checked_add(stride as usize) {
                    Some(h) => {
                        handle = h;
                    },
                    None => {
                        proof {
                            assert(i * stride <= (count - 1) * stride) by (nonlinear_arith)
                                requires
                                    i <= count - 1,
                            ;
                        }
                        return None;
                    },
                }
            }
        }
        Some(FramePool { contexts })
    }

    /// A pool with no frame context.
    pub fn empty() -> (r: FramePool)
        ensures
            r@ == Seq::<FrameContext>::empty(),
    {
        FramePool { contexts: Vec::new() }
    }

    /// The number of frame contexts.
    pub fn len(&self) -> (r: usize)
        ensures
            r == self@.len(),
    {
        self.contexts.len()
    }

    /// Decides what to do for buffer `idx`: wait for its previous frame, or
    /// record the next one under the fresh fence value `fresh`.
    pub fn step(&mut self, idx: u32, completed: u64, fresh: u64) -> (r: FrameStep)
        ensures
            r == frame_step_of(old(self)@, idx, completed, fresh),
            final(self)@ == contexts_after(old(self)@, idx, completed, fresh),
    {
        if idx as usize >= self.contexts.len() {
            return FrameStep::OutOfRange;
        }
        let ctx = self.contexts[idx as usize];
        if completed < ctx.fence_val {
            FrameStep::WaitFence(ctx.fence_val)
        } else {
            self.contexts.set(
                idx as usize,
                FrameContext { desc_handle: ctx.desc_handle, fence_val: fresh },
            );
            FrameStep::Record { descriptor: ctx.desc_handle, fence_value: fresh }
        }
    }
}

} // verus!
