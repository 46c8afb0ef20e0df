//! Quiescence tracking for one hook point.
use vstd::prelude::*;

verus! {

/// Counts the hooked calls that are currently executing through one hook
/// point. The guard is busy while at least one call is in flight and idle
/// otherwise; teardown waits until it reads idle.
pub struct ExecutionGuard {
    in_flight: u32,
}

impl View for ExecutionGuard {
    type V = nat;

    /// The number of calls in flight.
    closed spec fn view(&self) -> nat {
        self.in_flight as nat
    }
}

impl ExecutionGuard {
    /// A guard with no call in flight.
    pub fn new() -> (g: Self)
        ensures
            g@ == 0,
    {
        ExecutionGuard { in_flight: 0 }
    }

    /// Whether no call is in flight.
    pub open spec fn idle(&self) -> bool {
        self@ == 0
    }

    /// Whether another call can be entered without exhausting the counter.
    pub open spec fn can_enter(&self) -> bool {
        self@ < u32::MAX
    }

    /// Marks one more call as in flight.
    pub fn enter(&mut self)
        requires
            old(self).can_enter(),
        ensures
            final(self)@ == old(self)@ + 1,
    {
        self.in_flight = self.in_flight + 1;
    }

    /// Marks one in-flight call as finished.
    pub fn leave(&mut self)
        requires
            !old(self).idle(),
        ensures
            final(self)@ == old(self)@ - 1,
    {
        self.in_flight = self.in_flight - 1;
    }

    /// Reports whether the guard is idle.
    pub fn is_idle(&self) -> (r: bool)
        ensures
            r == self.idle(),
    {
        self.in_flight == 0
    }

    /// The number of calls in flight.
    pub fn in_flight(&self) -> (r: u32)
        ensures
            r as nat == self@,
    {
        self.in_flight
    }
}

} // verus!
