//! A model of the GPU fence.
//!
//! The fence is a monotonic counter shared between CPU and GPU. The CPU
//! asks the command queue to raise it to a value once all previously
//! submitted work has completed (`signal`), reads the value the GPU has
//! reached (`completed_value`), and blocks until a value is reached
//! (`block_until`). The completed value never exceeds the highest value
//! whose signal has been requested, and only ever grows.
//!
//! [`FenceClock`] captures exactly that contract over plain values, so the
//! whole frame loop can be run and checked against it. The wait has no
//! timeout and no cancellation: `block_until` demands that the value it is
//! given has already been scheduled for signalling, since a value the GPU
//! was never asked to reach would never arrive.

use vstd::prelude::*;

verus! {

/// A monotonic completion counter with a signal request level.
pub struct FenceClock {
    completed: u64,
    last_signaled: u64,
}

impl FenceClock {
    /// The value the counter has reached.
    pub closed spec fn completed(&self) -> u64 {
        self.completed
    }

    /// The highest value a signal has been requested for.
    pub closed spec fn signaled(&self) -> u64 {
        self.last_signaled
    }

    /// The counter can never overtake the highest requested signal.
    pub open spec fn wf(&self) -> bool {
        self.completed() <= self.signaled()
    }

    /// A fresh fence, created at value zero with nothing signalled.
    pub fn new() -> (f: FenceClock)
        ensures
            f.wf(),
            f.completed() == 0,
            f.signaled() == 0,
    {
        FenceClock { completed: 0, last_signaled: 0 }
    }

    /// Requests that the fence be raised to `value` once all work submitted
    /// so far has completed. Non-blocking; signal values never decrease.
    pub fn signal(&mut self, value: u64)
        requires
            old(self).wf(),
            value >= old(self).signaled(),
        ensures
            final(self).wf(),
            final(self).signaled() == value,
            final(self).completed() == old(self).completed(),
    {
        self.last_signaled = value;
    }

    /// The highest value a signal has been requested for.
    pub fn last_signaled_value(&self) -> (v: u64)
        ensures
            v == self.signaled(),
    {
        self.last_signaled
    }

    /// The fence value as observed from the CPU.
    pub fn completed_value(&self) -> (v: u64)
        ensures
            v == self.completed(),
    {
        self.completed
    }

    /// Blocks until the fence reaches `value`; returns with the completed
    /// value at least `value`. Only a value that has been scheduled for
    /// signalling may be waited for — there is no timeout, so waiting for
    /// anything else would never return.
    pub fn block_until(&mut self, value: u64)
        requires
            old(self).wf(),
            value <= old(self).signaled(),
        ensures
            final(self).wf(),
            final(self).signaled() == old(self).signaled(),
            final(self).completed() == (if old(self).completed() >= value {
                old(self).completed()
            } else {
                value
            }),
            final(self).completed() >= value,
    {
        if self.completed < value {
            self.completed = value;
        }
    }
}

} // verus!
