//! Resource transition barriers.
//!
//! A swap-chain buffer alternates between two roles: it is presented by the
//! compositor, and it is drawn into as a render target. Moving between the
//! roles requires an explicit transition barrier in the command stream.
//! The [`TransitionTracker`] keeps the current role of every buffer, so a
//! transition whose before-state is wrong is rejected locally instead of
//! surfacing as a silent validation warning on the device.

use vstd::prelude::*;

use crate::report::MyReport;

verus! {

/// The role a render-target resource is in.
#[derive(Clone, Copy, Debug, PartialEq, Eq, Structural)]
pub enum ResourceState {
    /// The buffer is owned by the presentation engine.
    Present,
    /// The buffer is bound as a render target.
    RenderTarget,
}

/// A transition barrier description: move `resource` (a frame-slot index,
/// standing for the render target permanently bound to that slot) from
/// `state_before` to `state_after`.
#[derive(Clone, Copy, Debug, PartialEq, Eq, Structural)]
pub struct TransitionBarrier {
    pub resource: u32,
    pub state_before: ResourceState,
    pub state_after: ResourceState,
}

/// Builds the barrier description for one transition. Stateless: the caller
/// supplies both states.
pub fn transition_barrier(
    resource: u32,
    state_before: ResourceState,
    state_after: ResourceState,
) -> (b: TransitionBarrier)
    ensures
        b == (TransitionBarrier { resource, state_before, state_after }),
{
    TransitionBarrier { resource, state_before, state_after }
}

/// The current role of every render target, indexed by frame slot.
///
/// This is the source of truth the stateless barrier helper lacks: every
/// transition goes through [`TransitionTracker::transition`], which derives
/// the before-state from the map and updates it, so two same-direction
/// transitions in a row for one resource are impossible by construction.
pub struct TransitionTracker {
    states: Vec<ResourceState>,
}

impl View for TransitionTracker {
    type V = Seq<ResourceState>;

    closed spec fn view(&self) -> Seq<ResourceState> {
        self.states@
    }
}

impl TransitionTracker {
    /// Creates a tracker for `count` resources, all initially presentable.
    pub fn new(count: usize) -> (t: TransitionTracker)
        ensures
            t@.len() == count,
            forall|i: int| 0 <= i < count ==> t@[i] == ResourceState::Present,
    {
        let mut states: Vec<ResourceState> = Vec::new();
        let mut i: usize = 0;
        while i < count
            invariant
                i <= count,
                states@.len() == i,
                forall|j: int| 0 <= j < i ==> states@[j] == ResourceState::Present,
            decreases count - i,
        {
            states.push(ResourceState::Present);
            i = i + 1;
        }
        TransitionTracker { states }
    }

    /// Moves `resource` into `state_after`, returning the barrier that
    /// performs the move. Fails, leaving the map unchanged, exactly when the
    /// resource is already in `state_after`.
    pub fn transition(&mut self, resource: u32, state_after: ResourceState) -> (r: Result<
        TransitionBarrier,
        MyReport,
    >)
        requires
            (resource as int) < old(self)@.len(),
        ensures
            final(self)@.len() == old(self)@.len(),
            r is Ok <==> old(self)@[resource as int] != state_after,
            r matches Ok(b) ==> {
                &&& b == (TransitionBarrier {
                    resource,
                    state_before: old(self)@[resource as int],
                    state_after,
                })
                &&& final(self)@ == old(self)@.update(resource as int, state_after)
            },
            r is Err ==> final(self)@ == old(self)@ && r == Err::<TransitionBarrier, MyReport>(
                MyReport { kind: crate::report::ReportKind::RedundantTransition { resource } },
            ),
    {
        let state_before = self.states[resource as usize];
        if state_before == state_after {
            Err(MyReport::redundant_transition(resource))
        } else {
            self.states.set(resource as usize, state_after);
            Ok(transition_barrier(resource, state_before, state_after))
        }
    }

    /// As [`Self::transition`], for callers that have already established
    /// the resource is not in `state_after`.
    pub fn apply_transition(&mut self, resource: u32, state_after: ResourceState) -> (b:
        TransitionBarrier)
        requires
            (resource as int) < old(self)@.len(),
            old(self)@[resource as int] != state_after,
        ensures
            b == (TransitionBarrier {
                resource,
                state_before: old(self)@[resource as int],
                state_after,
            }),
            final(self)@ == old(self)@.update(resource as int, state_after),
    {
        let state_before = self.states[resource as usize];
        self.states.set(resource as usize, state_after);
        transition_barrier(resource, state_before, state_after)
    }

    /// The number of tracked resources.
    pub fn len(&self) -> (n: usize)
        ensures
            n == self@.len(),
    {
        self.states.len()
    }

    /// The current role of `resource`.
    pub fn state(&self, resource: u32) -> (s: ResourceState)
        requires
            (resource as int) < self@.len(),
        ensures
            s == self@[resource as int],
    {
        self.states[resource as usize]
    }
}

} // verus!
