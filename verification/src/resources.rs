//! The frame slot table and the fence protocol that schedules its reuse.
//!
//! Each of the N frame slots owns the per-frame resources (command
//! allocator, render target) for one backbuffer, plus `target_fence_value`:
//! the fence value that this slot's most recent submission will raise the
//! fence to. The CPU may record into a slot only once the fence has reached
//! that value — the fence is the lock.
//!
//! The protocol, per rendered frame: record and submit the current slot,
//! present, then advance ([`move_to_next_frame`]): request a signal of the
//! current slot's target value, adopt the backbuffer index the swap chain
//! reports as the next slot, wait if that slot's previous submission has
//! not retired, and give the slot a fresh target one above the value just
//! signalled. Before the first frame, one [`wait_for_gpu`] call primes the
//! table; at shutdown, [`wait_for_gpu_idle`] drains every slot.
//!
//! The native queue and fence perform the actions; the caller passes the
//! observed completed value in and carries the returned [`FenceRequest`]
//! out (first the signal, then the wait, if any).

use vstd::prelude::*;

verus! {

/// Fence work the caller must perform against the native queue and fence,
/// in order: request a signal of `signal`, then, if `wait` holds a value,
/// block until the fence reaches it.
pub struct FenceRequest {
    pub signal: u64,
    pub wait: Option<u64>,
}

/// The scheduler's view of the frame slot table and fence bookkeeping.
pub struct Resources {
    /// `fence_values[i]` is slot i's target fence value.
    fence_values: Vec<u64>,
    /// The slot whose resources are presently CPU-writable; mirrors the
    /// swap chain's current backbuffer index and is never computed locally.
    frame_index: u32,
    /// The highest fence value whose signal has been requested.
    last_signaled: u64,
    /// The fence value that must have completed before the current slot
    /// may be recorded into: its target from its previous use.
    record_gate: u64,
}

impl Resources {
    /// The target fence value of every slot.
    pub closed spec fn targets(&self) -> Seq<u64> {
        self.fence_values@
    }

    /// The current slot index.
    pub closed spec fn current(&self) -> int {
        self.frame_index as int
    }

    /// The highest fence value whose signal has been requested.
    pub closed spec fn signaled(&self) -> u64 {
        self.last_signaled
    }

    /// The fence value gating the current slot's reuse.
    pub closed spec fn gate(&self) -> u64 {
        self.record_gate
    }

    /// The buffering depth N.
    pub open spec fn slot_count(&self) -> nat {
        self.targets().len()
    }

    /// The protocol invariant.
    ///
    /// Every slot except the current one has already had its target's
    /// signal requested, so any wait the protocol issues is for a value
    /// the fence is guaranteed to reach. The current slot's target is at
    /// most one ahead of the last requested signal: exactly one ahead in
    /// the steady state (the value its upcoming submission will signal),
    /// equal right after a drain.
    pub open spec fn wf(&self) -> bool {
        &&& 2 <= self.slot_count()
        &&& 0 <= self.current() < self.slot_count()
        &&& forall|i: int|
            0 <= i < self.slot_count() && i != self.current() ==> self.targets()[i]
                <= self.signaled()
        &&& self.signaled() <= self.targets()[self.current()] <= self.signaled() + 1
        &&& self.gate() <= self.signaled()
    }

    /// A fresh table: every slot's target starts at zero, nothing has been
    /// signalled, and the current slot is the backbuffer index the swap
    /// chain reported at creation.
    pub fn new(slot_count: usize, initial_frame_index: u32) -> (r: Resources)
        requires
            2 <= slot_count,
            (initial_frame_index as int) < slot_count,
        ensures
            r.wf(),
            r.slot_count() == slot_count,
            r.current() == initial_frame_index,
            r.signaled() == 0,
            r.gate() == 0,
            forall|i: int| 0 <= i < slot_count ==> r.targets()[i] == 0,
    {
        let mut fence_values: Vec<u64> = Vec::new();
        let mut i: usize = 0;
        while i < slot_count
            invariant
                i <= slot_count,
                fence_values@.len() == i,
                forall|j: int| 0 <= j < i ==> fence_values@[j] == 0,
            decreases slot_count - i,
        {
            fence_values.push(0);
            i = i + 1;
        }
        Resources { fence_values, frame_index: initial_frame_index, last_signaled: 0, record_gate: 0 }
    }

    /// The buffering depth N.
    pub fn frame_count(&self) -> (n: usize)
        ensures
            n == self.slot_count(),
    {
        self.fence_values.len()
    }

    /// The current slot index.
    pub fn frame_index(&self) -> (i: u32)
        ensures
            i as int == self.current(),
    {
        self.frame_index
    }

    /// Slot `slot`'s target fence value.
    pub fn target_fence_value(&self, slot: usize) -> (v: u64)
        requires
            slot < self.slot_count(),
        ensures
            v == self.targets()[slot as int],
    {
        self.fence_values[slot]
    }

    /// The current slot's target fence value: the value the frame about to
    /// be recorded will signal once submitted.
    pub fn current_target(&self) -> (v: u64)
        requires
            self.current() < self.slot_count(),
        ensures
            v == self.targets()[self.current()],
    {
        self.fence_values[self.frame_index as usize]
    }

    /// The highest fence value whose signal has been requested.
    pub fn last_signaled_value(&self) -> (v: u64)
        ensures
            v == self.signaled(),
    {
        self.last_signaled
    }

    /// The fence value that must have completed before the current slot may
    /// be recorded into.
    pub fn record_gate(&self) -> (v: u64)
        ensures
            v == self.gate(),
    {
        self.record_gate
    }
}

/// Waits for the GPU to retire all work up to the current slot's target,
/// then moves that target one ahead. Used to prime the table before the
/// first frame (target values start at zero, so the wait completes at
/// once) and to quiesce the current slot at teardown.
///
/// The returned request asks the caller to signal the current slot's
/// target and, exactly when the observed completed value is below it, to
/// block until the fence reaches it.
pub fn wait_for_gpu(resources: &mut Resources, completed_value: u64) -> (r: FenceRequest)
    requires
        old(resources).wf(),
        old(resources).targets()[old(resources).current()] < u64::MAX,
    ensures
        final(resources).wf(),
        r.signal == old(resources).targets()[old(resources).current()],
        r.signal >= old(resources).signaled(),
        r.wait == (if completed_value < r.signal {
            Some(r.signal)
        } else {
            None::<u64>
        }),
        final(resources).signaled() == r.signal,
        final(resources).gate() == r.signal,
        final(resources).current() == old(resources).current(),
        final(resources).targets() == old(resources).targets().update(
            old(resources).current(),
            (r.signal + 1) as u64,
        ),
        final(resources).targets()[old(resources).current()] > old(resources).targets()[old(
            resources,
        ).current()],
{
    let idx = self_index(resources);
    let fence_value = resources.fence_values[idx];
    resources.last_signaled = fence_value;
    let wait = if completed_value < fence_value {
        Some(fence_value)
    } else {
        None
    };
    resources.fence_values.set(idx, fence_value + 1);
    resources.record_gate = fence_value;
    FenceRequest { signal: fence_value, wait }
}

/// Prepares to render the next frame, after the current frame's work has
/// been submitted and presented.
///
/// The returned request asks the caller to signal the current slot's
/// target (marking what the just-submitted work will raise the fence to)
/// and then, exactly when the next slot's previous target has not yet
/// completed, to block until it has — the only CPU stall in the steady
/// state. `next_frame_index` is the backbuffer index the swap chain
/// reports after the present; the swap chain's rotation is opaque, so any
/// in-range index is accepted. The next slot then receives a target one
/// above the value just signalled — strictly above every earlier target
/// it has held — and becomes the current slot, gated on its previous
/// target.
pub fn move_to_next_frame(
    resources: &mut Resources,
    next_frame_index: u32,
    completed_value: u64,
) -> (r: FenceRequest)
    requires
        old(resources).wf(),
        (next_frame_index as int) < old(resources).slot_count(),
        old(resources).targets()[old(resources).current()] < u64::MAX,
    ensures
        final(resources).wf(),
        r.signal == old(resources).targets()[old(resources).current()],
        r.signal >= old(resources).signaled(),
        r.wait == (if completed_value < old(resources).targets()[next_frame_index as int] {
            Some(old(resources).targets()[next_frame_index as int])
        } else {
            None::<u64>
        }),
        r.wait matches Some(v) ==> v <= r.signal,
        final(resources).signaled() == r.signal,
        final(resources).current() == next_frame_index,
        final(resources).gate() == old(resources).targets()[next_frame_index as int],
        final(resources).targets() == old(resources).targets().update(
            next_frame_index as int,
            (r.signal + 1) as u64,
        ),
        final(resources).targets()[next_frame_index as int] > old(resources).targets()[
            next_frame_index as int],
{
    let idx = self_index(resources);
    let fence_value_to_signal = resources.fence_values[idx];
    resources.last_signaled = fence_value_to_signal;

    resources.frame_index = next_frame_index;
    let next = next_frame_index as usize;

    let fence_value_to_check = resources.fence_values[next];
    let wait = if completed_value < fence_value_to_check {
        Some(fence_value_to_check)
    } else {
        None
    };

    resources.fence_values.set(next, fence_value_to_signal + 1);
    resources.record_gate = fence_value_to_check;
    FenceRequest { signal: fence_value_to_signal, wait }
}

/// Waits for all submitted GPU work to retire, for safe teardown.
///
/// The returned request signals the maximum target value across all
/// slots — not merely the current slot's — and waits for exactly that
/// value whenever it has not yet completed. Once the fence reaches it, no
/// slot's work is still in flight. Slot state is left untouched, so a
/// second drain signals the same value and finds it already completed.
pub fn wait_for_gpu_idle(resources: &mut Resources, completed_value: u64) -> (r: FenceRequest)
    requires
        old(resources).wf(),
    ensures
        final(resources).wf(),
        forall|i: int|
            0 <= i < old(resources).slot_count() ==> old(resources).targets()[i] <= r.signal,
        exists|i: int|
            0 <= i < old(resources).slot_count() && old(resources).targets()[i] == r.signal,
        r.signal >= old(resources).signaled(),
        r.wait == (if completed_value < r.signal {
            Some(r.signal)
        } else {
            None::<u64>
        }),
        final(resources).signaled() == r.signal,
        final(resources).gate() == old(resources).gate(),
        final(resources).current() == old(resources).current(),
        final(resources).targets() == old(resources).targets(),
{
    let n = resources.fence_values.len();
    let mut max_fence_value = resources.fence_values[0];
    let mut i: usize = 1;
    while i < n
        invariant
            1 <= i <= n,
            n == resources.slot_count(),
            resources.wf(),
            forall|j: int| 0 <= j < i ==> resources.targets()[j] <= max_fence_value,
            exists|j: int| 0 <= j < i && resources.targets()[j] == max_fence_value,
        decreases n - i,
    {
        let v = resources.fence_values[i];
        if v > max_fence_value {
            max_fence_value = v;
        }
        i = i + 1;
    }
    let idle_fence_value = max_fence_value;

    proof {
        // The current slot's target dominates every other slot's, so the
        // maximum is the current target and signalling it is monotone.
        assert(resources.targets()[resources.current()] <= idle_fence_value);
    }
    resources.last_signaled = idle_fence_value;

    let wait = if completed_value < idle_fence_value {
        Some(idle_fence_value)
    } else {
        None
    };
    FenceRequest { signal: idle_fence_value, wait }
}

/// The current slot index as a table index.
fn self_index(resources: &Resources) -> (i: usize)
    requires
        resources.current() < resources.slot_count(),
    ensures
        i == resources.current(),
{
    resources.frame_index as usize
}

} // verus!
