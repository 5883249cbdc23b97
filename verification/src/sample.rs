//! The sample itself: two-phase construction and the frame loop.
//!
//! A [`Sample`] is created unbound ([`Sample::new`]), then bound to a
//! window once the swap chain exists and its backbuffer count and current
//! index are known ([`Sample::bind_to_window`]). Binding builds the frame
//! slot table, the transition tracker and the fence, and primes slot
//! reuse; only a bound sample can render, so "recorded before bound" is
//! ruled out by precondition rather than discovered at run time.
//!
//! Each [`Sample::render`] call records the current slot's command list,
//! has the work submitted and presented, and advances to the backbuffer
//! index the swap chain reports next, waiting exactly when that slot's
//! previous submission has not retired. [`Sample::on_destroy`] drains all
//! slots so teardown can release every resource safely.

use vstd::prelude::*;

use crate::barrier::{ResourceState, TransitionTracker};
use crate::command_line::SampleCommandLine;
use crate::commands::{
    ClosedCommandList,
    populate_command_list,
    spec_frame_commands,
    spec_rtv_offset,
};
use crate::fence::FenceClock;
use crate::resources::{Resources, move_to_next_frame, wait_for_gpu, wait_for_gpu_idle};

verus! {

/// The frame-pipelining state that binding to a window produces.
pub struct FrameState {
    /// The frame slot table and fence bookkeeping.
    pub resources: Resources,
    /// The fence the slot table is synchronized against.
    pub fence: FenceClock,
    /// The current role of every render target.
    pub tracker: TransitionTracker,
    /// Byte distance between consecutive render-target views in the
    /// descriptor heap, as reported by the device.
    pub rtv_descriptor_size: u32,
}

impl FrameState {
    /// The pieces agree with one another: the fence mirrors the
    /// bookkeeping's signal level, the observed completed value has
    /// reached the current slot's record gate, and every render target is
    /// presentable between frames.
    pub open spec fn wf(&self) -> bool {
        &&& self.resources.wf()
        &&& self.fence.wf()
        &&& self.fence.signaled() == self.resources.signaled()
        &&& self.fence.completed() >= self.resources.gate()
        &&& self.tracker@.len() == self.resources.slot_count()
        &&& forall|i: int|
            0 <= i < self.tracker@.len() ==> self.tracker@[i] == ResourceState::Present
    }
}

/// A triangle sample around the frame-pipelining engine.
pub struct Sample {
    window_size: (i32, i32),
    use_warp_device: bool,
    resources: Option<FrameState>,
}

impl Sample {
    /// The bound state, if any.
    pub closed spec fn state(&self) -> Option<FrameState> {
        self.resources
    }

    /// Whether the sample has been bound to a window.
    pub open spec fn is_bound(&self) -> bool {
        self.state() is Some
    }

    /// The frame-pipelining state of a bound sample.
    pub open spec fn frame(&self) -> FrameState {
        self.state()->0
    }

    pub open spec fn wf(&self) -> bool {
        self.is_bound() ==> self.frame().wf()
    }

    /// The buffering depth N of a bound sample.
    pub open spec fn slot_count(&self) -> nat {
        self.frame().resources.slot_count()
    }

    /// The current slot index of a bound sample.
    pub open spec fn current(&self) -> int {
        self.frame().resources.current()
    }

    /// The target fence value of every slot of a bound sample.
    pub open spec fn targets(&self) -> Seq<u64> {
        self.frame().resources.targets()
    }

    /// The fence value the GPU has reached.
    pub open spec fn completed(&self) -> u64 {
        self.frame().fence.completed()
    }

    /// The highest fence value whose signal has been requested.
    pub open spec fn signaled(&self) -> u64 {
        self.frame().fence.signaled()
    }

    /// The fence value gating the current slot's reuse.
    pub open spec fn gate(&self) -> u64 {
        self.frame().resources.gate()
    }

    pub closed spec fn spec_window_size(&self) -> (i32, i32) {
        self.window_size
    }

    pub closed spec fn spec_use_warp_device(&self) -> bool {
        self.use_warp_device
    }

    /// Creates the sample, unbound, with the default window size.
    pub fn new(command_line: &SampleCommandLine) -> (s: Sample)
        ensures
            s.wf(),
            !s.is_bound(),
            s.spec_window_size() == (1280i32, 720i32),
            s.spec_use_warp_device() == command_line.use_warp_device,
    {
        Sample {
            window_size: (1280, 720),
            use_warp_device: command_line.use_warp_device,
            resources: None,
        }
    }

    /// Binds the sample to a window whose swap chain has `buffer_count`
    /// backbuffers and currently stands at `initial_frame_index`, then
    /// primes the slot table: slot targets start at zero, the initial
    /// slot's zero target is signalled and — being already completed —
    /// waited for without blocking, and that slot's target moves to one.
    pub fn bind_to_window(
        &mut self,
        buffer_count: usize,
        initial_frame_index: u32,
        rtv_descriptor_size: u32,
    )
        requires
            old(self).wf(),
            !old(self).is_bound(),
            2 <= buffer_count,
            (initial_frame_index as int) < buffer_count,
        ensures
            final(self).wf(),
            final(self).is_bound(),
            final(self).slot_count() == buffer_count,
            final(self).current() == initial_frame_index,
            final(self).targets()[initial_frame_index as int] == 1,
            forall|i: int|
                0 <= i < buffer_count && i != initial_frame_index ==> final(self).targets()[i]
                    == 0,
            final(self).completed() == 0,
            final(self).signaled() == 0,
            final(self).gate() == 0,
            final(self).frame().rtv_descriptor_size == rtv_descriptor_size,
            final(self).spec_window_size() == old(self).spec_window_size(),
            final(self).spec_use_warp_device() == old(self).spec_use_warp_device(),
    {
        let mut resources = Resources::new(buffer_count, initial_frame_index);
        let mut fence = FenceClock::new();
        let tracker = TransitionTracker::new(buffer_count);

        // Prime the table so the steady-state loop needs no special case.
        let completed = fence.completed_value();
        let req = wait_for_gpu(&mut resources, completed);
        fence.signal(req.signal);
        if let Some(value) = req.wait {
            fence.block_until(value);
        }

        self.resources = Some(FrameState { resources, fence, tracker, rtv_descriptor_size });
    }

    /// Renders one frame: records and closes the current slot's command
    /// list (for submission and present by the caller's queue and swap
    /// chain), then advances to `next_frame_index`, the backbuffer index
    /// the swap chain reports after the present.
    ///
    /// The returned list is the fixed draw sequence for the slot that was
    /// current on entry. Afterwards that slot's submission target has been
    /// signalled, the next slot's target sits strictly above every target
    /// it held before, and the fence has completed at least the new
    /// current slot's record gate — the next recording may proceed.
    pub fn render(&mut self, next_frame_index: u32) -> (list: ClosedCommandList)
        requires
            old(self).wf(),
            old(self).is_bound(),
            (next_frame_index as int) < old(self).slot_count(),
            old(self).targets()[old(self).current()] < u64::MAX,
        ensures
            final(self).wf(),
            final(self).is_bound(),
            final(self).slot_count() == old(self).slot_count(),
            list.slot == old(self).current(),
            list.commands@ == spec_frame_commands(
                list.slot,
                spec_rtv_offset(list.slot, old(self).frame().rtv_descriptor_size),
            ),
            final(self).current() == next_frame_index,
            final(self).signaled() == old(self).targets()[old(self).current()],
            final(self).targets() == old(self).targets().update(
                next_frame_index as int,
                (old(self).targets()[old(self).current()] + 1) as u64,
            ),
            final(self).targets()[next_frame_index as int] > old(self).targets()[
                next_frame_index as int],
            final(self).gate() == old(self).targets()[next_frame_index as int],
            final(self).completed() == (if old(self).completed() >= old(self).targets()[
                next_frame_index as int] {
                old(self).completed()
            } else {
                old(self).targets()[next_frame_index as int]
            }),
            final(self).frame().rtv_descriptor_size == old(self).frame().rtv_descriptor_size,
            final(self).spec_window_size() == old(self).spec_window_size(),
            final(self).spec_use_warp_device() == old(self).spec_use_warp_device(),
    {
        match &mut self.resources {
            Some(fs) => {
                // Record all commands for the current slot; the record gate
                // has been met since the last advance.
                let completed = fs.fence.completed_value();
                let list = populate_command_list(
                    &fs.resources,
                    &mut fs.tracker,
                    completed,
                    fs.rtv_descriptor_size,
                );

                // The caller submits the closed list to the command queue and
                // presents the backbuffer; then the frame is advanced.
                let signal_value = fs.resources.current_target();
                fs.fence.signal(signal_value);
                let observed = fs.fence.completed_value();
                let req = move_to_next_frame(&mut fs.resources, next_frame_index, observed);
                if let Some(value) = req.wait {
                    fs.fence.block_until(value);
                }

                list
            },
            None => vstd::pervasive::unreached(),
        }
    }

    /// Drains the GPU before teardown: signals the maximum target value
    /// across all slots and waits until the fence reaches it, after which
    /// no slot's work is in flight and every resource may be released.
    /// Slot state is untouched, so a second call finds the fence already
    /// at the drain value and does not wait.
    pub fn on_destroy(&mut self)
        requires
            old(self).wf(),
        ensures
            final(self).wf(),
            final(self).is_bound() == old(self).is_bound(),
            old(self).is_bound() ==> {
                &&& final(self).targets() == old(self).targets()
                &&& final(self).current() == old(self).current()
                &&& final(self).slot_count() == old(self).slot_count()
                &&& final(self).completed() == final(self).signaled()
                &&& forall|i: int|
                    0 <= i < final(self).slot_count() ==> final(self).targets()[i]
                        <= final(self).completed()
            },
    {
        match &mut self.resources {
            Some(fs) => {
                let completed = fs.fence.completed_value();
                let req = wait_for_gpu_idle(&mut fs.resources, completed);
                fs.fence.signal(req.signal);
                if let Some(value) = req.wait {
                    fs.fence.block_until(value);
                }
            },
            None => {},
        }
    }

    /// Per-frame update hook; the scene is static, so there is nothing to
    /// update.
    pub fn update(&mut self)
        ensures
            *final(self) == *old(self),
    {
    }

    /// Key-press hook; the sample takes no keyboard input.
    pub fn on_key_down(&mut self, _key: u8)
        ensures
            *final(self) == *old(self),
    {
    }

    /// Key-release hook; the sample takes no keyboard input.
    pub fn on_key_up(&mut self, _key: u8)
        ensures
            *final(self) == *old(self),
    {
    }

    /// The window title.
    pub fn title(&self) -> (t: String)
        ensures
            t@ == "D3D12 Hello Triangle (Frame Buffered)"@,
    {
        "D3D12 Hello Triangle (Frame Buffered)".to_owned()
    }

    /// The window size.
    pub fn window_size(&self) -> (s: (i32, i32))
        ensures
            s == self.spec_window_size(),
    {
        self.window_size
    }

    /// Whether the software rasterizer was requested.
    pub fn use_warp_device(&self) -> (b: bool)
        ensures
            b == self.spec_use_warp_device(),
    {
        self.use_warp_device
    }

    /// Whether the sample has been bound to a window.
    pub fn bound(&self) -> (b: bool)
        ensures
            b == self.is_bound(),
    {
        self.resources.is_some()
    }

    /// The buffering depth N.
    pub fn frame_count(&self) -> (n: usize)
        requires
            self.is_bound(),
        ensures
            n == self.slot_count(),
    {
        match &self.resources {
            Some(fs) => fs.resources.frame_count(),
            None => vstd::pervasive::unreached(),
        }
    }

    /// The current slot index.
    pub fn frame_index(&self) -> (i: u32)
        requires
            self.is_bound(),
        ensures
            i as int == self.current(),
    {
        match &self.resources {
            Some(fs) => fs.resources.frame_index(),
            None => vstd::pervasive::unreached(),
        }
    }

    /// Slot `slot`'s target fence value.
    pub fn target_fence_value(&self, slot: usize) -> (v: u64)
        requires
            self.is_bound(),
            slot < self.slot_count(),
        ensures
            v == self.targets()[slot as int],
    {
        match &self.resources {
            Some(fs) => fs.resources.target_fence_value(slot),
            None => vstd::pervasive::unreached(),
        }
    }

    /// The fence value the GPU has reached.
    pub fn completed_value(&self) -> (v: u64)
        requires
            self.is_bound(),
        ensures
            v == self.completed(),
    {
        match &self.resources {
            Some(fs) => fs.fence.completed_value(),
            None => vstd::pervasive::unreached(),
        }
    }

    /// The highest fence value whose signal has been requested.
    pub fn last_signaled_value(&self) -> (v: u64)
        requires
            self.is_bound(),
        ensures
            v == self.signaled(),
    {
        match &self.resources {
            Some(fs) => fs.fence.last_signaled_value(),
            None => vstd::pervasive::unreached(),
        }
    }

    /// The fence value that must have completed before the current slot
    /// may be recorded into.
    pub fn record_gate(&self) -> (v: u64)
        requires
            self.is_bound(),
        ensures
            v == self.gate(),
    {
        match &self.resources {
            Some(fs) => fs.resources.record_gate(),
            None => vstd::pervasive::unreached(),
        }
    }
}

/// In every reachable bound state the fence has already completed the
/// current slot's record gate — the target recorded during that slot's
/// previous use. Recording ([`populate_command_list`]) demands exactly
/// this of its observed fence value, so the scheduler can never record
/// into a slot whose previous submission is still in flight.
pub proof fn lemma_record_never_precedes_completion(s: &Sample)
    requires
        s.wf(),
        s.is_bound(),
    ensures
        s.completed() >= s.gate(),
{
}

} // verus!
