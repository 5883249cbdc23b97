//! The command recorder.
//!
//! Each frame re-records the same fixed draw sequence into the current
//! slot's command allocator: bind pipeline state, transition the slot's
//! render target from presentable to render target, clear, draw one
//! triangle, transition back, close. The geometry is static — the vertex
//! buffer is written once at setup — so the recorded list is a pure
//! function of the slot and the render-target-view placement.
//!
//! Resetting a slot's allocator while the GPU is still executing work
//! recorded from it is undefined behaviour at the API level, not merely an
//! error; [`populate_command_list`] therefore demands proof, in the shape
//! of an observed fence value, that the slot's previous submission has
//! retired.

use vstd::prelude::*;

use crate::barrier::{ResourceState, TransitionBarrier, TransitionTracker};
use crate::resources::Resources;

verus! {

/// One recorded command. The native handles the commands act on (root
/// signature, viewport, scissor rectangle, vertex buffer view, clear
/// colour) are fixed configuration bound at setup; the commands carry only
/// the per-frame data.
#[derive(Clone, Copy, Debug, PartialEq, Eq, Structural)]
pub enum Command {
    /// Bind the root signature.
    SetRootSignature,
    /// Bind the configured viewport.
    SetViewports,
    /// Bind the configured scissor rectangle.
    SetScissorRects,
    /// Emit a resource transition barrier.
    Barrier(TransitionBarrier),
    /// Bind the render-target view at the given byte offset into the
    /// descriptor heap.
    SetRenderTargets { rtv_offset: u64 },
    /// Clear the render-target view at the given byte offset to the
    /// configured clear colour.
    ClearRenderTarget { rtv_offset: u64 },
    /// Set the primitive topology to a triangle list.
    SetTriangleListTopology,
    /// Bind the static vertex buffer.
    SetVertexBuffers,
    /// Draw `vertex_count` vertices, `instance_count` instances.
    DrawInstanced { vertex_count: u32, instance_count: u32 },
}

/// A command list that has been recorded and closed, ready for submission.
/// Closing is the only terminal state of recording; a list cannot be
/// partially submitted.
pub struct ClosedCommandList {
    /// The slot whose allocator backs the list.
    pub slot: u32,
    /// The recorded commands, in order.
    pub commands: Vec<Command>,
}

/// The byte offset of slot `slot`'s render-target view inside the
/// descriptor heap: the views sit consecutively, `stride` bytes apart.
pub open spec fn spec_rtv_offset(slot: u32, stride: u32) -> u64 {
    (slot * stride) as u64
}

/// The full draw sequence recorded for `slot`: state binding, the
/// transition into the render-target role, clear and draw, the transition
/// back to the presentable role.
pub open spec fn spec_frame_commands(slot: u32, rtv_offset: u64) -> Seq<Command> {
    seq![
        Command::SetRootSignature,
        Command::SetViewports,
        Command::SetScissorRects,
        Command::Barrier(
            TransitionBarrier {
                resource: slot,
                state_before: ResourceState::Present,
                state_after: ResourceState::RenderTarget,
            },
        ),
        Command::SetRenderTargets { rtv_offset },
        Command::ClearRenderTarget { rtv_offset },
        Command::SetTriangleListTopology,
        Command::SetVertexBuffers,
        Command::DrawInstanced { vertex_count: 3, instance_count: 1 },
        Command::Barrier(
            TransitionBarrier {
                resource: slot,
                state_before: ResourceState::RenderTarget,
                state_after: ResourceState::Present,
            },
        ),
    ]
}

/// Within one recorded frame the barriers alternate: first presentable to
/// render target, then render target back to presentable, and no other
/// barrier appears — never two same-direction transitions in a row for the
/// slot's render target.
pub proof fn lemma_frame_barriers_alternate(slot: u32, rtv_offset: u64)
    ensures
        ({
            let cs = spec_frame_commands(slot, rtv_offset);
            &&& cs[3] == Command::Barrier(
                TransitionBarrier {
                    resource: slot,
                    state_before: ResourceState::Present,
                    state_after: ResourceState::RenderTarget,
                },
            )
            &&& cs[9] == Command::Barrier(
                TransitionBarrier {
                    resource: slot,
                    state_before: ResourceState::RenderTarget,
                    state_after: ResourceState::Present,
                },
            )
            &&& forall|i: int|
                0 <= i < cs.len() && cs[i] is Barrier ==> i == 3 || i == 9
        }),
{
}

/// Computes slot `slot`'s render-target-view offset.
pub fn rtv_offset(slot: u32, rtv_descriptor_size: u32) -> (r: u64)
    ensures
        r == spec_rtv_offset(slot, rtv_descriptor_size),
{
    proof {
        assert((slot as int) * (rtv_descriptor_size as int) <= 0xffff_ffff * 0xffff_ffff)
            by (nonlinear_arith)
            requires
                slot <= 0xffff_ffffu32,
                rtv_descriptor_size <= 0xffff_ffffu32,
        ;
    }
    (slot as u64) * (rtv_descriptor_size as u64)
}

/// Records the fixed draw sequence for the current slot and closes the
/// list.
///
/// Resetting the slot's allocator requires that the GPU has finished all
/// work previously recorded from it: `completed_value` must be an observed
/// fence value at least the slot's record gate, the target its previous
/// use will have signalled. The slot's render target must currently be
/// presentable; it is returned to that role by the closing barrier, so the
/// tracker is left exactly as it was found.
pub fn populate_command_list(
    resources: &Resources,
    tracker: &mut TransitionTracker,
    completed_value: u64,
    rtv_descriptor_size: u32,
) -> (list: ClosedCommandList)
    requires
        resources.wf(),
        completed_value >= resources.gate(),
        old(tracker)@.len() == resources.slot_count(),
        old(tracker)@[resources.current()] == ResourceState::Present,
    ensures
        final(tracker)@ == old(tracker)@,
        list.slot == resources.current(),
        list.commands@ == spec_frame_commands(
            list.slot,
            spec_rtv_offset(list.slot, rtv_descriptor_size),
        ),
{
    let slot = resources.frame_index();
    let offset = rtv_offset(slot, rtv_descriptor_size);

    let mut commands: Vec<Command> = Vec::new();
    commands.push(Command::SetRootSignature);
    commands.push(Command::SetViewports);
    commands.push(Command::SetScissorRects);

    // The back buffer will be used as a render target.
    let barrier_to_render_target = tracker.apply_transition(slot, ResourceState::RenderTarget);
    commands.push(Command::Barrier(barrier_to_render_target));

    commands.push(Command::SetRenderTargets { rtv_offset: offset });
    commands.push(Command::ClearRenderTarget { rtv_offset: offset });
    commands.push(Command::SetTriangleListTopology);
    commands.push(Command::SetVertexBuffers);
    commands.push(Command::DrawInstanced { vertex_count: 3, instance_count: 1 });

    // The back buffer will now be used to present again.
    let barrier_to_present = tracker.apply_transition(slot, ResourceState::Present);
    commands.push(Command::Barrier(barrier_to_present));

    proof {
        assert(tracker@ =~= old(tracker)@);
        assert(commands@ =~= spec_frame_commands(
            slot,
            spec_rtv_offset(slot, rtv_descriptor_size),
        ));
    }
    ClosedCommandList { slot, commands }
}

} // verus!
