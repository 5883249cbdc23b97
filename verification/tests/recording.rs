use frame_pipeline::barrier::{transition_barrier, ResourceState, TransitionBarrier, TransitionTracker};
use frame_pipeline::commands::{populate_command_list, rtv_offset, Command};
use frame_pipeline::report::ReportKind;
use frame_pipeline::resources::{wait_for_gpu, Resources};

#[test]
fn transition_barrier_carries_its_arguments() {
    let b = transition_barrier(1, ResourceState::Present, ResourceState::RenderTarget);
    assert_eq!(b.resource, 1);
    assert_eq!(b.state_before, ResourceState::Present);
    assert_eq!(b.state_after, ResourceState::RenderTarget);
}

#[test]
fn tracker_transitions_and_restores() {
    let mut t = TransitionTracker::new(2);
    assert_eq!(t.len(), 2);
    assert_eq!(t.state(0), ResourceState::Present);
    assert_eq!(t.state(1), ResourceState::Present);

    let b = t.transition(0, ResourceState::RenderTarget).unwrap();
    assert_eq!(
        b,
        TransitionBarrier {
            resource: 0,
            state_before: ResourceState::Present,
            state_after: ResourceState::RenderTarget,
        }
    );
    assert_eq!(t.state(0), ResourceState::RenderTarget);
    assert_eq!(t.state(1), ResourceState::Present);

    let back = t.transition(0, ResourceState::Present).unwrap();
    assert_eq!(back.state_before, ResourceState::RenderTarget);
    assert_eq!(back.state_after, ResourceState::Present);
    assert_eq!(t.state(0), ResourceState::Present);
}

#[test]
fn tracker_rejects_redundant_transition() {
    let mut t = TransitionTracker::new(2);
    let err = t.transition(1, ResourceState::Present).unwrap_err();
    assert_eq!(err.kind, ReportKind::RedundantTransition { resource: 1 });
    assert_eq!(
        err.message(),
        "redundant resource transition: the resource is already in the requested state"
    );
    // The map is left unchanged, so the valid transition still succeeds.
    assert_eq!(t.state(1), ResourceState::Present);
    assert!(t.transition(1, ResourceState::RenderTarget).is_ok());
}

#[test]
fn rtv_offsets_step_by_descriptor_size() {
    assert_eq!(rtv_offset(0, 32), 0);
    assert_eq!(rtv_offset(1, 32), 32);
    assert_eq!(rtv_offset(3, 256), 768);
    assert_eq!(rtv_offset(u32::MAX, u32::MAX), (u32::MAX as u64) * (u32::MAX as u64));
}

#[test]
fn recorded_frame_has_the_fixed_draw_sequence() {
    let mut r = Resources::new(2, 1);
    wait_for_gpu(&mut r, 0);
    let mut tracker = TransitionTracker::new(2);

    let list = populate_command_list(&r, &mut tracker, 0, 32);
    assert_eq!(list.slot, 1);
    let expected = vec![
        Command::SetRootSignature,
        Command::SetViewports,
        Command::SetScissorRects,
        Command::Barrier(TransitionBarrier {
            resource: 1,
            state_before: ResourceState::Present,
            state_after: ResourceState::RenderTarget,
        }),
        Command::SetRenderTargets { rtv_offset: 32 },
        Command::ClearRenderTarget { rtv_offset: 32 },
        Command::SetTriangleListTopology,
        Command::SetVertexBuffers,
        Command::DrawInstanced { vertex_count: 3, instance_count: 1 },
        Command::Barrier(TransitionBarrier {
            resource: 1,
            state_before: ResourceState::RenderTarget,
            state_after: ResourceState::Present,
        }),
    ];
    assert_eq!(list.commands, expected);
    // The render target ends the frame presentable again.
    assert_eq!(tracker.state(0), ResourceState::Present);
    assert_eq!(tracker.state(1), ResourceState::Present);
}

// Within one recorded frame the barrier directions alternate: first
// presentable to render target, then render target back to presentable,
// and no other barrier appears.
#[test]
fn recorded_barriers_alternate() {
    let mut r = Resources::new(2, 0);
    wait_for_gpu(&mut r, 0);
    let mut tracker = TransitionTracker::new(2);

    let list = populate_command_list(&r, &mut tracker, 0, 64);
    let barriers: Vec<&TransitionBarrier> = list
        .commands
        .iter()
        .filter_map(|c| match c {
            Command::Barrier(b) => Some(b),
            _ => None,
        })
        .collect();
    assert_eq!(barriers.len(), 2);
    assert_eq!(barriers[0].resource, 0);
    assert_eq!(barriers[0].state_before, ResourceState::Present);
    assert_eq!(barriers[0].state_after, ResourceState::RenderTarget);
    assert_eq!(barriers[1].resource, 0);
    assert_eq!(barriers[1].state_before, ResourceState::RenderTarget);
    assert_eq!(barriers[1].state_after, ResourceState::Present);
    assert_ne!(barriers[0].state_after, barriers[1].state_after);
}
