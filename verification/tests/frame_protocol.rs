use frame_pipeline::resources::{move_to_next_frame, wait_for_gpu, Resources};

#[test]
fn new_table_starts_at_zero() {
    let r = Resources::new(2, 0);
    assert_eq!(r.frame_count(), 2);
    assert_eq!(r.frame_index(), 0);
    assert_eq!(r.target_fence_value(0), 0);
    assert_eq!(r.target_fence_value(1), 0);
    assert_eq!(r.last_signaled_value(), 0);
    assert_eq!(r.record_gate(), 0);
}

#[test]
fn prime_signals_zero_and_does_not_wait() {
    let mut r = Resources::new(2, 0);
    let req = wait_for_gpu(&mut r, 0);
    assert_eq!(req.signal, 0);
    assert_eq!(req.wait, None);
    assert_eq!(r.target_fence_value(0), 1);
    assert_eq!(r.target_fence_value(1), 0);
    assert_eq!(r.last_signaled_value(), 0);
    assert_eq!(r.record_gate(), 0);
}

// Two slots, initial fence values zero. Prime: signal 0, no wait, slot 0's
// target becomes 1. Frame 1: signal 1, rotate to slot 1, its old target 0 is
// already completed, so no wait; its new target is 2. Frame 2: signal 2,
// rotate to slot 0, its old target 1 has not completed, so wait for exactly
// 1; its new target is 3. Fence values {1, 2, 3} in submission order, no
// deadlock: every wait is for a value already signalled.
#[test]
fn steady_state_scenario() {
    let mut r = Resources::new(2, 0);

    let prime = wait_for_gpu(&mut r, 0);
    assert_eq!(prime.signal, 0);
    assert_eq!(prime.wait, None);
    assert_eq!(r.target_fence_value(0), 1);

    // Frame 1: recorded into slot 0 (gate 0 is met), submitted, presented.
    let adv1 = move_to_next_frame(&mut r, 1, 0);
    assert_eq!(adv1.signal, 1);
    assert_eq!(adv1.wait, None);
    assert_eq!(r.frame_index(), 1);
    assert_eq!(r.target_fence_value(1), 2);
    assert_eq!(r.record_gate(), 0);

    // Frame 2: recorded into slot 1, submitted, presented. Slot 0's previous
    // target (1) has not completed yet.
    let adv2 = move_to_next_frame(&mut r, 0, 0);
    assert_eq!(adv2.signal, 2);
    assert_eq!(adv2.wait, Some(1));
    assert_eq!(r.frame_index(), 0);
    assert_eq!(r.target_fence_value(0), 3);
    assert_eq!(r.record_gate(), 1);

    // Frame 3: the wait has returned, so the fence is at least 1.
    let adv3 = move_to_next_frame(&mut r, 1, 1);
    assert_eq!(adv3.signal, 3);
    assert_eq!(adv3.wait, Some(2));
    assert_eq!(r.target_fence_value(1), 4);
}

#[test]
fn targets_strictly_increase_across_slot_reuses() {
    let mut r = Resources::new(3, 0);
    wait_for_gpu(&mut r, 0);

    let mut last_seen = [r.target_fence_value(0), r.target_fence_value(1), r.target_fence_value(2)];
    let rotation = [1u32, 2, 0, 1, 2, 0, 1, 2, 0];
    let mut completed = 0u64;
    for &next in rotation.iter() {
        let req = move_to_next_frame(&mut r, next, completed);
        if let Some(v) = req.wait {
            completed = v;
        }
        let fresh = r.target_fence_value(next as usize);
        assert!(fresh > last_seen[next as usize]);
        last_seen[next as usize] = fresh;
    }
}

#[test]
fn advance_accepts_repeated_backbuffer_index() {
    // The swap chain's rotation is opaque; reporting the same index twice
    // must still move that slot's target strictly upwards.
    let mut r = Resources::new(2, 0);
    wait_for_gpu(&mut r, 0);
    let a = move_to_next_frame(&mut r, 0, 0);
    assert_eq!(a.signal, 1);
    assert_eq!(a.wait, Some(1));
    assert_eq!(r.frame_index(), 0);
    assert_eq!(r.target_fence_value(0), 2);
}

// A fence stuck at zero keeps every advance waiting and corrupts nothing:
// the blocking wait itself would simply never return, so all that can be
// observed is that the demanded wait value stays pending and the table is
// left intact.
#[test]
fn stuck_gpu_keeps_wait_pending_and_state_intact() {
    let mut r = Resources::new(2, 0);
    wait_for_gpu(&mut r, 0);
    let adv1 = move_to_next_frame(&mut r, 1, 0);
    assert_eq!(adv1.wait, None);
    let adv2 = move_to_next_frame(&mut r, 0, 0);
    // The fence never reaches 1, so this wait would block forever.
    assert_eq!(adv2.wait, Some(1));

    let targets = [r.target_fence_value(0), r.target_fence_value(1)];
    let index = r.frame_index();
    let gate = r.record_gate();

    // Observing the table while the wait is pending changes nothing.
    for _ in 0..4 {
        assert_eq!(r.target_fence_value(0), targets[0]);
        assert_eq!(r.target_fence_value(1), targets[1]);
        assert_eq!(r.frame_index(), index);
        assert_eq!(r.record_gate(), gate);
    }
}
