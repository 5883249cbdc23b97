use frame_pipeline::fence::FenceClock;
use frame_pipeline::resources::{move_to_next_frame, wait_for_gpu, wait_for_gpu_idle, Resources};

// Slot 0 used once, slot 1 used three times: the drain must wait for the
// maximum target across all slots, which is slot 1's, not slot 0's.
#[test]
fn drain_waits_for_maximum_target() {
    let mut r = Resources::new(2, 0);
    wait_for_gpu(&mut r, 0); // slot 0 used once: target 1
    let mut completed = 0u64;
    for _ in 0..3 {
        let req = move_to_next_frame(&mut r, 1, completed);
        if let Some(v) = req.wait {
            completed = v;
        }
    }
    assert_eq!(r.target_fence_value(0), 1);
    assert_eq!(r.target_fence_value(1), 4);

    let drain = wait_for_gpu_idle(&mut r, completed);
    assert_eq!(drain.signal, 4);
    assert_eq!(drain.wait, Some(4));
    // Slot state is untouched by the drain.
    assert_eq!(r.target_fence_value(0), 1);
    assert_eq!(r.target_fence_value(1), 4);
    assert_eq!(r.frame_index(), 1);
}

#[test]
fn drain_twice_is_a_no_op() {
    let mut r = Resources::new(2, 0);
    let mut fence = FenceClock::new();

    let prime = wait_for_gpu(&mut r, fence.completed_value());
    fence.signal(prime.signal);
    if let Some(v) = prime.wait {
        fence.block_until(v);
    }
    let adv = move_to_next_frame(&mut r, 1, fence.completed_value());
    fence.signal(adv.signal);
    if let Some(v) = adv.wait {
        fence.block_until(v);
    }

    let first = wait_for_gpu_idle(&mut r, fence.completed_value());
    fence.signal(first.signal);
    if let Some(v) = first.wait {
        fence.block_until(v);
    }
    assert_eq!(first.signal, 2);
    assert_eq!(fence.completed_value(), 2);

    // The fence is already at the drain value: the second drain signals the
    // same value and has nothing to wait for.
    let second = wait_for_gpu_idle(&mut r, fence.completed_value());
    assert_eq!(second.signal, first.signal);
    assert_eq!(second.wait, None);
}

#[test]
fn signalling_does_not_advance_completion() {
    // A signal is only a request; until the GPU retires work the completed
    // value stays where it is.
    let mut f = FenceClock::new();
    f.signal(5);
    assert_eq!(f.completed_value(), 0);
    assert_eq!(f.last_signaled_value(), 5);
    f.block_until(3);
    assert_eq!(f.completed_value(), 3);
    f.block_until(1);
    assert_eq!(f.completed_value(), 3);
}

#[test]
fn drain_on_fresh_table_is_trivial() {
    let mut r = Resources::new(3, 1);
    let drain = wait_for_gpu_idle(&mut r, 0);
    assert_eq!(drain.signal, 0);
    assert_eq!(drain.wait, None);
}
