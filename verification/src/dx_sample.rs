//! Window-message dispatch for the sample.
//!
//! The window procedure itself lives with the windowing layer; what it
//! forwards here is the decision: which messages the sample consumes, and
//! what they do to it. Key events are handed to the sample's key hooks,
//! paint requests are declined so the windowing layer validates the
//! window region, and everything else is left to the default handler.

use vstd::prelude::*;

use crate::sample::Sample;

verus! {

/// A key has been pressed.
pub const WM_KEYDOWN: u32 = 0x0100;

/// A key has been released.
pub const WM_KEYUP: u32 = 0x0101;

/// The window asks to be repainted.
pub const WM_PAINT: u32 = 0x000F;

/// Decides whether the sample consumes `message`, invoking its key hooks
/// for key events. Paint requests are not consumed: rendering happens from
/// the idle loop, and the default handler must still validate the window
/// region.
pub fn sample_wndproc_impl(sample: &mut Sample, message: u32, wparam: usize) -> (handled: bool)
    ensures
        *final(sample) == *old(sample),
        handled == (message == WM_KEYDOWN || message == WM_KEYUP),
{
    if message == WM_KEYDOWN {
        sample.on_key_down(wparam as u8);
        true
    } else if message == WM_KEYUP {
        sample.on_key_up(wparam as u8);
        true
    } else {
        false
    }
}

/// The dispatch entry the window procedure calls; a seam where a guard
/// against panics in sample code could be placed.
pub fn safe_sample_wndproc(sample: &mut Sample, message: u32, wparam: usize) -> (handled: bool)
    ensures
        *final(sample) == *old(sample),
        handled == (message == WM_KEYDOWN || message == WM_KEYUP),
{
    sample_wndproc_impl(sample, message, wparam)
}

} // verus!
