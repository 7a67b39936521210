//! The frame scheduler's timing: it ticks at a fixed interval, and each tick
//! only primes the frame-callback requests (see `BackgroundLayer::tick`).

use vstd::prelude::*;

verus! {

/// Frames per second that the scheduler aims at.
pub const FPS: u32 = 60;

/// Milliseconds between two ticks at `fps` frames per second, rounded down.
pub fn frame_interval_ms(fps: u32) -> (r: u64)
    requires
        fps > 0,
    ensures
        r == 1000int / (fps as int),
{
    1000 / (fps as u64)
}

} // verus!
