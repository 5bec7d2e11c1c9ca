use vstd::prelude::*;

verus! {

/// Every how many frames the status view reads the state file again.
pub const REFRESH_EVERY_FRAMES: u32 = 30;

/// The frame after `frame`, counting round past the largest value.
pub open spec fn next_frame_of(frame: u32) -> u32 {
    if frame == u32::MAX {
        0
    } else {
        (frame + 1) as u32
    }
}

/// Advances the status view's frame counter; the flag says whether the
/// view reads the state file again on the new frame.
pub fn advance_frame(frame: u32) -> (r: (u32, bool))
    ensures
        r.0 == next_frame_of(frame),
        r.1 == (next_frame_of(frame) % REFRESH_EVERY_FRAMES == 0),
{
    let next = frame.wrapping_add(1);
    (next, next % REFRESH_EVERY_FRAMES == 0)
}

} // verus!
