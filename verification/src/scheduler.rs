//! Frame-loop pacing decisions: how long the render loop may sleep before
//! the next tick, and when it must stop. The loop itself — event polling,
//! drawing, the actual sleep — runs outside the crate and only acts on what
//! these functions decide.

use vstd::prelude::*;

verus! {

/// The render loop's target period: one sixtieth of a second, in whole
/// microseconds.
pub const FRAME_PERIOD_MICROS: u64 = 16666;

/// The sleep budget left in the current frame: the target period minus the
/// time already spent since the last tick, or `None` when the frame is
/// already over budget and the loop must proceed immediately — there is no
/// catch-up beyond that.
pub fn frame_sleep_budget(elapsed_micros: u64) -> (budget: Option<u64>)
    ensures
        budget == (if elapsed_micros <= FRAME_PERIOD_MICROS {
            Some((FRAME_PERIOD_MICROS - elapsed_micros) as u64)
        } else {
            None::<u64>
        }),
{
    if elapsed_micros <= FRAME_PERIOD_MICROS {
        Some(FRAME_PERIOD_MICROS - elapsed_micros)
    } else {
        None
    }
}

/// Whether the render loop runs another tick: it stops as soon as the window
/// asked to close or the audio streamer reported that playback is done, and
/// for no other reason.
pub fn keep_running(close_requested: bool, playback_done: bool) -> (run: bool)
    ensures
        run == (!close_requested && !playback_done),
{
    !close_requested && !playback_done
}

} // verus!
