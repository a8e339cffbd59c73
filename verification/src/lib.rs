//! Core logic of an audio-visualizer pipeline.
//!
//! The crate covers the parts of the pipeline that make decisions on plain
//! data: slicing a PCM buffer into fixed windows and picking the strongest
//! spectral bin of each window (`analyzer`), feeding a playback cursor into
//! fixed-size device blocks through a small stream state machine
//! (`streamer`), pacing the consumption of the precomputed peaks against a
//! playback clock (`synchronizer`), and budgeting the render loop's sleep
//! time (`scheduler`). Device, file and window I/O live outside the crate and
//! hand these modules plain values.

use vstd::prelude::*;

pub mod analyzer;
pub mod pcm;
pub mod scheduler;
pub mod streamer;
pub mod synchronizer;

verus! {

/// Number of analysis slices per second of audio; each slice spans
/// `sample_rate / SLICES_PER_SECOND` samples.
pub const SLICES_PER_SECOND: u32 = 50;

/// The synchronizer advances to the next peak every `SLICE_MILLIS`
/// milliseconds of elapsed playback time.
pub const SLICE_MILLIS: u64 = 10;

} // verus!
