//! Playback-time synchronization: pace the consumption of the precomputed
//! peak sequence against the elapsed playback clock. The worker that owns a
//! `Synchronizer` polls it with the current elapsed time; the synchronizer
//! decides whether the next slice boundary has been passed and, if so, hands
//! out the next peak — one slice per poll, never rewinding, and never ahead
//! of the clock.

use vstd::prelude::*;

use crate::analyzer::PeakSequence;
use crate::SLICE_MILLIS;

verus! {

/// What one poll of the synchronizer decided.
#[derive(Clone, Copy, PartialEq, Eq, Structural, Debug)]
pub enum SyncStep {
    /// The clock passed the next slice boundary: this slice's peak frequency,
    /// in whole Hz, is due now.
    Emit(u64),
    /// The clock is still inside the current slice; nothing to report.
    Idle,
    /// The clock passed a boundary but the peak sequence is exhausted: the
    /// synchronizer is done and will emit nothing further.
    Finished,
}

/// The synchronizer's state: the peak sequence it consumes, the index of the
/// next unconsumed slice, and the last elapsed time it observed.
pub struct Synchronizer {
    pub peaks: PeakSequence,
    pub next_slice: usize,
    pub last_elapsed_millis: u64,
}

impl Synchronizer {
    /// Consumption never runs past the sequence, boundaries stay within the
    /// clock's range, and — the synchronization invariant — a slice is only
    /// ever consumed once the clock has passed its boundary: the index never
    /// exceeds the elapsed time divided by the slice duration.
    pub open spec fn wf(self) -> bool {
        &&& self.peaks.wf()
        &&& self.next_slice <= self.peaks.bins@.len()
        &&& self.peaks.bins@.len() * SLICE_MILLIS <= u64::MAX
        &&& self.next_slice > 0 ==> (self.next_slice - 1) * SLICE_MILLIS
            < self.last_elapsed_millis
    }

    /// Starts a session at the moment the first timing signal arrives: no
    /// slice consumed, no time elapsed.
    pub fn new(peaks: PeakSequence) -> (s: Synchronizer)
        requires
            peaks.wf(),
            peaks.bins@.len() * SLICE_MILLIS <= u64::MAX,
        ensures
            s.wf(),
            s.peaks == peaks,
            s.next_slice == 0,
            s.last_elapsed_millis == 0,
    {
        Synchronizer { peaks, next_slice: 0, last_elapsed_millis: 0 }
    }

    /// One poll at elapsed time `elapsed_millis`. The clock the caller reads
    /// is non-decreasing over the session, which the contract records by
    /// relating each observation to the last. If the clock has passed the
    /// next slice boundary, that slice — and only that one — is consumed and
    /// its peak frequency emitted; past the end of the sequence the
    /// synchronizer reports that it is finished. The consumed-slice index
    /// never decreases and never overtakes the clock.
    pub fn tick(&mut self, elapsed_millis: u64) -> (step: SyncStep)
        requires
            old(self).wf(),
            elapsed_millis >= old(self).last_elapsed_millis,
        ensures
            final(self).wf(),
            final(self).peaks == old(self).peaks,
            final(self).last_elapsed_millis == elapsed_millis,
            final(self).last_elapsed_millis >= old(self).last_elapsed_millis,
            final(self).next_slice >= old(self).next_slice,
            ({
                let boundary_passed = old(self).next_slice * SLICE_MILLIS < elapsed_millis;
                if boundary_passed && old(self).next_slice < old(self).peaks.bins@.len() {
                    &&& step == SyncStep::Emit(
                        old(self).peaks.spec_frequency_hz(old(self).next_slice as int) as u64,
                    )
                    &&& final(self).next_slice == old(self).next_slice + 1
                } else {
                    &&& step == (if boundary_passed {
                        SyncStep::Finished
                    } else {
                        SyncStep::Idle
                    })
                    &&& final(self).next_slice == old(self).next_slice
                }
            }),
    {
        proof {
            let n = old(self).next_slice as int;
            let cap = old(self).peaks.bins@.len() as int;
            assert(n * SLICE_MILLIS <= cap * SLICE_MILLIS) by (nonlinear_arith)
                requires
                    n <= cap && SLICE_MILLIS as int >= 0,
            ;
        }
        let boundary: u64 = (self.next_slice as u64) * SLICE_MILLIS;
        let step: SyncStep = if boundary < elapsed_millis {
            if self.next_slice < self.peaks.len() {
                let hz = self.peaks.frequency_hz(self.next_slice);
                self.next_slice = self.next_slice + 1;
                SyncStep::Emit(hz)
            } else {
                SyncStep::Finished
            }
        } else {
            SyncStep::Idle
        };
        self.last_elapsed_millis = elapsed_millis;
        step
    }

    /// Law: the consumed-slice index is bounded by the elapsed time divided
    /// by the slice duration — the synchronizer never runs ahead of the
    /// playback clock.
    pub proof fn lemma_never_ahead_of_clock(s: Synchronizer)
        requires
            s.wf(),
        ensures
            s.next_slice <= s.last_elapsed_millis as int / SLICE_MILLIS as int + 1,
            s.next_slice > 0 ==> s.next_slice - 1 <= s.last_elapsed_millis as int
                / SLICE_MILLIS as int,
    {
        if s.next_slice > 0 {
            let n = s.next_slice - 1;
            let e = s.last_elapsed_millis as int;
            assert(n <= e / SLICE_MILLIS as int) by (nonlinear_arith)
                requires
                    n * SLICE_MILLIS < e,
                    SLICE_MILLIS as int >= 1,
                    n >= 0,
            ;
        }
    }
}

} // verus!
