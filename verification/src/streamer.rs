//! The audio streamer's real-time core: a cursor over the preloaded sample
//! buffer that fills fixed-size device blocks, and the stream lifecycle
//! state machine. The device itself is driven outside the crate; its
//! callback hands a block in, this module decides what goes out and when the
//! stream is complete.

use vstd::prelude::*;

verus! {

/// Frames per device output block in the deployed configuration.
pub const DEVICE_BLOCK_FRAMES: u32 = 64;

/// The lifecycle of one playback stream. `Idle` before the device starts,
/// `Running` while blocks are being filled, `Draining` once the buffer ran
/// out and the completion signal was emitted, `Closed` after the device is
/// released.
#[derive(Clone, Copy, PartialEq, Eq, Structural, Debug)]
pub enum StreamState {
    Idle,
    Running,
    Draining,
    Closed,
}

/// The streamer's whole observable state: the immutable sample buffer, the
/// cursor of the next sample to emit, the lifecycle state, and whether the
/// stream ended abnormally (a mid-stream device fault).
pub struct AudioStreamer {
    pub samples: Vec<i16>,
    pub pos: usize,
    pub state: StreamState,
    pub failed: bool,
}

impl AudioStreamer {
    /// The cursor never leaves the buffer, nothing is consumed before the
    /// stream starts, and a failure flag only ever accompanies a closed
    /// stream.
    pub open spec fn wf(self) -> bool {
        &&& self.pos <= self.samples@.len()
        &&& self.state == StreamState::Idle ==> self.pos == 0
        &&& self.failed ==> self.state == StreamState::Closed
    }

    /// How many samples are still unplayed.
    pub open spec fn spec_remaining(self) -> int {
        self.samples@.len() - self.pos
    }

    pub fn new(samples: Vec<i16>) -> (s: AudioStreamer)
        ensures
            s.wf(),
            s.samples@ == samples@,
            s.pos == 0,
            s.state == StreamState::Idle,
            !s.failed,
    {
        AudioStreamer { samples, pos: 0, state: StreamState::Idle, failed: false }
    }

    pub fn remaining(&self) -> (n: usize)
        requires
            self.wf(),
        ensures
            n == self.spec_remaining(),
    {
        self.samples.len() - self.pos
    }

    /// The device opened and started: the stream begins to run.
    pub fn start(&mut self)
        requires
            old(self).wf(),
            old(self).state == StreamState::Idle,
        ensures
            final(self).wf(),
            final(self).state == StreamState::Running,
            final(self).samples == old(self).samples,
            final(self).pos == old(self).pos,
            final(self).failed == old(self).failed,
    {
        self.state = StreamState::Running;
    }

    /// One invocation of the output callback: copy the next samples of the
    /// buffer into the device block. When fewer samples remain than the block
    /// asks for, only those are copied, the rest of the block is left as it
    /// was, and the stream moves to `Draining` — the `true` result is the
    /// completion signal, emitted on exactly this transition and never again,
    /// since a draining stream takes no further blocks.
    pub fn next_block(&mut self, block: &mut Vec<i16>) -> (complete: bool)
        requires
            old(self).wf(),
            old(self).state == StreamState::Running,
        ensures
            final(self).wf(),
            final(self).samples == old(self).samples,
            final(self).failed == old(self).failed,
            final(block)@.len() == old(block)@.len(),
            complete <==> old(self).spec_remaining() < old(block)@.len(),
            final(self).state == (if complete {
                StreamState::Draining
            } else {
                StreamState::Running
            }),
            final(self).pos == old(self).pos + (if complete {
                old(self).spec_remaining()
            } else {
                old(block)@.len() as int
            }),
            forall|i: int|
                0 <= i < final(self).pos - old(self).pos ==> final(block)@[i] == old(
                    self,
                ).samples@[old(self).pos + i],
            forall|i: int|
                final(self).pos - old(self).pos <= i < old(block)@.len() ==> final(block)@[i]
                    == old(block)@[i],
    {
        let len: usize = block.len();
        let remaining: usize = self.samples.len() - self.pos;
        let take: usize = if remaining < len {
            remaining
        } else {
            len
        };
        let total: usize = self.samples.len();
        let mut i: usize = 0;
        while i < take
            invariant
                i <= take,
                take <= len,
                len == block@.len(),
                len == old(block)@.len(),
                total == self.samples@.len(),
                self.pos + take <= total,
                *self == *old(self),
                forall|j: int| 0 <= j < i ==> block@[j] == self.samples@[self.pos + j],
                forall|j: int| i <= j < len ==> block@[j] == old(block)@[j],
            decreases take - i,
        {
            let sample: i16 = self.samples[self.pos + i];
            block[i] = sample;
            i = i + 1;
        }
        self.pos = self.pos + take;
        let complete = remaining < len;
        if complete {
            self.state = StreamState::Draining;
        }
        complete
    }

    /// The owning thread saw the completion signal, stopped the device and
    /// released it: the stream closes normally.
    pub fn close(&mut self)
        requires
            old(self).wf(),
            old(self).state == StreamState::Draining,
        ensures
            final(self).wf(),
            final(self).state == StreamState::Closed,
            final(self).samples == old(self).samples,
            final(self).pos == old(self).pos,
            final(self).failed == old(self).failed,
    {
        self.state = StreamState::Closed;
    }

    /// A mid-stream device fault: the stream closes abnormally, with the
    /// failure flag raised, and downstream is told "done" rather than the
    /// process crashing.
    pub fn abort(&mut self)
        requires
            old(self).wf(),
            old(self).state == StreamState::Running || old(self).state == StreamState::Draining,
        ensures
            final(self).wf(),
            final(self).state == StreamState::Closed,
            final(self).failed,
            final(self).samples == old(self).samples,
            final(self).pos == old(self).pos,
    {
        self.state = StreamState::Closed;
        self.failed = true;
    }
}

} // verus!
