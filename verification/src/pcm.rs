//! Decoded PCM audio: an immutable buffer of signed 16-bit samples together
//! with its channel count and sample rate.

use vstd::prelude::*;

verus! {

/// The sum of the squares of a sample sequence, the numerator of the
/// buffer's mean square (and hence of its root-mean-square level).
pub open spec fn sum_squares(s: Seq<i16>) -> int
    decreases s.len(),
{
    if s.len() == 0 {
        0
    } else {
        sum_squares(s.drop_last()) + s.last() * s.last()
    }
}

/// A fully decoded audio clip. The samples are interleaved by channel and
/// never change once the buffer is built.
pub struct AudioBuffer {
    pub samples: Vec<i16>,
    pub channels: u16,
    pub sample_rate: u32,
}

impl AudioBuffer {
    /// A buffer is well formed when its format fields are meaningful.
    pub open spec fn wf(self) -> bool {
        self.channels >= 1 && self.sample_rate >= 1
    }

    pub fn new(samples: Vec<i16>, channels: u16, sample_rate: u32) -> (buf: AudioBuffer)
        requires
            channels >= 1,
            sample_rate >= 1,
        ensures
            buf.wf(),
            buf.samples@ == samples@,
            buf.channels == channels,
            buf.sample_rate == sample_rate,
    {
        AudioBuffer { samples, channels, sample_rate }
    }

    pub fn sample_count(&self) -> (n: usize)
        ensures
            n == self.samples@.len(),
    {
        self.samples.len()
    }

    /// The exact sum of squared sample amplitudes. The mean square follows by
    /// dividing by the sample count, and the root-mean-square by a square
    /// root, neither of which needs the samples again.
    pub fn sum_of_squares(&self) -> (total: u64)
        requires
            self.samples@.len() <= 0x1_0000_0000,
        ensures
            total == sum_squares(self.samples@),
    {
        let n = self.samples.len();
        let mut total: u64 = 0;
        let mut i: usize = 0;
        while i < n
            invariant
                n == self.samples@.len(),
                n <= 0x1_0000_0000,
                0 <= i <= n,
                total == sum_squares(self.samples@.take(i as int)),
                total <= 0x4000_0000 * (i as int),
            decreases n - i,
        {
            let v: i64 = self.samples[i] as i64;
            proof {
                assert(v * v <= 0x4000_0000 && v * v >= 0) by (nonlinear_arith)
                    requires
                        -0x8000 <= v <= 0x7fff,
                ;
                assert(self.samples@.take(i + 1).drop_last() =~= self.samples@.take(i as int));
                assert(self.samples@.take(i + 1).last() == self.samples@[i as int]);
            }
            let sq: u64 = (v * v) as u64;
            total = total + sq;
            i = i + 1;
        }
        proof {
            assert(self.samples@.take(n as int) =~= self.samples@);
        }
        total
    }
}

} // verus!
