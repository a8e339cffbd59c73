//! Spectral analysis: partition a PCM buffer into fixed windows, compute the
//! spectrum of each window, and keep the index of the strongest bin of the
//! lower half-spectrum. The transform itself is done by `rustfft`; everything
//! around it — windowing, the arg-max, the bin-to-frequency conversion — is
//! verified here.

use vstd::arithmetic::div_mod::lemma_div_multiples_vanish_fancy;
use vstd::prelude::*;

use crate::pcm::AudioBuffer;
use crate::SLICES_PER_SECOND;

verus! {

/// The magnitude spectrum that the Fourier transform assigns to a window of
/// samples: one truncated magnitude per bin, one bin per sample. The value is
/// determined by the samples alone; no short formula states it.
pub uninterp spec fn spectrum_magnitudes(w: Seq<i16>) -> Seq<u32>;

/// Relies on rustfft's `FftPlanner::plan_fft_forward` and `Fft::process`
/// (a forward discrete Fourier transform, in place, of the whole buffer)
/// and on num_complex's `Complex::norm` for the magnitude of each bin.
/// The transform output depends on the samples alone; it has as many bins as
/// the window has samples, and the transform of an all-zero window is
/// all-zero.
#[verifier::external_body]
fn fft_magnitudes(window: &Vec<i16>) -> (mags: Vec<u32>)
    requires
        window@.len() >= 1,
    ensures
        mags@ == spectrum_magnitudes(window@),
        mags@.len() == window@.len(),
        (forall|i: int| 0 <= i < window@.len() ==> window@[i] == 0) ==> (forall|i: int|
            0 <= i < mags@.len() ==> mags@[i] == 0),
{
    let mut planner = rustfft::FftPlanner::new();
    let fft = planner.plan_fft_forward(window.len());
    let mut buffer: Vec<rustfft::num_complex::Complex32> = window
        .iter()
        .map(|s| rustfft::num_complex::Complex32::new((*s).into(), Default::default()))
        .collect();
    fft.process(&mut buffer);
    buffer.iter().map(|c| c.norm() as u32).collect()
}

/// Every sample of the window is silent.
pub open spec fn all_zero(s: Seq<i16>) -> bool {
    forall|i: int| 0 <= i < s.len() ==> s[i] == 0
}

/// `p` is the index of the first maximum of `mags` over the prefix
/// `[0, half)`: no earlier bin reaches it and no bin in the prefix exceeds it.
pub open spec fn is_first_peak(mags: Seq<u32>, half: int, p: int) -> bool {
    &&& 0 <= p < half <= mags.len()
    &&& forall|j: int| 0 <= j < half ==> mags[j] <= mags[p]
    &&& forall|j: int| 0 <= j < p ==> mags[j] < mags[p]
}

/// The window of `w` samples that slice `k` of the buffer covers.
pub open spec fn window_of(samples: Seq<i16>, w: int, k: int) -> Seq<i16> {
    samples.subrange(k * w, k * w + w)
}

/// `p` is the peak bin the analyzer owes for the window `win`: the first
/// maximum of the lower half-spectrum, or bin `0` when the window is too
/// short to have a lower half.
pub open spec fn peak_ok(win: Seq<i16>, p: u32) -> bool {
    let half = win.len() as int / 2;
    if half == 0 {
        p == 0
    } else {
        is_first_peak(spectrum_magnitudes(win), half, p as int)
    }
}

/// `peaks` is exactly the peak sequence of `samples` under window size `w`:
/// one entry per full window, in order, and nothing for the trailing partial
/// window.
pub open spec fn peaks_ok(samples: Seq<i16>, w: int, peaks: Seq<u32>) -> bool {
    &&& peaks.len() == samples.len() as int / w
    &&& forall|k: int|
        0 <= k < peaks.len() ==> peak_ok(window_of(samples, w, k), #[trigger] peaks[k])
}

/// The ordered peak bins of a clip, one per full analysis window, together
/// with the format facts needed to turn a bin index back into a frequency.
pub struct PeakSequence {
    pub bins: Vec<u32>,
    pub sample_rate: u32,
    pub window_size: usize,
}

impl PeakSequence {
    pub open spec fn wf(self) -> bool {
        &&& self.window_size == self.sample_rate as int / SLICES_PER_SECOND as int
        &&& self.window_size >= 1
        &&& forall|k: int|
            0 <= k < self.bins@.len() ==> (#[trigger] self.bins@[k]) <= self.window_size as int / 2
    }

    /// The frequency in Hz that bin `k` stands for, rounded down to a whole
    /// Hz: `bin * sample_rate / window_size`.
    pub open spec fn spec_frequency_hz(self, k: int) -> int {
        (self.bins@[k] * self.sample_rate) / (self.window_size as int)
    }

    pub fn len(&self) -> (n: usize)
        ensures
            n == self.bins@.len(),
    {
        self.bins.len()
    }

    pub fn frequency_hz(&self, k: usize) -> (hz: u64)
        requires
            self.wf(),
            k < self.bins@.len(),
        ensures
            hz == self.spec_frequency_hz(k as int),
    {
        let bin: u64 = self.bins[k] as u64;
        let rate: u64 = self.sample_rate as u64;
        proof {
            assert(bin * rate <= 0xffff_ffff * 0xffff_ffff) by (nonlinear_arith)
                requires
                    bin <= 0xffff_ffff && rate <= 0xffff_ffff,
            ;
        }
        let numerator: u64 = bin * rate;
        numerator / (self.window_size as u64)
    }
}

/// The index of the first maximum of `mags` over the lower half
/// `[0, mags.len() / 2)`, or `None` when that prefix is empty.
pub fn lower_half_peak(mags: &Vec<u32>) -> (r: Option<usize>)
    ensures
        match r {
            Some(p) => is_first_peak(mags@, mags@.len() as int / 2, p as int),
            None => mags@.len() < 2,
        },
{
    let half = mags.len() / 2;
    if half == 0 {
        return None;
    }
    let mut best: usize = 0;
    let mut j: usize = 1;
    while j < half
        invariant
            1 <= j <= half,
            half == mags@.len() as int / 2,
            half <= mags@.len(),
            best < j,
            forall|i: int| 0 <= i < j ==> mags@[i] <= mags@[best as int],
            forall|i: int| 0 <= i < best ==> mags@[i] < mags@[best as int],
        decreases half - j,
    {
        if mags[j] > mags[best] {
            best = j;
        }
        j = j + 1;
    }
    Some(best)
}

/// Copies the `w` samples starting at `start` into a fresh window.
fn copy_window(samples: &Vec<i16>, start: usize, w: usize) -> (win: Vec<i16>)
    requires
        start + w <= samples@.len(),
    ensures
        win@ == samples@.subrange(start as int, start as int + w as int),
{
    let len: usize = samples.len();
    let mut win: Vec<i16> = Vec::new();
    let mut i: usize = 0;
    while i < w
        invariant
            i <= w,
            start + w <= len,
            len == samples@.len(),
            win@ =~= samples@.subrange(start as int, start as int + i as int),
        decreases w - i,
    {
        win.push(samples[start + i]);
        proof {
            assert(win@ =~= samples@.subrange(start as int, start as int + i as int + 1));
        }
        i = i + 1;
    }
    win
}

/// Runs the spectral analyzer over the whole buffer: one peak bin per full
/// window of `sample_rate / SLICES_PER_SECOND` samples, consecutive and
/// non-overlapping, the trailing partial window dropped. A window of silence
/// always yields bin `0`.
pub fn get_peaks(buf: &AudioBuffer) -> (peaks: PeakSequence)
    requires
        buf.wf(),
        buf.sample_rate >= SLICES_PER_SECOND,
    ensures
        peaks.wf(),
        peaks.sample_rate == buf.sample_rate,
        peaks.window_size == buf.sample_rate as int / SLICES_PER_SECOND as int,
        peaks_ok(buf.samples@, peaks.window_size as int, peaks.bins@),
        forall|k: int|
            0 <= k < peaks.bins@.len() && all_zero(
                window_of(buf.samples@, peaks.window_size as int, k),
            ) ==> peaks.bins@[k] == 0,
{
    let w: usize = (buf.sample_rate / SLICES_PER_SECOND) as usize;
    let n: usize = buf.samples.len();
    let mut bins: Vec<u32> = Vec::new();
    let mut start: usize = 0;
    proof {
        assert(bins@.len() * (w as int) == 0) by (nonlinear_arith)
            requires
                bins@.len() == 0,
        ;
    }
    while w <= n - start && start < n
        invariant
            1 <= w <= u32::MAX,
            n == buf.samples@.len(),
            start <= n,
            start as int == bins@.len() * (w as int),
            forall|k: int|
                0 <= k < bins@.len() ==> peak_ok(
                    window_of(buf.samples@, w as int, k),
                    #[trigger] bins@[k],
                ),
            forall|k: int|
                0 <= k < bins@.len() && all_zero(window_of(buf.samples@, w as int, k))
                    ==> bins@[k] == 0,
            forall|k: int| 0 <= k < bins@.len() ==> (#[trigger] bins@[k]) <= w as int / 2,
        decreases n - start,
    {
        let ghost k = bins@.len() as int;
        let window = copy_window(&buf.samples, start, w);
        proof {
            assert(window@ =~= window_of(buf.samples@, w as int, k));
        }
        let mags = fft_magnitudes(&window);
        let bin: u32 = match lower_half_peak(&mags) {
            Some(p) => {
                proof {
                    if all_zero(window@) && p != 0 {
                        assert(mags@[0] < mags@[p as int]);
                        assert(false);
                    }
                }
                p as u32
            },
            None => 0,
        };
        bins.push(bin);
        proof {
            assert((k + 1) * w == k * w + w) by (nonlinear_arith);
        }
        start = start + w;
    }
    proof {
        let q = bins@.len() as int;
        let r = n - start;
        assert(0 <= r < w);
        assert((w as int) * q + r == n) by (nonlinear_arith)
            requires
                start == q * (w as int),
                r == n - start,
        ;
        lemma_div_multiples_vanish_fancy(q, r, w as int);
        assert(q == n as int / w as int);
    }
    PeakSequence { bins, sample_rate: buf.sample_rate, window_size: w }
}

/// The peak bin of the whole clip taken as one window: the first maximum of
/// the lower half of its spectrum, or `None` when the clip is too short to
/// have one.
pub fn find_spectral_peak(buf: &AudioBuffer) -> (r: Option<usize>)
    requires
        buf.wf(),
        buf.samples@.len() >= 1,
    ensures
        match r {
            Some(p) => is_first_peak(
                spectrum_magnitudes(buf.samples@),
                buf.samples@.len() as int / 2,
                p as int,
            ),
            None => buf.samples@.len() < 2,
        },
{
    let mags = fft_magnitudes(&buf.samples);
    lower_half_peak(&mags)
}

/// Law: a prefix `[0, half)` has at most one first maximum, so the peak of a
/// window is uniquely determined by its magnitude spectrum.
pub proof fn lemma_first_peak_unique(mags: Seq<u32>, half: int, a: int, b: int)
    requires
        is_first_peak(mags, half, a),
        is_first_peak(mags, half, b),
    ensures
        a == b,
{
    if a < b {
        assert(mags[a] < mags[b]);
        assert(mags[b] <= mags[a]);
    }
    if b < a {
        assert(mags[b] < mags[a]);
        assert(mags[a] <= mags[b]);
    }
}

/// Law: the analyzer's answer is a function of the buffer — any two peak
/// sequences that both satisfy the analyzer's contract for the same samples
/// and window size are equal.
pub proof fn lemma_peaks_unique(samples: Seq<i16>, w: int, p1: Seq<u32>, p2: Seq<u32>)
    requires
        w >= 1,
        peaks_ok(samples, w, p1),
        peaks_ok(samples, w, p2),
    ensures
        p1 == p2,
{
    assert forall|k: int| 0 <= k < p1.len() implies p1[k] == p2[k] by {
        let win = window_of(samples, w, k);
        if win.len() as int / 2 != 0 {
            lemma_first_peak_unique(
                spectrum_magnitudes(win),
                win.len() as int / 2,
                p1[k] as int,
                p2[k] as int,
            );
        }
    }
    assert(p1 =~= p2);
}

/// Law: samples past the last full window never influence the peaks — two
/// buffers with the same number of full windows that agree on those windows
/// admit exactly the same peak sequences.
pub proof fn lemma_trailing_samples_ignored(s1: Seq<i16>, s2: Seq<i16>, w: int, peaks: Seq<u32>)
    requires
        w >= 1,
        s1.len() as int / w == s2.len() as int / w,
        forall|i: int| 0 <= i < (s1.len() as int / w) * w ==> s1[i] == s2[i],
    ensures
        peaks_ok(s1, w, peaks) <==> peaks_ok(s2, w, peaks),
{
    let q = s1.len() as int / w;
    assert forall|k: int| 0 <= k < q implies window_of(s1, w, k) =~= window_of(s2, w, k) by {
        assert((k + 1) * w <= q * w && 0 <= k * w && k * w + w == (k + 1) * w) by (nonlinear_arith)
            requires
                0 <= k < q,
                w >= 1,
        ;
        assert(q * w <= s1.len() && q * w <= s2.len()) by (nonlinear_arith)
            requires
                q == s1.len() as int / w,
                q == s2.len() as int / w,
                w >= 1,
        ;
    }
}

} // verus!
