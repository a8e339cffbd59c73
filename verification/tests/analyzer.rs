use music_visualizer::analyzer::{find_spectral_peak, get_peaks, lower_half_peak, PeakSequence};
use music_visualizer::pcm::AudioBuffer;

fn sine_samples(freq_hz: f64, sample_rate: u32, count: usize, amplitude: f64) -> Vec<i16> {
    let mut samples = Vec::with_capacity(count);
    for i in 0..count {
        let t = i as f64 / sample_rate as f64;
        let v = amplitude * (2.0 * std::f64::consts::PI * freq_hz * t).sin();
        samples.push(v as i16);
    }
    samples
}

#[test]
fn silence_yields_one_zero_peak_per_window() {
    // Two seconds of 44100 Hz mono silence: 88200 samples, 882-sample windows,
    // exactly 100 peaks, every one of them bin 0 / 0 Hz.
    let buf = AudioBuffer::new(vec![0i16; 88200], 1, 44100);
    let peaks = get_peaks(&buf);
    assert_eq!(peaks.window_size, 882);
    assert_eq!(peaks.len(), 100);
    for k in 0..peaks.len() {
        assert_eq!(peaks.bins[k], 0);
        assert_eq!(peaks.frequency_hz(k), 0);
    }
}

#[test]
fn peak_count_is_floor_of_samples_over_window() {
    // Sample rate 100 gives a window of 2 samples; 7 samples make 3 full
    // windows and one trailing sample that is dropped.
    let buf = AudioBuffer::new(vec![1, 2, 3, 4, 5, 6, 7], 1, 100);
    let peaks = get_peaks(&buf);
    assert_eq!(peaks.window_size, 2);
    assert_eq!(peaks.len(), 3);
}

#[test]
fn trailing_partial_window_is_ignored() {
    // Two buffers that agree on every full window but differ in the trailing
    // partial window produce identical peak sequences.
    let mut a: Vec<i16> = sine_samples(1000.0, 44100, 882 * 2 + 431, 10000.0);
    let mut b = a.clone();
    for i in 882 * 2..a.len() {
        a[i] = 12345;
        b[i] = -321;
    }
    let peaks_a = get_peaks(&AudioBuffer::new(a, 1, 44100));
    let peaks_b = get_peaks(&AudioBuffer::new(b, 1, 44100));
    assert_eq!(peaks_a.len(), 2);
    assert_eq!(peaks_a.bins, peaks_b.bins);
}

#[test]
fn pure_sinusoid_peaks_at_nearest_bin() {
    // At 44100 Hz with 882-sample windows the bin width is 50 Hz. A pure
    // 1000 Hz tone lands on bin 20 in every window, within one bin.
    let buf = AudioBuffer::new(sine_samples(1000.0, 44100, 882 * 4, 12000.0), 1, 44100);
    let peaks = get_peaks(&buf);
    assert_eq!(peaks.len(), 4);
    for k in 0..peaks.len() {
        let bin = peaks.bins[k] as i64;
        assert!((bin - 20).abs() <= 1, "window {} peaked at bin {}", k, bin);
        let hz = peaks.frequency_hz(k) as i64;
        assert!((hz - 1000).abs() <= 50, "window {} peaked at {} Hz", k, hz);
    }
}

#[test]
fn sinusoid_frequency_moves_the_peak() {
    // A 2500 Hz tone lands on bin 50, not on bin 20: the peak follows the
    // signal, not the window shape.
    let buf = AudioBuffer::new(sine_samples(2500.0, 44100, 882 * 2, 12000.0), 1, 44100);
    let peaks = get_peaks(&buf);
    for k in 0..peaks.len() {
        let bin = peaks.bins[k] as i64;
        assert!((bin - 50).abs() <= 1, "window {} peaked at bin {}", k, bin);
    }
}

#[test]
fn global_peak_over_whole_clip() {
    // One whole-clip window of 1764 samples at 44100 Hz: bin width 25 Hz, so
    // a pure 1000 Hz tone peaks at bin 40.
    let buf = AudioBuffer::new(sine_samples(1000.0, 44100, 1764, 12000.0), 1, 44100);
    let bin = find_spectral_peak(&buf).expect("clip long enough for a spectrum") as i64;
    assert!((bin - 40).abs() <= 1, "global peak at bin {}", bin);
}

#[test]
fn global_peak_of_single_sample_is_none() {
    let buf = AudioBuffer::new(vec![17], 1, 44100);
    assert_eq!(find_spectral_peak(&buf), None);
}

#[test]
fn lower_half_peak_picks_first_maximum() {
    assert_eq!(lower_half_peak(&vec![1, 9, 9, 2, 0, 0, 0, 0]), Some(1));
    assert_eq!(lower_half_peak(&vec![5, 1, 2, 3]), Some(0));
    // Bins in the upper half never win, however large.
    assert_eq!(lower_half_peak(&vec![1, 2, 99, 99]), Some(1));
    assert_eq!(lower_half_peak(&vec![7]), None);
    assert_eq!(lower_half_peak(&vec![]), None);
}

#[test]
fn bin_frequency_is_bin_times_rate_over_window() {
    let peaks = PeakSequence { bins: vec![0, 20, 441], sample_rate: 44100, window_size: 882 };
    assert_eq!(peaks.frequency_hz(0), 0);
    assert_eq!(peaks.frequency_hz(1), 1000);
    assert_eq!(peaks.frequency_hz(2), 22050);
}
