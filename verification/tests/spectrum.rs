use qnmdsol::drivers::fft::{band_bins, BandRange};
use qnmdsol::drivers::{SpectrumBuilder, TimeSeriesFrame};
use qnmdsol::units::Hertz;
use rustfft::num_complex::Complex32;
use rustfft::FftPlanner;

fn transform(window: Vec<f32>) -> Vec<f32> {
    let size = window.len();
    let mut planner = FftPlanner::<f32>::new();
    let fft = planner.plan_fft_forward(size);
    let mut buffer: Vec<Complex32> = window.iter().map(|v| Complex32::new(*v, 0.0)).collect();
    fft.process(&mut buffer);
    buffer.iter().map(|c| c.norm() / size as f32).collect()
}

fn frame_of(rate: u32, rows: Vec<Vec<f32>>) -> TimeSeriesFrame<f32> {
    let labels = (0..rows.len()).map(|i| format!("Ch{}", i + 1)).collect();
    TimeSeriesFrame { sample_rate_hz: rate, channel_labels: labels, samples: rows }
}

#[test]
fn builder_reports_its_size() {
    let builder = SpectrumBuilder::with_size(64);
    assert_eq!(builder.fft_size(), 64);
    assert_eq!(builder.bin_count(), 32);
    assert_eq!(SpectrumBuilder::with_size(7).bin_count(), 3);
    assert_eq!(SpectrumBuilder::with_size(0).bin_count(), 0);
}

#[test]
fn bin_frequencies_are_k_times_rate_over_size() {
    let axis = SpectrumBuilder::with_size(64).frequencies(250);
    assert_eq!(axis.len(), 32);
    assert_eq!(axis[0], Hertz::from_millihertz(0));
    assert_eq!(axis[1], Hertz::from_millihertz(3_906));
    assert_eq!(axis[16], Hertz::from_millihertz(62_500));
    assert_eq!(axis[31], Hertz::from_millihertz(121_093));
}

#[test]
fn window_takes_the_most_recent_samples() {
    let builder = SpectrumBuilder::with_size(4);
    assert_eq!(builder.window(&vec![1.0, 2.0, 3.0, 4.0, 5.0, 6.0], 0.0), vec![3.0, 4.0, 5.0, 6.0]);
}

#[test]
fn window_pads_with_zeros() {
    let builder = SpectrumBuilder::with_size(4);
    assert_eq!(builder.window(&vec![1.0, 2.0], 0.0), vec![1.0, 2.0, 0.0, 0.0]);
    assert_eq!(builder.window(&Vec::<f32>::new(), 0.0), vec![0.0; 4]);
}

#[test]
fn spectrum_has_half_the_bins_per_channel() {
    let frame = frame_of(250, vec![vec![0.0; 128], vec![1.0; 128], vec![2.0; 5]]);
    let spectrum = SpectrumBuilder::with_size(64).compute(&frame, 0.0, transform);
    assert_eq!(spectrum.sample_rate_hz, 250);
    assert_eq!(spectrum.channel_labels, frame.channel_labels);
    assert_eq!(spectrum.frequencies_hz.len(), 32);
    assert_eq!(spectrum.magnitudes.len(), 3);
    for bins in &spectrum.magnitudes {
        assert_eq!(bins.len(), 32);
    }
    assert!((spectrum.magnitudes[1][0] - 1.0).abs() < 1e-6);
    assert!(spectrum.magnitudes[1][1].abs() < 1e-6);
    assert!(spectrum.magnitudes[0].iter().all(|m| *m == 0.0));
}

#[test]
fn spectrum_keeps_what_a_short_transform_gives() {
    let frame = frame_of(250, vec![vec![1.0; 8]]);
    let spectrum = SpectrumBuilder::with_size(8).compute(&frame, 0.0, |w: Vec<f32>| vec![w[0], 9.0]);
    assert_eq!(spectrum.magnitudes, vec![vec![1.0, 9.0]]);
    assert_eq!(spectrum.frequencies_hz.len(), 4);
}

#[test]
fn sinusoid_peaks_within_one_bin_of_its_frequency() {
    let rate = 250u32;
    let size = 256usize;
    for f in [10.0f32, 23.5, 50.0, 60.0, 100.0] {
        let samples: Vec<f32> = (0..size)
            .map(|n| (2.0 * std::f32::consts::PI * f * n as f32 / rate as f32).sin())
            .collect();
        let frame = frame_of(rate, vec![samples]);
        let spectrum = SpectrumBuilder::with_size(size).compute(&frame, 0.0, transform);
        let bins = &spectrum.magnitudes[0];
        let mut peak = 0usize;
        for k in 0..bins.len() {
            if bins[k] > bins[peak] {
                peak = k;
            }
        }
        let peak_hz = spectrum.frequencies_hz[peak].as_millihertz() as f32 / 1000.0;
        let bin_width = rate as f32 / size as f32;
        assert!((peak_hz - f).abs() <= bin_width, "peak {} for {}", peak_hz, f);
    }
}

#[test]
fn band_bins_span_the_band() {
    assert_eq!(
        band_bins(256, 250, Hertz::from_hz(8), Hertz::from_hz(12)),
        Some(BandRange { first: 8, last: 13 })
    );
    assert_eq!(
        band_bins(250, 250, Hertz::from_hz(8), Hertz::from_hz(12)),
        Some(BandRange { first: 8, last: 12 })
    );
    assert_eq!(
        band_bins(64, 250, Hertz::from_millihertz(1), Hertz::from_millihertz(2)),
        Some(BandRange { first: 0, last: 1 })
    );
}

#[test]
fn band_bins_stop_at_the_last_bin() {
    assert_eq!(
        band_bins(64, 250, Hertz::from_hz(100), Hertz::from_hz(400)),
        Some(BandRange { first: 25, last: 31 })
    );
    assert_eq!(
        band_bins(64, 250, Hertz::from_hz(300), Hertz::from_hz(400)),
        Some(BandRange { first: 31, last: 31 })
    );
}

#[test]
fn band_bins_need_enough_samples_and_an_ordered_band() {
    assert_eq!(band_bins(63, 250, Hertz::from_hz(8), Hertz::from_hz(12)), None);
    assert_eq!(band_bins(256, 250, Hertz::from_hz(12), Hertz::from_hz(8)), None);
    assert_eq!(band_bins(256, 250, Hertz::from_hz(8), Hertz::from_hz(8)), None);
    assert_eq!(band_bins(256, 250, Hertz::from_hz(0), Hertz::from_hz(8)), None);
    assert_eq!(band_bins(256, 0, Hertz::from_hz(8), Hertz::from_hz(12)), None);
}
