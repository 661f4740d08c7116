use qnmdsol::drivers::pipeline::make_batch;
use qnmdsol::drivers::{ManualSource, SignalPipeline};
use qnmdsol::units::Seconds;
use rustfft::num_complex::Complex32;
use rustfft::FftPlanner;

fn magnitudes(window: Vec<f32>) -> Vec<f32> {
    let size = window.len();
    let mut planner = FftPlanner::<f32>::new();
    let fft = planner.plan_fft_forward(size);
    let mut buffer: Vec<Complex32> = window.iter().map(|v| Complex32::new(*v, 0.0)).collect();
    fft.process(&mut buffer);
    buffer.iter().map(|c| c.norm() / size as f32).collect()
}

#[test]
fn pipeline_buffers_and_computes_fft() {
    let batch = make_batch(
        250,
        vec![vec![0.0f32; 128], vec![1.0; 128]],
        vec!["C1".into(), "C2".into()],
    );
    let source = ManualSource::new(vec![batch]);
    let mut pipeline = SignalPipeline::new(source, Seconds::from_secs(1));
    let frame = pipeline.pump_once().unwrap().unwrap();
    assert_eq!(frame.samples.len(), 2);
    assert_eq!(frame.samples[0].len(), 128);
    let spectrum = pipeline.latest_spectrum(64, 0.0, magnitudes).unwrap();
    assert_eq!(spectrum.magnitudes.len(), 2);
    assert_eq!(spectrum.frequencies_hz.len(), 32);
}

#[test]
fn pump_without_batches_gives_none() {
    let source: ManualSource<f32> = ManualSource::new(vec![]);
    let mut pipeline = SignalPipeline::new(source, Seconds::from_secs(1));
    assert!(pipeline.pump_once().unwrap().is_none());
    assert!(matches!(
        pipeline.latest_frame(),
        Err(qnmdsol::drivers::ModelizeError::BufferUninitialized)
    ));
    assert!(matches!(
        pipeline.latest_spectrum(64, 0.0, magnitudes),
        Err(qnmdsol::drivers::ModelizeError::BufferUninitialized)
    ));
}

#[test]
fn pump_plays_batches_in_order() {
    let first = make_batch(4, vec![vec![1.0f32, 2.0]], vec!["C1".into()]);
    let second = make_batch(4, vec![vec![3.0f32, 4.0, 5.0]], vec!["C1".into()]);
    let source = ManualSource::new(vec![first, second]);
    let mut pipeline = SignalPipeline::new(source, Seconds::from_secs(1));
    assert_eq!(pipeline.pump_once().unwrap().unwrap().samples, vec![vec![1.0, 2.0]]);
    assert_eq!(pipeline.pump_once().unwrap().unwrap().samples, vec![vec![2.0, 3.0, 4.0, 5.0]]);
    assert!(pipeline.pump_once().unwrap().is_none());
    assert_eq!(pipeline.latest_frame().unwrap().samples, vec![vec![2.0, 3.0, 4.0, 5.0]]);
}

#[test]
fn first_batch_that_is_invalid_makes_no_buffer() {
    let source: ManualSource<f32> = ManualSource::new(vec![]);
    let mut pipeline = SignalPipeline::new(source, Seconds::from_secs(1));
    let bad = make_batch(0, vec![vec![1.0f32]], vec!["C1".into()]);
    assert!(matches!(
        pipeline.push_and_snapshot(bad),
        Err(qnmdsol::drivers::ModelizeError::InvalidSampleRate)
    ));
    assert!(pipeline.latest_frame().is_err());
    let unlabelled = make_batch(250, vec![vec![1.0f32]], vec![]);
    assert!(matches!(
        pipeline.push_and_snapshot(unlabelled),
        Err(qnmdsol::drivers::ModelizeError::ChannelCountMismatch { expected: 0, actual: 1 })
    ));
    let good = make_batch(250, vec![vec![1.0f32]], vec!["C1".into()]);
    assert_eq!(pipeline.push_and_snapshot(good).unwrap().samples, vec![vec![1.0]]);
}

#[test]
fn a_refused_batch_leaves_the_buffer() {
    let source: ManualSource<f32> = ManualSource::new(vec![]);
    let mut pipeline = SignalPipeline::new(source, Seconds::from_secs(1));
    pipeline
        .push_and_snapshot(make_batch(250, vec![vec![1.0f32]], vec!["C1".into()]))
        .unwrap();
    let other_rate = make_batch(500, vec![vec![2.0f32]], vec!["C1".into()]);
    assert!(matches!(
        pipeline.push_and_snapshot(other_rate),
        Err(qnmdsol::drivers::ModelizeError::SampleRateMismatch { expected: 250, actual: 500 })
    ));
    assert_eq!(pipeline.latest_frame().unwrap().samples, vec![vec![1.0]]);
}

#[test]
fn batch_reports_its_shape() {
    let batch = make_batch(250, vec![vec![0.0f32; 125], vec![0.0; 3]], vec!["C1".into(), "C2".into()]);
    assert!(batch.validate().is_ok());
    assert_eq!(batch.num_channels(), 2);
    assert_eq!(batch.samples_per_channel(), Some(125));
    assert_eq!(batch.duration(), Some(Seconds::from_millis(500)));
    let empty = make_batch(250, Vec::<Vec<f32>>::new(), vec![]);
    assert_eq!(empty.samples_per_channel(), None);
    assert_eq!(empty.duration(), None);
    assert!(empty.validate().is_ok());
}

#[test]
fn a_reset_pipeline_takes_another_rate() {
    let source: ManualSource<f32> = ManualSource::new(vec![]);
    let mut pipeline = SignalPipeline::new(source, Seconds::from_secs(1));
    pipeline
        .push_and_snapshot(make_batch(250, vec![vec![1.0f32]], vec!["C1".into()]))
        .unwrap();
    pipeline.reset();
    assert!(pipeline.latest_frame().is_err());
    let frame = pipeline
        .push_and_snapshot(make_batch(125, vec![vec![2.0f32], vec![3.0]], vec!["A".into(), "B".into()]))
        .unwrap();
    assert_eq!(frame.sample_rate_hz, 125);
    assert_eq!(frame.samples, vec![vec![2.0], vec![3.0]]);
}
