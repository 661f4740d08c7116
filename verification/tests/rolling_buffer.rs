use qnmdsol::brain_utils::WindowBuffer;
use qnmdsol::drivers::pipeline::make_batch;
use qnmdsol::drivers::{ModelizeError, SignalBuffer};
use qnmdsol::units::Seconds;

fn labels(names: &[&str]) -> Vec<String> {
    names.iter().map(|n| n.to_string()).collect()
}

#[test]
fn window_keeps_the_last_values_in_order() {
    let mut window: WindowBuffer<f64> = WindowBuffer::new(3);
    for v in [1.0, 2.0, 3.0, 4.0, 5.0] {
        window.push(v);
    }
    assert_eq!(window.to_vec(), vec![3.0, 4.0, 5.0]);
    assert_eq!(window.len(), 3);
    assert!(window.is_full());
    assert_eq!(window.capacity(), 3);
    assert_eq!(window.get(0), Some(3.0));
    assert_eq!(window.get(3), None);
}

#[test]
fn window_not_yet_full_holds_all() {
    let mut window: WindowBuffer<f64> = WindowBuffer::new(4);
    window.push(7.5);
    window.push(-1.25);
    assert_eq!(window.to_vec(), vec![7.5, -1.25]);
    assert!(!window.is_full());
}

#[test]
fn window_length_is_min_of_pushes_and_capacity() {
    for capacity in 0..6usize {
        for pushes in 0..10usize {
            let mut window: WindowBuffer<usize> = WindowBuffer::new(capacity);
            for v in 0..pushes {
                window.push(v);
            }
            let kept = pushes.min(capacity);
            let expected: Vec<usize> = (pushes - kept..pushes).collect();
            assert_eq!(window.to_vec(), expected);
        }
    }
}

#[test]
fn window_of_size_zero_stays_empty() {
    let mut window: WindowBuffer<f64> = WindowBuffer::new(0);
    window.push(1.0);
    window.push(2.0);
    assert_eq!(window.len(), 0);
    assert!(window.is_full());
}

#[test]
fn buffer_refuses_a_rate_of_zero() {
    let made = SignalBuffer::<f32>::with_history_seconds(labels(&["C1"]), 0, Seconds::from_secs(1));
    assert!(matches!(made, Err(ModelizeError::InvalidSampleRate)));
}

#[test]
fn buffer_capacity_is_rate_times_history_rounded_up() {
    let buffer =
        SignalBuffer::<f32>::with_history_seconds(labels(&["C1"]), 250, Seconds::from_millis(1500))
            .unwrap();
    assert_eq!(buffer.capacity(), 375);
    let odd = SignalBuffer::<f32>::with_history_seconds(labels(&["C1"]), 3, Seconds::from_millis(500))
        .unwrap();
    assert_eq!(odd.capacity(), 2);
    assert_eq!(odd.sample_rate_hz(), 3);
    assert_eq!(odd.channel_labels().to_vec(), labels(&["C1"]));
}

#[test]
fn buffer_evicts_oldest_first() {
    let mut buffer =
        SignalBuffer::<f32>::with_history_seconds(labels(&["C1", "C2"]), 4, Seconds::from_secs(1))
            .unwrap();
    let first = make_batch(4, vec![vec![1.0, 2.0, 3.0], vec![10.0, 20.0, 30.0]], labels(&["C1", "C2"]));
    let second = make_batch(4, vec![vec![4.0, 5.0, 6.0], vec![40.0]], labels(&["C1", "C2"]));
    buffer.push_batch(&first).unwrap();
    buffer.push_batch(&second).unwrap();
    let frame = buffer.full_frame();
    assert_eq!(frame.samples, vec![vec![3.0, 4.0, 5.0, 6.0], vec![10.0, 20.0, 30.0, 40.0]]);
    assert_eq!(frame.sample_rate_hz, 4);
    assert_eq!(frame.channel_labels, labels(&["C1", "C2"]));
}

#[test]
fn buffer_refuses_another_rate() {
    let mut buffer =
        SignalBuffer::<f32>::with_history_seconds(labels(&["C1"]), 250, Seconds::from_secs(1)).unwrap();
    buffer.push_batch(&make_batch(250, vec![vec![1.0]], labels(&["C1"]))).unwrap();
    let other = make_batch(125, vec![vec![2.0]], labels(&["C1"]));
    assert_eq!(
        buffer.push_batch(&other),
        Err(ModelizeError::SampleRateMismatch { expected: 250, actual: 125 })
    );
    assert_eq!(buffer.full_frame().samples, vec![vec![1.0]]);
}

#[test]
fn buffer_refuses_another_channel_count() {
    let mut buffer =
        SignalBuffer::<f32>::with_history_seconds(labels(&["C1"]), 250, Seconds::from_secs(1)).unwrap();
    let wide = make_batch(250, vec![vec![1.0], vec![2.0]], labels(&["C1", "C2"]));
    assert_eq!(
        buffer.push_batch(&wide),
        Err(ModelizeError::ChannelCountMismatch { expected: 1, actual: 2 })
    );
    assert_eq!(buffer.full_frame().samples, vec![Vec::<f32>::new()]);
}

#[test]
fn buffer_refuses_an_invalid_batch_first() {
    let mut buffer =
        SignalBuffer::<f32>::with_history_seconds(labels(&["C1"]), 250, Seconds::from_secs(1)).unwrap();
    let no_rate = make_batch(0, vec![vec![1.0]], labels(&["C1"]));
    assert_eq!(buffer.push_batch(&no_rate), Err(ModelizeError::InvalidSampleRate));
    let unlabelled = make_batch(125, vec![vec![1.0]], labels(&["C1", "C2"]));
    assert_eq!(
        buffer.push_batch(&unlabelled),
        Err(ModelizeError::ChannelCountMismatch { expected: 2, actual: 1 })
    );
}

#[test]
fn snapshot_returns_the_most_recent_span() {
    let mut buffer =
        SignalBuffer::<f32>::with_history_seconds(labels(&["C1"]), 4, Seconds::from_secs(2)).unwrap();
    buffer
        .push_batch(&make_batch(4, vec![vec![1.0, 2.0, 3.0, 4.0, 5.0, 6.0]], labels(&["C1"])))
        .unwrap();
    assert_eq!(buffer.snapshot(Seconds::from_secs(1)).samples, vec![vec![3.0, 4.0, 5.0, 6.0]]);
    assert_eq!(buffer.snapshot(Seconds::from_millis(300)).samples, vec![vec![5.0, 6.0]]);
    assert_eq!(buffer.snapshot(Seconds::from_micros(0)).samples, vec![Vec::<f32>::new()]);
}

#[test]
fn snapshot_does_not_pad() {
    let mut buffer =
        SignalBuffer::<f32>::with_history_seconds(labels(&["C1"]), 250, Seconds::from_secs(10)).unwrap();
    buffer.push_batch(&make_batch(250, vec![vec![1.0, 2.0]], labels(&["C1"]))).unwrap();
    assert_eq!(buffer.snapshot(Seconds::from_secs(5)).samples, vec![vec![1.0, 2.0]]);
}

#[test]
fn snapshot_twice_gives_the_same_data() {
    let mut buffer =
        SignalBuffer::<f32>::with_history_seconds(labels(&["C1", "C2"]), 8, Seconds::from_secs(1))
            .unwrap();
    buffer
        .push_batch(&make_batch(
            8,
            vec![vec![0.5; 12], vec![-3.0, 1.0, 2.0]],
            labels(&["C1", "C2"]),
        ))
        .unwrap();
    let first = buffer.snapshot(Seconds::from_millis(700));
    let second = buffer.snapshot(Seconds::from_millis(700));
    assert_eq!(first.samples, second.samples);
    assert_eq!(first.channel_labels, second.channel_labels);
    assert_eq!(first.sample_rate_hz, second.sample_rate_hz);
    assert_eq!(first.samples[0].len(), 6);
}

#[test]
fn frame_duration_is_length_over_rate() {
    let mut buffer =
        SignalBuffer::<f32>::with_history_seconds(labels(&["C1"]), 250, Seconds::from_secs(1)).unwrap();
    assert_eq!(buffer.full_frame().duration_seconds(), Seconds::from_micros(0));
    buffer.push_batch(&make_batch(250, vec![vec![0.0; 125]], labels(&["C1"]))).unwrap();
    assert_eq!(buffer.full_frame().duration_seconds(), Seconds::from_millis(500));
}
