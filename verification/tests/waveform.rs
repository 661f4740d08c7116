use qnmdsol::units::Seconds;
use qnmdsol::waveform::buffer::SampleBuffer;
use qnmdsol::waveform::feed::{feed_chunk, FeedChunk};
use qnmdsol::waveform::{ChannelConfig, SamplePoint, TimeWindow, WaveformPipeline};

fn times<T>(samples: &[SamplePoint<T>]) -> Vec<i64> {
    samples.iter().map(|s| s.time).collect()
}

fn values(samples: &[SamplePoint<f32>]) -> Vec<f32> {
    samples.iter().map(|s| s.value).collect()
}

#[test]
fn window_is_a_tenth_of_a_second_at_least() {
    assert_eq!(TimeWindow::new(Seconds::from_millis(20)).seconds, Seconds::from_millis(100));
    assert_eq!(TimeWindow::new(Seconds::from_secs(30)).seconds, Seconds::from_secs(30));
    assert_eq!(TimeWindow::default().seconds, Seconds::from_secs(5));
}

#[test]
fn window_counts_its_samples() {
    assert_eq!(TimeWindow::default().samples(250), 1250);
    assert_eq!(TimeWindow::new(Seconds::from_millis(100)).samples(250), 25);
    assert_eq!(TimeWindow::new(Seconds::from_millis(100)).samples(3), 1);
    assert_eq!(TimeWindow::default().samples(0), 1);
}

#[test]
fn channel_starts_switched_on() {
    let config = ChannelConfig::new(3);
    assert_eq!(config, ChannelConfig { index: 3, enabled: true });
}

#[test]
fn buffer_drops_what_leaves_the_window() {
    let mut buffer: SampleBuffer<f32> = SampleBuffer::new(Seconds::from_secs(1), 8);
    assert!(buffer.is_empty());
    for (i, t) in [0i64, 400_000, 800_000, 1_000_000, 1_400_001].iter().enumerate() {
        buffer.push(SamplePoint { time: *t, value: i as f32 });
    }
    assert_eq!(times(&buffer.to_vec()), vec![800_000, 1_000_000, 1_400_001]);
    assert_eq!(values(&buffer.to_vec()), vec![2.0, 3.0, 4.0]);
    assert_eq!(buffer.len(), 3);
    assert_eq!(buffer.newest().unwrap().time, 1_400_001);
}

#[test]
fn buffer_keeps_the_sample_on_the_edge() {
    let mut buffer: SampleBuffer<f32> = SampleBuffer::new(Seconds::from_secs(1), 8);
    buffer.push(SamplePoint { time: 0, value: 1.0 });
    buffer.push(SamplePoint { time: 1_000_000, value: 2.0 });
    assert_eq!(times(&buffer.to_vec()), vec![0, 1_000_000]);
    buffer.push(SamplePoint { time: 1_000_001, value: 3.0 });
    assert_eq!(times(&buffer.to_vec()), vec![1_000_000, 1_000_001]);
}

#[test]
fn a_shorter_window_prunes_at_once() {
    let mut buffer: SampleBuffer<f32> = SampleBuffer::new(Seconds::from_secs(5), 8);
    for t in 0..5i64 {
        buffer.push(SamplePoint { time: t * 1_000_000, value: t as f32 });
    }
    buffer.set_window(Seconds::from_secs(2));
    assert_eq!(times(&buffer.to_vec()), vec![2_000_000, 3_000_000, 4_000_000]);
    buffer.set_window(Seconds::from_micros(1));
    assert_eq!(times(&buffer.to_vec()), vec![4_000_000]);
    buffer.push(SamplePoint { time: 4_100_000, value: 9.0 });
    assert_eq!(times(&buffer.to_vec()), vec![4_000_000, 4_100_000]);
}

#[test]
fn view_counts_time_from_the_newest_sample() {
    let mut pipeline: WaveformPipeline<f32> = WaveformPipeline::new(2, 250);
    assert_eq!(pipeline.channel_count(), 2);
    pipeline.ingest_frame(1_000_000, &[1.0, 10.0]);
    pipeline.ingest_frame(1_004_000, &[2.0, 20.0]);
    pipeline.ingest_frame(1_008_000, &[3.0, 30.0]);
    let view = pipeline.view();
    assert_eq!(view.window_secs, Seconds::from_secs(5));
    assert_eq!(view.channels.len(), 2);
    assert_eq!(view.channels[0].index, 0);
    assert_eq!(times(&view.channels[0].samples), vec![-8_000, -4_000, 0]);
    assert_eq!(values(&view.channels[0].samples), vec![1.0, 2.0, 3.0]);
    assert_eq!(view.channels[1].index, 1);
    assert_eq!(values(&view.channels[1].samples), vec![10.0, 20.0, 30.0]);
}

#[test]
fn a_channel_that_is_off_takes_nothing_and_does_not_show() {
    let mut pipeline: WaveformPipeline<f32> = WaveformPipeline::new(3, 250);
    pipeline.set_channel_enabled(1, false);
    pipeline.set_channel_enabled(7, false);
    assert!(pipeline.is_channel_enabled(0));
    assert!(!pipeline.is_channel_enabled(1));
    assert!(!pipeline.is_channel_enabled(7));
    pipeline.ingest_frame(0, &[1.0, 2.0, 3.0]);
    let view = pipeline.view();
    assert_eq!(view.channels.len(), 2);
    assert_eq!(view.channels[0].index, 0);
    assert_eq!(view.channels[1].index, 2);
    pipeline.set_channel_enabled(1, true);
    assert_eq!(pipeline.view().channels.len(), 2);
    pipeline.ingest_frame(4_000, &[1.0, 2.0, 3.0]);
    let all = pipeline.view();
    assert_eq!(all.channels.len(), 3);
    assert_eq!(values(&all.channels[1].samples), vec![2.0]);
}

#[test]
fn frames_wider_or_narrower_than_the_pipeline_fit() {
    let mut pipeline: WaveformPipeline<f32> = WaveformPipeline::new(2, 250);
    pipeline.ingest_frame(0, &[1.0, 2.0, 3.0]);
    pipeline.ingest_frame(4_000, &[4.0]);
    let view = pipeline.view();
    assert_eq!(values(&view.channels[0].samples), vec![1.0, 4.0]);
    assert_eq!(values(&view.channels[1].samples), vec![2.0]);
}

#[test]
fn a_block_is_timed_at_the_rate() {
    let mut pipeline: WaveformPipeline<f32> = WaveformPipeline::new(2, 250);
    pipeline.ingest_block(2_000_000, &[vec![1.0, 2.0, 3.0], vec![10.0]]);
    let view = pipeline.view();
    assert_eq!(times(&view.channels[0].samples), vec![-8_000, -4_000, 0]);
    assert_eq!(values(&view.channels[0].samples), vec![1.0, 2.0, 3.0]);
    assert_eq!(times(&view.channels[1].samples), vec![0]);
    let mut third: WaveformPipeline<f32> = WaveformPipeline::new(1, 3);
    third.ingest_block(0, &[vec![0.0, 1.0, 2.0, 3.0]]);
    assert_eq!(times(&third.view().channels[0].samples), vec![-1_000_000, -666_667, -333_334, 0]);
}

#[test]
fn setting_the_window_prunes_every_channel() {
    let mut pipeline: WaveformPipeline<f32> = WaveformPipeline::new(2, 1);
    pipeline.ingest_block(0, &[vec![0.0, 1.0, 2.0, 3.0, 4.0], vec![0.0, 1.0, 2.0]]);
    pipeline.set_time_window(TimeWindow::new(Seconds::from_secs(1)));
    let view = pipeline.view();
    assert_eq!(view.window_secs, Seconds::from_secs(1));
    assert_eq!(values(&view.channels[0].samples), vec![3.0, 4.0]);
    assert_eq!(values(&view.channels[1].samples), vec![1.0, 2.0]);
}

#[test]
fn an_empty_pipeline_shows_nothing() {
    let pipeline: WaveformPipeline<f32> = WaveformPipeline::new(4, 250);
    assert!(pipeline.view().channels.is_empty());
    let none: WaveformPipeline<f32> = WaveformPipeline::new(0, 250);
    assert_eq!(none.channel_count(), 0);
}

#[test]
fn the_first_feed_fills_the_window() {
    assert_eq!(
        feed_chunk(1250, 250, Seconds::from_secs(30), true),
        FeedChunk { start: 0, len: 1250 }
    );
    assert_eq!(
        feed_chunk(10_000, 250, Seconds::from_secs(30), true),
        FeedChunk { start: 2_500, len: 7_500 }
    );
}

#[test]
fn later_feeds_take_an_eighth_of_a_second() {
    assert_eq!(
        feed_chunk(1250, 250, Seconds::from_secs(30), false),
        FeedChunk { start: 1218, len: 32 }
    );
    assert_eq!(feed_chunk(10, 250, Seconds::from_secs(30), false), FeedChunk { start: 0, len: 10 });
    assert_eq!(feed_chunk(10, 4, Seconds::from_secs(30), false), FeedChunk { start: 9, len: 1 });
    assert_eq!(feed_chunk(0, 250, Seconds::from_secs(30), false), FeedChunk { start: 0, len: 0 });
}
