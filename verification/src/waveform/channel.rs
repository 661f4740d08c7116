//! The waveform pipeline: one windowed buffer per channel, fed frame by
//! frame with conditioned samples, and the view cut from them.

use super::buffer::{after_push, after_rewindow, SampleBuffer};
use super::config::{clamped_window, TimeWindow};
use super::view::{ChannelView, SamplePoint, WaveformView};
use crate::drivers::buffer::rows_of;
use crate::units::Seconds;
use vstd::prelude::*;

verus! {

/// How many samples a buffer is made to expect beyond those of its window.
pub const BUFFER_HEADROOM: usize = 8;

/// The settings of one channel.
#[derive(Clone, Copy, Debug, PartialEq, Eq, Structural)]
pub struct ChannelConfig {
    /// Which channel.
    pub index: usize,
    /// Whether the channel takes in samples and is shown.
    pub enabled: bool,
}

impl ChannelConfig {
    /// The settings that a channel starts with: switched on.
    pub fn new(index: usize) -> (config: Self)
        ensures
            config.index == index,
            config.enabled,
    {
        Self { index, enabled: true }
    }
}

/// What one channel of the pipeline is.
pub struct ChannelModel<T> {
    /// Which channel.
    pub index: usize,
    /// Whether the channel takes in samples and is shown.
    pub enabled: bool,
    /// The window of the channel's buffer, in microseconds.
    pub window_micros: u64,
    /// The samples in the buffer, oldest first.
    pub samples: Seq<SamplePoint<T>>,
}

/// The time `time` counted from `newest`, held to what an `i64` can count.
pub open spec fn rebased_time(time: i64, newest: i64) -> i64 {
    let exact = time - newest;
    if exact < i64::MIN {
        i64::MIN
    } else if exact > i64::MAX {
        i64::MAX
    } else {
        exact as i64
    }
}

/// `samples` with every time counted from the newest sample, which is the
/// last; the values are untouched.
pub open spec fn rebased<T>(samples: Seq<SamplePoint<T>>) -> Seq<SamplePoint<T>> {
    Seq::new(
        samples.len(),
        |i: int| SamplePoint { time: rebased_time(samples[i].time, samples.last().time), value: samples[i].value },
    )
}

/// The time of sample `i` of a block that starts at `start` on a stream at
/// `sample_rate_hz`, in microseconds and rounded down, held to what an `i64`
/// can count. On a stream without a rate every sample is at the start.
pub open spec fn sample_time(start: i64, i: nat, sample_rate_hz: u32) -> i64 {
    if sample_rate_hz == 0 {
        start
    } else {
        let exact = start + (i * 1_000_000) / (sample_rate_hz as nat);
        if exact > i64::MAX {
            i64::MAX
        } else {
            exact as i64
        }
    }
}

/// What each channel gets of a frame: its value.
pub open spec fn frame_column<T>(values: Seq<T>) -> Seq<Option<T>> {
    Seq::new(values.len(), |c: int| Some(values[c]))
}

/// What each channel gets of a block at sample `i`: the sample where its row
/// has one.
pub open spec fn block_column<T>(rows: Seq<Seq<T>>, i: int) -> Seq<Option<T>> {
    Seq::new(
        rows.len(),
        |c: int|
            if i < rows[c].len() {
                Some(rows[c][i])
            } else {
                None
            },
    )
}

/// Whether `longest` is the length of the longest row; zero without rows.
pub open spec fn is_longest_row<T>(rows: Seq<Seq<T>>, longest: nat) -> bool {
    &&& forall|c: int| 0 <= c < rows.len() ==> (#[trigger] rows[c]).len() <= longest
    &&& (longest > 0 ==> exists|c: int| 0 <= c < rows.len() && (#[trigger] rows[c]).len() == longest)
}

impl<T> ChannelModel<T> {
    /// The channel after it was offered a sample: a channel that is switched
    /// on pushes it into its buffer, one that is switched off ignores it.
    pub open spec fn after_sample(self, time: i64, value: T) -> ChannelModel<T> {
        if self.enabled {
            ChannelModel {
                samples: after_push(self.samples, self.window_micros, SamplePoint { time, value }),
                ..self
            }
        } else {
            self
        }
    }

    /// The channel after its window was set.
    pub open spec fn after_window(self, window: Seconds) -> ChannelModel<T> {
        ChannelModel {
            window_micros: clamped_window(window.micros),
            samples: after_rewindow(self.samples, clamped_window(window.micros)),
            ..self
        }
    }

    /// Whether the channel shows in a view: it is switched on and holds a
    /// sample.
    pub open spec fn visible(self) -> bool {
        self.enabled && self.samples.len() > 0
    }
}

/// What the pipeline is.
pub struct WaveformPipelineModel<T> {
    /// Samples per second on each channel.
    pub sample_rate_hz: u32,
    /// The window that views are labelled with.
    pub time_window: TimeWindow,
    /// The channels, in channel order.
    pub channels: Seq<ChannelModel<T>>,
}

impl<T> WaveformPipelineModel<T> {
    /// The pipeline after each channel was offered its entry of `column` at
    /// `time`. Entries beyond the last channel are ignored; channels beyond
    /// the last entry get nothing.
    pub open spec fn after_column(self, time: i64, column: Seq<Option<T>>) -> WaveformPipelineModel<
        T,
    > {
        WaveformPipelineModel {
            channels: Seq::new(
                self.channels.len(),
                |c: int|
                    if c < column.len() && column[c].is_some() {
                        self.channels[c].after_sample(time, column[c].unwrap())
                    } else {
                        self.channels[c]
                    },
            ),
            ..self
        }
    }

    /// The pipeline after the first `count` samples of every row of a block
    /// that starts at `start` were taken in, sample by sample.
    pub open spec fn after_block(self, start: i64, rows: Seq<Seq<T>>, count: nat) -> WaveformPipelineModel<
        T,
    >
        decreases count,
    {
        if count == 0 {
            self
        } else {
            self.after_block(start, rows, (count - 1) as nat).after_column(
                sample_time(start, (count - 1) as nat, self.sample_rate_hz),
                block_column(rows, count - 1),
            )
        }
    }

    /// The pipeline after the window was set on every channel.
    pub open spec fn after_window(self, window: TimeWindow) -> WaveformPipelineModel<T> {
        WaveformPipelineModel {
            time_window: window,
            channels: Seq::new(
                self.channels.len(),
                |c: int| self.channels[c].after_window(window.seconds),
            ),
            ..self
        }
    }

    /// The pipeline after channel `index` was switched on or off; unchanged
    /// where there is no such channel.
    pub open spec fn after_enabled(self, index: int, enabled: bool) -> WaveformPipelineModel<T> {
        if 0 <= index < self.channels.len() {
            WaveformPipelineModel {
                channels: self.channels.update(
                    index,
                    ChannelModel { enabled, ..self.channels[index] },
                ),
                ..self
            }
        } else {
            self
        }
    }

    /// The channels among the first `upto` that show in a view, in channel
    /// order.
    pub open spec fn visible_channels(self, upto: nat) -> Seq<ChannelModel<T>>
        decreases upto,
    {
        if upto == 0 {
            Seq::empty()
        } else {
            let before = self.visible_channels((upto - 1) as nat);
            if self.channels[upto - 1].visible() {
                before.push(self.channels[upto - 1])
            } else {
                before
            }
        }
    }

    /// Whether `view` is the view of this pipeline: its window, and for every
    /// channel that is switched on and holds samples, in channel order, the
    /// samples with their times counted from the newest.
    pub open spec fn shows(self, view: WaveformView<T>) -> bool {
        let visible = self.visible_channels(self.channels.len());
        &&& view.window_secs == self.time_window.seconds
        &&& view.channels@.len() == visible.len()
        &&& forall|k: int|
            0 <= k < visible.len() ==> {
                &&& (#[trigger] view.channels@[k]).index == visible[k].index
                &&& view.channels@[k].samples@ == rebased(visible[k].samples)
            }
    }
}

/// One channel of the pipeline.
struct ChannelState<T> {
    config: ChannelConfig,
    buffer: SampleBuffer<T>,
    last_sample_time: i64,
}

impl<T> ChannelState<T> {
    /// What the channel is.
    spec fn model(self) -> ChannelModel<T> {
        ChannelModel {
            index: self.config.index,
            enabled: self.config.enabled,
            window_micros: self.buffer.window_micros(),
            samples: self.buffer@,
        }
    }

    /// A channel with an empty buffer for the given window.
    fn new(config: ChannelConfig, time_window: TimeWindow, sample_rate_hz: u32) -> (channel: Self)
        ensures
            channel.model() == (ChannelModel {
                index: config.index,
                enabled: config.enabled,
                window_micros: time_window.seconds.micros,
                samples: Seq::<SamplePoint<T>>::empty(),
            }),
    {
        let expected: usize = time_window.samples(sample_rate_hz);
        let capacity: usize = if expected <= usize::MAX - BUFFER_HEADROOM {
            expected + BUFFER_HEADROOM
        } else {
            usize::MAX
        };
        Self {
            config,
            buffer: SampleBuffer::new(time_window.seconds, capacity),
            last_sample_time: 0,
        }
    }

    /// Takes in one conditioned sample, unless the channel is switched off.
    fn ingest(&mut self, time: i64, value: T) where T: Copy
        ensures
            final(self).model() == old(self).model().after_sample(time, value),
    {
        if !self.config.enabled {
            return ;
        }
        self.last_sample_time = time;
        self.buffer.push(SamplePoint { time, value });
    }

    /// The view of the channel; `None` where it does not show.
    fn view(&self) -> (shown: Option<ChannelView<T>>) where T: Copy
        ensures
            shown.is_some() <==> self.model().visible(),
            shown matches Some(view) ==> {
                &&& view.index == self.model().index
                &&& view.samples@ == rebased(self.model().samples)
            },
    {
        if !self.config.enabled || self.buffer.is_empty() {
            return None;
        }
        let mut samples: Vec<SamplePoint<T>> = self.buffer.to_vec();
        let held: usize = samples.len();
        let newest: i64 = samples[held - 1].time;
        let ghost absolute = samples@;
        let mut i: usize = 0;
        while i < held
            invariant
                i <= held,
                held == absolute.len(),
                samples@.len() == held,
                newest == absolute.last().time,
                forall|j: int| 0 <= j < i ==> #[trigger] samples@[j] == rebased(absolute)[j],
                forall|j: int| i <= j < held ==> #[trigger] samples@[j] == absolute[j],
            decreases held - i,
        {
            let point: SamplePoint<T> = samples[i];
            let exact: i128 = point.time as i128 - newest as i128;
            let time: i64 = if exact < i64::MIN as i128 {
                i64::MIN
            } else if exact > i64::MAX as i128 {
                i64::MAX
            } else {
                exact as i64
            };
            samples.set(i, SamplePoint { time, value: point.value });
            i += 1;
        }
        assert(samples@ =~= rebased(absolute));
        Some(ChannelView { index: self.config.index, samples })
    }
}

/// The waveform pipeline: a windowed buffer per channel. Channels are
/// switched on and off one by one; a channel that is off takes in nothing.
pub struct WaveformPipeline<T> {
    sample_rate_hz: u32,
    time_window: TimeWindow,
    channels: Vec<ChannelState<T>>,
}

impl<T> WaveformPipeline<T> {
    /// What the pipeline is.
    pub closed spec fn model(&self) -> WaveformPipelineModel<T> {
        WaveformPipelineModel {
            sample_rate_hz: self.sample_rate_hz,
            time_window: self.time_window,
            channels: Seq::new(self.channels@.len(), |c: int| self.channels@[c].model()),
        }
    }
}

impl<T: Copy> WaveformPipeline<T> {
    /// A pipeline of `channel_count` channels, all switched on and empty,
    /// with a window of five seconds.
    pub fn new(channel_count: usize, sample_rate_hz: u32) -> (pipeline: Self)
        ensures
            pipeline.model().sample_rate_hz == sample_rate_hz,
            pipeline.model().time_window.seconds.micros == super::config::DEFAULT_WINDOW_MICROS,
            pipeline.model().channels.len() == channel_count,
            forall|c: int|
                0 <= c < channel_count ==> #[trigger] pipeline.model().channels[c] == (ChannelModel {
                    index: c as usize,
                    enabled: true,
                    window_micros: super::config::DEFAULT_WINDOW_MICROS,
                    samples: Seq::<SamplePoint<T>>::empty(),
                }),
    {
        let time_window = TimeWindow::default();
        let mut channels: Vec<ChannelState<T>> = Vec::new();
        let mut idx: usize = 0;
        while idx < channel_count
            invariant
                idx <= channel_count,
                channels@.len() == idx,
                time_window.seconds.micros == super::config::DEFAULT_WINDOW_MICROS,
                forall|c: int|
                    0 <= c < idx ==> (#[trigger] channels@[c]).model() == (ChannelModel {
                        index: c as usize,
                        enabled: true,
                        window_micros: super::config::DEFAULT_WINDOW_MICROS,
                        samples: Seq::<SamplePoint<T>>::empty(),
                    }),
            decreases channel_count - idx,
        {
            channels.push(ChannelState::new(ChannelConfig::new(idx), time_window, sample_rate_hz));
            idx += 1;
        }
        Self { sample_rate_hz, time_window, channels }
    }

    /// The number of channels.
    pub fn channel_count(&self) -> (count: usize)
        ensures
            count == self.model().channels.len(),
    {
        self.channels.len()
    }

    /// Whether channel `index` is switched on; `false` where there is no
    /// such channel.
    pub fn is_channel_enabled(&self, index: usize) -> (enabled: bool)
        ensures
            enabled == (index < self.model().channels.len() && self.model().channels[index as int].enabled),
    {
        index < self.channels.len() && self.channels[index].config.enabled
    }

    /// Sets the window on every channel; each drops what no longer lies in
    /// it, counted back from its newest sample.
    pub fn set_time_window(&mut self, window: TimeWindow)
        ensures
            final(self).model() == old(self).model().after_window(window),
    {
        self.time_window = window;
        let count: usize = self.channels.len();
        let mut c: usize = 0;
        while c < count
            invariant
                c <= count,
                count == self.channels@.len(),
                count == old(self).channels@.len(),
                self.sample_rate_hz == old(self).sample_rate_hz,
                self.time_window == window,
                forall|j: int|
                    0 <= j < c ==> (#[trigger] self.channels@[j]).model() == old(
                        self,
                    ).channels@[j].model().after_window(window.seconds),
                forall|j: int| c <= j < count ==> #[trigger] self.channels@[j] == old(self).channels@[j],
            decreases count - c,
        {
            self.channels[c].buffer.set_window(window.seconds);
            c += 1;
        }
        assert(self.model().channels =~= old(self).model().after_window(window).channels);
    }

    /// Switches channel `index` on or off; does nothing where there is no
    /// such channel.
    pub fn set_channel_enabled(&mut self, index: usize, enabled: bool)
        ensures
            final(self).model() == old(self).model().after_enabled(index as int, enabled),
    {
        if index < self.channels.len() {
            self.channels[index].config.enabled = enabled;
            assert(self.model().channels =~= old(self).model().after_enabled(index as int, enabled).channels);
        }
    }

    /// Takes in one frame: channel `c` is offered `values[c]` at
    /// `timestamp`. The values are those after conditioning.
    pub fn ingest_frame(&mut self, timestamp: i64, values: &[T])
        ensures
            final(self).model() == old(self).model().after_column(timestamp, frame_column(values@)),
    {
        let count: usize = if values.len() <= self.channels.len() {
            values.len()
        } else {
            self.channels.len()
        };
        let mut c: usize = 0;
        while c < count
            invariant
                c <= count <= values@.len(),
                count <= self.channels@.len(),
                self.channels@.len() == old(self).channels@.len(),
                self.sample_rate_hz == old(self).sample_rate_hz,
                self.time_window == old(self).time_window,
                forall|j: int|
                    0 <= j < c ==> (#[trigger] self.channels@[j]).model() == old(
                        self,
                    ).channels@[j].model().after_sample(timestamp, values@[j]),
                forall|j: int|
                    c <= j < self.channels@.len() ==> #[trigger] self.channels@[j] == old(
                        self,
                    ).channels@[j],
            decreases count - c,
        {
            self.channels[c].ingest(timestamp, values[c]);
            c += 1;
        }
        assert(self.model().channels =~= old(self).model().after_column(timestamp, frame_column(values@)).channels);
    }

    /// Takes in a block of rows, one row per channel, sample by sample:
    /// sample `i` of every row that has one is offered to its channel at the
    /// time of sample `i`, counted from `start_time` at the pipeline's rate.
    pub fn ingest_block(&mut self, start_time: i64, samples_per_channel: &[Vec<T>])
        ensures
            exists|longest: nat|
                is_longest_row(rows_of(samples_per_channel@), longest) && final(self).model() == old(
                    self,
                ).model().after_block(start_time, rows_of(samples_per_channel@), longest),
    {
        let max_samples: usize = longest_row(samples_per_channel);
        let ghost rows = rows_of(samples_per_channel@);
        let mut i: usize = 0;
        while i < max_samples
            invariant
                i <= max_samples,
                rows == rows_of(samples_per_channel@),
                self.model().sample_rate_hz == old(self).model().sample_rate_hz,
                self.model() == old(self).model().after_block(start_time, rows, i as nat),
            decreases max_samples - i,
        {
            let time: i64 = self.time_of_sample(start_time, i);
            self.ingest_column(time, samples_per_channel, i);
            i += 1;
        }
    }

    /// The view: every channel that is switched on and holds samples, with
    /// the times of its samples counted from its newest.
    pub fn view(&self) -> (view: WaveformView<T>)
        ensures
            self.model().shows(view),
    {
        let count: usize = self.channels.len();
        let mut channels: Vec<ChannelView<T>> = Vec::new();
        let mut c: usize = 0;
        while c < count
            invariant
                c <= count,
                count == self.channels@.len(),
                channels@.len() == self.model().visible_channels(c as nat).len(),
                forall|k: int|
                    0 <= k < channels@.len() ==> {
                        &&& (#[trigger] channels@[k]).index == self.model().visible_channels(
                            c as nat,
                        )[k].index
                        &&& channels@[k].samples@ == rebased(
                            self.model().visible_channels(c as nat)[k].samples,
                        )
                    },
            decreases count - c,
        {
            match self.channels[c].view() {
                Some(shown) => {
                    channels.push(shown);
                },
                None => {},
            }
            c += 1;
        }
        WaveformView { window_secs: self.time_window.seconds, channels }
    }

    /// The time of sample `i` of a block that starts at `start`.
    fn time_of_sample(&self, start: i64, i: usize) -> (time: i64)
        ensures
            time == sample_time(start, i as nat, self.model().sample_rate_hz),
    {
        if self.sample_rate_hz == 0 {
            return start;
        }
        let offset: u128 = ((i as u128) * 1_000_000) / (self.sample_rate_hz as u128);
        let exact: i128 = start as i128 + offset as i128;
        if exact > i64::MAX as i128 {
            i64::MAX
        } else {
            exact as i64
        }
    }

    /// Offers sample `i` of every row that has one to its channel.
    fn ingest_column(&mut self, time: i64, rows: &[Vec<T>], i: usize)
        ensures
            final(self).model() == old(self).model().after_column(time, block_column(rows_of(rows@), i as int)),
    {
        let count: usize = if rows.len() <= self.channels.len() {
            rows.len()
        } else {
            self.channels.len()
        };
        let ghost column = block_column(rows_of(rows@), i as int);
        let mut c: usize = 0;
        while c < count
            invariant
                c <= count <= rows@.len(),
                count <= self.channels@.len(),
                column == block_column(rows_of(rows@), i as int),
                self.channels@.len() == old(self).channels@.len(),
                self.sample_rate_hz == old(self).sample_rate_hz,
                self.time_window == old(self).time_window,
                forall|j: int|
                    0 <= j < c ==> (#[trigger] self.channels@[j]).model() == (if column[j].is_some() {
                        old(self).channels@[j].model().after_sample(time, column[j].unwrap())
                    } else {
                        old(self).channels@[j].model()
                    }),
                forall|j: int|
                    c <= j < self.channels@.len() ==> #[trigger] self.channels@[j] == old(
                        self,
                    ).channels@[j],
            decreases count - c,
        {
            if i < rows[c].len() {
                self.channels[c].ingest(time, rows[c][i]);
            }
            c += 1;
        }
        assert(self.model().channels =~= old(self).model().after_column(time, column).channels);
    }
}

/// The length of the longest row; zero without rows.
fn longest_row<T>(rows: &[Vec<T>]) -> (longest: usize)
    ensures
        is_longest_row(rows_of(rows@), longest as nat),
{
    let mut longest: usize = 0;
    let mut c: usize = 0;
    while c < rows.len()
        invariant
            c <= rows@.len(),
            forall|j: int| 0 <= j < c ==> (#[trigger] rows_of(rows@)[j]).len() <= longest,
            longest > 0 ==> exists|j: int|
                0 <= j < c && (#[trigger] rows_of(rows@)[j]).len() == longest,
        decreases rows@.len() - c,
    {
        if rows[c].len() > longest {
            longest = rows[c].len();
            assert(rows_of(rows@)[c as int].len() == longest);
        }
        c += 1;
    }
    longest
}

} // verus!
