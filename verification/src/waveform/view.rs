//! What the waveform pipeline hands out for plotting.

use crate::units::Seconds;
use vstd::prelude::*;

verus! {

/// One sample of one channel.
#[derive(Clone, Copy, Debug)]
pub struct SamplePoint<T> {
    /// The time of the sample in microseconds: on the stream's clock in a
    /// buffer, counted from the newest sample in a view.
    pub time: i64,
    /// The value, in microvolts, after conditioning.
    pub value: T,
}

/// The samples of one channel that lie in the window.
#[derive(Debug)]
pub struct ChannelView<T> {
    /// Which channel.
    pub index: usize,
    /// The samples, oldest first; the newest is at time zero.
    pub samples: Vec<SamplePoint<T>>,
}

/// All channels that are switched on and have samples.
#[derive(Debug)]
pub struct WaveformView<T> {
    /// The length of the window.
    pub window_secs: Seconds,
    /// The channels, in channel order.
    pub channels: Vec<ChannelView<T>>,
}

} // verus!
