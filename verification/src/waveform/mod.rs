//! The waveform view: per channel the samples of the last seconds, ready to
//! plot.

pub mod buffer;
pub mod channel;
pub mod config;
pub mod feed;
pub mod view;

pub use channel::{ChannelConfig, WaveformPipeline};
pub use config::TimeWindow;
pub use view::{ChannelView, SamplePoint, WaveformView};
