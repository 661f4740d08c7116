//! The signal path: batches, rolling buffers, frames and spectra.

pub mod buffer;
pub mod error;
pub mod fft;
pub mod pipeline;
pub mod source;

pub use buffer::{SignalBuffer, TimeSeriesFrame};
pub use error::ModelizeError;
pub use fft::{FrequencySpectrum, SpectrumBuilder};
pub use pipeline::{make_batch, SignalPipeline};
pub use source::{ManualSource, SignalBatch, SignalSource};
