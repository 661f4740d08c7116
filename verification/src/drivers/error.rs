//! What can go wrong in the signal path. Every failure is a value that the
//! caller can match on; none ends the session.

use vstd::prelude::*;

verus! {

/// A failure of the signal path.
#[derive(Clone, Debug, PartialEq, Eq)]
#[allow(inconsistent_fields)]
pub enum ModelizeError {
    /// A sample rate of zero.
    InvalidSampleRate,
    /// A batch sampled at another rate than the buffer it was pushed into.
    SampleRateMismatch { expected: u32, actual: u32 },
    /// A count of channels that differs from the count expected.
    ChannelCountMismatch { expected: usize, actual: usize },
    /// A frame was asked for before any batch arrived.
    BufferUninitialized,
    /// Fewer samples are buffered than a spectral analysis needs.
    InsufficientSamplesForSpectrum,
    /// A plot could not be rendered; the text says why.
    Plot(String),
}

} // verus!
