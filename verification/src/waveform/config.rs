//! The window of time that the waveform shows.

use crate::units::{samples_in_span, Seconds};
use vstd::prelude::*;

verus! {

/// The shortest window, in microseconds: a tenth of a second.
pub const MIN_WINDOW_MICROS: u64 = 100_000;

/// The window that a pipeline starts with, in microseconds: five seconds.
pub const DEFAULT_WINDOW_MICROS: u64 = 5_000_000;

/// The length of the window, never under a tenth of a second when made by
/// `new` or by `default`.
#[derive(Clone, Copy, Debug, PartialEq, Eq, Structural)]
pub struct TimeWindow {
    pub seconds: Seconds,
}

/// `micros`, raised to the shortest window where it is shorter.
pub open spec fn clamped_window(micros: u64) -> u64 {
    if micros >= MIN_WINDOW_MICROS {
        micros
    } else {
        MIN_WINDOW_MICROS
    }
}

impl TimeWindow {
    /// A window of `seconds`, or of a tenth of a second where `seconds` is
    /// shorter.
    pub fn new(seconds: Seconds) -> (window: Self)
        ensures
            window.seconds.micros == clamped_window(seconds.micros),
    {
        Self { seconds: seconds.at_least(Seconds { micros: MIN_WINDOW_MICROS }) }
    }

    /// The number of samples of a stream at `sample_rate_hz` that fill the
    /// window, and one at least.
    pub fn samples(&self, sample_rate_hz: u32) -> (count: usize)
        ensures
            count == if samples_in_span(sample_rate_hz, self.seconds) >= 1 {
                samples_in_span(sample_rate_hz, self.seconds)
            } else {
                1
            },
    {
        let count: usize = self.seconds.samples(sample_rate_hz);
        if count >= 1 {
            count
        } else {
            1
        }
    }
}

impl Default for TimeWindow {
    /// A window of five seconds.
    fn default() -> (window: Self)
        ensures
            window.seconds.micros == DEFAULT_WINDOW_MICROS,
    {
        TimeWindow { seconds: Seconds { micros: DEFAULT_WINDOW_MICROS } }
    }
}

} // verus!
