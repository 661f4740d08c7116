//! How much of each frame of the rolling buffer is fed to the waveform: the
//! whole visible tail at first, then about an eighth of a second at a time.

use crate::units::{samples_in_span, Seconds};
use vstd::prelude::*;

verus! {

/// The number of samples in an eighth of a second at `sample_rate_hz`,
/// rounded up.
pub open spec fn refresh_samples(sample_rate_hz: u32) -> nat {
    ((sample_rate_hz + 7) / 8) as nat
}

/// How many of the newest samples of a frame of `total` samples are fed.
/// The first feed takes as many as the window shows, all where the frame
/// holds fewer. Every later feed takes an eighth of a second of samples: one
/// at least, and no more than the first feed would.
pub open spec fn chunk_len(total: nat, sample_rate_hz: u32, window: Seconds, first: bool) -> nat {
    let shown = samples_in_span(sample_rate_hz, window);
    let most = if total <= shown {
        total
    } else {
        shown
    };
    if first {
        most
    } else if refresh_samples(sample_rate_hz) >= most {
        most
    } else if refresh_samples(sample_rate_hz) == 0 {
        1
    } else {
        refresh_samples(sample_rate_hz)
    }
}

/// The part of a frame that is fed: samples `start` to the end.
#[derive(Clone, Copy, Debug, PartialEq, Eq, Structural)]
pub struct FeedChunk {
    /// The index of the first sample that is fed.
    pub start: usize,
    /// The number of samples that are fed.
    pub len: usize,
}

/// Picks the part of a frame of `total` samples per channel that is fed to
/// the waveform: the newest `chunk_len` samples.
pub fn feed_chunk(total: usize, sample_rate_hz: u32, window: Seconds, first: bool) -> (chunk:
    FeedChunk)
    ensures
        chunk.len == chunk_len(total as nat, sample_rate_hz, window, first),
        chunk.start + chunk.len == total,
{
    let shown: usize = window.samples(sample_rate_hz);
    let most: usize = if total <= shown {
        total
    } else {
        shown
    };
    let len: usize = if first {
        most
    } else {
        let target: u64 = (sample_rate_hz as u64 + 7) / 8;
        if target >= most as u64 {
            most
        } else if target == 0 {
            1
        } else {
            target as usize
        }
    };
    FeedChunk { start: total - len, len }
}

} // verus!
