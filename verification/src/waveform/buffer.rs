//! The samples of one channel that lie in the window of time.

use super::view::SamplePoint;
use crate::fifo::queue_with_room;
use crate::units::Seconds;
use crate::waveform::config::{clamped_window, MIN_WINDOW_MICROS};
use std::collections::VecDeque;
use vstd::prelude::*;

verus! {

/// `samples` without its leading run of samples older than `threshold`.
pub open spec fn pruned<T>(samples: Seq<SamplePoint<T>>, threshold: int) -> Seq<SamplePoint<T>>
    decreases samples.len(),
{
    if samples.len() > 0 && samples[0].time < threshold {
        pruned(samples.drop_first(), threshold)
    } else {
        samples
    }
}

/// Whether no sample is older than the one before it.
pub open spec fn in_time_order<T>(samples: Seq<SamplePoint<T>>) -> bool {
    forall|i: int, j: int| 0 <= i <= j < samples.len() ==> samples[i].time <= samples[j].time
}

/// What a buffer with window `window_micros` holds after `sample` was pushed:
/// the sample is appended, then the samples that lie further back than the
/// window from it are dropped from the front.
pub open spec fn after_push<T>(
    samples: Seq<SamplePoint<T>>,
    window_micros: u64,
    sample: SamplePoint<T>,
) -> Seq<SamplePoint<T>> {
    pruned(samples.push(sample), sample.time - window_micros)
}

/// What a buffer holds after its window was set to `window_micros`: it is
/// pruned against its newest sample.
pub open spec fn after_rewindow<T>(samples: Seq<SamplePoint<T>>, window_micros: u64) -> Seq<
    SamplePoint<T>,
> {
    if samples.len() > 0 {
        pruned(samples, samples.last().time - window_micros)
    } else {
        samples
    }
}

/// Pruning cuts samples off the front and nothing else: what is left is the
/// end of what there was.
pub proof fn lemma_pruned_is_suffix<T>(samples: Seq<SamplePoint<T>>, threshold: int)
    ensures
        pruned(samples, threshold).len() <= samples.len(),
        pruned(samples, threshold) == samples.subrange(
            samples.len() - pruned(samples, threshold).len(),
            samples.len() as int,
        ),
        forall|i: int|
            0 <= i < samples.len() - pruned(samples, threshold).len() ==> (
            #[trigger] samples[i]).time < threshold,
        pruned(samples, threshold).len() > 0 ==> pruned(samples, threshold)[0].time >= threshold,
    decreases samples.len(),
{
    if samples.len() > 0 && samples[0].time < threshold {
        let rest = samples.drop_first();
        lemma_pruned_is_suffix(rest, threshold);
        let kept = pruned(rest, threshold);
        assert(kept =~= samples.subrange(samples.len() - kept.len(), samples.len() as int));
        assert forall|i: int| 0 <= i < samples.len() - kept.len() implies (
        #[trigger] samples[i]).time < threshold by {
            if i > 0 {
                assert(samples[i] == rest[i - 1]);
            }
        }
    } else {
        assert(samples =~= samples.subrange(0, samples.len() as int));
    }
}

/// Of samples in time order, pruning leaves exactly those that are not older
/// than the threshold, still in time order.
pub proof fn lemma_pruned_keeps_the_window<T>(samples: Seq<SamplePoint<T>>, threshold: int)
    requires
        in_time_order(samples),
    ensures
        in_time_order(pruned(samples, threshold)),
        forall|i: int|
            0 <= i < pruned(samples, threshold).len() ==> (#[trigger] pruned(
                samples,
                threshold,
            )[i]).time >= threshold,
        pruned(samples, threshold) == samples.filter(|p: SamplePoint<T>| p.time >= threshold),
    decreases samples.len(),
{
    lemma_pruned_is_suffix(samples, threshold);
    let kept = pruned(samples, threshold);
    let cut = samples.len() - kept.len();
    assert forall|i: int| 0 <= i < kept.len() implies (#[trigger] kept[i]).time >= threshold by {
        assert(kept[i] == samples[cut + i]);
        assert(kept[0] == samples[cut]);
    }
    lemma_filter_of_split(samples, threshold, cut);
}

/// Where the first `cut` samples are older than the threshold and the others
/// are not, filtering by age leaves the others.
proof fn lemma_filter_of_split<T>(samples: Seq<SamplePoint<T>>, threshold: int, cut: int)
    requires
        0 <= cut <= samples.len(),
        forall|i: int| 0 <= i < cut ==> (#[trigger] samples[i]).time < threshold,
        forall|i: int| cut <= i < samples.len() ==> (#[trigger] samples[i]).time >= threshold,
    ensures
        samples.filter(|p: SamplePoint<T>| p.time >= threshold) == samples.subrange(
            cut,
            samples.len() as int,
        ),
    decreases samples.len(),
{
    let keep = |p: SamplePoint<T>| p.time >= threshold;
    reveal(Seq::filter);
    if samples.len() == 0 {
        assert(samples.filter(keep) =~= samples.subrange(cut, samples.len() as int));
    } else {
        let front = samples.drop_last();
        if cut == samples.len() {
            lemma_filter_of_split(front, threshold, cut - 1);
            assert(samples.filter(keep) =~= samples.subrange(cut, samples.len() as int));
        } else {
            lemma_filter_of_split(front, threshold, cut);
            assert(front.subrange(cut, front.len() as int).push(samples.last())
                =~= samples.subrange(cut, samples.len() as int));
        }
    }
}

/// The samples of one channel, oldest first, with the window that they are
/// held to.
pub struct SampleBuffer<T> {
    data: VecDeque<SamplePoint<T>>,
    window_secs: Seconds,
}

impl<T> View for SampleBuffer<T> {
    type V = Seq<SamplePoint<T>>;

    /// The samples, oldest first.
    closed spec fn view(&self) -> Seq<SamplePoint<T>> {
        self.data@
    }
}

impl<T> SampleBuffer<T> {
    /// The window, in microseconds.
    pub closed spec fn window_micros(&self) -> u64 {
        self.window_secs.micros
    }

    /// An empty buffer with the given window, with room made ahead of time
    /// for `capacity` samples; the buffer grows where more come.
    pub fn new(window_secs: Seconds, capacity: usize) -> (buffer: Self)
        ensures
            buffer@ == Seq::<SamplePoint<T>>::empty(),
            buffer.window_micros() == window_secs.micros,
    {
        Self { data: queue_with_room(capacity), window_secs }
    }

    /// Sets the window, to a tenth of a second at least, and drops what no
    /// longer lies in it, counted back from the newest sample.
    pub fn set_window(&mut self, window_secs: Seconds)
        ensures
            final(self).window_micros() == clamped_window(window_secs.micros),
            final(self)@ == after_rewindow(old(self)@, clamped_window(window_secs.micros)),
    {
        self.window_secs = window_secs.at_least(Seconds { micros: MIN_WINDOW_MICROS });
        let held: usize = self.data.len();
        if held > 0 {
            let newest: i64 = self.data[held - 1].time;
            self.prune(newest);
        }
    }

    /// Appends `sample`, then drops from the front what lies further back
    /// than the window from it.
    pub fn push(&mut self, sample: SamplePoint<T>) where T: Copy
        ensures
            final(self).window_micros() == old(self).window_micros(),
            final(self)@ == after_push(old(self)@, old(self).window_micros(), sample),
    {
        self.data.push_back(sample);
        self.prune(sample.time);
    }

    /// The samples, oldest first.
    pub fn to_vec(&self) -> (samples: Vec<SamplePoint<T>>) where T: Copy
        ensures
            samples@ == self@,
    {
        let mut samples: Vec<SamplePoint<T>> = Vec::new();
        let held: usize = self.data.len();
        let mut i: usize = 0;
        while i < held
            invariant
                i <= held,
                held == self.data@.len(),
                samples@ == self.data@.subrange(0, i as int),
            decreases held - i,
        {
            samples.push(self.data[i]);
            i += 1;
            assert(samples@ =~= self.data@.subrange(0, i as int));
        }
        assert(samples@ =~= self.data@);
        samples
    }

    /// The number of samples held.
    pub fn len(&self) -> (held: usize)
        ensures
            held == self@.len(),
    {
        self.data.len()
    }

    /// Whether no sample is held.
    pub fn is_empty(&self) -> (empty: bool)
        ensures
            empty == (self@.len() == 0),
    {
        self.data.len() == 0
    }

    /// The newest sample; `None` for an empty buffer.
    pub fn newest(&self) -> (sample: Option<SamplePoint<T>>) where T: Copy
        ensures
            sample == if self@.len() == 0 {
                None
            } else {
                Some(self@.last())
            },
    {
        let held: usize = self.data.len();
        if held == 0 {
            None
        } else {
            Some(self.data[held - 1])
        }
    }

    /// Drops from the front the samples that lie further back than the
    /// window from `newest_time`.
    fn prune(&mut self, newest_time: i64)
        ensures
            final(self).window_micros() == old(self).window_micros(),
            final(self)@ == pruned(old(self)@, newest_time - old(self).window_micros()),
    {
        let threshold: i128 = newest_time as i128 - self.window_secs.micros as i128;
        loop
            invariant
                self.window_secs == old(self).window_secs,
                threshold == newest_time - old(self).window_micros(),
                pruned(self.data@, threshold as int) == pruned(old(self)@, threshold as int),
            ensures
                self.data@ == pruned(old(self)@, threshold as int),
            decreases self.data@.len(),
        {
            if self.data.len() == 0 {
                break ;
            }
            let oldest: i64 = self.data[0].time;
            if (oldest as i128) < threshold {
                let ghost before = self.data@;
                let _ = self.data.pop_front();
                assert(self.data@ =~= before.drop_first());
            } else {
                break ;
            }
        }
    }
}

} // verus!
