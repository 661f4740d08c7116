//! The rolling store of the most recent samples of every channel, and the
//! frames cut from it.

use crate::drivers::error::ModelizeError;
use crate::drivers::source::SignalBatch;
use crate::fifo::{
    keep_last, lemma_keep_last_absorbs, lemma_push_all_bounded, push_all_bounded, push_evicting,
    queue_with_room,
};
use crate::units::{samples_in_span, span_of_samples, Seconds};
use std::collections::VecDeque;
use vstd::prelude::*;

verus! {

/// The rows of a table of samples, each as a sequence.
pub open spec fn rows_of<T>(samples: Seq<Vec<T>>) -> Seq<Seq<T>> {
    Seq::new(samples.len(), |c: int| samples[c]@)
}

/// A view of the time-domain buffer at one moment: channels by samples.
#[derive(Clone, Debug)]
pub struct TimeSeriesFrame<T> {
    /// Samples per second on each channel.
    pub sample_rate_hz: u32,
    /// One label per channel.
    pub channel_labels: Vec<String>,
    /// One row of samples per channel, oldest first.
    pub samples: Vec<Vec<T>>,
}

impl<T> TimeSeriesFrame<T> {
    /// The rows of the frame, each as a sequence.
    pub open spec fn rows(&self) -> Seq<Seq<T>> {
        rows_of(self.samples@)
    }

    /// The time that the first row covers; no time for a frame without rows.
    pub fn duration_seconds(&self) -> (span: Seconds)
        ensures
            span.micros == if self.samples@.len() == 0 {
                0
            } else {
                span_of_samples(self.samples@[0].len() as nat, self.sample_rate_hz)
            },
    {
        if self.samples.len() == 0 {
            Seconds { micros: 0 }
        } else {
            Seconds::of_samples(self.samples[0].len(), self.sample_rate_hz)
        }
    }
}

/// What a rolling buffer is: its configuration and what each channel holds.
pub struct SignalBufferView<T> {
    /// Samples per second on each channel; never zero.
    pub sample_rate_hz: u32,
    /// The most samples that a channel holds.
    pub capacity: nat,
    /// One label per channel.
    pub labels: Seq<String>,
    /// What each channel holds, oldest sample first.
    pub channels: Seq<Seq<T>>,
}

impl<T> SignalBufferView<T> {
    /// The buffer after each channel took in its row of `rows`: every channel
    /// keeps the newest `capacity` of what it held and what came.
    pub open spec fn after_push(self, rows: Seq<Seq<T>>) -> SignalBufferView<T> {
        SignalBufferView {
            channels: Seq::new(
                self.channels.len(),
                |c: int| keep_last(self.channels[c] + rows[c], self.capacity),
            ),
            ..self
        }
    }

    /// The newest `take` samples of every channel, fewer where a channel
    /// holds fewer.
    pub open spec fn newest(self, take: nat) -> Seq<Seq<T>> {
        Seq::new(self.channels.len(), |c: int| keep_last(self.channels[c], take))
    }

    /// Whether `frame` is the snapshot of the last `seconds` of this buffer.
    pub open spec fn yields(self, seconds: Seconds, frame: TimeSeriesFrame<T>) -> bool {
        &&& frame.sample_rate_hz == self.sample_rate_hz
        &&& frame.channel_labels@ == self.labels
        &&& frame.rows() == self.newest(samples_in_span(self.sample_rate_hz, seconds))
    }

    /// Whether no channel holds more than the capacity.
    pub open spec fn within_capacity(self) -> bool {
        forall|c: int|
            0 <= c < self.channels.len() ==> (#[trigger] self.channels[c]).len() <= self.capacity
    }

    /// What `SignalBuffer::push_batch` answers to a batch of the given rate,
    /// rows and labels: the batch's own faults first, then a rate that is not
    /// the buffer's, then a number of rows that is not the buffer's.
    pub open spec fn push_verdict(self, sample_rate_hz: u32, rows: nat, labels: nat) -> Result<
        (),
        ModelizeError,
    > {
        if sample_rate_hz == 0 {
            Err(ModelizeError::InvalidSampleRate)
        } else if rows != labels {
            Err(
                ModelizeError::ChannelCountMismatch {
                    expected: labels as usize,
                    actual: rows as usize,
                },
            )
        } else if sample_rate_hz != self.sample_rate_hz {
            Err(
                ModelizeError::SampleRateMismatch {
                    expected: self.sample_rate_hz,
                    actual: sample_rate_hz,
                },
            )
        } else if rows != self.channels.len() {
            Err(
                ModelizeError::ChannelCountMismatch {
                    expected: self.channels.len() as usize,
                    actual: rows as usize,
                },
            )
        } else {
            Ok(())
        }
    }
}

/// A batch taken in at once leaves on every channel what its samples,
/// pushed one by one, would have left: strictly first in, first out.
pub proof fn lemma_push_is_first_in_first_out<T>(
    buffer: SignalBufferView<T>,
    rows: Seq<Seq<T>>,
    c: int,
)
    requires
        buffer.within_capacity(),
        0 <= c < buffer.channels.len(),
    ensures
        buffer.after_push(rows).channels[c] == push_all_bounded(
            buffer.channels[c],
            buffer.capacity,
            rows[c],
        ),
        buffer.after_push(rows).channels[c].len() <= buffer.capacity,
{
    lemma_push_all_bounded(buffer.channels[c], buffer.capacity, rows[c]);
}

/// Two snapshots of the same span, taken of a buffer that nothing was pushed
/// into in between, hold the same data.
pub proof fn lemma_snapshot_idempotent<T>(
    buffer: SignalBufferView<T>,
    seconds: Seconds,
    first: TimeSeriesFrame<T>,
    second: TimeSeriesFrame<T>,
)
    requires
        buffer.yields(seconds, first),
        buffer.yields(seconds, second),
    ensures
        first.sample_rate_hz == second.sample_rate_hz,
        first.channel_labels@ == second.channel_labels@,
        first.rows() == second.rows(),
        first.samples@.len() == second.samples@.len(),
        forall|c: int|
            0 <= c < first.samples@.len() ==> (#[trigger] first.samples@[c])@
                == second.samples@[c]@,
{
    assert(first.rows().len() == second.rows().len());
    assert forall|c: int| 0 <= c < first.samples@.len() implies (#[trigger] first.samples@[c])@
        == second.samples@[c]@ by {
        assert(first.rows()[c] == second.rows()[c]);
    }
}

/// A rolling buffer: for every channel the most recent samples, first in
/// first out, never more than its capacity.
pub struct SignalBuffer<T> {
    table: ChannelTable<T>,
    sample_rate_hz: u32,
    capacity: usize,
}

/// The channels of a buffer: a label and a queue of samples for each.
struct ChannelTable<T> {
    labels: Vec<String>,
    queues: Vec<VecDeque<T>>,
}

impl<T> ChannelTable<T> {
    /// What each queue holds, oldest sample first.
    spec fn contents(self) -> Seq<Seq<T>> {
        Seq::new(self.queues@.len(), |c: int| self.queues@[c]@)
    }

    /// Whether there is one queue per label and none holds more than
    /// `capacity` samples.
    spec fn fits(self, capacity: nat) -> bool {
        &&& self.queues@.len() == self.labels@.len()
        &&& forall|c: int|
            0 <= c < self.queues@.len() ==> (#[trigger] self.queues@[c])@.len() <= capacity
    }

    /// A table without channels.
    fn empty() -> (table: Self)
        ensures
            table.labels@.len() == 0,
            table.queues@.len() == 0,
    {
        ChannelTable { labels: Vec::new(), queues: Vec::new() }
    }
}

impl<T> View for SignalBuffer<T> {
    type V = SignalBufferView<T>;

    closed spec fn view(&self) -> SignalBufferView<T> {
        SignalBufferView {
            sample_rate_hz: self.sample_rate_hz,
            capacity: self.capacity as nat,
            labels: self.table.labels@,
            channels: self.table.contents(),
        }
    }
}

impl<T> SignalBuffer<T> {
    /// An empty buffer for streams at `sample_rate_hz` with one channel per
    /// label, each holding the samples of the last `history_seconds`. A rate
    /// of zero is refused with `InvalidSampleRate`.
    pub fn with_history_seconds(
        channel_labels: Vec<String>,
        sample_rate_hz: u32,
        history_seconds: Seconds,
    ) -> (made: Result<Self, ModelizeError>)
        ensures
            sample_rate_hz == 0 ==> made == Err::<Self, ModelizeError>(
                ModelizeError::InvalidSampleRate,
            ),
            sample_rate_hz > 0 ==> made.is_ok(),
            made matches Ok(buffer) ==> {
                &&& buffer@.sample_rate_hz == sample_rate_hz
                &&& buffer@.capacity == samples_in_span(sample_rate_hz, history_seconds)
                &&& buffer@.labels == channel_labels@
                &&& buffer@.channels.len() == channel_labels@.len()
                &&& forall|c: int|
                    0 <= c < buffer@.channels.len() ==> #[trigger] buffer@.channels[c]
                        == Seq::<T>::empty()
            },
    {
        if sample_rate_hz == 0 {
            return Err(ModelizeError::InvalidSampleRate);
        }
        let capacity: usize = history_seconds.samples(sample_rate_hz);
        let count: usize = channel_labels.len();
        let mut queues: Vec<VecDeque<T>> = Vec::new();
        let mut c: usize = 0;
        while c < count
            invariant
                c <= count,
                queues@.len() == c,
                forall|j: int| 0 <= j < c ==> (#[trigger] queues@[j])@ == Seq::<T>::empty(),
            decreases count - c,
        {
            queues.push(queue_with_room(capacity));
            c += 1;
        }
        Ok(Self { table: ChannelTable { labels: channel_labels, queues }, sample_rate_hz, capacity })
    }

    /// Samples per second on each channel; never zero.
    pub fn sample_rate_hz(&self) -> (rate: u32)
        ensures
            rate == self@.sample_rate_hz,
            rate > 0,
    {
        proof {
            use_type_invariant(self);
        }
        self.sample_rate_hz
    }

    /// The labels of the channels, in channel order.
    pub fn channel_labels(&self) -> (labels: &[String])
        ensures
            labels@ == self@.labels,
            labels@.len() == self@.channels.len(),
    {
        proof {
            use_type_invariant(self);
        }
        self.table.labels.as_slice()
    }

    /// The most samples that a channel holds.
    pub fn capacity(&self) -> (capacity: usize)
        ensures
            capacity == self@.capacity,
            forall|c: int|
                0 <= c < self@.channels.len() ==> (#[trigger] self@.channels[c]).len() <= capacity,
    {
        proof {
            use_type_invariant(self);
        }
        self.capacity
    }

    /// Takes in a batch, sample by sample on every channel; a full channel
    /// lets its oldest sample go for each new one. A batch that is invalid,
    /// or sampled at another rate, or of another number of channels is
    /// refused, and the buffer stays as it was.
    pub fn push_batch(&mut self, batch: &SignalBatch<T>) -> (pushed: Result<(), ModelizeError>) where
        T: Copy,

        ensures
            pushed == old(self)@.push_verdict(
                batch.sample_rate_hz,
                batch.samples@.len(),
                batch.channel_labels@.len(),
            ),
            pushed.is_ok() ==> final(self)@ == old(self)@.after_push(rows_of(batch.samples@)),
            pushed.is_err() ==> final(self)@ == old(self)@,
            old(self)@.within_capacity(),
            final(self)@.within_capacity(),
    {
        proof {
            use_type_invariant(&*self);
        }
        match batch.validate() {
            Err(fault) => {
                return Err(fault);
            },
            Ok(()) => {},
        }
        if batch.sample_rate_hz != self.sample_rate_hz {
            return Err(
                ModelizeError::SampleRateMismatch {
                    expected: self.sample_rate_hz,
                    actual: batch.sample_rate_hz,
                },
            );
        }
        if batch.num_channels() != self.table.queues.len() {
            return Err(
                ModelizeError::ChannelCountMismatch {
                    expected: self.table.queues.len(),
                    actual: batch.num_channels(),
                },
            );
        }
        let capacity: usize = self.capacity;
        let ghost before = self@;
        let ghost rows = rows_of(batch.samples@);
        let mut table: ChannelTable<T> = ChannelTable::empty();
        std::mem::swap(&mut self.table, &mut table);
        let count: usize = table.queues.len();
        let mut c: usize = 0;
        while c < count
            invariant
                c <= count,
                count == batch.samples@.len(),
                rows == rows_of(batch.samples@),
                table.labels@ == before.labels,
                table.queues@.len() == count,
                before.labels.len() == count,
                before.channels.len() == count,
                forall|j: int|
                    0 <= j < count ==> (#[trigger] before.channels[j]).len() <= capacity,
                forall|j: int|
                    0 <= j < c ==> (#[trigger] table.queues@[j])@ == keep_last(
                        before.channels[j] + rows[j],
                        capacity as nat,
                    ),
                forall|j: int|
                    c <= j < count ==> (#[trigger] table.queues@[j])@ == before.channels[j],
            decreases count - c,
        {
            let ghost held = before.channels[c as int];
            let row: &Vec<T> = &batch.samples[c];
            let mut i: usize = 0;
            assert(held + row@.subrange(0, 0) =~= held);
            while i < row.len()
                invariant
                    i <= row@.len(),
                    c < count,
                    table.labels@ == before.labels,
                    table.queues@.len() == count,
                    held.len() <= capacity,
                    table.queues@[c as int]@ == keep_last(
                        held + row@.subrange(0, i as int),
                        capacity as nat,
                    ),
                    forall|j: int|
                        0 <= j < c ==> (#[trigger] table.queues@[j])@ == keep_last(
                            before.channels[j] + rows[j],
                            capacity as nat,
                        ),
                    forall|j: int|
                        c < j < count ==> (#[trigger] table.queues@[j])@ == before.channels[j],
                decreases row@.len() - i,
            {
                proof {
                    lemma_keep_last_absorbs(
                        held + row@.subrange(0, i as int),
                        seq![row@[i as int]],
                        capacity as nat,
                    );
                    assert(held + row@.subrange(0, i as int) + seq![row@[i as int]] =~= held
                        + row@.subrange(0, i as int + 1));
                    assert(table.queues@[c as int]@.push(row@[i as int])
                        =~= table.queues@[c as int]@ + seq![row@[i as int]]);
                }
                push_evicting(&mut table.queues[c], capacity, row[i]);
                i += 1;
            }
            assert(row@.subrange(0, row@.len() as int) =~= row@);
            c += 1;
        }
        assert(table.contents() =~= before.after_push(rows).channels);
        std::mem::swap(&mut self.table, &mut table);
        Ok(())
    }

    /// The most recent samples of every channel that fall into the last
    /// `seconds`: as many as cover that span at the buffer's rate, fewer
    /// where a channel holds fewer. Nothing is padded, and the buffer is not
    /// changed.
    pub fn snapshot(&self, seconds: Seconds) -> (frame: TimeSeriesFrame<T>) where T: Copy
        ensures
            self@.yields(seconds, frame),
            frame.samples@.len() == frame.channel_labels@.len(),
    {
        proof {
            use_type_invariant(self);
        }
        let take: usize = seconds.samples(self.sample_rate_hz);
        let frame = self.newest_samples(take);
        assert(frame.rows().len() == self@.channels.len());
        frame
    }

    /// All that the buffer holds.
    pub fn full_frame(&self) -> (frame: TimeSeriesFrame<T>) where T: Copy
        ensures
            frame.sample_rate_hz == self@.sample_rate_hz,
            frame.channel_labels@ == self@.labels,
            frame.rows() == self@.channels,
            frame.samples@.len() == frame.channel_labels@.len(),
    {
        proof {
            use_type_invariant(self);
        }
        let frame = self.newest_samples(self.capacity);
        assert(frame.rows() =~= self@.channels);
        frame
    }

    /// The newest `take` samples of every channel, as a frame.
    fn newest_samples(&self, take: usize) -> (frame: TimeSeriesFrame<T>) where T: Copy
        ensures
            frame.sample_rate_hz == self@.sample_rate_hz,
            frame.channel_labels@ == self@.labels,
            frame.rows() == self@.newest(take as nat),
    {
        let count: usize = self.table.queues.len();
        let mut samples: Vec<Vec<T>> = Vec::new();
        let mut c: usize = 0;
        while c < count
            invariant
                c <= count,
                count == self.table.queues@.len(),
                samples@.len() == c,
                forall|j: int|
                    0 <= j < c ==> (#[trigger] samples@[j])@ == keep_last(
                        self.table.queues@[j]@,
                        take as nat,
                    ),
            decreases count - c,
        {
            let channel: &VecDeque<T> = &self.table.queues[c];
            let held: usize = channel.len();
            let start: usize = if held <= take {
                0
            } else {
                held - take
            };
            let mut row: Vec<T> = Vec::new();
            let mut i: usize = start;
            while i < held
                invariant
                    start <= i <= held,
                    held == channel@.len(),
                    row@ == channel@.subrange(start as int, i as int),
                decreases held - i,
            {
                row.push(channel[i]);
                i += 1;
                assert(row@ =~= channel@.subrange(start as int, i as int));
            }
            assert(row@ =~= keep_last(channel@, take as nat));
            samples.push(row);
            c += 1;
        }
        let channel_labels: Vec<String> = self.table.labels.clone();
        assert(channel_labels@ =~= self.table.labels@);
        let frame = TimeSeriesFrame { sample_rate_hz: self.sample_rate_hz, channel_labels, samples };
        assert(frame.rows() =~= self@.newest(take as nat));
        frame
    }

    #[verifier::type_invariant]
    spec fn well_formed(self) -> bool {
        &&& self.sample_rate_hz > 0
        &&& self.table.fits(self.capacity as nat)
    }
}

} // verus!
