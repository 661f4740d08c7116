//! Batches of samples and where they come from.

use crate::drivers::error::ModelizeError;
use crate::units::{span_of_samples, Seconds};
use std::collections::VecDeque;
use std::time::SystemTime;
use vstd::prelude::*;

verus! {

/// `std::time::SystemTime`, an instant of the system clock. The library
/// carries such instants and never looks into one.
#[verifier::external_type_specification]
#[verifier::external_body]
pub struct ExSystemTime(std::time::SystemTime);

/// `SystemTime::clone` copies an instant; the library never reads one, so
/// nothing is claimed of the copy.
pub assume_specification[ <std::time::SystemTime as std::clone::Clone>::clone ](
    instant: &std::time::SystemTime,
) -> std::time::SystemTime
;

/// `SystemTime::now` reads the system clock; nothing is claimed of what it
/// returns.
pub assume_specification[ std::time::SystemTime::now ]() -> std::time::SystemTime
;

/// Samples taken at the same instants on every channel.
#[derive(Clone, Debug)]
pub struct SignalBatch<T> {
    /// When the first sample was taken.
    pub started_at: SystemTime,
    /// Samples per second on each channel.
    pub sample_rate_hz: u32,
    /// One row of samples per channel, oldest first.
    pub samples: Vec<Vec<T>>,
    /// One label per channel.
    pub channel_labels: Vec<String>,
}

/// What `SignalBatch::validate` answers for a batch of the given rate, rows
/// and labels.
pub open spec fn batch_verdict(sample_rate_hz: u32, rows: nat, labels: nat) -> Result<
    (),
    ModelizeError,
> {
    if sample_rate_hz == 0 {
        Err(ModelizeError::InvalidSampleRate)
    } else if rows != labels {
        Err(
            ModelizeError::ChannelCountMismatch {
                expected: labels as usize,
                actual: rows as usize,
            },
        )
    } else {
        Ok(())
    }
}

impl<T> SignalBatch<T> {
    /// A batch is valid when it has a rate and one label per row.
    pub open spec fn valid(&self) -> bool {
        &&& self.sample_rate_hz > 0
        &&& self.samples@.len() == self.channel_labels@.len()
    }

    /// What `validate` answers for this batch.
    pub open spec fn verdict(&self) -> Result<(), ModelizeError> {
        batch_verdict(self.sample_rate_hz, self.samples@.len(), self.channel_labels@.len())
    }

    /// Checks the batch: `InvalidSampleRate` for a rate of zero, else
    /// `ChannelCountMismatch` where rows and labels differ in number, else
    /// `Ok`.
    pub fn validate(&self) -> (checked: Result<(), ModelizeError>)
        ensures
            checked == self.verdict(),
            checked.is_ok() <==> self.valid(),
    {
        if self.sample_rate_hz == 0 {
            return Err(ModelizeError::InvalidSampleRate);
        }
        let channel_count: usize = self.samples.len();
        if channel_count != self.channel_labels.len() {
            return Err(
                ModelizeError::ChannelCountMismatch {
                    expected: self.channel_labels.len(),
                    actual: channel_count,
                },
            );
        }
        Ok(())
    }

    /// The number of rows.
    pub fn num_channels(&self) -> (count: usize)
        ensures
            count == self.samples@.len(),
    {
        self.samples.len()
    }

    /// The length of the first row; `None` for a batch without rows.
    pub fn samples_per_channel(&self) -> (count: Option<usize>)
        ensures
            count == if self.samples@.len() == 0 {
                None
            } else {
                Some(self.samples@[0].len())
            },
    {
        if self.samples.len() == 0 {
            None
        } else {
            Some(self.samples[0].len())
        }
    }

    /// The time that the first row covers; `None` for a batch without rows.
    pub fn duration(&self) -> (span: Option<Seconds>)
        ensures
            span.is_some() <==> self.samples@.len() > 0,
            span matches Some(covered) ==> covered.micros == span_of_samples(
                self.samples@[0].len() as nat,
                self.sample_rate_hz,
            ),
    {
        match self.samples_per_channel() {
            Some(len) => Some(Seconds::of_samples(len, self.sample_rate_hz)),
            None => None,
        }
    }
}

/// Something that yields batches on demand.
pub trait SignalSource<T>: Sized {
    /// Whether the source, asked for its next batch, may answer `next` and
    /// be `after` once it has. Each source says here how it behaves; the
    /// pipeline relies on nothing else.
    spec fn hands(&self, next: Result<Option<SignalBatch<T>>, ModelizeError>, after: Self) -> bool;

    /// The next batch; `Ok(None)` when there is none for now.
    fn next_batch(&mut self) -> (next: Result<Option<SignalBatch<T>>, ModelizeError>)
        ensures
            old(self).hands(next, *final(self)),
    ;
}

/// A source that plays back batches held in memory, in the order given.
pub struct ManualSource<T> {
    queue: VecDeque<SignalBatch<T>>,
}

impl<T> View for ManualSource<T> {
    type V = Seq<SignalBatch<T>>;

    /// The batches not yet played, next one first.
    closed spec fn view(&self) -> Seq<SignalBatch<T>> {
        self.queue@
    }
}

impl<T> ManualSource<T> {
    /// A source that yields `batches`, first to last.
    pub fn new(batches: Vec<SignalBatch<T>>) -> (source: Self)
        ensures
            source@ == batches@,
    {
        let mut batches = batches;
        let mut queue: VecDeque<SignalBatch<T>> = VecDeque::new();
        let ghost all = batches@;
        while batches.len() > 0
            invariant
                batches@ + queue@ == all,
            decreases batches@.len(),
        {
            let ghost before = batches@;
            let ghost queued = queue@;
            match batches.pop() {
                Some(batch) => {
                    queue.push_front(batch);
                    assert(batches@ + queue@ =~= before + queued);
                },
                None => {},
            }
        }
        assert(queue@ =~= all);
        Self { queue }
    }
}

impl<T> SignalSource<T> for ManualSource<T> {
    /// A source in memory hands out the batch at its front and is left with
    /// the batches behind it; once it is empty it answers that there is none,
    /// and stays empty. It never fails.
    open spec fn hands(
        &self,
        next: Result<Option<SignalBatch<T>>, ModelizeError>,
        after: Self,
    ) -> bool {
        if self@.len() == 0 {
            &&& next == Ok::<Option<SignalBatch<T>>, ModelizeError>(None)
            &&& after@ == self@
        } else {
            &&& next == Ok::<Option<SignalBatch<T>>, ModelizeError>(Some(self@[0]))
            &&& after@ == self@.subrange(1, self@.len() as int)
        }
    }

    /// Hands out the batch at the front; never fails.
    fn next_batch(&mut self) -> (next: Result<Option<SignalBatch<T>>, ModelizeError>)
        ensures
            next == if old(self)@.len() == 0 {
                Ok::<Option<SignalBatch<T>>, ModelizeError>(None)
            } else {
                Ok(Some(old(self)@[0]))
            },
            final(self)@ == if old(self)@.len() == 0 {
                old(self)@
            } else {
                old(self)@.subrange(1, old(self)@.len() as int)
            },
    {
        Ok(self.queue.pop_front())
    }
}

} // verus!
